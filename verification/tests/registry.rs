use puncher::endpoint::{Endpoint, Ip};
use puncher::registry::Registry;

fn ep(last_octet: u8, port: u16) -> Endpoint {
    Endpoint { ip: Ip::V4(10, 0, 0, last_octet), port }
}

#[test]
fn lookup_in_empty_registry_is_none() {
    let reg = Registry::new();
    assert_eq!(reg.lookup(b"anyone"), None);
}

#[test]
fn register_then_lookup() {
    let mut reg = Registry::new();
    reg.register(b"alice", ep(1, 1111));
    assert_eq!(reg.lookup(b"alice"), Some(ep(1, 1111)));
}

#[test]
fn last_write_wins() {
    let mut reg = Registry::new();
    reg.register(b"a", ep(1, 1111));
    reg.register(b"a", ep(2, 2222));
    assert_eq!(reg.lookup(b"a"), Some(ep(2, 2222)));
}

#[test]
fn lookup_of_unregistered_name_is_none() {
    let mut reg = Registry::new();
    reg.register(b"alice", ep(1, 1111));
    assert_eq!(reg.lookup(b"unregistered"), None);
}

#[test]
fn names_are_independent() {
    let mut reg = Registry::new();
    reg.register(b"alice", ep(1, 1111));
    reg.register(b"bob", ep(2, 2222));
    reg.register(b"alice", ep(3, 3333));
    assert_eq!(reg.lookup(b"alice"), Some(ep(3, 3333)));
    assert_eq!(reg.lookup(b"bob"), Some(ep(2, 2222)));
}

#[test]
fn empty_name_is_a_key_like_any_other() {
    let mut reg = Registry::new();
    reg.register(b"", ep(9, 9999));
    assert_eq!(reg.lookup(b""), Some(ep(9, 9999)));
    assert_eq!(reg.lookup(b"x"), None);
}
