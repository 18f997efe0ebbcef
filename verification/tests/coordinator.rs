use puncher::coordinator::handle_datagram;
use puncher::endpoint::{decode_endpoint, Endpoint, Ip};
use puncher::registry::Registry;
use puncher::wire::{decode, encode, Message};

fn ep(last_octet: u8, port: u16) -> Endpoint {
    Endpoint { ip: Ip::V4(203, 0, 113, last_octet), port }
}

#[test]
fn announcement_registers_source_endpoint() {
    let mut reg = Registry::new();
    let source = ep(7, 4207);
    let replies = handle_datagram(&mut reg, source, &encode(Message::Announcement, b"srv"));
    assert!(replies.is_empty());
    assert_eq!(reg.lookup(b"srv"), Some(source));
}

#[test]
fn request_miss_draws_error_reply() {
    let mut reg = Registry::new();
    let requester = ep(9, 4209);
    let replies = handle_datagram(&mut reg, requester, &encode(Message::Request, b"nobody"));
    assert_eq!(replies.len(), 1);
    let (dest, bytes) = &replies[0];
    assert_eq!(*dest, requester);
    let (kind, payload) = decode(bytes);
    assert_eq!(kind, Message::Error);
    assert_eq!(payload, b"not found");
    assert_eq!(reg.lookup(b"nobody"), None);
}

#[test]
fn request_match_draws_exactly_two_disclosures() {
    let mut reg = Registry::new();
    let server = ep(1, 4201);
    let requester = ep(2, 4202);
    handle_datagram(&mut reg, server, &encode(Message::Announcement, b"srv"));
    let replies = handle_datagram(&mut reg, requester, &encode(Message::Request, b"srv"));
    assert_eq!(replies.len(), 2);

    let (to_requester, server_addr_bytes) = &replies[0];
    assert_eq!(*to_requester, requester);
    let (kind, payload) = decode(server_addr_bytes);
    assert_eq!(kind, Message::ServerAddress);
    assert_eq!(decode_endpoint(payload), Ok(server));

    let (to_server, client_addr_bytes) = &replies[1];
    assert_eq!(*to_server, server);
    let (kind, payload) = decode(client_addr_bytes);
    assert_eq!(kind, Message::ClientAddress);
    assert_eq!(decode_endpoint(payload), Ok(requester));

    // the registry itself is untouched by a request
    assert_eq!(reg.lookup(b"srv"), Some(server));
}

#[test]
fn later_announcement_overwrites_disclosed_endpoint() {
    let mut reg = Registry::new();
    let old_server = ep(1, 4201);
    let new_server = ep(3, 4203);
    let requester = ep(2, 4202);
    handle_datagram(&mut reg, old_server, &encode(Message::Announcement, b"srv"));
    handle_datagram(&mut reg, new_server, &encode(Message::Announcement, b"srv"));
    let replies = handle_datagram(&mut reg, requester, &encode(Message::Request, b"srv"));
    let (kind, payload) = decode(&replies[0].1);
    assert_eq!(kind, Message::ServerAddress);
    assert_eq!(decode_endpoint(payload), Ok(new_server));
}

#[test]
fn empty_datagram_is_dropped_and_registry_unchanged() {
    let mut reg = Registry::new();
    handle_datagram(&mut reg, ep(1, 4201), &encode(Message::Announcement, b"srv"));
    let replies = handle_datagram(&mut reg, ep(2, 4202), &[]);
    assert!(replies.is_empty());
    assert_eq!(reg.lookup(b"srv"), Some(ep(1, 4201)));
}

#[test]
fn invalid_utf8_name_is_dropped_and_registry_unchanged() {
    let mut reg = Registry::new();
    let source = ep(5, 4205);
    let replies = handle_datagram(&mut reg, source, &encode(Message::Announcement, &[0xff, 0xfe]));
    assert!(replies.is_empty());
    let replies = handle_datagram(&mut reg, source, &encode(Message::Request, &[0xff, 0xfe]));
    assert!(replies.is_empty());
    assert_eq!(reg.lookup(&[0xff, 0xfe]), None);
}

#[test]
fn unexpected_kinds_are_ignored() {
    let mut reg = Registry::new();
    let source = ep(6, 4206);
    for datagram in [
        encode(Message::Error, b"boom"),
        encode(Message::Message, b"hello"),
        encode(Message::ClientAddress, b"x"),
        encode(Message::ServerAddress, b"y"),
        vec![200, 1, 2],
    ] {
        let replies = handle_datagram(&mut reg, source, &datagram);
        assert!(replies.is_empty());
    }
    assert_eq!(reg.lookup(b"boom"), None);
}
