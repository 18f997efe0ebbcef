//! The full three-way choreography on concrete values: announce, request,
//! the coordinator's twin disclosures, and both punches.

use puncher::agent::{
    announce_datagram, application_datagram, registrant_handle, request_datagram,
    requester_handle_reply, RegistrantAction,
};
use puncher::coordinator::handle_datagram;
use puncher::endpoint::{Endpoint, Ip};
use puncher::registry::Registry;

#[test]
fn rendezvous_scenario() {
    let a = Endpoint { ip: Ip::V4(233, 252, 0, 1), port: 40001 }; // registrant "alice"
    let b = Endpoint { ip: Ip::V4(233, 252, 0, 2), port: 40002 }; // requester

    let mut reg = Registry::new();

    // Registrant announces "alice" from endpoint A.
    let replies = handle_datagram(&mut reg, a, &announce_datagram(b"alice"));
    assert!(replies.is_empty());

    // Requester asks for "alice" from endpoint B.
    let replies = handle_datagram(&mut reg, b, &request_datagram(b"alice"));
    assert_eq!(replies.len(), 2);
    let (first_dest, server_address) = &replies[0];
    let (second_dest, client_address) = &replies[1];
    assert_eq!(*first_dest, b); // ServerAddress(A) goes to B
    assert_eq!(*second_dest, a); // ClientAddress(B) goes to A

    // Requester learns A and opens the direct path with a first message.
    let server = requester_handle_reply(Some(server_address)).expect("rendezvous succeeds");
    assert_eq!(server, a);
    let first_message = application_datagram(b"This is a message from a client!");
    assert!(!first_message.is_empty());

    // Registrant learns B and punches toward it.
    match registrant_handle(client_address) {
        RegistrantAction::Punch { dest, datagram } => {
            assert_eq!(dest, b);
            assert!(!datagram.is_empty());
        }
        _ => panic!("expected a punch toward the requester"),
    }

    // The requester's first message arrives at the registrant directly.
    match registrant_handle(&first_message) {
        RegistrantAction::Deliver { payload } => {
            assert_eq!(payload, b"This is a message from a client!");
        }
        _ => panic!("expected the application payload to surface"),
    }
}
