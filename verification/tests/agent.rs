use puncher::agent::{
    announce_datagram, application_datagram, punch_datagram, registrant_handle,
    request_datagram, requester_handle_reply, RegistrantAction, RendezvousError,
};
use puncher::endpoint::{encode_endpoint, Endpoint, Ip};
use puncher::wire::{encode, Message};

fn ep(last_octet: u8, port: u16) -> Endpoint {
    Endpoint { ip: Ip::V4(198, 51, 100, last_octet), port }
}

#[test]
fn announce_and_request_datagrams() {
    assert_eq!(announce_datagram(b"alice"), encode(Message::Announcement, b"alice"));
    assert_eq!(request_datagram(b"alice"), vec![3, b'a', b'l', b'i', b'c', b'e']);
}

#[test]
fn punch_datagram_has_nonempty_payload() {
    let punch = punch_datagram();
    assert_eq!(punch, vec![1, 0xaa]);
    assert!(punch.len() > 1);
}

#[test]
fn no_reply_is_a_timeout() {
    assert_eq!(
        requester_handle_reply(None),
        Err(RendezvousError::RendezvousTimeout)
    );
}

#[test]
fn error_reply_means_peer_not_found() {
    let reply = encode(Message::Error, b"not found");
    assert_eq!(
        requester_handle_reply(Some(&reply)),
        Err(RendezvousError::PeerNotFound)
    );
}

#[test]
fn server_address_reply_hands_back_the_endpoint() {
    let server = ep(1, 4201);
    let reply = encode(Message::ServerAddress, &encode_endpoint(&server));
    assert_eq!(requester_handle_reply(Some(&reply)), Ok(server));
}

#[test]
fn malformed_server_address_is_a_protocol_violation() {
    let reply = encode(Message::ServerAddress, &[1, 2, 3]);
    assert_eq!(
        requester_handle_reply(Some(&reply)),
        Err(RendezvousError::ProtocolViolation)
    );
}

#[test]
fn unexpected_reply_is_a_protocol_violation() {
    for reply in [
        encode(Message::Message, b"hi"),
        encode(Message::Announcement, b"srv"),
        vec![77, 1],
        vec![],
    ] {
        assert_eq!(
            requester_handle_reply(Some(&reply)),
            Err(RendezvousError::ProtocolViolation)
        );
    }
}

#[test]
fn registrant_punches_on_client_address() {
    let requester = ep(2, 4202);
    let received = encode(Message::ClientAddress, &encode_endpoint(&requester));
    match registrant_handle(&received) {
        RegistrantAction::Punch { dest, datagram } => {
            assert_eq!(dest, requester);
            assert_eq!(datagram, vec![1, 0xaa]);
        }
        _ => panic!("expected a punch"),
    }
}

#[test]
fn registrant_surfaces_application_payload() {
    let received = encode(Message::Message, b"hello there");
    match registrant_handle(&received) {
        RegistrantAction::Deliver { payload } => assert_eq!(payload, b"hello there"),
        _ => panic!("expected a delivery"),
    }
}

#[test]
fn registrant_ignores_the_rest() {
    let malformed = encode(Message::ClientAddress, &[9, 9]);
    assert!(matches!(registrant_handle(&malformed), RegistrantAction::Ignore));
    let unexpected = encode(Message::Request, b"srv");
    assert!(matches!(registrant_handle(&unexpected), RegistrantAction::Ignore));
    assert!(matches!(registrant_handle(&[]), RegistrantAction::Ignore));
}

#[test]
fn application_datagram_frames_payload() {
    assert_eq!(application_datagram(b"ping"), vec![1, b'p', b'i', b'n', b'g']);
}
