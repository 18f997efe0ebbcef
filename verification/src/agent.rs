//! Peer agent: the protocol decisions of the two client-side roles. The
//! registrant announces a name and punches toward every requester endpoint
//! the coordinator discloses; the requester asks for a name and, on a
//! disclosure, opens the direct path with a first application message.
//! The surrounding receive loops, sockets and timers stay outside the
//! library: they hand received bytes in and carry the returned bytes out.

use vstd::prelude::*;
use crate::endpoint::{decode_endpoint, spec_decode_endpoint, Endpoint};
use crate::wire::{decode, encode, spec_encode, spec_kind, spec_payload, Message};

verus! {

/// Builds the announcement datagram a registrant sends to the coordinator
/// to register `name` under its observed source endpoint.
pub fn announce_datagram(name: &[u8]) -> (bytes: Vec<u8>)
    ensures
        bytes@ == spec_encode(Message::Announcement, name@),
{
    encode(Message::Announcement, name)
}

/// Builds the request datagram a requester sends to the coordinator to ask
/// for the endpoint registered under `name`.
pub fn request_datagram(name: &[u8]) -> (bytes: Vec<u8>)
    ensures
        bytes@ == spec_encode(Message::Request, name@),
{
    encode(Message::Request, name)
}

/// Builds an application-message datagram carrying an opaque payload.
pub fn application_datagram(payload: &[u8]) -> (bytes: Vec<u8>)
    ensures
        bytes@ == spec_encode(Message::Message, payload@),
{
    encode(Message::Message, payload)
}

/// The payload of the punch datagram. The byte means nothing; the
/// datagram only has to be non-empty to traverse the NAT.
pub open spec fn spec_punch_payload() -> Seq<u8> {
    seq![0xaau8]
}

/// Builds the minimal punch datagram: an application-message tag with a
/// one-byte payload whose content is irrelevant — its only purpose is to
/// open the sender's outbound NAT mapping.
pub fn punch_datagram() -> (bytes: Vec<u8>)
    ensures
        bytes@ == spec_encode(Message::Message, spec_punch_payload()),
        bytes@.len() == 2,
{
    let mut payload: Vec<u8> = Vec::new();
    payload.push(0xaa);
    let bytes = encode(Message::Message, payload.as_slice());
    assert(bytes@ =~= spec_encode(Message::Message, spec_punch_payload()));
    bytes
}

/// What the registrant role does with a datagram it received.
pub enum RegistrantAction {
    /// Send the punch datagram to the disclosed requester endpoint.
    Punch {
        /// The requester's public endpoint, as the coordinator disclosed it.
        dest: Endpoint,
        /// The punch datagram to send there.
        datagram: Vec<u8>,
    },
    /// Surface an application payload to the application layer.
    Deliver {
        /// The opaque payload, with the tag byte stripped.
        payload: Vec<u8>,
    },
    /// Log the datagram as unexpected and keep listening.
    Ignore,
}

/// One step of the registrant's receive loop. A `ClientAddress` datagram
/// with a well-formed endpoint payload draws a punch toward that endpoint;
/// an application message is surfaced; anything else — a malformed
/// endpoint included — is ignored.
pub fn registrant_handle(received: &[u8]) -> (action: RegistrantAction)
    ensures
        ({
            let kind = spec_kind(received@);
            let payload = spec_payload(received@);
            &&& kind == Message::ClientAddress ==> (match spec_decode_endpoint(payload) {
                Some(ep) => action matches RegistrantAction::Punch { dest, datagram } && dest == ep
                    && datagram@ == spec_encode(Message::Message, spec_punch_payload()),
                None => action is Ignore,
            })
            &&& kind == Message::Message ==> (action matches RegistrantAction::Deliver { payload: p }
                && p@ == payload)
            &&& kind != Message::ClientAddress && kind != Message::Message ==> action is Ignore
        }),
{
    let (kind, payload) = decode(received);
    match kind {
        Message::ClientAddress => {
            match decode_endpoint(payload) {
                Ok(dest) => RegistrantAction::Punch { dest, datagram: punch_datagram() },
                Err(_) => RegistrantAction::Ignore,
            }
        },
        Message::Message => {
            RegistrantAction::Deliver { payload: vstd::slice::slice_to_vec(payload) }
        },
        _ => RegistrantAction::Ignore,
    }
}

/// Why a rendezvous attempt failed.
#[derive(Clone, Copy, PartialEq, Eq, Structural, Debug)]
pub enum RendezvousError {
    /// No reply arrived within the configured timeout.
    RendezvousTimeout,
    /// The coordinator replied with an error: the name is not registered.
    PeerNotFound,
    /// The reply was not one the protocol allows at this point.
    ProtocolViolation,
}

/// The requester's verdict on its bounded wait for a coordinator reply.
/// `None` — the timeout elapsed with no reply — is a timeout, never
/// conflated with a lookup miss; an `Error` reply is a miss; a
/// `ServerAddress` reply with a well-formed endpoint payload hands back
/// the endpoint to punch and talk to; anything else is a protocol
/// violation.
pub fn requester_handle_reply(reply: Option<&[u8]>) -> (r: Result<Endpoint, RendezvousError>)
    ensures
        match reply {
            None => r == Err::<Endpoint, RendezvousError>(RendezvousError::RendezvousTimeout),
            Some(bytes) => {
                let kind = spec_kind(bytes@);
                let payload = spec_payload(bytes@);
                if kind == Message::Error {
                    r == Err::<Endpoint, RendezvousError>(RendezvousError::PeerNotFound)
                } else if kind == Message::ServerAddress {
                    match spec_decode_endpoint(payload) {
                        Some(ep) => r == Ok::<Endpoint, RendezvousError>(ep),
                        None => r == Err::<Endpoint, RendezvousError>(
                            RendezvousError::ProtocolViolation,
                        ),
                    }
                } else {
                    r == Err::<Endpoint, RendezvousError>(RendezvousError::ProtocolViolation)
                }
            },
        },
{
    match reply {
        None => Err(RendezvousError::RendezvousTimeout),
        Some(bytes) => {
            let (kind, payload) = decode(bytes);
            match kind {
                Message::Error => Err(RendezvousError::PeerNotFound),
                Message::ServerAddress => {
                    match decode_endpoint(payload) {
                        Ok(ep) => Ok(ep),
                        Err(_) => Err(RendezvousError::ProtocolViolation),
                    }
                },
                _ => Err(RendezvousError::ProtocolViolation),
            }
        },
    }
}

} // verus!
