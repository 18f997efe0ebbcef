//! Rendezvous coordinator: classifies each received datagram, mutates or
//! queries the registry, and produces the endpoint-exchange datagrams that
//! trigger hole punching. The observed source endpoint of an inbound
//! datagram — never an address embedded in its payload — is what gets
//! recorded and disclosed.

use vstd::prelude::*;
use vstd::utf8::valid_utf8;
use crate::endpoint::{encode_endpoint, spec_encode_endpoint, Endpoint};
use crate::names::decode_name;
use crate::registry::Registry;
use crate::wire::{decode, encode, lemma_datagram_round_trip, spec_encode, spec_kind, spec_payload,
    Message};

verus! {

/// The UTF-8 text of the error reply to a request for an unregistered name.
pub open spec fn spec_not_found_text() -> Seq<u8> {
    seq![110u8, 111u8, 116u8, 32u8, 102u8, 111u8, 117u8, 110u8, 100u8]
}

/// The error reply payload: the text "not found".
fn not_found_text() -> (v: Vec<u8>)
    ensures
        v@ == spec_not_found_text(),
{
    let mut v: Vec<u8> = Vec::new();
    v.push(110);
    v.push(111);
    v.push(116);
    v.push(32);
    v.push(102);
    v.push(111);
    v.push(117);
    v.push(110);
    v.push(100);
    assert(v@ =~= spec_not_found_text());
    v
}

/// The destination–bytes view of a list of built reply datagrams.
pub open spec fn replies_view(out: Seq<(Endpoint, Vec<u8>)>) -> Seq<(Endpoint, Seq<u8>)> {
    out.map_values(|p: (Endpoint, Vec<u8>)| (p.0, p.1@))
}

/// The replies a request with name payload `name` from `source` draws out
/// of registry contents `reg`: on a hit, the registrant's endpoint to the
/// requester and the requester's endpoint to the registrant; on a miss, an
/// error to the requester; on an invalid name, nothing.
pub open spec fn spec_request_replies(
    reg: Map<Seq<u8>, Endpoint>,
    source: Endpoint,
    name: Seq<u8>,
) -> Seq<(Endpoint, Seq<u8>)> {
    if valid_utf8(name) {
        if reg.contains_key(name) {
            seq![
                (source, spec_encode(Message::ServerAddress, spec_encode_endpoint(reg[name]))),
                (reg[name], spec_encode(Message::ClientAddress, spec_encode_endpoint(source))),
            ]
        } else {
            seq![(source, spec_encode(Message::Error, spec_not_found_text()))]
        }
    } else {
        Seq::empty()
    }
}

/// The datagrams the coordinator sends back when a datagram with these
/// bytes arrives from `source` while the registry holds `reg`: only a
/// request draws replies.
pub open spec fn spec_replies(
    reg: Map<Seq<u8>, Endpoint>,
    source: Endpoint,
    bytes: Seq<u8>,
) -> Seq<(Endpoint, Seq<u8>)> {
    if spec_kind(bytes) == Message::Request {
        spec_request_replies(reg, source, spec_payload(bytes))
    } else {
        Seq::empty()
    }
}

/// The registry contents after the coordinator handles a datagram with
/// these bytes from `source`: only an announcement with a valid name
/// changes them, binding that name to the observed source endpoint.
pub open spec fn spec_registry_after(
    reg: Map<Seq<u8>, Endpoint>,
    source: Endpoint,
    bytes: Seq<u8>,
) -> Map<Seq<u8>, Endpoint> {
    if spec_kind(bytes) == Message::Announcement && valid_utf8(spec_payload(bytes)) {
        reg.insert(spec_payload(bytes), source)
    } else {
        reg
    }
}

/// Handles an announcement payload: a valid UTF-8 name is bound to the
/// observed source endpoint; anything else is discarded unrecorded.
pub fn announcement(data: &[u8], servers: &mut Registry, source: Endpoint)
    requires
        old(servers).wf(),
    ensures
        final(servers).wf(),
        valid_utf8(data@) ==> final(servers)@ == old(servers)@.insert(data@, source),
        !valid_utf8(data@) ==> final(servers)@ == old(servers)@,
{
    match decode_name(data) {
        Ok(name) => servers.register(name, source),
        Err(_) => {},
    }
}

/// Handles a request payload: computes the reply datagrams without
/// touching the registry contents.
pub fn request(data: &[u8], servers: &Registry, source: Endpoint) -> (replies: Vec<
    (Endpoint, Vec<u8>),
>)
    requires
        servers.wf(),
    ensures
        replies_view(replies@) == spec_request_replies(servers@, source, data@),
{
    let mut replies: Vec<(Endpoint, Vec<u8>)> = Vec::new();
    match decode_name(data) {
        Ok(name) => {
            match servers.lookup(name) {
                Some(peer) => {
                    let server_payload = encode_endpoint(&peer);
                    replies.push((source, encode(Message::ServerAddress, server_payload.as_slice())));
                    let client_payload = encode_endpoint(&source);
                    replies.push((peer, encode(Message::ClientAddress, client_payload.as_slice())));
                },
                None => {
                    let text = not_found_text();
                    replies.push((source, encode(Message::Error, text.as_slice())));
                },
            }
        },
        Err(_) => {},
    }
    proof {
        assert(replies_view(replies@) =~= spec_request_replies(servers@, source, data@));
    }
    replies
}

/// One step of the coordinator's receive loop: dispatches a received
/// datagram from `source`, updating the registry exactly as
/// `spec_registry_after` says and returning exactly the reply datagrams of
/// `spec_replies`, each paired with its destination. Every other kind of
/// datagram — including malformed ones — changes nothing and draws no
/// reply.
pub fn handle_datagram(servers: &mut Registry, source: Endpoint, datagram: &[u8]) -> (replies: Vec<
    (Endpoint, Vec<u8>),
>)
    requires
        old(servers).wf(),
    ensures
        final(servers).wf(),
        final(servers)@ == spec_registry_after(old(servers)@, source, datagram@),
        replies_view(replies@) == spec_replies(old(servers)@, source, datagram@),
{
    let (kind, payload) = decode(datagram);
    match kind {
        Message::Announcement => {
            announcement(payload, servers, source);
            let replies: Vec<(Endpoint, Vec<u8>)> = Vec::new();
            proof {
                assert(replies_view(replies@) =~= spec_replies(old(servers)@, source, datagram@));
            }
            replies
        },
        Message::Request => request(payload, servers, source),
        _ => {
            let replies: Vec<(Endpoint, Vec<u8>)> = Vec::new();
            proof {
                assert(replies_view(replies@) =~= spec_replies(old(servers)@, source, datagram@));
            }
            replies
        },
    }
}

/// Miss semantics: a request for a name the registry does not hold yields
/// exactly one reply, the "not found" error to the requester — never a
/// `ServerAddress` disclosure.
pub proof fn lemma_request_miss(reg: Map<Seq<u8>, Endpoint>, source: Endpoint, name: Seq<u8>)
    requires
        valid_utf8(name),
        !reg.contains_key(name),
    ensures
        spec_request_replies(reg, source, name) == seq![
            (source, spec_encode(Message::Error, spec_not_found_text())),
        ],
{
}

/// Successful match: a request from `source` for a registered name yields
/// exactly two replies — the registered endpoint to the requester as
/// `ServerAddress`, and the requester's observed endpoint to the
/// registrant as `ClientAddress`.
pub proof fn lemma_request_match(reg: Map<Seq<u8>, Endpoint>, source: Endpoint, name: Seq<u8>)
    requires
        valid_utf8(name),
        reg.contains_key(name),
    ensures
        spec_request_replies(reg, source, name).len() == 2,
        spec_request_replies(reg, source, name)[0] == (
            source,
            spec_encode(Message::ServerAddress, spec_encode_endpoint(reg[name])),
        ),
        spec_request_replies(reg, source, name)[1] == (
            reg[name],
            spec_encode(Message::ClientAddress, spec_encode_endpoint(source)),
        ),
{
}

/// Announce then request: once a valid name has been announced from
/// endpoint `a`, a request for that name from endpoint `b` draws exactly
/// the two disclosures that trigger punching — `ServerAddress(a)` to `b`
/// and `ClientAddress(b)` to `a` — whatever the registry held before.
pub proof fn lemma_announce_then_request(
    reg: Map<Seq<u8>, Endpoint>,
    a: Endpoint,
    b: Endpoint,
    name: Seq<u8>,
)
    requires
        valid_utf8(name),
    ensures
        spec_replies(
            spec_registry_after(reg, a, spec_encode(Message::Announcement, name)),
            b,
            spec_encode(Message::Request, name),
        ) == seq![
            (b, spec_encode(Message::ServerAddress, spec_encode_endpoint(a))),
            (a, spec_encode(Message::ClientAddress, spec_encode_endpoint(b))),
        ],
{
    lemma_datagram_round_trip(Message::Announcement, name);
    lemma_datagram_round_trip(Message::Request, name);
    let after = spec_registry_after(reg, a, spec_encode(Message::Announcement, name));
    assert(after == reg.insert(name, a));
    assert(after[name] == a);
}

/// Malformed input resilience: an empty datagram, or one whose name
/// payload is not valid UTF-8, leaves the registry unchanged and draws no
/// reply.
pub proof fn lemma_malformed_input(reg: Map<Seq<u8>, Endpoint>, source: Endpoint, bytes: Seq<u8>)
    requires
        bytes.len() == 0 || !valid_utf8(spec_payload(bytes)),
    ensures
        spec_registry_after(reg, source, bytes) == reg,
        spec_replies(reg, source, bytes) == Seq::<(Endpoint, Seq<u8>)>::empty(),
{
}

} // verus!
