//! Wire codec: the message-kind tag set and the framing of a datagram as
//! one leading tag byte followed by the payload.

use vstd::prelude::*;

verus! {

/// The kinds of datagram exchanged by the rendezvous protocol.
///
/// `Unsupported` is produced locally when a received tag byte falls outside
/// the defined range; a conformant sender never transmits it.
#[derive(Clone, Copy, PartialEq, Eq, Structural, Debug)]
pub enum Message {
    /// An error description, carried as UTF-8 text.
    Error,
    /// An informational or application payload, opaque to the protocol.
    Message,
    /// A server peer announces its name.
    Announcement,
    /// A peer asks for the endpoint registered under a name.
    Request,
    /// The coordinator discloses the requester's endpoint to the registrant.
    ClientAddress,
    /// The coordinator discloses the registrant's endpoint to the requester.
    ServerAddress,
    /// Local sentinel for a tag byte outside the defined range.
    Unsupported,
}

/// Decode failures that are distinct from an `Unsupported` message kind.
#[derive(Clone, Copy, PartialEq, Eq, Structural, Debug)]
pub enum CodecError {
    /// A name payload that is not valid UTF-8.
    InvalidName,
    /// Endpoint bytes that do not follow the endpoint encoding.
    MalformedEndpoint,
}

/// The tag byte a kind carries on the wire. `Unsupported` is never
/// transmitted; it is mapped to the first byte outside the defined range.
pub open spec fn spec_repr(m: Message) -> u8 {
    match m {
        Message::Error => 0,
        Message::Message => 1,
        Message::Announcement => 2,
        Message::Request => 3,
        Message::ClientAddress => 4,
        Message::ServerAddress => 5,
        Message::Unsupported => 6,
    }
}

/// The kind a tag byte denotes: bytes 0 through 5 are the defined kinds in
/// order, and every other byte denotes `Unsupported`.
pub open spec fn spec_kind_of(tag: u8) -> Message {
    if tag == 0 {
        Message::Error
    } else if tag == 1 {
        Message::Message
    } else if tag == 2 {
        Message::Announcement
    } else if tag == 3 {
        Message::Request
    } else if tag == 4 {
        Message::ClientAddress
    } else if tag == 5 {
        Message::ServerAddress
    } else {
        Message::Unsupported
    }
}

/// What `Message::from_repr` returns: the defined kind for bytes 0 through
/// 5, and `None` for any other byte.
pub open spec fn spec_from_repr(tag: u8) -> Option<Message> {
    if tag <= 5 {
        Some(spec_kind_of(tag))
    } else {
        None
    }
}

impl Message {
    /// The wire tag of a defined kind.
    pub fn repr(self) -> (tag: u8)
        requires
            self != Message::Unsupported,
        ensures
            tag == spec_repr(self),
    {
        match self {
            Message::Error => 0,
            Message::Message => 1,
            Message::Announcement => 2,
            Message::Request => 3,
            Message::ClientAddress => 4,
            Message::ServerAddress => 5,
            Message::Unsupported => 6,
        }
    }

    /// The kind denoted by a received tag byte, or `None` when the byte is
    /// outside the defined range.
    pub fn from_repr(value: u8) -> (m: Option<Message>)
        ensures
            m == spec_from_repr(value),
    {
        if value == 0 {
            Some(Message::Error)
        } else if value == 1 {
            Some(Message::Message)
        } else if value == 2 {
            Some(Message::Announcement)
        } else if value == 3 {
            Some(Message::Request)
        } else if value == 4 {
            Some(Message::ClientAddress)
        } else if value == 5 {
            Some(Message::ServerAddress)
        } else {
            None
        }
    }
}

/// Tag coverage: bytes 0 through 5 denote the six defined kinds, whose tags
/// decode back to themselves, and every byte above 5 denotes `Unsupported`.
pub proof fn lemma_tag_coverage(tag: u8)
    ensures
        tag <= 5 ==> spec_kind_of(tag) != Message::Unsupported && spec_repr(spec_kind_of(tag))
            == tag,
        tag > 5 ==> spec_kind_of(tag) == Message::Unsupported,
{
}

/// Every defined kind's tag byte decodes back to that kind.
pub proof fn lemma_repr_round_trip(m: Message)
    requires
        m != Message::Unsupported,
    ensures
        spec_kind_of(spec_repr(m)) == m,
{
}

/// Appends all of `bytes` to `out`, in order.
fn push_all(out: &mut Vec<u8>, bytes: &[u8])
    ensures
        final(out)@ == old(out)@ + bytes@,
{
    let ghost orig: Seq<u8> = out@;
    let mut i: usize = 0;
    while i < bytes.len()
        invariant
            i <= bytes@.len(),
            out@ == orig + bytes@.take(i as int),
        decreases bytes@.len() - i,
    {
        out.push(bytes[i]);
        i = i + 1;
        assert(out@ =~= orig + bytes@.take(i as int));
    }
    assert(out@ =~= orig + bytes@);
}

/// A datagram under construction: one tag byte followed by the payload.
pub struct Packet {
    data: Vec<u8>,
}

impl View for Packet {
    type V = Seq<u8>;

    closed spec fn view(&self) -> Seq<u8> {
        self.data@
    }
}

impl Packet {
    /// Starts a datagram of the given kind: its bytes are the kind's tag.
    pub fn new(message: Message) -> (p: Self)
        requires
            message != Message::Unsupported,
        ensures
            p@ == seq![spec_repr(message)],
    {
        let mut data: Vec<u8> = Vec::new();
        data.push(message.repr());
        assert(data@ =~= seq![spec_repr(message)]);
        Packet { data }
    }

    /// Appends raw payload bytes to the datagram.
    pub fn add_raw_data(self, data: &[u8]) -> (p: Self)
        ensures
            p@ == self@ + data@,
    {
        let mut grown = self;
        push_all(&mut grown.data, data);
        grown
    }

    /// Appends the binary encoding of a peer's endpoint to the datagram.
    pub fn add_addr(self, addr: &crate::endpoint::Endpoint) -> (p: Self)
        ensures
            p@ == self@ + crate::endpoint::spec_encode_endpoint(*addr),
    {
        let encoded = crate::endpoint::encode_endpoint(addr);
        self.add_raw_data(encoded.as_slice())
    }

    /// The finished datagram bytes, ready to hand to the transport.
    pub fn into_bytes(self) -> (bytes: Vec<u8>)
        ensures
            bytes@ == self@,
    {
        self.data
    }
}

/// The wire form of a datagram: the kind's tag byte followed by the payload.
pub open spec fn spec_encode(kind: Message, payload: Seq<u8>) -> Seq<u8> {
    seq![spec_repr(kind)] + payload
}

/// Builds the wire form of a datagram of the given kind and payload.
pub fn encode(kind: Message, payload: &[u8]) -> (bytes: Vec<u8>)
    requires
        kind != Message::Unsupported,
    ensures
        bytes@ == spec_encode(kind, payload@),
{
    Packet::new(kind).add_raw_data(payload).into_bytes()
}

/// The kind a received datagram carries: `Unsupported` when it is empty or
/// its tag byte is outside the defined range.
pub open spec fn spec_kind(bytes: Seq<u8>) -> Message {
    if bytes.len() == 0 {
        Message::Unsupported
    } else {
        spec_kind_of(bytes[0])
    }
}

/// The payload of a received datagram: everything after the tag byte.
pub open spec fn spec_payload(bytes: Seq<u8>) -> Seq<u8> {
    if bytes.len() == 0 {
        Seq::empty()
    } else {
        bytes.skip(1)
    }
}

/// Splits a received datagram into its kind and its payload. An empty
/// datagram or one with a tag outside the defined range yields
/// `Unsupported`; the payload bytes are returned unchanged.
pub fn decode<'a>(bytes: &'a [u8]) -> (r: (Message, &'a [u8]))
    ensures
        r.0 == spec_kind(bytes@),
        r.1@ == spec_payload(bytes@),
{
    if bytes.len() == 0 {
        assert(bytes@ =~= Seq::<u8>::empty());
        (Message::Unsupported, bytes)
    } else {
        let tag = bytes[0];
        let payload = &bytes[1..bytes.len()];
        assert(payload@ =~= bytes@.skip(1));
        let kind = match Message::from_repr(tag) {
            Some(k) => k,
            None => Message::Unsupported,
        };
        (kind, payload)
    }
}

/// Framing round trip: decoding the wire form of a defined kind and payload
/// yields that kind and that payload.
pub proof fn lemma_datagram_round_trip(kind: Message, payload: Seq<u8>)
    requires
        kind != Message::Unsupported,
    ensures
        spec_kind(spec_encode(kind, payload)) == kind,
        spec_payload(spec_encode(kind, payload)) == payload,
{
    lemma_repr_round_trip(kind);
    assert(spec_payload(spec_encode(kind, payload)) =~= payload);
}

} // verus!
