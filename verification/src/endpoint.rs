//! Endpoints: an IP address (v4 or v6) with a 16-bit port, and their
//! compact, self-delimiting binary encoding used as the payload of
//! `ClientAddress` and `ServerAddress` datagrams.
//!
//! On the wire an endpoint is an IP version tag (the byte 4 or 6), the
//! address — four octets for v4, eight 16-bit segments for v6 — and the
//! port, all multi-byte values in big-endian order.

use vstd::prelude::*;
use crate::wire::CodecError;

verus! {

/// An IP address, version 4 or 6. A v6 address is given by its eight
/// 16-bit segments, in order.
#[derive(Clone, Copy, PartialEq, Eq, Structural, Debug)]
pub enum Ip {
    /// A v4 address, as its four octets in order.
    V4(u8, u8, u8, u8),
    /// A v6 address, as its eight 16-bit segments in order.
    V6(u16, u16, u16, u16, u16, u16, u16, u16),
}

/// An IP address and port: a reachable network location.
#[derive(Clone, Copy, PartialEq, Eq, Structural, Debug)]
pub struct Endpoint {
    /// The IP address.
    pub ip: Ip,
    /// The UDP port.
    pub port: u16,
}

/// IP and port of a peer, as disclosed in address datagrams.
#[derive(Clone, Copy, PartialEq, Eq, Structural, Debug)]
pub struct Peer {
    /// The peer's public endpoint.
    pub address: Endpoint,
}

impl Peer {
    /// Wraps an endpoint as a peer.
    pub fn new(address: Endpoint) -> (p: Self)
        ensures
            p.address == address,
    {
        Self { address }
    }
}

/// The high byte of a 16-bit value in big-endian order.
pub open spec fn hi_byte(x: u16) -> u8 {
    ((x as int) / 256) as u8
}

/// The low byte of a 16-bit value in big-endian order.
pub open spec fn lo_byte(x: u16) -> u8 {
    ((x as int) % 256) as u8
}

/// The 16-bit value read from two bytes in big-endian order.
pub open spec fn u16_of(hi: u8, lo: u8) -> u16 {
    (256 * (hi as int) + (lo as int)) as u16
}

/// The encoding of an endpoint: version tag, address bytes, port bytes.
pub open spec fn spec_encode_endpoint(e: Endpoint) -> Seq<u8> {
    match e.ip {
        Ip::V4(a, b, c, d) => seq![4u8, a, b, c, d, hi_byte(e.port), lo_byte(e.port)],
        Ip::V6(s0, s1, s2, s3, s4, s5, s6, s7) => seq![
            6u8,
            hi_byte(s0),
            lo_byte(s0),
            hi_byte(s1),
            lo_byte(s1),
            hi_byte(s2),
            lo_byte(s2),
            hi_byte(s3),
            lo_byte(s3),
            hi_byte(s4),
            lo_byte(s4),
            hi_byte(s5),
            lo_byte(s5),
            hi_byte(s6),
            lo_byte(s6),
            hi_byte(s7),
            lo_byte(s7),
            hi_byte(e.port),
            lo_byte(e.port),
        ],
    }
}

/// The endpoint encoded in the given bytes, or `None` when they do not
/// follow the endpoint encoding exactly.
pub open spec fn spec_decode_endpoint(s: Seq<u8>) -> Option<Endpoint> {
    if s.len() == 7 && s[0] == 4 {
        Some(
            Endpoint {
                ip: Ip::V4(s[1], s[2], s[3], s[4]),
                port: u16_of(s[5], s[6]),
            },
        )
    } else if s.len() == 19 && s[0] == 6 {
        Some(
            Endpoint {
                ip: Ip::V6(
                    u16_of(s[1], s[2]),
                    u16_of(s[3], s[4]),
                    u16_of(s[5], s[6]),
                    u16_of(s[7], s[8]),
                    u16_of(s[9], s[10]),
                    u16_of(s[11], s[12]),
                    u16_of(s[13], s[14]),
                    u16_of(s[15], s[16]),
                ),
                port: u16_of(s[17], s[18]),
            },
        )
    } else {
        None
    }
}

/// Pushes a 16-bit value onto `out` as two bytes in big-endian order.
fn push_u16(out: &mut Vec<u8>, x: u16)
    ensures
        final(out)@ == old(out)@ + seq![hi_byte(x), lo_byte(x)],
{
    out.push((x / 256) as u8);
    out.push((x % 256) as u8);
    assert(out@ =~= old(out)@ + seq![hi_byte(x), lo_byte(x)]);
}

/// Reads the 16-bit value held by two bytes in big-endian order.
fn read_u16(hi: u8, lo: u8) -> (x: u16)
    ensures
        x == u16_of(hi, lo),
{
    (hi as u16) * 256 + (lo as u16)
}

/// Serializes an endpoint into its binary encoding.
pub fn encode_endpoint(e: &Endpoint) -> (bytes: Vec<u8>)
    ensures
        bytes@ == spec_encode_endpoint(*e),
{
    let mut out: Vec<u8> = Vec::new();
    match e.ip {
        Ip::V4(a, b, c, d) => {
            out.push(4);
            out.push(a);
            out.push(b);
            out.push(c);
            out.push(d);
            push_u16(&mut out, e.port);
        },
        Ip::V6(s0, s1, s2, s3, s4, s5, s6, s7) => {
            out.push(6);
            push_u16(&mut out, s0);
            push_u16(&mut out, s1);
            push_u16(&mut out, s2);
            push_u16(&mut out, s3);
            push_u16(&mut out, s4);
            push_u16(&mut out, s5);
            push_u16(&mut out, s6);
            push_u16(&mut out, s7);
            push_u16(&mut out, e.port);
        },
    }
    assert(out@ =~= spec_encode_endpoint(*e));
    out
}

/// Deserializes an endpoint from its binary encoding; malformed bytes fail
/// with `CodecError::MalformedEndpoint`.
pub fn decode_endpoint(bytes: &[u8]) -> (r: Result<Endpoint, CodecError>)
    ensures
        match spec_decode_endpoint(bytes@) {
            Some(e) => r == Ok::<Endpoint, CodecError>(e),
            None => r == Err::<Endpoint, CodecError>(CodecError::MalformedEndpoint),
        },
{
    if bytes.len() == 7 && bytes[0] == 4 {
        let port = read_u16(bytes[5], bytes[6]);
        Ok(Endpoint { ip: Ip::V4(bytes[1], bytes[2], bytes[3], bytes[4]), port })
    } else if bytes.len() == 19 && bytes[0] == 6 {
        let ip = Ip::V6(
            read_u16(bytes[1], bytes[2]),
            read_u16(bytes[3], bytes[4]),
            read_u16(bytes[5], bytes[6]),
            read_u16(bytes[7], bytes[8]),
            read_u16(bytes[9], bytes[10]),
            read_u16(bytes[11], bytes[12]),
            read_u16(bytes[13], bytes[14]),
            read_u16(bytes[15], bytes[16]),
        );
        let port = read_u16(bytes[17], bytes[18]);
        Ok(Endpoint { ip, port })
    } else {
        Err(CodecError::MalformedEndpoint)
    }
}

/// Splitting a 16-bit value into its big-endian bytes and reading them back
/// yields the value again.
pub proof fn lemma_u16_bytes_round_trip(x: u16)
    ensures
        u16_of(hi_byte(x), lo_byte(x)) == x,
{
    vstd::arithmetic::div_mod::lemma_fundamental_div_mod(x as int, 256);
}

/// Endpoint round trip: decoding the encoding of any endpoint yields that
/// endpoint again.
pub proof fn lemma_endpoint_round_trip(e: Endpoint)
    ensures
        spec_decode_endpoint(spec_encode_endpoint(e)) == Some(e),
{
    lemma_u16_bytes_round_trip(e.port);
    match e.ip {
        Ip::V4(a, b, c, d) => {
        },
        Ip::V6(s0, s1, s2, s3, s4, s5, s6, s7) => {
            lemma_u16_bytes_round_trip(s0);
            lemma_u16_bytes_round_trip(s1);
            lemma_u16_bytes_round_trip(s2);
            lemma_u16_bytes_round_trip(s3);
            lemma_u16_bytes_round_trip(s4);
            lemma_u16_bytes_round_trip(s5);
            lemma_u16_bytes_round_trip(s6);
            lemma_u16_bytes_round_trip(s7);
        },
    }
}

} // verus!
