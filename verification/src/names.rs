//! Peer names: a name travels as raw UTF-8 bytes in the payload of
//! `Announcement` and `Request` datagrams, with no length prefix and no
//! terminator. Before a name is used it is validated; bytes that are not
//! valid UTF-8 fail with `CodecError::InvalidName`.

use vstd::prelude::*;
use vstd::utf8::*;
use crate::wire::CodecError;

verus! {

/// Checks that a codepoint whose encoding uses `len` bytes is neither an
/// overlong encoding nor a surrogate.
fn scalar_checks(cp: u32, len: usize) -> (r: bool)
    ensures
        r == (not_overlong_encoding(cp, len as int) && not_surrogate(cp)),
{
    let overlong_ok = if len == 2 {
        0x80 <= cp
    } else if len == 3 {
        0x800 <= cp
    } else if len == 4 {
        0x10000 <= cp && cp <= 0x10ffff
    } else {
        true
    };
    overlong_ok && !(0xd800 <= cp && cp <= 0xdfff)
}

/// Checks whether the bytes from position `i` on begin with a well-formed
/// UTF-8 encoding of a single Unicode scalar, and if so how many bytes that
/// encoding takes.
fn check_first_scalar(bytes: &[u8], i: usize) -> (r: Option<usize>)
    requires
        i < bytes@.len(),
    ensures
        match r {
            Some(w) => {
                &&& valid_first_scalar(bytes@.skip(i as int))
                &&& 1 <= w <= 4
                &&& i + w <= bytes@.len()
                &&& length_of_first_scalar(bytes@.skip(i as int)) == w as int
            },
            None => !valid_first_scalar(bytes@.skip(i as int)),
        },
{
    let ghost suffix = bytes@.skip(i as int);
    proof {
        assert(suffix.len() == bytes@.len() - i);
        assert(suffix[0] == bytes@[i as int]);
    }
    let remaining = bytes.len() - i;
    let b0 = bytes[i];
    if b0 <= 0x7f {
        let cp: u32 = (b0 & 0x7f) as u32;
        proof {
            assert(is_leading_byte_width_1(suffix[0]));
            assert(valid_leading_and_continuation_bytes_first_codepoint(suffix));
            assert(cp == decode_first_codepoint(suffix));
            assert(length_of_first_codepoint(suffix) == 1);
        }
        if scalar_checks(cp, 1) {
            assert(valid_first_scalar(suffix));
            Some(1)
        } else {
            assert(!valid_first_scalar(suffix));
            None
        }
    } else if 0xc0 <= b0 && b0 <= 0xdf {
        if remaining < 2 {
            assert(!valid_leading_and_continuation_bytes_first_codepoint(suffix));
            return None;
        }
        let b1 = bytes[i + 1];
        proof {
            assert(suffix[1] == bytes@[i + 1]);
        }
        if !(0x80 <= b1 && b1 <= 0xbf) {
            assert(!valid_leading_and_continuation_bytes_first_codepoint(suffix));
            return None;
        }
        let cp: u32 = (((b0 & 0x1f) as u32) << 6u32) | ((b1 & 0x3f) as u32);
        proof {
            assert(is_leading_byte_width_2(suffix[0]));
            assert(is_continuation_byte(suffix[1]));
            assert(valid_leading_and_continuation_bytes_first_codepoint(suffix));
            assert(cp == decode_first_codepoint(suffix));
            assert(length_of_first_codepoint(suffix) == 2);
        }
        if scalar_checks(cp, 2) {
            assert(valid_first_scalar(suffix));
            Some(2)
        } else {
            assert(!valid_first_scalar(suffix));
            None
        }
    } else if 0xe0 <= b0 && b0 <= 0xef {
        if remaining < 3 {
            assert(!valid_leading_and_continuation_bytes_first_codepoint(suffix));
            return None;
        }
        let b1 = bytes[i + 1];
        let b2 = bytes[i + 2];
        proof {
            assert(suffix[1] == bytes@[i + 1]);
            assert(suffix[2] == bytes@[i + 2]);
        }
        if !(0x80 <= b1 && b1 <= 0xbf) || !(0x80 <= b2 && b2 <= 0xbf) {
            assert(!valid_leading_and_continuation_bytes_first_codepoint(suffix));
            return None;
        }
        let cp: u32 = (((b0 & 0x0f) as u32) << 12u32) | (((b1 & 0x3f) as u32) << 6u32) | ((b2
            & 0x3f) as u32);
        proof {
            assert(is_leading_byte_width_3(suffix[0]));
            assert(is_continuation_byte(suffix[1]));
            assert(is_continuation_byte(suffix[2]));
            assert(valid_leading_and_continuation_bytes_first_codepoint(suffix));
            assert(cp == decode_first_codepoint(suffix));
            assert(length_of_first_codepoint(suffix) == 3);
        }
        if scalar_checks(cp, 3) {
            assert(valid_first_scalar(suffix));
            Some(3)
        } else {
            assert(!valid_first_scalar(suffix));
            None
        }
    } else if 0xf0 <= b0 && b0 <= 0xf7 {
        if remaining < 4 {
            assert(!valid_leading_and_continuation_bytes_first_codepoint(suffix));
            return None;
        }
        let b1 = bytes[i + 1];
        let b2 = bytes[i + 2];
        let b3 = bytes[i + 3];
        proof {
            assert(suffix[1] == bytes@[i + 1]);
            assert(suffix[2] == bytes@[i + 2]);
            assert(suffix[3] == bytes@[i + 3]);
        }
        if !(0x80 <= b1 && b1 <= 0xbf) || !(0x80 <= b2 && b2 <= 0xbf) || !(0x80 <= b3 && b3
            <= 0xbf) {
            assert(!valid_leading_and_continuation_bytes_first_codepoint(suffix));
            return None;
        }
        let cp: u32 = (((b0 & 0x07) as u32) << 18u32) | (((b1 & 0x3f) as u32) << 12u32) | (((b2
            & 0x3f) as u32) << 6u32) | ((b3 & 0x3f) as u32);
        proof {
            assert(is_leading_byte_width_4(suffix[0]));
            assert(is_continuation_byte(suffix[1]));
            assert(is_continuation_byte(suffix[2]));
            assert(is_continuation_byte(suffix[3]));
            assert(valid_leading_and_continuation_bytes_first_codepoint(suffix));
            assert(cp == decode_first_codepoint(suffix));
            assert(length_of_first_codepoint(suffix) == 4);
        }
        if scalar_checks(cp, 4) {
            assert(valid_first_scalar(suffix));
            Some(4)
        } else {
            assert(!valid_first_scalar(suffix));
            None
        }
    } else {
        proof {
            assert(is_continuation_byte(suffix[0]) || suffix[0] >= 0xf8);
            assert(!valid_leading_and_continuation_bytes_first_codepoint(suffix));
        }
        None
    }
}

/// Checks whether `bytes` form a valid UTF-8 encoding, in one left-to-right
/// pass over the scalar encodings.
pub fn is_valid_utf8(bytes: &[u8]) -> (r: bool)
    ensures
        r == valid_utf8(bytes@),
{
    let n = bytes.len();
    let mut i: usize = 0;
    assert(bytes@.skip(0) =~= bytes@);
    while i < n
        invariant
            i <= n,
            n == bytes@.len(),
            valid_utf8(bytes@) == valid_utf8(bytes@.skip(i as int)),
        decreases n - i,
    {
        match check_first_scalar(bytes, i) {
            Some(w) => {
                proof {
                    let suffix = bytes@.skip(i as int);
                    assert(suffix.len() != 0);
                    assert(valid_utf8(suffix) == (valid_first_scalar(suffix) && valid_utf8(
                        pop_first_scalar(suffix),
                    )));
                    assert(pop_first_scalar(suffix) =~= bytes@.skip(i + w as int));
                    assert(valid_utf8(suffix) == valid_utf8(bytes@.skip(i + w as int)));
                }
                i = i + w;
            },
            None => {
                proof {
                    let suffix = bytes@.skip(i as int);
                    assert(suffix.len() != 0);
                    assert(!valid_utf8(suffix));
                }
                return false;
            },
        }
    }
    proof {
        assert(bytes@.skip(n as int) =~= Seq::<u8>::empty());
        assert(valid_utf8(Seq::<u8>::empty()));
    }
    true
}

/// Reads a name payload: the bytes themselves when they are valid UTF-8,
/// and `CodecError::InvalidName` otherwise.
pub fn decode_name<'a>(payload: &'a [u8]) -> (r: Result<&'a [u8], CodecError>)
    ensures
        match r {
            Ok(name) => valid_utf8(payload@) && name@ == payload@,
            Err(e) => !valid_utf8(payload@) && e == CodecError::InvalidName,
        },
{
    if is_valid_utf8(payload) {
        Ok(payload)
    } else {
        Err(CodecError::InvalidName)
    }
}

} // verus!
