use puncher::names::{decode_name, is_valid_utf8};
use puncher::wire::CodecError;

#[test]
fn ascii_name_is_accepted() {
    assert_eq!(decode_name(b"alice"), Ok(&b"alice"[..]));
}

#[test]
fn empty_name_is_accepted() {
    assert_eq!(decode_name(b""), Ok(&b""[..]));
}

#[test]
fn multibyte_names_are_accepted() {
    for name in ["héllo", "名前", "πύργος", "🕳️"] {
        assert_eq!(decode_name(name.as_bytes()), Ok(name.as_bytes()));
    }
}

#[test]
fn invalid_utf8_is_rejected() {
    let bad: [&[u8]; 7] = [
        &[0xff],
        &[0x80],                     // lone continuation byte
        &[0xc3],                     // truncated two-byte encoding
        &[0xc0, 0xaf],               // overlong encoding
        &[0xe0, 0x80, 0x80],         // overlong three-byte encoding
        &[0xed, 0xa0, 0x80],         // surrogate
        &[0xf4, 0x90, 0x80, 0x80],   // beyond the last scalar
    ];
    for payload in bad {
        assert_eq!(decode_name(payload), Err(CodecError::InvalidName));
    }
}

#[test]
fn validator_agrees_with_std() {
    let cases: [&[u8]; 16] = [
        b"",
        b"plain ascii",
        &[0x7f],
        &[0x80],
        &[0xbf, 0x20],
        &[0xc2, 0x80],
        &[0xc2, 0x20],
        &[0xdf, 0xbf],
        &[0xe0, 0xa0, 0x80],
        &[0xe0, 0x9f, 0xbf],
        &[0xed, 0x9f, 0xbf],
        &[0xee, 0x80, 0x80],
        &[0xf0, 0x90, 0x80, 0x80],
        &[0xf0, 0x8f, 0xbf, 0xbf],
        &[0xf4, 0x8f, 0xbf, 0xbf],
        &[0xf8, 0x88, 0x80, 0x80, 0x80],
    ];
    for bytes in cases {
        assert_eq!(
            is_valid_utf8(bytes),
            std::str::from_utf8(bytes).is_ok(),
            "disagreement on {:?}",
            bytes
        );
    }
}
