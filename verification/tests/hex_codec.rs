use bitlab_core::error::CoreError;
use bitlab_core::hex::{bytes_to_hex, hex_to_bytes};

#[test]
fn encode_gives_two_lowercase_digits_per_byte() {
    assert_eq!(bytes_to_hex(&[]), "");
    assert_eq!(bytes_to_hex(&[0x00]), "00");
    assert_eq!(bytes_to_hex(&[0x0f, 0xa0, 0xff]), "0fa0ff");
    assert_eq!(bytes_to_hex(&[0xde, 0xad, 0xbe, 0xef]), "deadbeef");
    assert_eq!(bytes_to_hex(&[1, 2, 3, 4, 5]).len(), 10);
}

#[test]
fn decode_reads_both_cases() {
    assert_eq!(hex_to_bytes("deadbeef"), Ok(vec![0xde, 0xad, 0xbe, 0xef]));
    assert_eq!(hex_to_bytes("DEADBEEF"), Ok(vec![0xde, 0xad, 0xbe, 0xef]));
    assert_eq!(hex_to_bytes("DeAdBeEf"), Ok(vec![0xde, 0xad, 0xbe, 0xef]));
    assert_eq!(hex_to_bytes("0009af"), Ok(vec![0x00, 0x09, 0xaf]));
    assert_eq!(hex_to_bytes(""), Ok(vec![]));
}

#[test]
fn decode_drops_surrounding_white_space() {
    assert_eq!(hex_to_bytes("  0a0b\n"), Ok(vec![0x0a, 0x0b]));
    assert_eq!(hex_to_bytes("\t\r\n ff \u{3000}\u{a0}"), Ok(vec![0xff]));
    assert_eq!(hex_to_bytes("   "), Ok(vec![]));
    assert_eq!(hex_to_bytes("0a 0b"), Err(CoreError::MalformedHex));
}

#[test]
fn decode_refuses_odd_length() {
    assert_eq!(hex_to_bytes("abc"), Err(CoreError::MalformedHex));
    assert_eq!(hex_to_bytes("a"), Err(CoreError::MalformedHex));
    assert_eq!(hex_to_bytes(" abc "), Err(CoreError::MalformedHex));
}

#[test]
fn decode_refuses_other_characters() {
    assert_eq!(hex_to_bytes("zz"), Err(CoreError::MalformedHex));
    assert_eq!(hex_to_bytes("0g"), Err(CoreError::MalformedHex));
    assert_eq!(hex_to_bytes("+f"), Err(CoreError::MalformedHex));
    assert_eq!(hex_to_bytes("-1"), Err(CoreError::MalformedHex));
    assert_eq!(hex_to_bytes("0x10"), Err(CoreError::MalformedHex));
    assert_eq!(hex_to_bytes("é0"), Err(CoreError::MalformedHex));
    assert_eq!(hex_to_bytes("0/"), Err(CoreError::MalformedHex));
    assert_eq!(hex_to_bytes("0:"), Err(CoreError::MalformedHex));
    assert_eq!(hex_to_bytes("@a"), Err(CoreError::MalformedHex));
    assert_eq!(hex_to_bytes("Ga"), Err(CoreError::MalformedHex));
    assert_eq!(hex_to_bytes("`a"), Err(CoreError::MalformedHex));
}

#[test]
fn decode_of_encode_is_identity() {
    let all: Vec<u8> = (0..=255u8).collect();
    assert_eq!(hex_to_bytes(&bytes_to_hex(&all)), Ok(all));
    let short = vec![0x20, 0x09, 0x0a];
    assert_eq!(hex_to_bytes(&bytes_to_hex(&short)), Ok(short));
}

#[test]
fn encode_of_decode_is_lowercase() {
    let text = "00FFaBcDeF0123456789";
    let bytes = hex_to_bytes(text).unwrap();
    assert_eq!(bytes_to_hex(&bytes), text.to_lowercase());
}

#[test]
fn every_error_has_a_message() {
    let all = [
        CoreError::MalformedHex,
        CoreError::InvalidKeyMaterial,
        CoreError::InvalidOutpoint,
        CoreError::InvalidScript,
        CoreError::InvalidAddress,
        CoreError::MalformedTransaction,
        CoreError::IndexOutOfRange,
        CoreError::UnsupportedInputType,
    ];
    for (i, a) in all.iter().enumerate() {
        assert!(!a.message().is_empty());
        for b in all.iter().skip(i + 1) {
            assert_ne!(a.message(), b.message());
        }
    }
    assert_eq!(CoreError::MalformedHex.message(), "hex text is malformed");
}
