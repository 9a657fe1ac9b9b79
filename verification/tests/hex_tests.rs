use steam_auth::hex::{hex_decode, hex_encode};

#[test]
fn encode_known_bytes() {
    let ticket = vec![0xDEu8, 0xAD, 0xBE, 0xEF];
    let hex = hex_encode(&ticket);
    assert_eq!(String::from_utf8(hex).unwrap(), "deadbeef");
}

#[test]
fn encode_preserves_leading_zero() {
    let hex = hex_encode(&vec![0x0au8]);
    assert_eq!(String::from_utf8(hex).unwrap(), "0a");
}

#[test]
fn encode_is_lowercase_two_chars_per_byte() {
    let bytes = vec![0x00u8, 0x01, 0x7F, 0x80, 0xFF];
    let hex = hex_encode(&bytes);
    assert_eq!(hex.len(), 2 * bytes.len());
    for c in &hex {
        assert!(c.is_ascii_digit() || (b'a'..=b'f').contains(c));
    }
    assert_eq!(String::from_utf8(hex).unwrap(), "00017f80ff");
}

#[test]
fn encode_empty_is_empty() {
    assert_eq!(hex_encode(&vec![]), Vec::<u8>::new());
}

#[test]
fn round_trip_restores_bytes() {
    let cases: Vec<Vec<u8>> = vec![
        vec![0xDE, 0xAD, 0xBE, 0xEF],
        vec![0x01, 0x02],
        vec![0x00],
        vec![0xFF; 32],
        (0u8..=255).collect(),
    ];
    for bytes in cases {
        let hex = hex_encode(&bytes);
        assert_eq!(hex_decode(&hex), Some(bytes));
    }
}

#[test]
fn decode_known_string() {
    let hex: Vec<u8> = "0102".bytes().collect();
    assert_eq!(hex_decode(&hex), Some(vec![0x01u8, 0x02]));
}

#[test]
fn decode_rejects_odd_length() {
    let hex: Vec<u8> = "abc".bytes().collect();
    assert_eq!(hex_decode(&hex), None);
}

#[test]
fn decode_rejects_non_hex_bytes() {
    for bad in ["zz", "0g", "DE", "a ", "0x"] {
        let hex: Vec<u8> = bad.bytes().collect();
        assert_eq!(hex_decode(&hex), None);
    }
}
