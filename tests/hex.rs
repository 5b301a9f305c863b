use paracord_gateway::hex::{hex_decode, hex_encode};

#[test]
fn encodes_lower_case_two_digits_per_byte() {
    assert_eq!(hex_encode(&[0x00, 0x0f, 0xab, 0xff]), "000fabff");
    assert_eq!(hex_encode(&[]), "");
}

#[test]
fn decodes_either_case() {
    assert_eq!(hex_decode("000fABff"), Some(vec![0x00, 0x0f, 0xab, 0xff]));
    assert_eq!(hex_decode(""), Some(vec![]));
}

#[test]
fn rejects_odd_length_and_non_digits() {
    assert_eq!(hex_decode("abc"), None);
    assert_eq!(hex_decode("zz"), None);
    assert_eq!(hex_decode("0g"), None);
    assert_eq!(hex_decode("-1"), None);
}

#[test]
fn a_sign_is_not_a_hex_digit() {
    assert_eq!(hex_decode("+a+F"), None);
    assert_eq!(hex_decode("+f"), None);
    assert_eq!(hex_decode("a+"), None);
}

#[test]
fn non_ascii_text_is_not_hex() {
    assert_eq!(hex_decode("aéb"), None);
    assert_eq!(hex_decode("éé"), None);
}

#[test]
fn decoding_inverts_encoding() {
    let bytes: Vec<u8> = (0u8..=255).collect();
    assert_eq!(hex_decode(&hex_encode(&bytes)), Some(bytes));
}
