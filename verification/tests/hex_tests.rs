use menu_auth::keys::{decode_hex, ConfigError, RootKeyPair};

#[test]
fn decode_valid_hex() {
    let bytes = decode_hex("0aff").unwrap();
    assert_eq!(bytes, vec![0x0a, 0xff]);
}

#[test]
fn decode_mixed_case() {
    let bytes = decode_hex("AbCd09").unwrap();
    assert_eq!(bytes, vec![0xab, 0xcd, 0x09]);
}

#[test]
fn decode_empty_string() {
    let bytes = decode_hex("").unwrap();
    assert_eq!(bytes, Vec::<u8>::new());
}

#[test]
fn decode_odd_length_rejected() {
    assert_eq!(decode_hex("abc"), Err(ConfigError::InvalidHex));
}

#[test]
fn decode_bad_character_rejected() {
    assert_eq!(decode_hex("0g"), Err(ConfigError::InvalidHex));
    assert_eq!(decode_hex("zz"), Err(ConfigError::InvalidHex));
    assert_eq!(decode_hex("12 4"), Err(ConfigError::InvalidHex));
}

#[test]
fn decode_matches_reference_library() {
    let samples = [
        "",
        "00",
        "ff",
        "0123456789abcdef",
        "DEADBEEF",
        "0123456789abcdef0123456789abcdef0123456789abcdef0123456789abcdef",
    ];
    for s in samples {
        assert_eq!(decode_hex(s).unwrap(), hex::decode(s).unwrap());
    }
    assert!(hex::decode("abc").is_err());
    assert!(hex::decode("0g").is_err());
}

#[test]
fn root_key_requires_exact_length() {
    let ok = "0123456789abcdef0123456789abcdef0123456789abcdef0123456789abcdef";
    assert!(RootKeyPair::from_hex(ok).is_ok());
    let short = "0123456789abcdef";
    assert_eq!(
        RootKeyPair::from_hex(short).err(),
        Some(ConfigError::WrongKeyLength)
    );
    let bad = "0123456789abcdex0123456789abcdef0123456789abcdef0123456789abcdef";
    assert_eq!(RootKeyPair::from_hex(bad).err(), Some(ConfigError::InvalidHex));
}
