use inachus::codec::encode_scalar;
use inachus::error::{ArgumentIssue, Error};

const CHECKSUMMED: [&str; 4] = [
    "0x52908400098527886E0F7030069857D2E4169EE7",
    "0xde709f2102306220921060314715629080e2fb77",
    "0x5aAeb6053F3E94C9b9A09f33669435E7Ef1BeAed",
    "0xfB6916095ca1df60bB79Ce92cE3Ea74c37c5d359",
];

#[test]
fn checksummed_addresses_encode_to_their_twenty_bytes() {
    for addr in CHECKSUMMED {
        let out = encode_scalar(addr, "address").unwrap();
        assert_eq!(out.len(), 20);
        assert_eq!(out, hex::decode(addr[2..].to_lowercase()).unwrap());
    }
}

#[test]
fn wrong_case_address_is_rejected() {
    // One letter of a valid checksummed address lowered breaks the checksum.
    let addr = "0x5aaeb6053F3E94C9b9A09f33669435E7Ef1BeAed";
    assert_eq!(
        encode_scalar(addr, "address"),
        Err(Error::InvalidAddress(String::from(addr)))
    );
}

#[test]
fn malformed_address_is_rejected() {
    for addr in ["", "0x12", "52908400098527886E0F7030069857D2E4169EE7", "0xzz"] {
        assert!(matches!(
            encode_scalar(addr, "address"),
            Err(Error::InvalidAddress(_))
        ));
    }
}

#[test]
fn uint256_encodes_big_endian() {
    let zero = encode_scalar("0", "uint256").unwrap();
    assert_eq!(zero, vec![0u8; 32]);

    let out = encode_scalar("255", "uint256").unwrap();
    let mut expected = vec![0u8; 32];
    expected[31] = 255;
    assert_eq!(out, expected);

    let out = encode_scalar("256", "uint256").unwrap();
    let mut expected = vec![0u8; 32];
    expected[30] = 1;
    assert_eq!(out, expected);
}

#[test]
fn uint256_round_trips_at_the_limit() {
    let max =
        "115792089237316195423570985008687907853269984665640564039457584007913129639935";
    assert_eq!(encode_scalar(max, "uint256").unwrap(), vec![0xffu8; 32]);

    let over =
        "115792089237316195423570985008687907853269984665640564039457584007913129639936";
    assert!(matches!(
        encode_scalar(over, "uint256"),
        Err(Error::InvalidArguments(ArgumentIssue::Number(_)))
    ));
}

#[test]
fn uint256_accepts_the_parsers_full_grammar() {
    // The underlying parser skips `_` separators and reads an empty text as
    // zero.
    assert_eq!(
        encode_scalar("1_000", "uint256"),
        encode_scalar("1000", "uint256")
    );
    assert_eq!(encode_scalar("", "uint256").unwrap(), vec![0u8; 32]);
}

#[test]
fn int256_uses_the_same_unsigned_parser() {
    assert!(encode_scalar("7", "int256").is_ok());
    assert!(matches!(
        encode_scalar("-7", "int256"),
        Err(Error::InvalidArguments(ArgumentIssue::Number(_)))
    ));
}

#[test]
fn bad_numbers_are_rejected_with_their_text() {
    assert_eq!(
        encode_scalar("12a", "uint256"),
        Err(Error::InvalidArguments(ArgumentIssue::Number(String::from(
            "12a"
        ))))
    );
}

#[test]
fn bool_encodes_one_byte() {
    assert_eq!(encode_scalar("true", "bool").unwrap(), vec![1u8]);
    assert_eq!(encode_scalar("false", "bool").unwrap(), vec![0u8]);
}

#[test]
fn bool_is_case_sensitive() {
    for v in ["True", "FALSE", "1", ""] {
        assert_eq!(
            encode_scalar(v, "bool"),
            Err(Error::InvalidArguments(ArgumentIssue::Boolean(
                String::from(v)
            )))
        );
    }
}

#[test]
fn string_passes_its_utf8_bytes_through() {
    assert_eq!(encode_scalar("hello", "string").unwrap(), b"hello".to_vec());
    assert_eq!(encode_scalar("", "string").unwrap(), Vec::<u8>::new());
    assert_eq!(
        encode_scalar("héllo", "string").unwrap(),
        "héllo".as_bytes().to_vec()
    );
}

#[test]
fn bytes_decodes_hex_with_optional_prefix() {
    assert_eq!(encode_scalar("0x1234", "bytes").unwrap(), vec![0x12, 0x34]);
    assert_eq!(encode_scalar("1234", "bytes").unwrap(), vec![0x12, 0x34]);
    assert_eq!(encode_scalar("aBcD", "bytes").unwrap(), vec![0xab, 0xcd]);
    assert_eq!(encode_scalar("0x", "bytes").unwrap(), Vec::<u8>::new());
    assert_eq!(encode_scalar("", "bytes").unwrap(), Vec::<u8>::new());
}

#[test]
fn bad_hex_is_rejected_with_its_text() {
    for v in ["0x123", "zz", "12 34"] {
        assert_eq!(
            encode_scalar(v, "bytes"),
            Err(Error::InvalidArguments(ArgumentIssue::Hex(String::from(v))))
        );
    }
}

#[test]
fn unsupported_tags_are_named() {
    assert_eq!(
        encode_scalar("1", "uint8"),
        Err(Error::InvalidArguments(ArgumentIssue::UnsupportedType(
            String::from("uint8")
        )))
    );
}
