use inachus::error::Error;
use inachus::validation::{validate_address, validate_chain_id, validate_contract_address,
    validate_contract_name, validate_private_key, validate_rpc_url, validate_wait_time};

#[test]
fn rpc_url_must_be_http_or_https() {
    assert!(validate_rpc_url("http://localhost:8545").is_ok());
    assert!(validate_rpc_url("https://rpc.example").is_ok());
    assert_eq!(
        validate_rpc_url("ftp://rpc.example"),
        Err(Error::InvalidAddress(String::from("ftp://rpc.example")))
    );
    assert!(validate_rpc_url("").is_err());
}

#[test]
fn address_checks_run_in_order() {
    assert!(validate_address("0x52908400098527886E0F7030069857D2E4169EE7").is_ok());
    // Format only: a wrong checksum is still a well-formed address.
    assert!(validate_address("0x52908400098527886e0f7030069857d2e4169ee7").is_ok());
    assert_eq!(
        validate_address("52908400098527886E0F7030069857D2E4169EE7"),
        Err(Error::InvalidAddress(String::from(
            "Address must start with 0x"
        )))
    );
    assert_eq!(
        validate_address("0x1234"),
        Err(Error::InvalidAddress(String::from(
            "Address must be 20 bytes (40 hex characters)"
        )))
    );
    assert_eq!(
        validate_address("0xz2908400098527886E0F7030069857D2E4169EE7"),
        Err(Error::InvalidAddress(String::from(
            "Address must be hexadecimal"
        )))
    );
}

#[test]
fn private_key_length_and_digits() {
    let bare = "a".repeat(64);
    assert!(validate_private_key(&bare).is_ok());
    let prefixed = format!("0x{}", "b".repeat(64));
    assert!(validate_private_key(&prefixed).is_ok());
    assert_eq!(
        validate_private_key("abc"),
        Err(Error::InvalidPrivateKey(String::from(
            "Private key must be 32 bytes (64 hex characters)"
        )))
    );
    let bad = "g".repeat(64);
    assert_eq!(
        validate_private_key(&bad),
        Err(Error::InvalidPrivateKey(String::from(
            "Private key must be hexadecimal"
        )))
    );
}

#[test]
fn chain_id_must_be_a_decimal_in_256_bits() {
    assert!(validate_chain_id("1").is_ok());
    assert!(validate_chain_id("31337").is_ok());
    assert_eq!(
        validate_chain_id("mainnet"),
        Err(Error::InvalidChainId(String::from("mainnet")))
    );
    let over =
        "115792089237316195423570985008687907853269984665640564039457584007913129639936";
    assert!(validate_chain_id(over).is_err());
}

#[test]
fn wait_time_uses_the_duration_grammar() {
    assert!(validate_wait_time("30s").is_ok());
    assert!(validate_wait_time("1h 20min").is_ok());
    assert_eq!(
        validate_wait_time("soon"),
        Err(Error::InvalidWaitTime(String::from("soon")))
    );
}

#[test]
fn contract_name_allows_unicode_alphanumerics_and_underscore() {
    assert!(validate_contract_name("Token_v2").is_ok());
    assert!(validate_contract_name("Prix_éclair").is_ok());
    assert_eq!(
        validate_contract_name(""),
        Err(Error::InvalidContract(String::from(
            "Contract name cannot be empty"
        )))
    );
    assert_eq!(
        validate_contract_name("my-token"),
        Err(Error::InvalidContract(String::from(
            "Contract name must be alphanumeric or underscore"
        )))
    );
}

#[test]
fn contract_address_failures_carry_the_address() {
    assert!(validate_contract_address("0x52908400098527886E0F7030069857D2E4169EE7").is_ok());
    assert_eq!(
        validate_contract_address("nowhere"),
        Err(Error::InvalidContract(String::from("nowhere")))
    );
}
