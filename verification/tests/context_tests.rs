use inachus::config::Config;
use inachus::context::SessionContext;
use inachus::error::Error;

const GOOD_ADDR: &str = "0x5aAeb6053F3E94C9b9A09f33669435E7Ef1BeAed";

fn base_config() -> Config {
    Config {
        abi_dir: String::from("./abis"),
        rpc_url: String::from("http://localhost:8545"),
        private_key: None,
        chain_id: 5,
        wait_time: String::from("30s"),
        contract_name: None,
        contract_address: None,
    }
}

fn fresh_context() -> SessionContext {
    SessionContext::new(&base_config()).unwrap()
}

#[test]
fn new_context_starts_unreconciled_and_unselected() {
    let ctx = fresh_context();
    assert_eq!(ctx.rpc_endpoint, "http://localhost:8545");
    assert_eq!(ctx.configured_chain_id, 5);
    assert_eq!(ctx.live_chain_id, None);
    assert!(ctx.signing_key.is_none());
    assert!(ctx.selected_contract_address.is_none());
}

#[test]
fn new_context_adopts_a_configured_address() {
    let mut config = base_config();
    config.contract_address = Some(String::from(GOOD_ADDR));
    let ctx = SessionContext::new(&config).unwrap();
    assert_eq!(
        ctx.selected_contract_address.unwrap(),
        hex::decode(GOOD_ADDR[2..].to_lowercase()).unwrap()
    );
}

#[test]
fn new_context_rejects_a_bad_configured_address() {
    let mut config = base_config();
    config.contract_address = Some(String::from("0x1234"));
    match SessionContext::new(&config) {
        Err(e) => assert_eq!(e, Error::InvalidAddress(String::from("0x1234"))),
        Ok(_) => panic!("a malformed address must be rejected"),
    }
}

#[test]
fn new_context_rejects_a_non_hex_private_key() {
    let mut config = base_config();
    config.private_key = Some(String::from("not hex at all"));
    match SessionContext::new(&config) {
        Err(e) => assert_eq!(e, Error::InvalidPrivateKey(String::from("not hex at all"))),
        Ok(_) => panic!("a non-hexadecimal key must be rejected"),
    }
}

#[test]
fn new_context_reports_the_key_before_the_address() {
    let mut config = base_config();
    config.private_key = Some(String::from("not hex at all"));
    config.contract_address = Some(String::from("0x1234"));
    match SessionContext::new(&config) {
        Err(e) => assert_eq!(e, Error::InvalidPrivateKey(String::from("not hex at all"))),
        Ok(_) => panic!("an invalid configuration must be rejected"),
    }
}

#[test]
fn select_contract_sets_the_address_bytes() {
    let mut ctx = fresh_context();
    ctx.select_contract(GOOD_ADDR).unwrap();
    assert_eq!(
        ctx.selected_contract_address.as_ref().unwrap(),
        &hex::decode(GOOD_ADDR[2..].to_lowercase()).unwrap()
    );
}

#[test]
fn failed_select_contract_leaves_the_selection_untouched() {
    let mut ctx = fresh_context();
    ctx.select_contract(GOOD_ADDR).unwrap();
    let before = ctx.selected_contract_address.clone();

    // Wrong checksum: one letter's case flipped.
    let bad = "0x5aaeb6053F3E94C9b9A09f33669435E7Ef1BeAed";
    assert_eq!(
        ctx.select_contract(bad),
        Err(Error::InvalidAddress(String::from(bad)))
    );
    assert_eq!(ctx.selected_contract_address, before);
}

#[test]
fn reconcile_chain_id_makes_the_live_value_authoritative() {
    let mut ctx = fresh_context();
    assert_eq!(ctx.effective_chain_id(), 5);

    let mismatch = ctx.reconcile_chain_id(5);
    assert!(!mismatch);
    assert_eq!(ctx.live_chain_id, Some(5));

    let mismatch = ctx.reconcile_chain_id(31337);
    assert!(mismatch);
    assert_eq!(ctx.live_chain_id, Some(31337));
    assert_eq!(ctx.effective_chain_id(), 31337);
    assert_eq!(ctx.configured_chain_id, 5);
}
