use inachus::config::{validate_contract_infos, Config, ContractInfo};
use inachus::error::Error;

#[test]
fn default_config_is_valid() {
    let config = Config::default();
    assert_eq!(config.rpc_url, "http://localhost:8545");
    assert_eq!(config.chain_id, 1);
    assert_eq!(config.wait_time, "30s");
    assert!(config.private_key.is_none());
    assert!(config.validate().is_ok());
}

#[test]
fn config_validation_checks_each_field() {
    let mut config = Config::default();
    config.rpc_url = String::from("ipc:///tmp/geth");
    assert!(matches!(config.validate(), Err(Error::InvalidAddress(_))));

    let mut config = Config::default();
    config.wait_time = String::from("whenever");
    assert!(matches!(config.validate(), Err(Error::InvalidWaitTime(_))));

    let mut config = Config::default();
    config.private_key = Some(String::from("short"));
    assert!(matches!(config.validate(), Err(Error::InvalidPrivateKey(_))));

    let mut config = Config::default();
    config.contract_name = Some(String::from("bad name"));
    assert!(matches!(config.validate(), Err(Error::InvalidContract(_))));

    let mut config = Config::default();
    config.contract_address = Some(String::from("0x12"));
    assert!(matches!(config.validate(), Err(Error::InvalidContract(_))));
}

#[test]
fn full_config_is_valid() {
    let config = Config {
        abi_dir: String::from("./abis"),
        rpc_url: String::from("https://rpc.example"),
        private_key: Some("a".repeat(64)),
        chain_id: 31337,
        wait_time: String::from("1m"),
        contract_name: Some(String::from("Token")),
        contract_address: Some(String::from("0x5aAeb6053F3E94C9b9A09f33669435E7Ef1BeAed")),
    };
    assert!(config.validate().is_ok());
}

#[test]
fn contract_info_checks_name_and_address() {
    let ok = ContractInfo {
        name: String::from("Token"),
        address: Some(String::from("0x1234")),
    };
    assert!(ok.validate().is_ok());

    let unassigned = ContractInfo {
        name: String::from("Token"),
        address: None,
    };
    assert!(unassigned.validate().is_ok());

    let nameless = ContractInfo {
        name: String::new(),
        address: None,
    };
    assert_eq!(
        nameless.validate(),
        Err(Error::InvalidContract(String::from(
            "Contract name cannot be empty"
        )))
    );

    let empty_addr = ContractInfo {
        name: String::from("Token"),
        address: Some(String::new()),
    };
    assert_eq!(
        empty_addr.validate(),
        Err(Error::InvalidContract(String::from(
            "Contract address cannot be empty"
        )))
    );

    let unprefixed = ContractInfo {
        name: String::from("Token"),
        address: Some(String::from("1234")),
    };
    assert_eq!(
        unprefixed.validate(),
        Err(Error::InvalidContract(String::from(
            "Contract address must start with 0x"
        )))
    );
}

#[test]
fn registry_validation_stops_at_the_first_bad_record() {
    let infos = vec![
        ContractInfo {
            name: String::from("A"),
            address: None,
        },
        ContractInfo {
            name: String::from("B"),
            address: Some(String::from("no-prefix")),
        },
    ];
    assert_eq!(
        validate_contract_infos(&infos),
        Err(Error::InvalidContract(String::from(
            "Contract address must start with 0x"
        )))
    );
    assert!(validate_contract_infos(&infos[..1]).is_ok());
    assert!(validate_contract_infos(&[]).is_ok());
}
