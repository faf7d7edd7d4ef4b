use inachus::config::ContractInfo;
use inachus::error::Error;
use inachus::step::Step;
use inachus::workflow::{current_contract, register_contract, set_contract_address};

fn record(name: &str, address: Option<&str>) -> ContractInfo {
    ContractInfo {
        name: String::from(name),
        address: address.map(String::from),
    }
}

#[test]
fn steps_are_offered_in_order() {
    let all = Step::all();
    assert_eq!(
        all,
        vec![
            Step::ChangeContract,
            Step::ChangeContractAddress,
            Step::SelectMethod,
            Step::Exit
        ]
    );
}

#[test]
fn step_labels() {
    assert_eq!(Step::ChangeContract.label(), "Change contract");
    assert_eq!(Step::ChangeContractAddress.label(), "Change contract address");
    assert_eq!(Step::SelectMethod.label(), "Select method");
    assert_eq!(Step::Exit.label(), "Exit");
}

#[test]
fn current_contract_is_the_first_with_a_live_address() {
    let infos = vec![
        record("A", None),
        record("B", Some("")),
        record("C", Some("0x1234")),
        record("D", Some("0x5678")),
    ];
    assert_eq!(current_contract(&infos), Ok(2));
}

#[test]
fn no_live_address_means_no_selection() {
    let infos = vec![record("A", None), record("B", Some(""))];
    assert!(matches!(
        current_contract(&infos),
        Err(Error::NoContractSelected)
    ));
    assert!(matches!(
        current_contract(&Vec::new()),
        Err(Error::NoContractSelected)
    ));
}

#[test]
fn register_contract_appends_without_an_address() {
    let mut infos = vec![record("A", Some("0x1"))];
    register_contract(&mut infos, String::from("B"));
    assert_eq!(infos.len(), 2);
    assert_eq!(infos[1].name, "B");
    assert!(infos[1].address.is_none());
    assert_eq!(infos[0].name, "A");
}

#[test]
fn set_contract_address_updates_the_first_match_only() {
    let mut infos = vec![
        record("A", None),
        record("B", None),
        record("B", Some("0xold")),
    ];
    let idx = set_contract_address(&mut infos, "B", "0xnew").unwrap();
    assert_eq!(idx, 1);
    assert_eq!(infos[1].address.as_deref(), Some("0xnew"));
    assert_eq!(infos[2].address.as_deref(), Some("0xold"));
    assert!(infos[0].address.is_none());
}

#[test]
fn set_contract_address_rejects_unknown_names() {
    let mut infos = vec![record("A", None)];
    assert_eq!(
        set_contract_address(&mut infos, "Z", "0x1"),
        Err(Error::ContractNotFound(String::from("Z")))
    );
    assert!(infos[0].address.is_none());
}
