use inachus::abi::{Function, Param, StateMutability};
use inachus::config::Config;
use inachus::context::SessionContext;
use inachus::dispatch::{authorize_write, cancelled_message, concat_segments, encode_method_args,
    plan_execution, transaction_sent_message, ExecutionPlan, WriteDecision};
use inachus::error::{ArgumentIssue, Error};

const GOOD_ADDR: &str = "0x5aAeb6053F3E94C9b9A09f33669435E7Ef1BeAed";

fn method(name: &str, mutability: StateMutability, input_types: &[&str]) -> Function {
    Function {
        name: String::from(name),
        state_mutability: mutability,
        inputs: input_types
            .iter()
            .map(|ty| Param {
                name: String::new(),
                ty: String::from(*ty),
            })
            .collect(),
        outputs: Vec::new(),
    }
}

fn context(selected: bool, with_key: bool) -> SessionContext {
    let config = Config {
        abi_dir: String::from("./abis"),
        rpc_url: String::from("http://localhost:8545"),
        private_key: if with_key {
            Some("a".repeat(64))
        } else {
            None
        },
        chain_id: 1,
        wait_time: String::from("30s"),
        contract_name: None,
        contract_address: if selected {
            Some(String::from(GOOD_ADDR))
        } else {
            None
        },
    };
    SessionContext::new(&config).unwrap()
}

#[test]
fn dispatch_without_a_selected_contract_fails_first() {
    let ctx = context(false, true);
    let f = method("name", StateMutability::View, &[]);
    assert!(matches!(
        plan_execution(&f, &Vec::new(), &ctx),
        Err(Error::NoContractSelected)
    ));
}

#[test]
fn read_method_plans_a_call() {
    let ctx = context(true, false);
    let f = method("balanceOf", StateMutability::View, &["uint256", "bool"]);
    let values = vec![String::from("7"), String::from("true")];
    match plan_execution(&f, &values, &ctx).unwrap() {
        ExecutionPlan::Read { address, payload } => {
            assert_eq!(address, hex::decode(GOOD_ADDR[2..].to_lowercase()).unwrap());
            let mut expected = vec![0u8; 32];
            expected[31] = 7;
            expected.push(1);
            assert_eq!(payload, expected);
        }
        ExecutionPlan::Write { .. } => panic!("a view method must plan a read"),
    }
}

#[test]
fn write_method_plans_a_transaction() {
    let ctx = context(true, true);
    let f = method("transfer", StateMutability::NonPayable, &["uint256"]);
    let values = vec![String::from("1")];
    assert!(matches!(
        plan_execution(&f, &values, &ctx).unwrap(),
        ExecutionPlan::Write { .. }
    ));
}

#[test]
fn argument_errors_abort_before_the_selection_check() {
    // Even with no contract selected, a bad value is reported first.
    let ctx = context(false, false);
    let f = method("transfer", StateMutability::NonPayable, &["uint256"]);
    let values = vec![String::from("x")];
    match plan_execution(&f, &values, &ctx) {
        Err(e) => assert_eq!(
            e,
            Error::InvalidArguments(ArgumentIssue::Number(String::from("x")))
        ),
        Ok(_) => panic!("a bad value must abort the dispatch"),
    }
}

#[test]
fn argument_count_mismatch_reports_both_counts() {
    let f = method("transfer", StateMutability::NonPayable, &["uint256", "address"]);
    let values = vec![String::from("1")];
    assert_eq!(
        encode_method_args(&f.inputs, &values),
        Err(Error::InvalidArguments(ArgumentIssue::ArgumentCount {
            expected: 2,
            actual: 1
        }))
    );
}

#[test]
fn array_and_tuple_parameters_contribute_per_element_segments() {
    let f = method("batch", StateMutability::NonPayable, &["uint256[]", "(bool, bytes)"]);
    let values = vec![String::from("[1, 2]"), String::from("(true, 0xff)")];
    let segs = encode_method_args(&f.inputs, &values).unwrap();
    assert_eq!(segs.len(), 4);
    assert_eq!(segs[0].len(), 32);
    assert_eq!(segs[1].len(), 32);
    assert_eq!(segs[2], vec![1u8]);
    assert_eq!(segs[3], vec![0xffu8]);

    let payload = concat_segments(&segs);
    assert_eq!(payload.len(), 32 + 32 + 1 + 1);
    assert_eq!(payload[31], 1);
    assert_eq!(payload[63], 2);
    assert_eq!(payload[64], 1);
    assert_eq!(payload[65], 0xff);
}

#[test]
fn unconfirmed_write_is_cancelled_outright() {
    let ctx = context(true, true);
    let f = method("transfer", StateMutability::NonPayable, &["uint256"]);
    let plan = plan_execution(&f, &vec![String::from("1")], &ctx).unwrap();
    match authorize_write(plan, false, &ctx).unwrap() {
        WriteDecision::Cancelled => {}
        WriteDecision::Submit { .. } => panic!("an unconfirmed write must not submit"),
    }
}

#[test]
fn unconfirmed_write_needs_no_credential() {
    let ctx = context(true, false);
    let f = method("transfer", StateMutability::NonPayable, &["uint256"]);
    let plan = plan_execution(&f, &vec![String::from("1")], &ctx).unwrap();
    assert!(matches!(
        authorize_write(plan, false, &ctx),
        Ok(WriteDecision::Cancelled)
    ));
}

#[test]
fn confirmed_write_without_a_credential_fails() {
    let ctx = context(true, false);
    let f = method("transfer", StateMutability::NonPayable, &["uint256"]);
    let plan = plan_execution(&f, &vec![String::from("1")], &ctx).unwrap();
    assert!(matches!(
        authorize_write(plan, true, &ctx),
        Err(Error::NoWalletConfigured)
    ));
}

#[test]
fn confirmed_write_submits_the_plans_payload() {
    let ctx = context(true, true);
    let f = method("transfer", StateMutability::NonPayable, &["uint256"]);
    let plan = plan_execution(&f, &vec![String::from("9")], &ctx).unwrap();
    match authorize_write(plan, true, &ctx).unwrap() {
        WriteDecision::Submit { address, payload } => {
            assert_eq!(address, hex::decode(GOOD_ADDR[2..].to_lowercase()).unwrap());
            assert_eq!(payload.len(), 32);
            assert_eq!(payload[31], 9);
        }
        WriteDecision::Cancelled => panic!("a confirmed write with a key must submit"),
    }
}

#[test]
fn outcome_messages() {
    assert_eq!(cancelled_message(), "Transaction cancelled");
    assert_eq!(
        transaction_sent_message("0xabcdef"),
        "Transaction sent: 0xabcdef"
    );
}
