//! The workflow's user-visible actions.  The active step is chosen fresh
//! each loop iteration by the prompt collaborator; nothing is persisted.

use vstd::prelude::*;
use vstd::string::StringExecFns;

verus! {

/// One action of the workflow loop.
#[derive(Debug, Clone, Copy, PartialEq, Eq, Structural)]
pub enum Step {
    /// Pick a different contract to work with.
    ChangeContract,
    /// Assign an address to a known contract.
    ChangeContractAddress,
    /// Pick and invoke a method of the selected contract.
    SelectMethod,
    /// Leave the loop.
    Exit,
}

impl Step {
    /// Every step, in the order the prompt offers them.
    pub fn all() -> (r: Vec<Step>)
        ensures
            r@ == seq![
                Step::ChangeContract,
                Step::ChangeContractAddress,
                Step::SelectMethod,
                Step::Exit,
            ],
    {
        let mut r: Vec<Step> = Vec::new();
        r.push(Step::ChangeContract);
        r.push(Step::ChangeContractAddress);
        r.push(Step::SelectMethod);
        r.push(Step::Exit);
        proof {
            assert(r@ =~= seq![
                Step::ChangeContract,
                Step::ChangeContractAddress,
                Step::SelectMethod,
                Step::Exit,
            ]);
        }
        r
    }

    /// The display name of the step.
    pub fn label(&self) -> (r: String)
        ensures
            *self == Step::ChangeContract ==> r@ == "Change contract"@,
            *self == Step::ChangeContractAddress ==> r@ == "Change contract address"@,
            *self == Step::SelectMethod ==> r@ == "Select method"@,
            *self == Step::Exit ==> r@ == "Exit"@,
    {
        match self {
            Step::ChangeContract => String::from_str("Change contract"),
            Step::ChangeContractAddress => String::from_str("Change contract address"),
            Step::SelectMethod => String::from_str("Select method"),
            Step::Exit => String::from_str("Exit"),
        }
    }
}

} // verus!
