//! The decisions of the workflow loop over the contract registry: which
//! record a dispatch targets, how a contract is registered, and how an
//! address is assigned.  The prompt and persistence collaborators only
//! carry out what these functions decide.

use vstd::prelude::*;
use vstd::pervasive::VecAdditionalExecFns;
use vstd::string::StrSliceExecFns;

use crate::config::ContractInfo;
use crate::error::Error;
use crate::scan::str_equal;

verus! {

/// A record is dispatchable when it carries a non-empty address.
pub open spec fn has_live_address(c: ContractInfo) -> bool {
    c.address matches Some(a) && a@.len() > 0
}

/// The registry entry a dispatch targets: the first record with a
/// non-empty address.
///
/// With no such record the selection fails with `NoContractSelected`.
pub fn current_contract(infos: &Vec<ContractInfo>) -> (r: Result<usize, Error>)
    ensures
        r is Ok <==> (exists|i: int| 0 <= i < infos@.len() && has_live_address(
            #[trigger] infos@[i],
        )),
        r matches Ok(i) ==> i < infos@.len() && has_live_address(infos@[i as int]) && (forall|
            j: int,
        |
            0 <= j < i ==> !has_live_address(#[trigger] infos@[j])),
        r matches Err(e) ==> e matches Error::NoContractSelected,
{
    let n = infos.len();
    let mut i: usize = 0;
    while i < n
        invariant
            0 <= i <= n,
            n == infos@.len(),
            forall|k: int| 0 <= k < i ==> !has_live_address(#[trigger] infos@[k]),
        decreases n - i,
    {
        let live = match &infos[i].address {
            Some(a) => a.as_str().unicode_len() > 0,
            None => false,
        };
        if live {
            return Ok(i);
        }
        i += 1;
    }
    Err(Error::NoContractSelected)
}

/// Append a newly chosen contract to the registry, with no address yet.
pub fn register_contract(infos: &mut Vec<ContractInfo>, name: String)
    ensures
        final(infos)@.len() == old(infos)@.len() + 1,
        final(infos)@.take(old(infos)@.len() as int) == old(infos)@,
        final(infos)@.last().name == name,
        final(infos)@.last().address is None,
{
    infos.push(ContractInfo { name, address: None });
    proof {
        assert(infos@.take(old(infos)@.len() as int) =~= old(infos)@);
    }
}

/// Assign an address to the first registry record of the given name.
///
/// Every other record stays untouched; an unknown name fails with
/// `ContractNotFound` and changes nothing.
pub fn set_contract_address(infos: &mut Vec<ContractInfo>, name: &str, address: &str) -> (r:
    Result<usize, Error>)
    ensures
        r is Ok <==> (exists|i: int| 0 <= i < old(infos)@.len() && (#[trigger] old(
            infos,
        )@[i]).name@ == name@),
        r matches Ok(i) ==> {
            &&& i < old(infos)@.len()
            &&& old(infos)@[i as int].name@ == name@
            &&& forall|j: int| 0 <= j < i ==> (#[trigger] old(infos)@[j]).name@ != name@
            &&& final(infos)@.len() == old(infos)@.len()
            &&& forall|j: int|
                0 <= j < old(infos)@.len() && j != i ==> final(infos)@[j] == old(infos)@[j]
            &&& final(infos)@[i as int].name == old(infos)@[i as int].name
            &&& (final(infos)@[i as int].address matches Some(a) && a@ == address@)
        },
        r is Err ==> *final(infos) == *old(infos),
        r matches Err(e) ==> (e matches Error::ContractNotFound(s) && s@ == name@),
{
    let n = infos.len();
    let mut i: usize = 0;
    while i < n
        invariant
            0 <= i <= n,
            n == infos@.len(),
            *infos == *old(infos),
            forall|k: int| 0 <= k < i ==> (#[trigger] infos@[k]).name@ != name@,
        decreases n - i,
    {
        if str_equal(infos[i].name.as_str(), name) {
            let ghost before = infos@;
            let owned_name = infos[i].name.clone();
            infos.set(i, ContractInfo { name: owned_name, address: Some(address.to_owned()) });
            return Ok(i);
        }
        i += 1;
    }
    Err(Error::ContractNotFound(name.to_owned()))
}

} // verus!
