//! The persisted configuration and the contract registry records, with
//! their validity rules.  Reading and writing the files themselves is the
//! host program's concern; the library holds the data and the rules.

use vstd::prelude::*;
use vstd::string::StringExecFns;

use crate::error::Error;
use crate::scan::starts_with_spec;
use crate::validation::{address_format_ok, contract_name_ok, duration_text, private_key_ok,
    rpc_url_ok, validate_contract_address, validate_contract_name, validate_private_key,
    validate_rpc_url, validate_wait_time};

verus! {

broadcast use vstd::string::group_string_axioms;

/// The session configuration, consumed once at startup.
#[derive(Debug)]
pub struct Config {
    /// Directory holding the ABI files.
    pub abi_dir: String,
    /// The RPC endpoint.
    pub rpc_url: String,
    /// Optional signing credential for write dispatches.
    pub private_key: Option<String>,
    /// The chain id the configuration expects.
    pub chain_id: u64,
    /// How long to wait for a transaction confirmation, e.g. `30s`.
    pub wait_time: String,
    /// Optional name of the contract selected at startup.
    pub contract_name: Option<String>,
    /// Optional address of the contract selected at startup.
    pub contract_address: Option<String>,
}

/// All the checks `Config::validate` runs, as one predicate.
///
/// The chain id needs no clause: it is held as an integer, and every `u64`
/// fits in 256 bits.
pub open spec fn config_ok(c: Config) -> bool {
    &&& rpc_url_ok(c.rpc_url@)
    &&& duration_text(c.wait_time@)
    &&& (c.private_key matches Some(k) ==> private_key_ok(k@))
    &&& (c.contract_name matches Some(n) ==> contract_name_ok(n@))
    &&& (c.contract_address matches Some(a) ==> address_format_ok(a@))
}

impl Default for Config {
    /// A local-node configuration with nothing selected.
    fn default() -> (r: Self)
        ensures
            r.abi_dir@ == "./abis"@,
            r.rpc_url@ == "http://localhost:8545"@,
            r.private_key is None,
            r.chain_id == 1,
            r.wait_time@ == "30s"@,
            r.contract_name is None,
            r.contract_address is None,
    {
        Config {
            abi_dir: String::from_str("./abis"),
            rpc_url: String::from_str("http://localhost:8545"),
            private_key: None,
            chain_id: 1,
            wait_time: String::from_str("30s"),
            contract_name: None,
            contract_address: None,
        }
    }
}

impl Config {
    /// Check every field of the configuration, in a fixed order: endpoint,
    /// wait time, private key, contract name, contract address.  The first
    /// failing check decides the error.
    pub fn validate(&self) -> (r: Result<(), Error>)
        ensures
            r is Ok <==> config_ok(*self),
            r is Err && !rpc_url_ok(self.rpc_url@) ==> r->Err_0 matches Error::InvalidAddress(_),
            r is Err && rpc_url_ok(self.rpc_url@) && !duration_text(self.wait_time@)
                ==> r->Err_0 matches Error::InvalidWaitTime(_),
            r is Err && rpc_url_ok(self.rpc_url@) && duration_text(self.wait_time@)
                && (self.private_key matches Some(k) && !private_key_ok(k@))
                ==> r->Err_0 matches Error::InvalidPrivateKey(_),
            r is Err && rpc_url_ok(self.rpc_url@) && duration_text(self.wait_time@)
                && (self.private_key matches Some(k) ==> private_key_ok(k@))
                ==> r->Err_0 matches Error::InvalidContract(_),
    {
        validate_rpc_url(self.rpc_url.as_str())?;
        validate_wait_time(self.wait_time.as_str())?;
        match &self.private_key {
            Some(pk) => {
                validate_private_key(pk.as_str())?;
            },
            None => {},
        }
        match &self.contract_name {
            Some(name) => {
                validate_contract_name(name.as_str())?;
            },
            None => {},
        }
        match &self.contract_address {
            Some(addr) => {
                validate_contract_address(addr.as_str())?;
            },
            None => {},
        }
        Ok(())
    }
}

/// One record of the persisted contract registry.
#[derive(Debug)]
pub struct ContractInfo {
    /// The contract's name.
    pub name: String,
    /// The deployed contract's address, once one has been assigned.
    pub address: Option<String>,
}

/// A registry record is valid when its name is non-empty and its address,
/// if assigned, is non-empty and `0x`-prefixed.
pub open spec fn contract_info_ok(c: ContractInfo) -> bool {
    c.name@.len() > 0 && (c.address matches Some(a) ==> (a@.len() > 0 && starts_with_spec(
        a@,
        "0x"@,
    )))
}

/// The error an invalid registry record is reported with: the first failing
/// check — empty name, empty address, missing `0x` prefix — names itself.
pub open spec fn contract_info_error(c: ContractInfo, e: Error) -> bool {
    if c.name@.len() == 0 {
        e matches Error::InvalidContract(m) && m@ == "Contract name cannot be empty"@
    } else if c.address matches Some(a) && a@.len() == 0 {
        e matches Error::InvalidContract(m) && m@ == "Contract address cannot be empty"@
    } else {
        e matches Error::InvalidContract(m) && m@ == "Contract address must start with 0x"@
    }
}

impl ContractInfo {
    /// Check one registry record: non-empty name; a non-empty, `0x`-prefixed
    /// address when one is assigned.
    pub fn validate(&self) -> (r: Result<(), Error>)
        ensures
            r is Ok <==> contract_info_ok(*self),
            r matches Err(e) ==> contract_info_error(*self, e),
    {
        if self.name.as_str().unicode_len() == 0 {
            return Err(Error::InvalidContract(String::from_str("Contract name cannot be empty")));
        }
        match &self.address {
            Some(addr) => {
                if addr.as_str().unicode_len() == 0 {
                    return Err(Error::InvalidContract(String::from_str(
                        "Contract address cannot be empty",
                    )));
                }
                if !crate::scan::starts_with_text(addr.as_str(), "0x") {
                    return Err(Error::InvalidContract(String::from_str(
                        "Contract address must start with 0x",
                    )));
                }
            },
            None => {},
        }
        Ok(())
    }
}

/// Check a whole registry; the first invalid record decides the error, and
/// no later record is examined.
pub fn validate_contract_infos(infos: &[ContractInfo]) -> (r: Result<(), Error>)
    ensures
        r is Ok <==> (forall|i: int| 0 <= i < infos@.len() ==> contract_info_ok(
            #[trigger] infos@[i],
        )),
        r matches Err(e) ==> (exists|i: int|
            0 <= i < infos@.len() && !contract_info_ok(#[trigger] infos@[i])
                && contract_info_error(infos@[i], e) && forall|j: int|
                0 <= j < i ==> contract_info_ok(#[trigger] infos@[j])),
{
    let n = infos.len();
    let mut i: usize = 0;
    while i < n
        invariant
            0 <= i <= n,
            n == infos@.len(),
            forall|k: int| 0 <= k < i ==> contract_info_ok(#[trigger] infos@[k]),
        decreases n - i,
    {
        match infos[i].validate() {
            Ok(()) => {},
            Err(e) => {
                proof {
                    assert(!contract_info_ok(infos@[i as int]));
                    assert(contract_info_error(infos@[i as int], e));
                }
                return Err(e);
            },
        }
        i += 1;
    }
    Ok(())
}

} // verus!
