//! Known-chain metadata and lookup by chain id.  Loading the metadata file
//! is the host's concern; the library holds the records and the lookup.

use vstd::prelude::*;

verus! {

/// What can go wrong with a chain lookup.
#[derive(Debug, Clone, Copy, PartialEq, Eq, Structural)]
pub enum ChainError {
    /// No known chain carries the given id.
    ChainNotFound(u64),
}

/// A chain's native currency.
#[derive(Debug)]
pub struct NativeCurrency {
    pub name: String,
    pub symbol: String,
    pub decimals: i32,
}

/// One known chain's metadata.
#[derive(Debug)]
pub struct ChainInfo {
    pub name: String,
    pub chain_id: u64,
    pub short_name: String,
    pub network_id: u64,
    pub native_currency: NativeCurrency,
    pub rpc: Vec<String>,
    pub faucets: Vec<String>,
    pub info_url: String,
}

impl ChainInfo {
    /// The first record carrying the given chain id, or `ChainNotFound`.
    pub fn get_by_id(chain_infos: &[ChainInfo], chain_id: u64) -> (r: Result<&ChainInfo, ChainError>)
        ensures
            r is Ok <==> (exists|i: int| 0 <= i < chain_infos@.len() && (#[trigger] chain_infos@[i]).chain_id
                == chain_id),
            r matches Ok(c) ==> (exists|i: int|
                0 <= i < chain_infos@.len() && *c == chain_infos@[i] && chain_infos@[i].chain_id
                    == chain_id && forall|j: int|
                    0 <= j < i ==> (#[trigger] chain_infos@[j]).chain_id != chain_id),
            r matches Err(e) ==> e == ChainError::ChainNotFound(chain_id),
    {
        let n = chain_infos.len();
        let mut i: usize = 0;
        while i < n
            invariant
                0 <= i <= n,
                n == chain_infos@.len(),
                forall|k: int| 0 <= k < i ==> (#[trigger] chain_infos@[k]).chain_id != chain_id,
            decreases n - i,
        {
            if chain_infos[i].chain_id == chain_id {
                return Ok(&chain_infos[i]);
            }
            i += 1;
        }
        Err(ChainError::ChainNotFound(chain_id))
    }
}

} // verus!
