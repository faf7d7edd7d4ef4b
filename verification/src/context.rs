//! The session context: the single-owner, process-lifetime state a dispatch
//! consults — endpoint, chain ids, optional signing credential and the
//! currently selected contract address.

use vstd::prelude::*;

use crate::codec::{checksummed_address, parse_checksummed_address};
use crate::config::Config;
use crate::error::Error;
use crate::validation::private_key_hex_ok;

verus! {

/// The mutable session state.  It is owned by the workflow loop alone; the
/// library mutates it only through the methods below.
#[derive(Debug)]
pub struct SessionContext {
    /// The RPC endpoint dispatches go to.
    pub rpc_endpoint: String,
    /// The chain id the configuration expects.
    pub configured_chain_id: u64,
    /// The chain id the endpoint reported, once reconciled.
    pub live_chain_id: Option<u64>,
    /// The signing credential, when write dispatches are possible.
    pub signing_key: Option<String>,
    /// The 20 bytes of the selected contract's address, once one is set.
    pub selected_contract_address: Option<Vec<u8>>,
}

/// The context's invariant: a selected address is always 20 bytes.
pub open spec fn session_wf(ctx: SessionContext) -> bool {
    ctx.selected_contract_address matches Some(b) ==> b@.len() == 20
}

impl SessionContext {
    /// Build the initial context from the configuration.
    ///
    /// The private key, if present, must be hexadecimal; the contract
    /// address, if present, must be a checksummed address, and its 20 bytes
    /// become the initial selection.  The live chain id starts unknown.
    /// The key is checked first; each failure carries its own field's text.
    pub fn new(config: &Config) -> (r: Result<SessionContext, Error>)
        ensures
            r is Ok <==> ((config.private_key matches Some(k) ==> private_key_hex_ok(k@))
                && (config.contract_address matches Some(a) ==> checksummed_address(a@) is Some)),
            r matches Ok(ctx) ==> ctx.rpc_endpoint@ == config.rpc_url@
                && ctx.configured_chain_id == config.chain_id && ctx.live_chain_id is None
                && (ctx.signing_key matches Some(k) ==> (config.private_key matches Some(k2)
                && k@ == k2@)) && (ctx.signing_key is Some <==> config.private_key is Some),
            r matches Ok(ctx) ==> (ctx.selected_contract_address is Some
                <==> config.contract_address is Some),
            r matches Ok(ctx) ==> (ctx.selected_contract_address matches Some(b)
                ==> (config.contract_address matches Some(a) && Some(b@)
                == checksummed_address(a@))),
            r matches Ok(ctx) ==> session_wf(ctx),
            r is Err && (config.private_key matches Some(k) && !private_key_hex_ok(k@))
                ==> (r->Err_0 matches Error::InvalidPrivateKey(s) && (config.private_key
                matches Some(k2) && s@ == k2@)),
            r is Err && (config.private_key matches Some(k) ==> private_key_hex_ok(k@))
                ==> (r->Err_0 matches Error::InvalidAddress(s) && (config.contract_address
                matches Some(a) && s@ == a@ && checksummed_address(a@) is None)),
    {
        let signing_key: Option<String> = match &config.private_key {
            Some(pk) => {
                if !crate::validation::private_key_chars_valid(pk.as_str()) {
                    return Err(Error::InvalidPrivateKey(pk.clone()));
                }
                Some(pk.clone())
            },
            None => None,
        };
        let selected: Option<Vec<u8>> = match &config.contract_address {
            Some(addr) => {
                match parse_checksummed_address(addr.as_str()) {
                    Some(bytes) => Some(bytes),
                    None => {
                        return Err(Error::InvalidAddress(addr.clone()));
                    },
                }
            },
            None => None,
        };
        Ok(SessionContext {
            rpc_endpoint: config.rpc_url.clone(),
            configured_chain_id: config.chain_id,
            live_chain_id: None,
            signing_key,
            selected_contract_address: selected,
        })
    }

    /// Record the chain id the endpoint reported.
    ///
    /// The live value becomes authoritative for later dispatches; the
    /// result says whether it disagrees with the configured one, which the
    /// host reports as a non-fatal warning.  The query itself is the RPC
    /// collaborator's step; this method only takes its answer.
    pub fn reconcile_chain_id(&mut self, observed: u64) -> (mismatch: bool)
        ensures
            final(self).live_chain_id == Some(observed),
            final(self).rpc_endpoint == old(self).rpc_endpoint,
            final(self).configured_chain_id == old(self).configured_chain_id,
            final(self).signing_key == old(self).signing_key,
            final(self).selected_contract_address == old(self).selected_contract_address,
            mismatch == (observed != old(self).configured_chain_id),
            session_wf(*old(self)) ==> session_wf(*final(self)),
    {
        self.live_chain_id = Some(observed);
        observed != self.configured_chain_id
    }

    /// The chain id a dispatch signs for: the reconciled live value when
    /// one is known, the configured value until then.
    pub fn effective_chain_id(&self) -> (r: u64)
        ensures
            r == if self.live_chain_id is Some {
                self.live_chain_id.unwrap()
            } else {
                self.configured_chain_id
            },
    {
        match self.live_chain_id {
            Some(c) => c,
            None => self.configured_chain_id,
        }
    }

    /// Replace the selected contract address, if the text is a checksummed
    /// address; on any failure the prior selection stays untouched.
    pub fn select_contract(&mut self, address: &str) -> (r: Result<(), Error>)
        ensures
            r is Ok <==> checksummed_address(address@) is Some,
            r is Ok ==> (final(self).selected_contract_address matches Some(b) && Some(b@)
                == checksummed_address(address@)),
            final(self).rpc_endpoint == old(self).rpc_endpoint,
            final(self).configured_chain_id == old(self).configured_chain_id,
            final(self).live_chain_id == old(self).live_chain_id,
            final(self).signing_key == old(self).signing_key,
            r is Err ==> final(self).selected_contract_address == old(
                self,
            ).selected_contract_address,
            r matches Err(e) ==> (e matches Error::InvalidAddress(s) && s@ == address@),
            session_wf(*old(self)) ==> session_wf(*final(self)),
    {
        match parse_checksummed_address(address) {
            Some(bytes) => {
                self.selected_contract_address = Some(bytes);
                Ok(())
            },
            None => Err(Error::InvalidAddress(address.to_owned())),
        }
    }
}

} // verus!
