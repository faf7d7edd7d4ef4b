//! The error taxonomy shared by every component of the library.

use vstd::prelude::*;

verus! {

/// What went wrong with one textual argument value.
///
/// Carrying the offending input (or the exact arity counts) as data keeps the
/// report precise without any string formatting inside verified code.
#[derive(Debug, Clone, PartialEq, Eq)]
pub enum ArgumentIssue {
    /// The value did not parse as a base-10 integer fitting in 256 bits.
    Number(String),
    /// The value was not exactly `true` or `false`.
    Boolean(String),
    /// The value was not an even-length hexadecimal string.
    Hex(String),
    /// The declared parameter type is not one the codec supports.
    UnsupportedType(String),
    /// A tuple literal held a different number of parts than declared.
    TupleArity { expected: usize, actual: usize },
    /// A call supplied a different number of values than the method declares
    /// parameters.
    ArgumentCount { expected: usize, actual: usize },
}

/// Errors that the engine reports.
#[derive(Debug, Clone, PartialEq, Eq)]
pub enum Error {
    /// A private key was malformed.
    InvalidPrivateKey(String),
    /// A chain id was malformed.
    InvalidChainId(String),
    /// A wait-time text was malformed.
    InvalidWaitTime(String),
    /// A contract name or record was malformed.
    InvalidContract(String),
    /// An address was malformed or not checksummed.
    InvalidAddress(String),
    /// A method lookup failed.
    InvalidFunction(String),
    /// An ABI source was malformed (reported by the catalog, passed through).
    InvalidAbi(String),
    /// An argument value was rejected by the codec.
    InvalidArguments(ArgumentIssue),
    /// The RPC collaborator failed.
    Provider(String),
    /// A dispatch was attempted with no contract selected.
    NoContractSelected,
    /// A write dispatch was attempted with no signing credential.
    NoWalletConfigured,
    /// No method of the given name exists in the chosen partition.
    MethodNotFound(String),
    /// No contract record of the given name exists.
    ContractNotFound(String),
    /// Anything the other kinds do not cover.
    Other(String),
}

} // verus!
