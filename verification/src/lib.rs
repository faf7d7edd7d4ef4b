//! ABI-driven contract-interaction engine.
//!
//! Given a contract interface (methods with mutability and typed parameters)
//! and textual argument values, this library classifies methods by effect,
//! encodes arguments into the binary layout a call requires, and decides how
//! an invocation is dispatched: as a stateless read call or as a confirmed,
//! signed write transaction.  All I/O (prompts, files, the RPC transport)
//! lives outside the library and hands it plain values.

pub mod abi;
pub mod chain;
pub mod codec;
pub mod config;
pub mod context;
pub mod dispatch;
pub mod error;
pub mod scan;
pub mod step;
pub mod text;
pub mod validation;
pub mod workflow;
