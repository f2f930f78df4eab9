//! Multi-party construction of a partially signed transaction (PSBT) against a
//! ledger node: fund, join with a counterparty, sign in each wallet, combine,
//! finalize and broadcast.
//!
//! The library holds the logic between the wire and the node: the JSON model
//! (`json`), what each call sends (`rpc`), how each reply is read (`decode`),
//! and the lifecycle that decides what to call next (`pipeline`). Performing
//! the calls is left to the caller.

pub mod decode;
pub mod json;
pub mod pipeline;
pub mod rpc;
pub mod types;
