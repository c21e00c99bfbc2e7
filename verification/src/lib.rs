//! A verified core for a fixed-path token-swap pipeline: it loads a wallet
//! key from a JSON byte array, selects a priority fee, shapes the quote
//! request and the transaction-build request, decodes and re-signs the
//! returned transaction legs, and tracks the strictly sequential
//! send/confirm flow as a state machine. All network and file traffic is
//! left to the surrounding binary; this crate holds the logic and its
//! contracts.

pub mod config;
pub mod fees;
pub mod flow;
pub mod keyfile;
pub mod keys;
pub mod legs;
pub mod numio;
pub mod request;
mod strutil;
