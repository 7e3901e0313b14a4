//! An append-only ledger of proof-of-work blocks: each block commits to its
//! predecessor's digest and carries a nonce that makes its own digest start
//! with a run of zero hex characters.

pub mod encoding;
pub mod block;
pub mod services;
pub mod chain;
pub mod laws;
