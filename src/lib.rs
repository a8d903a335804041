//! A custodial escrow engine: one sender's funds held for one recipient,
//! released or refunded exactly once, with an exact platform-fee split.

pub mod policy;
pub mod escrow;
pub mod store;
