//! Settlement bookkeeping for a two-wallet transfer on a regtest node.
//!
//! The node itself is reached by the caller; this library decides how the
//! wallets are provisioned and reconstructs, from raw transaction data alone,
//! where a transfer's input came from and how its outputs split into payment
//! and change.

pub mod address;
pub mod funding;
pub mod provenance;
pub mod report;
pub mod wallet;
