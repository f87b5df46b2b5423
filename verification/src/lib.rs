//! Accounting core of a cross-chain token bridge.
//!
//! Each bridged mint has one ledger record that binds a foreign-chain
//! address to cumulative mint and burn counters. The record upholds a
//! single safety invariant: tokens may never be minted on the local
//! chain beyond what has been burned against the foreign address.
//! The primitive token moves themselves (mint, burn, transfer) are
//! delegated to the host token ledger; this crate holds the decision
//! and commit logic around them.

pub mod errors;
pub mod laws;
pub mod ops;
pub mod record;
