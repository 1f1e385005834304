//! A minimal token-staking ledger.
//!
//! Accounts deposit a designated stake token, accrue a fixed-rate reward on a
//! fixed epoch cadence, and may claim that reward or redirect it to another
//! account. The ledger is a pure state-transition engine: the caller identity
//! and the current epoch are inputs supplied by the hosting environment, and
//! reward issuance is returned to the host as an explicit action rather than
//! performed here.

pub mod laws;
pub mod ledger;
pub mod position;
