//! A provenance and incentive ledger for sensing machines that report
//! readings about plants and earn reward units for each contribution.
//!
//! The crate holds the ledger's records, the rules that gate each change to
//! them and the reward accounting, as transitions on plain values. Storage,
//! signatures and the clock belong to the host: it hands in the records an
//! operation touches, the signer's address and the current time.

pub mod accounts;
pub mod address;
pub mod authority;
pub mod error;
pub mod laws;
pub mod ledger;
pub mod state;
