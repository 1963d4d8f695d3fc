//! An authority-guarded prediction ledger.
//!
//! A single authority registers timestamped statements with a confidence
//! score and later resolves each one as correct or incorrect once its
//! deadline has passed. The ledger tracks how many predictions were issued
//! and how many were resolved correct, and derives an accuracy percentage
//! from those counters.
//!
//! The host runtime supplies the current time, durable storage for the
//! records, caller authentication and an event log; this crate holds the
//! rules themselves: validation, state transitions and the counters'
//! invariants, all verified.

pub mod laws;
pub mod ledger;
pub mod ops;
pub mod state;
