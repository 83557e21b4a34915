//! A per-room micropayment ledger for a live-streaming platform.
//!
//! Viewers send tips and pay tiered access fees to a room's host; spending is
//! applied immediately to balances, while the individual transactions are
//! queued per user and periodically collapsed into a single settlement
//! record.  The crate covers balance accounting, tip and access-fee
//! admission, auto-settlement triggering, settlement receipts, room
//! configuration and withdrawal authorization, and the read-side projections
//! (revenue breakdowns, user summaries) over the same state.
//!
//! The execution environment that invokes operations, persists state and
//! authenticates callers is an external collaborator: every operation takes
//! the caller's identity and the current time as plain arguments and is a
//! total function from the current ledger state to the next one.

pub mod engine;
pub mod laws;
pub mod ledger;
pub mod receipt;
pub mod service;
pub mod staking;
pub mod types;

pub use ledger::PaymentLedger;
pub use types::PaymentError;
pub use types::StreamQuality;
