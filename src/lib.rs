//! Confidential pairwise order matching and two-party atomic-swap settlement.
//!
//! * [`circuits`] holds the deterministic matching decision that runs inside
//!   the confidential-computation context.
//! * [`arcium_matching`] turns encrypted order pairs into computation requests
//!   and computation callbacks into match events.
//! * [`settlement`] holds the trade-escrow and batch-escrow state machines.

pub mod arcium_matching;
pub mod circuits;
pub mod settlement;
