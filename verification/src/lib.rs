//! Token-weighted governance and ledger module: a snapshot ledger whose
//! voting power freezes while a proposal is open, a single-active-proposal
//! voting state machine with quorum-gated execution of governance actions, a
//! trust-key registry, a fixed three-slot keeper set, and a deposit/withdraw
//! escrow.
//!
//! `state` holds the mathematical model and the transition functions, `dao`
//! the executable module proved against them, and `laws` the proofs of the
//! governance invariants.

pub mod dao;
pub mod laws;
pub mod state;
