//! A collateralized call option as a verified state machine.
//!
//! One party (the creator) locks collateral and grants a counterparty (the
//! owner) the right to acquire it before an expiration height by paying a
//! fixed counter-offer. The machine enforces ownership-gated transitions,
//! time-bounded exercise, exact-value exchange and atomic settlement: each
//! transition reads the single persisted record, either rejects the call with
//! no effect or commits a new record (or deletes it) together with the bank
//! transfer instructions it emits.

pub mod contract;
pub mod funds;
pub mod laws;
pub mod state;
