//! A high-score register kept by a replicated application.
//!
//! Every replica applies the same submitted operations in the same order to
//! one persisted number, the high score, and answers read-only queries from a
//! committed snapshot of it. A submission replaces the high score only when it
//! beats it, so the register never decreases and replaying a submission
//! changes nothing.

pub mod abi;
pub mod contract;
pub mod error;
pub mod score;
pub mod service;
pub mod state;
