//! A dead-man's-switch digital-inheritance vault.
//!
//! An owner registers a custody record and locks a stake. Regular heartbeats
//! (`ping`) prove the owner is alive; once the configured interval passes in
//! silence, any observer may awaken the record (`check_silence`) and collect a
//! bounty from the stake. If the grace window then elapses without a
//! cancellation, the record becomes executable and its beneficiary ledger can
//! be settled entry by entry, each exactly once.
//!
//! This crate holds the verified core: the lifecycle state machine, the
//! authorization matrix (owner / guardian / arbitrary caller), the beneficiary
//! ledger, and the stake economics. Actual value movement, clock reads and
//! record storage are the host's concern: every operation here takes the
//! current time as an argument and reports the amounts to move; the host
//! performs the movement and commits or rolls back the record atomically.

pub mod beneficiaries;
pub mod errors;
pub mod laws;
pub mod lifecycle;
pub mod settings;
pub mod settlement;
pub mod state;
