//! Executes a blockchain runtime's entry points against a historical block's
//! state without holding that state locally: storage reads are resolved on
//! demand by a remote storage oracle.
//!
//! This crate holds the verified core: the decision logic that drives a
//! paused virtual machine to completion, threads accumulated storage changes
//! between chained calls, and collapses the outcome into a single response.
//! The virtual machine itself and the oracle transport are external
//! collaborators; an unverified shell performs their I/O and feeds the
//! answers back into the functions of this crate.

pub mod diff;
pub mod interaction;
pub mod orchestrator;
pub mod runtime;
pub mod signature;
pub mod task;
