//! Supervision logic for a fleet of long-lived mount processes.
//!
//! The library holds the decisions of the supervisor: which configured
//! mount points form the fleet, how a mount process's exit is classified,
//! how failures are aggregated into the abort-on-total-failure policy,
//! and which mount points are unmounted when the process drains.
//! Launching processes, listening for signals and reading the
//! configuration file are left to the surrounding program.

pub mod command;
pub mod coordinator;
pub mod failures;
pub mod models;
pub mod supervise;
pub mod utils;
