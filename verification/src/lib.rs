//! Lifecycle engine for staged removal of directory users.
//!
//! A robot owns a removal policy for one organization. Each scheduler tick
//! evaluates the live user roster against the policy, stages offending users
//! as purge records with a grace window, warns them on a fixed cadence, and
//! finally removes them with a durable log trail. This crate holds the pure
//! decision logic: policy evaluation, the purge-record state machine, and the
//! per-tick reconciliation. Transport, storage and delivery stay outside.

use vstd::prelude::*;

pub mod config;
pub mod errors;
pub mod evaluate;
pub mod jira;
pub mod laws;
pub mod projects;
pub mod purge;
mod reasons;
pub mod report;
pub mod robot;
mod similarity;
pub mod tick;

pub use reasons::PurgeReason;
pub use reasons::ReasonSet;
pub use similarity::edit_distance;
pub use similarity::longer_len;
pub use similarity::similar;
pub use similarity::spec_similar;
pub use similarity::within_threshold;

verus! {

/// Number of seconds in one day; timestamps are Unix seconds.
pub const SECONDS_PER_DAY: i64 = 86400;

/// Days between first detection and eligible removal: the grace window.
pub const GRACE_PERIOD_DAYS: i64 = 7;

/// Days between two warning emails for the same record.
pub const WARN_DELAY_DAYS: i64 = 3;

} // verus!
