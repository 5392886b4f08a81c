//! A pomodoro timer core: a phase clock over work/break cycles, the policy
//! that decides whether a new phase starts running or paused, the line
//! protocol a daemon speaks with short-lived clients, and the state-file
//! codec that lets the daemon resume exactly where it left off.

pub mod clock;
pub mod config;
pub mod daemon;
pub mod numtext;
pub mod phase;
pub mod protocol;
pub mod response;
pub mod statefile;
pub mod status;

use vstd::prelude::*;

verus! {

/// Largest timestamp (seconds since the epoch) the clock accepts, chosen so
/// that a finish time `start_time + duration` always fits in a `u64`.
pub const MAX_TIMESTAMP: u64 = 0xFFFF_FFFF_FFFF;

} // verus!
