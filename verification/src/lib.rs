//! Run one shell command concurrently on a fleet of SSH hosts, merging each
//! host's line-oriented output into a single tagged stream.
//!
//! This crate holds the verified core: configuration validation, the argument
//! vector handed to the external SSH client, the per-host visual tag, the
//! formatting of every line the run emits, and the per-task state machine the
//! supervisor follows. The async runtime, the child processes and the terminal
//! live outside, in the thin binary built around this library.

pub mod config;
pub mod dec;
pub mod invoke;
pub mod lines;
pub mod plan;
pub mod supervisor;
pub mod tag;
