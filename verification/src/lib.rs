//! Per-monitor work-area offsets for a tiling window manager.
//!
//! A cascading configuration (global, then monitor, then workspace) is
//! flattened into one policy per workspace. The live state mirrors what the
//! window manager reports. For each monitor the evaluator turns the focused
//! workspace's policy, window count and monocle status into the offset the
//! monitor should have, the dispatcher decides which offsets must be sent, and
//! the scheduler coalesces bursts of changes into single retile commands.
//!
//! The crate performs no I/O: every function maps plain values to plain values,
//! and the caller carries commands to the window manager and events back.

pub mod config;
pub mod error;
pub mod live;
pub mod offset;
pub mod policy;
pub mod scheduler;
pub mod snapshot;
pub mod state;
