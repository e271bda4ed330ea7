//! The ways in which configuration, snapshots and updates can fail to fit.

use vstd::prelude::*;

verus! {

/// Why a configuration, a snapshot or an update was rejected.
#[derive(Clone, Copy, Debug, PartialEq, Eq, Structural)]
pub enum Error {
    /// The configuration has no entry for a monitor that the window manager
    /// reports.
    MissingMonitor { monitor_index: usize },
    /// The configuration lists workspaces for a monitor, but fewer than the
    /// window manager reports; `workspace_index` is the first one without an
    /// entry.
    MissingWorkspace { monitor_index: usize, workspace_index: usize },
    /// A snapshot names a focused workspace that the monitor does not have.
    InvalidFocus { monitor_index: usize },
    /// A snapshot reports other monitors or workspaces than the state was
    /// built for.
    TopologyChanged,
    /// An update names a monitor that the state does not have.
    UnknownMonitor { monitor_index: usize },
}

} // verus!
