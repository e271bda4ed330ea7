//! What the window manager reports: for every monitor its workspaces, with
//! their window counts and monocle status, and which workspace is focused.

use vstd::prelude::*;
use crate::error::Error;

verus! {

/// The reported state of one workspace.
#[derive(Clone, Copy, Debug, PartialEq, Eq, Hash, Structural)]
pub struct WorkspaceState {
    /// How many window containers the workspace holds.
    pub window_count: usize,
    /// Whether a monocle container is active on the workspace. It matters
    /// only while the workspace is the focused one of its monitor.
    pub monocle_active: bool,
}

/// The reported state of one monitor.
#[derive(Clone, Debug, PartialEq, Eq)]
pub struct MonitorSnapshot {
    /// Index of the focused workspace among `workspaces`.
    pub focused_workspace: usize,
    pub workspaces: Vec<WorkspaceState>,
}

/// The mathematical content of a [`MonitorSnapshot`].
pub struct MonitorReport {
    pub focused_workspace: int,
    pub workspaces: Seq<WorkspaceState>,
}

impl MonitorReport {
    /// The focused workspace is one of the monitor's workspaces.
    pub open spec fn focus_valid(self) -> bool {
        0 <= self.focused_workspace < self.workspaces.len()
    }

    /// The state of the focused workspace.
    pub open spec fn focused(self) -> WorkspaceState {
        self.workspaces[self.focused_workspace]
    }
}

impl View for MonitorSnapshot {
    type V = MonitorReport;

    open spec fn view(&self) -> MonitorReport {
        MonitorReport {
            focused_workspace: self.focused_workspace as int,
            workspaces: self.workspaces@,
        }
    }
}

/// A full report of the window manager's state, monitor by monitor.
#[derive(Clone, Debug, PartialEq, Eq)]
pub struct StateSnapshot {
    pub monitors: Vec<MonitorSnapshot>,
}

/// The content of a list of monitor snapshots.
pub open spec fn reports_of(monitors: Seq<MonitorSnapshot>) -> Seq<MonitorReport> {
    Seq::new(monitors.len(), |m: int| monitors[m]@)
}

impl View for StateSnapshot {
    type V = Seq<MonitorReport>;

    open spec fn view(&self) -> Seq<MonitorReport> {
        reports_of(self.monitors@)
    }
}

/// The number of workspaces of each monitor.
pub open spec fn topology(reports: Seq<MonitorReport>) -> Seq<usize> {
    Seq::new(reports.len(), |m: int| reports[m].workspaces.len() as usize)
}

/// Every monitor's focused workspace is one of its workspaces.
pub open spec fn well_formed(reports: Seq<MonitorReport>) -> bool {
    forall|m: int| 0 <= m < reports.len() ==> (#[trigger] reports[m]).focus_valid()
}

/// Monitor `monitor_index` is the first whose focused workspace is not one of
/// its workspaces.
pub open spec fn first_invalid_focus(reports: Seq<MonitorReport>, monitor_index: int) -> bool {
    &&& 0 <= monitor_index < reports.len()
    &&& !reports[monitor_index].focus_valid()
    &&& forall|m: int| 0 <= m < monitor_index ==> (#[trigger] reports[m]).focus_valid()
}

/// `error` names the first monitor whose focused workspace is not one of its
/// workspaces.
pub open spec fn is_focus_fault(reports: Seq<MonitorReport>, error: Error) -> bool {
    exists|m: int|
        first_invalid_focus(reports, m) && error == (Error::InvalidFocus {
            monitor_index: m as usize,
        })
}

impl StateSnapshot {
    /// The number of workspaces of each monitor.
    pub fn workspace_counts(&self) -> (counts: Vec<usize>)
        ensures
            counts@ == topology(self@),
            forall|m: int|
                0 <= m < self@.len() ==> (#[trigger] counts@[m]) == self@[m].workspaces.len(),
    {
        let mut counts: Vec<usize> = Vec::new();
        let mut m: usize = 0;
        while m < self.monitors.len()
            invariant
                m <= self.monitors.len(),
                counts@ == topology(self@).take(m as int),
                forall|k: int| 0 <= k < m ==> (#[trigger] counts@[k]) == self@[k].workspaces.len(),
            decreases self.monitors.len() - m,
        {
            counts.push(self.monitors[m].workspaces.len());
            m += 1;
        }
        counts
    }

    /// Checks that every monitor's focused workspace is one of its
    /// workspaces, and names the first monitor for which it is not.
    pub fn validate(&self) -> (result: Result<(), Error>)
        ensures
            match result {
                Ok(()) => well_formed(self@),
                Err(error) => is_focus_fault(self@, error),
            },
    {
        let mut m: usize = 0;
        while m < self.monitors.len()
            invariant
                m <= self.monitors.len(),
                forall|k: int| 0 <= k < m ==> (#[trigger] self@[k]).focus_valid(),
            decreases self.monitors.len() - m,
        {
            if self.monitors[m].focused_workspace >= self.monitors[m].workspaces.len() {
                assert(first_invalid_focus(self@, m as int));
                return Err(Error::InvalidFocus { monitor_index: m });
            }
            m += 1;
        }
        Ok(())
    }
}

} // verus!
