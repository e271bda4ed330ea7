//! The live state: a mirror of what the window manager last reported, and for
//! every monitor the offset that was last applied to it.

use vstd::prelude::*;
use crate::error::Error;
use crate::offset::Offset;
use crate::snapshot::{
    is_focus_fault, well_formed, MonitorReport, StateSnapshot, WorkspaceState,
};

verus! {

/// The mathematical content of a [`MonitorState`].
pub struct MonitorView {
    /// What the window manager last reported about the monitor.
    pub report: MonitorReport,
    /// The offset last applied to the monitor; `None` while none was.
    pub last_applied: Option<Offset>,
}

/// The reports that a live state holds, monitor by monitor.
pub open spec fn reports(live: Seq<MonitorView>) -> Seq<MonitorReport> {
    Seq::new(live.len(), |m: int| live[m].report)
}

/// The live state and a snapshot speak of the same monitors and workspaces.
pub open spec fn same_topology(live: Seq<MonitorView>, snapshot: Seq<MonitorReport>) -> bool {
    &&& live.len() == snapshot.len()
    &&& forall|m: int|
        0 <= m < live.len() ==> (#[trigger] live[m]).report.workspaces.len()
            == snapshot[m].workspaces.len()
}

/// `error` says why the snapshot does not fit the live state: it speaks of
/// other monitors or workspaces, or else it names a focused workspace that a
/// monitor does not have.
pub open spec fn is_misfit(live: Seq<MonitorView>, snapshot: Seq<MonitorReport>, error: Error)
    -> bool {
    if same_topology(live, snapshot) {
        is_focus_fault(snapshot, error)
    } else {
        error == Error::TopologyChanged
    }
}

/// The live state right after start: what the snapshot reports, and no offset
/// applied to any monitor yet.
pub open spec fn fresh(snapshot: Seq<MonitorReport>) -> Seq<MonitorView> {
    Seq::new(snapshot.len(), |m: int| MonitorView { report: snapshot[m], last_applied: None })
}

/// The live state after a notification: what the snapshot reports, and for
/// every monitor the offset that was last applied to it before.
pub open spec fn mirror(live: Seq<MonitorView>, snapshot: Seq<MonitorReport>) -> Seq<MonitorView> {
    Seq::new(
        snapshot.len(),
        |m: int| MonitorView { report: snapshot[m], last_applied: live[m].last_applied },
    )
}

/// The live state after `offset` was applied to monitor `monitor_index`.
pub open spec fn applied(live: Seq<MonitorView>, monitor_index: int, offset: Offset) -> Seq<
    MonitorView,
> {
    live.update(
        monitor_index,
        MonitorView { report: live[monitor_index].report, last_applied: Some(offset) },
    )
}

/// Mirroring the same snapshot a second time changes nothing.
pub proof fn lemma_mirror_idempotent(live: Seq<MonitorView>, snapshot: Seq<MonitorReport>)
    ensures
        mirror(mirror(live, snapshot), snapshot) == mirror(live, snapshot),
{
}

/// A snapshot that reports what the live state already holds changes nothing.
pub proof fn lemma_mirror_unchanged(live: Seq<MonitorView>)
    ensures
        mirror(live, reports(live)) == live,
{
}

/// Mirroring a snapshot of the same topology keeps the topology, takes over
/// the reports and leaves every last-applied offset as it was.
pub proof fn lemma_mirror_keeps_applied(live: Seq<MonitorView>, snapshot: Seq<MonitorReport>)
    requires
        same_topology(live, snapshot),
    ensures
        same_topology(mirror(live, snapshot), snapshot),
        reports(mirror(live, snapshot)) == snapshot,
        forall|m: int|
            0 <= m < live.len() ==> (#[trigger] mirror(live, snapshot)[m]).last_applied
                == live[m].last_applied,
{
}

/// What the live state holds about one monitor.
#[derive(Clone, Debug, PartialEq, Eq)]
pub struct MonitorState {
    /// Index of the focused workspace among `workspaces`.
    pub focused_workspace: usize,
    pub workspaces: Vec<WorkspaceState>,
    /// The offset last applied to the monitor; `None` while none was.
    pub last_applied: Option<Offset>,
}

impl View for MonitorState {
    type V = MonitorView;

    open spec fn view(&self) -> MonitorView {
        MonitorView {
            report: MonitorReport {
                focused_workspace: self.focused_workspace as int,
                workspaces: self.workspaces@,
            },
            last_applied: self.last_applied,
        }
    }
}

/// The mirror of the window manager's state. In every monitor the focused
/// workspace is one of the monitor's workspaces.
#[derive(Debug, PartialEq, Eq)]
pub struct LiveState {
    monitors: Vec<MonitorState>,
}

impl View for LiveState {
    type V = Seq<MonitorView>;

    closed spec fn view(&self) -> Seq<MonitorView> {
        Seq::new(self.monitors@.len(), |m: int| self.monitors@[m]@)
    }
}

fn copy_workspaces(workspaces: &Vec<WorkspaceState>) -> (copy: Vec<WorkspaceState>)
    ensures
        copy@ == workspaces@,
{
    let mut copy: Vec<WorkspaceState> = Vec::new();
    let mut w: usize = 0;
    while w < workspaces.len()
        invariant
            w <= workspaces.len(),
            copy@ == workspaces@.take(w as int),
        decreases workspaces.len() - w,
    {
        copy.push(workspaces[w]);
        w += 1;
    }
    copy
}

/// Overwrites every workspace's state with the reported one.
fn overwrite_workspaces(workspaces: &mut Vec<WorkspaceState>, reported: &Vec<WorkspaceState>)
    requires
        old(workspaces)@.len() == reported@.len(),
    ensures
        final(workspaces)@ == reported@,
{
    let mut w: usize = 0;
    while w < reported.len()
        invariant
            w <= reported.len(),
            workspaces@.len() == reported@.len(),
            forall|k: int| 0 <= k < w ==> workspaces@[k] == reported@[k],
        decreases reported.len() - w,
    {
        workspaces[w] = reported[w];
        w += 1;
    }
}

impl LiveState {
    #[verifier::type_invariant]
    spec fn inv(&self) -> bool {
        forall|m: int|
            0 <= m < self.monitors@.len() ==> (#[trigger] self.monitors@[m])@.report.focus_valid()
    }

    /// A live state without monitors.
    pub fn new() -> (live: LiveState)
        ensures
            live@ == Seq::<MonitorView>::empty(),
    {
        LiveState { monitors: Vec::new() }
    }

    /// The live state right after start, from the first snapshot: every
    /// monitor's focused workspace, every workspace's window count and monocle
    /// status, and no offset applied to any monitor yet.
    ///
    /// A snapshot in which some monitor's focused workspace is not one of its
    /// workspaces is rejected, with the first such monitor named.
    pub fn apply_snapshot(snapshot: &StateSnapshot) -> (result: Result<LiveState, Error>)
        ensures
            match result {
                Ok(live) => well_formed(snapshot@) && live@ == fresh(snapshot@),
                Err(error) => is_focus_fault(snapshot@, error),
            },
    {
        match snapshot.validate() {
            Err(error) => Err(error),
            Ok(()) => {
                let mut monitors: Vec<MonitorState> = Vec::new();
                let mut m: usize = 0;
                while m < snapshot.monitors.len()
                    invariant
                        m <= snapshot.monitors.len(),
                        well_formed(snapshot@),
                        monitors@.len() == m,
                        forall|k: int|
                            0 <= k < m ==> (#[trigger] monitors@[k])@ == fresh(snapshot@)[k],
                    decreases snapshot.monitors.len() - m,
                {
                    let reported = &snapshot.monitors[m];
                    monitors.push(
                        MonitorState {
                            focused_workspace: reported.focused_workspace,
                            workspaces: copy_workspaces(&reported.workspaces),
                            last_applied: None,
                        },
                    );
                    m += 1;
                }
                Ok(LiveState { monitors })
            },
        }
    }

    /// Whether the snapshot speaks of the monitors and workspaces that the
    /// live state holds.
    pub fn has_topology_of(&self, snapshot: &StateSnapshot) -> (same: bool)
        ensures
            same == same_topology(self@, snapshot@),
    {
        if self.monitors.len() != snapshot.monitors.len() {
            return false;
        }
        let mut m: usize = 0;
        while m < self.monitors.len()
            invariant
                m <= self.monitors.len(),
                self.monitors.len() == snapshot.monitors.len(),
                forall|k: int|
                    0 <= k < m ==> (#[trigger] self@[k]).report.workspaces.len()
                        == snapshot@[k].workspaces.len(),
            decreases self.monitors.len() - m,
        {
            if self.monitors[m].workspaces.len() != snapshot.monitors[m].workspaces.len() {
                assert(self@[m as int].report.workspaces.len()
                    != snapshot@[m as int].workspaces.len());
                return false;
            }
            m += 1;
        }
        true
    }

    /// Takes over what a notification's snapshot reports: every monitor's
    /// focused workspace and every workspace's window count and monocle
    /// status. The last-applied offsets stay as they are.
    ///
    /// A snapshot that speaks of other monitors or workspaces than the live
    /// state holds is rejected, and so is one in which some monitor's focused
    /// workspace is not one of its workspaces; the live state then stays as
    /// it is.
    pub fn apply_event(&mut self, snapshot: &StateSnapshot) -> (result: Result<(), Error>)
        ensures
            match result {
                Ok(()) => {
                    &&& same_topology(old(self)@, snapshot@)
                    &&& well_formed(snapshot@)
                    &&& final(self)@ == mirror(old(self)@, snapshot@)
                },
                Err(error) => {
                    &&& final(self)@ == old(self)@
                    &&& is_misfit(old(self)@, snapshot@, error)
                },
            },
    {
        if !self.has_topology_of(snapshot) {
            return Err(Error::TopologyChanged);
        }
        match snapshot.validate() {
            Err(error) => Err(error),
            Ok(()) => {
                let mut monitors: Vec<MonitorState> = Vec::new();
                std::mem::swap(&mut monitors, &mut self.monitors);
                let mut m: usize = 0;
                while m < monitors.len()
                    invariant
                        m <= monitors.len(),
                        monitors@.len() == snapshot.monitors@.len(),
                        monitors@.len() == old(self)@.len(),
                        well_formed(snapshot@),
                        same_topology(old(self)@, snapshot@),
                        forall|k: int|
                            0 <= k < m ==> (#[trigger] monitors@[k])@ == mirror(
                                old(self)@,
                                snapshot@,
                            )[k],
                        forall|k: int|
                            m <= k < monitors@.len() ==> (#[trigger] monitors@[k])@ == old(
                                self,
                            )@[k],
                    decreases monitors.len() - m,
                {
                    let reported = &snapshot.monitors[m];
                    monitors[m].focused_workspace = reported.focused_workspace;
                    overwrite_workspaces(&mut monitors[m].workspaces, &reported.workspaces);
                    m += 1;
                }
                self.monitors = monitors;
                Ok(())
            },
        }
    }

    /// Records that `offset` was applied to monitor `monitor_index`.
    pub fn record_applied(&mut self, monitor_index: usize, offset: Offset) -> (result: Result<
        (),
        Error,
    >)
        ensures
            match result {
                Ok(()) => monitor_index < old(self)@.len() && final(self)@ == applied(
                    old(self)@,
                    monitor_index as int,
                    offset,
                ),
                Err(error) => {
                    &&& monitor_index >= old(self)@.len()
                    &&& final(self)@ == old(self)@
                    &&& error == (Error::UnknownMonitor { monitor_index })
                },
            },
    {
        proof {
            use_type_invariant(&*self);
        }
        if monitor_index >= self.monitors.len() {
            return Err(Error::UnknownMonitor { monitor_index });
        }
        let mut monitors: Vec<MonitorState> = Vec::new();
        std::mem::swap(&mut monitors, &mut self.monitors);
        monitors[monitor_index].last_applied = Some(offset);
        self.monitors = monitors;
        Ok(())
    }

    /// The number of monitors.
    pub fn monitor_count(&self) -> (count: usize)
        ensures
            count == self@.len(),
    {
        self.monitors.len()
    }

    /// What the live state holds about a monitor, if it has that monitor.
    /// The focused workspace is one of the monitor's workspaces.
    pub fn monitor(&self, monitor_index: usize) -> (monitor: Option<&MonitorState>)
        ensures
            match monitor {
                Some(found) => {
                    &&& monitor_index < self@.len()
                    &&& found@ == self@[monitor_index as int]
                    &&& found@.report.focus_valid()
                },
                None => monitor_index >= self@.len(),
            },
    {
        proof {
            use_type_invariant(self);
        }
        if monitor_index < self.monitors.len() {
            Some(&self.monitors[monitor_index])
        } else {
            None
        }
    }
}

} // verus!
