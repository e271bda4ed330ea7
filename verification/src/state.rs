//! The application state and the decisions taken on it: which offset every
//! monitor should have, and which offsets must be sent to the window manager.
//!
//! The state is driven by two kinds of events. A notification brings a
//! snapshot, which is taken over into the live state and answered with the
//! offset updates that are due. A confirmation says that an update reached
//! the window manager; only then is the offset recorded as applied.

use vstd::prelude::*;
use crate::config::{resolve_config, Config};
use crate::error::Error;
use crate::live::{
    applied, fresh, is_misfit, lemma_mirror_idempotent, lemma_mirror_keeps_applied, mirror,
    same_topology, LiveState, MonitorView,
};
use crate::offset::Offset;
use crate::policy::{desired_offset, evaluate, Policy, PolicyTable};
use crate::snapshot::{is_focus_fault, topology, well_formed, MonitorReport, StateSnapshot};

verus! {

/// The command that sets the work-area offset of one monitor.
#[derive(Clone, Copy, Debug, PartialEq, Eq, Hash, Structural)]
pub struct OffsetUpdate {
    pub monitor_index: usize,
    pub offset: Offset,
}

/// The mathematical content of an [`AppState`].
pub struct AppView {
    /// The policy of every workspace, by monitor and workspace index.
    pub policies: Seq<Seq<Policy>>,
    /// The live state of every monitor.
    pub monitors: Seq<MonitorView>,
    /// How many offset updates were confirmed; it stops at `usize::MAX`.
    pub offset_changes: usize,
    /// Quiet time in milliseconds before a retile; zero disables retiling.
    pub offset_delay: usize,
}

/// Whether a monitor whose last applied offset is `last_applied` must be sent
/// `desired`: always while no offset was applied, and else when they differ.
pub open spec fn differs(last_applied: Option<Offset>, desired: Offset) -> bool {
    last_applied != Some(desired)
}

impl AppView {
    /// Every monitor has a row of policies with one policy per workspace, and
    /// its focused workspace is one of its workspaces.
    pub open spec fn well_formed(self) -> bool {
        &&& self.policies.len() == self.monitors.len()
        &&& forall|m: int|
            0 <= m < self.monitors.len() ==> {
                &&& (#[trigger] self.monitors[m]).report.focus_valid()
                &&& self.policies[m].len() == self.monitors[m].report.workspaces.len()
            }
    }

    /// The offset that monitor `monitor_index` should have: what its focused
    /// workspace's policy gives for that workspace's monocle status and
    /// window count.
    pub open spec fn desired(self, monitor_index: int) -> Offset {
        let report = self.monitors[monitor_index].report;
        desired_offset(
            self.policies[monitor_index][report.focused_workspace],
            report.focused().monocle_active,
            report.focused().window_count as int,
        )
    }

    /// Monitor `monitor_index` does not have the offset it should have, as
    /// far as confirmed updates tell.
    pub open spec fn needs_update(self, monitor_index: int) -> bool {
        differs(self.monitors[monitor_index].last_applied, self.desired(monitor_index))
    }

    /// The command that gives monitor `monitor_index` the offset it should
    /// have.
    pub open spec fn update_for(self, monitor_index: int) -> OffsetUpdate {
        OffsetUpdate { monitor_index: monitor_index as usize, offset: self.desired(monitor_index) }
    }

    /// The updates that are due for the monitors below `monitor_count`, in
    /// the order of the monitors.
    pub open spec fn pending_below(self, monitor_count: int) -> Seq<OffsetUpdate> {
        Seq::new(monitor_count as nat, |m: int| m).filter(|m: int| self.needs_update(m)).map_values(
            |m: int| self.update_for(m),
        )
    }

    /// The updates that are due: one for every monitor that needs one, in
    /// the order of the monitors.
    pub open spec fn pending_updates(self) -> Seq<OffsetUpdate> {
        self.pending_below(self.monitors.len() as int)
    }

    /// The state after a notification with a snapshot of the same topology.
    pub open spec fn notified(self, snapshot: Seq<MonitorReport>) -> AppView {
        AppView { monitors: mirror(self.monitors, snapshot), ..self }
    }

    /// The state after `update` was confirmed to have reached the window
    /// manager.
    pub open spec fn confirmed(self, update: OffsetUpdate) -> AppView {
        AppView {
            monitors: applied(self.monitors, update.monitor_index as int, update.offset),
            offset_changes: if self.offset_changes < usize::MAX {
                (self.offset_changes + 1) as usize
            } else {
                self.offset_changes
            },
            ..self
        }
    }

    /// The state after each of `updates` was confirmed, in their order.
    pub open spec fn confirmed_all(self, updates: Seq<OffsetUpdate>) -> AppView
        decreases updates.len(),
    {
        if updates.len() == 0 {
            self
        } else {
            self.confirmed_all(updates.drop_last()).confirmed(updates.last())
        }
    }
}

/// The updates due below `monitor_count + 1` are those due below
/// `monitor_count`, followed by the update of monitor `monitor_count` if it
/// needs one.
pub proof fn lemma_pending_below_step(state: AppView, monitor_count: int)
    requires
        0 <= monitor_count,
    ensures
        state.pending_below(monitor_count + 1) == if state.needs_update(monitor_count) {
            state.pending_below(monitor_count).push(state.update_for(monitor_count))
        } else {
            state.pending_below(monitor_count)
        },
{
    let wider = Seq::new((monitor_count + 1) as nat, |m: int| m);
    let narrower = Seq::new(monitor_count as nat, |m: int| m);
    assert(wider.drop_last() =~= narrower);
    reveal(Seq::filter);
}

/// Dispatching the same desired offset for a monitor twice in a row sends it
/// at most once. The first dispatch sends it exactly when it is not the
/// offset last applied to the monitor, which includes that none was applied
/// yet. Once that update is confirmed, the monitor should still have the
/// same offset and nothing is due for it, so the second dispatch sends
/// nothing. What the other monitors should have and need is not affected.
pub proof fn lemma_dispatch_idempotent(state: AppView, monitor_index: int)
    requires
        0 <= monitor_index < state.monitors.len(),
        monitor_index <= usize::MAX,
    ensures
        state.needs_update(monitor_index) <==> state.monitors[monitor_index].last_applied != Some(
            state.desired(monitor_index),
        ),
        ({
            let after = state.confirmed(state.update_for(monitor_index));
            &&& after.desired(monitor_index) == state.desired(monitor_index)
            &&& !after.needs_update(monitor_index)
            &&& forall|k: int|
                0 <= k < state.monitors.len() && k != monitor_index ==> {
                    &&& #[trigger] after.desired(k) == state.desired(k)
                    &&& after.needs_update(k) == state.needs_update(k)
                }
        }),
{
}

/// Taking the same snapshot over a second time changes nothing, and a
/// notification changes neither the policies nor any last-applied offset.
pub proof fn lemma_notification_idempotent(state: AppView, snapshot: Seq<MonitorReport>)
    requires
        same_topology(state.monitors, snapshot),
    ensures
        state.notified(snapshot).notified(snapshot) == state.notified(snapshot),
        state.notified(snapshot).policies == state.policies,
        forall|m: int|
            0 <= m < state.monitors.len() ==> (#[trigger] state.notified(
                snapshot,
            ).monitors[m]).last_applied == state.monitors[m].last_applied,
{
    lemma_mirror_idempotent(state.monitors, snapshot);
    lemma_mirror_keeps_applied(state.monitors, snapshot);
}

/// While no monitor below `monitor_count` needs an update, none is due for
/// them.
pub proof fn lemma_settled_below(state: AppView, monitor_count: int)
    requires
        0 <= monitor_count,
        forall|m: int| 0 <= m < monitor_count ==> !#[trigger] state.needs_update(m),
    ensures
        state.pending_below(monitor_count) == Seq::<OffsetUpdate>::empty(),
    decreases monitor_count,
{
    if monitor_count > 0 {
        lemma_settled_below(state, monitor_count - 1);
        lemma_pending_below_step(state, monitor_count - 1);
    }
}

/// What is due below `monitor_count`, spelled out: every update belongs to a
/// monitor below `monitor_count` that needs it and carries the offset that
/// the monitor should have; the monitors come in rising order; and every
/// monitor below `monitor_count` that needs an update has one.
pub proof fn lemma_pending_below_exact(state: AppView, monitor_count: int)
    requires
        0 <= monitor_count <= usize::MAX,
    ensures
        ({
            let due = state.pending_below(monitor_count);
            &&& due.len() <= monitor_count
            &&& forall|i: int|
                0 <= i < due.len() ==> {
                    let m = (#[trigger] due[i]).monitor_index as int;
                    &&& m < monitor_count
                    &&& state.needs_update(m)
                    &&& due[i] == state.update_for(m)
                }
            &&& forall|i: int, j: int|
                0 <= i < j < due.len() ==> (#[trigger] due[i]).monitor_index
                    < (#[trigger] due[j]).monitor_index
            &&& forall|m: int|
                0 <= m < monitor_count && state.needs_update(m) ==> due.contains(
                    #[trigger] state.update_for(m),
                )
        }),
    decreases monitor_count,
{
    if monitor_count > 0 {
        let earlier = state.pending_below(monitor_count - 1);
        let due = state.pending_below(monitor_count);
        lemma_pending_below_exact(state, monitor_count - 1);
        lemma_pending_below_step(state, monitor_count - 1);
        assert forall|m: int|
            0 <= m < monitor_count && state.needs_update(m) implies due.contains(
            #[trigger] state.update_for(m),
        ) by {
            if m < monitor_count - 1 {
                let i = choose|i: int| 0 <= i < earlier.len() && earlier[i] == state.update_for(m);
                assert(due[i] == state.update_for(m));
            } else {
                assert(due[due.len() - 1] == state.update_for(m));
            }
        }
    }
}

/// The updates that are due, spelled out: one for every monitor that does
/// not have the offset it should have, with that offset, none for any other
/// monitor, and no monitor named twice.
pub proof fn lemma_pending_updates_exact(state: AppView)
    requires
        state.monitors.len() <= usize::MAX,
    ensures
        ({
            let due = state.pending_updates();
            &&& due.len() <= state.monitors.len()
            &&& forall|i: int|
                0 <= i < due.len() ==> {
                    let m = (#[trigger] due[i]).monitor_index as int;
                    &&& m < state.monitors.len()
                    &&& state.needs_update(m)
                    &&& due[i] == state.update_for(m)
                }
            &&& forall|i: int, j: int|
                0 <= i < j < due.len() ==> (#[trigger] due[i]).monitor_index
                    < (#[trigger] due[j]).monitor_index
            &&& forall|m: int|
                0 <= m < state.monitors.len() && state.needs_update(m) ==> due.contains(
                    #[trigger] state.update_for(m),
                )
        }),
{
    lemma_pending_below_exact(state, state.monitors.len() as int);
}

/// Confirming what is due below `monitor_count` gives every monitor below
/// `monitor_count` the offset it should have as its last applied one, and
/// leaves the policies, the reports and the other monitors as they are.
proof fn lemma_confirmed_below(state: AppView, monitor_count: int)
    requires
        0 <= monitor_count <= state.monitors.len() <= usize::MAX,
    ensures
        ({
            let after = state.confirmed_all(state.pending_below(monitor_count));
            &&& after.policies == state.policies
            &&& after.offset_delay == state.offset_delay
            &&& after.monitors.len() == state.monitors.len()
            &&& forall|m: int|
                0 <= m < state.monitors.len() ==> {
                    &&& (#[trigger] after.monitors[m]).report == state.monitors[m].report
                    &&& after.monitors[m].last_applied == if m < monitor_count {
                        Some(state.desired(m))
                    } else {
                        state.monitors[m].last_applied
                    }
                }
        }),
    decreases monitor_count,
{
    if monitor_count > 0 {
        let earlier = state.pending_below(monitor_count - 1);
        lemma_confirmed_below(state, monitor_count - 1);
        lemma_pending_below_step(state, monitor_count - 1);
        if state.needs_update(monitor_count - 1) {
            let update = state.update_for(monitor_count - 1);
            assert(earlier.push(update).drop_last() =~= earlier);
        }
    }
}

/// Once every update that is due was confirmed, every monitor has the
/// offset it should have and nothing is due, until a notification reports
/// something else.
pub proof fn lemma_confirming_all_settles(state: AppView)
    requires
        state.monitors.len() <= usize::MAX,
    ensures
        ({
            let after = state.confirmed_all(state.pending_updates());
            &&& forall|m: int|
                0 <= m < state.monitors.len() ==> {
                    &&& #[trigger] after.desired(m) == state.desired(m)
                    &&& after.monitors[m].last_applied == Some(state.desired(m))
                }
            &&& after.pending_updates() == Seq::<OffsetUpdate>::empty()
        }),
{
    let after = state.confirmed_all(state.pending_updates());
    lemma_confirmed_below(state, state.monitors.len() as int);
    lemma_settled_below(after, after.monitors.len() as int);
}

/// The state of the application: the policy of every workspace, fixed at
/// start, the live state, a count of confirmed offset updates and the retile
/// delay. Policies and live state always speak of the same monitors and
/// workspaces.
#[derive(Debug, PartialEq, Eq)]
pub struct AppState {
    policies: PolicyTable,
    live: LiveState,
    offset_changes: usize,
    offset_delay: usize,
}

impl View for AppState {
    type V = AppView;

    closed spec fn view(&self) -> AppView {
        AppView {
            policies: self.policies@,
            monitors: self.live@,
            offset_changes: self.offset_changes,
            offset_delay: self.offset_delay,
        }
    }
}

/// Whether `last_applied` differs from `desired`, so that `desired` must be
/// sent.
pub fn should_update(last_applied: Option<Offset>, desired: Offset) -> (send: bool)
    ensures
        send == differs(last_applied, desired),
{
    match last_applied {
        Some(current) => current != desired,
        None => true,
    }
}

impl AppState {
    #[verifier::type_invariant]
    spec fn inv(&self) -> bool {
        self@.well_formed()
    }

    /// A state without monitors, without confirmed updates, and with
    /// retiling disabled.
    pub fn new() -> (state: AppState)
        ensures
            state@ == (AppView {
                policies: Seq::empty(),
                monitors: Seq::empty(),
                offset_changes: 0,
                offset_delay: 0,
            }),
    {
        let state = AppState {
            policies: PolicyTable { rows: Vec::new() },
            live: LiveState::new(),
            offset_changes: 0,
            offset_delay: 0,
        };
        assert(state.policies@ =~= Seq::<Seq<Policy>>::empty());
        state
    }

    /// The policies of all workspaces.
    pub fn policies(&self) -> (policies: &PolicyTable)
        ensures
            policies@ == self@.policies,
            self@.well_formed(),
    {
        proof {
            use_type_invariant(self);
        }
        &self.policies
    }

    /// The live state.
    pub fn live(&self) -> (live: &LiveState)
        ensures
            live@ == self@.monitors,
            self@.well_formed(),
    {
        proof {
            use_type_invariant(self);
        }
        &self.live
    }

    /// How many offset updates were confirmed.
    pub fn offset_changes(&self) -> (count: usize)
        ensures
            count == self@.offset_changes,
    {
        self.offset_changes
    }

    /// The retile delay in milliseconds; zero means that retiling is
    /// disabled.
    pub fn offset_delay(&self) -> (delay: usize)
        ensures
            delay == self@.offset_delay,
    {
        self.offset_delay
    }

    /// Takes a notification's snapshot over into the live state. Policies,
    /// last-applied offsets and the counters stay as they are.
    ///
    /// A snapshot that speaks of other monitors or workspaces than the state
    /// was built for is rejected, and so is one in which some monitor's
    /// focused workspace is not one of its workspaces; the state then stays
    /// as it is.
    pub fn apply_event(&mut self, snapshot: &StateSnapshot) -> (result: Result<(), Error>)
        ensures
            match result {
                Ok(()) => {
                    &&& same_topology(old(self)@.monitors, snapshot@)
                    &&& well_formed(snapshot@)
                    &&& final(self)@ == old(self)@.notified(snapshot@)
                },
                Err(error) => {
                    &&& final(self)@ == old(self)@
                    &&& is_misfit(old(self)@.monitors, snapshot@, error)
                },
            },
    {
        proof {
            use_type_invariant(&*self);
        }
        // The state is taken apart so that the live state can change on its
        // own, and put together again before anyone sees it.
        let mut taken = AppState::new();
        std::mem::swap(&mut taken, self);
        let AppState { policies, mut live, offset_changes, offset_delay } = taken;
        let result = live.apply_event(snapshot);
        *self = AppState { policies, live, offset_changes, offset_delay };
        result
    }

    /// The offset that a monitor should have, if the state has that monitor.
    pub fn desired_offset(&self, monitor_index: usize) -> (offset: Option<Offset>)
        ensures
            offset == if monitor_index < self@.monitors.len() {
                Some(self@.desired(monitor_index as int))
            } else {
                None
            },
    {
        proof {
            use_type_invariant(self);
        }
        match self.live.monitor(monitor_index) {
            None => None,
            Some(monitor) => {
                let focused = monitor.focused_workspace;
                let workspace = monitor.workspaces[focused];
                let policy = &self.policies.rows[monitor_index][focused];
                Some(evaluate(policy, workspace.monocle_active, workspace.window_count))
            },
        }
    }

    /// The update that is due for a monitor: the offset it should have,
    /// unless that offset is the one last applied to it. Nothing is due for a
    /// monitor that the state does not have.
    pub fn pending_update(&self, monitor_index: usize) -> (update: Option<OffsetUpdate>)
        ensures
            update == if monitor_index < self@.monitors.len() && self@.needs_update(
                monitor_index as int,
            ) {
                Some(self@.update_for(monitor_index as int))
            } else {
                None
            },
    {
        match self.desired_offset(monitor_index) {
            None => None,
            Some(offset) => {
                let last_applied = match self.live.monitor(monitor_index) {
                    Some(monitor) => monitor.last_applied,
                    None => None,
                };
                if should_update(last_applied, offset) {
                    Some(OffsetUpdate { monitor_index, offset })
                } else {
                    None
                }
            },
        }
    }

    /// The updates that are due: one for every monitor that does not have
    /// the offset it should have, in the order of the monitors.
    pub fn plan_updates(&self) -> (updates: Vec<OffsetUpdate>)
        ensures
            updates@ == self@.pending_updates(),
    {
        let mut updates: Vec<OffsetUpdate> = Vec::new();
        let count = self.live.monitor_count();
        let mut m: usize = 0;
        while m < count
            invariant
                m <= count,
                count == self@.monitors.len(),
                updates@ == self@.pending_below(m as int),
            decreases count - m,
        {
            proof {
                lemma_pending_below_step(self@, m as int);
            }
            if let Some(update) = self.pending_update(m) {
                updates.push(update);
            }
            m += 1;
        }
        updates
    }

    /// Records that `update` reached the window manager: its offset becomes
    /// the last applied one of its monitor, and the count of offset changes
    /// goes up by one unless it is at `usize::MAX` already.
    ///
    /// The result says whether the retile scheduler is to be signalled, which
    /// is the case when the retile delay is not zero. An update for a monitor
    /// that the state does not have is rejected and changes nothing.
    pub fn confirm_update(&mut self, update: OffsetUpdate) -> (result: Result<bool, Error>)
        ensures
            match result {
                Ok(signal) => {
                    &&& update.monitor_index < old(self)@.monitors.len()
                    &&& final(self)@ == old(self)@.confirmed(update)
                    &&& signal == (old(self)@.offset_delay > 0)
                },
                Err(error) => {
                    &&& update.monitor_index >= old(self)@.monitors.len()
                    &&& final(self)@ == old(self)@
                    &&& error == (Error::UnknownMonitor { monitor_index: update.monitor_index })
                },
            },
    {
        proof {
            use_type_invariant(&*self);
        }
        // Taken apart and put together again, as in `apply_event`.
        let mut taken = AppState::new();
        std::mem::swap(&mut taken, self);
        let AppState { policies, mut live, offset_changes, offset_delay } = taken;
        match live.record_applied(update.monitor_index, update.offset) {
            Err(error) => {
                *self = AppState { policies, live, offset_changes, offset_delay };
                Err(error)
            },
            Ok(()) => {
                let offset_changes = if offset_changes < usize::MAX {
                    offset_changes + 1
                } else {
                    offset_changes
                };
                *self = AppState { policies, live, offset_changes, offset_delay };
                Ok(offset_delay > 0)
            },
        }
    }
}

/// Builds the application state at start from the configuration and the
/// first snapshot: the policy of every workspace that the snapshot reports,
/// the live state as reported with no offset applied yet, no confirmed
/// updates, and the configured retile delay, zero where none is configured.
///
/// The configuration must have an entry for every monitor, and where a
/// monitor lists workspaces it must list every one that the monitor has; the
/// first monitor for which this fails decides the error. Then, in every
/// monitor the focused workspace must be one of its workspaces; the first
/// monitor for which it is not is named.
pub fn initialize_app_state(config: &Config, snapshot: &StateSnapshot) -> (result: Result<
    AppState,
    Error,
>)
    ensures
        match result {
            Ok(state) => {
                &&& config.covers(topology(snapshot@))
                &&& well_formed(snapshot@)
                &&& state@ == (AppView {
                    policies: config.table_for(topology(snapshot@)),
                    monitors: fresh(snapshot@),
                    offset_changes: 0,
                    offset_delay: match config.offset_delay {
                        Some(delay) => delay,
                        None => 0,
                    },
                })
            },
            Err(error) => if config.covers(topology(snapshot@)) {
                is_focus_fault(snapshot@, error)
            } else {
                config.is_fault(topology(snapshot@), error)
            },
        },
{
    let workspace_counts = snapshot.workspace_counts();
    let policies = match resolve_config(config, &workspace_counts) {
        Ok(table) => table,
        Err(error) => {
            return Err(error);
        },
    };
    let live = match LiveState::apply_snapshot(snapshot) {
        Ok(live) => live,
        Err(error) => {
            return Err(error);
        },
    };
    let offset_delay = match config.offset_delay {
        Some(delay) => delay,
        None => 0,
    };
    Ok(AppState { policies, live, offset_changes: 0, offset_delay })
}

/// Handles one notification: takes its snapshot over into the live state and
/// answers with the offset updates that are then due, in the order of the
/// monitors. Each update is to be sent to the window manager and, once it is
/// known to have arrived, confirmed with [`AppState::confirm_update`].
///
/// A snapshot that does not fit the state is rejected as
/// [`AppState::apply_event`] says, and the state stays as it is.
pub fn handle_state(snapshot: &StateSnapshot, app_state: &mut AppState) -> (result: Result<
    Vec<OffsetUpdate>,
    Error,
>)
    ensures
        match result {
            Ok(updates) => {
                &&& same_topology(old(app_state)@.monitors, snapshot@)
                &&& well_formed(snapshot@)
                &&& final(app_state)@ == old(app_state)@.notified(snapshot@)
                &&& updates@ == final(app_state)@.pending_updates()
            },
            Err(error) => {
                &&& final(app_state)@ == old(app_state)@
                &&& is_misfit(old(app_state)@.monitors, snapshot@, error)
            },
        },
{
    match app_state.apply_event(snapshot) {
        Err(error) => Err(error),
        Ok(()) => Ok(app_state.plan_updates()),
    }
}

} // verus!
