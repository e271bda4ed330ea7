//! The cascading configuration and its resolution into per-workspace policies.
//!
//! A value may be given at three levels: for everything (global), for one
//! monitor, or for one workspace of a monitor. The most specific level that
//! gives a value decides, and a list of rules is taken whole from that level.

use vstd::prelude::*;
use crate::error::Error;
use crate::offset::Offset;
use crate::policy::{Policy, PolicyTable, ResolvedPolicy, Rule};

verus! {

/// What the configuration says about one workspace of a monitor.
#[derive(Clone, Debug, PartialEq, Eq)]
pub struct Workspace {
    pub rules: Option<Vec<Rule>>,
    pub default: Option<Offset>,
    pub monocle: Option<Offset>,
}

/// What the configuration says about one monitor.
#[derive(Clone, Debug, PartialEq, Eq)]
pub struct Monitor {
    /// Per-workspace overrides, by workspace index.
    pub workspaces: Option<Vec<Workspace>>,
    pub rules: Option<Vec<Rule>>,
    pub default: Option<Offset>,
    pub monocle: Option<Offset>,
}

/// The whole configuration: the global level and the monitors by index.
#[derive(Clone, Debug, PartialEq, Eq)]
pub struct Config {
    pub monitors: Vec<Monitor>,
    pub rules: Option<Vec<Rule>>,
    /// The global default offset, the only value that must be given.
    pub default: Offset,
    pub monocle: Option<Offset>,
    /// Quiet time in milliseconds before a retile; absent or zero disables it.
    pub offset_delay: Option<usize>,
}

/// The values that one level of the configuration gives.
pub struct CascadeLevel {
    pub rules: Option<Seq<Rule>>,
    pub default: Option<Offset>,
    pub monocle: Option<Offset>,
}

impl CascadeLevel {
    /// A level that gives no value.
    pub open spec fn absent() -> CascadeLevel {
        CascadeLevel { rules: None, default: None, monocle: None }
    }
}

/// The content of an optional rule list.
pub open spec fn rules_of(rules: Option<Vec<Rule>>) -> Option<Seq<Rule>> {
    match rules {
        Some(list) => Some(list@),
        None => None,
    }
}

impl Workspace {
    pub open spec fn level(&self) -> CascadeLevel {
        CascadeLevel {
            rules: rules_of(self.rules),
            default: self.default,
            monocle: self.monocle,
        }
    }
}

impl Monitor {
    pub open spec fn level(&self) -> CascadeLevel {
        CascadeLevel {
            rules: rules_of(self.rules),
            default: self.default,
            monocle: self.monocle,
        }
    }

    /// The level of workspace `workspace_index`: its entry where the monitor
    /// lists one, and a level without values otherwise.
    pub open spec fn workspace_level(&self, workspace_index: int) -> CascadeLevel {
        match self.workspaces {
            Some(list) => if 0 <= workspace_index < list.len() {
                list[workspace_index].level()
            } else {
                CascadeLevel::absent()
            },
            None => CascadeLevel::absent(),
        }
    }

    /// The monitor lists workspaces, but not `workspace_count` of them.
    pub open spec fn lacks_workspaces(&self, workspace_count: int) -> bool {
        self.workspaces is Some && self.workspaces->0.len() < workspace_count
    }
}

impl Config {
    /// The global level; it always gives a default offset.
    pub open spec fn level(&self) -> CascadeLevel {
        CascadeLevel {
            rules: rules_of(self.rules),
            default: Some(self.default),
            monocle: self.monocle,
        }
    }

    /// The policy of workspace `workspace_index` on monitor `monitor_index`.
    pub open spec fn policy_for(&self, monitor_index: int, workspace_index: int) -> Policy {
        resolve(
            self.monitors[monitor_index].workspace_level(workspace_index),
            self.monitors[monitor_index].level(),
            self.level(),
        )
    }

    /// The policies of every workspace of a topology, given as the number of
    /// workspaces of each monitor.
    pub open spec fn table_for(&self, workspace_counts: Seq<usize>) -> Seq<Seq<Policy>> {
        Seq::new(
            workspace_counts.len(),
            |m: int| Seq::new(workspace_counts[m] as nat, |w: int| self.policy_for(m, w)),
        )
    }

    /// What is wrong with the configuration at monitor `monitor_index` when
    /// that monitor has `workspace_count` workspaces, if anything.
    pub open spec fn fault_at(&self, monitor_index: int, workspace_count: int) -> Option<Error> {
        if monitor_index >= self.monitors.len() {
            Some(Error::MissingMonitor { monitor_index: monitor_index as usize })
        } else if self.monitors[monitor_index].lacks_workspaces(workspace_count) {
            Some(
                Error::MissingWorkspace {
                    monitor_index: monitor_index as usize,
                    workspace_index: self.monitors[monitor_index].workspaces->0.len(),
                },
            )
        } else {
            None
        }
    }

    /// The configuration has an entry for every monitor and workspace of a
    /// topology, given as the number of workspaces of each monitor.
    pub open spec fn covers(&self, workspace_counts: Seq<usize>) -> bool {
        forall|m: int|
            0 <= m < workspace_counts.len() ==> (#[trigger] self.fault_at(
                m,
                workspace_counts[m] as int,
            )) is None
    }

    /// `error` is what is wrong at monitor `monitor_index`, and nothing is
    /// wrong at any monitor before it.
    pub open spec fn first_fault_is(
        &self,
        workspace_counts: Seq<usize>,
        monitor_index: int,
        error: Error,
    ) -> bool {
        &&& 0 <= monitor_index < workspace_counts.len()
        &&& self.fault_at(monitor_index, workspace_counts[monitor_index] as int) == Some(error)
        &&& forall|m: int|
            0 <= m < monitor_index ==> (#[trigger] self.fault_at(m, workspace_counts[m] as int))
                is None
    }

    /// `error` is what is wrong at the first monitor, in index order, at
    /// which something is wrong.
    pub open spec fn is_fault(&self, workspace_counts: Seq<usize>, error: Error) -> bool {
        exists|m: int| self.first_fault_is(workspace_counts, m, error)
    }
}

/// The value given at the most specific level that gives one.
pub open spec fn most_specific<T>(workspace: Option<T>, monitor: Option<T>, global: Option<T>)
    -> Option<T> {
    if workspace is Some {
        workspace
    } else if monitor is Some {
        monitor
    } else {
        global
    }
}

/// The policy that three levels resolve to. Each field is decided on its own.
/// Rules given at no level resolve to no rules. The default offset is
/// meaningful when some level gives one, as the global level always does.
pub open spec fn resolve(workspace: CascadeLevel, monitor: CascadeLevel, global: CascadeLevel)
    -> Policy {
    Policy {
        rules: match most_specific(workspace.rules, monitor.rules, global.rules) {
            Some(rules) => rules,
            None => Seq::empty(),
        },
        default: most_specific(workspace.default, monitor.default, global.default)->0,
        monocle: most_specific(workspace.monocle, monitor.monocle, global.monocle),
    }
}

/// For every field and every combination of presence at the three levels, the
/// most specific level that gives a value decides: the workspace's value if
/// it gives one, else the monitor's, else the global one. Rules are taken
/// whole from the deciding level.
pub proof fn lemma_most_specific_wins(
    workspace: CascadeLevel,
    monitor: CascadeLevel,
    global: CascadeLevel,
)
    requires
        global.default is Some,
    ensures
        ({
            let policy = resolve(workspace, monitor, global);
            &&& workspace.default is Some ==> policy.default == workspace.default->0
            &&& workspace.default is None && monitor.default is Some ==> policy.default
                == monitor.default->0
            &&& workspace.default is None && monitor.default is None ==> policy.default
                == global.default->0
            &&& workspace.monocle is Some ==> policy.monocle == workspace.monocle
            &&& workspace.monocle is None && monitor.monocle is Some ==> policy.monocle
                == monitor.monocle
            &&& workspace.monocle is None && monitor.monocle is None ==> policy.monocle
                == global.monocle
            &&& workspace.rules is Some ==> policy.rules == workspace.rules->0
            &&& workspace.rules is None && monitor.rules is Some ==> policy.rules
                == monitor.rules->0
            &&& workspace.rules is None && monitor.rules is None && global.rules is Some
                ==> policy.rules == global.rules->0
            &&& workspace.rules is None && monitor.rules is None && global.rules is None
                ==> policy.rules == Seq::<Rule>::empty()
        }),
{
}

/// Looks a value up through the three levels, most specific first.
pub fn lookup<T>(workspace: Option<T>, monitor: Option<T>, global: Option<T>) -> (found: Option<T>)
    ensures
        found == most_specific(workspace, monitor, global),
{
    match workspace {
        Some(value) => Some(value),
        None => match monitor {
            Some(value) => Some(value),
            None => global,
        },
    }
}

/// The level of an optional workspace entry.
pub open spec fn level_of(workspace: Option<&Workspace>) -> CascadeLevel {
    match workspace {
        Some(entry) => entry.level(),
        None => CascadeLevel::absent(),
    }
}

fn copy_rules(rules: &Vec<Rule>) -> (copy: Vec<Rule>)
    ensures
        copy@ == rules@,
{
    let mut copy: Vec<Rule> = Vec::new();
    let mut i: usize = 0;
    while i < rules.len()
        invariant
            i <= rules.len(),
            copy@ == rules@.take(i as int),
        decreases rules.len() - i,
    {
        copy.push(rules[i]);
        i += 1;
    }
    copy
}

/// Merges the global level, a monitor's level and, where the monitor has an
/// entry for it, a workspace's level into the workspace's policy.
pub fn resolve_policy(workspace: Option<&Workspace>, monitor: &Monitor, config: &Config) -> (policy:
    ResolvedPolicy)
    ensures
        policy@ == resolve(level_of(workspace), monitor.level(), config.level()),
{
    let (workspace_rules, workspace_default, workspace_monocle) = match workspace {
        Some(entry) => (entry.rules.as_ref(), entry.default, entry.monocle),
        None => (None, None, None),
    };
    let rules = match lookup(workspace_rules, monitor.rules.as_ref(), config.rules.as_ref()) {
        Some(list) => copy_rules(list),
        None => Vec::new(),
    };
    let default = lookup(workspace_default, monitor.default, Some(config.default)).unwrap();
    let monocle = lookup(workspace_monocle, monitor.monocle, config.monocle);
    ResolvedPolicy { rules, default, monocle }
}

/// The entry of workspace `workspace_index` where the monitor lists one.
fn workspace_entry(monitor: &Monitor, workspace_index: usize) -> (entry: Option<&Workspace>)
    ensures
        level_of(entry) == monitor.workspace_level(workspace_index as int),
{
    match &monitor.workspaces {
        Some(list) => if workspace_index < list.len() {
            Some(&list[workspace_index])
        } else {
            None
        },
        None => None,
    }
}

/// Resolves the policies of the first `workspace_count` workspaces of monitor
/// `monitor_index`.
fn resolve_row(config: &Config, monitor_index: usize, workspace_count: usize) -> (row: Vec<
    ResolvedPolicy,
>)
    requires
        monitor_index < config.monitors.len(),
    ensures
        row@.len() == workspace_count,
        forall|w: int|
            0 <= w < workspace_count ==> (#[trigger] row@[w])@ == config.policy_for(
                monitor_index as int,
                w,
            ),
{
    let monitor = &config.monitors[monitor_index];
    let mut row: Vec<ResolvedPolicy> = Vec::new();
    let mut w: usize = 0;
    while w < workspace_count
        invariant
            w <= workspace_count,
            monitor_index < config.monitors.len(),
            *monitor == config.monitors[monitor_index as int],
            row@.len() == w,
            forall|k: int|
                0 <= k < w ==> (#[trigger] row@[k])@ == config.policy_for(monitor_index as int, k),
        decreases workspace_count - w,
    {
        let policy = resolve_policy(workspace_entry(monitor, w), monitor, config);
        row.push(policy);
        w += 1;
    }
    row
}

/// Resolves the configuration for a topology, given as the number of
/// workspaces of each monitor, into the table of per-workspace policies.
///
/// The configuration must have an entry for every monitor, and where a
/// monitor lists workspaces it must list every one that the monitor has. The
/// first monitor, in index order, for which this fails decides the error.
pub fn resolve_config(config: &Config, workspace_counts: &Vec<usize>) -> (result: Result<
    PolicyTable,
    Error,
>)
    ensures
        match result {
            Ok(table) => {
                &&& config.covers(workspace_counts@)
                &&& table@ == config.table_for(workspace_counts@)
            },
            Err(error) => config.is_fault(workspace_counts@, error),
        },
{
    let mut rows: Vec<Vec<ResolvedPolicy>> = Vec::new();
    let mut m: usize = 0;
    while m < workspace_counts.len()
        invariant
            m <= workspace_counts.len(),
            rows@.len() == m,
            forall|k: int|
                0 <= k < m ==> (#[trigger] config.fault_at(k, workspace_counts@[k] as int))
                    is None,
            forall|k: int| 0 <= k < m ==> (#[trigger] rows@[k])@.len() == workspace_counts@[k],
            forall|k: int, w: int|
                0 <= k < m && 0 <= w < workspace_counts@[k] ==> (#[trigger] rows@[k]@[w])@
                    == config.policy_for(k, w),
        decreases workspace_counts.len() - m,
    {
        let workspace_count = workspace_counts[m];
        if m >= config.monitors.len() {
            let error = Error::MissingMonitor { monitor_index: m };
            assert(config.first_fault_is(workspace_counts@, m as int, error));
            return Err(error);
        }
        if let Some(list) = &config.monitors[m].workspaces {
            if list.len() < workspace_count {
                let error = Error::MissingWorkspace {
                    monitor_index: m,
                    workspace_index: list.len(),
                };
                assert(config.first_fault_is(workspace_counts@, m as int, error));
                return Err(error);
            }
        }
        let row = resolve_row(config, m, workspace_count);
        rows.push(row);
        m += 1;
    }
    let table = PolicyTable { rows };
    assert(table@ =~~= config.table_for(workspace_counts@));
    Ok(table)
}

} // verus!
