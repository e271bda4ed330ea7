//! Resolved per-workspace policies and the rule evaluation that turns a policy,
//! a window count and the monocle status into the offset a monitor should have.

use vstd::prelude::*;
use crate::offset::Offset;

verus! {

/// A window-count threshold with the offset that applies up to it.
#[derive(Clone, Copy, Debug, PartialEq, Eq, Hash, Structural)]
pub struct Rule {
    /// The largest window count to which this rule applies.
    pub count: usize,
    /// The offset used while the rule applies.
    pub padding: Offset,
}

/// The policy of one workspace after the configuration levels were merged.
#[derive(Clone, Debug, PartialEq, Eq)]
pub struct ResolvedPolicy {
    /// Rules in configured order; they are never sorted.
    pub rules: Vec<Rule>,
    /// The offset used when no rule applies.
    pub default: Offset,
    /// The offset used while a monocle container is active, if any.
    pub monocle: Option<Offset>,
}

/// The mathematical content of a [`ResolvedPolicy`].
pub struct Policy {
    pub rules: Seq<Rule>,
    pub default: Offset,
    pub monocle: Option<Offset>,
}

impl View for ResolvedPolicy {
    type V = Policy;

    open spec fn view(&self) -> Policy {
        Policy { rules: self.rules@, default: self.default, monocle: self.monocle }
    }
}

/// The policies of all workspaces, by monitor index and workspace index.
#[derive(Clone, Debug, PartialEq, Eq)]
pub struct PolicyTable {
    /// One row per monitor, one policy per workspace of that monitor.
    pub rows: Vec<Vec<ResolvedPolicy>>,
}

impl View for PolicyTable {
    type V = Seq<Seq<Policy>>;

    open spec fn view(&self) -> Seq<Seq<Policy>> {
        Seq::new(
            self.rows@.len(),
            |m: int| Seq::new(self.rows@[m]@.len(), |w: int| self.rows@[m]@[w]@),
        )
    }
}

impl PolicyTable {
    /// The policy of a workspace, if the table has that monitor and workspace.
    pub fn get(&self, monitor_index: usize, workspace_index: usize) -> (policy: Option<
        &ResolvedPolicy,
    >)
        ensures
            match policy {
                Some(found) => {
                    &&& monitor_index < self@.len()
                    &&& workspace_index < self@[monitor_index as int].len()
                    &&& found@ == self@[monitor_index as int][workspace_index as int]
                },
                None => !(monitor_index < self@.len() && workspace_index
                    < self@[monitor_index as int].len()),
            },
    {
        if monitor_index < self.rows.len() {
            let row = &self.rows[monitor_index];
            if workspace_index < row.len() {
                return Some(&row[workspace_index]);
            }
        }
        None
    }
}

/// Rule `i` applies to `window_count` and no earlier rule does.
pub open spec fn is_first_match(rules: Seq<Rule>, window_count: int, i: int) -> bool {
    &&& 0 <= i < rules.len()
    &&& window_count <= rules[i].count
    &&& forall|j: int| 0 <= j < i ==> (#[trigger] rules[j]).count < window_count
}

/// Some rule applies to `window_count`.
pub open spec fn has_match(rules: Seq<Rule>, window_count: int) -> bool {
    exists|i: int| 0 <= i < rules.len() && window_count <= (#[trigger] rules[i]).count
}

/// The offset a monitor should have when its focused workspace has the given
/// policy, monocle status and window count:
/// the monocle offset if the policy has one and a monocle container is active;
/// otherwise the offset of the first rule, in configured order, whose
/// threshold is at least the window count; otherwise the default offset.
pub open spec fn desired_offset(policy: Policy, monocle_active: bool, window_count: int) -> Offset {
    if monocle_active && policy.monocle is Some {
        policy.monocle->0
    } else if has_match(policy.rules, window_count) {
        policy.rules[choose|i: int| is_first_match(policy.rules, window_count, i)].padding
    } else {
        policy.default
    }
}

/// At most one rule is the first to apply.
pub proof fn lemma_first_match_unique(rules: Seq<Rule>, window_count: int, i: int, j: int)
    requires
        is_first_match(rules, window_count, i),
        is_first_match(rules, window_count, j),
    ensures
        i == j,
{
}

/// Without an active monocle offset, the first rule that applies decides.
pub proof fn lemma_first_match_decides(
    policy: Policy,
    monocle_active: bool,
    window_count: int,
    i: int,
)
    requires
        !(monocle_active && policy.monocle is Some),
        is_first_match(policy.rules, window_count, i),
    ensures
        desired_offset(policy, monocle_active, window_count) == policy.rules[i].padding,
{
    let c = choose|k: int| is_first_match(policy.rules, window_count, k);
    lemma_first_match_unique(policy.rules, window_count, i, c);
}

/// Without an active monocle offset and without a rule that applies, the
/// default offset is used.
pub proof fn lemma_no_match_gives_default(policy: Policy, monocle_active: bool, window_count: int)
    requires
        !(monocle_active && policy.monocle is Some),
        forall|j: int|
            0 <= j < policy.rules.len() ==> (#[trigger] policy.rules[j]).count < window_count,
    ensures
        desired_offset(policy, monocle_active, window_count) == policy.default,
{
}

/// An active monocle container selects the policy's monocle offset whatever
/// the window count and the rules are.
pub proof fn lemma_monocle_short_circuit(policy: Policy, window_count: int)
    requires
        policy.monocle is Some,
    ensures
        desired_offset(policy, true, window_count) == policy.monocle->0,
{
}

/// The desired offset depends on nothing but the policy's content, the
/// monocle status and the window count.
pub proof fn lemma_evaluate_deterministic(
    first: ResolvedPolicy,
    second: ResolvedPolicy,
    monocle_active: bool,
    window_count: int,
)
    requires
        first.rules@ == second.rules@,
        first.default == second.default,
        first.monocle == second.monocle,
    ensures
        desired_offset(first@, monocle_active, window_count) == desired_offset(
            second@,
            monocle_active,
            window_count,
        ),
{
}

/// Computes the offset a monitor should have from its focused workspace's
/// policy, monocle status and window count.
pub fn evaluate(policy: &ResolvedPolicy, monocle_active: bool, window_count: usize) -> (offset:
    Offset)
    ensures
        offset == desired_offset(policy@, monocle_active, window_count as int),
        monocle_active && policy.monocle is Some ==> offset == policy.monocle->0,
        !(monocle_active && policy.monocle is Some) ==> forall|i: int|
            #[trigger] is_first_match(policy.rules@, window_count as int, i) ==> offset
                == policy.rules@[i].padding,
        !(monocle_active && policy.monocle is Some) && !has_match(
            policy.rules@,
            window_count as int,
        ) ==> offset == policy.default,
{
    proof {
        if !(monocle_active && policy.monocle is Some) {
            assert forall|i: int| #[trigger]
                is_first_match(policy.rules@, window_count as int, i) implies desired_offset(
                policy@,
                monocle_active,
                window_count as int,
            ) == policy.rules@[i].padding by {
                lemma_first_match_decides(policy@, monocle_active, window_count as int, i);
            }
        }
    }
    if monocle_active {
        if let Some(monocle) = policy.monocle {
            return monocle;
        }
    }
    let mut i: usize = 0;
    while i < policy.rules.len()
        invariant
            i <= policy.rules.len(),
            !(monocle_active && policy.monocle is Some),
            forall|j: int| 0 <= j < i ==> (#[trigger] policy.rules@[j]).count < window_count,
        decreases policy.rules.len() - i,
    {
        if window_count <= policy.rules[i].count {
            proof {
                lemma_first_match_decides(policy@, monocle_active, window_count as int, i as int);
            }
            return policy.rules[i].padding;
        }
        i += 1;
    }
    proof {
        lemma_no_match_gives_default(policy@, monocle_active, window_count as int);
    }
    policy.default
}

} // verus!
