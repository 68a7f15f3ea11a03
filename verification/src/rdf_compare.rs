//! Lookups over the id shadow of a merged policy that name the rule node
//! an engine report is about: consequence chains, duty attachment points,
//! and whether a duty is terminal or a plain policy-level obligation.

use vstd::prelude::*;
use vstd::string::*;
use crate::text::str_eq;
use crate::rdf_ids::{RuleIds, RuleIdsV, PolicyIds, rids_view};
use crate::rdf_expected::{ExpectedRuleKind, ExpectedRuleReport, ExpectedPolicyReport, sview};
use crate::wire::{DutyMode, Behaviour};

verus! {

/// The node `depth` consequence hops below `root`, if the chain is that
/// long.
pub open spec fn walk_of(root: RuleIdsV, depth: nat) -> Option<RuleIdsV>
    decreases depth,
{
    if depth == 0 {
        Some(root)
    } else {
        match root.consequence {
            Some(b) => walk_of(*b, (depth - 1) as nat),
            None => None,
        }
    }
}

/// The first node of `root`'s consequence chain (itself first) with id
/// `id`.
pub open spec fn chain_find(root: RuleIdsV, id: Seq<char>) -> Option<RuleIdsV>
    decreases root,
{
    if root.rule_id == id {
        Some(root)
    } else {
        match root.consequence {
            Some(b) => chain_find(*b, id),
            None => None,
        }
    }
}

/// The first match of `id` in the chains of `rs`, in order.
pub open spec fn chains_find(rs: Seq<RuleIdsV>, id: Seq<char>) -> Option<RuleIdsV>
    decreases rs.len(),
{
    if rs.len() == 0 {
        None
    } else {
        match chains_find(rs.drop_last(), id) {
            Some(r) => Some(r),
            None => chain_find(rs.last(), id),
        }
    }
}

/// The duties of each permission (or remedies of each prohibition), in
/// order.
pub open spec fn attached(rs: Seq<RuleIdsV>, remedies: bool) -> Seq<RuleIdsV>
    decreases rs.len(),
{
    if rs.len() == 0 {
        Seq::empty()
    } else {
        attached(rs.drop_last(), remedies) + if remedies { rs.last().remedy } else { rs.last().duty }
    }
}

/// Where `id` sits among the duty attachment points of a merged policy:
/// its obligations first, then every permission's duties, then every
/// prohibition's remedies, each through its consequence chain.
pub open spec fn find_of(p: PolicyIds, id: Seq<char>) -> Option<RuleIdsV> {
    match chains_find(rids_view(p.obligations@), id) {
        Some(r) => Some(r),
        None => match chains_find(attached(rids_view(p.permissions@), false), id) {
            Some(r) => Some(r),
            None => chains_find(attached(rids_view(p.prohibitions@), true), id),
        },
    }
}

/// The node `depth` consequence hops below `root`.
pub fn walk_consequence(root: &RuleIds, depth: usize) -> (r: Option<&RuleIds>)
    ensures
        match r {
            Some(x) => walk_of(root@, depth as nat) == Some(x@),
            None => walk_of(root@, depth as nat) is None,
        },
{
    let mut current = root;
    let mut i: usize = 0;
    while i < depth
        invariant
            i <= depth,
            walk_of(root@, depth as nat) == walk_of(current@, (depth - i) as nat),
        decreases depth - i,
    {
        match &current.consequence {
            Some(b) => {
                current = &**b;
            },
            None => return None,
        }
        i = i + 1;
    }
    Some(current)
}

/// Whether `rule_id` names one of the merged policy's own obligations
/// (not one of their consequence hops).
pub fn is_plain_policy_obligation(merged: &PolicyIds, rule_id: &str) -> (r: bool)
    ensures
        r == exists|i: int| 0 <= i < merged.obligations@.len() && (#[trigger] merged.obligations@[i]).rule_id@ == rule_id@,
{
    let mut i: usize = 0;
    while i < merged.obligations.len()
        invariant
            i <= merged.obligations@.len(),
            forall|j: int| 0 <= j < i ==> (#[trigger] merged.obligations@[j]).rule_id@ != rule_id@,
        decreases merged.obligations.len() - i,
    {
        if str_eq(merged.obligations[i].rule_id.as_str(), rule_id) {
            return true;
        }
        i = i + 1;
    }
    false
}

/// Finds `rule_id` in one chain: `root` itself or one of its consequence
/// hops.
pub fn find_in_chain<'a>(root: &'a RuleIds, rule_id: &str) -> (r: Option<&'a RuleIds>)
    ensures
        match r {
            Some(x) => chain_find(root@, rule_id@) == Some(x@),
            None => chain_find(root@, rule_id@) is None,
        },
    decreases root,
{
    if str_eq(root.rule_id.as_str(), rule_id) {
        return Some(root);
    }
    match &root.consequence {
        Some(b) => {
            assert(decreases_to!(root => **b));
            find_in_chain(&**b, rule_id)
        },
        None => None,
    }
}

/// Finds `rule_id` in the chains of `rs`, in order.
fn find_in_chains<'a>(rs: &'a Vec<RuleIds>, rule_id: &str) -> (r: Option<&'a RuleIds>)
    ensures
        match r {
            Some(x) => chains_find(rids_view(rs@), rule_id@) == Some(x@),
            None => chains_find(rids_view(rs@), rule_id@) is None,
        },
{
    let ghost v = rids_view(rs@);
    let mut i: usize = 0;
    while i < rs.len()
        invariant
            i <= rs@.len(),
            v == rids_view(rs@),
            chains_find(v.subrange(0, i as int), rule_id@) is None,
        decreases rs.len() - i,
    {
        proof {
            assert(v.subrange(0, i + 1).drop_last() =~= v.subrange(0, i as int));
            assert(v.subrange(0, i + 1).last() == rs@[i as int]@);
        }
        match find_in_chain(&rs[i], rule_id) {
            Some(x) => {
                proof { lemma_chains_find_prefix(v, i as int + 1, rule_id@); }
                return Some(x);
            },
            None => {},
        }
        i = i + 1;
    }
    assert(v.subrange(0, v.len() as int) =~= v);
    None
}

pub proof fn lemma_chains_find_prefix(rs: Seq<RuleIdsV>, k: int, id: Seq<char>)
    requires
        0 <= k <= rs.len(),
        chains_find(rs.subrange(0, k), id) is Some,
    ensures
        chains_find(rs, id) == chains_find(rs.subrange(0, k), id),
    decreases rs.len(),
{
    if k < rs.len() {
        assert(rs.drop_last().subrange(0, k) =~= rs.subrange(0, k));
        lemma_chains_find_prefix(rs.drop_last(), k, id);
    } else {
        assert(rs.subrange(0, k) =~= rs);
    }
}

pub proof fn lemma_chains_find_concat(a: Seq<RuleIdsV>, b: Seq<RuleIdsV>, id: Seq<char>)
    ensures
        chains_find(a + b, id) == match chains_find(a, id) {
            Some(r) => Some(r),
            None => chains_find(b, id),
        },
    decreases b.len(),
{
    if b.len() == 0 {
        assert(a + b =~= a);
    } else {
        assert((a + b).drop_last() =~= a + b.drop_last());
        lemma_chains_find_concat(a, b.drop_last(), id);
    }
}

/// Finds `rule_id` in the duty/remedy lists of `rs`, in order.
fn find_in_attached<'a>(rs: &'a Vec<RuleIds>, remedies: bool, rule_id: &str) -> (r: Option<&'a RuleIds>)
    ensures
        match r {
            Some(x) => chains_find(attached(rids_view(rs@), remedies), rule_id@) == Some(x@),
            None => chains_find(attached(rids_view(rs@), remedies), rule_id@) is None,
        },
{
    let ghost v = rids_view(rs@);
    let mut i: usize = 0;
    while i < rs.len()
        invariant
            i <= rs@.len(),
            v == rids_view(rs@),
            chains_find(attached(v.subrange(0, i as int), remedies), rule_id@) is None,
        decreases rs.len() - i,
    {
        let list = if remedies { &rs[i].remedy } else { &rs[i].duty };
        proof {
            assert(v.subrange(0, i + 1).drop_last() =~= v.subrange(0, i as int));
            assert(v.subrange(0, i + 1).last() == rs@[i as int]@);
            assert(rids_view(list@) =~= if remedies { rs@[i as int]@.remedy } else { rs@[i as int]@.duty });
            lemma_chains_find_concat(attached(v.subrange(0, i as int), remedies), rids_view(list@), rule_id@);
        }
        match find_in_chains(list, rule_id) {
            Some(x) => {
                proof { lemma_attached_find_prefix(v, i as int + 1, remedies, rule_id@); }
                return Some(x);
            },
            None => {},
        }
        i = i + 1;
    }
    assert(v.subrange(0, v.len() as int) =~= v);
    None
}

pub proof fn lemma_attached_find_prefix(rs: Seq<RuleIdsV>, k: int, remedies: bool, id: Seq<char>)
    requires
        0 <= k <= rs.len(),
        chains_find(attached(rs.subrange(0, k), remedies), id) is Some,
    ensures
        chains_find(attached(rs, remedies), id) == chains_find(attached(rs.subrange(0, k), remedies), id),
    decreases rs.len(),
{
    if k < rs.len() {
        assert(rs.drop_last().subrange(0, k) =~= rs.subrange(0, k));
        lemma_attached_find_prefix(rs.drop_last(), k, remedies, id);
        lemma_chains_find_concat(attached(rs.drop_last(), remedies), if remedies { rs.last().remedy } else { rs.last().duty }, id);
    } else {
        assert(rs.subrange(0, k) =~= rs);
    }
}

/// Finds `rule_id` among the merged policy's duty attachment points:
/// obligations, then permission duties, then prohibition remedies.
pub fn find_rule_ids<'a>(merged: &'a PolicyIds, rule_id: &str) -> (r: Option<&'a RuleIds>)
    ensures
        match r {
            Some(x) => find_of(*merged, rule_id@) == Some(x@),
            None => find_of(*merged, rule_id@) is None,
        },
{
    match find_in_chains(&merged.obligations, rule_id) {
        Some(x) => return Some(x),
        None => {},
    }
    match find_in_attached(&merged.permissions, false, rule_id) {
        Some(x) => return Some(x),
        None => {},
    }
    find_in_attached(&merged.prohibitions, true, rule_id)
}

/// Whether `rule_id` ends its duty chain (has no consequence of its own);
/// an id found nowhere counts as terminal.
pub fn is_terminal(merged: &PolicyIds, rule_id: &str) -> (r: bool)
    ensures
        r == match find_of(*merged, rule_id@) {
            Some(x) => x.consequence is None,
            None => true,
        },
{
    match find_rule_ids(merged, rule_id) {
        Some(x) => x.consequence.is_none(),
        None => true,
    }
}


/// What one policy's expected report tree says about that policy's share
/// of the request's decision.
#[derive(Debug, Clone, Copy, PartialEq, Eq, Structural)]
pub enum PolicyVerdict {
    Allow,
    Deny,
    /// The expected tree leaves this policy's share open: no permission
    /// is `Active`, yet under `dutyMode=advise` a permission can be
    /// reported `Inactive` only because an advisory duty chain is still
    /// outstanding.
    Indeterminate,
}

/// Whether `id` ends its duty chain; an id found nowhere counts as
/// terminal.
pub open spec fn terminal_of(p: PolicyIds, id: Seq<char>) -> bool {
    match find_of(p, id) {
        Some(x) => x.consequence is None,
        None => true,
    }
}

/// A report of `kind` whose activation state is `Active`.
pub open spec fn active_report(r: ExpectedRuleReport, kind: ExpectedRuleKind) -> bool {
    r.kind == kind && sview(r.activation_state) == Some("Active"@)
}

/// An `Active`, `Unperformed`, terminal duty report whose rule sits in one
/// of the policy's own obligation chains.
pub open spec fn outstanding_obligation(p: PolicyIds, r: ExpectedRuleReport) -> bool {
    &&& r.kind == ExpectedRuleKind::Duty
    &&& sview(r.activation_state) == Some("Active"@)
    &&& sview(r.performance_state) == Some("Unperformed"@)
    &&& terminal_of(p, r.rule@)
    &&& chains_find(rids_view(p.obligations@), r.rule@) is Some
}

/// The verdict the expected tree states, in the decision's own
/// precedence: an active prohibition (or, under `dutyMode=deny`, an
/// outstanding obligation) denies; else an active permission allows; else
/// a policy without permissions follows `behaviour`; else `dutyMode=deny`
/// denies, and `advise` leaves it open.
pub open spec fn policy_verdict_of(p: PolicyIds, reps: Seq<ExpectedRuleReport>, duty_mode: DutyMode, behaviour: Behaviour) -> PolicyVerdict {
    let prohibited = exists|i: int| 0 <= i < reps.len() && #[trigger] active_report(reps[i], ExpectedRuleKind::Prohibition);
    let permitted = exists|i: int| 0 <= i < reps.len() && #[trigger] active_report(reps[i], ExpectedRuleKind::Permission);
    let owed = duty_mode == DutyMode::Deny && exists|i: int| 0 <= i < reps.len() && #[trigger] outstanding_obligation(p, reps[i]);
    if prohibited || owed {
        PolicyVerdict::Deny
    } else if permitted {
        PolicyVerdict::Allow
    } else if p.permissions@.len() == 0 {
        match behaviour {
            Behaviour::Open => PolicyVerdict::Allow,
            Behaviour::Closed => PolicyVerdict::Deny,
        }
    } else if duty_mode == DutyMode::Deny {
        PolicyVerdict::Deny
    } else {
        PolicyVerdict::Indeterminate
    }
}

/// An `Active` prohibition report denies the policy, whatever the other
/// reports, the duty mode and the behaviour.
pub proof fn an_active_prohibition_report_denies(
    p: PolicyIds,
    reps: Seq<ExpectedRuleReport>,
    duty_mode: DutyMode,
    behaviour: Behaviour,
    i: int,
)
    requires
        0 <= i < reps.len(),
        reps[i].kind == ExpectedRuleKind::Prohibition,
        sview(reps[i].activation_state) == Some("Active"@),
    ensures
        policy_verdict_of(p, reps, duty_mode, behaviour) == PolicyVerdict::Deny,
{
    assert(active_report(reps[i], ExpectedRuleKind::Prohibition));
}

/// An obligation makes a policy's verdict Deny only through a duty report
/// that is both `Active` and `Unperformed`: when no prohibition report is
/// `Active` and some permission report is, the verdict is Allow unless the
/// duty mode is `deny` and some duty report is `Active` and `Unperformed`.
/// A performed duty never denies.
pub proof fn only_an_active_unperformed_duty_denies_a_permitted_policy(
    p: PolicyIds,
    reps: Seq<ExpectedRuleReport>,
    duty_mode: DutyMode,
    behaviour: Behaviour,
)
    requires
        forall|i: int| 0 <= i < reps.len() && (#[trigger] reps[i]).kind == ExpectedRuleKind::Prohibition
            ==> sview(reps[i].activation_state) != Some("Active"@),
        exists|i: int| 0 <= i < reps.len() && (#[trigger] reps[i]).kind == ExpectedRuleKind::Permission
            && sview(reps[i].activation_state) == Some("Active"@),
    ensures
        policy_verdict_of(p, reps, duty_mode, behaviour) != PolicyVerdict::Indeterminate,
        policy_verdict_of(p, reps, duty_mode, behaviour) == PolicyVerdict::Deny ==> {
            &&& duty_mode == DutyMode::Deny
            &&& exists|i: int| 0 <= i < reps.len() && (#[trigger] reps[i]).kind == ExpectedRuleKind::Duty
                && sview(reps[i].activation_state) == Some("Active"@)
                && sview(reps[i].performance_state) == Some("Unperformed"@)
        },
        (forall|i: int| 0 <= i < reps.len() && (#[trigger] reps[i]).kind == ExpectedRuleKind::Duty
            && sview(reps[i].activation_state) == Some("Active"@)
            ==> sview(reps[i].performance_state) != Some("Unperformed"@))
            ==> policy_verdict_of(p, reps, duty_mode, behaviour) == PolicyVerdict::Allow,
{
    let w = choose|i: int| 0 <= i < reps.len() && (#[trigger] reps[i]).kind == ExpectedRuleKind::Permission
        && sview(reps[i].activation_state) == Some("Active"@);
    assert(active_report(reps[w], ExpectedRuleKind::Permission));
    assert forall|i: int| 0 <= i < reps.len() implies !#[trigger] active_report(reps[i], ExpectedRuleKind::Prohibition) by {
        if reps[i].kind == ExpectedRuleKind::Prohibition {
            assert(sview(reps[i].activation_state) != Some("Active"@));
        }
    }
    if duty_mode == DutyMode::Deny && exists|i: int| 0 <= i < reps.len() && #[trigger] outstanding_obligation(p, reps[i]) {
        let k = choose|i: int| 0 <= i < reps.len() && #[trigger] outstanding_obligation(p, reps[i]);
        assert(reps[k].kind == ExpectedRuleKind::Duty);
    }
}

fn is_state(o: &Option<String>, state: &str) -> (r: bool)
    ensures
        r == (sview(*o) == Some(state@)),
{
    match o {
        Some(s) => str_eq(s.as_str(), state),
        None => false,
    }
}

fn any_active(reps: &Vec<ExpectedRuleReport>, kind: ExpectedRuleKind) -> (r: bool)
    ensures
        r == exists|i: int| 0 <= i < reps@.len() && #[trigger] active_report(reps@[i], kind),
{
    let mut i: usize = 0;
    while i < reps.len()
        invariant
            i <= reps@.len(),
            forall|j: int| 0 <= j < i ==> !#[trigger] active_report(reps@[j], kind),
        decreases reps.len() - i,
    {
        if reps[i].kind == kind && is_state(&reps[i].activation_state, "Active") {
            assert(active_report(reps@[i as int], kind));
            return true;
        }
        i = i + 1;
    }
    false
}

fn any_outstanding(merged: &PolicyIds, reps: &Vec<ExpectedRuleReport>) -> (r: bool)
    ensures
        r == exists|i: int| 0 <= i < reps@.len() && #[trigger] outstanding_obligation(*merged, reps@[i]),
{
    let mut i: usize = 0;
    while i < reps.len()
        invariant
            i <= reps@.len(),
            forall|j: int| 0 <= j < i ==> !#[trigger] outstanding_obligation(*merged, reps@[j]),
        decreases reps.len() - i,
    {
        let r = &reps[i];
        if r.kind == ExpectedRuleKind::Duty
            && is_state(&r.activation_state, "Active")
            && is_state(&r.performance_state, "Unperformed")
            && is_terminal(merged, r.rule.as_str())
            && find_in_chains(&merged.obligations, r.rule.as_str()).is_some()
        {
            assert(outstanding_obligation(*merged, reps@[i as int]));
            return true;
        }
        i = i + 1;
    }
    false
}

/// The verdict one policy's expected report tree states.
pub fn policy_verdict(merged: &PolicyIds, expected: &ExpectedPolicyReport, duty_mode: DutyMode, behaviour: Behaviour) -> (r: PolicyVerdict)
    ensures
        r == policy_verdict_of(*merged, expected.rule_reports@, duty_mode, behaviour),
{
    let prohibited = any_active(&expected.rule_reports, ExpectedRuleKind::Prohibition);
    let owed = duty_mode == DutyMode::Deny && any_outstanding(merged, &expected.rule_reports);
    if prohibited || owed {
        PolicyVerdict::Deny
    } else if any_active(&expected.rule_reports, ExpectedRuleKind::Permission) {
        PolicyVerdict::Allow
    } else if merged.permissions.len() == 0 {
        match behaviour {
            Behaviour::Open => PolicyVerdict::Allow,
            Behaviour::Closed => PolicyVerdict::Deny,
        }
    } else if duty_mode == DutyMode::Deny {
        PolicyVerdict::Deny
    } else {
        PolicyVerdict::Indeterminate
    }
}

} // verus!
