//! One compliance case's engine evaluation compared against the report
//! tree its fixture expects, in four checks: the per-rule report tree,
//! policy-level coverage, the coarse decision, and the coarse duties.
//! The engine's evaluation is held here as plain values: what the checks
//! read of it.

use vstd::prelude::*;
use vstd::string::*;
use vstd::multiset::Multiset;
use crate::text::{str_eq, owned, concat2, usize_string, decimal, debug_quoted, debug_str, join_sep, strings_view};
use crate::rdf_ids::{RuleIds, RuleIdsV, PolicyIds, rids_view, merged_policy_ids, merge_of};
use crate::rdf_expected::{ExpectedRuleKind, ExpectedRuleReport, ExpectedPolicyReport, sview};
use crate::rdf_compare::{walk_of, walk_consequence, is_terminal, find_of, is_plain_policy_obligation,
    policy_verdict, policy_verdict_of, PolicyVerdict, chains_find, attached, terminal_of, active_report,
    outstanding_obligation};
use crate::wire::{DutyMode, Behaviour, WireDecision};
use crate::ingest::{lex_lt, str_lt, lemma_lex_lt_irreflexive, lemma_lex_lt_transitive, lemma_lex_lt_total};

verus! {

/// Whether a rule's premises held.
#[derive(Debug, Clone, Copy, PartialEq, Eq, Structural)]
pub enum ActivationState {
    Active,
    Inactive,
}

/// Whether the requested action was attempted.
#[derive(Debug, Clone, Copy, PartialEq, Eq, Structural)]
pub enum AttemptState {
    Attempted,
    NotAttempted,
}

/// Whether a rule's action was performed.
#[derive(Debug, Clone, Copy, PartialEq, Eq, Structural)]
pub enum PerformanceState {
    Performed,
    Unperformed,
    Unknown,
}

/// A rule's deontic standing.
#[derive(Debug, Clone, Copy, PartialEq, Eq, Structural)]
pub enum DeonticState {
    NonSet,
    Violated,
    Fulfilled,
}

/// Where a duty hangs in its policy.
#[derive(Debug, Clone, Copy, PartialEq, Eq, Structural)]
pub enum DutyAttachment {
    Obligation,
    PermissionDuty { rule_index: usize },
    ProhibitionRemedy { rule_index: usize },
}

/// The engine's report on one permission or prohibition.
#[derive(Debug, Clone, Copy, PartialEq, Eq, Structural)]
pub struct RuleStateReport {
    pub rule_index: usize,
    pub activation_state: ActivationState,
    pub attempt_state: AttemptState,
    pub performance_state: PerformanceState,
    pub deontic_state: DeonticState,
}

/// The engine's report on one duty, `consequence_depth` consequence hops
/// below the duty at `duty_index` of `attachment`.
#[derive(Debug, Clone, Copy, PartialEq, Eq, Structural)]
pub struct DutyStateReport {
    pub attachment: DutyAttachment,
    pub duty_index: usize,
    pub consequence_depth: usize,
    pub activation_state: ActivationState,
    pub performance_state: PerformanceState,
    pub deontic_state: DeonticState,
}

/// The engine's report on one rule.
#[derive(Debug, Clone, Copy, PartialEq, Eq, Structural)]
pub enum DetailedRuleReport {
    Permission(RuleStateReport),
    Prohibition(RuleStateReport),
    Duty(DutyStateReport),
}

/// The engine's report on one evaluated policy.
pub struct DetailedPolicyReport {
    pub policy_id: String,
    pub evaluation_error: Option<String>,
    pub rule_reports: Vec<DetailedRuleReport>,
}

/// A policy the engine skipped before evaluating it, and why.
pub struct SkippedPolicy {
    pub policy_id: String,
    pub reason: String,
}

/// The engine's detailed evaluation of one request.
pub struct DetailedEvaluation {
    pub policy_reports: Vec<DetailedPolicyReport>,
    pub skipped_policies: Vec<SkippedPolicy>,
}

/// One duty the engine's coarse response lists as outstanding.
pub struct DutyEntry {
    pub policy_id: String,
    pub action: String,
}

/// What the comparison reads of the engine's coarse response.
pub struct CaseResponse {
    pub decision: WireDecision,
    pub duties: Vec<DutyEntry>,
}

// -- names and renderings ----------------------------------------------------

pub open spec fn activation_text(s: ActivationState) -> Seq<char> {
    match s { ActivationState::Active => "Active"@, ActivationState::Inactive => "Inactive"@ }
}

pub open spec fn attempt_text(s: AttemptState) -> Seq<char> {
    match s { AttemptState::Attempted => "Attempted"@, AttemptState::NotAttempted => "NotAttempted"@ }
}

pub open spec fn performance_text(s: PerformanceState) -> Seq<char> {
    match s {
        PerformanceState::Performed => "Performed"@,
        PerformanceState::Unperformed => "Unperformed"@,
        PerformanceState::Unknown => "Unknown"@,
    }
}

pub open spec fn deontic_text(s: DeonticState) -> Seq<char> {
    match s {
        DeonticState::NonSet => "NonSet"@,
        DeonticState::Violated => "Violated"@,
        DeonticState::Fulfilled => "Fulfilled"@,
    }
}

fn activation_name(s: ActivationState) -> (r: &'static str)
    ensures r@ == activation_text(s),
{
    match s { ActivationState::Active => "Active", ActivationState::Inactive => "Inactive" }
}

fn attempt_name(s: AttemptState) -> (r: &'static str)
    ensures r@ == attempt_text(s),
{
    match s { AttemptState::Attempted => "Attempted", AttemptState::NotAttempted => "NotAttempted" }
}

fn performance_name(s: PerformanceState) -> (r: &'static str)
    ensures r@ == performance_text(s),
{
    match s {
        PerformanceState::Performed => "Performed",
        PerformanceState::Unperformed => "Unperformed",
        PerformanceState::Unknown => "Unknown",
    }
}

fn deontic_name(s: DeonticState) -> (r: &'static str)
    ensures r@ == deontic_text(s),
{
    match s {
        DeonticState::NonSet => "NonSet",
        DeonticState::Violated => "Violated",
        DeonticState::Fulfilled => "Fulfilled",
    }
}

/// How `Debug` names a rule kind.
pub open spec fn kind_text(k: ExpectedRuleKind) -> Seq<char> {
    match k {
        ExpectedRuleKind::Permission => "Permission"@,
        ExpectedRuleKind::Prohibition => "Prohibition"@,
        ExpectedRuleKind::Duty => "Duty"@,
    }
}

fn kind_name(k: ExpectedRuleKind) -> (r: &'static str)
    ensures r@ == kind_text(k),
{
    match k {
        ExpectedRuleKind::Permission => "Permission",
        ExpectedRuleKind::Prohibition => "Prohibition",
        ExpectedRuleKind::Duty => "Duty",
    }
}

/// How `Debug` names a decision.
pub open spec fn decision_text(d: WireDecision) -> Seq<char> {
    match d { WireDecision::Allow => "Allow"@, WireDecision::Deny => "Deny"@, WireDecision::Error => "Error"@ }
}

fn decision_name(d: WireDecision) -> (r: &'static str)
    ensures r@ == decision_text(d),
{
    match d { WireDecision::Allow => "Allow", WireDecision::Deny => "Deny", WireDecision::Error => "Error" }
}

/// How `Debug` names a policy verdict.
pub open spec fn verdict_text(v: PolicyVerdict) -> Seq<char> {
    match v {
        PolicyVerdict::Allow => "Allow"@,
        PolicyVerdict::Deny => "Deny"@,
        PolicyVerdict::Indeterminate => "Indeterminate"@,
    }
}

fn verdict_name(v: PolicyVerdict) -> (r: &'static str)
    ensures r@ == verdict_text(v),
{
    match v {
        PolicyVerdict::Allow => "Allow",
        PolicyVerdict::Deny => "Deny",
        PolicyVerdict::Indeterminate => "Indeterminate",
    }
}

/// `Debug` of a rule-state report's fields, after the struct name.
pub open spec fn rule_state_text(r: RuleStateReport) -> Seq<char> {
    "RuleStateReport { rule_index: "@ + decimal(r.rule_index as nat)
        + ", activation_state: "@ + activation_text(r.activation_state)
        + ", attempt_state: "@ + attempt_text(r.attempt_state)
        + ", performance_state: "@ + performance_text(r.performance_state)
        + ", deontic_state: "@ + deontic_text(r.deontic_state) + " }"@
}

/// `Debug` of a duty attachment.
pub open spec fn attachment_text(a: DutyAttachment) -> Seq<char> {
    match a {
        DutyAttachment::Obligation => "Obligation"@,
        DutyAttachment::PermissionDuty { rule_index } => "PermissionDuty { rule_index: "@ + decimal(rule_index as nat) + " }"@,
        DutyAttachment::ProhibitionRemedy { rule_index } => "ProhibitionRemedy { rule_index: "@ + decimal(rule_index as nat) + " }"@,
    }
}

/// `Debug` of a rule report.
pub open spec fn report_text(r: DetailedRuleReport) -> Seq<char> {
    match r {
        DetailedRuleReport::Permission(p) => "Permission("@ + rule_state_text(p) + ")"@,
        DetailedRuleReport::Prohibition(p) => "Prohibition("@ + rule_state_text(p) + ")"@,
        DetailedRuleReport::Duty(d) => "Duty(DutyStateReport { attachment: "@ + attachment_text(d.attachment)
            + ", duty_index: "@ + decimal(d.duty_index as nat)
            + ", consequence_depth: "@ + decimal(d.consequence_depth as nat)
            + ", activation_state: "@ + activation_text(d.activation_state)
            + ", performance_state: "@ + performance_text(d.performance_state)
            + ", deontic_state: "@ + deontic_text(d.deontic_state) + " })"@,
    }
}

fn push_str(s: String, t: &str) -> (r: String)
    ensures r@ == s@ + t@,
{
    concat2(s.as_str(), t)
}

fn rule_state_string(r: RuleStateReport) -> (s: String)
    ensures s@ == rule_state_text(r),
{
    let mut s = owned("RuleStateReport { rule_index: ");
    let n = usize_string(r.rule_index);
    s = push_str(s, n.as_str());
    s = push_str(s, ", activation_state: ");
    s = push_str(s, activation_name(r.activation_state));
    s = push_str(s, ", attempt_state: ");
    s = push_str(s, attempt_name(r.attempt_state));
    s = push_str(s, ", performance_state: ");
    s = push_str(s, performance_name(r.performance_state));
    s = push_str(s, ", deontic_state: ");
    s = push_str(s, deontic_name(r.deontic_state));
    push_str(s, " }")
}

fn attachment_string(a: DutyAttachment) -> (s: String)
    ensures s@ == attachment_text(a),
{
    match a {
        DutyAttachment::Obligation => owned("Obligation"),
        DutyAttachment::PermissionDuty { rule_index } => {
            let n = usize_string(rule_index);
            push_str(push_str(owned("PermissionDuty { rule_index: "), n.as_str()), " }")
        },
        DutyAttachment::ProhibitionRemedy { rule_index } => {
            let n = usize_string(rule_index);
            push_str(push_str(owned("ProhibitionRemedy { rule_index: "), n.as_str()), " }")
        },
    }
}

/// `format!("{r:?}")` of a rule report.
pub fn report_string(r: DetailedRuleReport) -> (s: String)
    ensures s@ == report_text(r),
{
    match r {
        DetailedRuleReport::Permission(p) => {
            let t = rule_state_string(p);
            push_str(push_str(owned("Permission("), t.as_str()), ")")
        },
        DetailedRuleReport::Prohibition(p) => {
            let t = rule_state_string(p);
            push_str(push_str(owned("Prohibition("), t.as_str()), ")")
        },
        DetailedRuleReport::Duty(d) => {
            let mut s = owned("Duty(DutyStateReport { attachment: ");
            let a = attachment_string(d.attachment);
            s = push_str(s, a.as_str());
            s = push_str(s, ", duty_index: ");
            let n = usize_string(d.duty_index);
            s = push_str(s, n.as_str());
            s = push_str(s, ", consequence_depth: ");
            let k = usize_string(d.consequence_depth);
            s = push_str(s, k.as_str());
            s = push_str(s, ", activation_state: ");
            s = push_str(s, activation_name(d.activation_state));
            s = push_str(s, ", performance_state: ");
            s = push_str(s, performance_name(d.performance_state));
            s = push_str(s, ", deontic_state: ");
            s = push_str(s, deontic_name(d.deontic_state));
            push_str(s, " })")
        },
    }
}

// -- which rule a report is about ---------------------------------------------

/// The id shadow of a merged policy as plain values: its permissions,
/// prohibitions and obligations.
pub type MergedV = (Seq<RuleIdsV>, Seq<RuleIdsV>, Seq<RuleIdsV>);

/// The plain values of the merged id shadow `m`.
pub open spec fn merged_view(m: PolicyIds) -> MergedV {
    (rids_view(m.permissions@), rids_view(m.prohibitions@), rids_view(m.obligations@))
}

/// The root of the duty chain at `duty_index` of `attachment`.
pub open spec fn duty_root_of(m: MergedV, attachment: DutyAttachment, duty_index: int) -> Option<RuleIdsV> {
    match attachment {
        DutyAttachment::Obligation => {
            let os = m.2;
            if 0 <= duty_index < os.len() { Some(os[duty_index]) } else { None }
        },
        DutyAttachment::PermissionDuty { rule_index } => {
            let ps = m.0;
            if rule_index < ps.len() && 0 <= duty_index < ps[rule_index as int].duty.len() {
                Some(ps[rule_index as int].duty[duty_index])
            } else { None }
        },
        DutyAttachment::ProhibitionRemedy { rule_index } => {
            let ps = m.1;
            if rule_index < ps.len() && 0 <= duty_index < ps[rule_index as int].remedy.len() {
                Some(ps[rule_index as int].remedy[duty_index])
            } else { None }
        },
    }
}

/// The rule node a duty report names.
pub open spec fn duty_node_of(m: MergedV, d: DutyStateReport) -> Option<RuleIdsV> {
    match duty_root_of(m, d.attachment, d.duty_index as int) {
        Some(root) => walk_of(root, d.consequence_depth as nat),
        None => None,
    }
}

/// The `(kind, rule id)` a report is about, resolved through the merged
/// policy's id shadow.
pub open spec fn rule_key_of(m: MergedV, r: DetailedRuleReport) -> Option<(ExpectedRuleKind, Seq<char>)> {
    match r {
        DetailedRuleReport::Permission(p) => {
            let ps = m.0;
            if p.rule_index < ps.len() { Some((ExpectedRuleKind::Permission, ps[p.rule_index as int].rule_id)) } else { None }
        },
        DetailedRuleReport::Prohibition(p) => {
            let ps = m.1;
            if p.rule_index < ps.len() { Some((ExpectedRuleKind::Prohibition, ps[p.rule_index as int].rule_id)) } else { None }
        },
        DetailedRuleReport::Duty(d) => match duty_node_of(m, d) {
            Some(n) => Some((ExpectedRuleKind::Duty, n.rule_id)),
            None => None,
        },
    }
}

/// The action the coarse response lists for an outstanding duty report:
/// that of the node it names, or empty.
pub open spec fn duty_action_of(m: MergedV, d: DutyStateReport) -> Seq<char> {
    match duty_node_of(m, d) {
        Some(n) => n.action,
        None => Seq::empty(),
    }
}

fn duty_root<'a>(m: &'a PolicyIds, attachment: DutyAttachment, duty_index: usize) -> (r: Option<&'a RuleIds>)
    ensures
        match r {
            Some(x) => duty_root_of(merged_view(*m), attachment, duty_index as int) == Some(x@),
            None => duty_root_of(merged_view(*m), attachment, duty_index as int) is None,
        },
{
    match attachment {
        DutyAttachment::Obligation => {
            if duty_index < m.obligations.len() {
                assert(rids_view(m.obligations@)[duty_index as int] == m.obligations@[duty_index as int]@);
                Some(&m.obligations[duty_index])
            } else {
                None
            }
        },
        DutyAttachment::PermissionDuty { rule_index } => {
            if rule_index < m.permissions.len() {
                let p = &m.permissions[rule_index];
                assert(rids_view(m.permissions@)[rule_index as int] == p@);
                if duty_index < p.duty.len() {
                    assert(p@.duty[duty_index as int] == p.duty@[duty_index as int]@);
                    Some(&p.duty[duty_index])
                } else {
                    None
                }
            } else {
                None
            }
        },
        DutyAttachment::ProhibitionRemedy { rule_index } => {
            if rule_index < m.prohibitions.len() {
                let p = &m.prohibitions[rule_index];
                assert(rids_view(m.prohibitions@)[rule_index as int] == p@);
                if duty_index < p.remedy.len() {
                    assert(p@.remedy[duty_index as int] == p.remedy@[duty_index as int]@);
                    Some(&p.remedy[duty_index])
                } else {
                    None
                }
            } else {
                None
            }
        },
    }
}

fn duty_node<'a>(m: &'a PolicyIds, d: DutyStateReport) -> (r: Option<&'a RuleIds>)
    ensures
        match r {
            Some(x) => duty_node_of(merged_view(*m), d) == Some(x@),
            None => duty_node_of(merged_view(*m), d) is None,
        },
{
    match duty_root(m, d.attachment, d.duty_index) {
        Some(root) => walk_consequence(root, d.consequence_depth),
        None => None,
    }
}

/// The `(kind, rule id)` a report is about.
pub fn rule_id_of(m: &PolicyIds, r: DetailedRuleReport) -> (k: Option<(ExpectedRuleKind, String)>)
    ensures
        match k {
            Some((kind, id)) => rule_key_of(merged_view(*m), r) == Some((kind, id@)),
            None => rule_key_of(merged_view(*m), r) is None,
        },
{
    match r {
        DetailedRuleReport::Permission(p) => {
            if p.rule_index < m.permissions.len() {
                assert(rids_view(m.permissions@)[p.rule_index as int] == m.permissions@[p.rule_index as int]@);
                Some((ExpectedRuleKind::Permission, m.permissions[p.rule_index].rule_id.clone()))
            } else {
                None
            }
        },
        DetailedRuleReport::Prohibition(p) => {
            if p.rule_index < m.prohibitions.len() {
                assert(rids_view(m.prohibitions@)[p.rule_index as int] == m.prohibitions@[p.rule_index as int]@);
                Some((ExpectedRuleKind::Prohibition, m.prohibitions[p.rule_index].rule_id.clone()))
            } else {
                None
            }
        },
        DetailedRuleReport::Duty(d) => match duty_node(m, d) {
            Some(n) => Some((ExpectedRuleKind::Duty, n.rule_id.clone())),
            None => None,
        },
    }
}

/// The action the coarse response lists for the outstanding duty `d`.
pub fn duty_action(m: &PolicyIds, d: DutyStateReport) -> (r: String)
    ensures
        r@ == duty_action_of(merged_view(*m), d),
{
    match duty_node(m, d) {
        Some(n) => n.action.clone(),
        None => String::new(),
    }
}

// -- one rule report against its expectation ----------------------------------

/// The mismatch of one report dimension: none when nothing is expected of
/// it, one when the report carries no such dimension or a different value.
pub open spec fn dimension_mismatch(policy_id: Seq<char>, rule: Seq<char>, dimension: Seq<char>, expected: Option<Seq<char>>, actual: Option<Seq<char>>) -> Seq<Seq<char>> {
    match expected {
        None => Seq::empty(),
        Some(e) => match actual {
            None => seq!["policy '"@ + policy_id + "' rule '"@ + rule + "': expected report:"@ + dimension + " '"@ + e
                + "' but the engine's report shape carries no "@ + dimension + " for this rule kind"@],
            Some(a) => if a != e {
                seq!["policy '"@ + policy_id + "' rule '"@ + rule + "': report:"@ + dimension + " expected '"@ + e
                    + "' but engine produced '"@ + a + "'"@]
            } else { Seq::empty() },
        },
    }
}

/// The four state dimensions of a report, by name; a duty has no attempt
/// state.
pub open spec fn report_states(r: DetailedRuleReport) -> (Seq<char>, Option<Seq<char>>, Seq<char>, Seq<char>) {
    match r {
        DetailedRuleReport::Permission(p) => (activation_text(p.activation_state), Some(attempt_text(p.attempt_state)), performance_text(p.performance_state), deontic_text(p.deontic_state)),
        DetailedRuleReport::Prohibition(p) => (activation_text(p.activation_state), Some(attempt_text(p.attempt_state)), performance_text(p.performance_state), deontic_text(p.deontic_state)),
        DetailedRuleReport::Duty(d) => (activation_text(d.activation_state), None, performance_text(d.performance_state), deontic_text(d.deontic_state)),
    }
}

/// Every mismatch between an expected rule report and the engine's.
pub open spec fn rule_report_mismatches(policy_id: Seq<char>, e: ExpectedRuleReport, a: DetailedRuleReport) -> Seq<Seq<char>> {
    let (act, att, perf, deo) = report_states(a);
    dimension_mismatch(policy_id, e.rule@, "activationState"@, sview(e.activation_state), Some(act))
        + dimension_mismatch(policy_id, e.rule@, "attemptState"@, sview(e.attempt_state), att)
        + dimension_mismatch(policy_id, e.rule@, "performanceState"@, sview(e.performance_state), Some(perf))
        + dimension_mismatch(policy_id, e.rule@, "deonticState"@, sview(e.deontic_state), Some(deo))
}

fn check_dimension(out: &mut Vec<String>, policy_id: &str, rule: &str, dimension: &str, expected: &Option<String>, actual: Option<&str>)
    ensures
        strings_view(final(out)@) == strings_view(old(out)@)
            + dimension_mismatch(policy_id@, rule@, dimension@, sview(*expected), match actual { Some(a) => Some(a@), None => None }),
{
    let ghost before = out@;
    match expected {
        None => {
            assert(strings_view(out@) =~= strings_view(before) + Seq::<Seq<char>>::empty());
        },
        Some(e) => match actual {
            None => {
                let mut m = owned("policy '");
                m = push_str(m, policy_id);
                m = push_str(m, "' rule '");
                m = push_str(m, rule);
                m = push_str(m, "': expected report:");
                m = push_str(m, dimension);
                m = push_str(m, " '");
                m = push_str(m, e.as_str());
                m = push_str(m, "' but the engine's report shape carries no ");
                m = push_str(m, dimension);
                m = push_str(m, " for this rule kind");
                out.push(m);
                assert(strings_view(out@) =~= strings_view(before) + seq![m@]);
            },
            Some(a) => {
                if !str_eq(a, e.as_str()) {
                    let mut m = owned("policy '");
                    m = push_str(m, policy_id);
                    m = push_str(m, "' rule '");
                    m = push_str(m, rule);
                    m = push_str(m, "': report:");
                    m = push_str(m, dimension);
                    m = push_str(m, " expected '");
                    m = push_str(m, e.as_str());
                    m = push_str(m, "' but engine produced '");
                    m = push_str(m, a);
                    m = push_str(m, "'");
                    out.push(m);
                    assert(strings_view(out@) =~= strings_view(before) + seq![m@]);
                } else {
                    assert(strings_view(out@) =~= strings_view(before) + Seq::<Seq<char>>::empty());
                }
            },
        },
    }
}

/// Appends every mismatch between `expected` and the engine's report.
pub fn compare_rule_report(out: &mut Vec<String>, policy_id: &str, expected: &ExpectedRuleReport, actual: DetailedRuleReport)
    ensures
        strings_view(final(out)@) == strings_view(old(out)@) + rule_report_mismatches(policy_id@, *expected, actual),
{
    let (act, att, perf, deo): (&str, Option<&str>, &str, &str) = match actual {
        DetailedRuleReport::Permission(p) => (activation_name(p.activation_state), Some(attempt_name(p.attempt_state)), performance_name(p.performance_state), deontic_name(p.deontic_state)),
        DetailedRuleReport::Prohibition(p) => (activation_name(p.activation_state), Some(attempt_name(p.attempt_state)), performance_name(p.performance_state), deontic_name(p.deontic_state)),
        DetailedRuleReport::Duty(d) => (activation_name(d.activation_state), None, performance_name(d.performance_state), deontic_name(d.deontic_state)),
    };
    let ghost s0 = strings_view(out@);
    let rule = expected.rule.as_str();
    check_dimension(out, policy_id, rule, "activationState", &expected.activation_state, Some(act));
    check_dimension(out, policy_id, rule, "attemptState", &expected.attempt_state, att);
    check_dimension(out, policy_id, rule, "performanceState", &expected.performance_state, Some(perf));
    check_dimension(out, policy_id, rule, "deonticState", &expected.deontic_state, Some(deo));
    proof {
        let (a1, a2, a3, a4) = report_states(actual);
        assert(a1 == act@);
        assert(match att { Some(a) => Some(a@), None => None::<Seq<char>> } == a2);
        assert(strings_view(out@) =~= s0 + rule_report_mismatches(policy_id@, *expected, actual));
    }
}

// -- one expected policy against the engine's report ----------------------------

/// An index of the engine's rule reports by the `(kind, rule id)` they are
/// about; a later report for a key replaces the earlier one in place.
pub type ReportIndex = Seq<(ExpectedRuleKind, Seq<char>, DetailedRuleReport)>;

/// The first position of `(kind, id)` in `idx`, or -1.
pub open spec fn key_pos(idx: ReportIndex, kind: ExpectedRuleKind, id: Seq<char>) -> int
    decreases idx.len(),
{
    if idx.len() == 0 {
        -1
    } else if key_pos(idx.drop_last(), kind, id) >= 0 {
        key_pos(idx.drop_last(), kind, id)
    } else if idx.last().0 == kind && idx.last().1 == id {
        idx.len() - 1
    } else {
        -1
    }
}

/// `idx` with `(kind, id)` mapped to `r`.
pub open spec fn index_put(idx: ReportIndex, kind: ExpectedRuleKind, id: Seq<char>, r: DetailedRuleReport) -> ReportIndex {
    let k = key_pos(idx, kind, id);
    if k >= 0 { idx.update(k, (kind, id, r)) } else { idx.push((kind, id, r)) }
}

/// The report `idx` holds for `(kind, id)`.
pub open spec fn index_get(idx: ReportIndex, kind: ExpectedRuleKind, id: Seq<char>) -> Option<DetailedRuleReport> {
    let k = key_pos(idx, kind, id);
    if k >= 0 { Some(idx[k].2) } else { None }
}

/// The index of the reports `reps` that resolve to a rule of `m`.
pub open spec fn index_of(m: MergedV, reps: Seq<DetailedRuleReport>) -> ReportIndex
    decreases reps.len(),
{
    if reps.len() == 0 {
        Seq::empty()
    } else {
        let idx = index_of(m, reps.drop_last());
        match rule_key_of(m, reps.last()) {
            Some((k, id)) => index_put(idx, k, id, reps.last()),
            None => idx,
        }
    }
}

/// One mismatch per report of `reps` that resolves to no rule of `m`.
pub open spec fn unresolved_mismatches(m: MergedV, policy_id: Seq<char>, reps: Seq<DetailedRuleReport>) -> Seq<Seq<char>>
    decreases reps.len(),
{
    if reps.len() == 0 {
        Seq::empty()
    } else {
        unresolved_mismatches(m, policy_id, reps.drop_last()) + match rule_key_of(m, reps.last()) {
            Some(_) => Seq::empty(),
            None => seq!["policy '"@ + policy_id + "': engine produced a rule report this translator's own PolicyIds shadow could not resolve back to an RDF rule id -- translator bug: "@ + report_text(reps.last())],
        }
    }
}

/// The mismatches of each expected rule report against the indexed
/// engine report for its rule, or its absence.
pub open spec fn expected_rule_mismatches(policy_id: Seq<char>, idx: ReportIndex, ers: Seq<ExpectedRuleReport>) -> Seq<Seq<char>>
    decreases ers.len(),
{
    if ers.len() == 0 {
        Seq::empty()
    } else {
        let e = ers.last();
        expected_rule_mismatches(policy_id, idx, ers.drop_last()) + match index_get(idx, e.kind, e.rule@) {
            None => seq!["policy '"@ + policy_id + "': expected a "@ + kind_text(e.kind) + " report for rule '"@ + e.rule@ + "' but the engine produced none"@],
            Some(a) => rule_report_mismatches(policy_id, e, a),
        }
    }
}

/// Where `id` sits among the duty attachment points of `m`.
pub open spec fn find_v(m: MergedV, id: Seq<char>) -> Option<RuleIdsV> {
    match chains_find(m.2, id) {
        Some(r) => Some(r),
        None => match chains_find(attached(m.0, false), id) {
            Some(r) => Some(r),
            None => chains_find(attached(m.1, true), id),
        },
    }
}

/// Whether `id` ends its duty chain in `m`; an id found nowhere counts.
pub open spec fn terminal_v(m: MergedV, id: Seq<char>) -> bool {
    match find_v(m, id) {
        Some(x) => x.consequence is None,
        None => true,
    }
}

/// Whether `id` is one of `m`'s own obligations.
pub open spec fn plain_obligation_v(m: MergedV, id: Seq<char>) -> bool {
    exists|i: int| 0 <= i < m.2.len() && (#[trigger] m.2[i]).rule_id == id
}

/// Whether an expected duty report says its duty is outstanding in the
/// coarse response: `Active`, `Unperformed`, terminal, and not a plain
/// obligation under `dutyMode=deny` (which the response omits).
pub open spec fn expected_outstanding(m: MergedV, duty_mode: DutyMode, e: ExpectedRuleReport) -> bool {
    &&& e.kind == ExpectedRuleKind::Duty
    &&& sview(e.activation_state) == Some("Active"@)
    &&& sview(e.performance_state) == Some("Unperformed"@)
    &&& terminal_v(m, e.rule@)
    &&& !(duty_mode == DutyMode::Deny && plain_obligation_v(m, e.rule@))
}

/// The `(policy id, action)` pairs the expected reports say the coarse
/// response must list as outstanding.
pub open spec fn outstanding_of(m: MergedV, duty_mode: DutyMode, policy_id: Seq<char>, idx: ReportIndex, ers: Seq<ExpectedRuleReport>) -> Seq<(Seq<char>, Seq<char>)>
    decreases ers.len(),
{
    if ers.len() == 0 {
        Seq::empty()
    } else {
        let e = ers.last();
        outstanding_of(m, duty_mode, policy_id, idx, ers.drop_last()) + if expected_outstanding(m, duty_mode, e) {
            match index_get(idx, e.kind, e.rule@) {
                Some(DetailedRuleReport::Duty(d)) => seq![(policy_id, duty_action_of(m, d))],
                _ => Seq::empty(),
            }
        } else {
            Seq::empty()
        }
    }
}

/// Whether some expected report is about `(kind, id)`.
pub open spec fn mentioned(ers: Seq<ExpectedRuleReport>, kind: ExpectedRuleKind, id: Seq<char>) -> bool {
    exists|i: int| 0 <= i < ers.len() && (#[trigger] ers[i]).kind == kind && ers[i].rule@ == id
}

/// One mismatch per indexed engine report no expected report mentions.
pub open spec fn unmentioned_mismatches(policy_id: Seq<char>, idx: ReportIndex, ers: Seq<ExpectedRuleReport>) -> Seq<Seq<char>>
    decreases idx.len(),
{
    if idx.len() == 0 {
        Seq::empty()
    } else {
        let x = idx.last();
        unmentioned_mismatches(policy_id, idx.drop_last(), ers) + if mentioned(ers, x.0, x.1) {
            Seq::empty()
        } else {
            seq!["policy '"@ + policy_id + "': engine produced a "@ + kind_text(x.0) + " report for rule '"@ + x.1
                + "' that the expected outcome never mentions: "@ + report_text(x.2)]
        }
    }
}

/// The position of the first engine policy report for `policy_id`, or -1.
pub open spec fn report_pos(reports: Seq<DetailedPolicyReport>, policy_id: Seq<char>) -> int
    decreases reports.len(),
{
    if reports.len() == 0 {
        -1
    } else if report_pos(reports.drop_last(), policy_id) >= 0 {
        report_pos(reports.drop_last(), policy_id)
    } else if reports.last().policy_id@ == policy_id {
        reports.len() - 1
    } else {
        -1
    }
}

/// The mismatches of one expected policy report against the engine's
/// evaluation, and the duties it says are outstanding.
pub open spec fn policy_mismatches(m: MergedV, duty_mode: DutyMode, e: ExpectedPolicyReport, detailed: DetailedEvaluation)
    -> (Seq<Seq<char>>, Seq<(Seq<char>, Seq<char>)>)
{
    let pid = e.policy_id@;
    let j = report_pos(detailed.policy_reports@, pid);
    if j < 0 {
        (seq!["expected report:PolicyReport for policy '"@ + pid + "' but the engine produced no DetailedPolicyReport for it (skipped by party-role scoping, or a request-level error?)"@], Seq::empty())
    } else {
        let ap = detailed.policy_reports@[j];
        let reps = ap.rule_reports@;
        let idx = index_of(m, reps);
        let ers = e.rule_reports@;
        let refused = match sview(ap.evaluation_error) {
            Some(err) => seq!["policy '"@ + pid + "': the engine refused to evaluate this policy at all (Decision::Error: "@ + err + ") -- no report: tree can describe that, so the fixture's expectations for it cannot hold"@],
            None => Seq::empty(),
        };
        (refused + unresolved_mismatches(m, pid, reps) + expected_rule_mismatches(pid, idx, ers) + unmentioned_mismatches(pid, idx, ers),
            outstanding_of(m, duty_mode, pid, idx, ers))
    }
}

/// The plain values of an exec report index.
pub open spec fn index_view(v: Seq<(ExpectedRuleKind, String, DetailedRuleReport)>) -> ReportIndex {
    Seq::new(v.len(), |i: int| (v[i].0, v[i].1@, v[i].2))
}

fn key_position(idx: &Vec<(ExpectedRuleKind, String, DetailedRuleReport)>, kind: ExpectedRuleKind, id: &str) -> (r: Option<usize>)
    ensures
        match r {
            Some(k) => key_pos(index_view(idx@), kind, id@) == k as int && (k as int) < idx@.len(),
            None => key_pos(index_view(idx@), kind, id@) == -1,
        },
{
    let ghost v = index_view(idx@);
    let mut found: Option<usize> = None;
    let mut i: usize = 0;
    assert(v.subrange(0, 0) =~= Seq::<(ExpectedRuleKind, Seq<char>, DetailedRuleReport)>::empty());
    while i < idx.len()
        invariant
            i <= idx@.len(),
            v == index_view(idx@),
            match found {
                Some(k) => key_pos(v.subrange(0, i as int), kind, id@) == k as int && (k as int) < i,
                None => key_pos(v.subrange(0, i as int), kind, id@) == -1,
            },
        decreases idx.len() - i,
    {
        assert(v.subrange(0, i + 1).drop_last() =~= v.subrange(0, i as int));
        if found.is_none() && idx[i].0 == kind && str_eq(idx[i].1.as_str(), id) {
            found = Some(i);
        }
        i = i + 1;
    }
    assert(v.subrange(0, idx@.len() as int) =~= v);
    found
}

fn build_index(m: &PolicyIds, policy_id: &str, reps: &Vec<DetailedRuleReport>, out: &mut Vec<String>)
    -> (idx: Vec<(ExpectedRuleKind, String, DetailedRuleReport)>)
    ensures
        index_view(idx@) == index_of(merged_view(*m), reps@),
        strings_view(final(out)@) == strings_view(old(out)@) + unresolved_mismatches(merged_view(*m), policy_id@, reps@),
{
    let ghost mv = merged_view(*m);
    let ghost o0 = strings_view(out@);
    let mut idx: Vec<(ExpectedRuleKind, String, DetailedRuleReport)> = Vec::new();
    let mut i: usize = 0;
    assert(reps@.subrange(0, 0) =~= Seq::<DetailedRuleReport>::empty());
    assert(index_view(idx@) =~= ReportIndex::empty());
    assert(strings_view(out@) =~= o0 + Seq::<Seq<char>>::empty());
    while i < reps.len()
        invariant
            i <= reps@.len(),
            mv == merged_view(*m),
            index_view(idx@) == index_of(mv, reps@.subrange(0, i as int)),
            strings_view(out@) == o0 + unresolved_mismatches(mv, policy_id@, reps@.subrange(0, i as int)),
        decreases reps.len() - i,
    {
        let r = reps[i];
        assert(reps@.subrange(0, i + 1).drop_last() =~= reps@.subrange(0, i as int));
        assert(reps@.subrange(0, i + 1).last() == r);
        let ghost before = out@;
        let ghost iv = index_view(idx@);
        match rule_id_of(m, r) {
            Some((kind, id)) => {
                match key_position(&idx, kind, id.as_str()) {
                    Some(k) => {
                        idx.set(k, (kind, id, r));
                        assert(index_view(idx@) =~= iv.update(k as int, (kind, id@, r)));
                    },
                    None => {
                        idx.push((kind, id, r));
                        assert(index_view(idx@) =~= iv.push((kind, id@, r)));
                    },
                }
                assert(strings_view(out@) =~= o0 + unresolved_mismatches(mv, policy_id@, reps@.subrange(0, i + 1)));
            },
            None => {
                let t = report_string(r);
                let msg = push_str(push_str(push_str(owned("policy '"), policy_id),
                    "': engine produced a rule report this translator's own PolicyIds shadow could not resolve back to an RDF rule id -- translator bug: "), t.as_str());
                out.push(msg);
                assert(strings_view(out@) =~= strings_view(before).push(msg@));
                assert(strings_view(out@) =~= o0 + unresolved_mismatches(mv, policy_id@, reps@.subrange(0, i + 1)));
            },
        }
        i = i + 1;
    }
    assert(reps@.subrange(0, reps@.len() as int) =~= reps@);
    idx
}

fn index_lookup(idx: &Vec<(ExpectedRuleKind, String, DetailedRuleReport)>, kind: ExpectedRuleKind, id: &str) -> (r: Option<DetailedRuleReport>)
    ensures
        r == index_get(index_view(idx@), kind, id@),
{
    match key_position(idx, kind, id) {
        Some(k) => Some(idx[k].2),
        None => None,
    }
}

fn is_mentioned(ers: &Vec<ExpectedRuleReport>, kind: ExpectedRuleKind, id: &str) -> (r: bool)
    ensures
        r == mentioned(ers@, kind, id@),
{
    let mut i: usize = 0;
    while i < ers.len()
        invariant
            i <= ers@.len(),
            forall|j: int| 0 <= j < i ==> !((#[trigger] ers@[j]).kind == kind && ers@[j].rule@ == id@),
        decreases ers.len() - i,
    {
        if ers[i].kind == kind && str_eq(ers[i].rule.as_str(), id) {
            return true;
        }
        i = i + 1;
    }
    false
}

fn report_position(reports: &Vec<DetailedPolicyReport>, policy_id: &str) -> (r: Option<usize>)
    ensures
        match r {
            Some(k) => report_pos(reports@, policy_id@) == k as int && (k as int) < reports@.len(),
            None => report_pos(reports@, policy_id@) == -1,
        },
{
    let mut found: Option<usize> = None;
    let mut i: usize = 0;
    while i < reports.len()
        invariant
            i <= reports@.len(),
            match found {
                Some(k) => report_pos(reports@.subrange(0, i as int), policy_id@) == k as int && (k as int) < i,
                None => report_pos(reports@.subrange(0, i as int), policy_id@) == -1,
            },
        decreases reports.len() - i,
    {
        assert(reports@.subrange(0, i + 1).drop_last() =~= reports@.subrange(0, i as int));
        if found.is_none() && str_eq(reports[i].policy_id.as_str(), policy_id) {
            found = Some(i);
        }
        i = i + 1;
    }
    assert(reports@.subrange(0, reports@.len() as int) =~= reports@);
    found
}

/// Whether `rule_id` is outstanding by `e`'s own account.
fn says_outstanding(m: &PolicyIds, duty_mode: DutyMode, e: &ExpectedRuleReport) -> (r: bool)
    ensures
        r == expected_outstanding(merged_view(*m), duty_mode, *e),
{
    let active = match &e.activation_state { Some(a) => str_eq(a.as_str(), "Active"), None => false };
    let unperformed = match &e.performance_state { Some(a) => str_eq(a.as_str(), "Unperformed"), None => false };
    if e.kind == ExpectedRuleKind::Duty && active && unperformed {
        let terminal = is_terminal(m, e.rule.as_str());
        assert(terminal == terminal_v(merged_view(*m), e.rule@));
        if !terminal {
            return false;
        }
        if duty_mode == DutyMode::Deny {
            let plain = is_plain_policy_obligation(m, e.rule.as_str());
            proof {
                let ov = merged_view(*m).2;
                if plain {
                    let i = choose|i: int| 0 <= i < m.obligations@.len() && (#[trigger] m.obligations@[i]).rule_id@ == e.rule@;
                    assert(ov[i].rule_id == e.rule@);
                }
                if plain_obligation_v(merged_view(*m), e.rule@) {
                    let i = choose|i: int| 0 <= i < ov.len() && (#[trigger] ov[i]).rule_id == e.rule@;
                    assert(m.obligations@[i].rule_id@ == e.rule@);
                }
            }
            !plain
        } else {
            true
        }
    } else {
        false
    }
}

fn expected_part(m: &PolicyIds, duty_mode: DutyMode, policy_id: &str, idx: &Vec<(ExpectedRuleKind, String, DetailedRuleReport)>,
    ers: &Vec<ExpectedRuleReport>, out: &mut Vec<String>, outs: &mut Vec<(String, String)>)
    ensures
        strings_view(final(out)@) == strings_view(old(out)@) + expected_rule_mismatches(policy_id@, index_view(idx@), ers@),
        pairs_view(final(outs)@) == pairs_view(old(outs)@) + outstanding_of(merged_view(*m), duty_mode, policy_id@, index_view(idx@), ers@),
{
    let ghost mv = merged_view(*m);
    let ghost iv = index_view(idx@);
    let ghost o0 = strings_view(out@);
    let ghost p0 = pairs_view(outs@);
    let mut i: usize = 0;
    assert(ers@.subrange(0, 0) =~= Seq::<ExpectedRuleReport>::empty());
    assert(strings_view(out@) =~= o0 + Seq::<Seq<char>>::empty());
    assert(pairs_view(outs@) =~= p0 + Seq::<(Seq<char>, Seq<char>)>::empty());
    while i < ers.len()
        invariant
            i <= ers@.len(),
            mv == merged_view(*m),
            iv == index_view(idx@),
            strings_view(out@) == o0 + expected_rule_mismatches(policy_id@, iv, ers@.subrange(0, i as int)),
            pairs_view(outs@) == p0 + outstanding_of(mv, duty_mode, policy_id@, iv, ers@.subrange(0, i as int)),
        decreases ers.len() - i,
    {
        let e = &ers[i];
        assert(ers@.subrange(0, i + 1).drop_last() =~= ers@.subrange(0, i as int));
        assert(ers@.subrange(0, i + 1).last() == *e);
        let ghost before = strings_view(out@);
        let ghost pbefore = pairs_view(outs@);
        let actual = index_lookup(idx, e.kind, e.rule.as_str());
        match actual {
            None => {
                let msg = push_str(push_str(push_str(push_str(push_str(owned("policy '"), policy_id), "': expected a "),
                    kind_name(e.kind)), " report for rule '"), e.rule.as_str());
                let msg = push_str(msg, "' but the engine produced none");
                out.push(msg);
                assert(strings_view(out@) =~= before.push(msg@));
            },
            Some(a) => {
                compare_rule_report(out, policy_id, e, a);
            },
        }
        assert(strings_view(out@) =~= o0 + expected_rule_mismatches(policy_id@, iv, ers@.subrange(0, i + 1)));
        if says_outstanding(m, duty_mode, e) {
            match actual {
                Some(DetailedRuleReport::Duty(d)) => {
                    let act = duty_action(m, d);
                    outs.push((owned(policy_id), act));
                    assert(pairs_view(outs@) =~= pbefore.push((policy_id@, duty_action_of(mv, d))));
                },
                _ => {
                    assert(pairs_view(outs@) =~= pbefore + Seq::<(Seq<char>, Seq<char>)>::empty());
                },
            }
        } else {
            assert(pairs_view(outs@) =~= pbefore + Seq::<(Seq<char>, Seq<char>)>::empty());
        }
        assert(pairs_view(outs@) =~= p0 + outstanding_of(mv, duty_mode, policy_id@, iv, ers@.subrange(0, i + 1)));
        i = i + 1;
    }
    assert(ers@.subrange(0, ers@.len() as int) =~= ers@);
}

fn unmentioned_part(policy_id: &str, idx: &Vec<(ExpectedRuleKind, String, DetailedRuleReport)>, ers: &Vec<ExpectedRuleReport>, out: &mut Vec<String>)
    ensures
        strings_view(final(out)@) == strings_view(old(out)@) + unmentioned_mismatches(policy_id@, index_view(idx@), ers@),
{
    let ghost iv = index_view(idx@);
    let ghost o0 = strings_view(out@);
    let mut i: usize = 0;
    assert(iv.subrange(0, 0) =~= ReportIndex::empty());
    assert(strings_view(out@) =~= o0 + Seq::<Seq<char>>::empty());
    while i < idx.len()
        invariant
            i <= idx@.len(),
            iv == index_view(idx@),
            strings_view(out@) == o0 + unmentioned_mismatches(policy_id@, iv.subrange(0, i as int), ers@),
        decreases idx.len() - i,
    {
        assert(iv.subrange(0, i + 1).drop_last() =~= iv.subrange(0, i as int));
        assert(iv.subrange(0, i + 1).last() == iv[i as int]);
        let ghost before = strings_view(out@);
        let entry = &idx[i];
        if !is_mentioned(ers, entry.0, entry.1.as_str()) {
            let t = report_string(entry.2);
            let msg = push_str(push_str(push_str(push_str(push_str(owned("policy '"), policy_id), "': engine produced a "),
                kind_name(entry.0)), " report for rule '"), entry.1.as_str());
            let msg = push_str(push_str(msg, "' that the expected outcome never mentions: "), t.as_str());
            out.push(msg);
            assert(strings_view(out@) =~= before.push(msg@));
        } else {
            assert(strings_view(out@) =~= before + Seq::<Seq<char>>::empty());
        }
        i = i + 1;
    }
    assert(iv.subrange(0, idx@.len() as int) =~= iv);
}

/// The plain values of `(policy id, action)` pairs.
pub open spec fn pairs_view(v: Seq<(String, String)>) -> Seq<(Seq<char>, Seq<char>)> {
    Seq::new(v.len(), |i: int| (v[i].0@, v[i].1@))
}

fn policy_part(m: &PolicyIds, duty_mode: DutyMode, e: &ExpectedPolicyReport, detailed: &DetailedEvaluation,
    out: &mut Vec<String>, outs: &mut Vec<(String, String)>)
    ensures
        strings_view(final(out)@) == strings_view(old(out)@) + policy_mismatches(merged_view(*m), duty_mode, *e, *detailed).0,
        pairs_view(final(outs)@) == pairs_view(old(outs)@) + policy_mismatches(merged_view(*m), duty_mode, *e, *detailed).1,
{
    let ghost o0 = strings_view(out@);
    let ghost p0 = pairs_view(outs@);
    let pid = e.policy_id.as_str();
    match report_position(&detailed.policy_reports, pid) {
        None => {
            let msg = push_str(push_str(owned("expected report:PolicyReport for policy '"), pid),
                "' but the engine produced no DetailedPolicyReport for it (skipped by party-role scoping, or a request-level error?)");
            out.push(msg);
            assert(strings_view(out@) =~= o0.push(msg@));
            assert(pairs_view(outs@) =~= p0 + Seq::<(Seq<char>, Seq<char>)>::empty());
        },
        Some(j) => {
            let ap = &detailed.policy_reports[j];
            match &ap.evaluation_error {
                Some(err) => {
                    let msg = push_str(push_str(push_str(push_str(owned("policy '"), pid),
                        "': the engine refused to evaluate this policy at all (Decision::Error: "), err.as_str()),
                        ") -- no report: tree can describe that, so the fixture's expectations for it cannot hold");
                    out.push(msg);
                    assert(strings_view(out@) =~= o0.push(msg@));
                },
                None => {
                    assert(strings_view(out@) =~= o0 + Seq::<Seq<char>>::empty());
                },
            }
            let ghost o1 = strings_view(out@);
            let idx = build_index(m, pid, &ap.rule_reports, out);
            let ghost o2 = strings_view(out@);
            expected_part(m, duty_mode, pid, &idx, &e.rule_reports, out, outs);
            let ghost o3 = strings_view(out@);
            unmentioned_part(pid, &idx, &e.rule_reports, out);
            proof {
                let pm = policy_mismatches(merged_view(*m), duty_mode, *e, *detailed);
                assert(strings_view(out@) =~= o0 + pm.0);
            }
        },
    }
}

// -- the whole case -------------------------------------------------------------

/// The merged id shadow of policy `id`, if it merges.
pub open spec fn merged_of(all: Seq<PolicyIds>, id: Seq<char>) -> Option<MergedV> {
    match merge_of(all, id, Seq::empty()) {
        Ok((_, a, b, c)) => Some((a, b, c)),
        Err(_) => None,
    }
}

/// The error of the first expected policy whose inheritance does not
/// merge, naming that policy.
pub open spec fn first_merge_error(all: Seq<PolicyIds>, exps: Seq<ExpectedPolicyReport>) -> Option<Seq<char>>
    decreases exps.len(),
{
    if exps.len() == 0 {
        None
    } else {
        match first_merge_error(all, exps.drop_last()) {
            Some(e) => Some(e),
            None => match merge_of(all, exps.last().policy_id@, Seq::empty()) {
                Err(e) => Some(exps.last().policy_id@ + ": "@ + e),
                Ok(_) => None,
            },
        }
    }
}

/// The per-rule mismatches of every expected policy, in order, and the
/// duties they say are outstanding.
pub open spec fn tree_mismatches(all: Seq<PolicyIds>, duty_mode: DutyMode, exps: Seq<ExpectedPolicyReport>, detailed: DetailedEvaluation)
    -> (Seq<Seq<char>>, Seq<(Seq<char>, Seq<char>)>)
    decreases exps.len(),
{
    if exps.len() == 0 {
        (Seq::empty(), Seq::empty())
    } else {
        let (ms, os) = tree_mismatches(all, duty_mode, exps.drop_last(), detailed);
        let pm = policy_mismatches(merged_of(all, exps.last().policy_id@)->0, duty_mode, exps.last(), detailed);
        (ms + pm.0, os + pm.1)
    }
}

/// An `Active`, `Unperformed`, terminal duty report in one of `m`'s own
/// obligation chains.
pub open spec fn owed_v(m: MergedV, r: ExpectedRuleReport) -> bool {
    &&& r.kind == ExpectedRuleKind::Duty
    &&& sview(r.activation_state) == Some("Active"@)
    &&& sview(r.performance_state) == Some("Unperformed"@)
    &&& terminal_v(m, r.rule@)
    &&& chains_find(m.2, r.rule@) is Some
}

/// The verdict an expected policy report states over the merged shadow
/// `m` (see `policy_verdict_of`).
pub open spec fn verdict_v(m: MergedV, reps: Seq<ExpectedRuleReport>, duty_mode: DutyMode, behaviour: Behaviour) -> PolicyVerdict {
    let prohibited = exists|i: int| 0 <= i < reps.len() && #[trigger] active_report(reps[i], ExpectedRuleKind::Prohibition);
    let permitted = exists|i: int| 0 <= i < reps.len() && #[trigger] active_report(reps[i], ExpectedRuleKind::Permission);
    let owed = duty_mode == DutyMode::Deny && exists|i: int| 0 <= i < reps.len() && #[trigger] owed_v(m, reps[i]);
    if prohibited || owed {
        PolicyVerdict::Deny
    } else if permitted {
        PolicyVerdict::Allow
    } else if m.0.len() == 0 {
        match behaviour {
            Behaviour::Open => PolicyVerdict::Allow,
            Behaviour::Closed => PolicyVerdict::Deny,
        }
    } else if duty_mode == DutyMode::Deny {
        PolicyVerdict::Deny
    } else {
        PolicyVerdict::Indeterminate
    }
}

/// Over a merged shadow too, an obligation denies a permitted policy only
/// through a duty report that is both `Active` and `Unperformed`; a
/// performed duty never denies.
pub proof fn only_an_active_unperformed_duty_denies_a_permitted_shadow(
    m: MergedV,
    reps: Seq<ExpectedRuleReport>,
    duty_mode: DutyMode,
    behaviour: Behaviour,
)
    requires
        forall|i: int| 0 <= i < reps.len() && (#[trigger] reps[i]).kind == ExpectedRuleKind::Prohibition
            ==> sview(reps[i].activation_state) != Some("Active"@),
        exists|i: int| 0 <= i < reps.len() && (#[trigger] reps[i]).kind == ExpectedRuleKind::Permission
            && sview(reps[i].activation_state) == Some("Active"@),
    ensures
        verdict_v(m, reps, duty_mode, behaviour) != PolicyVerdict::Indeterminate,
        verdict_v(m, reps, duty_mode, behaviour) == PolicyVerdict::Deny ==> {
            &&& duty_mode == DutyMode::Deny
            &&& exists|i: int| 0 <= i < reps.len() && (#[trigger] reps[i]).kind == ExpectedRuleKind::Duty
                && sview(reps[i].activation_state) == Some("Active"@)
                && sview(reps[i].performance_state) == Some("Unperformed"@)
        },
        (forall|i: int| 0 <= i < reps.len() && (#[trigger] reps[i]).kind == ExpectedRuleKind::Duty
            && sview(reps[i].activation_state) == Some("Active"@)
            ==> sview(reps[i].performance_state) != Some("Unperformed"@))
            ==> verdict_v(m, reps, duty_mode, behaviour) == PolicyVerdict::Allow,
{
    let w = choose|i: int| 0 <= i < reps.len() && (#[trigger] reps[i]).kind == ExpectedRuleKind::Permission
        && sview(reps[i].activation_state) == Some("Active"@);
    assert(active_report(reps[w], ExpectedRuleKind::Permission));
    assert forall|i: int| 0 <= i < reps.len() implies !#[trigger] active_report(reps[i], ExpectedRuleKind::Prohibition) by {
        if reps[i].kind == ExpectedRuleKind::Prohibition {
            assert(sview(reps[i].activation_state) != Some("Active"@));
        }
    }
    if duty_mode == DutyMode::Deny && exists|i: int| 0 <= i < reps.len() && #[trigger] owed_v(m, reps[i]) {
        let k = choose|i: int| 0 <= i < reps.len() && #[trigger] owed_v(m, reps[i]);
        assert(reps[k].kind == ExpectedRuleKind::Duty);
    }
}

/// The verdict of every expected policy, in order.
pub open spec fn verdicts_of(all: Seq<PolicyIds>, exps: Seq<ExpectedPolicyReport>, duty_mode: DutyMode, behaviour: Behaviour) -> Seq<PolicyVerdict> {
    Seq::new(exps.len(), |i: int| verdict_v(merged_of(all, exps[i].policy_id@)->0, exps[i].rule_reports@, duty_mode, behaviour))
}

/// Whether some expected policy report is about `policy_id`.
pub open spec fn expected_for(exps: Seq<ExpectedPolicyReport>, policy_id: Seq<char>) -> bool {
    exists|i: int| 0 <= i < exps.len() && (#[trigger] exps[i]).policy_id@ == policy_id
}

/// One mismatch per policy the engine evaluated that no expected report
/// accounts for.
pub open spec fn unaccounted_mismatches(reports: Seq<DetailedPolicyReport>, exps: Seq<ExpectedPolicyReport>) -> Seq<Seq<char>>
    decreases reports.len(),
{
    if reports.len() == 0 {
        Seq::empty()
    } else {
        unaccounted_mismatches(reports.drop_last(), exps) + if expected_for(exps, reports.last().policy_id@) {
            Seq::empty()
        } else {
            seq!["the engine evaluated policy '"@ + reports.last().policy_id@ + "' but the expected outcome carries no report:PolicyReport for it -- every policy in dsc:policy must be accounted for, since any one of them can decide the whole request"@]
        }
    }
}

/// One mismatch per policy the engine skipped.
pub open spec fn skipped_mismatches(skipped: Seq<SkippedPolicy>) -> Seq<Seq<char>>
    decreases skipped.len(),
{
    if skipped.len() == 0 {
        Seq::empty()
    } else {
        skipped_mismatches(skipped.drop_last()) + seq!["the engine skipped policy '"@ + skipped.last().policy_id@ + "' before evaluating it ("@ + skipped.last().reason@ + ") -- the report: vocabulary has no term for a policy addressed to somebody else, so this fixture cannot be stating what it means to state"@]
    }
}

/// The decision the verdicts pin under deny-override across the set, if
/// they pin one.
pub open spec fn pinned_decision(vs: Seq<PolicyVerdict>) -> Option<WireDecision> {
    if vs.contains(PolicyVerdict::Deny) {
        Some(WireDecision::Deny)
    } else if forall|i: int| 0 <= i < vs.len() ==> vs[i] == PolicyVerdict::Allow {
        Some(WireDecision::Allow)
    } else {
        None
    }
}

/// `Debug` of a list of verdicts.
pub open spec fn verdicts_text(vs: Seq<PolicyVerdict>) -> Seq<char> {
    "["@ + join_sep(vs.map_values(|v: PolicyVerdict| verdict_text(v)), ", "@) + "]"@
}

/// The coarse-decision mismatch, when every policy is accounted for and
/// the verdicts pin a decision the response does not give.
pub open spec fn decision_mismatches(accounted: bool, vs: Seq<PolicyVerdict>, actual: WireDecision) -> Seq<Seq<char>> {
    if accounted {
        match pinned_decision(vs) {
            Some(d) => if d != actual {
                seq!["Response.decision cross-check: the expected report: tree implies "@ + decision_text(d) + " (per-policy verdicts "@ + verdicts_text(vs) + ") but the engine's coarse Response.decision is "@ + decision_text(actual) + " -- the detailed and coarse paths disagree, or the fixture's tree is wrong about which rules are Active"@]
            } else { Seq::empty() },
            None => Seq::empty(),
        }
    } else {
        Seq::empty()
    }
}

/// Lexicographic order of `(policy id, action)` pairs.
pub open spec fn pair_lt(a: (Seq<char>, Seq<char>), b: (Seq<char>, Seq<char>)) -> bool {
    lex_lt(a.0, b.0) || (a.0 == b.0 && lex_lt(a.1, b.1))
}

/// `x` inserted into `s` before the first element not less than it.
pub open spec fn insert_sorted(s: Seq<(Seq<char>, Seq<char>)>, x: (Seq<char>, Seq<char>)) -> Seq<(Seq<char>, Seq<char>)>
    decreases s.len(),
{
    if s.len() == 0 {
        seq![x]
    } else if !pair_lt(s[0], x) {
        seq![x] + s
    } else {
        seq![s[0]] + insert_sorted(s.drop_first(), x)
    }
}

/// The pairs `s` in ascending order.
pub open spec fn sort_pairs(s: Seq<(Seq<char>, Seq<char>)>) -> Seq<(Seq<char>, Seq<char>)>
    decreases s.len(),
{
    if s.len() == 0 { Seq::empty() } else { insert_sorted(sort_pairs(s.drop_last()), s.last()) }
}

/// Whether `s` is in ascending order.
pub open spec fn pairs_ascending(s: Seq<(Seq<char>, Seq<char>)>) -> bool {
    forall|i: int, j: int| 0 <= i < j < s.len() ==> !pair_lt(#[trigger] s[j], #[trigger] s[i])
}

proof fn lemma_pair_lt_order(a: (Seq<char>, Seq<char>), b: (Seq<char>, Seq<char>), c: (Seq<char>, Seq<char>))
    ensures
        !pair_lt(a, a),
        pair_lt(a, b) && pair_lt(b, c) ==> pair_lt(a, c),
        a == b || pair_lt(a, b) || pair_lt(b, a),
{
    lemma_lex_lt_irreflexive(a.0);
    lemma_lex_lt_irreflexive(a.1);
    lemma_lex_lt_total(a.0, b.0);
    lemma_lex_lt_total(a.1, b.1);
    if pair_lt(a, b) && pair_lt(b, c) {
        if lex_lt(a.0, b.0) && lex_lt(b.0, c.0) {
            lemma_lex_lt_transitive(a.0, b.0, c.0);
        }
        if a.0 == b.0 && b.0 == c.0 && lex_lt(a.1, b.1) && lex_lt(b.1, c.1) {
            lemma_lex_lt_transitive(a.1, b.1, c.1);
        }
    }
    if a.0 == b.0 && a.1 == b.1 {
        assert(a == b);
    }
}

proof fn lemma_insert_lower_bound(s: Seq<(Seq<char>, Seq<char>)>, x: (Seq<char>, Seq<char>), lo: (Seq<char>, Seq<char>))
    requires
        forall|i: int| 0 <= i < s.len() ==> !pair_lt(#[trigger] s[i], lo),
        !pair_lt(x, lo),
    ensures
        forall|k: int| 0 <= k < insert_sorted(s, x).len() ==> !pair_lt(#[trigger] insert_sorted(s, x)[k], lo),
        insert_sorted(s, x).len() == s.len() + 1,
    decreases s.len(),
{
    if s.len() > 0 && pair_lt(s[0], x) {
        let t = s.drop_first();
        assert forall|i: int| 0 <= i < t.len() implies !pair_lt(#[trigger] t[i], lo) by {
            assert(t[i] == s[i + 1]);
        }
        lemma_insert_lower_bound(t, x, lo);
        let r = insert_sorted(s, x);
        assert forall|k: int| 0 <= k < r.len() implies !pair_lt(#[trigger] r[k], lo) by {
            if k > 0 {
                assert(r[k] == insert_sorted(t, x)[k - 1]);
            }
        }
    }
}

proof fn lemma_insert_sorted(s: Seq<(Seq<char>, Seq<char>)>, x: (Seq<char>, Seq<char>))
    requires
        pairs_ascending(s),
    ensures
        pairs_ascending(insert_sorted(s, x)),
        insert_sorted(s, x).to_multiset() == s.to_multiset().insert(x),
    decreases s.len(),
{
    broadcast use vstd::seq_lib::group_to_multiset_ensures;
    if s.len() == 0 {
        assert(insert_sorted(s, x) =~= Seq::<(Seq<char>, Seq<char>)>::empty().push(x));
    } else if !pair_lt(s[0], x) {
        let r = insert_sorted(s, x);
        assert forall|i: int, j: int| 0 <= i < j < r.len() implies !pair_lt(#[trigger] r[j], #[trigger] r[i]) by {
            if i == 0 {
                assert(r[j] == s[j - 1]);
                lemma_pair_lt_order(s[j - 1], s[0], x);
                lemma_pair_lt_order(s[0], x, s[0]);
                if j - 1 > 0 {
                    assert(!pair_lt(s[j - 1], s[0]));
                }
                if pair_lt(s[j - 1], x) {
                    lemma_pair_lt_order(s[j - 1], x, s[0]);
                    lemma_pair_lt_order(x, s[0], s[0]);
                    if x != s[0] && pair_lt(x, s[0]) {
                        lemma_pair_lt_order(s[j - 1], x, s[0]);
                    }
                }
            } else {
                assert(r[i] == s[i - 1] && r[j] == s[j - 1]);
            }
        }
        vstd::seq_lib::lemma_multiset_commutative(seq![x], s);
        assert(seq![x].to_multiset() =~= Seq::<(Seq<char>, Seq<char>)>::empty().push(x).to_multiset());
        assert(Seq::<(Seq<char>, Seq<char>)>::empty().to_multiset() =~= Multiset::empty());
    } else {
        let t = s.drop_first();
        assert forall|i: int, j: int| 0 <= i < j < t.len() implies !pair_lt(#[trigger] t[j], #[trigger] t[i]) by {
            assert(t[i] == s[i + 1] && t[j] == s[j + 1]);
        }
        lemma_insert_sorted(t, x);
        let rt = insert_sorted(t, x);
        assert forall|i: int| 0 <= i < t.len() implies !pair_lt(#[trigger] t[i], s[0]) by {
            assert(t[i] == s[i + 1]);
        }
        lemma_pair_lt_order(s[0], x, s[0]);
        lemma_pair_lt_order(x, s[0], x);
        if pair_lt(x, s[0]) {
            lemma_pair_lt_order(s[0], x, s[0]);
        }
        lemma_insert_lower_bound(t, x, s[0]);
        let r = insert_sorted(s, x);
        assert forall|i: int, j: int| 0 <= i < j < r.len() implies !pair_lt(#[trigger] r[j], #[trigger] r[i]) by {
            if i == 0 {
                assert(r[j] == rt[j - 1]);
            } else {
                assert(r[i] == rt[i - 1] && r[j] == rt[j - 1]);
            }
        }
        vstd::seq_lib::lemma_multiset_commutative(seq![s[0]], rt);
        vstd::seq_lib::lemma_multiset_commutative(seq![s[0]], t);
        assert(seq![s[0]] + t =~= s);
        assert(seq![s[0]].to_multiset() =~= Seq::<(Seq<char>, Seq<char>)>::empty().push(s[0]).to_multiset());
        assert(Seq::<(Seq<char>, Seq<char>)>::empty().to_multiset() =~= Multiset::empty());
        assert(r.to_multiset() =~= s.to_multiset().insert(x));
    }
}

/// `sort_pairs` gives its input in ascending order, as a permutation: the
/// one order std's sort gives for this total order.
pub proof fn sorted_pairs_ascend_and_permute(s: Seq<(Seq<char>, Seq<char>)>)
    ensures
        pairs_ascending(sort_pairs(s)),
        sort_pairs(s).to_multiset() == s.to_multiset(),
    decreases s.len(),
{
    broadcast use vstd::seq_lib::group_to_multiset_ensures;
    if s.len() == 0 {
        assert(s.to_multiset() =~= Multiset::empty());
        assert(Seq::<(Seq<char>, Seq<char>)>::empty().to_multiset() =~= Multiset::empty());
    } else {
        sorted_pairs_ascend_and_permute(s.drop_last());
        lemma_insert_sorted(sort_pairs(s.drop_last()), s.last());
        assert(s.drop_last().push(s.last()) =~= s);
    }
}

/// `Debug` of a list of string pairs.
pub open spec fn pairs_text(ps: Seq<(Seq<char>, Seq<char>)>) -> Seq<char> {
    "["@ + join_sep(ps.map_values(|p: (Seq<char>, Seq<char>)| pair_text(p)), ", "@) + "]"@
}

/// `Debug` of a string pair.
pub open spec fn pair_text(p: (Seq<char>, Seq<char>)) -> Seq<char> {
    "("@ + debug_str(p.0) + ", "@ + debug_str(p.1) + ")"@
}

/// The duties the coarse response lists, as pairs.
pub open spec fn response_duties(resp: CaseResponse) -> Seq<(Seq<char>, Seq<char>)> {
    Seq::new(resp.duties@.len(), |i: int| (resp.duties@[i].policy_id@, resp.duties@[i].action@))
}

/// The coarse-duties mismatch, when the sorted lists differ.
pub open spec fn duties_mismatches(expected: Seq<(Seq<char>, Seq<char>)>, actual: Seq<(Seq<char>, Seq<char>)>) -> Seq<Seq<char>> {
    let es = sort_pairs(expected);
    let acts = sort_pairs(actual);
    if es != acts {
        seq!["Response.duties cross-check: expected outstanding (policy_id, action) pairs "@ + pairs_text(es) + " but Response.duties actually contains "@ + pairs_text(acts) + " -- every report:DutyReport that is Active+Unperformed in the expected tree must appear in the coarse Response.duties list, and nothing else should"@]
    } else {
        Seq::empty()
    }
}

/// Everything wrong with one case, in order: the per-rule tree of each
/// expected policy, policies the expected tree does not account for, the
/// coarse decision, and the coarse duties; or the error of the first
/// expected policy whose inheritance does not merge.
pub open spec fn case_mismatches(all: Seq<PolicyIds>, exps: Seq<ExpectedPolicyReport>, duty_mode: DutyMode, behaviour: Behaviour,
    detailed: DetailedEvaluation, resp: CaseResponse) -> Result<Seq<Seq<char>>, Seq<char>>
{
    match first_merge_error(all, exps) {
        Some(e) => Err(e),
        None => {
            let (tree, outstanding) = tree_mismatches(all, duty_mode, exps, detailed);
            let coverage = unaccounted_mismatches(detailed.policy_reports@, exps) + skipped_mismatches(detailed.skipped_policies@);
            let vs = verdicts_of(all, exps, duty_mode, behaviour);
            Ok(tree + coverage + decision_mismatches(coverage.len() == 0, vs, resp.decision)
                + duties_mismatches(outstanding, response_duties(resp)))
        },
    }
}

/// The verdict of a merged shadow depends on its plain values alone.
pub proof fn lemma_verdict_view(m: PolicyIds, reps: Seq<ExpectedRuleReport>, duty_mode: DutyMode, behaviour: Behaviour)
    ensures
        policy_verdict_of(m, reps, duty_mode, behaviour) == verdict_v(merged_view(m), reps, duty_mode, behaviour),
{
    let mv = merged_view(m);
    assert forall|i: int| 0 <= i < reps.len() implies outstanding_obligation(m, reps[i]) == owed_v(mv, reps[i]) by {
        assert(find_of(m, reps[i].rule@) == find_v(mv, reps[i].rule@));
    }
    assert(m.permissions@.len() == mv.0.len());
}

/// `x` goes in at the first position whose element is not less than it.
pub proof fn lemma_insert_at(s: Seq<(Seq<char>, Seq<char>)>, x: (Seq<char>, Seq<char>), p: int)
    requires
        0 <= p <= s.len(),
        forall|j: int| 0 <= j < p ==> pair_lt(#[trigger] s[j], x),
        p < s.len() ==> !pair_lt(s[p], x),
    ensures
        insert_sorted(s, x) == s.subrange(0, p) + seq![x] + s.subrange(p, s.len() as int),
    decreases s.len(),
{
    if s.len() == 0 {
        assert(s.subrange(0, p) + seq![x] + s.subrange(p, s.len() as int) =~= seq![x]);
    } else if p == 0 {
        assert(s.subrange(0, p) + seq![x] + s.subrange(p, s.len() as int) =~= seq![x] + s);
    } else {
        let t = s.drop_first();
        assert forall|j: int| 0 <= j < p - 1 implies pair_lt(#[trigger] t[j], x) by {
            assert(t[j] == s[j + 1]);
        }
        if p - 1 < t.len() {
            assert(t[p - 1] == s[p]);
        }
        assert(pair_lt(s[0], x));
        lemma_insert_at(t, x, p - 1);
        assert(seq![s[0]] + (t.subrange(0, p - 1) + seq![x] + t.subrange(p - 1, t.len() as int))
            =~= s.subrange(0, p) + seq![x] + s.subrange(p, s.len() as int));
    }
}

fn pair_less(a: &(String, String), b: &(String, String)) -> (r: bool)
    ensures
        r == pair_lt((a.0@, a.1@), (b.0@, b.1@)),
{
    str_lt(a.0.as_str(), b.0.as_str()) || (str_eq(a.0.as_str(), b.0.as_str()) && str_lt(a.1.as_str(), b.1.as_str()))
}

fn insert_pair(v: &mut Vec<(String, String)>, x: (String, String))
    ensures
        pairs_view(final(v)@) == insert_sorted(pairs_view(old(v)@), (x.0@, x.1@)),
{
    let ghost pv = pairs_view(v@);
    let ghost xv = (x.0@, x.1@);
    let mut p: usize = 0;
    let mut done = false;
    while !done && p < v.len()
        invariant
            p <= v@.len(),
            pv == pairs_view(v@),
            xv == (x.0@, x.1@),
            forall|j: int| 0 <= j < p ==> pair_lt(#[trigger] pv[j], xv),
            done ==> p < v@.len() && !pair_lt(pv[p as int], xv),
        decreases v@.len() - p + if done { 0int } else { 1int },
    {
        assert(pv[p as int] == (v@[p as int].0@, v@[p as int].1@));
        if pair_less(&v[p], &x) {
            p = p + 1;
        } else {
            done = true;
        }
    }
    proof { lemma_insert_at(pv, xv, p as int); }
    v.insert(p, x);
    assert(pairs_view(v@) =~= pv.subrange(0, p as int) + seq![xv] + pv.subrange(p as int, pv.len() as int));
}

fn sorted_pairs(v: Vec<(String, String)>) -> (r: Vec<(String, String)>)
    ensures
        pairs_view(r@) == sort_pairs(pairs_view(v@)),
{
    let ghost pv = pairs_view(v@);
    let mut rest = v;
    let mut out: Vec<(String, String)> = Vec::new();
    let mut i: usize = 0;
    let ghost n = pv.len();
    assert(pairs_view(out@) =~= sort_pairs(pv.subrange(0, 0)));
    assert(pairs_view(rest@) =~= pv.subrange(0, n as int));
    let len0 = rest.len();
    assert(pv.len() == len0);
    while rest.len() > 0
        invariant
            n == pv.len(),
            n <= usize::MAX,
            i + rest@.len() == n,
            pairs_view(rest@) == pv.subrange(i as int, n as int),
            pairs_view(out@) == sort_pairs(pv.subrange(0, i as int)),
        decreases rest.len(),
    {
        let ghost old_rest = rest@;
        let x = rest.remove(0);
        assert(pairs_view(old_rest)[0] == (x.0@, x.1@));
        assert(pv[i as int] == (x.0@, x.1@)) by {
            assert(pv.subrange(i as int, n as int)[0] == pv[i as int]);
        }
        assert(rest@ =~= old_rest.subrange(1, old_rest.len() as int));
        assert forall|j: int| 0 <= j < rest@.len() implies #[trigger] pairs_view(rest@)[j] == pv.subrange(i + 1, n as int)[j] by {
            assert(rest@[j] == old_rest[j + 1]);
            assert(pairs_view(old_rest)[j + 1] == pv.subrange(i as int, n as int)[j + 1]);
        }
        assert(pairs_view(rest@) =~= pv.subrange(i + 1, n as int));
        assert(pv.subrange(0, i + 1).drop_last() =~= pv.subrange(0, i as int));
        insert_pair(&mut out, x);
        i = i + 1;
    }
    assert(pv.subrange(0, n as int) =~= pv);
    out
}

fn same_pairs(a: &Vec<(String, String)>, b: &Vec<(String, String)>) -> (r: bool)
    ensures
        r == (pairs_view(a@) == pairs_view(b@)),
{
    if a.len() != b.len() {
        assert(pairs_view(a@).len() != pairs_view(b@).len());
        return false;
    }
    let mut i: usize = 0;
    while i < a.len()
        invariant
            i <= a@.len(),
            a@.len() == b@.len(),
            forall|j: int| 0 <= j < i ==> pairs_view(a@)[j] == pairs_view(b@)[j],
        decreases a.len() - i,
    {
        if !str_eq(a[i].0.as_str(), b[i].0.as_str()) || !str_eq(a[i].1.as_str(), b[i].1.as_str()) {
            assert(pairs_view(a@)[i as int] != pairs_view(b@)[i as int]);
            return false;
        }
        i = i + 1;
    }
    assert(pairs_view(a@) =~= pairs_view(b@));
    true
}

fn join_comma(parts: &Vec<String>) -> (r: String)
    ensures
        r@ == join_sep(strings_view(parts@), ", "@),
{
    let ghost pv = strings_view(parts@);
    let mut body = String::new();
    let mut i: usize = 0;
    assert(pv.subrange(0, 0) =~= Seq::<Seq<char>>::empty());
    assert(body@ =~= Seq::<char>::empty());
    while i < parts.len()
        invariant
            i <= parts@.len(),
            pv == strings_view(parts@),
            body@ == join_sep(pv.subrange(0, i as int), ", "@),
        decreases parts.len() - i,
    {
        assert(pv.subrange(0, i + 1).drop_last() =~= pv.subrange(0, i as int));
        if i == 0 {
            body = owned(parts[i].as_str());
            assert(pv.subrange(0, 1) =~= seq![pv[0]]);
        } else {
            body = concat2(concat2(body.as_str(), ", ").as_str(), parts[i].as_str());
        }
        i = i + 1;
    }
    assert(pv.subrange(0, pv.len() as int) =~= pv);
    body
}

fn verdicts_string(vs: &Vec<PolicyVerdict>) -> (r: String)
    ensures
        r@ == verdicts_text(vs@),
{
    let mut names: Vec<String> = Vec::new();
    let mut i: usize = 0;
    while i < vs.len()
        invariant
            i <= vs@.len(),
            names@.len() == i,
            forall|j: int| 0 <= j < i ==> (#[trigger] names@[j])@ == verdict_text(vs@[j]),
        decreases vs.len() - i,
    {
        names.push(owned(verdict_name(vs[i])));
        i = i + 1;
    }
    assert(strings_view(names@) =~= vs@.map_values(|v: PolicyVerdict| verdict_text(v)));
    let body = join_comma(&names);
    push_str(push_str(owned("["), body.as_str()), "]")
}

fn pairs_string(ps: &Vec<(String, String)>) -> (r: String)
    ensures
        r@ == pairs_text(pairs_view(ps@)),
{
    let mut items: Vec<String> = Vec::new();
    let mut i: usize = 0;
    while i < ps.len()
        invariant
            i <= ps@.len(),
            items@.len() == i,
            forall|j: int| 0 <= j < i ==> (#[trigger] items@[j])@ == pair_text(pairs_view(ps@)[j]),
        decreases ps.len() - i,
    {
        let a = debug_quoted(ps[i].0.as_str());
        let b = debug_quoted(ps[i].1.as_str());
        let item = push_str(push_str(push_str(push_str(owned("("), a.as_str()), ", "), b.as_str()), ")");
        assert(pairs_view(ps@)[i as int] == (ps@[i as int].0@, ps@[i as int].1@));
        assert(item@ == pair_text(pairs_view(ps@)[i as int]));
        let ghost before = items@;
        items.push(item);
        assert forall|j: int| 0 <= j < i + 1 implies (#[trigger] items@[j])@ == pair_text(pairs_view(ps@)[j]) by {
            if j < i { assert(items@[j] == before[j]); }
        }
        i = i + 1;
    }
    assert(strings_view(items@) =~= pairs_view(ps@).map_values(|p: (Seq<char>, Seq<char>)| pair_text(p)));
    let body = join_comma(&items);
    push_str(push_str(owned("["), body.as_str()), "]")
}

/// `first_merge_error` keeps the first error of a prefix.
pub proof fn lemma_first_error_extends(all: Seq<PolicyIds>, exps: Seq<ExpectedPolicyReport>, i: int)
    requires
        0 <= i <= exps.len(),
        first_merge_error(all, exps.subrange(0, i)) is Some,
    ensures
        first_merge_error(all, exps) == first_merge_error(all, exps.subrange(0, i)),
    decreases exps.len() - i,
{
    if i < exps.len() {
        assert(exps.subrange(0, i + 1).drop_last() =~= exps.subrange(0, i));
        lemma_first_error_extends(all, exps, i + 1);
    } else {
        assert(exps.subrange(0, i) =~= exps);
    }
}

/// Compares one case's engine evaluation and coarse response against its
/// expected report tree, returning every mismatch found (none means the
/// case passed), or the error of the first expected policy whose
/// inheritance does not merge.
pub fn compare_case(
    policy_ids: &[PolicyIds],
    expected: &[ExpectedPolicyReport],
    duty_mode: DutyMode,
    behaviour: Behaviour,
    detailed: &DetailedEvaluation,
    response: &CaseResponse,
) -> (r: Result<Vec<String>, String>)
    ensures
        match case_mismatches(policy_ids@, expected@, duty_mode, behaviour, *detailed, *response) {
            Ok(ms) => r is Ok && strings_view(r->Ok_0@) == ms,
            Err(e) => r is Err && r->Err_0@ == e,
        },
{
    let ghost all = policy_ids@;
    let ghost exps = expected@;
    let mut out: Vec<String> = Vec::new();
    let mut outstanding: Vec<(String, String)> = Vec::new();
    let mut verdicts: Vec<PolicyVerdict> = Vec::new();
    let mut i: usize = 0;
    assert(exps.subrange(0, 0) =~= Seq::<ExpectedPolicyReport>::empty());
    assert(strings_view(out@) =~= Seq::<Seq<char>>::empty());
    assert(pairs_view(outstanding@) =~= Seq::<(Seq<char>, Seq<char>)>::empty());
    while i < expected.len()
        invariant
            i <= exps.len(),
            all == policy_ids@,
            exps == expected@,
            first_merge_error(all, exps.subrange(0, i as int)) is None,
            strings_view(out@) == tree_mismatches(all, duty_mode, exps.subrange(0, i as int), *detailed).0,
            pairs_view(outstanding@) == tree_mismatches(all, duty_mode, exps.subrange(0, i as int), *detailed).1,
            verdicts@ == verdicts_of(all, exps.subrange(0, i as int), duty_mode, behaviour),
        decreases expected.len() - i,
    {
        let e = &expected[i];
        let ghost pre = exps.subrange(0, i as int);
        let ghost next = exps.subrange(0, i + 1);
        assert(next.drop_last() =~= pre);
        assert(next.last() == *e);
        match merged_policy_ids(policy_ids, e.policy_id.as_str()) {
            Err(err) => {
                let msg = concat2(concat2(e.policy_id.as_str(), ": ").as_str(), err.as_str());
                proof {
                    assert(first_merge_error(all, next) == Some(e.policy_id@ + ": "@ + err@));
                    lemma_first_error_extends(all, exps, i + 1);
                }
                return Err(msg);
            },
            Ok(m) => {
                let ghost t0 = tree_mismatches(all, duty_mode, pre, *detailed);
                let ghost o0 = strings_view(out@);
                let ghost p0 = pairs_view(outstanding@);
                assert(merged_view(m) == merged_of(all, e.policy_id@)->0);
                policy_part(&m, duty_mode, e, detailed, &mut out, &mut outstanding);
                let v = policy_verdict(&m, e, duty_mode, behaviour);
                proof { lemma_verdict_view(m, e.rule_reports@, duty_mode, behaviour); }
                verdicts.push(v);
                assert(verdicts@ =~= verdicts_of(all, next, duty_mode, behaviour));
            },
        }
        i = i + 1;
    }
    assert(exps.subrange(0, exps.len() as int) =~= exps);
    let ghost tree = strings_view(out@);
    let tree_len = out.len();
    // Policies the expected tree does not account for.
    let mut j: usize = 0;
    let ghost reports = detailed.policy_reports@;
    assert(reports.subrange(0, 0) =~= Seq::<DetailedPolicyReport>::empty());
    assert(strings_view(out@) =~= tree + Seq::<Seq<char>>::empty());
    while j < detailed.policy_reports.len()
        invariant
            j <= reports.len(),
            reports == detailed.policy_reports@,
            exps == expected@,
            strings_view(out@) == tree + unaccounted_mismatches(reports.subrange(0, j as int), exps),
        decreases detailed.policy_reports.len() - j,
    {
        let ap = &detailed.policy_reports[j];
        assert(reports.subrange(0, j + 1).drop_last() =~= reports.subrange(0, j as int));
        let ghost before = strings_view(out@);
        let mut k: usize = 0;
        let mut found = false;
        while k < expected.len()
            invariant
                k <= exps.len(),
                exps == expected@,
                found == exists|x: int| 0 <= x < k && (#[trigger] exps[x]).policy_id@ == ap.policy_id@,
            decreases expected.len() - k,
        {
            if str_eq(expected[k].policy_id.as_str(), ap.policy_id.as_str()) {
                found = true;
            }
            k = k + 1;
        }
        if !found {
            let msg = push_str(push_str(owned("the engine evaluated policy '"), ap.policy_id.as_str()),
                "' but the expected outcome carries no report:PolicyReport for it -- every policy in dsc:policy must be accounted for, since any one of them can decide the whole request");
            out.push(msg);
            assert(strings_view(out@) =~= before.push(msg@));
        } else {
            assert(strings_view(out@) =~= before + Seq::<Seq<char>>::empty());
        }
        assert(strings_view(out@) =~= tree + unaccounted_mismatches(reports.subrange(0, j + 1), exps));
        j = j + 1;
    }
    assert(reports.subrange(0, reports.len() as int) =~= reports);
    let ghost unacc = strings_view(out@);
    let ghost skipped = detailed.skipped_policies@;
    let mut j: usize = 0;
    assert(skipped.subrange(0, 0) =~= Seq::<SkippedPolicy>::empty());
    assert(strings_view(out@) =~= unacc + Seq::<Seq<char>>::empty());
    while j < detailed.skipped_policies.len()
        invariant
            j <= skipped.len(),
            skipped == detailed.skipped_policies@,
            strings_view(out@) == unacc + skipped_mismatches(skipped.subrange(0, j as int)),
        decreases detailed.skipped_policies.len() - j,
    {
        let sp = &detailed.skipped_policies[j];
        assert(skipped.subrange(0, j + 1).drop_last() =~= skipped.subrange(0, j as int));
        let ghost before = strings_view(out@);
        let msg = push_str(push_str(push_str(push_str(owned("the engine skipped policy '"), sp.policy_id.as_str()),
            "' before evaluating it ("), sp.reason.as_str()),
            ") -- the report: vocabulary has no term for a policy addressed to somebody else, so this fixture cannot be stating what it means to state");
        out.push(msg);
        assert(strings_view(out@) =~= before.push(msg@));
        j = j + 1;
    }
    assert(skipped.subrange(0, skipped.len() as int) =~= skipped);
    let ghost coverage = unaccounted_mismatches(reports, exps) + skipped_mismatches(skipped);
    assert(strings_view(out@) =~= tree + coverage);
    let accounted = out.len() == tree_len;
    assert(accounted == (coverage.len() == 0));
    // The coarse decision.
    let ghost before = strings_view(out@);
    if accounted {
        let mut any_deny = false;
        let mut all_allow = true;
        let mut k: usize = 0;
        while k < verdicts.len()
            invariant
                k <= verdicts@.len(),
                any_deny == exists|x: int| 0 <= x < k && verdicts@[x] == PolicyVerdict::Deny,
                all_allow == forall|x: int| 0 <= x < k ==> verdicts@[x] == PolicyVerdict::Allow,
            decreases verdicts.len() - k,
        {
            if verdicts[k] == PolicyVerdict::Deny {
                any_deny = true;
            }
            if verdicts[k] != PolicyVerdict::Allow {
                all_allow = false;
            }
            k = k + 1;
        }
        proof {
            if any_deny {
                let x = choose|x: int| 0 <= x < verdicts@.len() && verdicts@[x] == PolicyVerdict::Deny;
                assert(verdicts@.contains(PolicyVerdict::Deny));
            }
            if verdicts@.contains(PolicyVerdict::Deny) {
                let x = choose|x: int| 0 <= x < verdicts@.len() && verdicts@[x] == PolicyVerdict::Deny;
            }
        }
        let pinned: Option<WireDecision> = if any_deny {
            Some(WireDecision::Deny)
        } else if all_allow {
            Some(WireDecision::Allow)
        } else {
            None
        };
        match pinned {
            Some(d) => {
                if d != response.decision {
                    let vt = verdicts_string(&verdicts);
                    let mut msg = owned("Response.decision cross-check: the expected report: tree implies ");
                    msg = push_str(msg, decision_name(d));
                    msg = push_str(msg, " (per-policy verdicts ");
                    msg = push_str(msg, vt.as_str());
                    msg = push_str(msg, ") but the engine's coarse Response.decision is ");
                    msg = push_str(msg, decision_name(response.decision));
                    msg = push_str(msg, " -- the detailed and coarse paths disagree, or the fixture's tree is wrong about which rules are Active");
                    out.push(msg);
                    assert(strings_view(out@) =~= before.push(msg@));
                } else {
                    assert(strings_view(out@) =~= before + Seq::<Seq<char>>::empty());
                }
            },
            None => {
                assert(strings_view(out@) =~= before + Seq::<Seq<char>>::empty());
            },
        }
    } else {
        assert(strings_view(out@) =~= before + Seq::<Seq<char>>::empty());
    }
    assert(strings_view(out@) == before + decision_mismatches(coverage.len() == 0, verdicts_of(all, exps, duty_mode, behaviour), response.decision));
    // The coarse duties.
    let ghost before4 = strings_view(out@);
    let mut actual: Vec<(String, String)> = Vec::new();
    let mut k: usize = 0;
    while k < response.duties.len()
        invariant
            k <= response.duties@.len(),
            actual@.len() == k,
            forall|x: int| 0 <= x < k ==> #[trigger] pairs_view(actual@)[x] == response_duties(*response)[x],
        decreases response.duties.len() - k,
    {
        let d = &response.duties[k];
        let ghost before = pairs_view(actual@);
        actual.push((owned(d.policy_id.as_str()), owned(d.action.as_str())));
        assert forall|x: int| 0 <= x < k + 1 implies #[trigger] pairs_view(actual@)[x] == response_duties(*response)[x] by {
            if x < k { assert(pairs_view(actual@)[x] == before[x]); }
        }
        k = k + 1;
    }
    assert(pairs_view(actual@) =~= response_duties(*response));
    let ghost ov = pairs_view(outstanding@);
    let es = sorted_pairs(outstanding);
    let acts = sorted_pairs(actual);
    if !same_pairs(&es, &acts) {
        let et = pairs_string(&es);
        let at = pairs_string(&acts);
        let mut msg = owned("Response.duties cross-check: expected outstanding (policy_id, action) pairs ");
        msg = push_str(msg, et.as_str());
        msg = push_str(msg, " but Response.duties actually contains ");
        msg = push_str(msg, at.as_str());
        msg = push_str(msg, " -- every report:DutyReport that is Active+Unperformed in the expected tree must appear in the coarse Response.duties list, and nothing else should");
        out.push(msg);
        assert(strings_view(out@) =~= before4.push(msg@));
    } else {
        assert(strings_view(out@) =~= before4 + Seq::<Seq<char>>::empty());
    }
    assert(strings_view(out@) == before4 + duties_mismatches(ov, response_duties(*response)));
    Ok(out)
}

} // verus!
