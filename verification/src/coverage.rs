//! The coverage artifact's shape: the sections of the ODRL 2.2 gap
//! analysis, one row per vocabulary claim, and what a browser must observe
//! for a probe to agree with its row. No decision an engine produced is
//! recorded here.

use vstd::prelude::*;
use vstd::string::*;
use crate::text::{owned, concat2, concat3, strings_view};

verus! {

/// Version tag for the artifact's shape.
pub const SCHEMA: &'static str = "ds-odrl-engine-rs/odrl-coverage@1";

/// What produced the artifact.
pub const GENERATED_BY: &'static str = "coverage-probes (cargo run -p coverage-probes --release)";

/// The specification the catalog measures against.
pub const SPEC: &'static str = "W3C ODRL 2.2 Vocabulary & Expression, https://www.w3.org/TR/odrl-vocab/";

/// The gap analysis the rows come from.
pub const SOURCE_ANALYSIS: &'static str =
    "docs/spikes/2026-09-05-odrl-2.2-vocabulary-gap-analysis.md (Deepthought-Solutions/dataspace)";

/// The artifact's own statement of what it does not record.
pub const NOTE: &'static str = "Each `probe` is one exact engine::wire::Request plus the outcome that would \
                        demonstrate its row's documented status. No decision this engine produced is \
                        recorded here -- the browser computes every one.";

/// The four statuses a row may document.
pub const IMPLEMENTED: &'static str = "Implemented";
pub const PARTIAL: &'static str = "Partial";
pub const NOT_IMPLEMENTED: &'static str = "NotImplemented";
pub const OUT_OF_SCOPE: &'static str = "OutOfScope";

/// One of the ten sections of the source gap analysis.
#[derive(Debug, Clone)]
pub struct Category {
    pub id: String,
    pub number: u32,
    pub title: String,
    pub spec_ref: String,
}

/// One vocabulary claim: a term, its documented status, and either the
/// probes that test it or the reason no request can.
#[derive(Debug, Clone)]
pub struct Row {
    pub id: String,
    pub category: String,
    pub term: String,
    /// `Implemented` | `Partial` | `NotImplemented` | `OutOfScope`.
    pub status: String,
    pub why: String,
    pub evidence: String,
    pub asserts: String,
    pub probe_ids: Vec<String>,
    /// Present exactly when `probe_ids` is empty.
    pub documented_because: Option<String>,
    pub caveat: Option<String>,
}

/// What must be observed for one probe to agree with its row. `None` for
/// `duties` or `dataset_id` means "not asserted".
#[derive(Debug, Clone)]
pub struct Expect {
    pub decision: String,
    pub reason_contains: Vec<String>,
    pub reason_excludes: Vec<String>,
    pub duties: Option<Vec<DutyExpect>>,
    pub dataset_id: Option<String>,
}

/// One expected duty entry.
#[derive(Debug, Clone)]
pub struct DutyExpect {
    pub policy_id: String,
    pub action: String,
    pub resolved: bool,
    /// Where in the policy the duty was attached; absent for a plain
    /// policy-level obligation.
    pub source: Option<String>,
}

/// The view of an optional string.
pub open spec fn opt_view(o: Option<String>) -> Option<Seq<char>> {
    match o {
        Some(s) => Some(s@),
        None => None,
    }
}

/// Fresh owned copies of `v`, in order.
pub fn copy_strings(v: &[String]) -> (r: Vec<String>)
    ensures
        strings_view(r@) == strings_view(v@),
{
    let mut r: Vec<String> = Vec::new();
    let mut i: usize = 0;
    while i < v.len()
        invariant
            i <= v@.len(),
            strings_view(r@) == strings_view(v@.subrange(0, i as int)),
        decreases v.len() - i,
    {
        r.push(v[i].clone());
        assert(strings_view(v@.subrange(0, i + 1)) =~= strings_view(v@.subrange(0, i as int)).push(v@[i as int]@));
        i = i + 1;
    }
    assert(v@.subrange(0, v@.len() as int) =~= v@);
    r
}

/// The views of a list of string slices.
pub open spec fn strs_view(v: Seq<&str>) -> Seq<Seq<char>> {
    v.map_values(|s: &str| s@)
}

/// Owned copies of each of `v`.
pub fn own_all(v: &[&str]) -> (r: Vec<String>)
    ensures
        strings_view(r@) == strs_view(v@),
{
    let mut r: Vec<String> = Vec::new();
    let mut i: usize = 0;
    while i < v.len()
        invariant
            i <= v@.len(),
            strings_view(r@) == strs_view(v@.subrange(0, i as int)),
        decreases v.len() - i,
    {
        r.push(owned(v[i]));
        assert(strs_view(v@.subrange(0, i + 1)) =~= strs_view(v@.subrange(0, i as int)).push(v@[i as int]@));
        i = i + 1;
    }
    assert(v@.subrange(0, v@.len() as int) =~= v@);
    r
}

/// An expectation of `decision`, whose reason must contain each of
/// `contains`; nothing excluded, no duties or dataset asserted.
pub fn expectation(decision: &str, contains: &[String]) -> (r: Expect)
    ensures
        r.decision@ == decision@,
        strings_view(r.reason_contains@) == strings_view(contains@),
        r.reason_excludes@.len() == 0,
        r.duties is None,
        r.dataset_id is None,
{
    Expect {
        decision: owned(decision),
        reason_contains: copy_strings(contains),
        reason_excludes: Vec::new(),
        duties: None,
        dataset_id: None,
    }
}

/// Allow, with a reason containing `reason`.
pub fn allow(reason: &str) -> (r: Expect)
    ensures
        r.decision@ == "Allow"@,
        strings_view(r.reason_contains@) == seq![reason@],
        r.reason_excludes@.len() == 0,
        r.duties is None,
        r.dataset_id is None,
{
    let v = vec![owned(reason)];
    let r = expectation("Allow", v.as_slice());
    assert(strings_view(v@) =~= seq![reason@]);
    r
}

/// Deny, with a reason containing `reason`.
pub fn deny(reason: &str) -> (r: Expect)
    ensures
        r.decision@ == "Deny"@,
        strings_view(r.reason_contains@) == seq![reason@],
        r.reason_excludes@.len() == 0,
        r.duties is None,
        r.dataset_id is None,
{
    let v = vec![owned(reason)];
    let r = expectation("Deny", v.as_slice());
    assert(strings_view(v@) =~= seq![reason@]);
    r
}

/// Error, with a reason containing each of `reasons`.
pub fn error(reasons: &[&str]) -> (r: Expect)
    ensures
        r.decision@ == "Error"@,
        strings_view(r.reason_contains@) == strs_view(reasons@),
        r.reason_excludes@.len() == 0,
        r.duties is None,
        r.dataset_id is None,
{
    let v = own_all(reasons);
    expectation("Error", v.as_slice())
}

impl Expect {
    /// The same expectation, whose reason must contain none of `excludes`.
    pub fn excluding(self, excludes: &[&str]) -> (r: Expect)
        ensures
            r.decision == self.decision,
            r.reason_contains == self.reason_contains,
            strings_view(r.reason_excludes@) == strs_view(excludes@),
            r.duties == self.duties,
            r.dataset_id == self.dataset_id,
    {
        let mut e = self;
        e.reason_excludes = own_all(excludes);
        e
    }

    /// The same expectation, asserting exactly `duties`.
    pub fn with_duties(self, duties: Vec<DutyExpect>) -> (r: Expect)
        ensures
            r.decision == self.decision,
            r.reason_contains == self.reason_contains,
            r.reason_excludes == self.reason_excludes,
            r.duties == Some(duties),
            r.dataset_id == self.dataset_id,
    {
        let mut e = self;
        e.duties = Some(duties);
        e
    }

    /// The same expectation, asserting the response's dataset id.
    pub fn with_dataset_id(self, dataset_id: &str) -> (r: Expect)
        ensures
            r.decision == self.decision,
            r.reason_contains == self.reason_contains,
            r.reason_excludes == self.reason_excludes,
            r.duties == self.duties,
            opt_view(r.dataset_id) == Some(dataset_id@),
    {
        let mut e = self;
        e.dataset_id = Some(owned(dataset_id));
        e
    }
}

/// An unresolved plain duty of policy `probe` on `action`.
pub fn duty(action: &str) -> (r: DutyExpect)
    ensures
        r.policy_id@ == "probe"@,
        r.action@ == action@,
        !r.resolved,
        r.source is None,
{
    DutyExpect { policy_id: owned("probe"), action: owned(action), resolved: false, source: None }
}

/// An unresolved duty of policy `probe` on `action`, attached at `source`.
pub fn attached_duty(action: &str, source: &str) -> (r: DutyExpect)
    ensures
        r.policy_id@ == "probe"@,
        r.action@ == action@,
        !r.resolved,
        opt_view(r.source) == Some(source@),
{
    DutyExpect {
        policy_id: owned("probe"),
        action: owned(action),
        resolved: false,
        source: Some(owned(source)),
    }
}

/// The reason an unconstrained `use` permission of policy `probe` allows.
/// The reason the baseline permission gives when it matches.
pub open spec fn base_allow_text() -> Seq<char> {
    "permission[0] of policy 'probe' matched: action 'use', unconstrained"@
}

/// The closed-world miss of policy `probe` on `requested_action`.
pub open spec fn closed_deny_text(requested_action: Seq<char>) -> Seq<char> {
    "no permission of policy 'probe' covered and matched requested action '"@
        + requested_action + "' (closed default)"@
}

/// The reason a matching permission gives that renders its own constraint.
pub open spec fn constrained_allow_text(rendered_constraint: Seq<char>) -> Seq<char> {
    "permission[0] of policy 'probe' matched: action 'use': "@ + rendered_constraint
}

pub fn base_allow_reason() -> (r: String)
    ensures
        r@ == base_allow_text(),
{
    owned("permission[0] of policy 'probe' matched: action 'use', unconstrained")
}

/// The closed-world miss of policy `probe` on `requested_action`.
pub fn closed_deny(requested_action: &str) -> (r: String)
    ensures
        r@ == closed_deny_text(requested_action@),
{
    concat3(
        "no permission of policy 'probe' covered and matched requested action '",
        requested_action,
        "' (closed default)",
    )
}

/// Allow, where the reason must render the permission's own constraint.
pub fn allow_constrained(rendered_constraint: &str) -> (r: Expect)
    ensures
        r.decision@ == "Allow"@,
        strings_view(r.reason_contains@) == seq![constrained_allow_text(rendered_constraint@)],
        r.reason_excludes@.len() == 0,
        r.duties is None,
        r.dataset_id is None,
{
    let reason = concat2("permission[0] of policy 'probe' matched: action 'use': ", rendered_constraint);
    allow(reason.as_str())
}

} // verus!
