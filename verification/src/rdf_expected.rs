//! A fixture's expected outcome: its `report:PolicyReport` tree, read into
//! a comparable structure, and its optional coarse `dsc:expectedDecision`.
//! States are kept as their local-name strings.

use vstd::prelude::*;
use vstd::string::*;
use crate::text::{str_eq, owned, concat2, concat3, debug_quoted, debug_str};
use crate::rdf::{Graph, Triple, objects_of, ids_of, first_literal, object_id_of, has_type_of, views};
use crate::rdf_vocab::{local_name, report_ns, dsc, RDF_REPORT_NS, DSC_NS};
use crate::suite_vocab::local_name_of;
use crate::wire::WireDecision;

verus! {

#[derive(Debug, Clone, Copy, PartialEq, Eq, Hash, Structural)]
pub enum ExpectedRuleKind {
    Permission,
    Prohibition,
    Duty,
}

/// One `report:PermissionReport`/`ProhibitionReport`/`DutyReport` node;
/// `rule` is the local name of the rule it reports on.
#[derive(Debug, PartialEq, Eq)]
pub struct ExpectedRuleReport {
    pub kind: ExpectedRuleKind,
    pub rule: String,
    pub activation_state: Option<String>,
    pub attempt_state: Option<String>,
    pub performance_state: Option<String>,
    pub deontic_state: Option<String>,
}

/// One `report:PolicyReport`; `policy_id` is the local name of its
/// `report:policy`.
#[derive(Debug, PartialEq, Eq)]
pub struct ExpectedPolicyReport {
    pub policy_id: String,
    pub rule_reports: Vec<ExpectedRuleReport>,
}

/// `report:{local}`.
pub open spec fn report_iri(local: Seq<char>) -> Seq<char> {
    RDF_REPORT_NS@ + local
}

/// The kind of a rule-report node, by its first matching report type.
pub open spec fn rule_kind_of(ts: Seq<Triple>, node: Seq<char>) -> Option<ExpectedRuleKind> {
    if has_type_of(ts, node, report_iri("PermissionReport"@)) {
        Some(ExpectedRuleKind::Permission)
    } else if has_type_of(ts, node, report_iri("ProhibitionReport"@)) {
        Some(ExpectedRuleKind::Prohibition)
    } else if has_type_of(ts, node, report_iri("DutyReport"@)) {
        Some(ExpectedRuleKind::Duty)
    } else {
        None
    }
}

/// The local name of an optional id.
pub open spec fn opt_local(o: Option<Seq<char>>) -> Option<Seq<char>> {
    match o {
        Some(id) => Some(local_name_of(id)),
        None => None,
    }
}

/// The view of an optional string.
pub open spec fn sview(o: Option<String>) -> Option<Seq<char>> {
    match o {
        Some(s) => Some(s@),
        None => None,
    }
}

/// A rule-report node reads when it has a report type and a `report:rule`.
pub open spec fn rule_report_reads(ts: Seq<Triple>, node: Seq<char>) -> bool {
    rule_kind_of(ts, node) is Some && object_id_of(ts, node, report_iri("rule"@)) is Some
}

/// Why a rule-report node does not read.
pub open spec fn rule_report_error(ts: Seq<Triple>, node: Seq<char>) -> Seq<char> {
    if rule_kind_of(ts, node) is None {
        node + ": report:ruleReport member has none of PermissionReport/ProhibitionReport/DutyReport"@
    } else {
        node + ": report:ruleReport member has no report:rule"@
    }
}

/// `r` is what the rule-report node `node` reads as.
pub open spec fn rule_report_is(r: ExpectedRuleReport, ts: Seq<Triple>, node: Seq<char>) -> bool {
    &&& Some(r.kind) == rule_kind_of(ts, node)
    &&& Some(r.rule@) == opt_local(object_id_of(ts, node, report_iri("rule"@)))
    &&& sview(r.activation_state) == opt_local(object_id_of(ts, node, report_iri("activationState"@)))
    &&& sview(r.attempt_state) == opt_local(object_id_of(ts, node, report_iri("attemptState"@)))
    &&& sview(r.performance_state) == opt_local(object_id_of(ts, node, report_iri("performanceState"@)))
    &&& sview(r.deontic_state) == opt_local(object_id_of(ts, node, report_iri("deonticState"@)))
}

fn rule_kind(g: &Graph, node: &str) -> (r: Result<ExpectedRuleKind, String>)
    ensures
        match r {
            Ok(k) => rule_kind_of(g.triples@, node@) == Some(k),
            Err(e) => rule_kind_of(g.triples@, node@) is None && e@ == rule_report_error(g.triples@, node@),
        },
{
    if g.has_type(node, report_ns("PermissionReport").as_str()) {
        Ok(ExpectedRuleKind::Permission)
    } else if g.has_type(node, report_ns("ProhibitionReport").as_str()) {
        Ok(ExpectedRuleKind::Prohibition)
    } else if g.has_type(node, report_ns("DutyReport").as_str()) {
        Ok(ExpectedRuleKind::Duty)
    } else {
        Err(concat2(node, ": report:ruleReport member has none of PermissionReport/ProhibitionReport/DutyReport"))
    }
}

/// The local name of the first node object of `node`/`predicate`.
fn local_object(g: &Graph, node: &str, predicate: &str) -> (r: Option<String>)
    ensures
        sview(r) == opt_local(object_id_of(g.triples@, node@, predicate@)),
{
    match g.object_id(node, predicate) {
        Some(id) => Some(owned(local_name(id.as_str()))),
        None => None,
    }
}

/// One rule-report node.
pub fn parse_rule_report(g: &Graph, node: &str) -> (r: Result<ExpectedRuleReport, String>)
    ensures
        match r {
            Ok(rep) => rule_report_reads(g.triples@, node@) && rule_report_is(rep, g.triples@, node@),
            Err(e) => !rule_report_reads(g.triples@, node@) && e@ == rule_report_error(g.triples@, node@),
        },
{
    let kind = match rule_kind(g, node) {
        Ok(k) => k,
        Err(e) => return Err(e),
    };
    let rule = match local_object(g, node, report_ns("rule").as_str()) {
        Some(r) => r,
        None => return Err(concat2(node, ": report:ruleReport member has no report:rule")),
    };
    Ok(ExpectedRuleReport {
        kind,
        rule,
        activation_state: local_object(g, node, report_ns("activationState").as_str()),
        attempt_state: local_object(g, node, report_ns("attemptState").as_str()),
        performance_state: local_object(g, node, report_ns("performanceState").as_str()),
        deontic_state: local_object(g, node, report_ns("deonticState").as_str()),
    })
}

/// The rule-report node ids of a policy-report node, in document order.
pub open spec fn rule_report_ids(ts: Seq<Triple>, node: Seq<char>) -> Seq<Seq<char>> {
    ids_of(objects_of(ts, node, report_iri("ruleReport"@)))
}

/// Parses one `dsc:expectedOutcome` node, a `report:PolicyReport`: its
/// policy's local name and each `report:ruleReport` member in order. The
/// error is the first failing member's, after a missing `report:policy`.
pub fn parse_expected_policy_report(g: &Graph, node: &str) -> (r: Result<ExpectedPolicyReport, String>)
    ensures
        match r {
            Ok(rep) => {
                &&& Some(rep.policy_id@) == opt_local(object_id_of(g.triples@, node@, report_iri("policy"@)))
                &&& rep.rule_reports@.len() == rule_report_ids(g.triples@, node@).len()
                &&& forall|i: int| 0 <= i < rep.rule_reports@.len() ==>
                    rule_report_is(#[trigger] rep.rule_reports@[i], g.triples@, rule_report_ids(g.triples@, node@)[i])
            },
            Err(e) => if object_id_of(g.triples@, node@, report_iri("policy"@)) is None {
                e@ == node@ + ": report:PolicyReport has no report:policy"@
            } else {
                exists|i: int| 0 <= i < rule_report_ids(g.triples@, node@).len()
                    && !rule_report_reads(g.triples@, #[trigger] rule_report_ids(g.triples@, node@)[i])
                    && e@ == rule_report_error(g.triples@, rule_report_ids(g.triples@, node@)[i])
                    && forall|j: int| 0 <= j < i ==> rule_report_reads(g.triples@, #[trigger] rule_report_ids(g.triples@, node@)[j])
            },
        },
{
    let policy_id = match local_object(g, node, report_ns("policy").as_str()) {
        Some(p) => p,
        None => return Err(concat2(node, ": report:PolicyReport has no report:policy")),
    };
    let ids = g.object_ids(node, report_ns("ruleReport").as_str());
    let ghost want = rule_report_ids(g.triples@, node@);
    let mut rule_reports: Vec<ExpectedRuleReport> = Vec::new();
    let mut i: usize = 0;
    while i < ids.len()
        invariant
            i <= ids@.len(),
            views(ids@) == want,
            want == rule_report_ids(g.triples@, node@),
            object_id_of(g.triples@, node@, report_iri("policy"@)) is Some,
            Some(policy_id@) == opt_local(object_id_of(g.triples@, node@, report_iri("policy"@))),
            rule_reports@.len() == i,
            forall|j: int| 0 <= j < i ==> rule_report_is(#[trigger] rule_reports@[j], g.triples@, want[j]),
            forall|j: int| 0 <= j < i ==> rule_report_reads(g.triples@, #[trigger] want[j]),
        decreases ids.len() - i,
    {
        assert(views(ids@)[i as int] == ids@[i as int]@);
        match parse_rule_report(g, ids[i].as_str()) {
            Ok(rep) => rule_reports.push(rep),
            Err(e) => {
                assert(!rule_report_reads(g.triples@, want[i as int]));
                assert(object_id_of(g.triples@, node@, report_iri("policy"@)) is Some);
                assert(0 <= i < rule_report_ids(g.triples@, node@).len()
                    && !rule_report_reads(g.triples@, rule_report_ids(g.triples@, node@)[i as int])
                    && e@ == rule_report_error(g.triples@, rule_report_ids(g.triples@, node@)[i as int])
                    && forall|j: int| 0 <= j < i ==> rule_report_reads(g.triples@, #[trigger] rule_report_ids(g.triples@, node@)[j]));
                return Err(e);
            },
        }
        i = i + 1;
    }
    Ok(ExpectedPolicyReport { policy_id, rule_reports })
}

/// What a `dsc:expectedDecision` literal reads as, if anything.
pub open spec fn decision_named(s: Seq<char>) -> Option<WireDecision> {
    if s == "Allow"@ {
        Some(WireDecision::Allow)
    } else if s == "Deny"@ {
        Some(WireDecision::Deny)
    } else if s == "Error"@ {
        Some(WireDecision::Error)
    } else {
        None
    }
}

/// The test case's `dsc:expectedDecision` literal, if it states one.
pub open spec fn expected_decision_literal(ts: Seq<Triple>, testcase: Seq<char>) -> Option<Seq<char>> {
    first_literal(objects_of(ts, testcase, DSC_NS@ + "expectedDecision"@))
}

/// The test case's optional `dsc:expectedDecision`: `None` when it states
/// none, an error naming any spelling other than `Allow`/`Deny`/`Error`.
pub fn parse_expected_decision(g: &Graph, testcase: &str) -> (r: Result<Option<WireDecision>, String>)
    ensures
        match expected_decision_literal(g.triples@, testcase@) {
            None => r == Ok::<Option<WireDecision>, String>(None),
            Some(lit) => match decision_named(lit) {
                Some(d) => r == Ok::<Option<WireDecision>, String>(Some(d)),
                None => r is Err && r->Err_0@ == testcase@ + ": dsc:expectedDecision "@ + debug_str(lit)
                    + " is not one of engine::wire::WireDecision's own variant spellings \"Allow\"/\"Deny\"/\"Error\""@,
            },
        },
{
    let literal = match g.literal(testcase, dsc("expectedDecision").as_str()) {
        Some(l) => l,
        None => return Ok(None),
    };
    if str_eq(literal.as_str(), "Allow") {
        Ok(Some(WireDecision::Allow))
    } else if str_eq(literal.as_str(), "Deny") {
        Ok(Some(WireDecision::Deny))
    } else if str_eq(literal.as_str(), "Error") {
        Ok(Some(WireDecision::Error))
    } else {
        let quoted = debug_quoted(literal.as_str());
        let head = concat3(testcase, ": dsc:expectedDecision ", quoted.as_str());
        Err(concat2(
            head.as_str(),
            " is not one of engine::wire::WireDecision's own variant spellings \"Allow\"/\"Deny\"/\"Error\"",
        ))
    }
}

} // verus!
