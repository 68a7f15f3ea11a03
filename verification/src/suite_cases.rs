//! The per-case fixture export of the test-suite runner: for each case
//! either the exact request it evaluates together with the suite's own
//! expected decision, or the reason it was skipped. No decision the engine
//! produced is part of it.

use vstd::prelude::*;
use crate::wire::{Request, WireDecision};

verus! {

/// Version tag of the exported file's shape.
pub const CASES_SCHEMA: &'static str = "ds-odrl-engine-rs/compliance-cases@1";

/// What one case contributed to the export.
#[derive(Debug, PartialEq, Eq)]
pub enum FixtureData {
    Ready { request: Request, expected: WireDecision },
    Skipped { reason: String },
}

/// One case as it appears in the export: evaluable (`request` and
/// `expected_decision`, no `skip_reason`) or skipped (`skip_reason` only).
#[derive(Debug)]
pub struct CaseFixture<'a> {
    pub slug: &'a str,
    pub title: &'a str,
    pub request: Option<&'a Request>,
    pub expected_decision: Option<&'static str>,
    pub skip_reason: Option<&'a str>,
}

/// The spelling of a decision.
pub open spec fn decision_name(d: WireDecision) -> Seq<char> {
    match d {
        WireDecision::Allow => "Allow"@,
        WireDecision::Deny => "Deny"@,
        WireDecision::Error => "Error"@,
    }
}

/// The stable spelling of a decision.
pub fn decision_str(d: WireDecision) -> (r: &'static str)
    ensures
        r@ == decision_name(d),
{
    match d {
        WireDecision::Allow => "Allow",
        WireDecision::Deny => "Deny",
        WireDecision::Error => "Error",
    }
}

/// The export view of one case: a ready case carries its request and the
/// expected decision's spelling and no skip reason; a skipped case
/// carries only its reason.
pub fn fixture_view<'a>(slug: &'a str, title: &'a str, data: &'a FixtureData) -> (r: CaseFixture<'a>)
    ensures
        r.slug == slug,
        r.title == title,
        match data {
            FixtureData::Ready { request, expected } => r.request == Some(request)
                && r.expected_decision is Some && r.expected_decision->Some_0@ == decision_name(*expected)
                && r.skip_reason is None,
            FixtureData::Skipped { reason } => r.request is None && r.expected_decision is None
                && r.skip_reason is Some && r.skip_reason->Some_0@ == reason@,
        },
{
    match data {
        FixtureData::Ready { request, expected } => CaseFixture {
            slug,
            title,
            request: Some(request),
            expected_decision: Some(decision_str(*expected)),
            skip_reason: None,
        },
        FixtureData::Skipped { reason } => CaseFixture {
            slug,
            title,
            request: None,
            expected_decision: None,
            skip_reason: Some(reason.as_str()),
        },
    }
}

} // verus!
