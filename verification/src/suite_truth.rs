//! The single Allow/Deny verdict a test-suite expected-report fixture
//! states: deny when any prohibition report is active, else allow when any
//! permission report is active, else deny (the closed default).

use vstd::prelude::*;
use vstd::string::*;
use crate::text::str_eq;
use crate::rdf::{Graph, Triple, Term, subject_id, subject_id_of, object_id_of, RDF_TYPE};
use crate::suite_vocab::{report_ns, SUITE_REPORT_NS};
use crate::wire::WireDecision;

verus! {

/// Whether triple `t` reports `activationState Active` on a node whose
/// first type is `report:{kind}`.
pub open spec fn active_report(ts: Seq<Triple>, t: Triple, kind: Seq<char>) -> bool {
    &&& t.predicate@ == SUITE_REPORT_NS@ + "activationState"@
    &&& t.object matches Term::Iri(n) && n@ == SUITE_REPORT_NS@ + "Active"@
    &&& object_id_of(ts, subject_id_of(t.subject), RDF_TYPE@) == Some(SUITE_REPORT_NS@ + kind)
}

/// Whether some rule report of kind `report:{kind}` is active.
pub open spec fn any_active(ts: Seq<Triple>, kind: Seq<char>) -> bool {
    exists|i: int| 0 <= i < ts.len() && active_report(ts, #[trigger] ts[i], kind)
}

/// The verdict an expected-report graph states.
pub open spec fn expected_verdict(ts: Seq<Triple>) -> WireDecision {
    if any_active(ts, "ProhibitionReport"@) {
        WireDecision::Deny
    } else if any_active(ts, "PermissionReport"@) {
        WireDecision::Allow
    } else {
        WireDecision::Deny
    }
}

/// A prohibition report whose `activationState` is `report:Active` makes
/// the verdict Deny, whatever the permission reports say.
pub proof fn an_active_prohibition_report_denies(ts: Seq<Triple>, i: int)
    requires
        0 <= i < ts.len(),
        ts[i].predicate@ == SUITE_REPORT_NS@ + "activationState"@,
        object_id_of(ts, subject_id_of(ts[i].subject), RDF_TYPE@) == Some(SUITE_REPORT_NS@ + "ProhibitionReport"@),
        ts[i].object matches Term::Iri(n) && n@ == SUITE_REPORT_NS@ + "Active"@,
    ensures
        expected_verdict(ts) == WireDecision::Deny,
{
    assert(active_report(ts, ts[i], "ProhibitionReport"@));
}

/// A prohibition report denies only while its `activationState` is
/// `report:Active`: when no `activationState` statement on a node typed
/// `report:ProhibitionReport` names `report:Active`, however many say
/// `Inactive` or anything else, the verdict is what the permission reports
/// alone give, Allow when one is active and Deny otherwise.
pub proof fn only_an_active_prohibition_report_denies(ts: Seq<Triple>)
    requires
        forall|i: int| 0 <= i < ts.len()
            && (#[trigger] ts[i]).predicate@ == SUITE_REPORT_NS@ + "activationState"@
            && object_id_of(ts, subject_id_of(ts[i].subject), RDF_TYPE@) == Some(SUITE_REPORT_NS@ + "ProhibitionReport"@)
            ==> !(ts[i].object matches Term::Iri(n) && n@ == SUITE_REPORT_NS@ + "Active"@),
    ensures
        (exists|i: int| 0 <= i < ts.len() && active_report(ts, #[trigger] ts[i], "PermissionReport"@))
            ==> expected_verdict(ts) == WireDecision::Allow,
        !(exists|i: int| 0 <= i < ts.len() && active_report(ts, #[trigger] ts[i], "PermissionReport"@))
            ==> expected_verdict(ts) == WireDecision::Deny,
{
    assert forall|i: int| 0 <= i < ts.len() implies !active_report(ts, #[trigger] ts[i], "ProhibitionReport"@) by {}
}

/// A Deny with an active permission report present always comes from a
/// prohibition report whose `activationState` is `report:Active`.
pub proof fn a_permitted_graph_is_denied_only_by_an_active_prohibition(ts: Seq<Triple>)
    requires
        exists|i: int| 0 <= i < ts.len() && active_report(ts, #[trigger] ts[i], "PermissionReport"@),
        expected_verdict(ts) == WireDecision::Deny,
    ensures
        exists|i: int| 0 <= i < ts.len()
            && (#[trigger] ts[i]).predicate@ == SUITE_REPORT_NS@ + "activationState"@
            && object_id_of(ts, subject_id_of(ts[i].subject), RDF_TYPE@) == Some(SUITE_REPORT_NS@ + "ProhibitionReport"@)
            && (ts[i].object matches Term::Iri(n) && n@ == SUITE_REPORT_NS@ + "Active"@),
{
    let k = choose|i: int| 0 <= i < ts.len() && active_report(ts, #[trigger] ts[i], "ProhibitionReport"@);
    assert(active_report(ts, ts[k], "ProhibitionReport"@));
}

/// The verdict the expected report states: Deny when a prohibition report
/// is active, else Allow when a permission report is, else Deny.
pub fn expected_decision(g: &Graph) -> (r: WireDecision)
    ensures
        r == expected_verdict(g.triples@),
{
    let permission_report = report_ns("PermissionReport");
    let prohibition_report = report_ns("ProhibitionReport");
    let activation_state = report_ns("activationState");
    let active = report_ns("Active");
    let ghost ts = g.triples@;
    let mut any_prohibition_active = false;
    let mut any_permission_active = false;
    let mut i: usize = 0;
    while i < g.triples.len()
        invariant
            i <= ts.len(),
            ts == g.triples@,
            permission_report@ == SUITE_REPORT_NS@ + "PermissionReport"@,
            prohibition_report@ == SUITE_REPORT_NS@ + "ProhibitionReport"@,
            activation_state@ == SUITE_REPORT_NS@ + "activationState"@,
            active@ == SUITE_REPORT_NS@ + "Active"@,
            any_prohibition_active == exists|j: int| 0 <= j < i && active_report(ts, #[trigger] ts[j], "ProhibitionReport"@),
            any_permission_active == exists|j: int| 0 <= j < i && active_report(ts, #[trigger] ts[j], "PermissionReport"@),
        decreases ts.len() - i,
    {
        let t = &g.triples[i];
        if str_eq(t.predicate.as_str(), activation_state.as_str()) {
            let subject = subject_id(&t.subject);
            let is_active = match &t.object {
                Term::Iri(n) => str_eq(n.as_str(), active.as_str()),
                _ => false,
            };
            match g.type_of(subject.as_str()) {
                Some(ty) => {
                    if is_active && str_eq(ty.as_str(), prohibition_report.as_str()) {
                        any_prohibition_active = true;
                    } else if is_active && str_eq(ty.as_str(), permission_report.as_str()) {
                        any_permission_active = true;
                    }
                },
                None => {},
            }
        }
        proof {
            assert(active_report(ts, ts[i as int], "ProhibitionReport"@) ==> !active_report(ts, ts[i as int], "PermissionReport"@)) by {
                if active_report(ts, ts[i as int], "ProhibitionReport"@) && active_report(ts, ts[i as int], "PermissionReport"@) {
                    assert((SUITE_REPORT_NS@ + "ProhibitionReport"@)[(SUITE_REPORT_NS@.len() + 1) as int] != (SUITE_REPORT_NS@ + "PermissionReport"@)[(SUITE_REPORT_NS@.len() + 1) as int]) by {
                        reveal_strlit("ProhibitionReport");
                        reveal_strlit("PermissionReport");
                    }
                }
            }
        }
        i = i + 1;
    }
    if any_prohibition_active {
        WireDecision::Deny
    } else if any_permission_active {
        WireDecision::Allow
    } else {
        WireDecision::Deny
    }
}

} // verus!
