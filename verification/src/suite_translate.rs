//! Adapts one test-suite (policy, request, state-of-the-world) fixture
//! into a Section 5.2 request, or returns the one-line reason it needs a
//! capability the engine lacks.
//!
//! Rules are scoped by assignee and target against the request, party and
//! asset collections resolved through the state of the world's
//! `odrl:partOf` facts; a rule whose nested duty the state of the world
//! reports `Violated` is dropped. An assignee becomes a `sub eq` constraint;
//! a constraint is expanded to disjunctive normal form, one sibling rule per
//! disjunct. A rule without an action takes the request's. A policy left
//! with no rules is omitted altogether.

use vstd::prelude::*;
use vstd::string::*;
use crate::text::{str_eq, owned};
use crate::rdf::{Graph, Triple, objects_of, ids_of, first_of, term_id_of, literal_of, object_id_of,
    objects_by_local_subject, subjects_by_local_object, first_object_for, views, opt_string_view, RDF_TYPE};
use crate::suite_vocab::{odrl, report_ns, dct, local_name, local_name_of, SUITE_ODRL_NS, SUITE_REPORT_NS, SUITE_DCT_NS};
use crate::suite_odrl::{ConstraintForm, PartyRef, TargetRef, RuleKind, RuleInfo, PolicyInfo, RequestInfo};
use crate::suite_dnf::{Atom, dnf_of, to_dnf, all_atoms, dnf_view, conj_view, is_atom, atom_of};
use crate::wire::{Constraint, Operator, Rule, WirePolicy, WireActionDecl, WireNodeRef, RequestConfig, DutyMode,
    Behaviour, ConflictStrategy, Claims, ClaimValue, Request};

verus! {

/// The outcome of translating one fixture.
#[derive(Debug)]
pub enum Translation {
    Ready(Box<Request>),
    Skip(String),
}

/// The `@id` of this runner's fixed configuration.
pub const CONFIG_ID: &'static str = "https://ds42.org/profiles/compliance-runner";

/// Whether the state of the world asserts `<member> odrl:partOf
/// <collection>`, both by local name.
pub open spec fn member_of(ts: Seq<Triple>, member: Seq<char>, collection: Seq<char>) -> bool {
    exists|i: int| 0 <= i < objects_by_local_subject(ts, member, SUITE_ODRL_NS@ + "partOf"@).len()
        && local_name_of(#[trigger] objects_by_local_subject(ts, member, SUITE_ODRL_NS@ + "partOf"@)[i]) == collection
}

/// Whether the state of the world asserts `<member> odrl:partOf
/// <collection>`, matching both by local name.
pub fn is_member_of(sotw: &Graph, member_local: &str, collection_local: &str) -> (r: bool)
    ensures
        r == member_of(sotw.triples@, member_local@, collection_local@),
{
    let objects = sotw.objects_by_subject_local_name(member_local, odrl("partOf").as_str());
    let ghost os = objects_by_local_subject(sotw.triples@, member_local@, SUITE_ODRL_NS@ + "partOf"@);
    let mut i: usize = 0;
    while i < objects.len()
        invariant
            i <= objects@.len(),
            views(objects@) == os,
            os == objects_by_local_subject(sotw.triples@, member_local@, SUITE_ODRL_NS@ + "partOf"@),
            forall|j: int| 0 <= j < i ==> local_name_of(#[trigger] os[j]) != collection_local@,
        decreases objects.len() - i,
    {
        assert(os[i as int] == objects@[i as int]@);
        if str_eq(local_name(objects[i].as_str()), collection_local) {
            assert(local_name_of(os[i as int]) == collection_local@);
            return true;
        }
        i = i + 1;
    }
    false
}

/// Whether a report node is a `report:DutyReport` whose deontic state is
/// `Violated`.
pub open spec fn violated_report(ts: Seq<Triple>, node: Seq<char>) -> bool {
    &&& object_id_of(ts, node, RDF_TYPE@) == Some(SUITE_REPORT_NS@ + "DutyReport"@)
    &&& match object_id_of(ts, node, SUITE_REPORT_NS@ + "deonticState"@) {
        Some(s) => local_name_of(s) == "Violated"@,
        None => false,
    }
}

/// Whether the state of the world reports the duty `duty_id` violated.
pub open spec fn duty_violated(ts: Seq<Triple>, duty_id: Seq<char>) -> bool {
    exists|i: int| 0 <= i < subjects_by_local_object(ts, SUITE_REPORT_NS@ + "rule"@, local_name_of(duty_id)).len()
        && violated_report(ts, #[trigger] subjects_by_local_object(ts, SUITE_REPORT_NS@ + "rule"@, local_name_of(duty_id))[i])
}

/// `true` only if the state of the world carries a `report:DutyReport`
/// about this duty (by local name) whose deontic state is `Violated`.
pub fn duty_is_violated(sotw: &Graph, duty_id: &str) -> (r: bool)
    ensures
        r == duty_violated(sotw.triples@, duty_id@),
{
    let duty_local = local_name(duty_id);
    let reports = sotw.subjects_by_object_local_name(report_ns("rule").as_str(), duty_local);
    let ghost rs = subjects_by_local_object(sotw.triples@, SUITE_REPORT_NS@ + "rule"@, local_name_of(duty_id@));
    let duty_report = report_ns("DutyReport");
    let deontic = report_ns("deonticState");
    let mut i: usize = 0;
    while i < reports.len()
        invariant
            i <= reports@.len(),
            views(reports@) == rs,
            rs == subjects_by_local_object(sotw.triples@, SUITE_REPORT_NS@ + "rule"@, local_name_of(duty_id@)),
            duty_report@ == SUITE_REPORT_NS@ + "DutyReport"@,
            deontic@ == SUITE_REPORT_NS@ + "deonticState"@,
            forall|j: int| 0 <= j < i ==> !violated_report(sotw.triples@, #[trigger] rs[j]),
        decreases reports.len() - i,
    {
        assert(rs[i as int] == reports@[i as int]@);
        let node = reports[i].as_str();
        let is_duty = match sotw.type_of(node) {
            Some(t) => str_eq(t.as_str(), duty_report.as_str()),
            None => false,
        };
        let is_violated = match sotw.object_node(node, deontic.as_str()) {
            Some(s) => str_eq(local_name(s.as_str()), "Violated"),
            None => false,
        };
        if is_duty && is_violated {
            assert(violated_report(sotw.triples@, rs[i as int]));
            return true;
        }
        i = i + 1;
    }
    false
}

/// The state of the world's current time: the first `dct:issued` value,
/// when it is a literal.
pub open spec fn current_time_of(ts: Seq<Triple>) -> Option<Seq<char>> {
    match first_object_for(ts, SUITE_DCT_NS@ + "issued"@) {
        Some(o) => literal_of(o),
        None => None,
    }
}

/// The state of the world's `dct:issued` current time, if any.
pub fn current_time(sotw: &Graph) -> (r: Option<String>)
    ensures
        opt_string_view(r) == current_time_of(sotw.triples@),
{
    sotw.first_literal_for_predicate(dct("issued").as_str())
}

/// The fixed base vocabulary: each action and what it is included in.
pub open spec fn base_vocabulary() -> Seq<(Seq<char>, Option<Seq<char>>)> {
    seq![
        ("use"@, None),
        ("read"@, Some("use"@)),
        ("write"@, Some("use"@)),
        ("distribute"@, Some("use"@)),
        ("transfer"@, None),
        ("sell"@, Some("transfer"@)),
        ("give"@, Some("transfer"@)),
        ("compensate"@, None),
    ]
}

/// The value of one action declaration.
pub open spec fn decl_view(d: WireActionDecl) -> (Seq<char>, Option<Seq<char>>) {
    (d.id@, match d.included_in {
        Some(r) => Some(r.id@),
        None => None,
    })
}

/// The values of a list of action declarations.
pub open spec fn decls_view(v: Seq<WireActionDecl>) -> Seq<(Seq<char>, Option<Seq<char>>)> {
    Seq::new(v.len(), |i: int| decl_view(v[i]))
}

fn decl(id: &str) -> (r: WireActionDecl)
    ensures
        decl_view(r) == (id@, None::<Seq<char>>),
{
    WireActionDecl { id: owned(id), included_in: None }
}

fn decl_in(id: &str, parent: &str) -> (r: WireActionDecl)
    ensures
        decl_view(r) == (id@, Some(parent@)),
{
    WireActionDecl { id: owned(id), included_in: Some(WireNodeRef { id: owned(parent) }) }
}

/// The fixed base vocabulary, as wire declarations.
pub fn base_action_vocabulary() -> (r: Vec<WireActionDecl>)
    ensures
        decls_view(r@) == base_vocabulary(),
{
    let r = vec![
        decl("use"),
        decl_in("read", "use"),
        decl_in("write", "use"),
        decl_in("distribute", "use"),
        decl("transfer"),
        decl_in("sell", "transfer"),
        decl_in("give", "transfer"),
        decl("compensate"),
    ];
    assert(decls_view(r@) =~= base_vocabulary());
    r
}

/// The configuration every translated request carries.
pub open spec fn is_base_config(c: RequestConfig) -> bool {
    &&& c.type_@ == "odrl:Profile"@
    &&& c.id@ == CONFIG_ID@
    &&& decls_view(c.actions@) == base_vocabulary()
    &&& c.duty_mode == DutyMode::Advise
    &&& c.behaviour == Behaviour::Closed
    &&& c.party_identity_claim is None
    &&& c.agreement_assignee_claim is None
}

/// The base vocabulary under the closed default, duties advisory and
/// party-role scoping left off.
pub fn base_request_config() -> (r: RequestConfig)
    ensures
        is_base_config(r),
{
    RequestConfig {
        type_: owned("odrl:Profile"),
        id: owned(CONFIG_ID),
        actions: base_action_vocabulary(),
        duty_mode: DutyMode::Advise,
        behaviour: Behaviour::Closed,
        party_identity_claim: None,
        agreement_assignee_claim: None,
    }
}


/// The view of an optional string.
pub open spec fn opt_sv(o: Option<String>) -> Option<Seq<char>> {
    match o {
        Some(s) => Some(s@),
        None => None,
    }
}

/// Whether a rule's assignee and target scoping admit the request, and no
/// nested duty of it is reported violated.
pub open spec fn rule_applies(rule: RuleInfo, req: RequestInfo, ts: Seq<Triple>) -> bool {
    let assignee_ok = match rule.assignee {
        None => true,
        Some(PartyRef::Individual(n)) => n@ == req.assignee@,
        Some(PartyRef::Collection(c)) => member_of(ts, req.assignee@, c@),
    };
    let target_ok = match rule.target {
        None => true,
        Some(TargetRef::Individual(n)) => Some(n@) == opt_sv(req.target),
        Some(TargetRef::Collection(c)) => match req.target {
            Some(t) => member_of(ts, t@, c@),
            None => false,
        },
    };
    let duty_ok = match rule.nested_duty {
        Some(d) => !duty_violated(ts, d@),
        None => true,
    };
    assignee_ok && target_ok && duty_ok
}

/// The `sub eq` constraint an assignee becomes, if any.
pub open spec fn base_atoms(rule: RuleInfo, req: RequestInfo) -> Seq<Atom> {
    match rule.assignee {
        Some(PartyRef::Individual(n)) => seq![("sub"@, Operator::Eq, n@)],
        Some(PartyRef::Collection(_)) => seq![("sub"@, Operator::Eq, req.assignee@)],
        None => Seq::empty(),
    }
}

/// A rule's disjuncts: one empty conjunction when unconstrained.
pub open spec fn rule_disjuncts(rule: RuleInfo) -> Result<Seq<Seq<Atom>>, Seq<char>> {
    match rule.constraint {
        None => Ok(seq![Seq::empty()]),
        Some(f) => dnf_of(f),
    }
}

/// A rule's action, the request's when it names none.
pub open spec fn rule_action(rule: RuleInfo, req: RequestInfo) -> Seq<char> {
    match rule.action {
        Some(a) => a@,
        None => req.action@,
    }
}

/// One translated wire rule: its kind, action and constraint atoms.
pub type RuleOut = (RuleKind, Seq<char>, Seq<Atom>);

/// The wire rules one policy rule becomes: none when it does not apply,
/// else one per disjunct.
pub open spec fn rule_outputs(rule: RuleInfo, req: RequestInfo, ts: Seq<Triple>) -> Result<Seq<RuleOut>, Seq<char>> {
    if !rule_applies(rule, req, ts) {
        Ok(Seq::empty())
    } else {
        match rule_disjuncts(rule) {
            Err(e) => Err(e),
            Ok(d) => Ok(Seq::new(d.len(), |i: int| (rule.kind, rule_action(rule, req), base_atoms(rule, req) + d[i]))),
        }
    }
}

/// The wire rules of all `rules` in order, or the first skip reason.
pub open spec fn translated(rules: Seq<RuleInfo>, req: RequestInfo, ts: Seq<Triple>) -> Result<Seq<RuleOut>, Seq<char>>
    decreases rules.len(),
{
    if rules.len() == 0 {
        Ok(Seq::empty())
    } else {
        match translated(rules.drop_last(), req, ts) {
            Err(e) => Err(e),
            Ok(acc) => match rule_outputs(rules.last(), req, ts) {
                Err(e) => Err(e),
                Ok(o) => Ok(acc + o),
            },
        }
    }
}

/// A translation is skipped exactly when some rule that applies to the
/// request (its assignee, target and nested-duty scoping admit it) has a
/// constraint that cannot be put into disjunctive normal form; the skip
/// reason is that of the first such rule.
pub proof fn translation_skips_exactly_when_an_applying_rule_cannot_translate(
    rules: Seq<RuleInfo>,
    req: RequestInfo,
    ts: Seq<Triple>,
)
    ensures
        (translated(rules, req, ts) is Err) <==> exists|i: int|
            0 <= i < rules.len() && rule_applies(rules[i], req, ts) && #[trigger] rule_disjuncts(rules[i]) is Err,
        translated(rules, req, ts) matches Err(e) ==> exists|i: int|
            0 <= i < rules.len() && rule_applies(rules[i], req, ts) && #[trigger] rule_disjuncts(rules[i]) == Err::<Seq<Seq<Atom>>, Seq<char>>(e)
                && forall|j: int| 0 <= j < i ==> (#[trigger] rule_outputs(rules[j], req, ts)) is Ok,
    decreases rules.len(),
{
    if rules.len() > 0 {
        let init = rules.drop_last();
        translation_skips_exactly_when_an_applying_rule_cannot_translate(init, req, ts);
        let n = rules.len() - 1;
        assert forall|i: int| 0 <= i < init.len() implies rules[i] == init[i] by {}
        match translated(init, req, ts) {
            Err(e) => {
                let i = choose|i: int| 0 <= i < init.len() && rule_applies(init[i], req, ts) && #[trigger] rule_disjuncts(init[i]) == Err::<Seq<Seq<Atom>>, Seq<char>>(e)
                    && forall|j: int| 0 <= j < i ==> (#[trigger] rule_outputs(init[j], req, ts)) is Ok;
                assert(rules[i] == init[i]);
                assert forall|j: int| 0 <= j < i implies (#[trigger] rule_outputs(rules[j], req, ts)) is Ok by {
                    assert(rules[j] == init[j]);
                }
            },
            Ok(acc) => {
                assert(forall|i: int| 0 <= i < init.len() ==> !(rule_applies(init[i], req, ts) && #[trigger] rule_disjuncts(init[i]) is Err));
                assert forall|j: int| 0 <= j < n implies (#[trigger] rule_outputs(rules[j], req, ts)) is Ok by {
                    assert(rules[j] == init[j]);
                    assert(!(rule_applies(init[j], req, ts) && rule_disjuncts(init[j]) is Err));
                }
                if exists|i: int| 0 <= i < rules.len() && rule_applies(rules[i], req, ts) && #[trigger] rule_disjuncts(rules[i]) is Err {
                    let i = choose|i: int| 0 <= i < rules.len() && rule_applies(rules[i], req, ts) && #[trigger] rule_disjuncts(rules[i]) is Err;
                    if i < n {
                        assert(rules[i] == init[i]);
                        assert(!(rule_applies(init[i], req, ts) && rule_disjuncts(init[i]) is Err));
                    }
                }
                if rule_applies(rules[n], req, ts) && rule_disjuncts(rules[n]) is Err {
                    assert(rules.last() == rules[n]);
                }
            },
        }
    }
}

/// A rule scoped to an individual target applies to a request only when
/// the request names that very target: for a request naming another
/// target, or none, the rule contributes no wire rule at all.
pub proof fn a_rule_for_one_target_applies_only_to_requests_for_it(
    rule: RuleInfo,
    req: RequestInfo,
    ts: Seq<Triple>,
    name: String,
)
    requires
        rule.target == Some(TargetRef::Individual(name)),
    ensures
        rule_applies(rule, req, ts) ==> req.target is Some && req.target->Some_0@ == name@,
        !(req.target is Some && req.target->Some_0@ == name@) ==> rule_outputs(rule, req, ts) == Ok::<Seq<RuleOut>, Seq<char>>(Seq::empty()),
{
}

/// A rule assigned to one party applies only to a request by that party,
/// and a rule scoped to a target collection only to a request naming a
/// member of it; otherwise the rule contributes no wire rule.
pub proof fn a_scoped_rule_applies_only_within_its_scope(rule: RuleInfo, req: RequestInfo, ts: Seq<Triple>)
    ensures
        (rule.assignee matches Some(PartyRef::Individual(n)) && n@ != req.assignee@)
            ==> rule_outputs(rule, req, ts) == Ok::<Seq<RuleOut>, Seq<char>>(Seq::empty()),
        (rule.target matches Some(TargetRef::Collection(c))
            && !(req.target is Some && member_of(ts, req.target->Some_0@, c@)))
            ==> rule_outputs(rule, req, ts) == Ok::<Seq<RuleOut>, Seq<char>>(Seq::empty()),
{
}

/// A policy whose every rule is scoped to an individual target other than
/// the one the request names translates to no wire rule.
pub proof fn rules_for_other_targets_translate_to_nothing(rules: Seq<RuleInfo>, req: RequestInfo, ts: Seq<Triple>)
    requires
        forall|i: int| 0 <= i < rules.len() ==> ((#[trigger] rules[i]).target matches Some(TargetRef::Individual(n))
            && !(req.target is Some && req.target->Some_0@ == n@)),
    ensures
        translated(rules, req, ts) == Ok::<Seq<RuleOut>, Seq<char>>(Seq::empty()),
    decreases rules.len(),
{
    if rules.len() > 0 {
        let init = rules.drop_last();
        assert forall|i: int| 0 <= i < init.len() implies ((#[trigger] init[i]).target matches Some(TargetRef::Individual(n))
            && !(req.target is Some && req.target->Some_0@ == n@)) by {
            assert(init[i] == rules[i]);
        }
        rules_for_other_targets_translate_to_nothing(init, req, ts);
        let last = rules[rules.len() - 1];
        assert(rules.last() == last);
        assert(!rule_applies(last, req, ts));
        assert(Seq::<RuleOut>::empty() + Seq::<RuleOut>::empty() =~= Seq::<RuleOut>::empty());
    }
}

/// The action and atoms of the outputs of kind `k`, in order.
pub open spec fn of_kind(outs: Seq<RuleOut>, k: RuleKind) -> Seq<(Seq<char>, Seq<Atom>)>
    decreases outs.len(),
{
    if outs.len() == 0 {
        Seq::empty()
    } else if outs.last().0 == k {
        of_kind(outs.drop_last(), k).push((outs.last().1, outs.last().2))
    } else {
        of_kind(outs.drop_last(), k)
    }
}

/// A plain wire rule with exactly this action and these atomic constraints.
pub open spec fn plain_rule(r: Rule, v: (Seq<char>, Seq<Atom>)) -> bool {
    &&& r.action@ == v.0
    &&& forall|j: int| 0 <= j < r.constraints@.len() ==> is_atom(#[trigger] r.constraints@[j])
    &&& conj_view(r.constraints@) == v.1
    &&& r.target is None
    &&& r.action_refinement is None
    &&& r.duty@.len() == 0
    &&& r.remedy@.len() == 0
    &&& r.consequence is None
}

/// `rs` are exactly the plain rules `vs`, in order.
pub open spec fn rules_are(rs: Seq<Rule>, vs: Seq<(Seq<char>, Seq<Atom>)>) -> bool {
    rs.len() == vs.len() && forall|i: int| 0 <= i < rs.len() ==> plain_rule(#[trigger] rs[i], vs[i])
}

/// The one policy a non-empty translation carries.
pub open spec fn translated_policy(p: WirePolicy, id: Seq<char>, outs: Seq<RuleOut>) -> bool {
    &&& p.id@ == id
    &&& p.kind@ == "Set"@
    &&& p.assigner@ == "urn:uuid:unspecified-assigner"@
    &&& p.assignee is None
    &&& rules_are(p.permissions@, of_kind(outs, RuleKind::Permission))
    &&& rules_are(p.prohibitions@, of_kind(outs, RuleKind::Prohibition))
    &&& p.obligations@.len() == 0
    &&& p.conflict == ConflictStrategy::Invalid
    &&& p.inherit_from is None
}

/// A single-valued claim.
pub open spec fn single_claim(e: (String, ClaimValue), key: Seq<char>, value: Seq<char>) -> bool {
    e.0@ == key && match e.1 {
        ClaimValue::Single(v) => v@ == value,
        ClaimValue::Multi(_) => false,
    }
}

/// The claims of a translated request: `sub`, then `dateTime` when the
/// state of the world states a current time.
pub open spec fn translated_claims(c: Claims, req: RequestInfo, ts: Seq<Triple>) -> bool {
    &&& c.entries@.len() == if current_time_of(ts) is Some { 2int } else { 1int }
    &&& single_claim(c.entries@[0], "sub"@, req.assignee@)
    &&& (current_time_of(ts) matches Some(t) ==> single_claim(c.entries@[1], "dateTime"@, t))
}

pub proof fn lemma_translated_err_persists(rules: Seq<RuleInfo>, req: RequestInfo, ts: Seq<Triple>, k: int)
    requires
        0 <= k <= rules.len(),
        translated(rules.subrange(0, k), req, ts) is Err,
    ensures
        translated(rules, req, ts) == translated(rules.subrange(0, k), req, ts),
    decreases rules.len(),
{
    if k < rules.len() {
        assert(rules.drop_last().subrange(0, k) =~= rules.subrange(0, k));
        lemma_translated_err_persists(rules.drop_last(), req, ts, k);
    } else {
        assert(rules.subrange(0, k) =~= rules);
    }
}

pub proof fn lemma_of_kind_push(outs: Seq<RuleOut>, o: RuleOut, k: RuleKind)
    ensures
        of_kind(outs.push(o), k) == if o.0 == k { of_kind(outs, k).push((o.1, o.2)) } else { of_kind(outs, k) },
{
    assert(outs.push(o).drop_last() =~= outs);
}

fn copy_constraints(v: &Vec<Constraint>) -> (r: Vec<Constraint>)
    requires
        forall|j: int| 0 <= j < v@.len() ==> is_atom(#[trigger] v@[j]),
    ensures
        forall|j: int| 0 <= j < r@.len() ==> is_atom(#[trigger] r@[j]),
        conj_view(r@) == conj_view(v@),
{
    let mut r: Vec<Constraint> = Vec::new();
    let mut i: usize = 0;
    while i < v.len()
        invariant
            i <= v@.len(),
            forall|j: int| 0 <= j < v@.len() ==> is_atom(#[trigger] v@[j]),
            r@.len() == i,
            forall|j: int| 0 <= j < i ==> is_atom(#[trigger] r@[j]) && atom_of(r@[j]) == atom_of(v@[j]),
        decreases v.len() - i,
    {
        let c = &v[i];
        r.push(Constraint::new(c.left_operand.clone(), c.operator, c.right_operand.clone()));
        i = i + 1;
    }
    assert(conj_view(r@) =~= conj_view(v@));
    r
}

/// Translates one fixture into a Section 5.2 request, or the first skip
/// reason a surviving rule's constraint yields.
pub fn translate(policy: &PolicyInfo, req: &RequestInfo, sotw: &Graph, dataset_id: &str) -> (r: Translation)
    ensures
        (r is Skip) <==> exists|i: int| 0 <= i < policy.rules@.len()
            && rule_applies(policy.rules@[i], *req, sotw.triples@) && #[trigger] rule_disjuncts(policy.rules@[i]) is Err,
        match translated(policy.rules@, *req, sotw.triples@) {
            Err(e) => r is Skip && r->Skip_0@ == e,
            Ok(outs) => r is Ready && {
                let q = *r->Ready_0;
                &&& q.dataset_id@ == dataset_id@
                &&& q.action@ == req.action@
                &&& is_base_config(q.config)
                &&& q.asset_collections@.len() == 0
                &&& translated_claims(q.claims, *req, sotw.triples@)
                &&& if of_kind(outs, RuleKind::Permission).len() == 0 && of_kind(outs, RuleKind::Prohibition).len() == 0 {
                    q.policies@.len() == 0
                } else {
                    q.policies@.len() == 1 && translated_policy(q.policies@[0], policy.id@, outs)
                }
            },
        },
{
    proof {
        translation_skips_exactly_when_an_applying_rule_cannot_translate(policy.rules@, *req, sotw.triples@);
    }
    let mut permissions: Vec<Rule> = Vec::new();
    let mut prohibitions: Vec<Rule> = Vec::new();
    let ghost rules = policy.rules@;
    let ghost ts = sotw.triples@;
    let ghost mut acc: Seq<RuleOut> = Seq::empty();
    let mut i: usize = 0;
    while i < policy.rules.len()
        invariant
            i <= rules.len(),
            rules == policy.rules@,
            ts == sotw.triples@,
            translated(rules.subrange(0, i as int), *req, ts) == Ok::<Seq<RuleOut>, Seq<char>>(acc),
            rules_are(permissions@, of_kind(acc, RuleKind::Permission)),
            rules_are(prohibitions@, of_kind(acc, RuleKind::Prohibition)),
        decreases policy.rules.len() - i,
    {
        let rule = &policy.rules[i];
        proof {
            assert(rules.subrange(0, i + 1).drop_last() =~= rules.subrange(0, i as int));
            assert(rules.subrange(0, i + 1).last() == *rule);
        }
        let action = match &rule.action {
            Some(a) => a.clone(),
            None => req.action.clone(),
        };
        let assignee_matches = match &rule.assignee {
            None => true,
            Some(PartyRef::Individual(name)) => str_eq(name.as_str(), req.assignee.as_str()),
            Some(PartyRef::Collection(collection)) => is_member_of(sotw, req.assignee.as_str(), collection.as_str()),
        };
        let target_matches = match &rule.target {
            None => true,
            Some(TargetRef::Individual(name)) => match &req.target {
                Some(t) => str_eq(name.as_str(), t.as_str()),
                None => false,
            },
            Some(TargetRef::Collection(collection)) => match &req.target {
                Some(t) => is_member_of(sotw, t.as_str(), collection.as_str()),
                None => false,
            },
        };
        let duty_ok = match &rule.nested_duty {
            Some(duty_id) => !duty_is_violated(sotw, duty_id.as_str()),
            None => true,
        };
        if !(assignee_matches && target_matches && duty_ok) {
            proof {
                assert(!rule_applies(*rule, *req, ts));
                assert(acc + Seq::<RuleOut>::empty() =~= acc);
            }
            i = i + 1;
            continue;
        }
        assert(rule_applies(*rule, *req, ts));
        let mut base: Vec<Constraint> = Vec::new();
        match &rule.assignee {
            Some(PartyRef::Individual(name)) => {
                base.push(Constraint::new(owned("sub"), Operator::Eq, name.clone()));
            },
            Some(PartyRef::Collection(_)) => {
                base.push(Constraint::new(owned("sub"), Operator::Eq, req.assignee.clone()));
            },
            None => {},
        }
        assert(conj_view(base@) =~= base_atoms(*rule, *req));
        let disjuncts: Vec<Vec<Constraint>> = match &rule.constraint {
            None => {
                let d: Vec<Vec<Constraint>> = vec![Vec::new()];
                assert(conj_view(d@[0]@) =~= Seq::<Atom>::empty());
                assert(dnf_view(d@) =~= seq![Seq::<Atom>::empty()]);
                d
            },
            Some(form) => match to_dnf(form) {
                Ok(d) => d,
                Err(reason) => {
                    proof {
                        assert(translated(rules.subrange(0, i + 1), *req, ts) is Err);
                        lemma_translated_err_persists(rules, *req, ts, i + 1);
                        assert(rules.subrange(0, rules.len() as int) =~= rules);
                    }
                    return Translation::Skip(reason);
                },
            },
        };
        let ghost d = dnf_view(disjuncts@);
        let ghost row = Seq::new(d.len(), |x: int| (rule.kind, rule_action(*rule, *req), base_atoms(*rule, *req) + d[x]));
        assert(rule_outputs(*rule, *req, ts) == Ok::<Seq<RuleOut>, Seq<char>>(row));
        let mut j: usize = 0;
        while j < disjuncts.len()
            invariant
                j <= disjuncts@.len(),
                all_atoms(disjuncts@),
                d == dnf_view(disjuncts@),
                row.len() == d.len(),
                forall|x: int| 0 <= x < row.len() ==> #[trigger] row[x] == (rule.kind, rule_action(*rule, *req), base_atoms(*rule, *req) + d[x]),
                action@ == rule_action(*rule, *req),
                forall|x: int| 0 <= x < base@.len() ==> is_atom(#[trigger] base@[x]),
                conj_view(base@) == base_atoms(*rule, *req),
                rules_are(permissions@, of_kind(acc + row.subrange(0, j as int), RuleKind::Permission)),
                rules_are(prohibitions@, of_kind(acc + row.subrange(0, j as int), RuleKind::Prohibition)),
            decreases disjuncts.len() - j,
        {
            let mut constraints = copy_constraints(&base);
            let mut extra = copy_constraints(&disjuncts[j]);
            let ghost (cb, ce) = (constraints@, extra@);
            constraints.append(&mut extra);
            proof {
                assert(conj_view(constraints@) =~= conj_view(cb) + conj_view(ce));
                assert forall|x: int| 0 <= x < constraints@.len() implies is_atom(#[trigger] constraints@[x]) by {
                    if x < cb.len() {
                        assert(constraints@[x] == cb[x]);
                    } else {
                        assert(constraints@[x] == ce[x - cb.len()]);
                    }
                }
                assert(conj_view(ce) == d[j as int]);
                assert((acc + row.subrange(0, j + 1)) =~= (acc + row.subrange(0, j as int)).push(row[j as int]));
                lemma_of_kind_push(acc + row.subrange(0, j as int), row[j as int], RuleKind::Permission);
                lemma_of_kind_push(acc + row.subrange(0, j as int), row[j as int], RuleKind::Prohibition);
            }
            let engine_rule = Rule::new(action.clone(), constraints);
            match rule.kind {
                RuleKind::Permission => permissions.push(engine_rule),
                RuleKind::Prohibition => prohibitions.push(engine_rule),
            }
            j = j + 1;
        }
        proof {
            assert(row.subrange(0, row.len() as int) =~= row);
            acc = acc + row;
        }
        i = i + 1;
    }
    proof {
        assert(rules.subrange(0, rules.len() as int) =~= rules);
    }
    let policies: Vec<WirePolicy> = if permissions.len() == 0 && prohibitions.len() == 0 {
        Vec::new()
    } else {
        vec![WirePolicy {
            id: policy.id.clone(),
            kind: owned("Set"),
            assigner: owned("urn:uuid:unspecified-assigner"),
            assignee: None,
            permissions,
            prohibitions,
            obligations: Vec::new(),
            conflict: ConflictStrategy::Invalid,
            inherit_from: None,
        }]
    };
    let mut claims = Claims::new();
    claims.entries.push((owned("sub"), ClaimValue::Single(req.assignee.clone())));
    match current_time(sotw) {
        Some(now) => claims.entries.push((owned("dateTime"), ClaimValue::Single(now))),
        None => {},
    }
    Translation::Ready(Box::new(Request {
        dataset_id: owned(dataset_id),
        action: req.action.clone(),
        config: base_request_config(),
        policies,
        claims,
        asset_collections: Vec::new(),
    }))
}

} // verus!
