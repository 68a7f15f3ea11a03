//! The pieces every coverage probe is assembled from: the shared base
//! request each probe varies, the constructors its variations use, and the
//! step that turns a probe's serialized request into the finished probe by
//! applying its patches.
//!
//! A probe's request is authored as a typed wire [`Request`], so the
//! supported half of every request has exactly the wire contract's shape;
//! keys the contract does not model can only enter afterwards, as patches.

use vstd::prelude::*;
use vstd::string::*;
use crate::text::{owned, concat2, concat3, strings_view};
use crate::wire::{ConstraintV, cviews, RuleV, rviews, plain_rule_v, Operator, Constraint, ConflictStrategy, DutyMode, Behaviour, Rule, WirePolicy, WireNodeRef, WireActionDecl, RequestConfig, ClaimValue, Claims, Request};
use crate::coverage::{Expect, DutyExpect, own_all, strs_view, opt_view};
use crate::json::{Json, JsonV, members_view, items_view, lemma_members_view, lemma_items_view};
use crate::patch::{Patch, PatchV, apply_patches, patches_of, patches_view};
use crate::rdf::views;
use crate::rdf_translate::{ClaimV, claim_put, claim_index, lemma_claim_pos, claim_pos};
use crate::cli::{claim_v, claims_view};

verus! {

/// The dataset every probe requests.
pub const DATASET_ID: &'static str = "urn:uuid:coverage-probe";
/// The profile id of the shared configuration.
pub const PROFILE_ID: &'static str = "https://ds42.org/profiles/coverage-probe";
/// The assigner of every probe policy.
pub const ASSIGNER: &'static str = "did:web:provider.example";
/// A probe showing that a feature works.
pub const POSITIVE: &'static str = "positive";
/// A probe showing the input that makes a feature not fire, or a property
/// that is inert.
pub const NEGATIVE: &'static str = "negative";

/// The `(id, parent)` value of a declared action.
pub open spec fn decl_v(a: WireActionDecl) -> (Seq<char>, Option<Seq<char>>) {
    (a.id@, match a.included_in {
        Some(p) => Some(p.id@),
        None => None,
    })
}

/// The values of a list of declared actions.
pub open spec fn decls_v(s: Seq<WireActionDecl>) -> Seq<(Seq<char>, Option<Seq<char>>)> {
    Seq::new(s.len(), |i: int| decl_v(s[i]))
}

/// A configuration as plain values.
#[verifier::ext_equal]
pub struct ConfigV {
    pub type_: Seq<char>,
    pub id: Seq<char>,
    pub actions: Seq<(Seq<char>, Option<Seq<char>>)>,
    pub duty_mode: DutyMode,
    pub behaviour: Behaviour,
    pub party_identity_claim: Option<Seq<char>>,
    pub agreement_assignee_claim: Option<Seq<char>>,
}

/// A wire policy as plain values.
#[verifier::ext_equal]
pub struct PolicyWireV {
    pub id: Seq<char>,
    pub kind: Seq<char>,
    pub assigner: Seq<char>,
    pub assignee: Option<Seq<char>>,
    pub permissions: Seq<RuleV>,
    pub prohibitions: Seq<RuleV>,
    pub obligations: Seq<RuleV>,
    pub conflict: ConflictStrategy,
    pub inherit_from: Option<Seq<Seq<char>>>,
}

/// A request as plain values.
#[verifier::ext_equal]
pub struct RequestV {
    pub dataset_id: Seq<char>,
    pub action: Seq<char>,
    pub config: ConfigV,
    pub policies: Seq<PolicyWireV>,
    pub claims: Seq<(Seq<char>, ClaimV)>,
    pub asset_collections: Seq<Seq<char>>,
}

/// The plain values of configuration `c`.
pub open spec fn config_view(c: RequestConfig) -> ConfigV {
    ConfigV {
        type_: c.type_@,
        id: c.id@,
        actions: decls_v(c.actions@),
        duty_mode: c.duty_mode,
        behaviour: c.behaviour,
        party_identity_claim: opt_view(c.party_identity_claim),
        agreement_assignee_claim: opt_view(c.agreement_assignee_claim),
    }
}

/// The plain values of wire policy `p`.
pub open spec fn policy_wire_view(p: WirePolicy) -> PolicyWireV {
    PolicyWireV {
        id: p.id@,
        kind: p.kind@,
        assigner: p.assigner@,
        assignee: opt_view(p.assignee),
        permissions: rviews(p.permissions@),
        prohibitions: rviews(p.prohibitions@),
        obligations: rviews(p.obligations@),
        conflict: p.conflict,
        inherit_from: match p.inherit_from {
            Some(v) => Some(strings_view(v@)),
            None => None,
        },
    }
}

/// The plain values of request `r`.
pub open spec fn request_view(r: Request) -> RequestV {
    RequestV {
        dataset_id: r.dataset_id@,
        action: r.action@,
        config: config_view(r.config),
        policies: Seq::new(r.policies@.len(), |i: int| policy_wire_view(r.policies@[i])),
        claims: claims_view(r.claims),
        asset_collections: strings_view(r.asset_collections@),
    }
}

/// The configuration [`config`] makes of the declared actions `actions`.
pub open spec fn config_v(actions: Seq<(Seq<char>, Option<Seq<char>>)>) -> ConfigV {
    ConfigV {
        type_: "odrl:Profile"@,
        id: PROFILE_ID@,
        actions,
        duty_mode: DutyMode::Advise,
        behaviour: Behaviour::Closed,
        party_identity_claim: None,
        agreement_assignee_claim: None,
    }
}

/// Each of `ids` declared as a root action, in order.
pub open spec fn flat_decls(ids: Seq<Seq<char>>) -> Seq<(Seq<char>, Option<Seq<char>>)> {
    Seq::new(ids.len(), |i: int| (ids[i], None::<Seq<char>>))
}

/// The configuration [`flat_config`] makes of `ids`.
pub open spec fn flat_config_v(ids: Seq<Seq<char>>) -> ConfigV {
    config_v(flat_decls(ids))
}

/// The configuration [`taxonomy_config`] makes of the declared actions.
pub open spec fn taxonomy_config_v(actions: Seq<(Seq<char>, Option<Seq<char>>)>) -> ConfigV {
    ConfigV { id: TAXONOMY_PROFILE_ID@, ..config_v(actions) }
}

/// The rule [`rule`] makes.
pub open spec fn rule_v(action: Seq<char>, constraints: Seq<ConstraintV>) -> RuleV {
    plain_rule_v(action, None, constraints, None)
}

/// The rule [`targeted_rule`] makes.
pub open spec fn targeted_rule_v(action: Seq<char>, target: Seq<char>) -> RuleV {
    plain_rule_v(action, Some(target), Seq::empty(), None)
}

/// The policy [`policy`] makes.
pub open spec fn policy_v(id: Seq<char>, permissions: Seq<RuleV>) -> PolicyWireV {
    PolicyWireV {
        id,
        kind: "Set"@,
        assigner: ASSIGNER@,
        assignee: None,
        permissions,
        prohibitions: Seq::empty(),
        obligations: Seq::empty(),
        conflict: ConflictStrategy::Invalid,
        inherit_from: None,
    }
}

/// The request [`base_request`] makes.
pub open spec fn base_request_v() -> RequestV {
    RequestV {
        dataset_id: DATASET_ID@,
        action: "use"@,
        config: flat_config_v(seq!["use"@]),
        policies: seq![policy_v("probe"@, seq![rule_v("use"@, Seq::empty())])],
        claims: Seq::empty(),
        asset_collections: Seq::empty(),
    }
}

/// The request [`constrained`] makes.
pub open spec fn constrained_v(constraints: Seq<ConstraintV>, claims: Seq<(Seq<char>, ClaimV)>) -> RequestV {
    RequestV {
        policies: seq![policy_v("probe"@, seq![rule_v("use"@, constraints)])],
        claims,
        ..base_request_v()
    }
}

/// The request [`one`] makes.
pub open spec fn one_v(constraint: ConstraintV, claims: Seq<(Seq<char>, ClaimV)>) -> RequestV {
    constrained_v(seq![constraint], claims)
}

/// One expected duty as plain values: policy id, action, whether it is
/// resolved, and where it was attached.
pub open spec fn duty_expect_view(d: DutyExpect) -> (Seq<char>, Seq<char>, bool, Option<Seq<char>>) {
    (d.policy_id@, d.action@, d.resolved, opt_view(d.source))
}

/// What an expectation says of duties and of the dataset, as plain values.
pub open spec fn expect_extras_view(e: Expect) -> (Option<Seq<(Seq<char>, Seq<char>, bool, Option<Seq<char>>)>>, Option<Seq<char>>) {
    (match e.duties {
        Some(ds) => Some(Seq::new(ds@.len(), |i: int| duty_expect_view(ds@[i]))),
        None => None,
    }, opt_view(e.dataset_id))
}

/// A declared action with no broader action.
pub fn action(id: &str) -> (r: WireActionDecl)
    ensures
        decl_v(r) == (id@, None::<Seq<char>>),
{
    WireActionDecl { id: owned(id), included_in: None }
}

/// A declared action `odrl:includedIn` the action `parent`.
pub fn action_in(id: &str, parent: &str) -> (r: WireActionDecl)
    ensures
        decl_v(r) == (id@, Some(parent@)),
{
    WireActionDecl { id: owned(id), included_in: Some(WireNodeRef { id: owned(parent) }) }
}

/// The shared configuration: the probe profile declaring `actions`,
/// `dutyMode: advise`, and `behaviour: closed`, so a constraint miss gives
/// the closed default's unambiguous reason rather than a vacuous Allow.
pub fn config(actions: Vec<WireActionDecl>) -> (r: RequestConfig)
    ensures
        r.type_@ == "odrl:Profile"@,
        r.id@ == PROFILE_ID@,
        r.actions@ == actions@,
        config_view(r) == config_v(decls_v(actions@)),
        r.duty_mode == DutyMode::Advise,
        r.behaviour == Behaviour::Closed,
        r.party_identity_claim is None,
        r.agreement_assignee_claim is None,
{
    RequestConfig {
        type_: owned("odrl:Profile"),
        id: owned(PROFILE_ID),
        actions,
        duty_mode: DutyMode::Advise,
        behaviour: Behaviour::Closed,
        party_identity_claim: None,
        agreement_assignee_claim: None,
    }
}

/// [`config`] declaring each of `ids` as a root action, in order.
pub fn flat_config(ids: &[&str]) -> (r: RequestConfig)
    ensures
        r.type_@ == "odrl:Profile"@,
        r.id@ == PROFILE_ID@,
        decls_v(r.actions@) == Seq::new(ids@.len(), |i: int| (ids@[i]@, None::<Seq<char>>)),
        config_view(r) == flat_config_v(strs_view(ids@)),
        r.duty_mode == DutyMode::Advise,
        r.behaviour == Behaviour::Closed,
        r.party_identity_claim is None,
        r.agreement_assignee_claim is None,
{
    let mut actions: Vec<WireActionDecl> = Vec::new();
    let mut i: usize = 0;
    while i < ids.len()
        invariant
            i <= ids@.len(),
            actions@.len() == i,
            decls_v(actions@) == Seq::new(i as nat, |j: int| (ids@[j]@, None::<Seq<char>>)),
        decreases ids.len() - i,
    {
        let a = action(ids[i]);
        let ghost before = actions@;
        actions.push(a);
        assert forall|j: int| 0 <= j <= i implies #[trigger] decls_v(actions@)[j] == (ids@[j]@, None::<Seq<char>>) by {
            if j < i {
                assert(actions@[j] == before[j]);
                assert(decls_v(before)[j] == decl_v(before[j]));
            }
        }
        assert(decls_v(actions@) =~= Seq::new((i + 1) as nat, |j: int| (ids@[j]@, None::<Seq<char>>)));
        i = i + 1;
    }
    config(actions)
}

/// An unrefined, untargeted rule on `action` with exactly `constraints`.
pub fn rule(action: &str, constraints: Vec<Constraint>) -> (r: Rule)
    ensures
        r.action@ == action@,
        r.constraints@ == constraints@,
        r@ == rule_v(action@, cviews(constraints@)),
        r.target is None,
        r.action_refinement is None,
        r.duty@.len() == 0,
        r.remedy@.len() == 0,
        r.consequence is None,
{
    let ghost cs = constraints@;
    let r = Rule::new(owned(action), constraints);
    assert(r@.duty =~= Seq::<RuleV>::empty());
    assert(r@.remedy =~= Seq::<RuleV>::empty());
    assert(r@.constraints == cviews(cs));
    r
}

/// An unconstrained rule on `action` scoped to the asset `target`.
pub fn targeted_rule(action: &str, target: &str) -> (r: Rule)
    ensures
        r.action@ == action@,
        r.constraints@.len() == 0,
        r@ == targeted_rule_v(action@, target@),
        match r.target {
            Some(t) => t@ == target@,
            None => false,
        },
        r.action_refinement is None,
        r.duty@.len() == 0,
        r.remedy@.len() == 0,
        r.consequence is None,
{
    let r = Rule::targeting(owned(action), owned(target), Vec::new());
    assert(r@.duty =~= Seq::<RuleV>::empty());
    assert(r@.remedy =~= Seq::<RuleV>::empty());
    assert(r@.constraints =~= Seq::<ConstraintV>::empty());
    r
}

/// A `Set` policy `id` of the probe assigner granting `permissions`, with
/// no assignee, prohibitions, obligations or parent, on ODRL's default
/// conflict strategy, `invalid`.
pub fn policy(id: &str, permissions: Vec<Rule>) -> (r: WirePolicy)
    ensures
        r.id@ == id@,
        r.kind@ == "Set"@,
        r.assigner@ == ASSIGNER@,
        r.assignee is None,
        r.permissions@ == permissions@,
        policy_wire_view(r) == policy_v(id@, rviews(permissions@)),
        r.prohibitions@.len() == 0,
        r.obligations@.len() == 0,
        r.conflict == ConflictStrategy::Invalid,
        r.inherit_from is None,
{
    WirePolicy {
        id: owned(id),
        kind: owned("Set"),
        assigner: owned(ASSIGNER),
        assignee: None,
        permissions,
        prohibitions: Vec::new(),
        obligations: Vec::new(),
        conflict: ConflictStrategy::Invalid,
        inherit_from: None,
    }
}

/// The base every probe varies: the probe dataset, action `use`, a closed
/// configuration declaring only `use`, one `Set` policy `probe` granting
/// `use` unconstrained, no claims and no asset collections.
pub fn base_request() -> (r: Request)
    ensures
        r.dataset_id@ == DATASET_ID@,
        r.action@ == "use"@,
        decls_v(r.config.actions@) == seq![("use"@, None::<Seq<char>>)],
        r.config.id@ == PROFILE_ID@,
        r.config.duty_mode == DutyMode::Advise,
        r.config.behaviour == Behaviour::Closed,
        r.config.party_identity_claim is None,
        r.policies@.len() == 1,
        r.policies@[0].id@ == "probe"@,
        r.policies@[0].permissions@.len() == 1,
        r.policies@[0].permissions@[0].action@ == "use"@,
        r.policies@[0].permissions@[0].constraints@.len() == 0,
        r.policies@[0].prohibitions@.len() == 0,
        r.policies@[0].obligations@.len() == 0,
        r.claims.entries@.len() == 0,
        r.asset_collections@.len() == 0,
        request_view(r) == base_request_v(),
{
    let ids: [&str; 1] = ["use"];
    let cfg = flat_config(&ids);
    assert(ids@ == seq!["use"]);
    assert(strs_view(ids@) =~= seq!["use"@]);
    let r0 = rule("use", Vec::new());
    let perms = vec![r0];
    let p = policy("probe", perms);
    assert(cviews(Seq::<Constraint>::empty()) =~= Seq::<ConstraintV>::empty());
    assert(rviews(perms@) =~= seq![rule_v("use"@, Seq::empty())]);
    let r = Request {
        dataset_id: owned(DATASET_ID),
        action: owned("use"),
        config: cfg,
        policies: vec![p],
        claims: Claims::new(),
        asset_collections: Vec::new(),
    };
    assert(request_view(r).policies =~= seq![policy_v("probe"@, seq![rule_v("use"@, Seq::empty())])]);
    assert(request_view(r).claims =~= Seq::<(Seq<char>, ClaimV)>::empty());
    assert(request_view(r).asset_collections =~= Seq::<Seq<char>>::empty());
    r
}

/// An atomic constraint `left operator right`.
pub fn c(left: &str, operator: Operator, right: &str) -> (r: Constraint)
    ensures
        r@ == crate::wire::atom_v(left@, operator, right@),
{
    let r = Constraint::new(owned(left), operator, owned(right));
    assert(r@.and =~= Seq::<crate::wire::ConstraintV>::empty());
    assert(r@.or =~= Seq::<crate::wire::ConstraintV>::empty());
    assert(r@.xone =~= Seq::<crate::wire::ConstraintV>::empty());
    assert(r@.and_sequence =~= Seq::<crate::wire::ConstraintV>::empty());
    r
}

/// A single-valued claim.
pub fn s(value: &str) -> (r: ClaimValue)
    ensures
        claim_v(r) == ClaimV::Single(value@),
{
    ClaimValue::Single(owned(value))
}

/// A multi-valued claim holding `values`, in order.
pub fn m(values: &[&str]) -> (r: ClaimValue)
    ensures
        claim_v(r) == ClaimV::Multi(strs_view(values@)),
        values@.len() == 1 ==> claim_v(r) == ClaimV::Multi(seq![values@[0]@]),
        values@.len() == 2 ==> claim_v(r) == ClaimV::Multi(seq![values@[0]@, values@[1]@]),
        values@.len() == 3 ==> claim_v(r) == ClaimV::Multi(seq![values@[0]@, values@[1]@, values@[2]@]),
{
    proof {
        if values@.len() == 1 {
            assert(strs_view(values@) =~= seq![values@[0]@]);
        }
        if values@.len() == 2 {
            assert(strs_view(values@) =~= seq![values@[0]@, values@[1]@]);
        }
        if values@.len() == 3 {
            assert(strs_view(values@) =~= seq![values@[0]@, values@[1]@, values@[2]@]);
        }
    }
    let v = own_all(values);
    assert(views(v@) =~= strings_view(v@));
    ClaimValue::Multi(v)
}

/// The value of a list of `(key, claim)` pairs.
pub open spec fn pairs_v(ps: Seq<(&str, ClaimValue)>) -> Seq<(Seq<char>, ClaimV)> {
    Seq::new(ps.len(), |i: int| (ps[i].0@, claim_v(ps[i].1)))
}

/// The claims map the pairs `ps` make, in order: a key not seen before is
/// added, and a later pair for a key already present replaces its value.
pub open spec fn put_all(ps: Seq<(Seq<char>, ClaimV)>) -> Seq<(Seq<char>, ClaimV)>
    decreases ps.len(),
{
    if ps.len() == 0 {
        Seq::empty()
    } else {
        claim_put(put_all(ps.drop_last()), ps.last().0, ps.last().1)
    }
}

/// With no key repeated, the claims map pairs make is the pairs
/// themselves, in order.
pub proof fn lemma_put_all_distinct(ps: Seq<(Seq<char>, ClaimV)>)
    requires
        forall|i: int, j: int| 0 <= i < j < ps.len() ==> ps[i].0 != ps[j].0,
    ensures
        put_all(ps) == ps,
    decreases ps.len(),
{
    if ps.len() > 0 {
        let d = ps.drop_last();
        assert forall|i: int, j: int| 0 <= i < j < d.len() implies d[i].0 != d[j].0 by {
            assert(d[i] == ps[i] && d[j] == ps[j]);
        }
        lemma_put_all_distinct(d);
        lemma_claim_pos(d, ps.last().0);
        if claim_pos(d, ps.last().0) >= 0 {
            let k = claim_pos(d, ps.last().0);
            assert(d[k] == ps[k]);
            assert(ps[k].0 != ps[ps.len() - 1].0);
        }
        assert(d.push(ps.last()) =~= ps);
    }
}

/// The claims map `pairs` make, a later pair for a key replacing an
/// earlier one.
pub fn claims(pairs: Vec<(&str, ClaimValue)>) -> (r: Claims)
    ensures
        claims_view(r) == put_all(pairs_v(pairs@)),
        pairs@.len() == 1 ==> claims_view(r) == put_all(seq![(pairs@[0].0@, claim_v(pairs@[0].1))]),
        pairs@.len() == 2 ==> claims_view(r) == put_all(seq![
            (pairs@[0].0@, claim_v(pairs@[0].1)),
            (pairs@[1].0@, claim_v(pairs@[1].1)),
        ]),
{
    proof {
        if pairs@.len() == 1 {
            assert(pairs_v(pairs@) =~= seq![(pairs@[0].0@, claim_v(pairs@[0].1))]);
        }
        if pairs@.len() == 2 {
            assert(pairs_v(pairs@) =~= seq![(pairs@[0].0@, claim_v(pairs@[0].1)), (pairs@[1].0@, claim_v(pairs@[1].1))]);
        }
    }
    let ghost pv = pairs_v(pairs@);
    let ghost all = pairs@;
    let mut entries: Vec<(String, ClaimValue)> = Vec::new();
    let mut rest = pairs;
    let ghost n = pv.len() as int;
    assert(claims_view(Claims { entries }) =~= put_all(pv.subrange(0, 0)));
    while rest.len() > 0
        invariant
            n == pv.len(),
            pv == pairs_v(all),
            rest@.len() <= n,
            rest@ == all.subrange(n - rest@.len(), n),
            claims_view(Claims { entries }) == put_all(pv.subrange(0, n - rest@.len())),
        decreases rest.len(),
    {
        let ghost k = n - rest@.len();
        let (key, value) = rest.remove(0);
        assert(all[k] == (key, value));
        assert(pv[k] == (key@, claim_v(value)));
        assert(rest@ =~= all.subrange(n - rest@.len(), n));
        let ghost es = claims_view(Claims { entries });
        proof { lemma_claim_pos(es, key@); }
        match claim_index(&entries, key) {
            Some(i) => {
                assert(es[i as int].0 == entries@[i as int].0@);
                assert forall|j: int| 0 <= j < i implies (#[trigger] es[j]).0 != key@ by {
                    assert(es[j].0 == entries@[j].0@);
                }
                assert(claim_pos(es, key@) == i);
                entries.set(i, (owned(key), value));
            },
            None => {
                assert forall|j: int| 0 <= j < es.len() implies (#[trigger] es[j]).0 != key@ by {
                    assert(es[j].0 == entries@[j].0@);
                }
                assert(claim_pos(es, key@) == -1);
                entries.push((owned(key), value));
            },
        }
        assert(pv.subrange(0, k + 1).drop_last() =~= pv.subrange(0, k));
        assert(claims_view(Claims { entries }) =~= claim_put(es, pv[k].0, pv[k].1));
    }
    assert(pv.subrange(0, n as int) =~= pv);
    Claims { entries }
}

/// No claims at all.
pub fn no_claims() -> (r: Claims)
    ensures
        r.entries@.len() == 0,
        claims_view(r) == Seq::<(Seq<char>, ClaimV)>::empty(),
{
    let r = Claims::new();
    assert(claims_view(r) =~= Seq::<(Seq<char>, ClaimV)>::empty());
    r
}

/// [`base_request`] whose single `use` permission carries exactly
/// `constraints`, with the claims `request_claims`.
pub fn constrained(constraints: Vec<Constraint>, request_claims: Claims) -> (r: Request)
    ensures
        r.dataset_id@ == DATASET_ID@,
        r.action@ == "use"@,
        r.policies@.len() == 1,
        r.policies@[0].id@ == "probe"@,
        r.policies@[0].permissions@.len() == 1,
        r.policies@[0].permissions@[0].action@ == "use"@,
        r.policies@[0].permissions@[0].constraints@ == constraints@,
        r.claims == request_claims,
        request_view(r) == constrained_v(cviews(constraints@), claims_view(request_claims)),
{
    let mut request = base_request();
    let ghost b = request;
    proof {
        assert(request_view(b).policies[0] == policy_wire_view(b.policies@[0]));
    }
    let ghost cs = cviews(constraints@);
    let r0 = rule("use", constraints);
    let perms = vec![r0];
    assert(rviews(perms@) =~= seq![rule_v("use"@, cs)]);
    request.policies[0].permissions = perms;
    request.claims = request_claims;
    proof {
        let pv = policy_wire_view(request.policies@[0]);
        assert(pv == policy_v("probe"@, seq![rule_v("use"@, cs)]));
        assert(request_view(request).policies =~= seq![policy_v("probe"@, seq![rule_v("use"@, cs)])]);
    }
    request
}

/// [`constrained`] with the one constraint `constraint`.
pub fn one(constraint: Constraint, request_claims: Claims) -> (r: Request)
    ensures
        r.dataset_id@ == DATASET_ID@,
        r.action@ == "use"@,
        r.policies@.len() == 1,
        r.policies@[0].permissions@.len() == 1,
        r.policies@[0].permissions@[0].constraints@ == seq![constraint],
        r.claims == request_claims,
        request_view(r) == one_v(constraint@, claims_view(request_claims)),
{
    let ghost cv = constraint@;
    let cs = vec![constraint];
    assert(cviews(cs@) =~= seq![cv]);
    constrained(cs, request_claims)
}

/// The profile id of the W3C ODRL 2.2 vocabulary.
pub const TAXONOMY_PROFILE_ID: &'static str = "https://www.w3.org/TR/odrl-vocab/";

/// Owned copies of declared actions, in order.
pub fn copy_decls(actions: &[WireActionDecl]) -> (r: Vec<WireActionDecl>)
    ensures
        decls_v(r@) == decls_v(actions@),
{
    let mut r: Vec<WireActionDecl> = Vec::new();
    let mut i: usize = 0;
    while i < actions.len()
        invariant
            i <= actions@.len(),
            r@.len() == i,
            forall|j: int| 0 <= j < i ==> decl_v(#[trigger] r@[j]) == decl_v(actions@[j]),
        decreases actions.len() - i,
    {
        let a = &actions[i];
        let copy = match &a.included_in {
            Some(p) => action_in(a.id.as_str(), p.id.as_str()),
            None => action(a.id.as_str()),
        };
        r.push(copy);
        i = i + 1;
    }
    assert(decls_v(r@) =~= decls_v(actions@));
    r
}

/// The configuration the three taxonomy probes carry: the ODRL 2.2
/// vocabulary as a profile declaring `taxonomy_actions` (the action
/// declarations the shipped vocabulary document parses to), under
/// `dutyMode: advise` and `behaviour: closed`.
pub fn taxonomy_config(taxonomy_actions: &[WireActionDecl]) -> (r: RequestConfig)
    ensures
        r.type_@ == "odrl:Profile"@,
        r.id@ == TAXONOMY_PROFILE_ID@,
        decls_v(r.actions@) == decls_v(taxonomy_actions@),
        config_view(r) == taxonomy_config_v(decls_v(taxonomy_actions@)),
        r.duty_mode == DutyMode::Advise,
        r.behaviour == Behaviour::Closed,
        r.party_identity_claim is None,
        r.agreement_assignee_claim is None,
{
    RequestConfig {
        type_: owned("odrl:Profile"),
        id: owned(TAXONOMY_PROFILE_ID),
        actions: copy_decls(taxonomy_actions),
        duty_mode: DutyMode::Advise,
        behaviour: Behaviour::Closed,
        party_identity_claim: None,
        agreement_assignee_claim: None,
    }
}

/// One probe as the catalog writes it: its typed request, the patches
/// that inject what the wire contract does not model, and the outcome
/// that would demonstrate its row's claim.
pub struct ProbeSpec {
    pub id: &'static str,
    /// [`POSITIVE`] or [`NEGATIVE`].
    pub kind: &'static str,
    pub title: &'static str,
    pub asserts: &'static str,
    pub falsified_by: &'static str,
    pub request: Request,
    pub patches: Vec<Patch>,
    pub expect: Expect,
}

/// The `(id, kind, expected decision)` of each probe in `s`, in order.
pub open spec fn heads(s: Seq<ProbeSpec>) -> Seq<(Seq<char>, Seq<char>, Seq<char>)> {
    Seq::new(s.len(), |i: int| (s[i].id@, s[i].kind@, s[i].expect.decision@))
}

/// The `(title, asserts, falsified_by)` texts of each probe in `s`, in order.
pub open spec fn texts(s: Seq<ProbeSpec>) -> Seq<(Seq<char>, Seq<char>, Seq<char>)> {
    Seq::new(s.len(), |i: int| (s[i].title@, s[i].asserts@, s[i].falsified_by@))
}

/// What the reason of each probe in `s` must contain and must not contain,
/// in order.
pub open spec fn reasons(s: Seq<ProbeSpec>) -> Seq<(Seq<Seq<char>>, Seq<Seq<char>>)> {
    Seq::new(s.len(), |i: int| (strings_view(s[i].expect.reason_contains@), strings_view(s[i].expect.reason_excludes@)))
}

/// The patches of each probe in `s`, in order.
pub open spec fn patch_lists(s: Seq<ProbeSpec>) -> Seq<Seq<PatchV>> {
    Seq::new(s.len(), |i: int| patches_view(s[i].patches@))
}

/// The node reference `{"@id": id}`.
pub open spec fn ref_json(id: Seq<char>) -> JsonV {
    JsonV::Object(seq![("@id"@, JsonV::Str(id))])
}

/// The one-element list `[{"@id": id}]`.
pub open spec fn refs_json(id: Seq<char>) -> JsonV {
    JsonV::Array(seq![ref_json(id)])
}

/// The request of each probe in `s`, as plain values, in order.
pub open spec fn requests(s: Seq<ProbeSpec>) -> Seq<RequestV> {
    Seq::new(s.len(), |i: int| request_view(s[i].request))
}

/// What the expectation of each probe in `s` says of duties and of the
/// dataset, in order.
pub open spec fn extras(s: Seq<ProbeSpec>) -> Seq<(Option<Seq<(Seq<char>, Seq<char>, bool, Option<Seq<char>>)>>, Option<Seq<char>>)> {
    Seq::new(s.len(), |i: int| expect_extras_view(s[i].expect))
}

/// One finished probe: the complete, patched request, and what must be
/// observed for the probe to agree with its row.
pub struct Probe {
    pub id: &'static str,
    pub kind: &'static str,
    pub title: String,
    pub asserts: String,
    pub falsified_by: String,
    pub request: Json,
    pub expect: Expect,
}

/// Finishes `spec` from `serialized`, its typed request as the wire
/// contract serializes it: every patch is applied in order. A patch that
/// does not land fails the probe with a message naming it, since a probe
/// whose patch silently missed would still reach its expected decision
/// having injected nothing.
pub fn build(spec: ProbeSpec, serialized: Json) -> (r: Result<Probe, String>)
    ensures
        match patches_of(serialized@, patches_view(spec.patches@), spec.patches@.len() as int) {
            (v, None) => r matches Ok(p) && p.id == spec.id && p.kind == spec.kind
                && p.title@ == spec.title@ && p.asserts@ == spec.asserts@
                && p.falsified_by@ == spec.falsified_by@ && p.request@ == v && p.expect == spec.expect,
            (_, Some(m)) => r matches Err(e) && e@ == "probe `"@ + spec.id@ + "`: "@ + m,
        },
{
    let mut request = serialized;
    match apply_patches(&mut request, spec.patches.as_slice()) {
        Ok(()) => Ok(Probe {
            id: spec.id,
            kind: spec.kind,
            title: owned(spec.title),
            asserts: owned(spec.asserts),
            falsified_by: owned(spec.falsified_by),
            request,
            expect: spec.expect,
        }),
        Err(e) => {
            let head = concat3("probe `", spec.id, "`: ");
            Err(concat2(head.as_str(), e.as_str()))
        },
    }
}

/// The JSON string `text`.
pub fn jstr(text: &str) -> (r: Json)
    ensures
        r@ == JsonV::Str(text@),
{
    Json::String(owned(text))
}

/// The JSON array of `items`, in order.
pub fn jarr(items: Vec<Json>) -> (r: Json)
    ensures
        r@ == JsonV::Array(items_view(items@)),
{
    let r = Json::Array(items);
    proof { lemma_items_view(r); }
    r
}

/// The JSON object of `members`, as given; callers list the keys in
/// ascending order, as a JSON value keeps them.
pub fn jobj(members: Vec<(&str, Json)>) -> (r: Json)
    ensures
        r@ == JsonV::Object(Seq::new(members@.len(), |i: int| (members@[i].0@, members@[i].1@))),
{
    let ghost all = members@;
    let mut rest = members;
    let mut out: Vec<(String, Json)> = Vec::new();
    while rest.len() > 0
        invariant
            out@.len() + rest@.len() == all.len(),
            rest@ == all.subrange(out@.len() as int, all.len() as int),
            members_view(out@) == Seq::new(out@.len(), |i: int| (all[i].0@, all[i].1@)),
        decreases rest.len(),
    {
        let ghost k = out@.len() as int;
        let (key, value) = rest.remove(0);
        assert(all[k] == (key, value));
        let ghost before = out@;
        out.push((owned(key), value));
        assert(rest@ =~= all.subrange(out@.len() as int, all.len() as int));
        assert forall|i: int| 0 <= i < out@.len() implies #[trigger] members_view(out@)[i] == (all[i].0@, all[i].1@) by {
            if i < k {
                assert(out@[i] == before[i]);
                assert(members_view(before)[i] == (all[i].0@, all[i].1@));
            }
        }
        assert(members_view(out@) =~= Seq::new(out@.len(), |i: int| (all[i].0@, all[i].1@)));
    }
    let r = Json::Object(out);
    proof { lemma_members_view(r); }
    assert(JsonV::Object(members_view(out@)) == JsonV::Object(Seq::new(all.len(), |i: int| (all[i].0@, all[i].1@))));
    r
}

/// The node reference `{"@id": id}`.
pub fn jref(id: &str) -> (r: Json)
    ensures
        r@ == ref_json(id@),
{
    let v = jstr(id);
    let ms = vec![("@id", v)];
    let r = jobj(ms);
    assert(Seq::new(ms@.len(), |i: int| (ms@[i].0@, ms@[i].1@)) =~= seq![("@id"@, JsonV::Str(id@))]);
    r
}

/// The one-element list `[{"@id": id}]` a profile extension is declared
/// with.
pub fn jrefs(id: &str) -> (r: Json)
    ensures
        r@ == refs_json(id@),
{
    let item = jref(id);
    let v = vec![item];
    let r = jarr(v);
    assert(items_view(v@) =~= seq![JsonV::Object(seq![("@id"@, JsonV::Str(id@))])]);
    r
}

} // verus!
