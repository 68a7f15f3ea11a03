//! Coverage probes, category 4: logical constraints.

use vstd::prelude::*;
use crate::patch::PatchV;

use crate::wire::{Constraint, Operator, Claims};
use crate::coverage::{deny, closed_deny, allow_constrained};
use crate::probe::{ProbeSpec, heads, texts, reasons, patch_lists, ref_json, refs_json, POSITIVE, NEGATIVE, config, rule, jrefs, jstr, jarr, jobj, c, s, claims, no_claims, one};
use crate::patch::Patch;
use crate::coverage::{closed_deny_text, constrained_allow_text, base_allow_text};
use crate::json::{Json, JsonV};
use crate::probe::{pairs_v, put_all, lemma_put_all_distinct, DATASET_ID};
use crate::cli::claims_view;
use crate::rdf_translate::ClaimV;
use crate::wire::{atom_v, logical_v, cviews, ConstraintV};

use crate::probe::{RequestV, request_view, expect_extras_view, requests, extras, one_v};
verus! {

/// Claims `nationality: DE`, `scope: read`.
fn de_read() -> (r: Claims)
    ensures
        claims_view(r) == seq![("nationality"@, ClaimV::Single("DE"@)), ("scope"@, ClaimV::Single("read"@))],
{
    let pairs = vec![("nationality", s("DE")), ("scope", s("read"))];
    let r = claims(pairs);
    proof {
        reveal_strlit("nationality");
        reveal_strlit("scope");
        let want = seq![("nationality"@, ClaimV::Single("DE"@)), ("scope"@, ClaimV::Single("read"@))];
        assert(pairs_v(pairs@) =~= want);
        assert("nationality"@.len() != "scope"@.len());
        lemma_put_all_distinct(want);
    }
    r
}

/// Claims `nationality: DE`, `scope: admin`.
fn de_admin() -> (r: Claims)
    ensures
        claims_view(r) == seq![("nationality"@, ClaimV::Single("DE"@)), ("scope"@, ClaimV::Single("admin"@))],
{
    let pairs = vec![("nationality", s("DE")), ("scope", s("admin"))];
    let r = claims(pairs);
    proof {
        reveal_strlit("nationality");
        reveal_strlit("scope");
        let want = seq![("nationality"@, ClaimV::Single("DE"@)), ("scope"@, ClaimV::Single("admin"@))];
        assert(pairs_v(pairs@) =~= want);
        assert("nationality"@.len() != "scope"@.len());
        lemma_put_all_distinct(want);
    }
    r
}

/// `nationality eq DE`, `scope eq read`.
fn and_children() -> (r: Vec<Constraint>)
    ensures
        r@.len() == 2,
        r@[0]@ == atom_v("nationality"@, Operator::Eq, "DE"@),
        r@[1]@ == atom_v("scope"@, Operator::Eq, "read"@),
{
    vec![c("nationality", Operator::Eq, "DE"), c("scope", Operator::Eq, "read")]
}

/// `and(nationality eq DE, scope eq read)`.
fn both_de_and_read() -> (r: Constraint)
    ensures
        r@ == logical_v(seq![atom_v("nationality"@, Operator::Eq, "DE"@), atom_v("scope"@, Operator::Eq, "read"@)],
            Seq::empty(), Seq::empty()),
{
    let children = and_children();
    assert(cviews(children@) =~= seq![atom_v("nationality"@, Operator::Eq, "DE"@), atom_v("scope"@, Operator::Eq, "read"@)]);
    Constraint::and(children)
}

/// `nationality eq DE`, `scope eq admin`.
fn xone_children() -> (r: Vec<Constraint>)
    ensures
        r@.len() == 2,
        r@[0]@ == atom_v("nationality"@, Operator::Eq, "DE"@),
        r@[1]@ == atom_v("scope"@, Operator::Eq, "admin"@),
{
    vec![c("nationality", Operator::Eq, "DE"), c("scope", Operator::Eq, "admin")]
}

/// `and` over no constraints.
fn and_of_nothing() -> (r: Constraint)
    ensures
        r@ == logical_v(Seq::empty(), Seq::empty(), Seq::empty()),
{
    let children: Vec<Constraint> = Vec::new();
    assert(cviews(children@) =~= Seq::<ConstraintV>::empty());
    Constraint::and(children)
}

/// `or` over no constraints.
fn or_of_nothing() -> (r: Constraint)
    ensures
        r@ == logical_v(Seq::empty(), Seq::empty(), Seq::empty()),
{
    let children: Vec<Constraint> = Vec::new();
    assert(cviews(children@) =~= Seq::<ConstraintV>::empty());
    Constraint::or(children)
}

/// `or(nationality eq FR, nationality eq DE)`.
fn fr_or_de() -> (r: Constraint)
    ensures
        r@ == logical_v(Seq::empty(), seq![atom_v("nationality"@, Operator::Eq, "FR"@), atom_v("nationality"@, Operator::Eq, "DE"@)], Seq::empty()),
{
    let children = vec![c("nationality", Operator::Eq, "FR"), c("nationality", Operator::Eq, "DE")];
    assert(cviews(children@) =~= seq![atom_v("nationality"@, Operator::Eq, "FR"@), atom_v("nationality"@, Operator::Eq, "DE"@)]);
    Constraint::or(children)
}

/// `xone(nationality eq DE, scope eq admin)`.
fn de_xone_admin() -> (r: Constraint)
    ensures
        r@ == logical_v(Seq::empty(), Seq::empty(), seq![atom_v("nationality"@, Operator::Eq, "DE"@), atom_v("scope"@, Operator::Eq, "admin"@)]),
{
    let children = xone_children();
    assert(cviews(children@) =~= seq![atom_v("nationality"@, Operator::Eq, "DE"@), atom_v("scope"@, Operator::Eq, "admin"@)]);
    Constraint::xone(children)
}

/// `or(nationality eq DE, scope eq admin)`.
fn de_or_admin() -> (r: Constraint)
    ensures
        r@ == logical_v(Seq::empty(), seq![atom_v("nationality"@, Operator::Eq, "DE"@), atom_v("scope"@, Operator::Eq, "admin"@)], Seq::empty()),
{
    let children = xone_children();
    assert(cviews(children@) =~= seq![atom_v("nationality"@, Operator::Eq, "DE"@), atom_v("scope"@, Operator::Eq, "admin"@)]);
    Constraint::or(children)
}

/// The JSON of the two atomic constraints `nationality eq DE` and
/// `scope eq read`, keys in ascending order.
fn andsequence_children() -> (r: Json)
    ensures
        r@ == andsequence_json(),
{
    let a = atom_object("nationality", "DE");
    let b = atom_object("scope", "read");
    let items = vec![a, b];
    let r = jarr(items);
    assert(crate::json::items_view(items@) =~= seq![atom_json("nationality"@, "DE"@), atom_json("scope"@, "read"@)]);
    r
}

/// The JSON of the two atomic constraints `nationality eq DE` and
/// `scope eq read`.
pub open spec fn andsequence_json() -> JsonV {
    JsonV::Array(seq![atom_json("nationality"@, "DE"@), atom_json("scope"@, "read"@)])
}

/// The JSON of the atomic constraint `left eq right`.
pub open spec fn atom_json(left: Seq<char>, right: Seq<char>) -> JsonV {
    JsonV::Object(seq![
        ("left_operand"@, JsonV::Str(left)),
        ("operator"@, JsonV::Str("eq"@)),
        ("right_operand"@, JsonV::Str(right)),
    ])
}

/// The JSON object of the atomic constraint `left eq right`, keys in
/// ascending order.
fn atom_object(left: &str, right: &str) -> (r: Json)
    ensures
        r@ == atom_json(left@, right@),
{
    let ms = vec![("left_operand", jstr(left)), ("operator", jstr("eq")), ("right_operand", jstr(right))];
    let r = jobj(ms);
    assert(Seq::new(ms@.len(), |i: int| (ms@[i].0@, ms@[i].1@)) =~= seq![
        ("left_operand"@, JsonV::Str(left@)),
        ("operator"@, JsonV::Str("eq"@)),
        ("right_operand"@, JsonV::Str(right@)),
    ]);
    r
}

/// The `(id, kind, expected decision)` of each probe [`logical_probes`] writes, in order.
pub open spec fn logical_heads() -> Seq<(Seq<char>, Seq<char>, Seq<char>)> {
    seq![
        ("lc-and-both"@, POSITIVE@, "Allow"@),
        ("lc-and-one-false"@, NEGATIVE@, "Deny"@),
        ("lc-and-empty-vacuous"@, POSITIVE@, "Allow"@),
        ("lc-or-second"@, POSITIVE@, "Allow"@),
        ("lc-or-none"@, NEGATIVE@, "Deny"@),
        ("lc-or-empty-never"@, NEGATIVE@, "Deny"@),
        ("lc-xone-exactly-one"@, POSITIVE@, "Allow"@),
        ("lc-xone-zero"@, NEGATIVE@, "Deny"@),
        ("lc-xone-two-denies"@, NEGATIVE@, "Deny"@),
        ("lc-or-two-allows-control"@, POSITIVE@, "Allow"@),
        ("lc-andsequence-ignored"@, NEGATIVE@, "Deny"@),
        ("lc-and-control-honored"@, POSITIVE@, "Allow"@),
        ("lc-custom-logical-ignored"@, NEGATIVE@, "Deny"@),
    ]
}

/// The `(title, asserts, falsified_by)` of each probe [`logical_probes`] writes, in order.
pub open spec fn logical_texts() -> Seq<(Seq<char>, Seq<char>, Seq<char>)> {
    seq![
        (
            "odrl:and is satisfied when every child is"@,
            "A real nested logical constraint inside one rule's constraint list, rendered as a group \
                  in the reason rather than flattened."@,
            "Deny"@,
        ),
        (
            "odrl:and misses when one child does not match"@,
            "The pair's other half."@,
            "Allow"@,
        ),
        (
            "an empty odrl:and is vacuously satisfied"@,
            "The same convention an empty constraint list already uses. Contrast lc-or-empty-never, \
                  whose empty list is never satisfied."@,
            "Deny"@,
        ),
        (
            "odrl:or is satisfied by its second child"@,
            "Disjunction is real nesting inside the engine, not sibling rules expanded by a host-side \
                  adapter."@,
            "Deny"@,
        ),
        (
            "odrl:or misses when no child matches"@,
            "The pair's other half."@,
            "Allow"@,
        ),
        (
            "an empty odrl:or is never satisfied"@,
            "There is nothing to witness the \"at least one\". Read against lc-and-empty-vacuous: the \
                  two empty lists deliberately mean opposite things."@,
            "Allow"@,
        ),
        (
            "odrl:xone is satisfied by exactly one matching child"@,
            "The capability a disjunctive-normal-form expansion cannot express at all."@,
            "Deny"@,
        ),
        (
            "odrl:xone misses when no child matches"@,
            "The lower boundary, shared with odrl:or."@,
            "Allow"@,
        ),
        (
            "odrl:xone misses when TWO children match"@,
            "The upper boundary, and the whole reason xone is not or. Read against \
                  lc-or-two-allows-control, whose children and claims are identical and which Allows."@,
            "Allow -- which would make xone an or"@,
        ),
        (
            "the same two matching children under odrl:or do Allow"@,
            "The control that makes lc-xone-two-denies mean something: same children, same claims, \
                  one key name apart, opposite decisions."@,
            "Deny"@,
        ),
        (
            "odrl:andSequence is dropped; the constraint's own atomic fields decide"@,
            "The engine's Constraint type has and/or/xone and nothing else. Read against \
                  lc-and-control-honored, whose request differs from this one by the single key name \
                  `odrl:and` vs `odrl:andSequence`: that one is honoured (Allow), this one is dropped and \
                  the false atomic fields decide (Deny)."@,
            "Allow -- which would mean odrl:andSequence is being evaluated"@,
        ),
        (
            "the byte-identical request with the key renamed odrl:and IS honoured"@,
            "One key name apart from lc-andsequence-ignored. The nested children are evaluated, the \
                  atomic fields beside them are ignored, and the reason renders the group."@,
            "Deny -- which would mean the pair isolates nothing"@,
        ),
        (
            "a profile-declared logical operand is dropped like any other unknown key"@,
            "The config declares `ex:majorityOf` and the constraint uses it; the engine's three \
                  logical fields are fixed, so the declaration changes nothing and the false atomic fields \
                  decide. Controlled by lc-and-control-honored, which is the same shape under a key the \
                  engine does know."@,
            "Allow -- which would mean profile-declared logical operands take effect"@,
        ),
    ]
}

/// What the reason of each probe [`logical_probes`] writes must contain and must not
/// contain, in order.
pub open spec fn logical_reasons() -> Seq<(Seq<Seq<char>>, Seq<Seq<char>>)> {
    seq![
        (seq![constrained_allow_text("(nationality eq DE && scope eq read)"@)], seq![]),
        (seq![closed_deny_text("use"@)], seq![]),
        (seq![constrained_allow_text("()"@)], seq![]),
        (seq![constrained_allow_text("(nationality eq FR || nationality eq DE)"@)], seq![]),
        (seq![closed_deny_text("use"@)], seq![]),
        (seq![closed_deny_text("use"@)], seq![]),
        (seq![constrained_allow_text("xone(nationality eq DE, scope eq admin)"@)], seq![]),
        (seq![closed_deny_text("use"@)], seq![]),
        (seq![closed_deny_text("use"@)], seq![]),
        (seq![constrained_allow_text("(nationality eq DE || scope eq admin)"@)], seq![]),
        (seq![closed_deny_text("use"@)], seq![]),
        (seq![constrained_allow_text("(nationality eq DE && scope eq read)"@)], seq![]),
        (seq![closed_deny_text("use"@)], seq![]),
    ]
}

/// The patches of each probe [`logical_probes`] writes, in order.
pub open spec fn logical_patches() -> Seq<Seq<PatchV>> {
    seq![
        seq![],
        seq![],
        seq![],
        seq![],
        seq![],
        seq![],
        seq![],
        seq![],
        seq![],
        seq![],
        seq![PatchV::SetKey("/policies/0/permissions/0/constraints/0"@, "odrl:andSequence"@, andsequence_json())],
        seq![PatchV::SetKey("/policies/0/permissions/0/constraints/0"@, "odrl:and"@, andsequence_json())],
        seq![PatchV::SetKey("/config"@, "odrl:logicalConstraint"@, refs_json("ex:majorityOf"@)), PatchV::SetKey("/policies/0/permissions/0/constraints/0"@, "ex:majorityOf"@, andsequence_json())],
    ]
}

/// The request of each probe [`logical_probes`] writes, in order.
pub open spec fn logical_requests() -> Seq<RequestV> {
    seq![
        one_v(logical_v(seq![atom_v("nationality"@, Operator::Eq, "DE"@), atom_v("scope"@, Operator::Eq, "read"@)], Seq::empty(), Seq::empty()), seq![("nationality"@, ClaimV::Single("DE"@)), ("scope"@, ClaimV::Single("read"@))]),
        one_v(logical_v(seq![atom_v("nationality"@, Operator::Eq, "DE"@), atom_v("scope"@, Operator::Eq, "read"@)], Seq::empty(), Seq::empty()), seq![("nationality"@, ClaimV::Single("DE"@)), ("scope"@, ClaimV::Single("admin"@))]),
        one_v(logical_v(Seq::empty(), Seq::empty(), Seq::empty()), Seq::empty()),
        one_v( logical_v(Seq::empty(), seq![atom_v("nationality"@, Operator::Eq, "FR"@), atom_v("nationality"@, Operator::Eq, "DE"@)], Seq::empty()), put_all(seq![("nationality"@, ClaimV::Single("DE"@))]), ),
        one_v( logical_v(Seq::empty(), seq![atom_v("nationality"@, Operator::Eq, "FR"@), atom_v("nationality"@, Operator::Eq, "DE"@)], Seq::empty()), put_all(seq![("nationality"@, ClaimV::Single("US"@))]), ),
        one_v(logical_v(Seq::empty(), Seq::empty(), Seq::empty()), Seq::empty()),
        one_v(logical_v(Seq::empty(), Seq::empty(), seq![atom_v("nationality"@, Operator::Eq, "DE"@), atom_v("scope"@, Operator::Eq, "admin"@)]), put_all(seq![("nationality"@, ClaimV::Single("DE"@)), ("scope"@, ClaimV::Single("user"@))])),
        one_v(logical_v(Seq::empty(), Seq::empty(), seq![atom_v("nationality"@, Operator::Eq, "DE"@), atom_v("scope"@, Operator::Eq, "admin"@)]), put_all(seq![("nationality"@, ClaimV::Single("US"@)), ("scope"@, ClaimV::Single("user"@))])),
        one_v(logical_v(Seq::empty(), Seq::empty(), seq![atom_v("nationality"@, Operator::Eq, "DE"@), atom_v("scope"@, Operator::Eq, "admin"@)]), seq![("nationality"@, ClaimV::Single("DE"@)), ("scope"@, ClaimV::Single("admin"@))]),
        one_v(logical_v(Seq::empty(), seq![atom_v("nationality"@, Operator::Eq, "DE"@), atom_v("scope"@, Operator::Eq, "admin"@)], Seq::empty()), seq![("nationality"@, ClaimV::Single("DE"@)), ("scope"@, ClaimV::Single("admin"@))]),
        one_v(atom_v("nationality"@, Operator::Eq, "US"@), seq![("nationality"@, ClaimV::Single("DE"@)), ("scope"@, ClaimV::Single("read"@))]),
        one_v(atom_v("nationality"@, Operator::Eq, "US"@), seq![("nationality"@, ClaimV::Single("DE"@)), ("scope"@, ClaimV::Single("read"@))]),
        one_v(atom_v("nationality"@, Operator::Eq, "US"@), seq![("nationality"@, ClaimV::Single("DE"@)), ("scope"@, ClaimV::Single("read"@))]),
    ]
}

/// What the expectation of each probe [`logical_probes`] writes says of duties and of
/// the dataset, in order.
pub open spec fn logical_extras() -> Seq<(Option<Seq<(Seq<char>, Seq<char>, bool, Option<Seq<char>>)>>, Option<Seq<char>>)> {
    seq![
        (None::<Seq<(Seq<char>, Seq<char>, bool, Option<Seq<char>>)>>, None::<Seq<char>>),
        (None::<Seq<(Seq<char>, Seq<char>, bool, Option<Seq<char>>)>>, None::<Seq<char>>),
        (None::<Seq<(Seq<char>, Seq<char>, bool, Option<Seq<char>>)>>, None::<Seq<char>>),
        (None::<Seq<(Seq<char>, Seq<char>, bool, Option<Seq<char>>)>>, None::<Seq<char>>),
        (None::<Seq<(Seq<char>, Seq<char>, bool, Option<Seq<char>>)>>, None::<Seq<char>>),
        (None::<Seq<(Seq<char>, Seq<char>, bool, Option<Seq<char>>)>>, None::<Seq<char>>),
        (None::<Seq<(Seq<char>, Seq<char>, bool, Option<Seq<char>>)>>, None::<Seq<char>>),
        (None::<Seq<(Seq<char>, Seq<char>, bool, Option<Seq<char>>)>>, None::<Seq<char>>),
        (None::<Seq<(Seq<char>, Seq<char>, bool, Option<Seq<char>>)>>, None::<Seq<char>>),
        (None::<Seq<(Seq<char>, Seq<char>, bool, Option<Seq<char>>)>>, None::<Seq<char>>),
        (None::<Seq<(Seq<char>, Seq<char>, bool, Option<Seq<char>>)>>, None::<Seq<char>>),
        (None::<Seq<(Seq<char>, Seq<char>, bool, Option<Seq<char>>)>>, None::<Seq<char>>),
        (None::<Seq<(Seq<char>, Seq<char>, bool, Option<Seq<char>>)>>, None::<Seq<char>>),
    ]
}

/// Category 4, logical constraints: `and`, `or` and `xone` groups nested in
/// one rule's constraint list, their empty cases (a vacuous `and`, a
/// never-satisfied `or`), `xone` denying when two children match, and
/// `odrl:andSequence` and profile-declared logical operands being dropped.
#[verifier::rlimit(80)]
pub fn logical_probes() -> (r: Vec<ProbeSpec>)
    ensures
        heads(r@) == logical_heads(),
        texts(r@) == logical_texts(),
        reasons(r@) == logical_reasons(),
        patch_lists(r@) == logical_patches(),
        requests(r@) == logical_requests(),
        extras(r@) == logical_extras(),
{
    let mut probes: Vec<ProbeSpec> = Vec::new();

    probes.push(ProbeSpec {
        id: "lc-and-both",
        kind: POSITIVE,
        title: "odrl:and is satisfied when every child is",
        asserts: "A real nested logical constraint inside one rule's constraint list, rendered as a group \
                  in the reason rather than flattened.",
        falsified_by: "Deny",
        request: one(both_de_and_read(), de_read()),
        patches: vec![],
        expect: allow_constrained("(nationality eq DE && scope eq read)"),
    });
    assert(request_view(probes@[0].request) =~~= logical_requests()[0]);
    assert(expect_extras_view(probes@[0].expect) =~~= logical_extras()[0]);

    probes.push(ProbeSpec {
        id: "lc-and-one-false",
        kind: NEGATIVE,
        title: "odrl:and misses when one child does not match",
        asserts: "The pair's other half.",
        falsified_by: "Allow",
        request: one(both_de_and_read(), de_admin()),
        patches: vec![],
        expect: deny(closed_deny("use").as_str()),
    });
    assert(request_view(probes@[1].request) =~~= logical_requests()[1]);
    assert(expect_extras_view(probes@[1].expect) =~~= logical_extras()[1]);

    probes.push(ProbeSpec {
        id: "lc-and-empty-vacuous",
        kind: POSITIVE,
        title: "an empty odrl:and is vacuously satisfied",
        asserts: "The same convention an empty constraint list already uses. Contrast lc-or-empty-never, \
                  whose empty list is never satisfied.",
        falsified_by: "Deny",
        request: one(and_of_nothing(), no_claims()),
        patches: vec![],
        expect: allow_constrained("()"),
    });
    assert(request_view(probes@[2].request) =~~= logical_requests()[2]);
    assert(expect_extras_view(probes@[2].expect) =~~= logical_extras()[2]);

    probes.push(ProbeSpec {
        id: "lc-or-second",
        kind: POSITIVE,
        title: "odrl:or is satisfied by its second child",
        asserts: "Disjunction is real nesting inside the engine, not sibling rules expanded by a host-side \
                  adapter.",
        falsified_by: "Deny",
        request: one(
            fr_or_de(),
            claims(vec![("nationality", s("DE"))]),
        ),
        patches: vec![],
        expect: allow_constrained("(nationality eq FR || nationality eq DE)"),
    });
    assert(request_view(probes@[3].request) =~~= logical_requests()[3]);
    assert(expect_extras_view(probes@[3].expect) =~~= logical_extras()[3]);

    probes.push(ProbeSpec {
        id: "lc-or-none",
        kind: NEGATIVE,
        title: "odrl:or misses when no child matches",
        asserts: "The pair's other half.",
        falsified_by: "Allow",
        request: one(
            fr_or_de(),
            claims(vec![("nationality", s("US"))]),
        ),
        patches: vec![],
        expect: deny(closed_deny("use").as_str()),
    });
    assert(request_view(probes@[4].request) =~~= logical_requests()[4]);
    assert(expect_extras_view(probes@[4].expect) =~~= logical_extras()[4]);

    probes.push(ProbeSpec {
        id: "lc-or-empty-never",
        kind: NEGATIVE,
        title: "an empty odrl:or is never satisfied",
        asserts: "There is nothing to witness the \"at least one\". Read against lc-and-empty-vacuous: the \
                  two empty lists deliberately mean opposite things.",
        falsified_by: "Allow",
        request: one(or_of_nothing(), no_claims()),
        patches: vec![],
        expect: deny(closed_deny("use").as_str()),
    });
    assert(request_view(probes@[5].request) =~~= logical_requests()[5]);
    assert(expect_extras_view(probes@[5].expect) =~~= logical_extras()[5]);

    probes.push(ProbeSpec {
        id: "lc-xone-exactly-one",
        kind: POSITIVE,
        title: "odrl:xone is satisfied by exactly one matching child",
        asserts: "The capability a disjunctive-normal-form expansion cannot express at all.",
        falsified_by: "Deny",
        request: one(de_xone_admin(), claims(vec![("nationality", s("DE")), ("scope", s("user"))])),
        patches: vec![],
        expect: allow_constrained("xone(nationality eq DE, scope eq admin)"),
    });
    assert(request_view(probes@[6].request) =~~= logical_requests()[6]);
    assert(expect_extras_view(probes@[6].expect) =~~= logical_extras()[6]);

    probes.push(ProbeSpec {
        id: "lc-xone-zero",
        kind: NEGATIVE,
        title: "odrl:xone misses when no child matches",
        asserts: "The lower boundary, shared with odrl:or.",
        falsified_by: "Allow",
        request: one(de_xone_admin(), claims(vec![("nationality", s("US")), ("scope", s("user"))])),
        patches: vec![],
        expect: deny(closed_deny("use").as_str()),
    });
    assert(request_view(probes@[7].request) =~~= logical_requests()[7]);
    assert(expect_extras_view(probes@[7].expect) =~~= logical_extras()[7]);

    probes.push(ProbeSpec {
        id: "lc-xone-two-denies",
        kind: NEGATIVE,
        title: "odrl:xone misses when TWO children match",
        asserts: "The upper boundary, and the whole reason xone is not or. Read against \
                  lc-or-two-allows-control, whose children and claims are identical and which Allows.",
        falsified_by: "Allow -- which would make xone an or",
        request: one(de_xone_admin(), de_admin()),
        patches: vec![],
        expect: deny(closed_deny("use").as_str()),
    });
    assert(request_view(probes@[8].request) =~~= logical_requests()[8]);
    assert(expect_extras_view(probes@[8].expect) =~~= logical_extras()[8]);

    probes.push(ProbeSpec {
        id: "lc-or-two-allows-control",
        kind: POSITIVE,
        title: "the same two matching children under odrl:or do Allow",
        asserts: "The control that makes lc-xone-two-denies mean something: same children, same claims, \
                  one key name apart, opposite decisions.",
        falsified_by: "Deny",
        request: one(de_or_admin(), de_admin()),
        patches: vec![],
        expect: allow_constrained("(nationality eq DE || scope eq admin)"),
    });
    assert(request_view(probes@[9].request) =~~= logical_requests()[9]);
    assert(expect_extras_view(probes@[9].expect) =~~= logical_extras()[9]);

    // The strongest negative pair in the catalog: two requests one key
    // name apart.
    probes.push(ProbeSpec {
        id: "lc-andsequence-ignored",
        kind: NEGATIVE,
        title: "odrl:andSequence is dropped; the constraint's own atomic fields decide",
        asserts: "The engine's Constraint type has and/or/xone and nothing else. Read against \
                  lc-and-control-honored, whose request differs from this one by the single key name \
                  `odrl:and` vs `odrl:andSequence`: that one is honoured (Allow), this one is dropped and \
                  the false atomic fields decide (Deny).",
        falsified_by: "Allow -- which would mean odrl:andSequence is being evaluated",
        request: one(c("nationality", Operator::Eq, "US"), de_read()),
        patches: vec![Patch::set(
            "/policies/0/permissions/0/constraints/0",
            "odrl:andSequence",
            andsequence_children(),
        )],
        expect: deny(closed_deny("use").as_str()),
    });
    assert(request_view(probes@[10].request) =~~= logical_requests()[10]);
    assert(expect_extras_view(probes@[10].expect) =~~= logical_extras()[10]);

    probes.push(ProbeSpec {
        id: "lc-and-control-honored",
        kind: POSITIVE,
        title: "the byte-identical request with the key renamed odrl:and IS honoured",
        asserts: "One key name apart from lc-andsequence-ignored. The nested children are evaluated, the \
                  atomic fields beside them are ignored, and the reason renders the group.",
        falsified_by: "Deny -- which would mean the pair isolates nothing",
        request: one(c("nationality", Operator::Eq, "US"), de_read()),
        patches: vec![Patch::set("/policies/0/permissions/0/constraints/0", "odrl:and", andsequence_children())],
        expect: allow_constrained("(nationality eq DE && scope eq read)"),
    });
    assert(request_view(probes@[11].request) =~~= logical_requests()[11]);
    assert(expect_extras_view(probes@[11].expect) =~~= logical_extras()[11]);

    probes.push(ProbeSpec {
        id: "lc-custom-logical-ignored",
        kind: NEGATIVE,
        title: "a profile-declared logical operand is dropped like any other unknown key",
        asserts: "The config declares `ex:majorityOf` and the constraint uses it; the engine's three \
                  logical fields are fixed, so the declaration changes nothing and the false atomic fields \
                  decide. Controlled by lc-and-control-honored, which is the same shape under a key the \
                  engine does know.",
        falsified_by: "Allow -- which would mean profile-declared logical operands take effect",
        request: one(c("nationality", Operator::Eq, "US"), de_read()),
        patches: vec![
            Patch::set("/config", "odrl:logicalConstraint", jrefs("ex:majorityOf")),
            Patch::set(
                "/policies/0/permissions/0/constraints/0",
                "ex:majorityOf",
                andsequence_children(),
            ),
        ],
        expect: deny(closed_deny("use").as_str()),
    });
    assert(request_view(probes@[12].request) =~~= logical_requests()[12]);
    assert(expect_extras_view(probes@[12].expect) =~~= logical_extras()[12]);

        assert(heads(probes@) =~= logical_heads());
        assert(texts(probes@) =~= logical_texts());
        assert(reasons(probes@) =~~= logical_reasons());
        assert(patch_lists(probes@) =~~= logical_patches());
        assert(requests(probes@) =~= logical_requests());
        assert(extras(probes@) =~= logical_extras());
    probes
}

} // verus!
