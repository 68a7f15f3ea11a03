//! Coverage probes, category 3: operators.

use vstd::prelude::*;
use crate::probe::{RequestV, request_view, requests, extras, one_v, constrained_v, base_request_v, config_v, flat_config_v, policy_v, rule_v};
use crate::wire::ConstraintV;
use crate::patch::PatchV;
use crate::json::JsonV;

use crate::wire::{Request, Operator};
use crate::coverage::{deny, error, closed_deny, allow_constrained};
use crate::probe::{ProbeSpec, heads, texts, reasons, patch_lists, ref_json, refs_json, POSITIVE, NEGATIVE, config, policy, rule, jrefs, jstr, c, s, m, claims, no_claims, one};
use crate::patch::Patch;
use crate::coverage::{closed_deny_text, constrained_allow_text, base_allow_text};
use crate::probe::{pairs_v, put_all, lemma_put_all_distinct, DATASET_ID};
use crate::cli::claims_view;
use crate::rdf_translate::ClaimV;
use crate::wire::atom_v;

use crate::probe::{expect_extras_view};
verus! {

/// `purpose eq odrl:Purpose` against a claim holding exactly that token.
fn operator_token_request() -> (r: Request)
    ensures
        request_view(r) == one_v(atom_v("purpose"@, Operator::Eq, "odrl:Purpose"@), seq![("purpose"@, ClaimV::Single("odrl:Purpose"@))]),
        r.dataset_id@ == DATASET_ID@,
        r.action@ == "use"@,
        r.policies@.len() == 1,
        r.policies@[0].permissions@.len() == 1,
        r.policies@[0].permissions@[0].constraints@.len() == 1,
        r.policies@[0].permissions@[0].constraints@[0]@ == atom_v("purpose"@, Operator::Eq, "odrl:Purpose"@),
        claims_view(r.claims) == seq![("purpose"@, ClaimV::Single("odrl:Purpose"@))],
        claims_view(r.claims) == put_all(seq![("purpose"@, ClaimV::Single("odrl:Purpose"@))]),
{
    let pairs = vec![("purpose", s("odrl:Purpose"))];
    let cl = claims(pairs);
    proof {
        assert(pairs_v(pairs@) =~= seq![("purpose"@, ClaimV::Single("odrl:Purpose"@))]);
        lemma_put_all_distinct(pairs_v(pairs@));
    }
    one(c("purpose", Operator::Eq, "odrl:Purpose"), cl)
}

/// The `(id, kind, expected decision)` of each probe [`operator_probes`] writes, in order.
pub open spec fn operator_heads() -> Seq<(Seq<char>, Seq<char>, Seq<char>)> {
    seq![
        ("op-eq-single"@, POSITIVE@, "Allow"@),
        ("op-eq-multi-membership"@, NEGATIVE@, "Allow"@),
        ("op-eq-no-concat"@, NEGATIVE@, "Deny"@),
        ("op-neq-hit"@, POSITIVE@, "Allow"@),
        ("op-neq-absent-miss"@, NEGATIVE@, "Deny"@),
        ("op-isanyof-hit"@, POSITIVE@, "Allow"@),
        ("op-isanyof-miss"@, NEGATIVE@, "Deny"@),
        ("op-isanyof-comma-unescapable"@, NEGATIVE@, "Deny"@),
        ("op-isanyof-comma-control"@, POSITIVE@, "Allow"@),
        ("op-isallof-hit"@, POSITIVE@, "Allow"@),
        ("op-isallof-miss"@, NEGATIVE@, "Deny"@),
        ("op-isnoneof-hit"@, POSITIVE@, "Allow"@),
        ("op-isnoneof-miss"@, NEGATIVE@, "Deny"@),
        ("op-isnoneof-absent-satisfies"@, POSITIVE@, "Allow"@),
        ("op-ispartof-hit"@, POSITIVE@, "Allow"@),
        ("op-ispartof-no-hierarchy"@, NEGATIVE@, "Deny"@),
        ("op-ispartof-mirrors-isanyof"@, NEGATIVE@, "Allow"@),
        ("op-lt-fractional-chronological"@, POSITIVE@, "Allow"@),
        ("op-lteq-xsd-date"@, POSITIVE@, "Allow"@),
        ("op-lt-offset-datetime"@, POSITIVE@, "Allow"@),
        ("op-gteq-numeric-boundary"@, POSITIVE@, "Allow"@),
        ("op-gt-numeric-boundary"@, NEGATIVE@, "Deny"@),
        ("op-lt-mixed-type-miss"@, NEGATIVE@, "Deny"@),
        ("op-isa-unparseable"@, NEGATIVE@, "Error"@),
        ("op-haspart-unparseable"@, NEGATIVE@, "Error"@),
        ("op-isa-control-eq"@, POSITIVE@, "Allow"@),
        ("op-profile-operator-unparseable"@, NEGATIVE@, "Error"@),
    ]
}

/// The `(title, asserts, falsified_by)` of each probe [`operator_probes`] writes, in order.
pub open spec fn operator_texts() -> Seq<(Seq<char>, Seq<char>, Seq<char>)> {
    seq![
        (
            "eq over a single-valued claim is plain equality"@,
            "The uncontroversial half of eq."@,
            "Deny"@,
        ),
        (
            "eq over a multi-valued claim is membership, not identity"@,
            "The documented divergence from strict ODRL equality: the claim is the two-element list \
                  [FR, DE], which under spec equality is not equal to DE. This engine reads it as \
                  membership and Allows."@,
            "Deny -- which would mean the documented adaptation is not actually in effect"@,
        ),
        (
            "the membership reading of eq is bounded: it does not compare joined lists"@,
            "Bounds op-eq-multi-membership. `eq FR,DE` against the claim [FR, DE] misses -- eq never \
                  splits or joins its right operand, so the divergence is membership and nothing wider."@,
            "Allow -- which would mean eq quietly acquired list semantics of its own"@,
        ),
        (
            "neq is satisfied by a present, differing claim"@,
            "The ordinary case."@,
            "Deny"@,
        ),
        (
            "an absent claim key is a MISS for neq, not a satisfaction"@,
            "This one is a live catch of stale documentation: the source gap analysis records the \
                  opposite (\"an absent claim key counts as satisfying neq\"). It does not. Read against \
                  op-isnoneof-absent-satisfies, which is the one operator that genuinely does treat an \
                  absent key as satisfied."@,
            "Allow -- which would make the absent-key posture non-uniform in a second place"@,
        ),
        (
            "isAnyOf matches a member of its comma-delimited right operand"@,
            "The set operator's ordinary case."@,
            "Deny"@,
        ),
        (
            "isAnyOf misses a value outside the list"@,
            "The pair's other half."@,
            "Allow"@,
        ),
        (
            "a value containing a comma is inexpressible in a set operator's right operand"@,
            "ODRL's rightOperand for a set operator is a JSON-LD list; this engine's is a single \
                  string split on commas, with no escaping convention. The one-element list \
                  [\"research,teaching\"] therefore cannot be written at all -- the claim that IS that \
                  literal string misses."@,
            "Allow -- which would mean an escaping convention exists after all"@,
        ),
        (
            "the same constraint matches a claim with no comma in it"@,
            "Isolates op-isanyof-comma-unescapable's failure to the comma: identical constraint, \
                  comma-free claim, Allow."@,
            "Deny"@,
        ),
        (
            "isAllOf requires every element of the right operand among the claim's values"@,
            "The claim [read, write, delete] covers the required set [read, write]."@,
            "Deny"@,
        ),
        (
            "isAllOf misses when one required element is absent"@,
            "The claim [read] does not cover [read, write]."@,
            "Allow -- which would collapse isAllOf into isAnyOf"@,
        ),
        (
            "isNoneOf is satisfied by a value outside the excluded set"@,
            "The exclusion holds for FR against [US, CN]."@,
            "Deny"@,
        ),
        (
            "isNoneOf misses on an excluded value"@,
            "The pair's other half."@,
            "Allow -- which would make the exclusion inert"@,
        ),
        (
            "an absent claim key SATISFIES isNoneOf -- the one deliberate exception"@,
            "A claim that is not present cannot carry a forbidden value, so there is nothing left to \
                  violate the exclusion. Read against op-neq-absent-miss, the other negation-shaped \
                  operator, which does not behave this way: this exception is narrow and separately \
                  justified, not a general rule about negations."@,
            "Deny -- which would make the documented exception not real"@,
        ),
        (
            "isPartOf matches flat, enumerated membership"@,
            "What this engine's isPartOf actually does: enumerated membership in a comma list."@,
            "Deny"@,
        ),
        (
            "isPartOf is not hierarchy membership: Berlin is not part of Germany here"@,
            "Berlin genuinely IS part of Germany, which is exactly what ODRL's isPartOf means. This \
                  engine's version cannot see it -- the operator name is honest about intent, not about \
                  capability."@,
            "Allow -- which would require a containment graph"@,
        ),
        (
            "isPartOf is observationally a degenerate alias for isAnyOf"@,
            "This request differs from op-isanyof-hit by the operator token alone, and reaches the \
                  same decision -- the two operators run the identical test."@,
            "Deny -- which would mean isPartOf is doing something isAnyOf does not"@,
        ),
        (
            "lt orders timestamps chronologically, not lexically"@,
            "Lexically \"2024-02-12T11:20:00Z\" sorts AFTER \"2024-02-12T11:20:00.5Z\" (Z > .), so a \
                  string comparison would miss. Chronologically it is half a second earlier, so an Allow \
                  here is proof the comparison is temporal."@,
            "Deny -- which is exactly what a lexical comparison would produce"@,
        ),
        (
            "a bare xsd:date claim is read as midnight UTC"@,
            "\"2024-02-12\" equals \"2024-02-12T00:00:00Z\" under this engine's stated convention, so \
                  lteq holds at the boundary."@,
            "Deny -- which would mean only the full dateTime lexical form is accepted"@,
        ),
        (
            "a numeric UTC offset is normalized before comparison"@,
            "13:20+02:00 is 11:20Z, which is before 12:00Z. A UTC-only reader comparing the hour \
                  field would miss this."@,
            "Deny"@,
        ),
        (
            "gteq includes its boundary"@,
            "10 gteq 10 holds."@,
            "Deny"@,
        ),
        (
            "gt excludes its boundary"@,
            "The strict/non-strict pair over the identical claim: 10 is not gt 10."@,
            "Allow -- which would make gt and gteq indistinguishable"@,
        ),
        (
            "comparing a timestamp against a number is a silent miss, not a coercion"@,
            "Neither the temporal pairing nor the numeric fallback succeeds when the two sides are \
                  different kinds of value. The engine misses rather than coercing one into the other."@,
            "Allow -- which would mean cross-type coercion happens somewhere"@,
        ),
        (
            "isA is not in the operator enum, so the whole request fails to parse"@,
            "The engine's Operator is a closed Rust enum. An out-of-enum token is not an unknown \
                  field to be ignored -- it fails deserialization, and the ABI answers Error with the \
                  serde message. Read against op-isa-control-eq, the byte-identical request with a \
                  supported token."@,
            "Allow or Deny -- either would mean the token was tolerated somehow"@,
        ),
        (
            "hasPart is not in the operator enum either"@,
            "The same policy structure as op-isa-unparseable, varying only the operator token: the \
                  enum is closed at the engine's own compile time, not per-token."@,
            "Allow or Deny"@,
        ),
        (
            "the same request with a supported operator parses and matches"@,
            "The control for both unparseable-operator probes: identical policy, identical claim, \
                  operator `eq` -- so the Error above is the operator token and nothing else about the \
                  request."@,
            "anything but Allow -- which would mean the pair proves nothing about operators"@,
        ),
        (
            "declaring an operator extension in the profile changes nothing"@,
            "The config declares `ex:withinRadius` as an odrl:Operator -- the real ODRL profile \
                  extension point -- and the constraint then uses it. The request still fails to parse. \
                  The enum is fixed at the engine's compile time; no wire-level declaration can widen it."@,
            "Allow or Deny -- either would mean profile-declared operators take effect"@,
        ),
    ]
}

/// What the reason of each probe [`operator_probes`] writes must contain and must not
/// contain, in order.
pub open spec fn operator_reasons() -> Seq<(Seq<Seq<char>>, Seq<Seq<char>>)> {
    seq![
        (seq![constrained_allow_text("nationality eq DE"@)], seq![]),
        (seq![constrained_allow_text("nationality eq DE"@)], seq![]),
        (seq![closed_deny_text("use"@)], seq![]),
        (seq![constrained_allow_text("nationality neq DE"@)], seq![]),
        (seq![closed_deny_text("use"@)], seq![]),
        (seq![constrained_allow_text("scope isAnyOf read,write,delete"@)], seq![]),
        (seq![closed_deny_text("use"@)], seq![]),
        (seq![closed_deny_text("use"@)], seq![]),
        (seq![constrained_allow_text("purpose isAnyOf research,teaching"@)], seq![]),
        (seq![constrained_allow_text("scope isAllOf read,write"@)], seq![]),
        (seq![closed_deny_text("use"@)], seq![]),
        (seq![constrained_allow_text("nationality isNoneOf US,CN"@)], seq![]),
        (seq![closed_deny_text("use"@)], seq![]),
        (seq![constrained_allow_text("nationality isNoneOf US,CN"@)], seq![]),
        (seq![constrained_allow_text("spatial isPartOf DE,FR,IT"@)], seq![]),
        (seq![closed_deny_text("use"@)], seq![]),
        (seq![constrained_allow_text("scope isPartOf read,write,delete"@)], seq![]),
        (seq![constrained_allow_text("dateTime lt 2024-02-12T11:20:00.5Z"@)], seq![]),
        (seq![constrained_allow_text("dateTime lteq 2024-02-12T00:00:00Z"@)], seq![]),
        (seq![constrained_allow_text("dateTime lt 2024-02-12T12:00:00Z"@)], seq![]),
        (seq![constrained_allow_text("count gteq 10"@)], seq![]),
        (seq![closed_deny_text("use"@)], seq![]),
        (seq![closed_deny_text("use"@)], seq![]),
        (seq!["request did not parse as the documented Section 5.2 JSON shape"@, "isA"@], seq![]),
        (seq!["request did not parse as the documented Section 5.2 JSON shape"@, "hasPart"@], seq![]),
        (seq![constrained_allow_text("purpose eq odrl:Purpose"@)], seq![]),
        (seq!["request did not parse as the documented Section 5.2 JSON shape"@, "unknown variant"@], seq![]),
    ]
}

/// The patches of each probe [`operator_probes`] writes, in order.
pub open spec fn operator_patches() -> Seq<Seq<PatchV>> {
    seq![
        seq![],
        seq![],
        seq![],
        seq![],
        seq![],
        seq![],
        seq![],
        seq![],
        seq![],
        seq![],
        seq![],
        seq![],
        seq![],
        seq![],
        seq![],
        seq![],
        seq![],
        seq![],
        seq![],
        seq![],
        seq![],
        seq![],
        seq![],
        seq![PatchV::SetKey("/policies/0/permissions/0/constraints/0"@, "operator"@, JsonV::Str("isA"@))],
        seq![PatchV::SetKey("/policies/0/permissions/0/constraints/0"@, "operator"@, JsonV::Str("hasPart"@))],
        seq![],
        seq![PatchV::SetKey("/config"@, "odrl:operator"@, refs_json("ex:withinRadius"@)), PatchV::SetKey("/policies/0/permissions/0/constraints/0"@, "operator"@, JsonV::Str("ex:withinRadius"@))],
    ]
}

/// The request of each probe [`operator_probes`] writes, in order.
pub open spec fn operator_requests() -> Seq<RequestV> {
    seq![
        one_v(atom_v("nationality"@, Operator::Eq, "DE"@), put_all(seq![("nationality"@, ClaimV::Single("DE"@))])),
        one_v(atom_v("nationality"@, Operator::Eq, "DE"@), put_all(seq![("nationality"@, ClaimV::Multi(seq!["FR"@, "DE"@]))])),
        one_v(atom_v("nationality"@, Operator::Eq, "FR,DE"@), put_all(seq![("nationality"@, ClaimV::Multi(seq!["FR"@, "DE"@]))])),
        one_v(atom_v("nationality"@, Operator::Neq, "DE"@), put_all(seq![("nationality"@, ClaimV::Single("US"@))])),
        one_v(atom_v("nationality"@, Operator::Neq, "DE"@), Seq::empty()),
        one_v(atom_v("scope"@, Operator::IsAnyOf, "read,write,delete"@), put_all(seq![("scope"@, ClaimV::Single("write"@))])),
        one_v(atom_v("scope"@, Operator::IsAnyOf, "read,write,delete"@), put_all(seq![("scope"@, ClaimV::Single("admin"@))])),
        one_v( atom_v("purpose"@, Operator::IsAnyOf, "research,teaching"@), put_all(seq![("purpose"@, ClaimV::Single("research,teaching"@))]), ),
        one_v(atom_v("purpose"@, Operator::IsAnyOf, "research,teaching"@), put_all(seq![("purpose"@, ClaimV::Single("research"@))])),
        one_v( atom_v("scope"@, Operator::IsAllOf, "read,write"@), put_all(seq![("scope"@, ClaimV::Multi(seq!["read"@, "write"@, "delete"@]))]), ),
        one_v(atom_v("scope"@, Operator::IsAllOf, "read,write"@), put_all(seq![("scope"@, ClaimV::Multi(seq!["read"@]))])),
        one_v(atom_v("nationality"@, Operator::IsNoneOf, "US,CN"@), put_all(seq![("nationality"@, ClaimV::Single("FR"@))])),
        one_v(atom_v("nationality"@, Operator::IsNoneOf, "US,CN"@), put_all(seq![("nationality"@, ClaimV::Single("US"@))])),
        one_v(atom_v("nationality"@, Operator::IsNoneOf, "US,CN"@), Seq::empty()),
        one_v(atom_v("spatial"@, Operator::IsPartOf, "DE,FR,IT"@), put_all(seq![("spatial"@, ClaimV::Single("DE"@))])),
        one_v( atom_v("spatial"@, Operator::IsPartOf, "https://www.geonames.org/2921044"@), put_all(seq![("spatial"@, ClaimV::Single("https://www.geonames.org/2950159"@))]), ),
        one_v(atom_v("scope"@, Operator::IsPartOf, "read,write,delete"@), put_all(seq![("scope"@, ClaimV::Single("write"@))])),
        one_v( atom_v("dateTime"@, Operator::Lt, "2024-02-12T11:20:00.5Z"@), put_all(seq![("dateTime"@, ClaimV::Single("2024-02-12T11:20:00Z"@))]), ),
        one_v( atom_v("dateTime"@, Operator::Lteq, "2024-02-12T00:00:00Z"@), put_all(seq![("dateTime"@, ClaimV::Single("2024-02-12"@))]), ),
        one_v( atom_v("dateTime"@, Operator::Lt, "2024-02-12T12:00:00Z"@), put_all(seq![("dateTime"@, ClaimV::Single("2024-02-12T13:20:00+02:00"@))]), ),
        one_v(atom_v("count"@, Operator::Gteq, "10"@), put_all(seq![("count"@, ClaimV::Single("10"@))])),
        one_v(atom_v("count"@, Operator::Gt, "10"@), put_all(seq![("count"@, ClaimV::Single("10"@))])),
        one_v(atom_v("dateTime"@, Operator::Lt, "99999"@), put_all(seq![("dateTime"@, ClaimV::Single("2024-02-12T11:20:00Z"@))])),
        one_v(atom_v("purpose"@, Operator::Eq, "odrl:Purpose"@), seq![("purpose"@, ClaimV::Single("odrl:Purpose"@))]),
        one_v(atom_v("purpose"@, Operator::Eq, "odrl:Purpose"@), seq![("purpose"@, ClaimV::Single("odrl:Purpose"@))]),
        one_v(atom_v("purpose"@, Operator::Eq, "odrl:Purpose"@), seq![("purpose"@, ClaimV::Single("odrl:Purpose"@))]),
        one_v(atom_v("purpose"@, Operator::Eq, "odrl:Purpose"@), seq![("purpose"@, ClaimV::Single("odrl:Purpose"@))]),
    ]
}

/// What the expectation of each probe [`operator_probes`] writes says of duties and of
/// the dataset, in order.
pub open spec fn operator_extras() -> Seq<(Option<Seq<(Seq<char>, Seq<char>, bool, Option<Seq<char>>)>>, Option<Seq<char>>)> {
    seq![
        (None::<Seq<(Seq<char>, Seq<char>, bool, Option<Seq<char>>)>>, None::<Seq<char>>),
        (None::<Seq<(Seq<char>, Seq<char>, bool, Option<Seq<char>>)>>, None::<Seq<char>>),
        (None::<Seq<(Seq<char>, Seq<char>, bool, Option<Seq<char>>)>>, None::<Seq<char>>),
        (None::<Seq<(Seq<char>, Seq<char>, bool, Option<Seq<char>>)>>, None::<Seq<char>>),
        (None::<Seq<(Seq<char>, Seq<char>, bool, Option<Seq<char>>)>>, None::<Seq<char>>),
        (None::<Seq<(Seq<char>, Seq<char>, bool, Option<Seq<char>>)>>, None::<Seq<char>>),
        (None::<Seq<(Seq<char>, Seq<char>, bool, Option<Seq<char>>)>>, None::<Seq<char>>),
        (None::<Seq<(Seq<char>, Seq<char>, bool, Option<Seq<char>>)>>, None::<Seq<char>>),
        (None::<Seq<(Seq<char>, Seq<char>, bool, Option<Seq<char>>)>>, None::<Seq<char>>),
        (None::<Seq<(Seq<char>, Seq<char>, bool, Option<Seq<char>>)>>, None::<Seq<char>>),
        (None::<Seq<(Seq<char>, Seq<char>, bool, Option<Seq<char>>)>>, None::<Seq<char>>),
        (None::<Seq<(Seq<char>, Seq<char>, bool, Option<Seq<char>>)>>, None::<Seq<char>>),
        (None::<Seq<(Seq<char>, Seq<char>, bool, Option<Seq<char>>)>>, None::<Seq<char>>),
        (None::<Seq<(Seq<char>, Seq<char>, bool, Option<Seq<char>>)>>, None::<Seq<char>>),
        (None::<Seq<(Seq<char>, Seq<char>, bool, Option<Seq<char>>)>>, None::<Seq<char>>),
        (None::<Seq<(Seq<char>, Seq<char>, bool, Option<Seq<char>>)>>, None::<Seq<char>>),
        (None::<Seq<(Seq<char>, Seq<char>, bool, Option<Seq<char>>)>>, None::<Seq<char>>),
        (None::<Seq<(Seq<char>, Seq<char>, bool, Option<Seq<char>>)>>, None::<Seq<char>>),
        (None::<Seq<(Seq<char>, Seq<char>, bool, Option<Seq<char>>)>>, None::<Seq<char>>),
        (None::<Seq<(Seq<char>, Seq<char>, bool, Option<Seq<char>>)>>, None::<Seq<char>>),
        (None::<Seq<(Seq<char>, Seq<char>, bool, Option<Seq<char>>)>>, None::<Seq<char>>),
        (None::<Seq<(Seq<char>, Seq<char>, bool, Option<Seq<char>>)>>, None::<Seq<char>>),
        (None::<Seq<(Seq<char>, Seq<char>, bool, Option<Seq<char>>)>>, None::<Seq<char>>),
        (None::<Seq<(Seq<char>, Seq<char>, bool, Option<Seq<char>>)>>, None::<Seq<char>>),
        (None::<Seq<(Seq<char>, Seq<char>, bool, Option<Seq<char>>)>>, None::<Seq<char>>),
        (None::<Seq<(Seq<char>, Seq<char>, bool, Option<Seq<char>>)>>, None::<Seq<char>>),
        (None::<Seq<(Seq<char>, Seq<char>, bool, Option<Seq<char>>)>>, None::<Seq<char>>),
    ]
}

/// Category 3, operators: `eq` over a multi-valued claim as membership
/// (and no wider), `neq` missing on an absent claim, the set operators over
/// comma-delimited right operands (with no escape for a comma), `isNoneOf`
/// satisfied by an absent claim, flat `isPartOf`, inclusive and exclusive
/// numeric bounds, and the operators outside the engine's ten refusing to
/// parse.
#[verifier::rlimit(80)]
pub fn operator_probes() -> (r: Vec<ProbeSpec>)
    ensures
        heads(r@) == operator_heads(),
        texts(r@) == operator_texts(),
        reasons(r@) == operator_reasons(),
        patch_lists(r@) == operator_patches(),
        requests(r@) == operator_requests(),
        extras(r@) == operator_extras(),
{
    let mut probes: Vec<ProbeSpec> = Vec::new();

    probes.push(ProbeSpec {
        id: "op-eq-single",
        kind: POSITIVE,
        title: "eq over a single-valued claim is plain equality",
        asserts: "The uncontroversial half of eq.",
        falsified_by: "Deny",
        request: one(c("nationality", Operator::Eq, "DE"), claims(vec![("nationality", s("DE"))])),
        patches: vec![],
        expect: allow_constrained("nationality eq DE"),
    });
    assert(request_view(probes@[0].request) =~~= operator_requests()[0]);
    assert(expect_extras_view(probes@[0].expect) =~~= operator_extras()[0]);

    probes.push(ProbeSpec {
        id: "op-eq-multi-membership",
        kind: NEGATIVE,
        title: "eq over a multi-valued claim is membership, not identity",
        asserts: "The documented divergence from strict ODRL equality: the claim is the two-element list \
                  [FR, DE], which under spec equality is not equal to DE. This engine reads it as \
                  membership and Allows.",
        falsified_by: "Deny -- which would mean the documented adaptation is not actually in effect",
        request: one(c("nationality", Operator::Eq, "DE"), claims(vec![("nationality", m(&["FR", "DE"]))])),
        patches: vec![],
        expect: allow_constrained("nationality eq DE"),
    });
    assert(request_view(probes@[1].request) =~~= operator_requests()[1]);
    assert(expect_extras_view(probes@[1].expect) =~~= operator_extras()[1]);

    probes.push(ProbeSpec {
        id: "op-eq-no-concat",
        kind: NEGATIVE,
        title: "the membership reading of eq is bounded: it does not compare joined lists",
        asserts: "Bounds op-eq-multi-membership. `eq FR,DE` against the claim [FR, DE] misses -- eq never \
                  splits or joins its right operand, so the divergence is membership and nothing wider.",
        falsified_by: "Allow -- which would mean eq quietly acquired list semantics of its own",
        request: one(c("nationality", Operator::Eq, "FR,DE"), claims(vec![("nationality", m(&["FR", "DE"]))])),
        patches: vec![],
        expect: deny(closed_deny("use").as_str()),
    });
    assert(request_view(probes@[2].request) =~~= operator_requests()[2]);
    assert(expect_extras_view(probes@[2].expect) =~~= operator_extras()[2]);

    probes.push(ProbeSpec {
        id: "op-neq-hit",
        kind: POSITIVE,
        title: "neq is satisfied by a present, differing claim",
        asserts: "The ordinary case.",
        falsified_by: "Deny",
        request: one(c("nationality", Operator::Neq, "DE"), claims(vec![("nationality", s("US"))])),
        patches: vec![],
        expect: allow_constrained("nationality neq DE"),
    });
    assert(request_view(probes@[3].request) =~~= operator_requests()[3]);
    assert(expect_extras_view(probes@[3].expect) =~~= operator_extras()[3]);

    probes.push(ProbeSpec {
        id: "op-neq-absent-miss",
        kind: NEGATIVE,
        title: "an absent claim key is a MISS for neq, not a satisfaction",
        asserts: "This one is a live catch of stale documentation: the source gap analysis records the \
                  opposite (\"an absent claim key counts as satisfying neq\"). It does not. Read against \
                  op-isnoneof-absent-satisfies, which is the one operator that genuinely does treat an \
                  absent key as satisfied.",
        falsified_by: "Allow -- which would make the absent-key posture non-uniform in a second place",
        request: one(c("nationality", Operator::Neq, "DE"), no_claims()),
        patches: vec![],
        expect: deny(closed_deny("use").as_str()),
    });
    assert(request_view(probes@[4].request) =~~= operator_requests()[4]);
    assert(expect_extras_view(probes@[4].expect) =~~= operator_extras()[4]);

    probes.push(ProbeSpec {
        id: "op-isanyof-hit",
        kind: POSITIVE,
        title: "isAnyOf matches a member of its comma-delimited right operand",
        asserts: "The set operator's ordinary case.",
        falsified_by: "Deny",
        request: one(c("scope", Operator::IsAnyOf, "read,write,delete"), claims(vec![("scope", s("write"))])),
        patches: vec![],
        expect: allow_constrained("scope isAnyOf read,write,delete"),
    });
    assert(request_view(probes@[5].request) =~~= operator_requests()[5]);
    assert(expect_extras_view(probes@[5].expect) =~~= operator_extras()[5]);

    probes.push(ProbeSpec {
        id: "op-isanyof-miss",
        kind: NEGATIVE,
        title: "isAnyOf misses a value outside the list",
        asserts: "The pair's other half.",
        falsified_by: "Allow",
        request: one(c("scope", Operator::IsAnyOf, "read,write,delete"), claims(vec![("scope", s("admin"))])),
        patches: vec![],
        expect: deny(closed_deny("use").as_str()),
    });
    assert(request_view(probes@[6].request) =~~= operator_requests()[6]);
    assert(expect_extras_view(probes@[6].expect) =~~= operator_extras()[6]);

    probes.push(ProbeSpec {
        id: "op-isanyof-comma-unescapable",
        kind: NEGATIVE,
        title: "a value containing a comma is inexpressible in a set operator's right operand",
        asserts: "ODRL's rightOperand for a set operator is a JSON-LD list; this engine's is a single \
                  string split on commas, with no escaping convention. The one-element list \
                  [\"research,teaching\"] therefore cannot be written at all -- the claim that IS that \
                  literal string misses.",
        falsified_by: "Allow -- which would mean an escaping convention exists after all",
        request: one(
            c("purpose", Operator::IsAnyOf, "research,teaching"),
            claims(vec![("purpose", s("research,teaching"))]),
        ),
        patches: vec![],
        expect: deny(closed_deny("use").as_str()),
    });
    assert(request_view(probes@[7].request) =~~= operator_requests()[7]);
    assert(expect_extras_view(probes@[7].expect) =~~= operator_extras()[7]);

    probes.push(ProbeSpec {
        id: "op-isanyof-comma-control",
        kind: POSITIVE,
        title: "the same constraint matches a claim with no comma in it",
        asserts: "Isolates op-isanyof-comma-unescapable's failure to the comma: identical constraint, \
                  comma-free claim, Allow.",
        falsified_by: "Deny",
        request: one(c("purpose", Operator::IsAnyOf, "research,teaching"), claims(vec![("purpose", s("research"))])),
        patches: vec![],
        expect: allow_constrained("purpose isAnyOf research,teaching"),
    });
    assert(request_view(probes@[8].request) =~~= operator_requests()[8]);
    assert(expect_extras_view(probes@[8].expect) =~~= operator_extras()[8]);

    probes.push(ProbeSpec {
        id: "op-isallof-hit",
        kind: POSITIVE,
        title: "isAllOf requires every element of the right operand among the claim's values",
        asserts: "The claim [read, write, delete] covers the required set [read, write].",
        falsified_by: "Deny",
        request: one(
            c("scope", Operator::IsAllOf, "read,write"),
            claims(vec![("scope", m(&["read", "write", "delete"]))]),
        ),
        patches: vec![],
        expect: allow_constrained("scope isAllOf read,write"),
    });
    assert(request_view(probes@[9].request) =~~= operator_requests()[9]);
    assert(expect_extras_view(probes@[9].expect) =~~= operator_extras()[9]);

    probes.push(ProbeSpec {
        id: "op-isallof-miss",
        kind: NEGATIVE,
        title: "isAllOf misses when one required element is absent",
        asserts: "The claim [read] does not cover [read, write].",
        falsified_by: "Allow -- which would collapse isAllOf into isAnyOf",
        request: one(c("scope", Operator::IsAllOf, "read,write"), claims(vec![("scope", m(&["read"]))])),
        patches: vec![],
        expect: deny(closed_deny("use").as_str()),
    });
    assert(request_view(probes@[10].request) =~~= operator_requests()[10]);
    assert(expect_extras_view(probes@[10].expect) =~~= operator_extras()[10]);

    probes.push(ProbeSpec {
        id: "op-isnoneof-hit",
        kind: POSITIVE,
        title: "isNoneOf is satisfied by a value outside the excluded set",
        asserts: "The exclusion holds for FR against [US, CN].",
        falsified_by: "Deny",
        request: one(c("nationality", Operator::IsNoneOf, "US,CN"), claims(vec![("nationality", s("FR"))])),
        patches: vec![],
        expect: allow_constrained("nationality isNoneOf US,CN"),
    });
    assert(request_view(probes@[11].request) =~~= operator_requests()[11]);
    assert(expect_extras_view(probes@[11].expect) =~~= operator_extras()[11]);

    probes.push(ProbeSpec {
        id: "op-isnoneof-miss",
        kind: NEGATIVE,
        title: "isNoneOf misses on an excluded value",
        asserts: "The pair's other half.",
        falsified_by: "Allow -- which would make the exclusion inert",
        request: one(c("nationality", Operator::IsNoneOf, "US,CN"), claims(vec![("nationality", s("US"))])),
        patches: vec![],
        expect: deny(closed_deny("use").as_str()),
    });
    assert(request_view(probes@[12].request) =~~= operator_requests()[12]);
    assert(expect_extras_view(probes@[12].expect) =~~= operator_extras()[12]);

    probes.push(ProbeSpec {
        id: "op-isnoneof-absent-satisfies",
        kind: POSITIVE,
        title: "an absent claim key SATISFIES isNoneOf -- the one deliberate exception",
        asserts: "A claim that is not present cannot carry a forbidden value, so there is nothing left to \
                  violate the exclusion. Read against op-neq-absent-miss, the other negation-shaped \
                  operator, which does not behave this way: this exception is narrow and separately \
                  justified, not a general rule about negations.",
        falsified_by: "Deny -- which would make the documented exception not real",
        request: one(c("nationality", Operator::IsNoneOf, "US,CN"), no_claims()),
        patches: vec![],
        expect: allow_constrained("nationality isNoneOf US,CN"),
    });
    assert(request_view(probes@[13].request) =~~= operator_requests()[13]);
    assert(expect_extras_view(probes@[13].expect) =~~= operator_extras()[13]);

    probes.push(ProbeSpec {
        id: "op-ispartof-hit",
        kind: POSITIVE,
        title: "isPartOf matches flat, enumerated membership",
        asserts: "What this engine's isPartOf actually does: enumerated membership in a comma list.",
        falsified_by: "Deny",
        request: one(c("spatial", Operator::IsPartOf, "DE,FR,IT"), claims(vec![("spatial", s("DE"))])),
        patches: vec![],
        expect: allow_constrained("spatial isPartOf DE,FR,IT"),
    });
    assert(request_view(probes@[14].request) =~~= operator_requests()[14]);
    assert(expect_extras_view(probes@[14].expect) =~~= operator_extras()[14]);

    probes.push(ProbeSpec {
        id: "op-ispartof-no-hierarchy",
        kind: NEGATIVE,
        title: "isPartOf is not hierarchy membership: Berlin is not part of Germany here",
        asserts: "Berlin genuinely IS part of Germany, which is exactly what ODRL's isPartOf means. This \
                  engine's version cannot see it -- the operator name is honest about intent, not about \
                  capability.",
        falsified_by: "Allow -- which would require a containment graph",
        request: one(
            c("spatial", Operator::IsPartOf, "https://www.geonames.org/2921044"),
            claims(vec![("spatial", s("https://www.geonames.org/2950159"))]),
        ),
        patches: vec![],
        expect: deny(closed_deny("use").as_str()),
    });
    assert(request_view(probes@[15].request) =~~= operator_requests()[15]);
    assert(expect_extras_view(probes@[15].expect) =~~= operator_extras()[15]);

    probes.push(ProbeSpec {
        id: "op-ispartof-mirrors-isanyof",
        kind: NEGATIVE,
        title: "isPartOf is observationally a degenerate alias for isAnyOf",
        asserts: "This request differs from op-isanyof-hit by the operator token alone, and reaches the \
                  same decision -- the two operators run the identical test.",
        falsified_by: "Deny -- which would mean isPartOf is doing something isAnyOf does not",
        request: one(c("scope", Operator::IsPartOf, "read,write,delete"), claims(vec![("scope", s("write"))])),
        patches: vec![],
        expect: allow_constrained("scope isPartOf read,write,delete"),
    });
    assert(request_view(probes@[16].request) =~~= operator_requests()[16]);
    assert(expect_extras_view(probes@[16].expect) =~~= operator_extras()[16]);

    probes.push(ProbeSpec {
        id: "op-lt-fractional-chronological",
        kind: POSITIVE,
        title: "lt orders timestamps chronologically, not lexically",
        asserts: "Lexically \"2024-02-12T11:20:00Z\" sorts AFTER \"2024-02-12T11:20:00.5Z\" (Z > .), so a \
                  string comparison would miss. Chronologically it is half a second earlier, so an Allow \
                  here is proof the comparison is temporal.",
        falsified_by: "Deny -- which is exactly what a lexical comparison would produce",
        request: one(
            c("dateTime", Operator::Lt, "2024-02-12T11:20:00.5Z"),
            claims(vec![("dateTime", s("2024-02-12T11:20:00Z"))]),
        ),
        patches: vec![],
        expect: allow_constrained("dateTime lt 2024-02-12T11:20:00.5Z"),
    });
    assert(request_view(probes@[17].request) =~~= operator_requests()[17]);
    assert(expect_extras_view(probes@[17].expect) =~~= operator_extras()[17]);

    probes.push(ProbeSpec {
        id: "op-lteq-xsd-date",
        kind: POSITIVE,
        title: "a bare xsd:date claim is read as midnight UTC",
        asserts: "\"2024-02-12\" equals \"2024-02-12T00:00:00Z\" under this engine's stated convention, so \
                  lteq holds at the boundary.",
        falsified_by: "Deny -- which would mean only the full dateTime lexical form is accepted",
        request: one(
            c("dateTime", Operator::Lteq, "2024-02-12T00:00:00Z"),
            claims(vec![("dateTime", s("2024-02-12"))]),
        ),
        patches: vec![],
        expect: allow_constrained("dateTime lteq 2024-02-12T00:00:00Z"),
    });
    assert(request_view(probes@[18].request) =~~= operator_requests()[18]);
    assert(expect_extras_view(probes@[18].expect) =~~= operator_extras()[18]);

    probes.push(ProbeSpec {
        id: "op-lt-offset-datetime",
        kind: POSITIVE,
        title: "a numeric UTC offset is normalized before comparison",
        asserts: "13:20+02:00 is 11:20Z, which is before 12:00Z. A UTC-only reader comparing the hour \
                  field would miss this.",
        falsified_by: "Deny",
        request: one(
            c("dateTime", Operator::Lt, "2024-02-12T12:00:00Z"),
            claims(vec![("dateTime", s("2024-02-12T13:20:00+02:00"))]),
        ),
        patches: vec![],
        expect: allow_constrained("dateTime lt 2024-02-12T12:00:00Z"),
    });
    assert(request_view(probes@[19].request) =~~= operator_requests()[19]);
    assert(expect_extras_view(probes@[19].expect) =~~= operator_extras()[19]);

    probes.push(ProbeSpec {
        id: "op-gteq-numeric-boundary",
        kind: POSITIVE,
        title: "gteq includes its boundary",
        asserts: "10 gteq 10 holds.",
        falsified_by: "Deny",
        request: one(c("count", Operator::Gteq, "10"), claims(vec![("count", s("10"))])),
        patches: vec![],
        expect: allow_constrained("count gteq 10"),
    });
    assert(request_view(probes@[20].request) =~~= operator_requests()[20]);
    assert(expect_extras_view(probes@[20].expect) =~~= operator_extras()[20]);

    probes.push(ProbeSpec {
        id: "op-gt-numeric-boundary",
        kind: NEGATIVE,
        title: "gt excludes its boundary",
        asserts: "The strict/non-strict pair over the identical claim: 10 is not gt 10.",
        falsified_by: "Allow -- which would make gt and gteq indistinguishable",
        request: one(c("count", Operator::Gt, "10"), claims(vec![("count", s("10"))])),
        patches: vec![],
        expect: deny(closed_deny("use").as_str()),
    });
    assert(request_view(probes@[21].request) =~~= operator_requests()[21]);
    assert(expect_extras_view(probes@[21].expect) =~~= operator_extras()[21]);

    probes.push(ProbeSpec {
        id: "op-lt-mixed-type-miss",
        kind: NEGATIVE,
        title: "comparing a timestamp against a number is a silent miss, not a coercion",
        asserts: "Neither the temporal pairing nor the numeric fallback succeeds when the two sides are \
                  different kinds of value. The engine misses rather than coercing one into the other.",
        falsified_by: "Allow -- which would mean cross-type coercion happens somewhere",
        request: one(c("dateTime", Operator::Lt, "99999"), claims(vec![("dateTime", s("2024-02-12T11:20:00Z"))])),
        patches: vec![],
        expect: deny(closed_deny("use").as_str()),
    });
    assert(request_view(probes@[22].request) =~~= operator_requests()[22]);
    assert(expect_extras_view(probes@[22].expect) =~~= operator_extras()[22]);

    // The three operator-token probes below are literally one policy
    // structure varying only the `operator` string.
    probes.push(ProbeSpec {
        id: "op-isa-unparseable",
        kind: NEGATIVE,
        title: "isA is not in the operator enum, so the whole request fails to parse",
        asserts: "The engine's Operator is a closed Rust enum. An out-of-enum token is not an unknown \
                  field to be ignored -- it fails deserialization, and the ABI answers Error with the \
                  serde message. Read against op-isa-control-eq, the byte-identical request with a \
                  supported token.",
        falsified_by: "Allow or Deny -- either would mean the token was tolerated somehow",
        request: operator_token_request(),
        patches: vec![Patch::set("/policies/0/permissions/0/constraints/0", "operator", jstr("isA"))],
        expect: error(&["request did not parse as the documented Section 5.2 JSON shape", "isA"]),
    });
    assert(request_view(probes@[23].request) =~~= operator_requests()[23]);
    assert(expect_extras_view(probes@[23].expect) =~~= operator_extras()[23]);

    probes.push(ProbeSpec {
        id: "op-haspart-unparseable",
        kind: NEGATIVE,
        title: "hasPart is not in the operator enum either",
        asserts: "The same policy structure as op-isa-unparseable, varying only the operator token: the \
                  enum is closed at the engine's own compile time, not per-token.",
        falsified_by: "Allow or Deny",
        request: operator_token_request(),
        patches: vec![Patch::set("/policies/0/permissions/0/constraints/0", "operator", jstr("hasPart"))],
        expect: error(&["request did not parse as the documented Section 5.2 JSON shape", "hasPart"]),
    });
    assert(request_view(probes@[24].request) =~~= operator_requests()[24]);
    assert(expect_extras_view(probes@[24].expect) =~~= operator_extras()[24]);

    probes.push(ProbeSpec {
        id: "op-isa-control-eq",
        kind: POSITIVE,
        title: "the same request with a supported operator parses and matches",
        asserts: "The control for both unparseable-operator probes: identical policy, identical claim, \
                  operator `eq` -- so the Error above is the operator token and nothing else about the \
                  request.",
        falsified_by: "anything but Allow -- which would mean the pair proves nothing about operators",
        request: operator_token_request(),
        patches: vec![],
        expect: allow_constrained("purpose eq odrl:Purpose"),
    });
    assert(request_view(probes@[25].request) =~~= operator_requests()[25]);
    assert(expect_extras_view(probes@[25].expect) =~~= operator_extras()[25]);

    probes.push(ProbeSpec {
        id: "op-profile-operator-unparseable",
        kind: NEGATIVE,
        title: "declaring an operator extension in the profile changes nothing",
        asserts: "The config declares `ex:withinRadius` as an odrl:Operator -- the real ODRL profile \
                  extension point -- and the constraint then uses it. The request still fails to parse. \
                  The enum is fixed at the engine's compile time; no wire-level declaration can widen it.",
        falsified_by: "Allow or Deny -- either would mean profile-declared operators take effect",
        request: operator_token_request(),
        patches: vec![
            Patch::set("/config", "odrl:operator", jrefs("ex:withinRadius")),
            Patch::set("/policies/0/permissions/0/constraints/0", "operator", jstr("ex:withinRadius")),
        ],
        expect: error(&["request did not parse as the documented Section 5.2 JSON shape", "unknown variant"]),
    });
    assert(request_view(probes@[26].request) =~~= operator_requests()[26]);
    assert(expect_extras_view(probes@[26].expect) =~~= operator_extras()[26]);

        assert(heads(probes@) =~= operator_heads());
        assert(texts(probes@) =~= operator_texts());
        assert(reasons(probes@) =~~= operator_reasons());
        assert(patch_lists(probes@) =~~= operator_patches());
        assert(requests(probes@) =~= operator_requests());
        assert(extras(probes@) =~= operator_extras());
    probes
}

} // verus!
