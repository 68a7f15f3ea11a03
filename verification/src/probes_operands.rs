//! Coverage probes, category 2: left operands.

use vstd::prelude::*;
use crate::wire::ConstraintV;
use crate::rdf_translate::ClaimV;
use crate::patch::PatchV;
use crate::json::JsonV;
use crate::coverage::{closed_deny_text, constrained_allow_text, base_allow_text};
use crate::text::concat2;
use crate::wire::Operator;
use crate::coverage::{deny, error, closed_deny, allow_constrained};
use crate::probe::{ProbeSpec, heads, texts, reasons, patch_lists, ref_json, refs_json, POSITIVE, NEGATIVE, policy, c, s, m, claims, no_claims, one, constrained};

use crate::probe::{RequestV, request_view, expect_extras_view, requests, extras, one_v, put_all};
use crate::wire::{atom_v};
verus! {

/// The `(id, kind, expected decision)` of each probe [`left_operand_probes`] writes, in order.
pub open spec fn left_operand_heads() -> Seq<(Seq<char>, Seq<char>, Seq<char>)> {
    seq![
        ("lo-extension-hit"@, POSITIVE@, "Allow"@),
        ("lo-extension-miss"@, NEGATIVE@, "Deny"@),
        ("lo-datetime-hit"@, POSITIVE@, "Allow"@),
        ("lo-datetime-miss"@, NEGATIVE@, "Deny"@),
        ("lo-datetime-absent-no-clock"@, NEGATIVE@, "Deny"@),
        ("lo-count-hit"@, POSITIVE@, "Allow"@),
        ("lo-count-miss"@, NEGATIVE@, "Deny"@),
        ("lo-count-absent-not-stateful"@, NEGATIVE@, "Deny"@),
        ("lo-count-nonnumeric-miss"@, NEGATIVE@, "Deny"@),
        ("lo-count-infinity-rejected"@, NEGATIVE@, "Deny"@),
        ("lo-payamount-decimal"@, POSITIVE@, "Allow"@),
        ("lo-spatial-flat-hit"@, POSITIVE@, "Allow"@),
        ("lo-spatial-no-containment"@, NEGATIVE@, "Deny"@),
        ("lo-purpose-opaque-hit"@, POSITIVE@, "Allow"@),
        ("lo-language-no-bcp47"@, NEGATIVE@, "Deny"@),
        ("lo-event-no-period-ordering"@, NEGATIVE@, "Deny"@),
        ("lo-duration-metering-example"@, POSITIVE@, "Allow"@),
        ("lo-duration-malformed-miss"@, NEGATIVE@, "Deny"@),
        ("lo-coordinates-string-eq"@, POSITIVE@, "Allow"@),
        ("lo-coordinates-no-geometry"@, NEGATIVE@, "Deny"@),
        ("lo-absoluteposition-no-ordering"@, NEGATIVE@, "Deny"@),
        ("lo-unitofcount-page"@, NEGATIVE@, "Allow"@),
        ("lo-unitofcount-volume"@, NEGATIVE@, "Allow"@),
        ("lo-unitofcount-as-plain-key"@, POSITIVE@, "Allow"@),
        ("lo-policyusage-literal"@, NEGATIVE@, "Allow"@),
        ("lo-policyusage-absent"@, NEGATIVE@, "Deny"@),
    ]
}

/// The `(title, asserts, falsified_by)` of each probe [`left_operand_probes`] writes, in order.
pub open spec fn left_operand_texts() -> Seq<(Seq<char>, Seq<char>, Seq<char>)> {
    seq![
        (
            "a profile-invented left operand IRI works as an ordinary claims key"@,
            "leftOperand is a free-form key into the claims map, so an extension operand needs no \
                  registration at all -- the one place this design is strictly better off than a closed \
                  enum. The reason renders the full IRI, so nothing was normalized away."@,
            "Deny -- which would mean unknown left operands are rejected rather than looked up"@,
        ),
        (
            "the same extension operand misses when the claim does not match"@,
            "The pair's other half: without it, an engine that ignored constraints entirely would \
                  pass lo-extension-hit."@,
            "Allow"@,
        ),
        (
            "dateTime compares chronologically when the host injects the claim"@,
            "The engine parses both sides as xsd:dateTime and orders them."@,
            "Deny"@,
        ),
        (
            "dateTime misses on the far side of the boundary"@,
            "Same constraint, a claim past the bound."@,
            "Allow"@,
        ),
        (
            "with no dateTime claim there is no clock to fall back on"@,
            "ODRL's dateTime means \"the current moment\"; this engine has no idea what that is. \
                  engine.wasm is instantiated with an EMPTY import object (engine_bridge::\
                  load_engine_instance), so this is a structural property of the artifact this page \
                  loaded, not a policy choice: there is no host function it could call for the time."@,
            "Allow -- which would mean the guest synthesised a clock from somewhere"@,
        ),
        (
            "count compares numerically against a host-supplied claim"@,
            "`count lteq 10` is expressible and evaluated as a number, not a string."@,
            "Deny"@,
        ),
        (
            "count misses above the bound"@,
            "11 is not lteq 10 -- and \"11\" < \"10\" lexically, so an Allow here would also be \
                  evidence of string comparison rather than numeric."@,
            "Allow"@,
        ),
        (
            "with no count claim the engine counts nothing itself"@,
            "ODRL's count is a *stateful execution count*. A stateless engine keeps no history; \
                  count only ever means what a host put in the claims map."@,
            "Allow -- which would mean the engine invented an execution count"@,
        ),
        (
            "a non-numeric count claim is a silent miss, not an error"@,
            "\"seven\" parses as neither a temporal value nor a number, so the ordering operators \
                  miss -- the same posture an absent key already has, not a Decision::Error."@,
            "Allow, or Error"@,
        ),
        (
            "a claim of literally \"inf\" does not vacuously satisfy gt"@,
            "Rust's str::parse::<f64> accepts \"inf\"; without the engine's own is_finite() guard \
                  this claim would make `gt`/`gteq` match every finite bound, silently."@,
            "Allow -- which is exactly the fail-open the is_finite() guard exists to stop"@,
        ),
        (
            "payAmount compares as a decimal number"@,
            "The numeric path is not integer-only: 5.5 gteq 5.00 holds, and lexically \"5.5\" > \
                  \"5.00\" would too -- so this is read together with lo-count-miss, whose lexical and \
                  numeric answers differ."@,
            "Deny"@,
        ),
        (
            "spatial matches a flat region IRI by string equality"@,
            "The degenerate half of spatial support: an exact region code or IRI works."@,
            "Deny"@,
        ),
        (
            "spatial has no region containment: Berlin does not match Germany"@,
            "geonames 2950159 (Berlin) is genuinely inside 2921044 (Germany). The engine compares \
                  opaque strings, so a claim one level down the hierarchy never matches."@,
            "Allow -- which would mean a region hierarchy exists somewhere in the engine"@,
        ),
        (
            "purpose works losslessly as an opaque IRI-valued claim"@,
            "The left operands whose spec semantics are plain identity (purpose, industry, media, \
                  product, fileFormat, ...) lose nothing under opaque-string matching."@,
            "Deny"@,
        ),
        (
            "language has no BCP-47 range matching: en-GB does not match en"@,
            "Per BCP-47 basic filtering, the range `en` matches the tag `en-GB`. This engine \
                  compares strings, so it does not."@,
            "Allow -- which would mean language-range handling exists"@,
        ),
        (
            "event has no period ordering: lt over two event IRIs is a miss"@,
            "The spec reads `event lt <IRI>` as \"before that event's period\". Neither side parses \
                  as a temporal value or a number here, so the ordering operator misses rather than \
                  dereferencing anything."@,
            "Allow -- which would require modelling event periods"@,
        ),
        (
            "xsd:duration is parsed by magnitude: PT30M lteq PT60M allows"@,
            "The spec's own metering example (ODRL 2.2 Vocabulary Section 4.5). Read against \
                  lo-duration-malformed-miss, which is the same left operand and operator with a \
                  malformed duration and Denies -- so this is genuine ISO-8601 duration parsing, not \
                  a lexical accident."@,
            "Deny -- which would mean the duration parser regressed"@,
        ),
        (
            "a malformed duration still misses rather than silently matching"@,
            "The control for lo-duration-metering-example: same left operand and operator, but the \
                  claim is not a well-formed ISO-8601 duration (no unit letters at all), so it satisfies \
                  neither the temporal, duration, nor numeric fallback and correctly misses."@,
            "Allow -- which would mean an unparseable value is silently accepted somewhere"@,
        ),
        (
            "spatialCoordinates matches only as an exact string"@,
            "A coordinate pair is carried faithfully and compared as text."@,
            "Deny"@,
        ),
        (
            "coordinates about ten metres apart do not match"@,
            "48.8567,2.3523 is roughly 10 m from 48.8566,2.3522 -- the same place by any geometric \
                  reading. There is no geometry math anywhere in the engine."@,
            "Allow -- which would require a distance or containment computation"@,
        ),
        (
            "absolutePosition has no ordering: lt over coordinate pairs misses"@,
            "\"48.8566,2.3522\" parses as neither a temporal value nor a number, so an ordering \
                  operator over positions is a silent miss."@,
            "Allow"@,
        ),
        (
            "unitOfCount: page does not qualify the count constraint"@,
            "Read against lo-unitofcount-volume, which is the same request with a different \
                  unitOfCount claim and reaches the identical decision and the identical reason -- so the \
                  unit never enters the evaluation at all."@,
            "a decision or reason differing from lo-unitofcount-volume's"@,
        ),
        (
            "unitOfCount: volume reaches exactly the same decision and reason"@,
            "The other half of the pair: two mutually exclusive units, one indistinguishable answer."@,
            "a decision or reason differing from lo-unitofcount-page's"@,
        ),
        (
            "unitOfCount is only ever an ordinary opaque claims key"@,
            "The one thing it can do: be constrained directly, like any other free-form key. It is \
                  never a qualifier on another constraint."@,
            "Deny"@,
        ),
        (
            "odrl:policyUsage is compared as a bare string, not as execution history"@,
            "The reserved right operand means \"the moment this policy was used\". Here it matches \
                  only because a host put the literal string in the claims map."@,
            "Deny -- which would only mean this catalog mis-stated the string comparison"@,
        ),
        (
            "with no host-injected claim, odrl:policyUsage means nothing"@,
            "The pair's point: the engine keeps no execution history, so the reserved right operand \
                  carries no meaning of its own."@,
            "Allow -- which would mean the engine tracked its own past usage"@,
        ),
    ]
}

/// What the reason of each probe [`left_operand_probes`] writes must contain and must not
/// contain, in order.
pub open spec fn left_operand_reasons() -> Seq<(Seq<Seq<char>>, Seq<Seq<char>>)> {
    seq![
        (seq![constrained_allow_text("https://example.org/ns#loyaltyTier"@ + " eq gold"@)], seq![]),
        (seq![closed_deny_text("use"@)], seq![]),
        (seq![constrained_allow_text("dateTime lt 2027-01-01T00:00:00Z"@)], seq![]),
        (seq![closed_deny_text("use"@)], seq![]),
        (seq![closed_deny_text("use"@)], seq![]),
        (seq![constrained_allow_text("count lteq 10"@)], seq![]),
        (seq![closed_deny_text("use"@)], seq![]),
        (seq![closed_deny_text("use"@)], seq![]),
        (seq![closed_deny_text("use"@)], seq![]),
        (seq![closed_deny_text("use"@)], seq![]),
        (seq![constrained_allow_text("payAmount gteq 5.00"@)], seq![]),
        (seq![constrained_allow_text("spatial eq https://www.geonames.org/2921044"@)], seq![]),
        (seq![closed_deny_text("use"@)], seq![]),
        (seq![constrained_allow_text("purpose eq http://example.com/Purpose:research"@)], seq![]),
        (seq![closed_deny_text("use"@)], seq![]),
        (seq![closed_deny_text("use"@)], seq![]),
        (seq![constrained_allow_text("meteredTime lteq PT60M"@)], seq![]),
        (seq![closed_deny_text("use"@)], seq![]),
        (seq![constrained_allow_text("spatialCoordinates eq 48.8566,2.3522"@)], seq![]),
        (seq![closed_deny_text("use"@)], seq![]),
        (seq![closed_deny_text("use"@)], seq![]),
        (seq![constrained_allow_text("count lteq 10"@)], seq![]),
        (seq![constrained_allow_text("count lteq 10"@)], seq![]),
        (seq![constrained_allow_text("unitOfCount eq page"@)], seq![]),
        (seq![constrained_allow_text("event eq odrl:policyUsage"@)], seq![]),
        (seq![closed_deny_text("use"@)], seq![]),
    ]
}

/// The patches of each probe [`left_operand_probes`] writes, in order.
pub open spec fn left_operand_patches() -> Seq<Seq<PatchV>> {
    seq![
        seq![],
        seq![],
        seq![],
        seq![],
        seq![],
        seq![],
        seq![],
        seq![],
        seq![],
        seq![],
        seq![],
        seq![],
        seq![],
        seq![],
        seq![],
        seq![],
        seq![],
        seq![],
        seq![],
        seq![],
        seq![],
        seq![],
        seq![],
        seq![],
        seq![],
        seq![],
    ]
}

/// The request of each probe [`left_operand_probes`] writes, in order.
pub open spec fn left_operand_requests() -> Seq<RequestV> {
    seq![
        one_v(atom_v("https://example.org/ns#loyaltyTier"@, Operator::Eq, "gold"@), put_all(seq![("https://example.org/ns#loyaltyTier"@, ClaimV::Single("gold"@))])),
        one_v(atom_v("https://example.org/ns#loyaltyTier"@, Operator::Eq, "gold"@), put_all(seq![("https://example.org/ns#loyaltyTier"@, ClaimV::Single("silver"@))])),
        one_v( atom_v("dateTime"@, Operator::Lt, "2027-01-01T00:00:00Z"@), put_all(seq![("dateTime"@, ClaimV::Single("2026-09-05T12:00:00Z"@))]), ),
        one_v( atom_v("dateTime"@, Operator::Lt, "2027-01-01T00:00:00Z"@), put_all(seq![("dateTime"@, ClaimV::Single("2027-06-01T00:00:00Z"@))]), ),
        one_v(atom_v("dateTime"@, Operator::Lt, "2027-01-01T00:00:00Z"@), Seq::empty()),
        one_v(atom_v("count"@, Operator::Lteq, "10"@), put_all(seq![("count"@, ClaimV::Single("7"@))])),
        one_v(atom_v("count"@, Operator::Lteq, "10"@), put_all(seq![("count"@, ClaimV::Single("11"@))])),
        one_v(atom_v("count"@, Operator::Lteq, "10"@), Seq::empty()),
        one_v(atom_v("count"@, Operator::Lteq, "10"@), put_all(seq![("count"@, ClaimV::Single("seven"@))])),
        one_v(atom_v("count"@, Operator::Gt, "0"@), put_all(seq![("count"@, ClaimV::Single("inf"@))])),
        one_v(atom_v("payAmount"@, Operator::Gteq, "5.00"@), put_all(seq![("payAmount"@, ClaimV::Single("5.5"@))])),
        one_v( atom_v("spatial"@, Operator::Eq, "https://www.geonames.org/2921044"@), put_all(seq![("spatial"@, ClaimV::Single("https://www.geonames.org/2921044"@))]), ),
        one_v( atom_v("spatial"@, Operator::Eq, "https://www.geonames.org/2921044"@), put_all(seq![("spatial"@, ClaimV::Single("https://www.geonames.org/2950159"@))]), ),
        one_v( atom_v("purpose"@, Operator::Eq, "http://example.com/Purpose:research"@), put_all(seq![("purpose"@, ClaimV::Single("http://example.com/Purpose:research"@))]), ),
        one_v(atom_v("language"@, Operator::Eq, "en"@), put_all(seq![("language"@, ClaimV::Single("en-GB"@))])),
        one_v( atom_v("event"@, Operator::Lt, "https://example.org/events/conf2"@), put_all(seq![("event"@, ClaimV::Single("https://example.org/events/conf"@))]), ),
        one_v(atom_v("meteredTime"@, Operator::Lteq, "PT60M"@), put_all(seq![("meteredTime"@, ClaimV::Single("PT30M"@))])),
        one_v(atom_v("meteredTime"@, Operator::Lteq, "PT60M"@), put_all(seq![("meteredTime"@, ClaimV::Single("thirty minutes"@))])),
        one_v( atom_v("spatialCoordinates"@, Operator::Eq, "48.8566,2.3522"@), put_all(seq![("spatialCoordinates"@, ClaimV::Single("48.8566,2.3522"@))]), ),
        one_v( atom_v("spatialCoordinates"@, Operator::Eq, "48.8566,2.3522"@), put_all(seq![("spatialCoordinates"@, ClaimV::Single("48.8567,2.3523"@))]), ),
        one_v( atom_v("absolutePosition"@, Operator::Lt, "49,3"@), put_all(seq![("absolutePosition"@, ClaimV::Single("48.8566,2.3522"@))]), ),
        one_v(atom_v("count"@, Operator::Lteq, "10"@), put_all(seq![("count"@, ClaimV::Single("7"@)), ("unitOfCount"@, ClaimV::Single("page"@))])),
        one_v(atom_v("count"@, Operator::Lteq, "10"@), put_all(seq![("count"@, ClaimV::Single("7"@)), ("unitOfCount"@, ClaimV::Single("volume"@))])),
        one_v(atom_v("unitOfCount"@, Operator::Eq, "page"@), put_all(seq![("unitOfCount"@, ClaimV::Single("page"@))])),
        one_v(atom_v("event"@, Operator::Eq, "odrl:policyUsage"@), put_all(seq![("event"@, ClaimV::Single("odrl:policyUsage"@))])),
        one_v(atom_v("event"@, Operator::Eq, "odrl:policyUsage"@), Seq::empty()),
    ]
}

/// What the expectation of each probe [`left_operand_probes`] writes says of duties and of
/// the dataset, in order.
pub open spec fn left_operand_extras() -> Seq<(Option<Seq<(Seq<char>, Seq<char>, bool, Option<Seq<char>>)>>, Option<Seq<char>>)> {
    seq![
        (None::<Seq<(Seq<char>, Seq<char>, bool, Option<Seq<char>>)>>, None::<Seq<char>>),
        (None::<Seq<(Seq<char>, Seq<char>, bool, Option<Seq<char>>)>>, None::<Seq<char>>),
        (None::<Seq<(Seq<char>, Seq<char>, bool, Option<Seq<char>>)>>, None::<Seq<char>>),
        (None::<Seq<(Seq<char>, Seq<char>, bool, Option<Seq<char>>)>>, None::<Seq<char>>),
        (None::<Seq<(Seq<char>, Seq<char>, bool, Option<Seq<char>>)>>, None::<Seq<char>>),
        (None::<Seq<(Seq<char>, Seq<char>, bool, Option<Seq<char>>)>>, None::<Seq<char>>),
        (None::<Seq<(Seq<char>, Seq<char>, bool, Option<Seq<char>>)>>, None::<Seq<char>>),
        (None::<Seq<(Seq<char>, Seq<char>, bool, Option<Seq<char>>)>>, None::<Seq<char>>),
        (None::<Seq<(Seq<char>, Seq<char>, bool, Option<Seq<char>>)>>, None::<Seq<char>>),
        (None::<Seq<(Seq<char>, Seq<char>, bool, Option<Seq<char>>)>>, None::<Seq<char>>),
        (None::<Seq<(Seq<char>, Seq<char>, bool, Option<Seq<char>>)>>, None::<Seq<char>>),
        (None::<Seq<(Seq<char>, Seq<char>, bool, Option<Seq<char>>)>>, None::<Seq<char>>),
        (None::<Seq<(Seq<char>, Seq<char>, bool, Option<Seq<char>>)>>, None::<Seq<char>>),
        (None::<Seq<(Seq<char>, Seq<char>, bool, Option<Seq<char>>)>>, None::<Seq<char>>),
        (None::<Seq<(Seq<char>, Seq<char>, bool, Option<Seq<char>>)>>, None::<Seq<char>>),
        (None::<Seq<(Seq<char>, Seq<char>, bool, Option<Seq<char>>)>>, None::<Seq<char>>),
        (None::<Seq<(Seq<char>, Seq<char>, bool, Option<Seq<char>>)>>, None::<Seq<char>>),
        (None::<Seq<(Seq<char>, Seq<char>, bool, Option<Seq<char>>)>>, None::<Seq<char>>),
        (None::<Seq<(Seq<char>, Seq<char>, bool, Option<Seq<char>>)>>, None::<Seq<char>>),
        (None::<Seq<(Seq<char>, Seq<char>, bool, Option<Seq<char>>)>>, None::<Seq<char>>),
        (None::<Seq<(Seq<char>, Seq<char>, bool, Option<Seq<char>>)>>, None::<Seq<char>>),
        (None::<Seq<(Seq<char>, Seq<char>, bool, Option<Seq<char>>)>>, None::<Seq<char>>),
        (None::<Seq<(Seq<char>, Seq<char>, bool, Option<Seq<char>>)>>, None::<Seq<char>>),
        (None::<Seq<(Seq<char>, Seq<char>, bool, Option<Seq<char>>)>>, None::<Seq<char>>),
        (None::<Seq<(Seq<char>, Seq<char>, bool, Option<Seq<char>>)>>, None::<Seq<char>>),
        (None::<Seq<(Seq<char>, Seq<char>, bool, Option<Seq<char>>)>>, None::<Seq<char>>),
    ]
}

/// Category 2, left operands: a free-form left operand is a claims key
/// compared as dateTime, number, duration or opaque string; an absent claim
/// is never synthesised (no clock, no execution count, no usage history);
/// no region, language-range, period or geometry reasoning; and
/// `unitOfCount` never qualifies another constraint.
#[verifier::rlimit(80)]
pub fn left_operand_probes() -> (r: Vec<ProbeSpec>)
    ensures
        heads(r@) == left_operand_heads(),
        texts(r@) == left_operand_texts(),
        reasons(r@) == left_operand_reasons(),
        patch_lists(r@) == left_operand_patches(),
        requests(r@) == left_operand_requests(),
        extras(r@) == left_operand_extras(),
{
    let mut probes: Vec<ProbeSpec> = Vec::new();

    let tier = "https://example.org/ns#loyaltyTier";

    probes.push(ProbeSpec {
        id: "lo-extension-hit",
        kind: POSITIVE,
        title: "a profile-invented left operand IRI works as an ordinary claims key",
        asserts: "leftOperand is a free-form key into the claims map, so an extension operand needs no \
                  registration at all -- the one place this design is strictly better off than a closed \
                  enum. The reason renders the full IRI, so nothing was normalized away.",
        falsified_by: "Deny -- which would mean unknown left operands are rejected rather than looked up",
        request: one(c(tier, Operator::Eq, "gold"), claims(vec![(tier, s("gold"))])),
        patches: vec![],
        expect: allow_constrained(concat2(tier, " eq gold").as_str()),
    });
    assert(request_view(probes@[0].request) =~~= left_operand_requests()[0]);
    assert(expect_extras_view(probes@[0].expect) =~~= left_operand_extras()[0]);

    probes.push(ProbeSpec {
        id: "lo-extension-miss",
        kind: NEGATIVE,
        title: "the same extension operand misses when the claim does not match",
        asserts: "The pair's other half: without it, an engine that ignored constraints entirely would \
                  pass lo-extension-hit.",
        falsified_by: "Allow",
        request: one(c(tier, Operator::Eq, "gold"), claims(vec![(tier, s("silver"))])),
        patches: vec![],
        expect: deny(closed_deny("use").as_str()),
    });
    assert(request_view(probes@[1].request) =~~= left_operand_requests()[1]);
    assert(expect_extras_view(probes@[1].expect) =~~= left_operand_extras()[1]);

    probes.push(ProbeSpec {
        id: "lo-datetime-hit",
        kind: POSITIVE,
        title: "dateTime compares chronologically when the host injects the claim",
        asserts: "The engine parses both sides as xsd:dateTime and orders them.",
        falsified_by: "Deny",
        request: one(
            c("dateTime", Operator::Lt, "2027-01-01T00:00:00Z"),
            claims(vec![("dateTime", s("2026-09-05T12:00:00Z"))]),
        ),
        patches: vec![],
        expect: allow_constrained("dateTime lt 2027-01-01T00:00:00Z"),
    });
    assert(request_view(probes@[2].request) =~~= left_operand_requests()[2]);
    assert(expect_extras_view(probes@[2].expect) =~~= left_operand_extras()[2]);

    probes.push(ProbeSpec {
        id: "lo-datetime-miss",
        kind: NEGATIVE,
        title: "dateTime misses on the far side of the boundary",
        asserts: "Same constraint, a claim past the bound.",
        falsified_by: "Allow",
        request: one(
            c("dateTime", Operator::Lt, "2027-01-01T00:00:00Z"),
            claims(vec![("dateTime", s("2027-06-01T00:00:00Z"))]),
        ),
        patches: vec![],
        expect: deny(closed_deny("use").as_str()),
    });
    assert(request_view(probes@[3].request) =~~= left_operand_requests()[3]);
    assert(expect_extras_view(probes@[3].expect) =~~= left_operand_extras()[3]);

    probes.push(ProbeSpec {
        id: "lo-datetime-absent-no-clock",
        kind: NEGATIVE,
        title: "with no dateTime claim there is no clock to fall back on",
        asserts: "ODRL's dateTime means \"the current moment\"; this engine has no idea what that is. \
                  engine.wasm is instantiated with an EMPTY import object (engine_bridge::\
                  load_engine_instance), so this is a structural property of the artifact this page \
                  loaded, not a policy choice: there is no host function it could call for the time.",
        falsified_by: "Allow -- which would mean the guest synthesised a clock from somewhere",
        request: one(c("dateTime", Operator::Lt, "2027-01-01T00:00:00Z"), no_claims()),
        patches: vec![],
        expect: deny(closed_deny("use").as_str()),
    });
    assert(request_view(probes@[4].request) =~~= left_operand_requests()[4]);
    assert(expect_extras_view(probes@[4].expect) =~~= left_operand_extras()[4]);

    probes.push(ProbeSpec {
        id: "lo-count-hit",
        kind: POSITIVE,
        title: "count compares numerically against a host-supplied claim",
        asserts: "`count lteq 10` is expressible and evaluated as a number, not a string.",
        falsified_by: "Deny",
        request: one(c("count", Operator::Lteq, "10"), claims(vec![("count", s("7"))])),
        patches: vec![],
        expect: allow_constrained("count lteq 10"),
    });
    assert(request_view(probes@[5].request) =~~= left_operand_requests()[5]);
    assert(expect_extras_view(probes@[5].expect) =~~= left_operand_extras()[5]);

    probes.push(ProbeSpec {
        id: "lo-count-miss",
        kind: NEGATIVE,
        title: "count misses above the bound",
        asserts: "11 is not lteq 10 -- and \"11\" < \"10\" lexically, so an Allow here would also be \
                  evidence of string comparison rather than numeric.",
        falsified_by: "Allow",
        request: one(c("count", Operator::Lteq, "10"), claims(vec![("count", s("11"))])),
        patches: vec![],
        expect: deny(closed_deny("use").as_str()),
    });
    assert(request_view(probes@[6].request) =~~= left_operand_requests()[6]);
    assert(expect_extras_view(probes@[6].expect) =~~= left_operand_extras()[6]);

    probes.push(ProbeSpec {
        id: "lo-count-absent-not-stateful",
        kind: NEGATIVE,
        title: "with no count claim the engine counts nothing itself",
        asserts: "ODRL's count is a *stateful execution count*. A stateless engine keeps no history; \
                  count only ever means what a host put in the claims map.",
        falsified_by: "Allow -- which would mean the engine invented an execution count",
        request: one(c("count", Operator::Lteq, "10"), no_claims()),
        patches: vec![],
        expect: deny(closed_deny("use").as_str()),
    });
    assert(request_view(probes@[7].request) =~~= left_operand_requests()[7]);
    assert(expect_extras_view(probes@[7].expect) =~~= left_operand_extras()[7]);

    probes.push(ProbeSpec {
        id: "lo-count-nonnumeric-miss",
        kind: NEGATIVE,
        title: "a non-numeric count claim is a silent miss, not an error",
        asserts: "\"seven\" parses as neither a temporal value nor a number, so the ordering operators \
                  miss -- the same posture an absent key already has, not a Decision::Error.",
        falsified_by: "Allow, or Error",
        request: one(c("count", Operator::Lteq, "10"), claims(vec![("count", s("seven"))])),
        patches: vec![],
        expect: deny(closed_deny("use").as_str()),
    });
    assert(request_view(probes@[8].request) =~~= left_operand_requests()[8]);
    assert(expect_extras_view(probes@[8].expect) =~~= left_operand_extras()[8]);

    probes.push(ProbeSpec {
        id: "lo-count-infinity-rejected",
        kind: NEGATIVE,
        title: "a claim of literally \"inf\" does not vacuously satisfy gt",
        asserts: "Rust's str::parse::<f64> accepts \"inf\"; without the engine's own is_finite() guard \
                  this claim would make `gt`/`gteq` match every finite bound, silently.",
        falsified_by: "Allow -- which is exactly the fail-open the is_finite() guard exists to stop",
        request: one(c("count", Operator::Gt, "0"), claims(vec![("count", s("inf"))])),
        patches: vec![],
        expect: deny(closed_deny("use").as_str()),
    });
    assert(request_view(probes@[9].request) =~~= left_operand_requests()[9]);
    assert(expect_extras_view(probes@[9].expect) =~~= left_operand_extras()[9]);

    probes.push(ProbeSpec {
        id: "lo-payamount-decimal",
        kind: POSITIVE,
        title: "payAmount compares as a decimal number",
        asserts: "The numeric path is not integer-only: 5.5 gteq 5.00 holds, and lexically \"5.5\" > \
                  \"5.00\" would too -- so this is read together with lo-count-miss, whose lexical and \
                  numeric answers differ.",
        falsified_by: "Deny",
        request: one(c("payAmount", Operator::Gteq, "5.00"), claims(vec![("payAmount", s("5.5"))])),
        patches: vec![],
        expect: allow_constrained("payAmount gteq 5.00"),
    });
    assert(request_view(probes@[10].request) =~~= left_operand_requests()[10]);
    assert(expect_extras_view(probes@[10].expect) =~~= left_operand_extras()[10]);

    probes.push(ProbeSpec {
        id: "lo-spatial-flat-hit",
        kind: POSITIVE,
        title: "spatial matches a flat region IRI by string equality",
        asserts: "The degenerate half of spatial support: an exact region code or IRI works.",
        falsified_by: "Deny",
        request: one(
            c("spatial", Operator::Eq, "https://www.geonames.org/2921044"),
            claims(vec![("spatial", s("https://www.geonames.org/2921044"))]),
        ),
        patches: vec![],
        expect: allow_constrained("spatial eq https://www.geonames.org/2921044"),
    });
    assert(request_view(probes@[11].request) =~~= left_operand_requests()[11]);
    assert(expect_extras_view(probes@[11].expect) =~~= left_operand_extras()[11]);

    probes.push(ProbeSpec {
        id: "lo-spatial-no-containment",
        kind: NEGATIVE,
        title: "spatial has no region containment: Berlin does not match Germany",
        asserts: "geonames 2950159 (Berlin) is genuinely inside 2921044 (Germany). The engine compares \
                  opaque strings, so a claim one level down the hierarchy never matches.",
        falsified_by: "Allow -- which would mean a region hierarchy exists somewhere in the engine",
        request: one(
            c("spatial", Operator::Eq, "https://www.geonames.org/2921044"),
            claims(vec![("spatial", s("https://www.geonames.org/2950159"))]),
        ),
        patches: vec![],
        expect: deny(closed_deny("use").as_str()),
    });
    assert(request_view(probes@[12].request) =~~= left_operand_requests()[12]);
    assert(expect_extras_view(probes@[12].expect) =~~= left_operand_extras()[12]);

    probes.push(ProbeSpec {
        id: "lo-purpose-opaque-hit",
        kind: POSITIVE,
        title: "purpose works losslessly as an opaque IRI-valued claim",
        asserts: "The left operands whose spec semantics are plain identity (purpose, industry, media, \
                  product, fileFormat, ...) lose nothing under opaque-string matching.",
        falsified_by: "Deny",
        request: one(
            c("purpose", Operator::Eq, "http://example.com/Purpose:research"),
            claims(vec![("purpose", s("http://example.com/Purpose:research"))]),
        ),
        patches: vec![],
        expect: allow_constrained("purpose eq http://example.com/Purpose:research"),
    });
    assert(request_view(probes@[13].request) =~~= left_operand_requests()[13]);
    assert(expect_extras_view(probes@[13].expect) =~~= left_operand_extras()[13]);

    probes.push(ProbeSpec {
        id: "lo-language-no-bcp47",
        kind: NEGATIVE,
        title: "language has no BCP-47 range matching: en-GB does not match en",
        asserts: "Per BCP-47 basic filtering, the range `en` matches the tag `en-GB`. This engine \
                  compares strings, so it does not.",
        falsified_by: "Allow -- which would mean language-range handling exists",
        request: one(c("language", Operator::Eq, "en"), claims(vec![("language", s("en-GB"))])),
        patches: vec![],
        expect: deny(closed_deny("use").as_str()),
    });
    assert(request_view(probes@[14].request) =~~= left_operand_requests()[14]);
    assert(expect_extras_view(probes@[14].expect) =~~= left_operand_extras()[14]);

    probes.push(ProbeSpec {
        id: "lo-event-no-period-ordering",
        kind: NEGATIVE,
        title: "event has no period ordering: lt over two event IRIs is a miss",
        asserts: "The spec reads `event lt <IRI>` as \"before that event's period\". Neither side parses \
                  as a temporal value or a number here, so the ordering operator misses rather than \
                  dereferencing anything.",
        falsified_by: "Allow -- which would require modelling event periods",
        request: one(
            c("event", Operator::Lt, "https://example.org/events/conf2"),
            claims(vec![("event", s("https://example.org/events/conf"))]),
        ),
        patches: vec![],
        expect: deny(closed_deny("use").as_str()),
    });
    assert(request_view(probes@[15].request) =~~= left_operand_requests()[15]);
    assert(expect_extras_view(probes@[15].expect) =~~= left_operand_extras()[15]);

    probes.push(ProbeSpec {
        id: "lo-duration-metering-example",
        kind: POSITIVE,
        title: "xsd:duration is parsed by magnitude: PT30M lteq PT60M allows",
        asserts: "The spec's own metering example (ODRL 2.2 Vocabulary Section 4.5). Read against \
                  lo-duration-malformed-miss, which is the same left operand and operator with a \
                  malformed duration and Denies -- so this is genuine ISO-8601 duration parsing, not \
                  a lexical accident.",
        falsified_by: "Deny -- which would mean the duration parser regressed",
        request: one(c("meteredTime", Operator::Lteq, "PT60M"), claims(vec![("meteredTime", s("PT30M"))])),
        patches: vec![],
        expect: allow_constrained("meteredTime lteq PT60M"),
    });
    assert(request_view(probes@[16].request) =~~= left_operand_requests()[16]);
    assert(expect_extras_view(probes@[16].expect) =~~= left_operand_extras()[16]);

    probes.push(ProbeSpec {
        id: "lo-duration-malformed-miss",
        kind: NEGATIVE,
        title: "a malformed duration still misses rather than silently matching",
        asserts: "The control for lo-duration-metering-example: same left operand and operator, but the \
                  claim is not a well-formed ISO-8601 duration (no unit letters at all), so it satisfies \
                  neither the temporal, duration, nor numeric fallback and correctly misses.",
        falsified_by: "Allow -- which would mean an unparseable value is silently accepted somewhere",
        request: one(c("meteredTime", Operator::Lteq, "PT60M"), claims(vec![("meteredTime", s("thirty minutes"))])),
        patches: vec![],
        expect: deny(closed_deny("use").as_str()),
    });
    assert(request_view(probes@[17].request) =~~= left_operand_requests()[17]);
    assert(expect_extras_view(probes@[17].expect) =~~= left_operand_extras()[17]);

    probes.push(ProbeSpec {
        id: "lo-coordinates-string-eq",
        kind: POSITIVE,
        title: "spatialCoordinates matches only as an exact string",
        asserts: "A coordinate pair is carried faithfully and compared as text.",
        falsified_by: "Deny",
        request: one(
            c("spatialCoordinates", Operator::Eq, "48.8566,2.3522"),
            claims(vec![("spatialCoordinates", s("48.8566,2.3522"))]),
        ),
        patches: vec![],
        expect: allow_constrained("spatialCoordinates eq 48.8566,2.3522"),
    });
    assert(request_view(probes@[18].request) =~~= left_operand_requests()[18]);
    assert(expect_extras_view(probes@[18].expect) =~~= left_operand_extras()[18]);

    probes.push(ProbeSpec {
        id: "lo-coordinates-no-geometry",
        kind: NEGATIVE,
        title: "coordinates about ten metres apart do not match",
        asserts: "48.8567,2.3523 is roughly 10 m from 48.8566,2.3522 -- the same place by any geometric \
                  reading. There is no geometry math anywhere in the engine.",
        falsified_by: "Allow -- which would require a distance or containment computation",
        request: one(
            c("spatialCoordinates", Operator::Eq, "48.8566,2.3522"),
            claims(vec![("spatialCoordinates", s("48.8567,2.3523"))]),
        ),
        patches: vec![],
        expect: deny(closed_deny("use").as_str()),
    });
    assert(request_view(probes@[19].request) =~~= left_operand_requests()[19]);
    assert(expect_extras_view(probes@[19].expect) =~~= left_operand_extras()[19]);

    probes.push(ProbeSpec {
        id: "lo-absoluteposition-no-ordering",
        kind: NEGATIVE,
        title: "absolutePosition has no ordering: lt over coordinate pairs misses",
        asserts: "\"48.8566,2.3522\" parses as neither a temporal value nor a number, so an ordering \
                  operator over positions is a silent miss.",
        falsified_by: "Allow",
        request: one(
            c("absolutePosition", Operator::Lt, "49,3"),
            claims(vec![("absolutePosition", s("48.8566,2.3522"))]),
        ),
        patches: vec![],
        expect: deny(closed_deny("use").as_str()),
    });
    assert(request_view(probes@[20].request) =~~= left_operand_requests()[20]);
    assert(expect_extras_view(probes@[20].expect) =~~= left_operand_extras()[20]);

    probes.push(ProbeSpec {
        id: "lo-unitofcount-page",
        kind: NEGATIVE,
        title: "unitOfCount: page does not qualify the count constraint",
        asserts: "Read against lo-unitofcount-volume, which is the same request with a different \
                  unitOfCount claim and reaches the identical decision and the identical reason -- so the \
                  unit never enters the evaluation at all.",
        falsified_by: "a decision or reason differing from lo-unitofcount-volume's",
        request: one(c("count", Operator::Lteq, "10"), claims(vec![("count", s("7")), ("unitOfCount", s("page"))])),
        patches: vec![],
        expect: allow_constrained("count lteq 10"),
    });
    assert(request_view(probes@[21].request) =~~= left_operand_requests()[21]);
    assert(expect_extras_view(probes@[21].expect) =~~= left_operand_extras()[21]);

    probes.push(ProbeSpec {
        id: "lo-unitofcount-volume",
        kind: NEGATIVE,
        title: "unitOfCount: volume reaches exactly the same decision and reason",
        asserts: "The other half of the pair: two mutually exclusive units, one indistinguishable answer.",
        falsified_by: "a decision or reason differing from lo-unitofcount-page's",
        request: one(c("count", Operator::Lteq, "10"), claims(vec![("count", s("7")), ("unitOfCount", s("volume"))])),
        patches: vec![],
        expect: allow_constrained("count lteq 10"),
    });
    assert(request_view(probes@[22].request) =~~= left_operand_requests()[22]);
    assert(expect_extras_view(probes@[22].expect) =~~= left_operand_extras()[22]);

    probes.push(ProbeSpec {
        id: "lo-unitofcount-as-plain-key",
        kind: POSITIVE,
        title: "unitOfCount is only ever an ordinary opaque claims key",
        asserts: "The one thing it can do: be constrained directly, like any other free-form key. It is \
                  never a qualifier on another constraint.",
        falsified_by: "Deny",
        request: one(c("unitOfCount", Operator::Eq, "page"), claims(vec![("unitOfCount", s("page"))])),
        patches: vec![],
        expect: allow_constrained("unitOfCount eq page"),
    });
    assert(request_view(probes@[23].request) =~~= left_operand_requests()[23]);
    assert(expect_extras_view(probes@[23].expect) =~~= left_operand_extras()[23]);

    probes.push(ProbeSpec {
        id: "lo-policyusage-literal",
        kind: NEGATIVE,
        title: "odrl:policyUsage is compared as a bare string, not as execution history",
        asserts: "The reserved right operand means \"the moment this policy was used\". Here it matches \
                  only because a host put the literal string in the claims map.",
        falsified_by: "Deny -- which would only mean this catalog mis-stated the string comparison",
        request: one(c("event", Operator::Eq, "odrl:policyUsage"), claims(vec![("event", s("odrl:policyUsage"))])),
        patches: vec![],
        expect: allow_constrained("event eq odrl:policyUsage"),
    });
    assert(request_view(probes@[24].request) =~~= left_operand_requests()[24]);
    assert(expect_extras_view(probes@[24].expect) =~~= left_operand_extras()[24]);

    probes.push(ProbeSpec {
        id: "lo-policyusage-absent",
        kind: NEGATIVE,
        title: "with no host-injected claim, odrl:policyUsage means nothing",
        asserts: "The pair's point: the engine keeps no execution history, so the reserved right operand \
                  carries no meaning of its own.",
        falsified_by: "Allow -- which would mean the engine tracked its own past usage",
        request: one(c("event", Operator::Eq, "odrl:policyUsage"), no_claims()),
        patches: vec![],
        expect: deny(closed_deny("use").as_str()),
    });
    assert(request_view(probes@[25].request) =~~= left_operand_requests()[25]);
    assert(expect_extras_view(probes@[25].expect) =~~= left_operand_extras()[25]);

        assert(heads(probes@) =~= left_operand_heads());
        assert(texts(probes@) =~= left_operand_texts());
        assert(reasons(probes@) =~~= left_operand_reasons());
        assert(patch_lists(probes@) =~~= left_operand_patches());
        assert(requests(probes@) =~= left_operand_requests());
        assert(extras(probes@) =~= left_operand_extras());
    probes
}

} // verus!
