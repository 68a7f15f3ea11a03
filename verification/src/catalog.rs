//! The coverage catalog: the ten sections of the ODRL 2.2 gap analysis and
//! the fifty-two vocabulary claims documented against them.

use vstd::prelude::*;
use vstd::string::*;
use crate::coverage::{Category, Row, IMPLEMENTED, PARTIAL, NOT_IMPLEMENTED, OUT_OF_SCOPE, own_all, strs_view, opt_view};
use crate::text::{owned, strings_view};
use crate::wire::WireActionDecl;
use crate::probe::{ProbeSpec, RequestV, heads, texts, reasons, patch_lists, requests, extras, decls_v};
use crate::patch::PatchV;
use crate::probes_actions::{action_probes, action_heads, action_texts, action_reasons, action_patches, action_requests, action_extras};
use crate::probes_operands::{left_operand_probes, left_operand_heads, left_operand_texts, left_operand_reasons, left_operand_patches, left_operand_requests, left_operand_extras};
use crate::probes_operators::{operator_probes, operator_heads, operator_texts, operator_reasons, operator_patches, operator_requests, operator_extras};
use crate::probes_logical::{logical_probes, logical_heads, logical_texts, logical_reasons, logical_patches, logical_requests, logical_extras};
use crate::probes_parties::{policy_class_probes, policy_class_heads, policy_class_texts, policy_class_reasons, policy_class_patches, policy_class_requests, policy_class_extras, party_probes, party_heads, party_texts, party_reasons, party_patches, party_requests, party_extras};
use crate::probes_duties::{duty_probes, duty_heads, duty_texts, duty_reasons, duty_patches, duty_requests, duty_extras};
use crate::probes_assets::{asset_probes, asset_heads, asset_texts, asset_reasons, asset_patches, asset_requests, asset_extras, conflict_probes, conflict_heads, conflict_texts, conflict_reasons, conflict_patches, conflict_requests, conflict_extras};
use crate::probes_other::{other_probes, other_heads, other_texts, other_reasons, other_patches, other_requests, other_extras};

verus! {

/// The caveat every profile-declared extension row carries: the probe
/// verifies the observable half only.
pub const EXTENSION_CAVEAT: &'static str = "The probe verifies the observable half -- declaring the extension changes \
                                nothing the engine does. That this is a deliberate design boundary rather \
                                than an oversight is a documented claim (engine/src/profile.rs's module \
                                doc), not something any probe can establish.";

/// The ids of the ten sections, in order.
pub open spec fn category_ids() -> Seq<Seq<char>> {
    seq![
        "actions"@, "left-operands"@, "operators"@, "logical"@, "policy-classes"@,
        "party"@, "duty"@, "assets"@, "conflict"@, "other"@,
    ]
}

/// One of the four documented statuses.
pub open spec fn is_documented_status(s: Seq<char>) -> bool {
    s == IMPLEMENTED@ || s == PARTIAL@ || s == NOT_IMPLEMENTED@ || s == OUT_OF_SCOPE@
}

/// A row is probed exactly when it is not documented-only.
pub open spec fn probed_xor_documented(r: Row) -> bool {
    (r.probe_ids@.len() == 0) <==> (r.documented_because is Some)
}

/// The shape every row of section `category` has; `documented` says
/// whether it is documented-only.
pub open spec fn row_shape(r: Row, category: Seq<char>, documented: bool) -> bool {
    &&& r.category@ == category
    &&& is_documented_status(r.status@)
    &&& probed_xor_documented(r)
    &&& (r.documented_because is Some) == documented
}

/// One row, as written in the catalog.
pub struct RowSpec {
    pub id: &'static str,
    pub category: &'static str,
    pub term: &'static str,
    pub status: &'static str,
    pub why: &'static str,
    pub evidence: &'static str,
    pub asserts: &'static str,
    pub probe_ids: Vec<&'static str>,
    pub documented_because: Option<&'static str>,
    pub caveat: Option<&'static str>,
}

/// The view of an optional string slice.
pub open spec fn opt_str_view(o: Option<&str>) -> Option<Seq<char>> {
    match o {
        Some(s) => Some(s@),
        None => None,
    }
}

/// A row as plain values: each text by its characters, the probe ids in
/// order, and the two optional texts.
#[verifier::ext_equal]
pub struct RowView {
    pub id: Seq<char>,
    pub category: Seq<char>,
    pub term: Seq<char>,
    pub status: Seq<char>,
    pub why: Seq<char>,
    pub evidence: Seq<char>,
    pub asserts: Seq<char>,
    pub probe_ids: Seq<Seq<char>>,
    pub documented_because: Option<Seq<char>>,
    pub caveat: Option<Seq<char>>,
}

/// The plain values of row `r`.
pub open spec fn row_view(r: Row) -> RowView {
    RowView {
        id: r.id@,
        category: r.category@,
        term: r.term@,
        status: r.status@,
        why: r.why@,
        evidence: r.evidence@,
        asserts: r.asserts@,
        probe_ids: strings_view(r.probe_ids@),
        documented_because: opt_view(r.documented_because),
        caveat: opt_view(r.caveat),
    }
}

/// An owned copy of an optional string slice.
fn own_opt(o: Option<&str>) -> (r: Option<String>)
    ensures
        opt_view(r) == opt_str_view(o),
{
    match o {
        Some(s) => Some(owned(s)),
        None => None,
    }
}

/// The row `spec` describes, with every field owned.
pub fn row(spec: RowSpec) -> (r: Row)
    ensures
        r.id@ == spec.id@,
        r.category@ == spec.category@,
        r.term@ == spec.term@,
        r.status@ == spec.status@,
        r.why@ == spec.why@,
        r.evidence@ == spec.evidence@,
        r.asserts@ == spec.asserts@,
        strings_view(r.probe_ids@) == strs_view(spec.probe_ids@),
        r.probe_ids@.len() == spec.probe_ids@.len(),
        opt_view(r.documented_because) == opt_str_view(spec.documented_because),
        opt_view(r.caveat) == opt_str_view(spec.caveat),
{
    let r = Row {
        id: owned(spec.id),
        category: owned(spec.category),
        term: owned(spec.term),
        status: owned(spec.status),
        why: owned(spec.why),
        evidence: owned(spec.evidence),
        asserts: owned(spec.asserts),
        probe_ids: own_all(spec.probe_ids.as_slice()),
        documented_because: own_opt(spec.documented_because),
        caveat: own_opt(spec.caveat),
    };
    assert(r.probe_ids@.len() == strings_view(r.probe_ids@).len());
    assert(spec.probe_ids@.len() == strs_view(spec.probe_ids@).len());
    r
}

fn category(id: &str, number: u32, title: &str, spec_ref: &str) -> (r: Category)
    ensures
        r.id@ == id@,
        r.number == number,
        r.title@ == title@,
        r.spec_ref@ == spec_ref@,
{
    Category { id: owned(id), number, title: owned(title), spec_ref: owned(spec_ref) }
}

/// The ten sections of the gap analysis, numbered from one.
pub fn categories() -> (r: Vec<Category>)
    ensures
        r@.len() == 10,
        forall|k: int| 0 <= k < 10 ==> (#[trigger] r@[k]).id@ == category_ids()[k] && r@[k].number == k + 1,
{
    let r = vec![
        category("actions", 1, "Actions", "odrl-vocab 3.12, 4.4"),
        category("left-operands", 2, "Left operands", "odrl-vocab 4.5"),
        category("operators", 3, "Operators", "odrl-vocab 2.9.4-2.9.15"),
        category("logical", 4, "Logical constraints", "odrl-vocab 2.10"),
        category("policy-classes", 5, "Policy classes", "odrl-model 2.4-2.6"),
        category("party", 6, "Party functions", "odrl-vocab 2.6, 4.2"),
        category("duty", 7, "Duty relations", "odrl-model 2.8, odrl-vocab 2.7"),
        category("assets", 8, "Asset relations", "odrl-model 2.3, odrl-vocab 2.5"),
        category("conflict", 9, "Conflict strategy", "odrl-model 2.10, odrl-vocab 2.11"),
        category("other", 10, "Other spec material", "odrl-model 2.2, 2.7, odrl-vocab 2.3"),
    ];
    r
}

/// The rows of section "actions".
fn action_rows() -> (r: Vec<Row>)
    ensures
        r@.len() == 5,
        forall|i: int| 0 <= i < r@.len() ==> row_view(#[trigger] r@[i]) == action_row_table()[i],
        forall|i: int| 0 <= i < r@.len() ==> row_shape(#[trigger] r@[i], "actions"@, false),
{
    let mut r: Vec<Row> = Vec::new();
    r.push(row(RowSpec {
        id: "actions.open-vocabulary",
        category: "actions",
        term: "Action as open vocabulary (profile-declared instances)",
        status: IMPLEMENTED,
        why: "The engine ships no actions of its own; a host declares each one as an ActionDecl, \
              exactly the Information Model's own Profile Mechanism pattern.",
        evidence: "engine/src/profile.rs::ActionDecl, profile-interpreter/src/interpret.rs",
        asserts: "A declared action matches exactly, and a declared includedIn edge is walked.",
        probe_ids: vec!["act-base-exact", "act-includedin-1hop"],
        documented_because: None,
        caveat: None,
    }));
    assert(row_shape(r@[0], "actions"@, false));
    assert(row_view(r@[0]) =~= action_row_table()[0]);
    r.push(row(RowSpec {
        id: "actions.included-in-transitive",
        category: "actions",
        term: "odrl:includedIn (transitive, declared-only)",
        status: PARTIAL,
        why: "ResolvedConfig::covers walks any declared includedIn chain, cycle-safe -- but only \
              through edges a loaded profile actually declares.",
        evidence: "engine/src/profile.rs::ResolvedConfig::covers",
        asserts: "The pair shows both halves: a two-hop declared chain resolves; the same chain with \
                  its intermediate action left undeclared does not.",
        probe_ids: vec!["act-includedin-2hop", "act-includedin-undeclared-gap"],
        documented_because: None,
        caveat: None,
    }));
    assert(row_shape(r@[1], "actions"@, false));
    assert(row_view(r@[1]) =~= action_row_table()[1]);
    r.push(row(RowSpec {
        id: "actions.implies",
        category: "actions",
        term: "odrl:implies",
        status: NOT_IMPLEMENTED,
        why: "Only includedIn is read off an action declaration. odrl:implies is an unknown JSON key \
              and is discarded at deserialization.",
        evidence: "engine/src/wire.rs::WireActionDecl",
        asserts: "The same taxonomy relationship expressed with odrl:implies does not cover, while \
                  the byte-neighbouring request expressing it with odrl:includedIn does.",
        probe_ids: vec!["act-implies-ignored", "act-includedin-1hop"],
        documented_because: None,
        caveat: None,
    }));
    assert(row_shape(r@[2], "actions"@, false));
    assert(row_view(r@[2]) =~= action_row_table()[2]);
    r.push(row(RowSpec {
        id: "actions.spec-taxonomy",
        category: "actions",
        term: "The vocabulary's own 51-action taxonomy",
        status: PARTIAL,
        why: "Shipped as a loadable Turtle profile document rather than baked into the engine: a host \
              that never loads it recognizes nothing, and one that does gets every declared edge, \
              including the two chains rooted below `use`.",
        evidence: "profile-interpreter/examples/odrl-2.2-common-actions.ttl",
        asserts: "Three chains no hand-written config in this workspace declares -- display -> play -> \
                  use, extract -> reproduce, sell -> transfer -- resolve over the real 51-term \
                  taxonomy.",
        probe_ids: vec!["act-taxonomy-display-play-use",
            "act-taxonomy-extract-reproduce-use",
            "act-taxonomy-sell-transfer",],
        documented_because: None,
        caveat: Some(
            "The 51 action declarations in these probes' config were produced by profile-interpreter \
             parsing profile-interpreter/examples/odrl-2.2-common-actions.ttl natively at \
             catalog-generation time; this run verifies the engine's chain resolution over them, not \
             the Turtle parse.",
        ),
    }));
    assert(row_shape(r@[3], "actions"@, false));
    assert(row_view(r@[3]) =~= action_row_table()[3]);
    r.push(row(RowSpec {
        id: "actions.unrecognized-is-error",
        category: "actions",
        term: "An action no loaded profile declares",
        status: IMPLEMENTED,
        why: "A rule naming an undeclared action is a configuration gap (Decision::Error), never an \
              ordinary non-match -- deliberately stricter than the spec, which would police unknown \
              vocabulary at validation time instead.",
        evidence: "engine/src/decision.rs::first_unrecognized_action",
        asserts: "An undeclared action errors, and that Error out-ranks a sibling policy's Allow.",
        probe_ids: vec!["act-unrecognized-error", "act-unrecognized-outranks-allow"],
        documented_because: None,
        caveat: None,
    }));
    assert(row_shape(r@[4], "actions"@, false));
    assert(row_view(r@[4]) =~= action_row_table()[4]);
    r
}

/// The rows of section "left-operands".
fn left_operand_rows() -> (r: Vec<Row>)
    ensures
        r@.len() == 9,
        forall|i: int| 0 <= i < r@.len() ==> row_view(#[trigger] r@[i]) == left_operand_row_table()[i],
        forall|i: int| 0 <= i < r@.len() ==> row_shape(#[trigger] r@[i], "left-operands"@, false),
{
    let mut r: Vec<Row> = Vec::new();
    r.push(row(RowSpec {
        id: "left-operands.extension",
        category: "left-operands",
        term: "Profile-declared LeftOperand extension",
        status: IMPLEMENTED,
        why: "leftOperand is a free-form key into the claims map, so an extension operand needs no \
              registration at all.",
        evidence: "engine/src/constraint.rs::Constraint::evaluate, engine/src/claims.rs",
        asserts: "An invented operand IRI matches on a matching claim and misses on a differing one, \
                  with the full IRI rendered in the reason.",
        probe_ids: vec!["lo-extension-hit", "lo-extension-miss"],
        documented_because: None,
        caveat: None,
    }));
    assert(row_shape(r@[0], "left-operands"@, false));
    assert(row_view(r@[0]) =~= left_operand_row_table()[0]);
    r.push(row(RowSpec {
        id: "left-operands.datetime",
        category: "left-operands",
        term: "dateTime",
        status: PARTIAL,
        why: "Real chronological comparison, but only over a claim the host injects: the engine has \
              no clock and cannot know what \"now\" is.",
        evidence: "engine/src/temporal.rs, engine/src/constraint.rs::ordering_matches",
        asserts: "Hit and miss on either side of the bound, and -- with no claim at all -- a miss, \
                  because there is no clock to fall back on.",
        probe_ids: vec!["lo-datetime-hit", "lo-datetime-miss", "lo-datetime-absent-no-clock"],
        documented_because: None,
        caveat: None,
    }));
    assert(row_shape(r@[1], "left-operands"@, false));
    assert(row_view(r@[1]) =~= left_operand_row_table()[1]);
    r.push(row(RowSpec {
        id: "left-operands.numeric",
        category: "left-operands",
        term: "count, percentage, payAmount, absoluteSize, relativeSize, resolution",
        status: PARTIAL,
        why: "Numeric comparison is real, including decimals and a rejection of non-finite lexical \
              forms -- but count's own spec meaning is a stateful execution count, which a stateless \
              engine cannot supply.",
        evidence: "engine/src/constraint.rs::ordering_matches",
        asserts: "Hit, miss, absent-key miss, non-numeric miss, an \"inf\" claim rejected rather than \
                  vacuously matching, and a decimal comparison.",
        probe_ids: vec!["lo-count-hit",
            "lo-count-miss",
            "lo-count-absent-not-stateful",
            "lo-count-nonnumeric-miss",
            "lo-count-infinity-rejected",
            "lo-payamount-decimal",],
        documented_because: None,
        caveat: None,
    }));
    assert(row_shape(r@[2], "left-operands"@, false));
    assert(row_view(r@[2]) =~= left_operand_row_table()[2]);
    r.push(row(RowSpec {
        id: "left-operands.spatial",
        category: "left-operands",
        term: "spatial",
        status: PARTIAL,
        why: "Flat code/IRI equality works; there is no region containment anywhere.",
        evidence: "engine/src/claims.rs::ClaimValue::matches",
        asserts: "An exact region IRI matches, and a region genuinely contained by it does not.",
        probe_ids: vec!["lo-spatial-flat-hit", "lo-spatial-no-containment"],
        documented_because: None,
        caveat: None,
    }));
    assert(row_shape(r@[3], "left-operands"@, false));
    assert(row_view(r@[3]) =~= left_operand_row_table()[3]);
    r.push(row(RowSpec {
        id: "left-operands.opaque",
        category: "left-operands",
        term: "purpose, recipient, industry, media, product, event, deliveryChannel, fileFormat, language, systemDevice, virtualLocation, version",
        status: PARTIAL,
        why: "Closest to lossless under an opaque-key design -- but language needs BCP-47 range \
              handling and event needs period ordering, neither of which exists.",
        evidence: "engine/src/constraint.rs::Constraint::evaluate",
        asserts: "purpose is lossless; language does not do range matching (en-GB vs en); event does \
                  not order periods.",
        probe_ids: vec!["lo-purpose-opaque-hit", "lo-language-no-bcp47", "lo-event-no-period-ordering"],
        documented_because: None,
        caveat: None,
    }));
    assert(row_shape(r@[4], "left-operands"@, false));
    assert(row_view(r@[4]) =~= left_operand_row_table()[4]);
    r.push(row(RowSpec {
        id: "left-operands.durations",
        category: "left-operands",
        term: "elapsedTime, meteredTime, delayPeriod, timeInterval",
        status: PARTIAL,
        why: "xsd:duration is now parsed to a total magnitude and ordered by lt/lteq/gt/gteq -- but \
              Y/M components are converted at a fixed nominal length (365/30 days) rather than XSD's \
              own genuinely partial-order semantics for calendar durations.",
        evidence: "engine/src/temporal.rs::parse_xsd_duration_nanos, engine/src/constraint.rs::ordering_matches",
        asserts: "The spec's own metering example allows; a malformed duration still misses rather \
                  than being silently accepted.",
        probe_ids: vec!["lo-duration-metering-example", "lo-duration-malformed-miss"],
        documented_because: None,
        caveat: Some(
            "Y/M components use a fixed nominal length (365/30 days), not XSD's own partial-order \
             duration comparison -- see parse_xsd_duration_nanos's own doc comment.",
        ),
    }));
    assert(row_shape(r@[5], "left-operands"@, false));
    assert(row_view(r@[5]) =~= left_operand_row_table()[5]);
    r.push(row(RowSpec {
        id: "left-operands.coordinates",
        category: "left-operands",
        term: "spatialCoordinates, absolutePosition, absoluteSpatialPosition, absoluteTemporalPosition, relativePosition, relativeSpatialPosition, relativeTemporalPosition",
        status: NOT_IMPLEMENTED,
        why: "No coordinate or geometry math of any kind; a coordinate is an opaque string.",
        evidence: "engine/src/constraint.rs",
        asserts: "An exact coordinate string matches; coordinates ten metres apart do not; and \
                  ordering over positions is a miss.",
        probe_ids: vec!["lo-coordinates-string-eq",
            "lo-coordinates-no-geometry",
            "lo-absoluteposition-no-ordering",],
        documented_because: None,
        caveat: None,
    }));
    assert(row_shape(r@[6], "left-operands"@, false));
    assert(row_view(r@[6]) =~= left_operand_row_table()[6]);
    r.push(row(RowSpec {
        id: "left-operands.unit-of-count",
        category: "left-operands",
        term: "unitOfCount",
        status: NOT_IMPLEMENTED,
        why: "There is no qualifier mechanism on a constraint: unitOfCount can only ever be another \
              opaque claims key.",
        evidence: "engine/src/constraint.rs::Constraint (three atomic fields, no qualifier)",
        asserts: "Two mutually exclusive units over the identical count constraint reach the identical \
                  decision and reason -- and the key does work as an ordinary operand on its own.",
        probe_ids: vec!["lo-unitofcount-page", "lo-unitofcount-volume", "lo-unitofcount-as-plain-key"],
        documented_because: None,
        caveat: None,
    }));
    assert(row_shape(r@[7], "left-operands"@, false));
    assert(row_view(r@[7]) =~= left_operand_row_table()[7]);
    r.push(row(RowSpec {
        id: "left-operands.policy-usage",
        category: "left-operands",
        term: "Right operand odrl:policyUsage",
        status: NOT_IMPLEMENTED,
        why: "The reserved right operand names the moment the policy was used -- execution history a \
              stateless engine keeps none of.",
        evidence: "engine/src/constraint.rs (right_operand is a plain string)",
        asserts: "It is compared as a bare string when a host injects the claim, and means nothing at \
                  all when nobody does.",
        probe_ids: vec!["lo-policyusage-literal", "lo-policyusage-absent"],
        documented_because: None,
        caveat: None,
    }));
    assert(row_shape(r@[8], "left-operands"@, false));
    assert(row_view(r@[8]) =~= left_operand_row_table()[8]);
    r
}

/// The rows of section "operators".
fn operator_rows() -> (r: Vec<Row>)
    ensures
        r@.len() == 7,
        forall|i: int| 0 <= i < r@.len() ==> row_view(#[trigger] r@[i]) == operator_row_table()[i],
        forall|i: int| 0 <= i < r@.len() ==> row_shape(#[trigger] r@[i], "operators"@, false),
{
    let mut r: Vec<Row> = Vec::new();
    r.push(row(RowSpec {
        id: "operators.eq",
        category: "operators",
        term: "eq",
        status: PARTIAL,
        why: "Against a multi-valued claim, eq is membership rather than identity -- a deliberate, \
              documented adaptation, and a real divergence from spec equality.",
        evidence: "engine/src/claims.rs::ClaimValue::matches",
        asserts: "Single-valued equality; the multi-valued membership divergence; and the bound on \
                  it -- eq never splits or joins its right operand.",
        probe_ids: vec!["op-eq-single", "op-eq-multi-membership", "op-eq-no-concat"],
        documented_because: None,
        caveat: None,
    }));
    assert(row_shape(r@[0], "operators"@, false));
    assert(row_view(r@[0]) =~= operator_row_table()[0]);
    r.push(row(RowSpec {
        id: "operators.neq",
        category: "operators",
        term: "neq",
        status: PARTIAL,
        why: "The same multi-value adaptation, negated. An absent claim key is a miss, not a \
              satisfaction.",
        evidence: "engine/src/constraint.rs::Constraint::evaluate",
        asserts: "A present, differing claim satisfies it -- and an absent claim does NOT, which is \
                  the opposite of what the source gap analysis records.",
        probe_ids: vec!["op-neq-hit", "op-neq-absent-miss"],
        documented_because: None,
        caveat: None,
    }));
    assert(row_shape(r@[1], "operators"@, false));
    assert(row_view(r@[1]) =~= operator_row_table()[1]);
    r.push(row(RowSpec {
        id: "operators.set-operators",
        category: "operators",
        term: "isAnyOf, isAllOf, isNoneOf",
        status: IMPLEMENTED,
        why: "All three exist and carry the documented comma-delimited right-operand adaptation, \
              including isNoneOf's own deliberate absent-key exception.",
        evidence: "engine/src/claims.rs::matches_any/matches_all, engine/src/constraint.rs",
        asserts: "Hit and miss for each, the inexpressible comma-containing value with its own \
                  control, and isNoneOf's absent-key exception.",
        probe_ids: vec!["op-isanyof-hit",
            "op-isanyof-miss",
            "op-isanyof-comma-unescapable",
            "op-isanyof-comma-control",
            "op-isallof-hit",
            "op-isallof-miss",
            "op-isnoneof-hit",
            "op-isnoneof-miss",
            "op-isnoneof-absent-satisfies",],
        documented_because: None,
        caveat: None,
    }));
    assert(row_shape(r@[2], "operators"@, false));
    assert(row_view(r@[2]) =~= operator_row_table()[2]);
    r.push(row(RowSpec {
        id: "operators.is-part-of",
        category: "operators",
        term: "isPartOf",
        status: PARTIAL,
        why: "Honestly labelled rather than honestly implemented: it runs isAnyOf's exact test, so it \
              expresses enumerated membership, never containment.",
        evidence: "engine/src/constraint.rs::Operator::IsPartOf",
        asserts: "Flat membership works; genuine hierarchy membership does not; and the operator is \
                  observationally identical to isAnyOf.",
        probe_ids: vec!["op-ispartof-hit", "op-ispartof-no-hierarchy", "op-ispartof-mirrors-isanyof"],
        documented_because: None,
        caveat: None,
    }));
    assert(row_shape(r@[3], "operators"@, false));
    assert(row_view(r@[3]) =~= operator_row_table()[3]);
    r.push(row(RowSpec {
        id: "operators.ordering",
        category: "operators",
        term: "lt, lteq, gt, gteq",
        status: PARTIAL,
        why: "Real chronological ordering over xsd:dateTime and xsd:date (offsets included), an \
              xsd:duration reading (see left-operands.durations for its own caveat), and a numeric \
              fallback -- but no coercion between any of the three kinds.",
        evidence: "engine/src/temporal.rs, engine/src/constraint.rs::ordering_matches",
        asserts: "Fractional seconds order chronologically rather than lexically; a bare date and a \
                  numeric offset are both accepted; the strict/non-strict boundary pair differ; and a \
                  mixed-type comparison misses rather than coercing.",
        probe_ids: vec!["op-lt-fractional-chronological",
            "op-lteq-xsd-date",
            "op-lt-offset-datetime",
            "op-gteq-numeric-boundary",
            "op-gt-numeric-boundary",
            "op-lt-mixed-type-miss",],
        documented_because: None,
        caveat: None,
    }));
    assert(row_shape(r@[4], "operators"@, false));
    assert(row_view(r@[4]) =~= operator_row_table()[4]);
    r.push(row(RowSpec {
        id: "operators.isa-haspart",
        category: "operators",
        term: "isA, hasPart",
        status: NOT_IMPLEMENTED,
        why: "Neither is in the Operator enum. Because that enum is closed, an out-of-enum token is \
              not silently ignored -- the request fails to parse and the engine answers Error.",
        evidence: "engine/src/constraint.rs::Operator",
        asserts: "Both tokens fail to parse, while the byte-identical request with a supported \
                  operator succeeds -- so the Error is the token, not the request.",
        probe_ids: vec!["op-isa-unparseable", "op-haspart-unparseable", "op-isa-control-eq"],
        documented_because: None,
        caveat: None,
    }));
    assert(row_shape(r@[5], "operators"@, false));
    assert(row_view(r@[5]) =~= operator_row_table()[5]);
    r.push(row(RowSpec {
        id: "operators.profile-extension",
        category: "operators",
        term: "Profile-declared Operator extension",
        status: OUT_OF_SCOPE,
        why: "The wire contract has no per-profile operator registration mechanism; the enum is fixed \
              at the engine's own compile time, and profile-interpreter warns about a declared \
              operator rather than pretending it took effect.",
        evidence: "profile-interpreter/src/interpret.rs (the odrl:Operator warning)",
        asserts: "Declaring the extension in the config and then using it still fails to parse.",
        probe_ids: vec!["op-profile-operator-unparseable"],
        documented_because: None,
        caveat: Some(EXTENSION_CAVEAT),
    }));
    assert(row_shape(r@[6], "operators"@, false));
    assert(row_view(r@[6]) =~= operator_row_table()[6]);
    r
}

/// The rows of section "logical".
fn logical_rows() -> (r: Vec<Row>)
    ensures
        r@.len() == 5,
        forall|i: int| 0 <= i < r@.len() ==> row_view(#[trigger] r@[i]) == logical_row_table()[i],
        forall|i: int| 0 <= i < r@.len() ==> row_shape(#[trigger] r@[i], "logical"@, false),
{
    let mut r: Vec<Row> = Vec::new();
    r.push(row(RowSpec {
        id: "logical.and",
        category: "logical",
        term: "odrl:and",
        status: IMPLEMENTED,
        why: "A real nested field on the engine's own Constraint type, not a host-side expansion.",
        evidence: "engine/src/constraint.rs::Constraint::and",
        asserts: "Both children matching Allows, one child failing Denies, and an empty list is \
                  vacuously satisfied.",
        probe_ids: vec!["lc-and-both", "lc-and-one-false", "lc-and-empty-vacuous"],
        documented_because: None,
        caveat: None,
    }));
    assert(row_shape(r@[0], "logical"@, false));
    assert(row_view(r@[0]) =~= logical_row_table()[0]);
    r.push(row(RowSpec {
        id: "logical.or",
        category: "logical",
        term: "odrl:or",
        status: IMPLEMENTED,
        why: "Likewise a real nested field, with the opposite empty-list convention to odrl:and.",
        evidence: "engine/src/constraint.rs::Constraint::or",
        asserts: "The second child alone satisfies it, no child does not, and an empty list is never \
                  satisfied.",
        probe_ids: vec!["lc-or-second", "lc-or-none", "lc-or-empty-never"],
        documented_because: None,
        caveat: None,
    }));
    assert(row_shape(r@[1], "logical"@, false));
    assert(row_view(r@[1]) =~= logical_row_table()[1]);
    r.push(row(RowSpec {
        id: "logical.xone",
        category: "logical",
        term: "odrl:xone",
        status: IMPLEMENTED,
        why: "Exactly-one semantics, both boundaries -- the thing a disjunctive-normal-form expansion \
              provably cannot express.",
        evidence: "engine/src/constraint.rs::Constraint::xone",
        asserts: "One matching child Allows, zero Denies, and TWO Denies -- against a control with \
                  the identical children and claims under odrl:or, which Allows.",
        probe_ids: vec!["lc-xone-exactly-one", "lc-xone-zero", "lc-xone-two-denies", "lc-or-two-allows-control"],
        documented_because: None,
        caveat: None,
    }));
    assert(row_shape(r@[2], "logical"@, false));
    assert(row_view(r@[2]) =~= logical_row_table()[2]);
    r.push(row(RowSpec {
        id: "logical.and-sequence",
        category: "logical",
        term: "odrl:andSequence",
        status: NOT_IMPLEMENTED,
        why: "The Constraint type has and/or/xone and nothing else; andSequence is an unknown key and \
              is discarded.",
        evidence: "engine/src/constraint.rs::RawConstraint",
        asserts: "Two requests one key name apart: odrl:and is honoured, odrl:andSequence is dropped \
                  and the constraint's own false atomic fields decide.",
        probe_ids: vec!["lc-andsequence-ignored", "lc-and-control-honored"],
        documented_because: None,
        caveat: None,
    }));
    assert(row_shape(r@[3], "logical"@, false));
    assert(row_view(r@[3]) =~= logical_row_table()[3]);
    r.push(row(RowSpec {
        id: "logical.profile-extension",
        category: "logical",
        term: "Profile-declared Logical Constraint operand",
        status: OUT_OF_SCOPE,
        why: "The three logical fields are fixed on the type; a profile cannot add a fourth.",
        evidence: "engine/src/profile.rs (module doc), engine/src/constraint.rs::Constraint",
        asserts: "A declared ex:majorityOf operand, used on a constraint, is dropped like any other \
                  unknown key.",
        probe_ids: vec!["lc-custom-logical-ignored"],
        documented_because: None,
        caveat: Some(EXTENSION_CAVEAT),
    }));
    assert(row_shape(r@[4], "logical"@, false));
    assert(row_view(r@[4]) =~= logical_row_table()[4]);
    r
}

/// The rows of section "policy-classes".
fn policy_class_rows() -> (r: Vec<Row>)
    ensures
        r@.len() == 3,
        forall|i: int| 0 <= i < r@.len() ==> row_view(#[trigger] r@[i]) == policy_class_row_table()[i],
        forall|i: int| 0 <= i < r@.len() ==> row_shape(#[trigger] r@[i], "policy-classes"@, false),
{
    let mut r: Vec<Row> = Vec::new();
    r.push(row(RowSpec {
        id: "policy-classes.discrimination",
        category: "policy-classes",
        term: "Policy class discrimination (Set, Offer, Agreement, Assertion, Privacy, Request, Ticket)",
        status: NOT_IMPLEMENTED,
        why: "The wire carries `kind` as a string and nothing ever reads it; none of the \
              class-specific MUSTs is checked.",
        evidence: "engine/src/wire.rs::WirePolicy::as_decision_policy (kind is dropped)",
        asserts: "An Agreement grants to a stranger, a Ticket carrying a forbidden assignee is \
                  accepted, and a kind that is not an ODRL class at all evaluates identically.",
        probe_ids: vec!["pc-kind-agreement-ignores-assignee",
            "pc-kind-ticket-with-assignee",
            "pc-kind-nonsense",],
        documented_because: None,
        caveat: None,
    }));
    assert(row_shape(r@[0], "policy-classes"@, false));
    assert(row_view(r@[0]) =~= policy_class_row_table()[0]);
    r.push(row(RowSpec {
        id: "policy-classes.set-default",
        category: "policy-classes",
        term: "Set semantics as the effective default",
        status: PARTIAL,
        why: "Evaluating every policy as bare rules IS applying Set semantics to all seven classes -- \
              a side effect worth stating outright rather than leaving implicit.",
        evidence: "engine/src/decision.rs::decide",
        asserts: "A declared Set and an unrecognisable kind reach the identical decision and reason: \
                  identical evaluation of any kind is always-Set semantics.",
        probe_ids: vec!["pc-kind-set", "pc-kind-nonsense"],
        documented_because: None,
        caveat: None,
    }));
    assert(row_shape(r@[1], "policy-classes"@, false));
    assert(row_view(r@[1]) =~= policy_class_row_table()[1]);
    r.push(row(RowSpec {
        id: "policy-classes.profile-subclass",
        category: "policy-classes",
        term: "Profile-declared additional Policy subclasses",
        status: OUT_OF_SCOPE,
        why: "Named directly in the engine's own scope-narrowing: profiles extend actions and left \
              operands here, not policy classes.",
        evidence: "engine/src/profile.rs (module doc)",
        asserts: "A declared ex:ResearchLicence subclass is observationally in the same position as \
                  any other unrecognised kind -- which is the honest grouping, not a stronger claim.",
        probe_ids: vec!["pc-kind-profile-subclass", "pc-kind-nonsense"],
        documented_because: None,
        caveat: Some(EXTENSION_CAVEAT),
    }));
    assert(row_shape(r@[2], "policy-classes"@, false));
    assert(row_view(r@[2]) =~= policy_class_row_table()[2]);
    r
}

/// The rows of section "party".
fn party_rows() -> (r: Vec<Row>)
    ensures
        r@.len() == 5,
        forall|i: int| 0 <= i < r@.len() ==> row_view(#[trigger] r@[i]) == party_row_table()[i],
        forall|i: int| 0 <= i < r@.len() ==> row_shape(#[trigger] r@[i], "party"@, i == 1),
{
    let mut r: Vec<Row> = Vec::new();
    r.push(row(RowSpec {
        id: "party.assigner-assignee",
        category: "party",
        term: "assigner, assignee",
        status: PARTIAL,
        why: "assignee is evaluated as a party scope, but only on request: a config naming \
              partyIdentityClaim says which claim identifies the caller, and a policy whose \
              assignee that caller does not match is then treated as absent from the request. \
              Unset -- the default, and every request built before it existed -- both party fields \
              are carried on the wire and dropped before the decision algorithm runs. assigner is \
              never evaluated at all: it names who granted the policy, not who is asking.",
        evidence: "engine/src/wire.rs::party_role_mismatch, engine/src/profile.rs::ResolvedConfig::\
                   party_identity_claim",
        asserts: "With no partyIdentityClaim, a named assignee does not scope the grant and removing \
                  the field changes nothing; with one, the named assignee still gets the same answer \
                  while a stranger gets a deny that names the mismatch; and party scoping is also \
                  reachable per-rule by mirroring the party into the claims map.",
        probe_ids: vec!["pf-assignee-mismatch",
            "pf-assignee-null-control",
            "pf-assignee-scoped-hit",
            "pf-assignee-scoped-miss",
            "pf-assignee-as-claim",],
        documented_because: None,
        caveat: Some(
            "Opt-in and assignee-only. Nothing here validates an assigner, resolves an \
             odrl:PartyCollection, or normalizes an IRI: the comparison is the engine's own `eq` \
             semantics against one claim key -- string equality, or membership for a multi-valued \
             claim.",
        ),
    }));
    assert(row_shape(r@[0], "party"@, 0 == 1));
    assert(row_view(r@[0]) =~= party_row_table()[0]);
    r.push(row(RowSpec {
        id: "party.collections",
        category: "party",
        term: "Party / PartyCollection / membership",
        status: NOT_IMPLEMENTED,
        why: "Collection membership is resolved by compliance-runner against the vendored suite's \
              state-of-the-world graph, natively, before any Request exists.",
        evidence: "compliance-runner/src/translate.rs (odrl:partOf lookups)",
        asserts: "",
        probe_ids: Vec::new(),
        documented_because: Some(
            "There is no odrl:partOf, no state-of-the-world graph and no collection concept anywhere \
             on the wire -- nothing for evaluate() to observe, so no request can put this claim to \
             the test. It is a native-tooling claim, verified by that crate's own tests instead.",
        ),
        caveat: None,
    }));
    assert(row_shape(r@[1], "party"@, 1 == 1));
    assert(row_view(r@[1]) =~= party_row_table()[1]);
    r.push(row(RowSpec {
        id: "party.inverse-properties",
        category: "party",
        term: "assignerOf, assigneeOf",
        status: NOT_IMPLEMENTED,
        why: "No occurrence anywhere in the engine; unknown keys on a policy are discarded.",
        evidence: "engine/src/wire.rs::WirePolicy",
        asserts: "Both properties injected on a policy leave the decision and reason identical to the \
                  control request without them.",
        probe_ids: vec!["pf-assignerof-inert", "pf-assignee-null-control"],
        documented_because: None,
        caveat: None,
    }));
    assert(row_shape(r@[2], "party"@, 2 == 1));
    assert(row_view(r@[2]) =~= party_row_table()[2]);
    r.push(row(RowSpec {
        id: "party.common-functions",
        category: "party",
        term: "The twelve common party functions",
        status: NOT_IMPLEMENTED,
        why: "Same absence: most would only matter alongside duty-execution semantics the engine also \
              does not have.",
        evidence: "engine/src/wire.rs::WirePolicy",
        asserts: "All twelve on one policy at once leave the decision and reason identical to the \
                  control.",
        probe_ids: vec!["pf-common-functions-inert", "pf-assignee-null-control"],
        documented_because: None,
        caveat: None,
    }));
    assert(row_shape(r@[3], "party"@, 3 == 1));
    assert(row_view(r@[3]) =~= party_row_table()[3]);
    r.push(row(RowSpec {
        id: "party.profile-roles",
        category: "party",
        term: "Profile-declared Party functional roles",
        status: OUT_OF_SCOPE,
        why: "Named in the engine's own scope-narrowing sentence.",
        evidence: "engine/src/profile.rs (module doc)",
        asserts: "The twelve-property probe is the observable half: a declared role would sit in \
                  exactly the same position -- an unknown key on a policy.",
        probe_ids: vec!["pf-common-functions-inert", "pf-assignee-null-control"],
        documented_because: None,
        caveat: Some(EXTENSION_CAVEAT),
    }));
    assert(row_shape(r@[4], "party"@, 4 == 1));
    assert(row_view(r@[4]) =~= party_row_table()[4]);
    r
}

/// The rows of section "duty".
fn duty_rows() -> (r: Vec<Row>)
    ensures
        r@.len() == 5,
        forall|i: int| 0 <= i < r@.len() ==> row_view(#[trigger] r@[i]) == duty_row_table()[i],
        forall|i: int| 0 <= i < r@.len() ==> row_shape(#[trigger] r@[i], "duty"@, false),
{
    let mut r: Vec<Row> = Vec::new();
    r.push(row(RowSpec {
        id: "duty.obligation",
        category: "duty",
        term: "odrl:obligation (policy-level)",
        status: PARTIAL,
        why: "\"Satisfied\" means the duty's own constraints match the claims -- a precondition \
              reading, since the engine cannot observe whether the action was performed. dutyMode \
              itself is an engine invention with no ODRL counterpart.",
        evidence: "engine/src/decision.rs::unresolved_duties, Rule::duty_satisfied",
        asserts: "An unconditional duty is unresolved rather than assumed met; a claims-satisfied one \
                  resolves; and dutyMode: deny turns an unresolved duty into a Deny.",
        probe_ids: vec!["duty-obligation-unresolved-advise",
            "duty-obligation-satisfied-by-claims",
            "duty-obligation-deny-mode",],
        documented_because: None,
        caveat: None,
    }));
    assert(row_shape(r@[0], "duty"@, false));
    assert(row_view(r@[0]) =~= duty_row_table()[0]);
    r.push(row(RowSpec {
        id: "duty.per-permission",
        category: "duty",
        term: "odrl:duty (per-permission pre-condition)",
        status: PARTIAL,
        why: "Rule now carries odrl:duty, resolved exactly as a policy-level obligation is -- its own \
              constraints against the claims map -- but scoped to the one permission it hangs off: \
              under dutyMode: deny that permission does not grant, while a sibling permission still \
              can. Partial, not Implemented, for the same reason the obligation row is: \"satisfied\" \
              is a claims precondition, never an observation that the duty was performed.",
        evidence: "engine/src/decision.rs::Rule::duty, Rule::grants, unresolved_permission_duties",
        asserts: "Unresolved under deny stops that permission and says so in the reason; one claim \
                  resolves it; under advise it is advisory and carries its attachment point in the \
                  duties entry's source; and a sibling permission still grants, which a policy-level \
                  obligation would not have allowed.",
        probe_ids: vec!["duty-per-permission-unresolved-deny",
            "duty-per-permission-satisfied",
            "duty-per-permission-advisory",
            "duty-per-permission-scoped-to-its-own-permission",],
        documented_because: None,
        caveat: None,
    }));
    assert(row_shape(r@[1], "duty"@, false));
    assert(row_view(r@[1]) =~= duty_row_table()[1]);
    r.push(row(RowSpec {
        id: "duty.consequence",
        category: "duty",
        term: "odrl:consequence",
        status: PARTIAL,
        why: "A Duty's on-non-fulfilment Duty is now evaluated: an unresolved duty falls through to \
              its consequence rather than straight to dutyMode, chained up to MAX_CONSEQUENCE_DEPTH \
              (4) hops and treated as unresolved past that bound. Partial: ODRL permits a Duty to \
              carry several consequences and this models one successor, because the decided semantics \
              state no rule for combining several.",
        evidence: "engine/src/decision.rs::Rule::consequence, outstanding_duty, MAX_CONSEQUENCE_DEPTH",
        asserts: "An unfulfilled duty whose consequence the claims satisfy leaves nothing outstanding; \
                  the same duty with no claims reports the consequence -- not the duty it replaced -- \
                  with a source ending .consequence.",
        probe_ids: vec!["duty-consequence-resolves-where-the-primary-did-not", "duty-consequence-itself-unresolved"],
        documented_because: None,
        caveat: None,
    }));
    assert(row_shape(r@[2], "duty"@, false));
    assert(row_view(r@[2]) =~= duty_row_table()[2]);
    r.push(row(RowSpec {
        id: "duty.remedy",
        category: "duty",
        term: "odrl:remedy",
        status: PARTIAL,
        why: "A prohibition's remedy duty is evaluated and reported, and never lifts the prohibition. \
              Partial, and deliberately so: ODRL's reading where a performed remedy substitutes for \
              the violation is NOT implemented, because duties in this engine only ever tighten a \
              decision and a claims-asserted remedy able to erase a prohibition would be the first \
              one that loosens one.",
        evidence: "engine/src/decision.rs::Rule::remedy, unresolved_remedies, decide (doc comment)",
        asserts: "An unresolved remedy denies exactly as the bare prohibition would, names itself in \
                  the reason and appears in duties with its attachment point; a satisfied one gives \
                  the same Deny with an empty duties list; and a prohibition that never fires reports \
                  no remedy at all.",
        probe_ids: vec!["duty-remedy-unresolved-does-not-drop-the-prohibition",
            "duty-remedy-satisfied-still-denies",
            "duty-remedy-not-reported-when-the-prohibition-does-not-fire",],
        documented_because: None,
        caveat: None,
    }));
    assert(row_shape(r@[3], "duty"@, false));
    assert(row_view(r@[3]) =~= duty_row_table()[3]);
    r.push(row(RowSpec {
        id: "duty.profile-rule-classes",
        category: "duty",
        term: "Profile-declared Rule classes",
        status: OUT_OF_SCOPE,
        why: "Three rule lists, fixed on the type; a profile cannot add a fourth.",
        evidence: "engine/src/profile.rs (module doc), engine/src/wire.rs::WirePolicy",
        asserts: "A fourth rule list injected on a policy is dropped, leaving act-base-exact's answer \
                  unchanged.",
        probe_ids: vec!["duty-profile-rule-class-inert", "act-base-exact"],
        documented_because: None,
        caveat: Some(EXTENSION_CAVEAT),
    }));
    assert(row_shape(r@[4], "duty"@, false));
    assert(row_view(r@[4]) =~= duty_row_table()[4]);
    r
}

/// The rows of section "assets".
fn asset_rows() -> (r: Vec<Row>)
    ensures
        r@.len() == 4,
        forall|i: int| 0 <= i < r@.len() ==> row_view(#[trigger] r@[i]) == asset_row_table()[i],
        forall|i: int| 0 <= i < r@.len() ==> row_shape(#[trigger] r@[i], "assets"@, i == 3),
{
    let mut r: Vec<Row> = Vec::new();
    r.push(row(RowSpec {
        id: "assets.collections",
        category: "assets",
        term: "AssetCollection, odrl:partOf, odrl:source",
        status: PARTIAL,
        why: "odrl:partOf/AssetCollection membership is now a real, opt-in wire fact: the request \
              carries its own asset_collections, naming every collection dataset_id is asserted to be \
              odrl:partOf, and a rule's odrl:target matches a collection it names or any collection \
              in that list (Rule::target_applies). Partial, not Implemented: this engine resolves no \
              membership itself -- no graph, no transitive closure, no IRI normalization -- the host \
              supplies the (already-flattened) fact, exactly as compliance-runner's own is_member_of \
              adapter already does natively. odrl:source (an asset's own derivation provenance) is \
              untouched by this and remains unaddressed.",
        evidence: "engine/src/wire.rs::Request::asset_collections, engine/src/decision.rs::Rule::target_applies",
        asserts: "A prohibition scoped to a collection IRI denies a request for an asserted member of \
                  it (asset-collection-membership-hit), but not a request whose asset_collections \
                  names a different collection (asset-collection-membership-wrong-collection-miss) or \
                  names none at all (asset-target-not-a-collection).",
        probe_ids: vec!["asset-collection-membership-hit",
            "asset-collection-membership-wrong-collection-miss",
            "asset-target-not-a-collection",],
        documented_because: None,
        caveat: None,
    }));
    assert(row_shape(r@[0], "assets"@, 0 == 3));
    assert(row_view(r@[0]) =~= asset_row_table()[0]);
    r.push(row(RowSpec {
        id: "assets.target",
        category: "assets",
        term: "odrl:target (per-rule)",
        status: PARTIAL,
        why: "Each rule may carry its own odrl:target, matched against the request's own asset \
              (Request.dataset_id); a rule naming none is about whatever is requested. Partial, not \
              Implemented: the match is opaque string equality against dataset_id, with no IRI \
              normalization -- and, absent an asserted odrl:partOf fact, a rule scoped to a collection \
              IRI does not cover a member of it either (see AssetCollection, odrl:partOf above for the \
              opt-in case where the host does assert one).",
        evidence: "engine/src/decision.rs::Rule::target, Rule::target_applies",
        asserts: "One policy, permission on urn:asset:A and prohibition on urn:asset:B: the same \
                  policy allows a request for A and denies one for B, each reason naming the target \
                  that decided it.",
        probe_ids: vec!["asset-per-rule-target-hit", "asset-per-rule-target-miss"],
        documented_because: None,
        caveat: None,
    }));
    assert(row_shape(r@[1], "assets"@, 1 == 3));
    assert(row_view(r@[1]) =~= asset_row_table()[1]);
    r.push(row(RowSpec {
        id: "assets.output",
        category: "assets",
        term: "odrl:output",
        status: NOT_IMPLEMENTED,
        why: "No occurrence anywhere; the asset a permitted action produces is not modelled.",
        evidence: "engine/src/decision.rs::Rule",
        asserts: "The injected key leaves act-base-exact's decision and reason unchanged.",
        probe_ids: vec!["asset-output-ignored", "act-base-exact"],
        documented_because: None,
        caveat: None,
    }));
    assert(row_shape(r@[2], "assets"@, 2 == 3));
    assert(row_view(r@[2]) =~= asset_row_table()[2]);
    r.push(row(RowSpec {
        id: "assets.has-policy",
        category: "assets",
        term: "odrl:hasPolicy",
        status: OUT_OF_SCOPE,
        why: "Policy-to-asset association is deliberately a host/catalog concern under this study's \
              own harvested-catalog scope boundary.",
        evidence: "engine/src/wire.rs::Request (policies arrive already selected)",
        asserts: "",
        probe_ids: Vec::new(),
        documented_because: Some(
            "Association happens when a host SELECTS which policies to put in the request. evaluate() \
             receives an already-selected policy set, so there is no observable difference between \
             \"the host used hasPolicy\" and \"the host used anything else\" -- a pre-request \
             concern no request can encode.",
        ),
        caveat: None,
    }));
    assert(row_shape(r@[3], "assets"@, 3 == 3));
    assert(row_view(r@[3]) =~= asset_row_table()[3]);
    r
}

/// The rows of section "conflict".
fn conflict_rows() -> (r: Vec<Row>)
    ensures
        r@.len() == 3,
        forall|i: int| 0 <= i < r@.len() ==> row_view(#[trigger] r@[i]) == conflict_row_table()[i],
        forall|i: int| 0 <= i < r@.len() ==> row_shape(#[trigger] r@[i], "conflict"@, false),
{
    let mut r: Vec<Row> = Vec::new();
    r.push(row(RowSpec {
        id: "conflict.property",
        category: "conflict",
        term: "odrl:conflict (perm, prohibit, invalid)",
        status: IMPLEMENTED,
        why: "A real per-policy field on the wire policy shape, read by decide(): a genuine collision \
              -- a permission that grants and a prohibition that denies, for the same requested \
              action and target -- is resolved by the policy's own term. All three ConflictTerms are \
              evaluated, including `perm`, which was previously inexpressible.",
        evidence: "engine/src/decision.rs::ConflictStrategy, conflicting_rules, decide; \
                   engine/src/wire.rs::WirePolicy",
        asserts: "The same colliding policy Denies as void under the default, Allows under `perm`, \
                  and Denies naming the prohibition under `prohibit`.",
        probe_ids: vec!["conflict-default-invalid-voids", "conflict-perm-allows", "conflict-prohibit-denies"],
        documented_because: None,
        caveat: Some(
            "`invalid` surfaces as Deny under a distinct reason rather than as a fourth wire \
             decision -- a void policy is a policy decision, not the configuration gap \
             Decision::Error exists to flag. The probes read the reason string for it.",
        ),
    }));
    assert(row_shape(r@[0], "conflict"@, false));
    assert(row_view(r@[0]) =~= conflict_row_table()[0]);
    r.push(row(RowSpec {
        id: "conflict.fixed-strategy",
        category: "conflict",
        term: "Default for a policy that declares no odrl:conflict",
        status: IMPLEMENTED,
        why: "ODRL's own stated default, `invalid`, is the default here too. Earlier revisions applied \
              an unconditional, unnamed prohibition-overrides instead; that was a divergence, and \
              closing it was safe to do because no fixture in the vendored compliance corpus carries \
              a policy with both a permission and a prohibition, so nothing in it moved.",
        evidence: "engine/src/decision.rs::<ConflictStrategy as Default>::default",
        asserts: "A conflicting policy declaring no strategy is void, and declaring `invalid` \
                  explicitly reaches a byte-identical decision and reason.",
        probe_ids: vec!["conflict-default-invalid-voids", "conflict-invalid-declared-explicitly"],
        documented_because: None,
        caveat: None,
    }));
    assert(row_shape(r@[1], "conflict"@, false));
    assert(row_view(r@[1]) =~= conflict_row_table()[1]);
    r.push(row(RowSpec {
        id: "conflict.profile-strategies",
        category: "conflict",
        term: "Profile-declared conflict strategies",
        status: OUT_OF_SCOPE,
        why: "Named in the engine's own scope-narrowing sentence. ConflictStrategy is closed at the \
              engine's compile time over ODRL's three ConflictTerms, so a profile-declared strategy \
              is not silently ignored either -- it fails deserialization.",
        evidence: "engine/src/profile.rs (module doc), engine/src/decision.rs::ConflictStrategy",
        asserts: "A declared ex:assigneeWins strategy, selected by the policy, makes the request fail \
                  to parse rather than resolving under some substituted strategy.",
        probe_ids: vec!["conflict-profile-strategy-unparseable", "conflict-no-collision-inert"],
        documented_because: None,
        caveat: Some(EXTENSION_CAVEAT),
    }));
    assert(row_shape(r@[2], "conflict"@, false));
    assert(row_view(r@[2]) =~= conflict_row_table()[2]);
    r
}

/// The rows of section "other".
fn other_rows() -> (r: Vec<Row>)
    ensures
        r@.len() == 6,
        forall|i: int| 0 <= i < r@.len() ==> row_view(#[trigger] r@[i]) == other_row_table()[i],
        forall|i: int| 0 <= i < r@.len() ==> row_shape(#[trigger] r@[i], "other"@, false),
{
    let mut r: Vec<Row> = Vec::new();
    r.push(row(RowSpec {
        id: "other.uid",
        category: "other",
        term: "odrl:uid",
        status: PARTIAL,
        why: "Policies only. Rules and constraints have no uid; the engine substitutes list indexes \
              in its diagnostic output by explicit design.",
        evidence: "engine/src/wire.rs::describe_reason",
        asserts: "The policy's own uid is named in the reason, while a rule's and a constraint's are \
                  dropped in favour of an index and a rendering of the operands.",
        probe_ids: vec!["uid-policy-in-reason", "uid-rule-index-not-uid", "uid-constraint-no-uid"],
        documented_because: None,
        caveat: None,
    }));
    assert(row_shape(r@[0], "other"@, false));
    assert(row_view(r@[0]) =~= other_row_table()[0]);
    r.push(row(RowSpec {
        id: "other.profile-property",
        category: "other",
        term: "odrl:profile (a Policy declares its conforming profile)",
        status: NOT_IMPLEMENTED,
        why: "Every request is evaluated against the union of all loaded profiles, never the specific \
              one a policy names -- a named fail-open: a superset recognizes more, never fewer.",
        evidence: "engine/src/profile.rs::resolve (union), engine/src/wire.rs::RequestConfig",
        asserts: "A policy declaring a profile that defines only `use` successfully uses `anonymize` \
                  from the union. Per-policy scoping would produce Error here.",
        probe_ids: vec!["profile-union-not-per-policy"],
        documented_because: None,
        caveat: None,
    }));
    assert(row_shape(r@[1], "other"@, false));
    assert(row_view(r@[1]) =~= other_row_table()[1]);
    r.push(row(RowSpec {
        id: "other.inherit-from",
        category: "other",
        term: "odrl:inheritFrom (Policy inheritance)",
        status: PARTIAL,
        why: "A child now replicates a named parent's permissions, prohibitions, obligations, \
              and its own unset assigner/assignee, resolved by id within the same request's \
              policies list (WirePolicy::inherit_from), with circular chains and an absent \
              parent id rejected as Decision::Error rather than looped or silently fail-open. \
              The one thing odrl:conflict IS read for across the chain: whether a parent's and \
              a child's own declared value actually disagree over a genuine merged collision \
              (Information Model 2.10 validation rule 4) -- when they do, the entire policy is \
              void, reusing the same ConflictStrategy::Invalid machinery a single policy's own \
              undeclared strategy already uses, rather than resolved by either value alone. \
              Still partial, not full Section 2.9: the term itself is not replicated onto the \
              child (no wire representation for 'unset' distinct from its own default), and \
              this contract has no policy-level Asset or odrl:profile field to replicate in the \
              first place.",
        evidence: "engine/src/wire.rs::resolve_inherit_from, resolve_one, WirePolicy::inherit_from",
        asserts: "Three hit/control pairs. Under a closed default, a child with only an unrelated \
                  permission of its own still grants the action its inheritFrom parent permits \
                  (inheritfrom-safe-direction-hit/-control). Under the open default, a child \
                  declaring no rule of its own at all -- the single most natural real-world \
                  inheritFrom shape -- still denies an action its parent prohibits, rather than \
                  the vacuous Allow an empty permissions list would otherwise grant \
                  (inheritfrom-fail-open-hit/-control, the direction this addition actually \
                  closes). And a parent/child pair declaring differing odrl:conflict values \
                  over a genuine collision voids the policy rather than resolving it by either \
                  value (inheritfrom-conflict-divergence-hit/-control).",
        probe_ids: vec!["inheritfrom-safe-direction-hit",
            "inheritfrom-safe-direction-control",
            "inheritfrom-fail-open-hit",
            "inheritfrom-fail-open-control",
            "inheritfrom-conflict-divergence-hit",
            "inheritfrom-conflict-divergence-control",],
        documented_because: None,
        caveat: None,
    }));
    assert(row_shape(r@[2], "other"@, false));
    assert(row_view(r@[2]) =~= other_row_table()[2]);
    r.push(row(RowSpec {
        id: "other.right-operand-reference",
        category: "other",
        term: "odrl:rightOperandReference",
        status: NOT_IMPLEMENTED,
        why: "Structurally impossible rather than merely unbuilt: a no-network wasm32 guest cannot \
              dereference a remote IRI, and this one is instantiated with an empty import object.",
        evidence: "engine/src/constraint.rs, site/src/engine_bridge.rs::load_engine_instance",
        asserts: "An IRI right operand matches only as a literal; a value genuinely inside the \
                  referenced collection does not; and the odrl:rightOperandReference form itself is \
                  discarded.",
        probe_ids: vec!["ror-literal-eq", "ror-not-dereferenced", "ror-reference-key-ignored"],
        documented_because: None,
        caveat: None,
    }));
    assert(row_shape(r@[3], "other"@, false));
    assert(row_view(r@[3]) =~= other_row_table()[3]);
    r.push(row(RowSpec {
        id: "other.behaviour",
        category: "other",
        term: "Community Group Formal Semantics `Behaviour`",
        status: IMPLEMENTED,
        why: "A real, host-configurable parameter, kept outside the odrl: namespace because the draft \
              describes it as an evaluator input rather than an RDF property. Not an ODRL 2.2 REC \
              term.",
        evidence: "engine/src/profile.rs::Behaviour, engine/src/decision.rs::decide",
        asserts: "open and closed reach opposite decisions on the identical empty-permissions policy; \
                  the draft's own \"default\" alias resolves to closed; an absent field still parses \
                  as open; and the knob does not reach past the degenerate case.",
        probe_ids: vec!["beh-open-empty",
            "beh-closed-empty",
            "beh-default-alias",
            "beh-absent-defaults-open",
            "beh-closed-with-matching-permission",],
        documented_because: None,
        caveat: None,
    }));
    assert(row_shape(r@[4], "other"@, false));
    assert(row_view(r@[4]) =~= other_row_table()[4]);
    r.push(row(RowSpec {
        id: "other.error-on-unrecognized",
        category: "other",
        term: "Decision::Error for an unrecognized action (engine invention)",
        status: IMPLEMENTED,
        why: "No direct ODRL analog: a spec-conformant evaluator would police unknown vocabulary \
              through validation (SHACL shapes), not through evaluation-time refusal. Coherent as a \
              choice, but stricter than the spec.",
        evidence: "engine/src/decision.rs::Decision::Error, engine/src/wire.rs::evaluate_request",
        asserts: "The same two observations as the actions row, read for a different claim: the \
                  refusal happens at evaluation time, and it out-ranks every other outcome in the \
                  policy set.",
        probe_ids: vec!["act-unrecognized-error", "act-unrecognized-outranks-allow"],
        documented_because: None,
        caveat: None,
    }));
    assert(row_shape(r@[5], "other"@, false));
    assert(row_view(r@[5]) =~= other_row_table()[5]);
    r
}

/// The rows [`action_rows`] writes, in order.
pub open spec fn action_row_table() -> Seq<RowView> {
    seq![
        RowView {
            id: "actions.open-vocabulary"@,
            category: "actions"@,
            term: "Action as open vocabulary (profile-declared instances)"@,
            status: IMPLEMENTED@,
            why: "The engine ships no actions of its own; a host declares each one as an ActionDecl, \
              exactly the Information Model's own Profile Mechanism pattern."@,
            evidence: "engine/src/profile.rs::ActionDecl, profile-interpreter/src/interpret.rs"@,
            asserts: "A declared action matches exactly, and a declared includedIn edge is walked."@,
            probe_ids: seq!["act-base-exact"@, "act-includedin-1hop"@],
            documented_because: None,
            caveat: None,
        },
        RowView {
            id: "actions.included-in-transitive"@,
            category: "actions"@,
            term: "odrl:includedIn (transitive, declared-only)"@,
            status: PARTIAL@,
            why: "ResolvedConfig::covers walks any declared includedIn chain, cycle-safe -- but only \
              through edges a loaded profile actually declares."@,
            evidence: "engine/src/profile.rs::ResolvedConfig::covers"@,
            asserts: "The pair shows both halves: a two-hop declared chain resolves; the same chain with \
                  its intermediate action left undeclared does not."@,
            probe_ids: seq!["act-includedin-2hop"@, "act-includedin-undeclared-gap"@],
            documented_because: None,
            caveat: None,
        },
        RowView {
            id: "actions.implies"@,
            category: "actions"@,
            term: "odrl:implies"@,
            status: NOT_IMPLEMENTED@,
            why: "Only includedIn is read off an action declaration. odrl:implies is an unknown JSON key \
              and is discarded at deserialization."@,
            evidence: "engine/src/wire.rs::WireActionDecl"@,
            asserts: "The same taxonomy relationship expressed with odrl:implies does not cover, while \
                  the byte-neighbouring request expressing it with odrl:includedIn does."@,
            probe_ids: seq!["act-implies-ignored"@, "act-includedin-1hop"@],
            documented_because: None,
            caveat: None,
        },
        RowView {
            id: "actions.spec-taxonomy"@,
            category: "actions"@,
            term: "The vocabulary's own 51-action taxonomy"@,
            status: PARTIAL@,
            why: "Shipped as a loadable Turtle profile document rather than baked into the engine: a host \
              that never loads it recognizes nothing, and one that does gets every declared edge, \
              including the two chains rooted below `use`."@,
            evidence: "profile-interpreter/examples/odrl-2.2-common-actions.ttl"@,
            asserts: "Three chains no hand-written config in this workspace declares -- display -> play -> \
                  use, extract -> reproduce, sell -> transfer -- resolve over the real 51-term \
                  taxonomy."@,
            probe_ids: seq!["act-taxonomy-display-play-use"@, "act-taxonomy-extract-reproduce-use"@, "act-taxonomy-sell-transfer"@],
            documented_because: None,
            caveat: Some("The 51 action declarations in these probes' config were produced by profile-interpreter \
             parsing profile-interpreter/examples/odrl-2.2-common-actions.ttl natively at \
             catalog-generation time; this run verifies the engine's chain resolution over them, not \
             the Turtle parse."@),
        },
        RowView {
            id: "actions.unrecognized-is-error"@,
            category: "actions"@,
            term: "An action no loaded profile declares"@,
            status: IMPLEMENTED@,
            why: "A rule naming an undeclared action is a configuration gap (Decision::Error), never an \
              ordinary non-match -- deliberately stricter than the spec, which would police unknown \
              vocabulary at validation time instead."@,
            evidence: "engine/src/decision.rs::first_unrecognized_action"@,
            asserts: "An undeclared action errors, and that Error out-ranks a sibling policy's Allow."@,
            probe_ids: seq!["act-unrecognized-error"@, "act-unrecognized-outranks-allow"@],
            documented_because: None,
            caveat: None,
        },
    ]
}

/// The rows [`left_operand_rows`] writes, in order.
pub open spec fn left_operand_row_table() -> Seq<RowView> {
    seq![
        RowView {
            id: "left-operands.extension"@,
            category: "left-operands"@,
            term: "Profile-declared LeftOperand extension"@,
            status: IMPLEMENTED@,
            why: "leftOperand is a free-form key into the claims map, so an extension operand needs no \
              registration at all."@,
            evidence: "engine/src/constraint.rs::Constraint::evaluate, engine/src/claims.rs"@,
            asserts: "An invented operand IRI matches on a matching claim and misses on a differing one, \
                  with the full IRI rendered in the reason."@,
            probe_ids: seq!["lo-extension-hit"@, "lo-extension-miss"@],
            documented_because: None,
            caveat: None,
        },
        RowView {
            id: "left-operands.datetime"@,
            category: "left-operands"@,
            term: "dateTime"@,
            status: PARTIAL@,
            why: "Real chronological comparison, but only over a claim the host injects: the engine has \
              no clock and cannot know what \"now\" is."@,
            evidence: "engine/src/temporal.rs, engine/src/constraint.rs::ordering_matches"@,
            asserts: "Hit and miss on either side of the bound, and -- with no claim at all -- a miss, \
                  because there is no clock to fall back on."@,
            probe_ids: seq!["lo-datetime-hit"@, "lo-datetime-miss"@, "lo-datetime-absent-no-clock"@],
            documented_because: None,
            caveat: None,
        },
        RowView {
            id: "left-operands.numeric"@,
            category: "left-operands"@,
            term: "count, percentage, payAmount, absoluteSize, relativeSize, resolution"@,
            status: PARTIAL@,
            why: "Numeric comparison is real, including decimals and a rejection of non-finite lexical \
              forms -- but count's own spec meaning is a stateful execution count, which a stateless \
              engine cannot supply."@,
            evidence: "engine/src/constraint.rs::ordering_matches"@,
            asserts: "Hit, miss, absent-key miss, non-numeric miss, an \"inf\" claim rejected rather than \
                  vacuously matching, and a decimal comparison."@,
            probe_ids: seq!["lo-count-hit"@, "lo-count-miss"@, "lo-count-absent-not-stateful"@, "lo-count-nonnumeric-miss"@, "lo-count-infinity-rejected"@, "lo-payamount-decimal"@],
            documented_because: None,
            caveat: None,
        },
        RowView {
            id: "left-operands.spatial"@,
            category: "left-operands"@,
            term: "spatial"@,
            status: PARTIAL@,
            why: "Flat code/IRI equality works; there is no region containment anywhere."@,
            evidence: "engine/src/claims.rs::ClaimValue::matches"@,
            asserts: "An exact region IRI matches, and a region genuinely contained by it does not."@,
            probe_ids: seq!["lo-spatial-flat-hit"@, "lo-spatial-no-containment"@],
            documented_because: None,
            caveat: None,
        },
        RowView {
            id: "left-operands.opaque"@,
            category: "left-operands"@,
            term: "purpose, recipient, industry, media, product, event, deliveryChannel, fileFormat, language, systemDevice, virtualLocation, version"@,
            status: PARTIAL@,
            why: "Closest to lossless under an opaque-key design -- but language needs BCP-47 range \
              handling and event needs period ordering, neither of which exists."@,
            evidence: "engine/src/constraint.rs::Constraint::evaluate"@,
            asserts: "purpose is lossless; language does not do range matching (en-GB vs en); event does \
                  not order periods."@,
            probe_ids: seq!["lo-purpose-opaque-hit"@, "lo-language-no-bcp47"@, "lo-event-no-period-ordering"@],
            documented_because: None,
            caveat: None,
        },
        RowView {
            id: "left-operands.durations"@,
            category: "left-operands"@,
            term: "elapsedTime, meteredTime, delayPeriod, timeInterval"@,
            status: PARTIAL@,
            why: "xsd:duration is now parsed to a total magnitude and ordered by lt/lteq/gt/gteq -- but \
              Y/M components are converted at a fixed nominal length (365/30 days) rather than XSD's \
              own genuinely partial-order semantics for calendar durations."@,
            evidence: "engine/src/temporal.rs::parse_xsd_duration_nanos, engine/src/constraint.rs::ordering_matches"@,
            asserts: "The spec's own metering example allows; a malformed duration still misses rather \
                  than being silently accepted."@,
            probe_ids: seq!["lo-duration-metering-example"@, "lo-duration-malformed-miss"@],
            documented_because: None,
            caveat: Some("Y/M components use a fixed nominal length (365/30 days), not XSD's own partial-order \
             duration comparison -- see parse_xsd_duration_nanos's own doc comment."@),
        },
        RowView {
            id: "left-operands.coordinates"@,
            category: "left-operands"@,
            term: "spatialCoordinates, absolutePosition, absoluteSpatialPosition, absoluteTemporalPosition, relativePosition, relativeSpatialPosition, relativeTemporalPosition"@,
            status: NOT_IMPLEMENTED@,
            why: "No coordinate or geometry math of any kind; a coordinate is an opaque string."@,
            evidence: "engine/src/constraint.rs"@,
            asserts: "An exact coordinate string matches; coordinates ten metres apart do not; and \
                  ordering over positions is a miss."@,
            probe_ids: seq!["lo-coordinates-string-eq"@, "lo-coordinates-no-geometry"@, "lo-absoluteposition-no-ordering"@],
            documented_because: None,
            caveat: None,
        },
        RowView {
            id: "left-operands.unit-of-count"@,
            category: "left-operands"@,
            term: "unitOfCount"@,
            status: NOT_IMPLEMENTED@,
            why: "There is no qualifier mechanism on a constraint: unitOfCount can only ever be another \
              opaque claims key."@,
            evidence: "engine/src/constraint.rs::Constraint (three atomic fields, no qualifier)"@,
            asserts: "Two mutually exclusive units over the identical count constraint reach the identical \
                  decision and reason -- and the key does work as an ordinary operand on its own."@,
            probe_ids: seq!["lo-unitofcount-page"@, "lo-unitofcount-volume"@, "lo-unitofcount-as-plain-key"@],
            documented_because: None,
            caveat: None,
        },
        RowView {
            id: "left-operands.policy-usage"@,
            category: "left-operands"@,
            term: "Right operand odrl:policyUsage"@,
            status: NOT_IMPLEMENTED@,
            why: "The reserved right operand names the moment the policy was used -- execution history a \
              stateless engine keeps none of."@,
            evidence: "engine/src/constraint.rs (right_operand is a plain string)"@,
            asserts: "It is compared as a bare string when a host injects the claim, and means nothing at \
                  all when nobody does."@,
            probe_ids: seq!["lo-policyusage-literal"@, "lo-policyusage-absent"@],
            documented_because: None,
            caveat: None,
        },
    ]
}

/// The rows [`operator_rows`] writes, in order.
pub open spec fn operator_row_table() -> Seq<RowView> {
    seq![
        RowView {
            id: "operators.eq"@,
            category: "operators"@,
            term: "eq"@,
            status: PARTIAL@,
            why: "Against a multi-valued claim, eq is membership rather than identity -- a deliberate, \
              documented adaptation, and a real divergence from spec equality."@,
            evidence: "engine/src/claims.rs::ClaimValue::matches"@,
            asserts: "Single-valued equality; the multi-valued membership divergence; and the bound on \
                  it -- eq never splits or joins its right operand."@,
            probe_ids: seq!["op-eq-single"@, "op-eq-multi-membership"@, "op-eq-no-concat"@],
            documented_because: None,
            caveat: None,
        },
        RowView {
            id: "operators.neq"@,
            category: "operators"@,
            term: "neq"@,
            status: PARTIAL@,
            why: "The same multi-value adaptation, negated. An absent claim key is a miss, not a \
              satisfaction."@,
            evidence: "engine/src/constraint.rs::Constraint::evaluate"@,
            asserts: "A present, differing claim satisfies it -- and an absent claim does NOT, which is \
                  the opposite of what the source gap analysis records."@,
            probe_ids: seq!["op-neq-hit"@, "op-neq-absent-miss"@],
            documented_because: None,
            caveat: None,
        },
        RowView {
            id: "operators.set-operators"@,
            category: "operators"@,
            term: "isAnyOf, isAllOf, isNoneOf"@,
            status: IMPLEMENTED@,
            why: "All three exist and carry the documented comma-delimited right-operand adaptation, \
              including isNoneOf's own deliberate absent-key exception."@,
            evidence: "engine/src/claims.rs::matches_any/matches_all, engine/src/constraint.rs"@,
            asserts: "Hit and miss for each, the inexpressible comma-containing value with its own \
                  control, and isNoneOf's absent-key exception."@,
            probe_ids: seq!["op-isanyof-hit"@, "op-isanyof-miss"@, "op-isanyof-comma-unescapable"@, "op-isanyof-comma-control"@, "op-isallof-hit"@, "op-isallof-miss"@, "op-isnoneof-hit"@, "op-isnoneof-miss"@, "op-isnoneof-absent-satisfies"@],
            documented_because: None,
            caveat: None,
        },
        RowView {
            id: "operators.is-part-of"@,
            category: "operators"@,
            term: "isPartOf"@,
            status: PARTIAL@,
            why: "Honestly labelled rather than honestly implemented: it runs isAnyOf's exact test, so it \
              expresses enumerated membership, never containment."@,
            evidence: "engine/src/constraint.rs::Operator::IsPartOf"@,
            asserts: "Flat membership works; genuine hierarchy membership does not; and the operator is \
                  observationally identical to isAnyOf."@,
            probe_ids: seq!["op-ispartof-hit"@, "op-ispartof-no-hierarchy"@, "op-ispartof-mirrors-isanyof"@],
            documented_because: None,
            caveat: None,
        },
        RowView {
            id: "operators.ordering"@,
            category: "operators"@,
            term: "lt, lteq, gt, gteq"@,
            status: PARTIAL@,
            why: "Real chronological ordering over xsd:dateTime and xsd:date (offsets included), an \
              xsd:duration reading (see left-operands.durations for its own caveat), and a numeric \
              fallback -- but no coercion between any of the three kinds."@,
            evidence: "engine/src/temporal.rs, engine/src/constraint.rs::ordering_matches"@,
            asserts: "Fractional seconds order chronologically rather than lexically; a bare date and a \
                  numeric offset are both accepted; the strict/non-strict boundary pair differ; and a \
                  mixed-type comparison misses rather than coercing."@,
            probe_ids: seq!["op-lt-fractional-chronological"@, "op-lteq-xsd-date"@, "op-lt-offset-datetime"@, "op-gteq-numeric-boundary"@, "op-gt-numeric-boundary"@, "op-lt-mixed-type-miss"@],
            documented_because: None,
            caveat: None,
        },
        RowView {
            id: "operators.isa-haspart"@,
            category: "operators"@,
            term: "isA, hasPart"@,
            status: NOT_IMPLEMENTED@,
            why: "Neither is in the Operator enum. Because that enum is closed, an out-of-enum token is \
              not silently ignored -- the request fails to parse and the engine answers Error."@,
            evidence: "engine/src/constraint.rs::Operator"@,
            asserts: "Both tokens fail to parse, while the byte-identical request with a supported \
                  operator succeeds -- so the Error is the token, not the request."@,
            probe_ids: seq!["op-isa-unparseable"@, "op-haspart-unparseable"@, "op-isa-control-eq"@],
            documented_because: None,
            caveat: None,
        },
        RowView {
            id: "operators.profile-extension"@,
            category: "operators"@,
            term: "Profile-declared Operator extension"@,
            status: OUT_OF_SCOPE@,
            why: "The wire contract has no per-profile operator registration mechanism; the enum is fixed \
              at the engine's own compile time, and profile-interpreter warns about a declared \
              operator rather than pretending it took effect."@,
            evidence: "profile-interpreter/src/interpret.rs (the odrl:Operator warning)"@,
            asserts: "Declaring the extension in the config and then using it still fails to parse."@,
            probe_ids: seq!["op-profile-operator-unparseable"@],
            documented_because: None,
            caveat: Some(EXTENSION_CAVEAT@),
        },
    ]
}

/// The rows [`logical_rows`] writes, in order.
pub open spec fn logical_row_table() -> Seq<RowView> {
    seq![
        RowView {
            id: "logical.and"@,
            category: "logical"@,
            term: "odrl:and"@,
            status: IMPLEMENTED@,
            why: "A real nested field on the engine's own Constraint type, not a host-side expansion."@,
            evidence: "engine/src/constraint.rs::Constraint::and"@,
            asserts: "Both children matching Allows, one child failing Denies, and an empty list is \
                  vacuously satisfied."@,
            probe_ids: seq!["lc-and-both"@, "lc-and-one-false"@, "lc-and-empty-vacuous"@],
            documented_because: None,
            caveat: None,
        },
        RowView {
            id: "logical.or"@,
            category: "logical"@,
            term: "odrl:or"@,
            status: IMPLEMENTED@,
            why: "Likewise a real nested field, with the opposite empty-list convention to odrl:and."@,
            evidence: "engine/src/constraint.rs::Constraint::or"@,
            asserts: "The second child alone satisfies it, no child does not, and an empty list is never \
                  satisfied."@,
            probe_ids: seq!["lc-or-second"@, "lc-or-none"@, "lc-or-empty-never"@],
            documented_because: None,
            caveat: None,
        },
        RowView {
            id: "logical.xone"@,
            category: "logical"@,
            term: "odrl:xone"@,
            status: IMPLEMENTED@,
            why: "Exactly-one semantics, both boundaries -- the thing a disjunctive-normal-form expansion \
              provably cannot express."@,
            evidence: "engine/src/constraint.rs::Constraint::xone"@,
            asserts: "One matching child Allows, zero Denies, and TWO Denies -- against a control with \
                  the identical children and claims under odrl:or, which Allows."@,
            probe_ids: seq!["lc-xone-exactly-one"@, "lc-xone-zero"@, "lc-xone-two-denies"@, "lc-or-two-allows-control"@],
            documented_because: None,
            caveat: None,
        },
        RowView {
            id: "logical.and-sequence"@,
            category: "logical"@,
            term: "odrl:andSequence"@,
            status: NOT_IMPLEMENTED@,
            why: "The Constraint type has and/or/xone and nothing else; andSequence is an unknown key and \
              is discarded."@,
            evidence: "engine/src/constraint.rs::RawConstraint"@,
            asserts: "Two requests one key name apart: odrl:and is honoured, odrl:andSequence is dropped \
                  and the constraint's own false atomic fields decide."@,
            probe_ids: seq!["lc-andsequence-ignored"@, "lc-and-control-honored"@],
            documented_because: None,
            caveat: None,
        },
        RowView {
            id: "logical.profile-extension"@,
            category: "logical"@,
            term: "Profile-declared Logical Constraint operand"@,
            status: OUT_OF_SCOPE@,
            why: "The three logical fields are fixed on the type; a profile cannot add a fourth."@,
            evidence: "engine/src/profile.rs (module doc), engine/src/constraint.rs::Constraint"@,
            asserts: "A declared ex:majorityOf operand, used on a constraint, is dropped like any other \
                  unknown key."@,
            probe_ids: seq!["lc-custom-logical-ignored"@],
            documented_because: None,
            caveat: Some(EXTENSION_CAVEAT@),
        },
    ]
}

/// The rows [`policy_class_rows`] writes, in order.
pub open spec fn policy_class_row_table() -> Seq<RowView> {
    seq![
        RowView {
            id: "policy-classes.discrimination"@,
            category: "policy-classes"@,
            term: "Policy class discrimination (Set, Offer, Agreement, Assertion, Privacy, Request, Ticket)"@,
            status: NOT_IMPLEMENTED@,
            why: "The wire carries `kind` as a string and nothing ever reads it; none of the \
              class-specific MUSTs is checked."@,
            evidence: "engine/src/wire.rs::WirePolicy::as_decision_policy (kind is dropped)"@,
            asserts: "An Agreement grants to a stranger, a Ticket carrying a forbidden assignee is \
                  accepted, and a kind that is not an ODRL class at all evaluates identically."@,
            probe_ids: seq!["pc-kind-agreement-ignores-assignee"@, "pc-kind-ticket-with-assignee"@, "pc-kind-nonsense"@],
            documented_because: None,
            caveat: None,
        },
        RowView {
            id: "policy-classes.set-default"@,
            category: "policy-classes"@,
            term: "Set semantics as the effective default"@,
            status: PARTIAL@,
            why: "Evaluating every policy as bare rules IS applying Set semantics to all seven classes -- \
              a side effect worth stating outright rather than leaving implicit."@,
            evidence: "engine/src/decision.rs::decide"@,
            asserts: "A declared Set and an unrecognisable kind reach the identical decision and reason: \
                  identical evaluation of any kind is always-Set semantics."@,
            probe_ids: seq!["pc-kind-set"@, "pc-kind-nonsense"@],
            documented_because: None,
            caveat: None,
        },
        RowView {
            id: "policy-classes.profile-subclass"@,
            category: "policy-classes"@,
            term: "Profile-declared additional Policy subclasses"@,
            status: OUT_OF_SCOPE@,
            why: "Named directly in the engine's own scope-narrowing: profiles extend actions and left \
              operands here, not policy classes."@,
            evidence: "engine/src/profile.rs (module doc)"@,
            asserts: "A declared ex:ResearchLicence subclass is observationally in the same position as \
                  any other unrecognised kind -- which is the honest grouping, not a stronger claim."@,
            probe_ids: seq!["pc-kind-profile-subclass"@, "pc-kind-nonsense"@],
            documented_because: None,
            caveat: Some(EXTENSION_CAVEAT@),
        },
    ]
}

/// The rows [`party_rows`] writes, in order.
pub open spec fn party_row_table() -> Seq<RowView> {
    seq![
        RowView {
            id: "party.assigner-assignee"@,
            category: "party"@,
            term: "assigner, assignee"@,
            status: PARTIAL@,
            why: "assignee is evaluated as a party scope, but only on request: a config naming \
              partyIdentityClaim says which claim identifies the caller, and a policy whose \
              assignee that caller does not match is then treated as absent from the request. \
              Unset -- the default, and every request built before it existed -- both party fields \
              are carried on the wire and dropped before the decision algorithm runs. assigner is \
              never evaluated at all: it names who granted the policy, not who is asking."@,
            evidence: "engine/src/wire.rs::party_role_mismatch, engine/src/profile.rs::ResolvedConfig::\
                   party_identity_claim"@,
            asserts: "With no partyIdentityClaim, a named assignee does not scope the grant and removing \
                  the field changes nothing; with one, the named assignee still gets the same answer \
                  while a stranger gets a deny that names the mismatch; and party scoping is also \
                  reachable per-rule by mirroring the party into the claims map."@,
            probe_ids: seq!["pf-assignee-mismatch"@, "pf-assignee-null-control"@, "pf-assignee-scoped-hit"@, "pf-assignee-scoped-miss"@, "pf-assignee-as-claim"@],
            documented_because: None,
            caveat: Some("Opt-in and assignee-only. Nothing here validates an assigner, resolves an \
             odrl:PartyCollection, or normalizes an IRI: the comparison is the engine's own `eq` \
             semantics against one claim key -- string equality, or membership for a multi-valued \
             claim."@),
        },
        RowView {
            id: "party.collections"@,
            category: "party"@,
            term: "Party / PartyCollection / membership"@,
            status: NOT_IMPLEMENTED@,
            why: "Collection membership is resolved by compliance-runner against the vendored suite's \
              state-of-the-world graph, natively, before any Request exists."@,
            evidence: "compliance-runner/src/translate.rs (odrl:partOf lookups)"@,
            asserts: ""@,
            probe_ids: seq![],
            documented_because: Some("There is no odrl:partOf, no state-of-the-world graph and no collection concept anywhere \
             on the wire -- nothing for evaluate() to observe, so no request can put this claim to \
             the test. It is a native-tooling claim, verified by that crate's own tests instead."@),
            caveat: None,
        },
        RowView {
            id: "party.inverse-properties"@,
            category: "party"@,
            term: "assignerOf, assigneeOf"@,
            status: NOT_IMPLEMENTED@,
            why: "No occurrence anywhere in the engine; unknown keys on a policy are discarded."@,
            evidence: "engine/src/wire.rs::WirePolicy"@,
            asserts: "Both properties injected on a policy leave the decision and reason identical to the \
                  control request without them."@,
            probe_ids: seq!["pf-assignerof-inert"@, "pf-assignee-null-control"@],
            documented_because: None,
            caveat: None,
        },
        RowView {
            id: "party.common-functions"@,
            category: "party"@,
            term: "The twelve common party functions"@,
            status: NOT_IMPLEMENTED@,
            why: "Same absence: most would only matter alongside duty-execution semantics the engine also \
              does not have."@,
            evidence: "engine/src/wire.rs::WirePolicy"@,
            asserts: "All twelve on one policy at once leave the decision and reason identical to the \
                  control."@,
            probe_ids: seq!["pf-common-functions-inert"@, "pf-assignee-null-control"@],
            documented_because: None,
            caveat: None,
        },
        RowView {
            id: "party.profile-roles"@,
            category: "party"@,
            term: "Profile-declared Party functional roles"@,
            status: OUT_OF_SCOPE@,
            why: "Named in the engine's own scope-narrowing sentence."@,
            evidence: "engine/src/profile.rs (module doc)"@,
            asserts: "The twelve-property probe is the observable half: a declared role would sit in \
                  exactly the same position -- an unknown key on a policy."@,
            probe_ids: seq!["pf-common-functions-inert"@, "pf-assignee-null-control"@],
            documented_because: None,
            caveat: Some(EXTENSION_CAVEAT@),
        },
    ]
}

/// The rows [`duty_rows`] writes, in order.
pub open spec fn duty_row_table() -> Seq<RowView> {
    seq![
        RowView {
            id: "duty.obligation"@,
            category: "duty"@,
            term: "odrl:obligation (policy-level)"@,
            status: PARTIAL@,
            why: "\"Satisfied\" means the duty's own constraints match the claims -- a precondition \
              reading, since the engine cannot observe whether the action was performed. dutyMode \
              itself is an engine invention with no ODRL counterpart."@,
            evidence: "engine/src/decision.rs::unresolved_duties, Rule::duty_satisfied"@,
            asserts: "An unconditional duty is unresolved rather than assumed met; a claims-satisfied one \
                  resolves; and dutyMode: deny turns an unresolved duty into a Deny."@,
            probe_ids: seq!["duty-obligation-unresolved-advise"@, "duty-obligation-satisfied-by-claims"@, "duty-obligation-deny-mode"@],
            documented_because: None,
            caveat: None,
        },
        RowView {
            id: "duty.per-permission"@,
            category: "duty"@,
            term: "odrl:duty (per-permission pre-condition)"@,
            status: PARTIAL@,
            why: "Rule now carries odrl:duty, resolved exactly as a policy-level obligation is -- its own \
              constraints against the claims map -- but scoped to the one permission it hangs off: \
              under dutyMode: deny that permission does not grant, while a sibling permission still \
              can. Partial, not Implemented, for the same reason the obligation row is: \"satisfied\" \
              is a claims precondition, never an observation that the duty was performed."@,
            evidence: "engine/src/decision.rs::Rule::duty, Rule::grants, unresolved_permission_duties"@,
            asserts: "Unresolved under deny stops that permission and says so in the reason; one claim \
                  resolves it; under advise it is advisory and carries its attachment point in the \
                  duties entry's source; and a sibling permission still grants, which a policy-level \
                  obligation would not have allowed."@,
            probe_ids: seq!["duty-per-permission-unresolved-deny"@, "duty-per-permission-satisfied"@, "duty-per-permission-advisory"@, "duty-per-permission-scoped-to-its-own-permission"@],
            documented_because: None,
            caveat: None,
        },
        RowView {
            id: "duty.consequence"@,
            category: "duty"@,
            term: "odrl:consequence"@,
            status: PARTIAL@,
            why: "A Duty's on-non-fulfilment Duty is now evaluated: an unresolved duty falls through to \
              its consequence rather than straight to dutyMode, chained up to MAX_CONSEQUENCE_DEPTH \
              (4) hops and treated as unresolved past that bound. Partial: ODRL permits a Duty to \
              carry several consequences and this models one successor, because the decided semantics \
              state no rule for combining several."@,
            evidence: "engine/src/decision.rs::Rule::consequence, outstanding_duty, MAX_CONSEQUENCE_DEPTH"@,
            asserts: "An unfulfilled duty whose consequence the claims satisfy leaves nothing outstanding; \
                  the same duty with no claims reports the consequence -- not the duty it replaced -- \
                  with a source ending .consequence."@,
            probe_ids: seq!["duty-consequence-resolves-where-the-primary-did-not"@, "duty-consequence-itself-unresolved"@],
            documented_because: None,
            caveat: None,
        },
        RowView {
            id: "duty.remedy"@,
            category: "duty"@,
            term: "odrl:remedy"@,
            status: PARTIAL@,
            why: "A prohibition's remedy duty is evaluated and reported, and never lifts the prohibition. \
              Partial, and deliberately so: ODRL's reading where a performed remedy substitutes for \
              the violation is NOT implemented, because duties in this engine only ever tighten a \
              decision and a claims-asserted remedy able to erase a prohibition would be the first \
              one that loosens one."@,
            evidence: "engine/src/decision.rs::Rule::remedy, unresolved_remedies, decide (doc comment)"@,
            asserts: "An unresolved remedy denies exactly as the bare prohibition would, names itself in \
                  the reason and appears in duties with its attachment point; a satisfied one gives \
                  the same Deny with an empty duties list; and a prohibition that never fires reports \
                  no remedy at all."@,
            probe_ids: seq!["duty-remedy-unresolved-does-not-drop-the-prohibition"@, "duty-remedy-satisfied-still-denies"@, "duty-remedy-not-reported-when-the-prohibition-does-not-fire"@],
            documented_because: None,
            caveat: None,
        },
        RowView {
            id: "duty.profile-rule-classes"@,
            category: "duty"@,
            term: "Profile-declared Rule classes"@,
            status: OUT_OF_SCOPE@,
            why: "Three rule lists, fixed on the type; a profile cannot add a fourth."@,
            evidence: "engine/src/profile.rs (module doc), engine/src/wire.rs::WirePolicy"@,
            asserts: "A fourth rule list injected on a policy is dropped, leaving act-base-exact's answer \
                  unchanged."@,
            probe_ids: seq!["duty-profile-rule-class-inert"@, "act-base-exact"@],
            documented_because: None,
            caveat: Some(EXTENSION_CAVEAT@),
        },
    ]
}

/// The rows [`asset_rows`] writes, in order.
pub open spec fn asset_row_table() -> Seq<RowView> {
    seq![
        RowView {
            id: "assets.collections"@,
            category: "assets"@,
            term: "AssetCollection, odrl:partOf, odrl:source"@,
            status: PARTIAL@,
            why: "odrl:partOf/AssetCollection membership is now a real, opt-in wire fact: the request \
              carries its own asset_collections, naming every collection dataset_id is asserted to be \
              odrl:partOf, and a rule's odrl:target matches a collection it names or any collection \
              in that list (Rule::target_applies). Partial, not Implemented: this engine resolves no \
              membership itself -- no graph, no transitive closure, no IRI normalization -- the host \
              supplies the (already-flattened) fact, exactly as compliance-runner's own is_member_of \
              adapter already does natively. odrl:source (an asset's own derivation provenance) is \
              untouched by this and remains unaddressed."@,
            evidence: "engine/src/wire.rs::Request::asset_collections, engine/src/decision.rs::Rule::target_applies"@,
            asserts: "A prohibition scoped to a collection IRI denies a request for an asserted member of \
                  it (asset-collection-membership-hit), but not a request whose asset_collections \
                  names a different collection (asset-collection-membership-wrong-collection-miss) or \
                  names none at all (asset-target-not-a-collection)."@,
            probe_ids: seq!["asset-collection-membership-hit"@, "asset-collection-membership-wrong-collection-miss"@, "asset-target-not-a-collection"@],
            documented_because: None,
            caveat: None,
        },
        RowView {
            id: "assets.target"@,
            category: "assets"@,
            term: "odrl:target (per-rule)"@,
            status: PARTIAL@,
            why: "Each rule may carry its own odrl:target, matched against the request's own asset \
              (Request.dataset_id); a rule naming none is about whatever is requested. Partial, not \
              Implemented: the match is opaque string equality against dataset_id, with no IRI \
              normalization -- and, absent an asserted odrl:partOf fact, a rule scoped to a collection \
              IRI does not cover a member of it either (see AssetCollection, odrl:partOf above for the \
              opt-in case where the host does assert one)."@,
            evidence: "engine/src/decision.rs::Rule::target, Rule::target_applies"@,
            asserts: "One policy, permission on urn:asset:A and prohibition on urn:asset:B: the same \
                  policy allows a request for A and denies one for B, each reason naming the target \
                  that decided it."@,
            probe_ids: seq!["asset-per-rule-target-hit"@, "asset-per-rule-target-miss"@],
            documented_because: None,
            caveat: None,
        },
        RowView {
            id: "assets.output"@,
            category: "assets"@,
            term: "odrl:output"@,
            status: NOT_IMPLEMENTED@,
            why: "No occurrence anywhere; the asset a permitted action produces is not modelled."@,
            evidence: "engine/src/decision.rs::Rule"@,
            asserts: "The injected key leaves act-base-exact's decision and reason unchanged."@,
            probe_ids: seq!["asset-output-ignored"@, "act-base-exact"@],
            documented_because: None,
            caveat: None,
        },
        RowView {
            id: "assets.has-policy"@,
            category: "assets"@,
            term: "odrl:hasPolicy"@,
            status: OUT_OF_SCOPE@,
            why: "Policy-to-asset association is deliberately a host/catalog concern under this study's \
              own harvested-catalog scope boundary."@,
            evidence: "engine/src/wire.rs::Request (policies arrive already selected)"@,
            asserts: ""@,
            probe_ids: seq![],
            documented_because: Some("Association happens when a host SELECTS which policies to put in the request. evaluate() \
             receives an already-selected policy set, so there is no observable difference between \
             \"the host used hasPolicy\" and \"the host used anything else\" -- a pre-request \
             concern no request can encode."@),
            caveat: None,
        },
    ]
}

/// The rows [`conflict_rows`] writes, in order.
pub open spec fn conflict_row_table() -> Seq<RowView> {
    seq![
        RowView {
            id: "conflict.property"@,
            category: "conflict"@,
            term: "odrl:conflict (perm, prohibit, invalid)"@,
            status: IMPLEMENTED@,
            why: "A real per-policy field on the wire policy shape, read by decide(): a genuine collision \
              -- a permission that grants and a prohibition that denies, for the same requested \
              action and target -- is resolved by the policy's own term. All three ConflictTerms are \
              evaluated, including `perm`, which was previously inexpressible."@,
            evidence: "engine/src/decision.rs::ConflictStrategy, conflicting_rules, decide; \
                   engine/src/wire.rs::WirePolicy"@,
            asserts: "The same colliding policy Denies as void under the default, Allows under `perm`, \
                  and Denies naming the prohibition under `prohibit`."@,
            probe_ids: seq!["conflict-default-invalid-voids"@, "conflict-perm-allows"@, "conflict-prohibit-denies"@],
            documented_because: None,
            caveat: Some("`invalid` surfaces as Deny under a distinct reason rather than as a fourth wire \
             decision -- a void policy is a policy decision, not the configuration gap \
             Decision::Error exists to flag. The probes read the reason string for it."@),
        },
        RowView {
            id: "conflict.fixed-strategy"@,
            category: "conflict"@,
            term: "Default for a policy that declares no odrl:conflict"@,
            status: IMPLEMENTED@,
            why: "ODRL's own stated default, `invalid`, is the default here too. Earlier revisions applied \
              an unconditional, unnamed prohibition-overrides instead; that was a divergence, and \
              closing it was safe to do because no fixture in the vendored compliance corpus carries \
              a policy with both a permission and a prohibition, so nothing in it moved."@,
            evidence: "engine/src/decision.rs::<ConflictStrategy as Default>::default"@,
            asserts: "A conflicting policy declaring no strategy is void, and declaring `invalid` \
                  explicitly reaches a byte-identical decision and reason."@,
            probe_ids: seq!["conflict-default-invalid-voids"@, "conflict-invalid-declared-explicitly"@],
            documented_because: None,
            caveat: None,
        },
        RowView {
            id: "conflict.profile-strategies"@,
            category: "conflict"@,
            term: "Profile-declared conflict strategies"@,
            status: OUT_OF_SCOPE@,
            why: "Named in the engine's own scope-narrowing sentence. ConflictStrategy is closed at the \
              engine's compile time over ODRL's three ConflictTerms, so a profile-declared strategy \
              is not silently ignored either -- it fails deserialization."@,
            evidence: "engine/src/profile.rs (module doc), engine/src/decision.rs::ConflictStrategy"@,
            asserts: "A declared ex:assigneeWins strategy, selected by the policy, makes the request fail \
                  to parse rather than resolving under some substituted strategy."@,
            probe_ids: seq!["conflict-profile-strategy-unparseable"@, "conflict-no-collision-inert"@],
            documented_because: None,
            caveat: Some(EXTENSION_CAVEAT@),
        },
    ]
}

/// The rows [`other_rows`] writes, in order.
pub open spec fn other_row_table() -> Seq<RowView> {
    seq![
        RowView {
            id: "other.uid"@,
            category: "other"@,
            term: "odrl:uid"@,
            status: PARTIAL@,
            why: "Policies only. Rules and constraints have no uid; the engine substitutes list indexes \
              in its diagnostic output by explicit design."@,
            evidence: "engine/src/wire.rs::describe_reason"@,
            asserts: "The policy's own uid is named in the reason, while a rule's and a constraint's are \
                  dropped in favour of an index and a rendering of the operands."@,
            probe_ids: seq!["uid-policy-in-reason"@, "uid-rule-index-not-uid"@, "uid-constraint-no-uid"@],
            documented_because: None,
            caveat: None,
        },
        RowView {
            id: "other.profile-property"@,
            category: "other"@,
            term: "odrl:profile (a Policy declares its conforming profile)"@,
            status: NOT_IMPLEMENTED@,
            why: "Every request is evaluated against the union of all loaded profiles, never the specific \
              one a policy names -- a named fail-open: a superset recognizes more, never fewer."@,
            evidence: "engine/src/profile.rs::resolve (union), engine/src/wire.rs::RequestConfig"@,
            asserts: "A policy declaring a profile that defines only `use` successfully uses `anonymize` \
                  from the union. Per-policy scoping would produce Error here."@,
            probe_ids: seq!["profile-union-not-per-policy"@],
            documented_because: None,
            caveat: None,
        },
        RowView {
            id: "other.inherit-from"@,
            category: "other"@,
            term: "odrl:inheritFrom (Policy inheritance)"@,
            status: PARTIAL@,
            why: "A child now replicates a named parent's permissions, prohibitions, obligations, \
              and its own unset assigner/assignee, resolved by id within the same request's \
              policies list (WirePolicy::inherit_from), with circular chains and an absent \
              parent id rejected as Decision::Error rather than looped or silently fail-open. \
              The one thing odrl:conflict IS read for across the chain: whether a parent's and \
              a child's own declared value actually disagree over a genuine merged collision \
              (Information Model 2.10 validation rule 4) -- when they do, the entire policy is \
              void, reusing the same ConflictStrategy::Invalid machinery a single policy's own \
              undeclared strategy already uses, rather than resolved by either value alone. \
              Still partial, not full Section 2.9: the term itself is not replicated onto the \
              child (no wire representation for 'unset' distinct from its own default), and \
              this contract has no policy-level Asset or odrl:profile field to replicate in the \
              first place."@,
            evidence: "engine/src/wire.rs::resolve_inherit_from, resolve_one, WirePolicy::inherit_from"@,
            asserts: "Three hit/control pairs. Under a closed default, a child with only an unrelated \
                  permission of its own still grants the action its inheritFrom parent permits \
                  (inheritfrom-safe-direction-hit/-control). Under the open default, a child \
                  declaring no rule of its own at all -- the single most natural real-world \
                  inheritFrom shape -- still denies an action its parent prohibits, rather than \
                  the vacuous Allow an empty permissions list would otherwise grant \
                  (inheritfrom-fail-open-hit/-control, the direction this addition actually \
                  closes). And a parent/child pair declaring differing odrl:conflict values \
                  over a genuine collision voids the policy rather than resolving it by either \
                  value (inheritfrom-conflict-divergence-hit/-control)."@,
            probe_ids: seq!["inheritfrom-safe-direction-hit"@, "inheritfrom-safe-direction-control"@, "inheritfrom-fail-open-hit"@, "inheritfrom-fail-open-control"@, "inheritfrom-conflict-divergence-hit"@, "inheritfrom-conflict-divergence-control"@],
            documented_because: None,
            caveat: None,
        },
        RowView {
            id: "other.right-operand-reference"@,
            category: "other"@,
            term: "odrl:rightOperandReference"@,
            status: NOT_IMPLEMENTED@,
            why: "Structurally impossible rather than merely unbuilt: a no-network wasm32 guest cannot \
              dereference a remote IRI, and this one is instantiated with an empty import object."@,
            evidence: "engine/src/constraint.rs, site/src/engine_bridge.rs::load_engine_instance"@,
            asserts: "An IRI right operand matches only as a literal; a value genuinely inside the \
                  referenced collection does not; and the odrl:rightOperandReference form itself is \
                  discarded."@,
            probe_ids: seq!["ror-literal-eq"@, "ror-not-dereferenced"@, "ror-reference-key-ignored"@],
            documented_because: None,
            caveat: None,
        },
        RowView {
            id: "other.behaviour"@,
            category: "other"@,
            term: "Community Group Formal Semantics `Behaviour`"@,
            status: IMPLEMENTED@,
            why: "A real, host-configurable parameter, kept outside the odrl: namespace because the draft \
              describes it as an evaluator input rather than an RDF property. Not an ODRL 2.2 REC \
              term."@,
            evidence: "engine/src/profile.rs::Behaviour, engine/src/decision.rs::decide"@,
            asserts: "open and closed reach opposite decisions on the identical empty-permissions policy; \
                  the draft's own \"default\" alias resolves to closed; an absent field still parses \
                  as open; and the knob does not reach past the degenerate case."@,
            probe_ids: seq!["beh-open-empty"@, "beh-closed-empty"@, "beh-default-alias"@, "beh-absent-defaults-open"@, "beh-closed-with-matching-permission"@],
            documented_because: None,
            caveat: None,
        },
        RowView {
            id: "other.error-on-unrecognized"@,
            category: "other"@,
            term: "Decision::Error for an unrecognized action (engine invention)"@,
            status: IMPLEMENTED@,
            why: "No direct ODRL analog: a spec-conformant evaluator would police unknown vocabulary \
              through validation (SHACL shapes), not through evaluation-time refusal. Coherent as a \
              choice, but stricter than the spec."@,
            evidence: "engine/src/decision.rs::Decision::Error, engine/src/wire.rs::evaluate_request"@,
            asserts: "The same two observations as the actions row, read for a different claim: the \
                  refusal happens at evaluation time, and it out-ranks every other outcome in the \
                  policy set."@,
            probe_ids: seq!["act-unrecognized-error"@, "act-unrecognized-outranks-allow"@],
            documented_because: None,
            caveat: None,
        },
    ]
}

/// The whole catalog as plain values, section by section.
pub open spec fn catalog_row_table() -> Seq<RowView> {
    action_row_table() + left_operand_row_table() + operator_row_table() + logical_row_table()
        + policy_class_row_table() + party_row_table() + duty_row_table() + asset_row_table()
        + conflict_row_table() + other_row_table()
}

/// The index of the first row of section `k`.
pub open spec fn section_start(k: int) -> int {
    seq![0int, 5, 14, 21, 26, 29, 34, 39, 43, 46][k]
}

/// Section `k` of a row index, by the catalog's fixed section sizes.
pub open spec fn section_of(i: int) -> int {
    if i < 5 { 0 }
    else if i < 14 { 1 }
    else if i < 21 { 2 }
    else if i < 26 { 3 }
    else if i < 29 { 4 }
    else if i < 34 { 5 }
    else if i < 39 { 6 }
    else if i < 43 { 7 }
    else if i < 46 { 8 }
    else { 9 }
}

/// All fifty-two rows, section by section, each exactly as
/// [`catalog_row_table`] writes it. Every row carries one of the four
/// documented statuses and names one of the ten sections, every section is
/// used, no two rows share an id, and a row is probed exactly when it is
/// not documented-only; exactly two rows (party collections and
/// `hasPolicy`) are documented-only.
pub fn rows() -> (r: Vec<Row>)
    ensures
        r@.len() == 52,
        forall|i: int| 0 <= i < 52 ==> row_shape(#[trigger] r@[i], category_ids()[section_of(i)], i == 30 || i == 42),
        forall|i: int| 0 <= i < 52 ==> 0 <= #[trigger] section_of(i) < 10,
        forall|k: int| 0 <= k < 10 ==> 0 <= #[trigger] section_start(k) < 52
            && section_of(section_start(k)) == k
            && r@[section_start(k)].category@ == category_ids()[k],
        forall|i: int| 0 <= i < 52 ==> is_documented_status((#[trigger] r@[i]).status@) && probed_xor_documented(r@[i]),
        forall|i: int| 0 <= i < 52 ==> ((#[trigger] r@[i]).documented_because is Some <==> (i == 30 || i == 42)),
        catalog_row_table().len() == 52,
        forall|i: int| 0 <= i < 52 ==> row_view(#[trigger] r@[i]) == catalog_row_table()[i],
        forall|i: int, j: int| 0 <= i < j < 52 ==> (#[trigger] r@[i]).id@ != (#[trigger] r@[j]).id@,
{
    let mut a0 = action_rows();
    let mut a1 = left_operand_rows();
    let mut a2 = operator_rows();
    let mut a3 = logical_rows();
    let mut a4 = policy_class_rows();
    let mut a5 = party_rows();
    let mut a6 = duty_rows();
    let mut a7 = asset_rows();
    let mut a8 = conflict_rows();
    let mut a9 = other_rows();
    let ghost s = seq![a0@, a1@, a2@, a3@, a4@, a5@, a6@, a7@, a8@, a9@];
    let ghost offs: Seq<int> = seq![0int, 5, 14, 21, 26, 29, 34, 39, 43, 46, 52];
    let mut r: Vec<Row> = Vec::new();
    r.append(&mut a0);
    r.append(&mut a1);
    r.append(&mut a2);
    r.append(&mut a3);
    r.append(&mut a4);
    r.append(&mut a5);
    r.append(&mut a6);
    r.append(&mut a7);
    r.append(&mut a8);
    r.append(&mut a9);
    proof {
        assert(r@ =~= s[0] + s[1] + s[2] + s[3] + s[4] + s[5] + s[6] + s[7] + s[8] + s[9]);
        assert forall|i: int| 0 <= i < 52 implies row_shape(#[trigger] r@[i], category_ids()[section_of(i)], i == 30 || i == 42) by {
            let k = section_of(i);
            assert(offs[k] <= i < offs[k + 1]);
            assert(r@[i] == s[k][i - offs[k]]);
        }
        assert forall|k: int| 0 <= k < 10 implies 0 <= #[trigger] section_start(k) < 52
            && section_of(section_start(k)) == k
            && r@[section_start(k)].category@ == category_ids()[k] by {
            let i = section_start(k);
            assert(row_shape(r@[i], category_ids()[section_of(i)], i == 30 || i == 42));
        }
        assert forall|i: int| 0 <= i < 52 implies is_documented_status((#[trigger] r@[i]).status@) && probed_xor_documented(r@[i]) by {
            assert(row_shape(r@[i], category_ids()[section_of(i)], i == 30 || i == 42));
        }
        assert forall|i: int| 0 <= i < 52 implies ((#[trigger] r@[i]).documented_because is Some <==> (i == 30 || i == 42)) by {
            assert(row_shape(r@[i], category_ids()[section_of(i)], i == 30 || i == 42));
        }
        let t = seq![action_row_table(), left_operand_row_table(), operator_row_table(), logical_row_table(),
            policy_class_row_table(), party_row_table(), duty_row_table(), asset_row_table(),
            conflict_row_table(), other_row_table()];
        assert(catalog_row_table() =~= t[0] + t[1] + t[2] + t[3] + t[4] + t[5] + t[6] + t[7] + t[8] + t[9]);
        assert forall|i: int| 0 <= i < 52 implies row_view(#[trigger] r@[i]) == catalog_row_table()[i] by {
            let k = section_of(i);
            assert(offs[k] <= i < offs[k + 1]);
            assert(r@[i] == s[k][i - offs[k]]);
            assert(catalog_row_table()[i] == t[k][i - offs[k]]);
        }
        catalog_row_ids_are_distinct();
        assert forall|i: int, j: int| 0 <= i < j < 52 implies (#[trigger] r@[i]).id@ != (#[trigger] r@[j]).id@ by {
            assert(row_view(r@[i]) == catalog_row_table()[i]);
            assert(row_view(r@[j]) == catalog_row_table()[j]);
            assert(catalog_row_ids()[i] == catalog_row_table()[i].id);
            assert(catalog_row_ids()[j] == catalog_row_table()[j].id);
        }
    }
    r
}

/// The `(id, kind, expected decision)` of every probe in the catalog,
/// section by section.
pub open spec fn catalog_heads() -> Seq<(Seq<char>, Seq<char>, Seq<char>)> {
    action_heads() + left_operand_heads() + operator_heads() + logical_heads()
        + policy_class_heads() + party_heads() + duty_heads() + asset_heads()
        + conflict_heads() + other_heads()
}

/// The `(title, asserts, falsified_by)` of every probe in the catalog,
/// section by section.
pub open spec fn catalog_texts() -> Seq<(Seq<char>, Seq<char>, Seq<char>)> {
    action_texts() + left_operand_texts() + operator_texts() + logical_texts()
        + policy_class_texts() + party_texts() + duty_texts() + asset_texts()
        + conflict_texts() + other_texts()
}

/// What the reason of every probe in the catalog must contain and must not
/// contain, section by section.
pub open spec fn catalog_reasons() -> Seq<(Seq<Seq<char>>, Seq<Seq<char>>)> {
    action_reasons() + left_operand_reasons() + operator_reasons() + logical_reasons()
        + policy_class_reasons() + party_reasons() + duty_reasons() + asset_reasons()
        + conflict_reasons() + other_reasons()
}

/// The patches of every probe in the catalog, section by section.
pub open spec fn catalog_patches() -> Seq<Seq<PatchV>> {
    action_patches() + left_operand_patches() + operator_patches() + logical_patches()
        + policy_class_patches() + party_patches() + duty_patches() + asset_patches()
        + conflict_patches() + other_patches()
}

/// The request of every probe in the catalog, section by section; `tax`
/// is the action list the taxonomy probes declare.
pub open spec fn catalog_requests(tax: Seq<(Seq<char>, Option<Seq<char>>)>) -> Seq<RequestV> {
    action_requests(tax) + left_operand_requests() + operator_requests() + logical_requests()
        + policy_class_requests() + party_requests() + duty_requests() + asset_requests()
        + conflict_requests() + other_requests()
}

/// What the expectation of every probe in the catalog says of duties and
/// of the dataset, section by section.
pub open spec fn catalog_extras() -> Seq<(Option<Seq<(Seq<char>, Seq<char>, bool, Option<Seq<char>>)>>, Option<Seq<char>>)> {
    action_extras() + left_operand_extras() + operator_extras() + logical_extras()
        + policy_class_extras() + party_extras() + duty_extras() + asset_extras()
        + conflict_extras() + other_extras()
}

/// The requests of two lists of probes placed end to end.
pub proof fn lemma_requests_append(a: Seq<ProbeSpec>, b: Seq<ProbeSpec>)
    ensures
        requests(a + b) == requests(a) + requests(b),
{
    assert(requests(a + b) =~= requests(a) + requests(b));
}

/// The expectation extras of two lists of probes placed end to end.
pub proof fn lemma_extras_append(a: Seq<ProbeSpec>, b: Seq<ProbeSpec>)
    ensures
        extras(a + b) == extras(a) + extras(b),
{
    assert(extras(a + b) =~= extras(a) + extras(b));
}

/// The patch lists of two lists of probes placed end to end.
pub proof fn lemma_patch_lists_append(a: Seq<ProbeSpec>, b: Seq<ProbeSpec>)
    ensures
        patch_lists(a + b) == patch_lists(a) + patch_lists(b),
{
    assert(patch_lists(a + b) =~= patch_lists(a) + patch_lists(b));
}

/// The reasons of two lists placed end to end.
pub proof fn lemma_reasons_append(a: Seq<ProbeSpec>, b: Seq<ProbeSpec>)
    ensures
        reasons(a + b) == reasons(a) + reasons(b),
{
    assert(reasons(a + b) =~= reasons(a) + reasons(b));
}

/// The texts of two lists placed end to end.
pub proof fn lemma_texts_append(a: Seq<ProbeSpec>, b: Seq<ProbeSpec>)
    ensures
        texts(a + b) == texts(a) + texts(b),
{
    assert(texts(a + b) =~= texts(a) + texts(b));
}

/// The heads of two lists placed end to end.
pub proof fn lemma_heads_append(a: Seq<ProbeSpec>, b: Seq<ProbeSpec>)
    ensures
        heads(a + b) == heads(a) + heads(b),
{
    assert(heads(a + b) =~= heads(a) + heads(b));
}

/// Every probe of the catalog, section by section in the order of
/// [`categories`]: each with its id, kind and expected decision
/// ([`catalog_heads`]), its title, assertion and falsifier
/// ([`catalog_texts`]), what its reason must and must not contain
/// ([`catalog_reasons`]), what it expects of duties and of the dataset
/// ([`catalog_extras`]), its patches ([`catalog_patches`]) and the whole
/// request it sends ([`catalog_requests`]). `taxonomy`
/// is the action list the shipped ODRL 2.2 vocabulary document declares,
/// which the three taxonomy probes declare as their configuration's actions.
pub fn probes(taxonomy: &[WireActionDecl]) -> (r: Vec<ProbeSpec>)
    ensures
        heads(r@) == catalog_heads(),
        texts(r@) == catalog_texts(),
        reasons(r@) == catalog_reasons(),
        patch_lists(r@) == catalog_patches(),
        requests(r@) == catalog_requests(decls_v(taxonomy@)),
        extras(r@) == catalog_extras(),
        forall|k: int| 5 <= k < 8 ==> decls_v((#[trigger] r@[k]).request.config.actions@) == decls_v(taxonomy@),
{
    let mut r = action_probes(taxonomy);
    let ghost h = heads(r@);
    let mut a1 = left_operand_probes();
    let mut a2 = operator_probes();
    let mut a3 = logical_probes();
    let mut a4 = policy_class_probes();
    let mut a5 = party_probes();
    let mut a6 = duty_probes();
    let mut a7 = asset_probes();
    let mut a8 = conflict_probes();
    let mut a9 = other_probes();
    let ghost s0 = r@;
    let ghost s = seq![a1@, a2@, a3@, a4@, a5@, a6@, a7@, a8@, a9@];
    r.append(&mut a1);
    r.append(&mut a2);
    r.append(&mut a3);
    r.append(&mut a4);
    r.append(&mut a5);
    r.append(&mut a6);
    r.append(&mut a7);
    r.append(&mut a8);
    r.append(&mut a9);
    proof {
        assert(r@ =~= s0 + s[0] + s[1] + s[2] + s[3] + s[4] + s[5] + s[6] + s[7] + s[8]);
        lemma_heads_append(s0, s[0]);
        lemma_heads_append(s0 + s[0], s[1]);
        lemma_heads_append(s0 + s[0] + s[1], s[2]);
        lemma_heads_append(s0 + s[0] + s[1] + s[2], s[3]);
        lemma_heads_append(s0 + s[0] + s[1] + s[2] + s[3], s[4]);
        lemma_heads_append(s0 + s[0] + s[1] + s[2] + s[3] + s[4], s[5]);
        lemma_heads_append(s0 + s[0] + s[1] + s[2] + s[3] + s[4] + s[5], s[6]);
        lemma_heads_append(s0 + s[0] + s[1] + s[2] + s[3] + s[4] + s[5] + s[6], s[7]);
        lemma_heads_append(s0 + s[0] + s[1] + s[2] + s[3] + s[4] + s[5] + s[6] + s[7], s[8]);
        lemma_texts_append(s0, s[0]);
        lemma_texts_append(s0 + s[0], s[1]);
        lemma_texts_append(s0 + s[0] + s[1], s[2]);
        lemma_texts_append(s0 + s[0] + s[1] + s[2], s[3]);
        lemma_texts_append(s0 + s[0] + s[1] + s[2] + s[3], s[4]);
        lemma_texts_append(s0 + s[0] + s[1] + s[2] + s[3] + s[4], s[5]);
        lemma_texts_append(s0 + s[0] + s[1] + s[2] + s[3] + s[4] + s[5], s[6]);
        lemma_texts_append(s0 + s[0] + s[1] + s[2] + s[3] + s[4] + s[5] + s[6], s[7]);
        lemma_texts_append(s0 + s[0] + s[1] + s[2] + s[3] + s[4] + s[5] + s[6] + s[7], s[8]);
        lemma_reasons_append(s0, s[0]);
        lemma_reasons_append(s0 + s[0], s[1]);
        lemma_reasons_append(s0 + s[0] + s[1], s[2]);
        lemma_reasons_append(s0 + s[0] + s[1] + s[2], s[3]);
        lemma_reasons_append(s0 + s[0] + s[1] + s[2] + s[3], s[4]);
        lemma_reasons_append(s0 + s[0] + s[1] + s[2] + s[3] + s[4], s[5]);
        lemma_reasons_append(s0 + s[0] + s[1] + s[2] + s[3] + s[4] + s[5], s[6]);
        lemma_reasons_append(s0 + s[0] + s[1] + s[2] + s[3] + s[4] + s[5] + s[6], s[7]);
        lemma_reasons_append(s0 + s[0] + s[1] + s[2] + s[3] + s[4] + s[5] + s[6] + s[7], s[8]);
        lemma_patch_lists_append(s0, s[0]);
        lemma_patch_lists_append(s0 + s[0], s[1]);
        lemma_patch_lists_append(s0 + s[0] + s[1], s[2]);
        lemma_patch_lists_append(s0 + s[0] + s[1] + s[2], s[3]);
        lemma_patch_lists_append(s0 + s[0] + s[1] + s[2] + s[3], s[4]);
        lemma_patch_lists_append(s0 + s[0] + s[1] + s[2] + s[3] + s[4], s[5]);
        lemma_patch_lists_append(s0 + s[0] + s[1] + s[2] + s[3] + s[4] + s[5], s[6]);
        lemma_patch_lists_append(s0 + s[0] + s[1] + s[2] + s[3] + s[4] + s[5] + s[6], s[7]);
        lemma_patch_lists_append(s0 + s[0] + s[1] + s[2] + s[3] + s[4] + s[5] + s[6] + s[7], s[8]);
        lemma_requests_append(s0, s[0]);
        lemma_extras_append(s0, s[0]);
        lemma_requests_append(s0 + s[0], s[1]);
        lemma_extras_append(s0 + s[0], s[1]);
        lemma_requests_append(s0 + s[0] + s[1], s[2]);
        lemma_extras_append(s0 + s[0] + s[1], s[2]);
        lemma_requests_append(s0 + s[0] + s[1] + s[2], s[3]);
        lemma_extras_append(s0 + s[0] + s[1] + s[2], s[3]);
        lemma_requests_append(s0 + s[0] + s[1] + s[2] + s[3], s[4]);
        lemma_extras_append(s0 + s[0] + s[1] + s[2] + s[3], s[4]);
        lemma_requests_append(s0 + s[0] + s[1] + s[2] + s[3] + s[4], s[5]);
        lemma_extras_append(s0 + s[0] + s[1] + s[2] + s[3] + s[4], s[5]);
        lemma_requests_append(s0 + s[0] + s[1] + s[2] + s[3] + s[4] + s[5], s[6]);
        lemma_extras_append(s0 + s[0] + s[1] + s[2] + s[3] + s[4] + s[5], s[6]);
        lemma_requests_append(s0 + s[0] + s[1] + s[2] + s[3] + s[4] + s[5] + s[6], s[7]);
        lemma_extras_append(s0 + s[0] + s[1] + s[2] + s[3] + s[4] + s[5] + s[6], s[7]);
        lemma_requests_append(s0 + s[0] + s[1] + s[2] + s[3] + s[4] + s[5] + s[6] + s[7], s[8]);
        lemma_extras_append(s0 + s[0] + s[1] + s[2] + s[3] + s[4] + s[5] + s[6] + s[7], s[8]);
        assert(s0.len() == 10);
        assert forall|k: int| 5 <= k < 8 implies decls_v((#[trigger] r@[k]).request.config.actions@) == decls_v(taxonomy@) by {
            assert(r@[k] == s0[k]);
        }
    }
    r
}

} // verus!

verus! {

/// The ids of the catalog's rows, in order.
pub open spec fn catalog_row_ids() -> Seq<Seq<char>> {
    Seq::new(catalog_row_table().len(), |i: int| catalog_row_table()[i].id)
}

/// The position of the row with id `id` in the catalog, or -1.
spec fn row_index(id: Seq<char>) -> int {
    if id == "actions.open-vocabulary"@ { 0 }
    else if id == "actions.included-in-transitive"@ { 1 }
    else if id == "actions.implies"@ { 2 }
    else if id == "actions.spec-taxonomy"@ { 3 }
    else if id == "actions.unrecognized-is-error"@ { 4 }
    else if id == "left-operands.extension"@ { 5 }
    else if id == "left-operands.datetime"@ { 6 }
    else if id == "left-operands.numeric"@ { 7 }
    else if id == "left-operands.spatial"@ { 8 }
    else if id == "left-operands.opaque"@ { 9 }
    else if id == "left-operands.durations"@ { 10 }
    else if id == "left-operands.coordinates"@ { 11 }
    else if id == "left-operands.unit-of-count"@ { 12 }
    else if id == "left-operands.policy-usage"@ { 13 }
    else if id == "operators.eq"@ { 14 }
    else if id == "operators.neq"@ { 15 }
    else if id == "operators.set-operators"@ { 16 }
    else if id == "operators.is-part-of"@ { 17 }
    else if id == "operators.ordering"@ { 18 }
    else if id == "operators.isa-haspart"@ { 19 }
    else if id == "operators.profile-extension"@ { 20 }
    else if id == "logical.and"@ { 21 }
    else if id == "logical.or"@ { 22 }
    else if id == "logical.xone"@ { 23 }
    else if id == "logical.and-sequence"@ { 24 }
    else if id == "logical.profile-extension"@ { 25 }
    else if id == "policy-classes.discrimination"@ { 26 }
    else if id == "policy-classes.set-default"@ { 27 }
    else if id == "policy-classes.profile-subclass"@ { 28 }
    else if id == "party.assigner-assignee"@ { 29 }
    else if id == "party.collections"@ { 30 }
    else if id == "party.inverse-properties"@ { 31 }
    else if id == "party.common-functions"@ { 32 }
    else if id == "party.profile-roles"@ { 33 }
    else if id == "duty.obligation"@ { 34 }
    else if id == "duty.per-permission"@ { 35 }
    else if id == "duty.consequence"@ { 36 }
    else if id == "duty.remedy"@ { 37 }
    else if id == "duty.profile-rule-classes"@ { 38 }
    else if id == "assets.collections"@ { 39 }
    else if id == "assets.target"@ { 40 }
    else if id == "assets.output"@ { 41 }
    else if id == "assets.has-policy"@ { 42 }
    else if id == "conflict.property"@ { 43 }
    else if id == "conflict.fixed-strategy"@ { 44 }
    else if id == "conflict.profile-strategies"@ { 45 }
    else if id == "other.uid"@ { 46 }
    else if id == "other.profile-property"@ { 47 }
    else if id == "other.inherit-from"@ { 48 }
    else if id == "other.right-operand-reference"@ { 49 }
    else if id == "other.behaviour"@ { 50 }
    else if id == "other.error-on-unrecognized"@ { 51 }
    else { -1 }
}

/// No two rows of the catalog share an id.
#[verifier::rlimit(100)]
pub proof fn catalog_row_ids_are_distinct()
    ensures
        forall|i: int, j: int| 0 <= i < j < catalog_row_ids().len() ==> catalog_row_ids()[i] != catalog_row_ids()[j],
{
    let ids = seq!["actions.open-vocabulary"@, "actions.included-in-transitive"@, "actions.implies"@, "actions.spec-taxonomy"@, "actions.unrecognized-is-error"@, "left-operands.extension"@, "left-operands.datetime"@, "left-operands.numeric"@, "left-operands.spatial"@, "left-operands.opaque"@, "left-operands.durations"@, "left-operands.coordinates"@, "left-operands.unit-of-count"@, "left-operands.policy-usage"@, "operators.eq"@, "operators.neq"@, "operators.set-operators"@, "operators.is-part-of"@, "operators.ordering"@, "operators.isa-haspart"@, "operators.profile-extension"@, "logical.and"@, "logical.or"@, "logical.xone"@, "logical.and-sequence"@, "logical.profile-extension"@, "policy-classes.discrimination"@, "policy-classes.set-default"@, "policy-classes.profile-subclass"@, "party.assigner-assignee"@, "party.collections"@, "party.inverse-properties"@, "party.common-functions"@, "party.profile-roles"@, "duty.obligation"@, "duty.per-permission"@, "duty.consequence"@, "duty.remedy"@, "duty.profile-rule-classes"@, "assets.collections"@, "assets.target"@, "assets.output"@, "assets.has-policy"@, "conflict.property"@, "conflict.fixed-strategy"@, "conflict.profile-strategies"@, "other.uid"@, "other.profile-property"@, "other.inherit-from"@, "other.right-operand-reference"@, "other.behaviour"@, "other.error-on-unrecognized"@];
    let t = seq![action_row_table(), left_operand_row_table(), operator_row_table(), logical_row_table(),
        policy_class_row_table(), party_row_table(), duty_row_table(), asset_row_table(),
        conflict_row_table(), other_row_table()];
    assert(catalog_row_table() =~= t[0] + t[1] + t[2] + t[3] + t[4] + t[5] + t[6] + t[7] + t[8] + t[9]);
    assert(catalog_row_ids() =~= ids);
    reveal_strlit("actions.open-vocabulary");
    reveal_strlit("actions.included-in-transitive");
    reveal_strlit("actions.implies");
    reveal_strlit("actions.spec-taxonomy");
    reveal_strlit("actions.unrecognized-is-error");
    reveal_strlit("left-operands.extension");
    reveal_strlit("left-operands.datetime");
    reveal_strlit("left-operands.numeric");
    reveal_strlit("left-operands.spatial");
    reveal_strlit("left-operands.opaque");
    reveal_strlit("left-operands.durations");
    reveal_strlit("left-operands.coordinates");
    reveal_strlit("left-operands.unit-of-count");
    reveal_strlit("left-operands.policy-usage");
    reveal_strlit("operators.eq");
    reveal_strlit("operators.neq");
    reveal_strlit("operators.set-operators");
    reveal_strlit("operators.is-part-of");
    reveal_strlit("operators.ordering");
    reveal_strlit("operators.isa-haspart");
    reveal_strlit("operators.profile-extension");
    reveal_strlit("logical.and");
    reveal_strlit("logical.or");
    reveal_strlit("logical.xone");
    reveal_strlit("logical.and-sequence");
    reveal_strlit("logical.profile-extension");
    reveal_strlit("policy-classes.discrimination");
    reveal_strlit("policy-classes.set-default");
    reveal_strlit("policy-classes.profile-subclass");
    reveal_strlit("party.assigner-assignee");
    reveal_strlit("party.collections");
    reveal_strlit("party.inverse-properties");
    reveal_strlit("party.common-functions");
    reveal_strlit("party.profile-roles");
    reveal_strlit("duty.obligation");
    reveal_strlit("duty.per-permission");
    reveal_strlit("duty.consequence");
    reveal_strlit("duty.remedy");
    reveal_strlit("duty.profile-rule-classes");
    reveal_strlit("assets.collections");
    reveal_strlit("assets.target");
    reveal_strlit("assets.output");
    reveal_strlit("assets.has-policy");
    reveal_strlit("conflict.property");
    reveal_strlit("conflict.fixed-strategy");
    reveal_strlit("conflict.profile-strategies");
    reveal_strlit("other.uid");
    reveal_strlit("other.profile-property");
    reveal_strlit("other.inherit-from");
    reveal_strlit("other.right-operand-reference");
    reveal_strlit("other.behaviour");
    reveal_strlit("other.error-on-unrecognized");
    assert("actions.open-vocabulary"@.len() == 23);
    assert("actions.included-in-transitive"@.len() == 30);
    assert("actions.implies"@.len() == 15);
    assert("actions.spec-taxonomy"@.len() == 21);
    assert("actions.unrecognized-is-error"@.len() == 29);
    assert("left-operands.extension"@.len() == 23);
    assert("left-operands.datetime"@.len() == 22);
    assert("left-operands.numeric"@.len() == 21);
    assert("left-operands.spatial"@.len() == 21);
    assert("left-operands.opaque"@.len() == 20);
    assert("left-operands.durations"@.len() == 23);
    assert("left-operands.coordinates"@.len() == 25);
    assert("left-operands.unit-of-count"@.len() == 27);
    assert("left-operands.policy-usage"@.len() == 26);
    assert("operators.eq"@.len() == 12);
    assert("operators.neq"@.len() == 13);
    assert("operators.set-operators"@.len() == 23);
    assert("operators.is-part-of"@.len() == 20);
    assert("operators.ordering"@.len() == 18);
    assert("operators.isa-haspart"@.len() == 21);
    assert("operators.profile-extension"@.len() == 27);
    assert("logical.and"@.len() == 11);
    assert("logical.or"@.len() == 10);
    assert("logical.xone"@.len() == 12);
    assert("logical.and-sequence"@.len() == 20);
    assert("logical.profile-extension"@.len() == 25);
    assert("policy-classes.discrimination"@.len() == 29);
    assert("policy-classes.set-default"@.len() == 26);
    assert("policy-classes.profile-subclass"@.len() == 31);
    assert("party.assigner-assignee"@.len() == 23);
    assert("party.collections"@.len() == 17);
    assert("party.inverse-properties"@.len() == 24);
    assert("party.common-functions"@.len() == 22);
    assert("party.profile-roles"@.len() == 19);
    assert("duty.obligation"@.len() == 15);
    assert("duty.per-permission"@.len() == 19);
    assert("duty.consequence"@.len() == 16);
    assert("duty.remedy"@.len() == 11);
    assert("duty.profile-rule-classes"@.len() == 25);
    assert("assets.collections"@.len() == 18);
    assert("assets.target"@.len() == 13);
    assert("assets.output"@.len() == 13);
    assert("assets.has-policy"@.len() == 17);
    assert("conflict.property"@.len() == 17);
    assert("conflict.fixed-strategy"@.len() == 23);
    assert("conflict.profile-strategies"@.len() == 27);
    assert("other.uid"@.len() == 9);
    assert("other.profile-property"@.len() == 22);
    assert("other.inherit-from"@.len() == 18);
    assert("other.right-operand-reference"@.len() == 29);
    assert("other.behaviour"@.len() == 15);
    assert("other.error-on-unrecognized"@.len() == 27);
    assert("actions.open-vocabulary"@[0] != "left-operands.extension"@[0]);
    assert("actions.open-vocabulary"@[0] != "left-operands.durations"@[0]);
    assert("actions.open-vocabulary"@[0] != "operators.set-operators"@[0]);
    assert("actions.open-vocabulary"@[0] != "party.assigner-assignee"@[0]);
    assert("actions.open-vocabulary"@[0] != "conflict.fixed-strategy"@[0]);
    assert("actions.implies"@[0] != "duty.obligation"@[0]);
    assert("actions.implies"@[0] != "other.behaviour"@[0]);
    assert("actions.spec-taxonomy"@[0] != "left-operands.numeric"@[0]);
    assert("actions.spec-taxonomy"@[0] != "left-operands.spatial"@[0]);
    assert("actions.spec-taxonomy"@[0] != "operators.isa-haspart"@[0]);
    assert("actions.unrecognized-is-error"@[0] != "policy-classes.discrimination"@[0]);
    assert("actions.unrecognized-is-error"@[0] != "other.right-operand-reference"@[0]);
    assert("left-operands.extension"@[14] != "left-operands.durations"@[14]);
    assert("left-operands.extension"@[0] != "operators.set-operators"@[0]);
    assert("left-operands.extension"@[0] != "party.assigner-assignee"@[0]);
    assert("left-operands.extension"@[0] != "conflict.fixed-strategy"@[0]);
    assert("left-operands.datetime"@[0] != "party.common-functions"@[0]);
    assert("left-operands.datetime"@[0] != "other.profile-property"@[0]);
    assert("left-operands.numeric"@[14] != "left-operands.spatial"@[14]);
    assert("left-operands.numeric"@[0] != "operators.isa-haspart"@[0]);
    assert("left-operands.spatial"@[0] != "operators.isa-haspart"@[0]);
    assert("left-operands.opaque"@[0] != "operators.is-part-of"@[0]);
    assert("left-operands.opaque"@[1] != "logical.and-sequence"@[1]);
    assert("left-operands.durations"@[0] != "operators.set-operators"@[0]);
    assert("left-operands.durations"@[0] != "party.assigner-assignee"@[0]);
    assert("left-operands.durations"@[0] != "conflict.fixed-strategy"@[0]);
    assert("left-operands.coordinates"@[1] != "logical.profile-extension"@[1]);
    assert("left-operands.coordinates"@[0] != "duty.profile-rule-classes"@[0]);
    assert("left-operands.unit-of-count"@[0] != "operators.profile-extension"@[0]);
    assert("left-operands.unit-of-count"@[0] != "conflict.profile-strategies"@[0]);
    assert("left-operands.unit-of-count"@[0] != "other.error-on-unrecognized"@[0]);
    assert("left-operands.policy-usage"@[0] != "policy-classes.set-default"@[0]);
    assert("operators.eq"@[0] != "logical.xone"@[0]);
    assert("operators.neq"@[0] != "assets.target"@[0]);
    assert("operators.neq"@[0] != "assets.output"@[0]);
    assert("operators.set-operators"@[0] != "party.assigner-assignee"@[0]);
    assert("operators.set-operators"@[0] != "conflict.fixed-strategy"@[0]);
    assert("operators.is-part-of"@[0] != "logical.and-sequence"@[0]);
    assert("operators.ordering"@[0] != "assets.collections"@[0]);
    assert("operators.ordering"@[1] != "other.inherit-from"@[1]);
    assert("operators.profile-extension"@[0] != "conflict.profile-strategies"@[0]);
    assert("operators.profile-extension"@[1] != "other.error-on-unrecognized"@[1]);
    assert("logical.and"@[0] != "duty.remedy"@[0]);
    assert("logical.profile-extension"@[0] != "duty.profile-rule-classes"@[0]);
    assert("policy-classes.discrimination"@[0] != "other.right-operand-reference"@[0]);
    assert("party.assigner-assignee"@[0] != "conflict.fixed-strategy"@[0]);
    assert("party.collections"@[0] != "assets.has-policy"@[0]);
    assert("party.collections"@[0] != "conflict.property"@[0]);
    assert("party.common-functions"@[0] != "other.profile-property"@[0]);
    assert("party.profile-roles"@[0] != "duty.per-permission"@[0]);
    assert("duty.obligation"@[0] != "other.behaviour"@[0]);
    assert("assets.collections"@[0] != "other.inherit-from"@[0]);
    assert("assets.target"@[7] != "assets.output"@[7]);
    assert("assets.has-policy"@[0] != "conflict.property"@[0]);
    assert("conflict.profile-strategies"@[0] != "other.error-on-unrecognized"@[0]);
    assert(row_index(ids[0]) == 0);
    assert(row_index(ids[1]) == 1);
    assert(row_index(ids[2]) == 2);
    assert(row_index(ids[3]) == 3);
    assert(row_index(ids[4]) == 4);
    assert(row_index(ids[5]) == 5);
    assert(row_index(ids[6]) == 6);
    assert(row_index(ids[7]) == 7);
    assert(row_index(ids[8]) == 8);
    assert(row_index(ids[9]) == 9);
    assert(row_index(ids[10]) == 10);
    assert(row_index(ids[11]) == 11);
    assert(row_index(ids[12]) == 12);
    assert(row_index(ids[13]) == 13);
    assert(row_index(ids[14]) == 14);
    assert(row_index(ids[15]) == 15);
    assert(row_index(ids[16]) == 16);
    assert(row_index(ids[17]) == 17);
    assert(row_index(ids[18]) == 18);
    assert(row_index(ids[19]) == 19);
    assert(row_index(ids[20]) == 20);
    assert(row_index(ids[21]) == 21);
    assert(row_index(ids[22]) == 22);
    assert(row_index(ids[23]) == 23);
    assert(row_index(ids[24]) == 24);
    assert(row_index(ids[25]) == 25);
    assert(row_index(ids[26]) == 26);
    assert(row_index(ids[27]) == 27);
    assert(row_index(ids[28]) == 28);
    assert(row_index(ids[29]) == 29);
    assert(row_index(ids[30]) == 30);
    assert(row_index(ids[31]) == 31);
    assert(row_index(ids[32]) == 32);
    assert(row_index(ids[33]) == 33);
    assert(row_index(ids[34]) == 34);
    assert(row_index(ids[35]) == 35);
    assert(row_index(ids[36]) == 36);
    assert(row_index(ids[37]) == 37);
    assert(row_index(ids[38]) == 38);
    assert(row_index(ids[39]) == 39);
    assert(row_index(ids[40]) == 40);
    assert(row_index(ids[41]) == 41);
    assert(row_index(ids[42]) == 42);
    assert(row_index(ids[43]) == 43);
    assert(row_index(ids[44]) == 44);
    assert(row_index(ids[45]) == 45);
    assert(row_index(ids[46]) == 46);
    assert(row_index(ids[47]) == 47);
    assert(row_index(ids[48]) == 48);
    assert(row_index(ids[49]) == 49);
    assert(row_index(ids[50]) == 50);
    assert(row_index(ids[51]) == 51);
    assert forall|k: int| 0 <= k < ids.len() implies row_index(#[trigger] ids[k]) == k by {
    }
}

} // verus!

verus! {

/// The ids of every probe of the catalog, in order.
pub open spec fn catalog_probe_ids() -> Seq<Seq<char>> {
    Seq::new(catalog_heads().len(), |j: int| catalog_heads()[j].0)
}

/// Whether some row of the catalog names the probe `id`.
pub open spec fn named_by_a_row(id: Seq<char>) -> bool {
    exists|i: int, k: int|
        0 <= i < catalog_row_table().len() && 0 <= k < catalog_row_table()[i].probe_ids.len()
            && #[trigger] catalog_row_table()[i].probe_ids[k] == id
}

/// The catalog's probe ids, one literal after another.
proof fn lemma_catalog_probe_ids()
    ensures
        catalog_probe_ids() =~= seq!["act-base-exact"@, "act-includedin-1hop"@, "act-includedin-2hop"@, "act-includedin-undeclared-gap"@, "act-implies-ignored"@, "act-taxonomy-display-play-use"@, "act-taxonomy-extract-reproduce-use"@, "act-taxonomy-sell-transfer"@, "act-unrecognized-error"@, "act-unrecognized-outranks-allow"@, "lo-extension-hit"@, "lo-extension-miss"@, "lo-datetime-hit"@, "lo-datetime-miss"@, "lo-datetime-absent-no-clock"@, "lo-count-hit"@, "lo-count-miss"@, "lo-count-absent-not-stateful"@, "lo-count-nonnumeric-miss"@, "lo-count-infinity-rejected"@, "lo-payamount-decimal"@, "lo-spatial-flat-hit"@, "lo-spatial-no-containment"@, "lo-purpose-opaque-hit"@, "lo-language-no-bcp47"@, "lo-event-no-period-ordering"@, "lo-duration-metering-example"@, "lo-duration-malformed-miss"@, "lo-coordinates-string-eq"@, "lo-coordinates-no-geometry"@, "lo-absoluteposition-no-ordering"@, "lo-unitofcount-page"@, "lo-unitofcount-volume"@, "lo-unitofcount-as-plain-key"@, "lo-policyusage-literal"@, "lo-policyusage-absent"@, "op-eq-single"@, "op-eq-multi-membership"@, "op-eq-no-concat"@, "op-neq-hit"@, "op-neq-absent-miss"@, "op-isanyof-hit"@, "op-isanyof-miss"@, "op-isanyof-comma-unescapable"@, "op-isanyof-comma-control"@, "op-isallof-hit"@, "op-isallof-miss"@, "op-isnoneof-hit"@, "op-isnoneof-miss"@, "op-isnoneof-absent-satisfies"@, "op-ispartof-hit"@, "op-ispartof-no-hierarchy"@, "op-ispartof-mirrors-isanyof"@, "op-lt-fractional-chronological"@, "op-lteq-xsd-date"@, "op-lt-offset-datetime"@, "op-gteq-numeric-boundary"@, "op-gt-numeric-boundary"@, "op-lt-mixed-type-miss"@, "op-isa-unparseable"@, "op-haspart-unparseable"@, "op-isa-control-eq"@, "op-profile-operator-unparseable"@, "lc-and-both"@, "lc-and-one-false"@, "lc-and-empty-vacuous"@, "lc-or-second"@, "lc-or-none"@, "lc-or-empty-never"@, "lc-xone-exactly-one"@, "lc-xone-zero"@, "lc-xone-two-denies"@, "lc-or-two-allows-control"@, "lc-andsequence-ignored"@, "lc-and-control-honored"@, "lc-custom-logical-ignored"@, "pc-kind-set"@, "pc-kind-agreement-ignores-assignee"@, "pc-kind-ticket-with-assignee"@, "pc-kind-nonsense"@, "pc-kind-profile-subclass"@, "pf-assignee-mismatch"@, "pf-assignee-null-control"@, "pf-assignee-scoped-hit"@, "pf-assignee-scoped-miss"@, "pf-assignee-as-claim"@, "pf-assignerof-inert"@, "pf-common-functions-inert"@, "duty-obligation-unresolved-advise"@, "duty-obligation-satisfied-by-claims"@, "duty-obligation-deny-mode"@, "duty-per-permission-unresolved-deny"@, "duty-per-permission-satisfied"@, "duty-per-permission-advisory"@, "duty-per-permission-scoped-to-its-own-permission"@, "duty-consequence-resolves-where-the-primary-did-not"@, "duty-consequence-itself-unresolved"@, "duty-remedy-unresolved-does-not-drop-the-prohibition"@, "duty-remedy-satisfied-still-denies"@, "duty-remedy-not-reported-when-the-prohibition-does-not-fire"@, "duty-profile-rule-class-inert"@, "asset-per-rule-target-hit"@, "asset-per-rule-target-miss"@, "asset-target-not-a-collection"@, "asset-collection-membership-hit"@, "asset-collection-membership-wrong-collection-miss"@, "asset-output-ignored"@, "conflict-default-invalid-voids"@, "conflict-invalid-declared-explicitly"@, "conflict-perm-allows"@, "conflict-prohibit-denies"@, "conflict-no-collision-inert"@, "conflict-profile-strategy-unparseable"@, "beh-open-empty"@, "beh-closed-empty"@, "beh-default-alias"@, "beh-absent-defaults-open"@, "beh-closed-with-matching-permission"@, "uid-policy-in-reason"@, "uid-rule-index-not-uid"@, "uid-constraint-no-uid"@, "profile-union-not-per-policy"@, "inheritfrom-safe-direction-hit"@, "inheritfrom-safe-direction-control"@, "inheritfrom-fail-open-hit"@, "inheritfrom-fail-open-control"@, "inheritfrom-conflict-divergence-hit"@, "inheritfrom-conflict-divergence-control"@, "ror-literal-eq"@, "ror-not-dereferenced"@, "ror-reference-key-ignored"@],
{
    let h = seq![action_heads(), left_operand_heads(), operator_heads(), logical_heads(), policy_class_heads(), party_heads(), duty_heads(), asset_heads(), conflict_heads(), other_heads()];
    assert(catalog_heads() =~= h[0] + h[1] + h[2] + h[3] + h[4] + h[5] + h[6] + h[7] + h[8] + h[9]);
}

proof fn lemma_action_rows_name_probes()
    ensures
        forall|i: int, k: int| 0 <= i < action_row_table().len() && 0 <= k < action_row_table()[i].probe_ids.len()
            ==> catalog_probe_ids().contains(#[trigger] action_row_table()[i].probe_ids[k]),
{
    lemma_catalog_probe_ids();
    assert(catalog_probe_ids()[0] == action_row_table()[0].probe_ids[0]);
    assert(catalog_probe_ids()[1] == action_row_table()[0].probe_ids[1]);
    assert(catalog_probe_ids()[2] == action_row_table()[1].probe_ids[0]);
    assert(catalog_probe_ids()[3] == action_row_table()[1].probe_ids[1]);
    assert(catalog_probe_ids()[4] == action_row_table()[2].probe_ids[0]);
    assert(catalog_probe_ids()[1] == action_row_table()[2].probe_ids[1]);
    assert(catalog_probe_ids()[5] == action_row_table()[3].probe_ids[0]);
    assert(catalog_probe_ids()[6] == action_row_table()[3].probe_ids[1]);
    assert(catalog_probe_ids()[7] == action_row_table()[3].probe_ids[2]);
    assert(catalog_probe_ids()[8] == action_row_table()[4].probe_ids[0]);
    assert(catalog_probe_ids()[9] == action_row_table()[4].probe_ids[1]);
}

proof fn lemma_left_operand_rows_name_probes()
    ensures
        forall|i: int, k: int| 0 <= i < left_operand_row_table().len() && 0 <= k < left_operand_row_table()[i].probe_ids.len()
            ==> catalog_probe_ids().contains(#[trigger] left_operand_row_table()[i].probe_ids[k]),
{
    lemma_catalog_probe_ids();
    assert(catalog_probe_ids()[10] == left_operand_row_table()[0].probe_ids[0]);
    assert(catalog_probe_ids()[11] == left_operand_row_table()[0].probe_ids[1]);
    assert(catalog_probe_ids()[12] == left_operand_row_table()[1].probe_ids[0]);
    assert(catalog_probe_ids()[13] == left_operand_row_table()[1].probe_ids[1]);
    assert(catalog_probe_ids()[14] == left_operand_row_table()[1].probe_ids[2]);
    assert(catalog_probe_ids()[15] == left_operand_row_table()[2].probe_ids[0]);
    assert(catalog_probe_ids()[16] == left_operand_row_table()[2].probe_ids[1]);
    assert(catalog_probe_ids()[17] == left_operand_row_table()[2].probe_ids[2]);
    assert(catalog_probe_ids()[18] == left_operand_row_table()[2].probe_ids[3]);
    assert(catalog_probe_ids()[19] == left_operand_row_table()[2].probe_ids[4]);
    assert(catalog_probe_ids()[20] == left_operand_row_table()[2].probe_ids[5]);
    assert(catalog_probe_ids()[21] == left_operand_row_table()[3].probe_ids[0]);
    assert(catalog_probe_ids()[22] == left_operand_row_table()[3].probe_ids[1]);
    assert(catalog_probe_ids()[23] == left_operand_row_table()[4].probe_ids[0]);
    assert(catalog_probe_ids()[24] == left_operand_row_table()[4].probe_ids[1]);
    assert(catalog_probe_ids()[25] == left_operand_row_table()[4].probe_ids[2]);
    assert(catalog_probe_ids()[26] == left_operand_row_table()[5].probe_ids[0]);
    assert(catalog_probe_ids()[27] == left_operand_row_table()[5].probe_ids[1]);
    assert(catalog_probe_ids()[28] == left_operand_row_table()[6].probe_ids[0]);
    assert(catalog_probe_ids()[29] == left_operand_row_table()[6].probe_ids[1]);
    assert(catalog_probe_ids()[30] == left_operand_row_table()[6].probe_ids[2]);
    assert(catalog_probe_ids()[31] == left_operand_row_table()[7].probe_ids[0]);
    assert(catalog_probe_ids()[32] == left_operand_row_table()[7].probe_ids[1]);
    assert(catalog_probe_ids()[33] == left_operand_row_table()[7].probe_ids[2]);
    assert(catalog_probe_ids()[34] == left_operand_row_table()[8].probe_ids[0]);
    assert(catalog_probe_ids()[35] == left_operand_row_table()[8].probe_ids[1]);
}

proof fn lemma_operator_rows_name_probes()
    ensures
        forall|i: int, k: int| 0 <= i < operator_row_table().len() && 0 <= k < operator_row_table()[i].probe_ids.len()
            ==> catalog_probe_ids().contains(#[trigger] operator_row_table()[i].probe_ids[k]),
{
    lemma_catalog_probe_ids();
    assert(catalog_probe_ids()[36] == operator_row_table()[0].probe_ids[0]);
    assert(catalog_probe_ids()[37] == operator_row_table()[0].probe_ids[1]);
    assert(catalog_probe_ids()[38] == operator_row_table()[0].probe_ids[2]);
    assert(catalog_probe_ids()[39] == operator_row_table()[1].probe_ids[0]);
    assert(catalog_probe_ids()[40] == operator_row_table()[1].probe_ids[1]);
    assert(catalog_probe_ids()[41] == operator_row_table()[2].probe_ids[0]);
    assert(catalog_probe_ids()[42] == operator_row_table()[2].probe_ids[1]);
    assert(catalog_probe_ids()[43] == operator_row_table()[2].probe_ids[2]);
    assert(catalog_probe_ids()[44] == operator_row_table()[2].probe_ids[3]);
    assert(catalog_probe_ids()[45] == operator_row_table()[2].probe_ids[4]);
    assert(catalog_probe_ids()[46] == operator_row_table()[2].probe_ids[5]);
    assert(catalog_probe_ids()[47] == operator_row_table()[2].probe_ids[6]);
    assert(catalog_probe_ids()[48] == operator_row_table()[2].probe_ids[7]);
    assert(catalog_probe_ids()[49] == operator_row_table()[2].probe_ids[8]);
    assert(catalog_probe_ids()[50] == operator_row_table()[3].probe_ids[0]);
    assert(catalog_probe_ids()[51] == operator_row_table()[3].probe_ids[1]);
    assert(catalog_probe_ids()[52] == operator_row_table()[3].probe_ids[2]);
    assert(catalog_probe_ids()[53] == operator_row_table()[4].probe_ids[0]);
    assert(catalog_probe_ids()[54] == operator_row_table()[4].probe_ids[1]);
    assert(catalog_probe_ids()[55] == operator_row_table()[4].probe_ids[2]);
    assert(catalog_probe_ids()[56] == operator_row_table()[4].probe_ids[3]);
    assert(catalog_probe_ids()[57] == operator_row_table()[4].probe_ids[4]);
    assert(catalog_probe_ids()[58] == operator_row_table()[4].probe_ids[5]);
    assert(catalog_probe_ids()[59] == operator_row_table()[5].probe_ids[0]);
    assert(catalog_probe_ids()[60] == operator_row_table()[5].probe_ids[1]);
    assert(catalog_probe_ids()[61] == operator_row_table()[5].probe_ids[2]);
    assert(catalog_probe_ids()[62] == operator_row_table()[6].probe_ids[0]);
}

proof fn lemma_logical_rows_name_probes()
    ensures
        forall|i: int, k: int| 0 <= i < logical_row_table().len() && 0 <= k < logical_row_table()[i].probe_ids.len()
            ==> catalog_probe_ids().contains(#[trigger] logical_row_table()[i].probe_ids[k]),
{
    lemma_catalog_probe_ids();
    assert(catalog_probe_ids()[63] == logical_row_table()[0].probe_ids[0]);
    assert(catalog_probe_ids()[64] == logical_row_table()[0].probe_ids[1]);
    assert(catalog_probe_ids()[65] == logical_row_table()[0].probe_ids[2]);
    assert(catalog_probe_ids()[66] == logical_row_table()[1].probe_ids[0]);
    assert(catalog_probe_ids()[67] == logical_row_table()[1].probe_ids[1]);
    assert(catalog_probe_ids()[68] == logical_row_table()[1].probe_ids[2]);
    assert(catalog_probe_ids()[69] == logical_row_table()[2].probe_ids[0]);
    assert(catalog_probe_ids()[70] == logical_row_table()[2].probe_ids[1]);
    assert(catalog_probe_ids()[71] == logical_row_table()[2].probe_ids[2]);
    assert(catalog_probe_ids()[72] == logical_row_table()[2].probe_ids[3]);
    assert(catalog_probe_ids()[73] == logical_row_table()[3].probe_ids[0]);
    assert(catalog_probe_ids()[74] == logical_row_table()[3].probe_ids[1]);
    assert(catalog_probe_ids()[75] == logical_row_table()[4].probe_ids[0]);
}

proof fn lemma_policy_class_rows_name_probes()
    ensures
        forall|i: int, k: int| 0 <= i < policy_class_row_table().len() && 0 <= k < policy_class_row_table()[i].probe_ids.len()
            ==> catalog_probe_ids().contains(#[trigger] policy_class_row_table()[i].probe_ids[k]),
{
    lemma_catalog_probe_ids();
    assert(catalog_probe_ids()[77] == policy_class_row_table()[0].probe_ids[0]);
    assert(catalog_probe_ids()[78] == policy_class_row_table()[0].probe_ids[1]);
    assert(catalog_probe_ids()[79] == policy_class_row_table()[0].probe_ids[2]);
    assert(catalog_probe_ids()[76] == policy_class_row_table()[1].probe_ids[0]);
    assert(catalog_probe_ids()[79] == policy_class_row_table()[1].probe_ids[1]);
    assert(catalog_probe_ids()[80] == policy_class_row_table()[2].probe_ids[0]);
    assert(catalog_probe_ids()[79] == policy_class_row_table()[2].probe_ids[1]);
}

proof fn lemma_party_rows_name_probes()
    ensures
        forall|i: int, k: int| 0 <= i < party_row_table().len() && 0 <= k < party_row_table()[i].probe_ids.len()
            ==> catalog_probe_ids().contains(#[trigger] party_row_table()[i].probe_ids[k]),
{
    lemma_catalog_probe_ids();
    assert(catalog_probe_ids()[81] == party_row_table()[0].probe_ids[0]);
    assert(catalog_probe_ids()[82] == party_row_table()[0].probe_ids[1]);
    assert(catalog_probe_ids()[83] == party_row_table()[0].probe_ids[2]);
    assert(catalog_probe_ids()[84] == party_row_table()[0].probe_ids[3]);
    assert(catalog_probe_ids()[85] == party_row_table()[0].probe_ids[4]);
    assert(catalog_probe_ids()[86] == party_row_table()[2].probe_ids[0]);
    assert(catalog_probe_ids()[82] == party_row_table()[2].probe_ids[1]);
    assert(catalog_probe_ids()[87] == party_row_table()[3].probe_ids[0]);
    assert(catalog_probe_ids()[82] == party_row_table()[3].probe_ids[1]);
    assert(catalog_probe_ids()[87] == party_row_table()[4].probe_ids[0]);
    assert(catalog_probe_ids()[82] == party_row_table()[4].probe_ids[1]);
}

proof fn lemma_duty_rows_name_probes()
    ensures
        forall|i: int, k: int| 0 <= i < duty_row_table().len() && 0 <= k < duty_row_table()[i].probe_ids.len()
            ==> catalog_probe_ids().contains(#[trigger] duty_row_table()[i].probe_ids[k]),
{
    lemma_catalog_probe_ids();
    assert(catalog_probe_ids()[88] == duty_row_table()[0].probe_ids[0]);
    assert(catalog_probe_ids()[89] == duty_row_table()[0].probe_ids[1]);
    assert(catalog_probe_ids()[90] == duty_row_table()[0].probe_ids[2]);
    assert(catalog_probe_ids()[91] == duty_row_table()[1].probe_ids[0]);
    assert(catalog_probe_ids()[92] == duty_row_table()[1].probe_ids[1]);
    assert(catalog_probe_ids()[93] == duty_row_table()[1].probe_ids[2]);
    assert(catalog_probe_ids()[94] == duty_row_table()[1].probe_ids[3]);
    assert(catalog_probe_ids()[95] == duty_row_table()[2].probe_ids[0]);
    assert(catalog_probe_ids()[96] == duty_row_table()[2].probe_ids[1]);
    assert(catalog_probe_ids()[97] == duty_row_table()[3].probe_ids[0]);
    assert(catalog_probe_ids()[98] == duty_row_table()[3].probe_ids[1]);
    assert(catalog_probe_ids()[99] == duty_row_table()[3].probe_ids[2]);
    assert(catalog_probe_ids()[100] == duty_row_table()[4].probe_ids[0]);
    assert(catalog_probe_ids()[0] == duty_row_table()[4].probe_ids[1]);
}

proof fn lemma_asset_rows_name_probes()
    ensures
        forall|i: int, k: int| 0 <= i < asset_row_table().len() && 0 <= k < asset_row_table()[i].probe_ids.len()
            ==> catalog_probe_ids().contains(#[trigger] asset_row_table()[i].probe_ids[k]),
{
    lemma_catalog_probe_ids();
    assert(catalog_probe_ids()[104] == asset_row_table()[0].probe_ids[0]);
    assert(catalog_probe_ids()[105] == asset_row_table()[0].probe_ids[1]);
    assert(catalog_probe_ids()[103] == asset_row_table()[0].probe_ids[2]);
    assert(catalog_probe_ids()[101] == asset_row_table()[1].probe_ids[0]);
    assert(catalog_probe_ids()[102] == asset_row_table()[1].probe_ids[1]);
    assert(catalog_probe_ids()[106] == asset_row_table()[2].probe_ids[0]);
    assert(catalog_probe_ids()[0] == asset_row_table()[2].probe_ids[1]);
}

proof fn lemma_conflict_rows_name_probes()
    ensures
        forall|i: int, k: int| 0 <= i < conflict_row_table().len() && 0 <= k < conflict_row_table()[i].probe_ids.len()
            ==> catalog_probe_ids().contains(#[trigger] conflict_row_table()[i].probe_ids[k]),
{
    lemma_catalog_probe_ids();
    assert(catalog_probe_ids()[107] == conflict_row_table()[0].probe_ids[0]);
    assert(catalog_probe_ids()[109] == conflict_row_table()[0].probe_ids[1]);
    assert(catalog_probe_ids()[110] == conflict_row_table()[0].probe_ids[2]);
    assert(catalog_probe_ids()[107] == conflict_row_table()[1].probe_ids[0]);
    assert(catalog_probe_ids()[108] == conflict_row_table()[1].probe_ids[1]);
    assert(catalog_probe_ids()[112] == conflict_row_table()[2].probe_ids[0]);
    assert(catalog_probe_ids()[111] == conflict_row_table()[2].probe_ids[1]);
}

proof fn lemma_other_rows_name_probes()
    ensures
        forall|i: int, k: int| 0 <= i < other_row_table().len() && 0 <= k < other_row_table()[i].probe_ids.len()
            ==> catalog_probe_ids().contains(#[trigger] other_row_table()[i].probe_ids[k]),
{
    lemma_catalog_probe_ids();
    assert(catalog_probe_ids()[118] == other_row_table()[0].probe_ids[0]);
    assert(catalog_probe_ids()[119] == other_row_table()[0].probe_ids[1]);
    assert(catalog_probe_ids()[120] == other_row_table()[0].probe_ids[2]);
    assert(catalog_probe_ids()[121] == other_row_table()[1].probe_ids[0]);
    assert(catalog_probe_ids()[122] == other_row_table()[2].probe_ids[0]);
    assert(catalog_probe_ids()[123] == other_row_table()[2].probe_ids[1]);
    assert(catalog_probe_ids()[124] == other_row_table()[2].probe_ids[2]);
    assert(catalog_probe_ids()[125] == other_row_table()[2].probe_ids[3]);
    assert(catalog_probe_ids()[126] == other_row_table()[2].probe_ids[4]);
    assert(catalog_probe_ids()[127] == other_row_table()[2].probe_ids[5]);
    assert(catalog_probe_ids()[128] == other_row_table()[3].probe_ids[0]);
    assert(catalog_probe_ids()[129] == other_row_table()[3].probe_ids[1]);
    assert(catalog_probe_ids()[130] == other_row_table()[3].probe_ids[2]);
    assert(catalog_probe_ids()[113] == other_row_table()[4].probe_ids[0]);
    assert(catalog_probe_ids()[114] == other_row_table()[4].probe_ids[1]);
    assert(catalog_probe_ids()[115] == other_row_table()[4].probe_ids[2]);
    assert(catalog_probe_ids()[116] == other_row_table()[4].probe_ids[3]);
    assert(catalog_probe_ids()[117] == other_row_table()[4].probe_ids[4]);
    assert(catalog_probe_ids()[8] == other_row_table()[5].probe_ids[0]);
    assert(catalog_probe_ids()[9] == other_row_table()[5].probe_ids[1]);
}

proof fn lemma_row_table_concat()
    ensures
        catalog_row_table() =~= action_row_table() + left_operand_row_table() + operator_row_table()
            + logical_row_table() + policy_class_row_table() + party_row_table() + duty_row_table()
            + asset_row_table() + conflict_row_table() + other_row_table(),
{
}

proof fn lemma_action_heads_are_named()
    ensures
        forall|j: int| 0 <= j < action_heads().len() ==> named_by_a_row(#[trigger] action_heads()[j].0),
{
    lemma_row_table_concat();
    assert(catalog_row_table()[0].probe_ids[0] == action_heads()[0].0);
    assert(catalog_row_table()[0].probe_ids[1] == action_heads()[1].0);
    assert(catalog_row_table()[1].probe_ids[0] == action_heads()[2].0);
    assert(catalog_row_table()[1].probe_ids[1] == action_heads()[3].0);
    assert(catalog_row_table()[2].probe_ids[0] == action_heads()[4].0);
    assert(catalog_row_table()[3].probe_ids[0] == action_heads()[5].0);
    assert(catalog_row_table()[3].probe_ids[1] == action_heads()[6].0);
    assert(catalog_row_table()[3].probe_ids[2] == action_heads()[7].0);
    assert(catalog_row_table()[4].probe_ids[0] == action_heads()[8].0);
    assert(catalog_row_table()[4].probe_ids[1] == action_heads()[9].0);
}

proof fn lemma_left_operand_heads_are_named()
    ensures
        forall|j: int| 0 <= j < left_operand_heads().len() ==> named_by_a_row(#[trigger] left_operand_heads()[j].0),
{
    lemma_row_table_concat();
    assert(catalog_row_table()[5].probe_ids[0] == left_operand_heads()[0].0);
    assert(catalog_row_table()[5].probe_ids[1] == left_operand_heads()[1].0);
    assert(catalog_row_table()[6].probe_ids[0] == left_operand_heads()[2].0);
    assert(catalog_row_table()[6].probe_ids[1] == left_operand_heads()[3].0);
    assert(catalog_row_table()[6].probe_ids[2] == left_operand_heads()[4].0);
    assert(catalog_row_table()[7].probe_ids[0] == left_operand_heads()[5].0);
    assert(catalog_row_table()[7].probe_ids[1] == left_operand_heads()[6].0);
    assert(catalog_row_table()[7].probe_ids[2] == left_operand_heads()[7].0);
    assert(catalog_row_table()[7].probe_ids[3] == left_operand_heads()[8].0);
    assert(catalog_row_table()[7].probe_ids[4] == left_operand_heads()[9].0);
    assert(catalog_row_table()[7].probe_ids[5] == left_operand_heads()[10].0);
    assert(catalog_row_table()[8].probe_ids[0] == left_operand_heads()[11].0);
    assert(catalog_row_table()[8].probe_ids[1] == left_operand_heads()[12].0);
    assert(catalog_row_table()[9].probe_ids[0] == left_operand_heads()[13].0);
    assert(catalog_row_table()[9].probe_ids[1] == left_operand_heads()[14].0);
    assert(catalog_row_table()[9].probe_ids[2] == left_operand_heads()[15].0);
    assert(catalog_row_table()[10].probe_ids[0] == left_operand_heads()[16].0);
    assert(catalog_row_table()[10].probe_ids[1] == left_operand_heads()[17].0);
    assert(catalog_row_table()[11].probe_ids[0] == left_operand_heads()[18].0);
    assert(catalog_row_table()[11].probe_ids[1] == left_operand_heads()[19].0);
    assert(catalog_row_table()[11].probe_ids[2] == left_operand_heads()[20].0);
    assert(catalog_row_table()[12].probe_ids[0] == left_operand_heads()[21].0);
    assert(catalog_row_table()[12].probe_ids[1] == left_operand_heads()[22].0);
    assert(catalog_row_table()[12].probe_ids[2] == left_operand_heads()[23].0);
    assert(catalog_row_table()[13].probe_ids[0] == left_operand_heads()[24].0);
    assert(catalog_row_table()[13].probe_ids[1] == left_operand_heads()[25].0);
}

proof fn lemma_operator_heads_are_named()
    ensures
        forall|j: int| 0 <= j < operator_heads().len() ==> named_by_a_row(#[trigger] operator_heads()[j].0),
{
    lemma_row_table_concat();
    assert(catalog_row_table()[14].probe_ids[0] == operator_heads()[0].0);
    assert(catalog_row_table()[14].probe_ids[1] == operator_heads()[1].0);
    assert(catalog_row_table()[14].probe_ids[2] == operator_heads()[2].0);
    assert(catalog_row_table()[15].probe_ids[0] == operator_heads()[3].0);
    assert(catalog_row_table()[15].probe_ids[1] == operator_heads()[4].0);
    assert(catalog_row_table()[16].probe_ids[0] == operator_heads()[5].0);
    assert(catalog_row_table()[16].probe_ids[1] == operator_heads()[6].0);
    assert(catalog_row_table()[16].probe_ids[2] == operator_heads()[7].0);
    assert(catalog_row_table()[16].probe_ids[3] == operator_heads()[8].0);
    assert(catalog_row_table()[16].probe_ids[4] == operator_heads()[9].0);
    assert(catalog_row_table()[16].probe_ids[5] == operator_heads()[10].0);
    assert(catalog_row_table()[16].probe_ids[6] == operator_heads()[11].0);
    assert(catalog_row_table()[16].probe_ids[7] == operator_heads()[12].0);
    assert(catalog_row_table()[16].probe_ids[8] == operator_heads()[13].0);
    assert(catalog_row_table()[17].probe_ids[0] == operator_heads()[14].0);
    assert(catalog_row_table()[17].probe_ids[1] == operator_heads()[15].0);
    assert(catalog_row_table()[17].probe_ids[2] == operator_heads()[16].0);
    assert(catalog_row_table()[18].probe_ids[0] == operator_heads()[17].0);
    assert(catalog_row_table()[18].probe_ids[1] == operator_heads()[18].0);
    assert(catalog_row_table()[18].probe_ids[2] == operator_heads()[19].0);
    assert(catalog_row_table()[18].probe_ids[3] == operator_heads()[20].0);
    assert(catalog_row_table()[18].probe_ids[4] == operator_heads()[21].0);
    assert(catalog_row_table()[18].probe_ids[5] == operator_heads()[22].0);
    assert(catalog_row_table()[19].probe_ids[0] == operator_heads()[23].0);
    assert(catalog_row_table()[19].probe_ids[1] == operator_heads()[24].0);
    assert(catalog_row_table()[19].probe_ids[2] == operator_heads()[25].0);
    assert(catalog_row_table()[20].probe_ids[0] == operator_heads()[26].0);
}

proof fn lemma_logical_heads_are_named()
    ensures
        forall|j: int| 0 <= j < logical_heads().len() ==> named_by_a_row(#[trigger] logical_heads()[j].0),
{
    lemma_row_table_concat();
    assert(catalog_row_table()[21].probe_ids[0] == logical_heads()[0].0);
    assert(catalog_row_table()[21].probe_ids[1] == logical_heads()[1].0);
    assert(catalog_row_table()[21].probe_ids[2] == logical_heads()[2].0);
    assert(catalog_row_table()[22].probe_ids[0] == logical_heads()[3].0);
    assert(catalog_row_table()[22].probe_ids[1] == logical_heads()[4].0);
    assert(catalog_row_table()[22].probe_ids[2] == logical_heads()[5].0);
    assert(catalog_row_table()[23].probe_ids[0] == logical_heads()[6].0);
    assert(catalog_row_table()[23].probe_ids[1] == logical_heads()[7].0);
    assert(catalog_row_table()[23].probe_ids[2] == logical_heads()[8].0);
    assert(catalog_row_table()[23].probe_ids[3] == logical_heads()[9].0);
    assert(catalog_row_table()[24].probe_ids[0] == logical_heads()[10].0);
    assert(catalog_row_table()[24].probe_ids[1] == logical_heads()[11].0);
    assert(catalog_row_table()[25].probe_ids[0] == logical_heads()[12].0);
}

proof fn lemma_policy_class_heads_are_named()
    ensures
        forall|j: int| 0 <= j < policy_class_heads().len() ==> named_by_a_row(#[trigger] policy_class_heads()[j].0),
{
    lemma_row_table_concat();
    assert(catalog_row_table()[27].probe_ids[0] == policy_class_heads()[0].0);
    assert(catalog_row_table()[26].probe_ids[0] == policy_class_heads()[1].0);
    assert(catalog_row_table()[26].probe_ids[1] == policy_class_heads()[2].0);
    assert(catalog_row_table()[26].probe_ids[2] == policy_class_heads()[3].0);
    assert(catalog_row_table()[28].probe_ids[0] == policy_class_heads()[4].0);
}

proof fn lemma_party_heads_are_named()
    ensures
        forall|j: int| 0 <= j < party_heads().len() ==> named_by_a_row(#[trigger] party_heads()[j].0),
{
    lemma_row_table_concat();
    assert(catalog_row_table()[29].probe_ids[0] == party_heads()[0].0);
    assert(catalog_row_table()[29].probe_ids[1] == party_heads()[1].0);
    assert(catalog_row_table()[29].probe_ids[2] == party_heads()[2].0);
    assert(catalog_row_table()[29].probe_ids[3] == party_heads()[3].0);
    assert(catalog_row_table()[29].probe_ids[4] == party_heads()[4].0);
    assert(catalog_row_table()[31].probe_ids[0] == party_heads()[5].0);
    assert(catalog_row_table()[32].probe_ids[0] == party_heads()[6].0);
}

proof fn lemma_duty_heads_are_named()
    ensures
        forall|j: int| 0 <= j < duty_heads().len() ==> named_by_a_row(#[trigger] duty_heads()[j].0),
{
    lemma_row_table_concat();
    assert(catalog_row_table()[34].probe_ids[0] == duty_heads()[0].0);
    assert(catalog_row_table()[34].probe_ids[1] == duty_heads()[1].0);
    assert(catalog_row_table()[34].probe_ids[2] == duty_heads()[2].0);
    assert(catalog_row_table()[35].probe_ids[0] == duty_heads()[3].0);
    assert(catalog_row_table()[35].probe_ids[1] == duty_heads()[4].0);
    assert(catalog_row_table()[35].probe_ids[2] == duty_heads()[5].0);
    assert(catalog_row_table()[35].probe_ids[3] == duty_heads()[6].0);
    assert(catalog_row_table()[36].probe_ids[0] == duty_heads()[7].0);
    assert(catalog_row_table()[36].probe_ids[1] == duty_heads()[8].0);
    assert(catalog_row_table()[37].probe_ids[0] == duty_heads()[9].0);
    assert(catalog_row_table()[37].probe_ids[1] == duty_heads()[10].0);
    assert(catalog_row_table()[37].probe_ids[2] == duty_heads()[11].0);
    assert(catalog_row_table()[38].probe_ids[0] == duty_heads()[12].0);
}

proof fn lemma_asset_heads_are_named()
    ensures
        forall|j: int| 0 <= j < asset_heads().len() ==> named_by_a_row(#[trigger] asset_heads()[j].0),
{
    lemma_row_table_concat();
    assert(catalog_row_table()[40].probe_ids[0] == asset_heads()[0].0);
    assert(catalog_row_table()[40].probe_ids[1] == asset_heads()[1].0);
    assert(catalog_row_table()[39].probe_ids[2] == asset_heads()[2].0);
    assert(catalog_row_table()[39].probe_ids[0] == asset_heads()[3].0);
    assert(catalog_row_table()[39].probe_ids[1] == asset_heads()[4].0);
    assert(catalog_row_table()[41].probe_ids[0] == asset_heads()[5].0);
}

proof fn lemma_conflict_heads_are_named()
    ensures
        forall|j: int| 0 <= j < conflict_heads().len() ==> named_by_a_row(#[trigger] conflict_heads()[j].0),
{
    lemma_row_table_concat();
    assert(catalog_row_table()[43].probe_ids[0] == conflict_heads()[0].0);
    assert(catalog_row_table()[44].probe_ids[1] == conflict_heads()[1].0);
    assert(catalog_row_table()[43].probe_ids[1] == conflict_heads()[2].0);
    assert(catalog_row_table()[43].probe_ids[2] == conflict_heads()[3].0);
    assert(catalog_row_table()[45].probe_ids[1] == conflict_heads()[4].0);
    assert(catalog_row_table()[45].probe_ids[0] == conflict_heads()[5].0);
}

proof fn lemma_other_heads_are_named()
    ensures
        forall|j: int| 0 <= j < other_heads().len() ==> named_by_a_row(#[trigger] other_heads()[j].0),
{
    lemma_row_table_concat();
    assert(catalog_row_table()[50].probe_ids[0] == other_heads()[0].0);
    assert(catalog_row_table()[50].probe_ids[1] == other_heads()[1].0);
    assert(catalog_row_table()[50].probe_ids[2] == other_heads()[2].0);
    assert(catalog_row_table()[50].probe_ids[3] == other_heads()[3].0);
    assert(catalog_row_table()[50].probe_ids[4] == other_heads()[4].0);
    assert(catalog_row_table()[46].probe_ids[0] == other_heads()[5].0);
    assert(catalog_row_table()[46].probe_ids[1] == other_heads()[6].0);
    assert(catalog_row_table()[46].probe_ids[2] == other_heads()[7].0);
    assert(catalog_row_table()[47].probe_ids[0] == other_heads()[8].0);
    assert(catalog_row_table()[48].probe_ids[0] == other_heads()[9].0);
    assert(catalog_row_table()[48].probe_ids[1] == other_heads()[10].0);
    assert(catalog_row_table()[48].probe_ids[2] == other_heads()[11].0);
    assert(catalog_row_table()[48].probe_ids[3] == other_heads()[12].0);
    assert(catalog_row_table()[48].probe_ids[4] == other_heads()[13].0);
    assert(catalog_row_table()[48].probe_ids[5] == other_heads()[14].0);
    assert(catalog_row_table()[49].probe_ids[0] == other_heads()[15].0);
    assert(catalog_row_table()[49].probe_ids[1] == other_heads()[16].0);
    assert(catalog_row_table()[49].probe_ids[2] == other_heads()[17].0);
}

} // verus!

verus! {

/// Every probe id that a row of the catalog names is the id of a probe of
/// the catalog, and every probe of the catalog is named by some row.
pub proof fn catalog_references_hold_both_ways()
    ensures
        forall|i: int, k: int| 0 <= i < catalog_row_table().len() && 0 <= k < catalog_row_table()[i].probe_ids.len()
            ==> catalog_probe_ids().contains(#[trigger] catalog_row_table()[i].probe_ids[k]),
        forall|j: int| 0 <= j < catalog_probe_ids().len() ==> named_by_a_row(#[trigger] catalog_probe_ids()[j]),
{
    lemma_action_rows_name_probes();
    lemma_left_operand_rows_name_probes();
    lemma_operator_rows_name_probes();
    lemma_logical_rows_name_probes();
    lemma_policy_class_rows_name_probes();
    lemma_party_rows_name_probes();
    lemma_duty_rows_name_probes();
    lemma_asset_rows_name_probes();
    lemma_conflict_rows_name_probes();
    lemma_other_rows_name_probes();
    lemma_action_heads_are_named();
    lemma_left_operand_heads_are_named();
    lemma_operator_heads_are_named();
    lemma_logical_heads_are_named();
    lemma_policy_class_heads_are_named();
    lemma_party_heads_are_named();
    lemma_duty_heads_are_named();
    lemma_asset_heads_are_named();
    lemma_conflict_heads_are_named();
    lemma_other_heads_are_named();
    lemma_row_table_concat();
    let t = seq![action_row_table(), left_operand_row_table(), operator_row_table(), logical_row_table(),
        policy_class_row_table(), party_row_table(), duty_row_table(), asset_row_table(),
        conflict_row_table(), other_row_table()];
    let offs: Seq<int> = seq![0int, 5, 14, 21, 26, 29, 34, 39, 43, 46, 52];
    assert(catalog_row_table() =~= t[0] + t[1] + t[2] + t[3] + t[4] + t[5] + t[6] + t[7] + t[8] + t[9]);
    assert forall|i: int, k: int| 0 <= i < catalog_row_table().len() && 0 <= k < catalog_row_table()[i].probe_ids.len()
        implies catalog_probe_ids().contains(#[trigger] catalog_row_table()[i].probe_ids[k]) by {
        let n = section_of(i);
        assert(offs[n] <= i < offs[n + 1]);
        assert(catalog_row_table()[i] == t[n][i - offs[n]]);
    }
    let h = seq![action_heads(), left_operand_heads(), operator_heads(), logical_heads(), policy_class_heads(), party_heads(), duty_heads(), asset_heads(), conflict_heads(), other_heads()];
    let hoffs: Seq<int> = seq![0int, 10, 36, 63, 76, 81, 88, 101, 107, 113, 131];
    assert(catalog_heads() =~= h[0] + h[1] + h[2] + h[3] + h[4] + h[5] + h[6] + h[7] + h[8] + h[9]);
    assert forall|j: int| 0 <= j < catalog_probe_ids().len() implies named_by_a_row(#[trigger] catalog_probe_ids()[j]) by {
        let n: int = if j < 10 { 0 } else if j < 36 { 1 } else if j < 63 { 2 } else if j < 76 { 3 }
            else if j < 81 { 4 } else if j < 88 { 5 } else if j < 101 { 6 } else if j < 107 { 7 }
            else if j < 113 { 8 } else { 9 };
        assert(hoffs[n] <= j < hoffs[n + 1]);
        assert(catalog_heads()[j] == h[n][j - hoffs[n]]);
    }
}

} // verus!
