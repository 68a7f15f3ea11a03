//! Coverage probes, categories 8 and 9: asset relations and conflict strategy.

use vstd::prelude::*;
use crate::probe::{RequestV, PolicyWireV, ConfigV, request_view, requests, extras, policy_v, rule_v, targeted_rule_v, base_request_v, flat_config_v, one_v, config_v};
use crate::patch::PatchV;
use crate::json::JsonV;
use crate::text::owned;
use crate::wire::{Request, WirePolicy, ConflictStrategy, Constraint, ConstraintV, cviews, rviews};
use crate::coverage;
use crate::coverage::{deny, error, base_allow_reason};
use crate::probe::{ProbeSpec, heads, texts, reasons, patch_lists, ref_json, refs_json, POSITIVE, NEGATIVE, base_request, config, action, policy, rule, targeted_rule, jrefs, jstr, s, one};
use crate::patch::Patch;
use crate::coverage::{closed_deny_text, constrained_allow_text, base_allow_text};
use crate::coverage::opt_view;

use crate::probe::{expect_extras_view};
verus! {

/// The request [`two_asset_request`] makes.
pub open spec fn two_asset_request_v(requested: Seq<char>) -> RequestV {
    RequestV {
        dataset_id: requested,
        policies: seq![PolicyWireV {
            prohibitions: seq![targeted_rule_v("use"@, "urn:asset:B"@)],
            ..policy_v("probe"@, seq![targeted_rule_v("use"@, "urn:asset:A"@)])
        }],
        ..base_request_v()
    }
}

/// The request [`conflicting`] makes.
pub open spec fn conflicting_v(conflict: ConflictStrategy) -> RequestV {
    RequestV {
        policies: seq![PolicyWireV {
            prohibitions: seq![rule_v("use"@, Seq::empty())],
            conflict,
            ..policy_v("probe"@, seq![rule_v("use"@, Seq::empty())])
        }],
        ..base_request_v()
    }
}

/// One policy carrying a permission on `urn:asset:A` and a prohibition on
/// `urn:asset:B`, requested for whichever of the two `requested` names --
/// the "permission on A, prohibition on B" shape one ODRL policy expresses
/// through each rule's own `odrl:target`.
fn two_asset_request(requested: &str) -> (r: Request)
    ensures
        request_view(r) == two_asset_request_v(requested@),
        r.dataset_id@ == requested@,
        r.action@ == "use"@,
        r.policies@.len() == 1,
        r.policies@[0].id@ == "probe"@,
        r.policies@[0].permissions@.len() == 1,
        r.policies@[0].permissions@[0].action@ == "use"@,
        opt_view(r.policies@[0].permissions@[0].target) == Some("urn:asset:A"@),
        r.policies@[0].permissions@[0].constraints@.len() == 0,
        r.policies@[0].prohibitions@.len() == 1,
        r.policies@[0].prohibitions@[0].action@ == "use"@,
        opt_view(r.policies@[0].prohibitions@[0].target) == Some("urn:asset:B"@),
        r.policies@[0].prohibitions@[0].constraints@.len() == 0,
        r.policies@[0].conflict == ConflictStrategy::Invalid,
        r.claims.entries@.len() == 0,
{
    let base = base_request();
    let on_a = vec![targeted_rule("use", "urn:asset:A")];
    let on_b = vec![targeted_rule("use", "urn:asset:B")];
    assert(rviews(on_a@) =~= seq![targeted_rule_v("use"@, "urn:asset:A"@)]);
    assert(rviews(on_b@) =~= seq![targeted_rule_v("use"@, "urn:asset:B"@)]);
    let p = WirePolicy { prohibitions: on_b, ..policy("probe", on_a) };
    let r = Request { dataset_id: owned(requested), policies: vec![p], ..base };
    assert(request_view(r) =~~= two_asset_request_v(requested@));
    r
}

/// The one shape `odrl:conflict` has anything to say about: a permission
/// and a prohibition of the same policy that both cover and match the same
/// requested action on the same requested target, under `conflict`.
fn conflicting(conflict: ConflictStrategy) -> (r: Request)
    ensures
        request_view(r) == conflicting_v(conflict),
        r.action@ == "use"@,
        r.policies@.len() == 1,
        r.policies@[0].id@ == "probe"@,
        r.policies@[0].permissions@.len() == 1,
        r.policies@[0].permissions@[0].action@ == "use"@,
        r.policies@[0].permissions@[0].constraints@.len() == 0,
        r.policies@[0].prohibitions@.len() == 1,
        r.policies@[0].prohibitions@[0].action@ == "use"@,
        r.policies@[0].prohibitions@[0].constraints@.len() == 0,
        r.policies@[0].conflict == conflict,
        r.claims.entries@.len() == 0,
{
    let base = base_request();
    let permitted = vec![rule("use", vec![])];
    let prohibited = vec![rule("use", vec![])];
    assert(cviews(Seq::<Constraint>::empty()) =~= Seq::<ConstraintV>::empty());
    assert(rviews(permitted@) =~= seq![rule_v("use"@, Seq::empty())]);
    assert(rviews(prohibited@) =~= seq![rule_v("use"@, Seq::empty())]);
    let p = WirePolicy { prohibitions: prohibited, conflict, ..policy("probe", permitted) };
    let r = Request { policies: vec![p], ..base };
    assert(request_view(r) =~~= conflicting_v(conflict));
    r
}

/// The reason a policy voided by the default conflict strategy gives.
fn void_reason() -> (r: &'static str)
    ensures
        r@ == "policy 'probe' is void: permission[0] and prohibition[0] both matched requested action \
     'use', and the policy's odrl:conflict strategy is 'invalid' (ODRL's own default), which \
     voids a conflicting policy rather than resolving it"@,
{
    "policy 'probe' is void: permission[0] and prohibition[0] both matched requested action \
     'use', and the policy's odrl:conflict strategy is 'invalid' (ODRL's own default), which \
     voids a conflicting policy rather than resolving it"
}

/// The `(id, kind, expected decision)` of each probe [`asset_probes`] writes, in order.
pub open spec fn asset_heads() -> Seq<(Seq<char>, Seq<char>, Seq<char>)> {
    seq![
        ("asset-per-rule-target-hit"@, POSITIVE@, "Allow"@),
        ("asset-per-rule-target-miss"@, NEGATIVE@, "Deny"@),
        ("asset-target-not-a-collection"@, NEGATIVE@, "Deny"@),
        ("asset-collection-membership-hit"@, POSITIVE@, "Allow"@),
        ("asset-collection-membership-wrong-collection-miss"@, NEGATIVE@, "Deny"@),
        ("asset-output-ignored"@, NEGATIVE@, "Allow"@),
    ]
}

/// The `(title, asserts, falsified_by)` of each probe [`asset_probes`] writes, in order.
pub open spec fn asset_texts() -> Seq<(Seq<char>, Seq<char>, Seq<char>)> {
    seq![
        (
            "a per-rule odrl:target is evaluated: a prohibition scoped to another asset does not deny"@,
            "One policy, permission on urn:asset:A and prohibition on urn:asset:B, requested for \
                      urn:asset:A. Allow, and the reason names the permission's own target -- the \
                      prohibition is about another asset and does not participate. Paired with \
                      asset-per-rule-target-miss, the same policy requested for urn:asset:B."@,
            "Deny -- which would mean the prohibition's target is dropped and every rule is \
                           implicitly about dataset_id, as every rule was before per-rule targets existed"@,
        ),
        (
            "the same policy, requested for the prohibited asset, denies"@,
            "Byte-identical to asset-per-rule-target-hit except for dataset_id (the request's own \
                      target). Deny, naming the prohibition and its target: the permission on urn:asset:A \
                      no longer applies and the prohibition on urn:asset:B does."@,
            "Allow -- which would mean the permission's own target is dropped"@,
        ),
        (
            "a per-rule odrl:target is matched as an opaque string, absent an asserted odrl:partOf"@,
            "The permission targets urn:asset:collection and the request is for urn:asset:A, a \
                      member of it in any real catalog, but the request asserts no odrl:partOf membership \
                      via asset_collections. Deny: with no host-supplied fact to read, IRI-level \
                      inclusion is not inferred -- exactly as it was before asset_collections existed. \
                      Paired with asset-collection-membership-hit, the same shape with the membership \
                      asserted."@,
            "Allow -- which would mean collection membership is inferred from the IRIs alone, \
                           with no host-supplied fact"@,
        ),
        (
            "odrl:AssetCollection membership (odrl:partOf) is evaluated when the host asserts it"@,
            "Byte-identical to asset-target-not-a-collection except that the request's own \
                      asset_collections names urn:asset:collection as one urn:asset:A is odrl:partOf. \
                      Allow: a rule scoped to a collection IRI now covers a request for an asserted \
                      member of it, not only the collection IRI itself."@,
            "Deny -- which would mean asset_collections is ignored and target_applies still \
                           does bare string equality against dataset_id alone"@,
        ),
        (
            "membership in an unrelated collection does not satisfy a rule scoped to a different one"@,
            "Same shape as asset-collection-membership-hit, but asset_collections names a \
                      collection the rule is not scoped to. Deny: asserting *some* membership is not the \
                      same as asserting membership in the collection this rule actually names."@,
            "Allow -- which would mean any non-empty asset_collections list satisfies any \
                           targeted rule, regardless of which collection it names"@,
        ),
        (
            "odrl:output on a permission is dropped"@,
            "The asset a permitted action produces has no representation on the wire. Identical \
                      decision and reason to act-base-exact's byte-identical request without the key."@,
            "any decision or reason differing from act-base-exact's"@,
        ),
    ]
}

/// What the reason of each probe [`asset_probes`] writes must contain and must not
/// contain, in order.
pub open spec fn asset_reasons() -> Seq<(Seq<Seq<char>>, Seq<Seq<char>>)> {
    seq![
        (seq!["permission[0] of policy 'probe' matched: action 'use' on target 'urn:asset:A', unconstrained"@], seq![]),
        (seq!["prohibition[0] of policy 'probe' matched: action 'use' on target 'urn:asset:B', unconstrained"@], seq![]),
        (seq!["permission[0] of policy 'probe' covers requested action 'use' but targets \
                 'urn:asset:collection', not the requested 'urn:asset:A'"@], seq![]),
        (seq!["permission[0] of policy 'probe' matched: action 'use' on target 'urn:asset:collection', \
                 unconstrained"@], seq![]),
        (seq!["permission[0] of policy 'probe' covers requested action 'use' but targets \
                 'urn:asset:collection', not the requested 'urn:asset:A'"@], seq![]),
        (seq![base_allow_text()], seq![]),
    ]
}

/// The patches of each probe [`asset_probes`] writes, in order.
pub open spec fn asset_patches() -> Seq<Seq<PatchV>> {
    seq![
        seq![],
        seq![],
        seq![],
        seq![],
        seq![],
        seq![PatchV::SetKey("/policies/0/permissions/0"@, "output"@, JsonV::Str("urn:asset:derived"@))],
    ]
}

/// The request of each probe [`asset_probes`] writes, in order.
pub open spec fn asset_requests() -> Seq<RequestV> {
    seq![
        two_asset_request_v("urn:asset:A"@),
        two_asset_request_v("urn:asset:B"@),
        RequestV { dataset_id: "urn:asset:A"@, policies: seq![policy_v("probe"@, seq![targeted_rule_v("use"@, "urn:asset:collection"@)])], ..base_request_v() },
        RequestV { dataset_id: "urn:asset:A"@, policies: seq![policy_v("probe"@, seq![targeted_rule_v("use"@, "urn:asset:collection"@)])], asset_collections: seq!["urn:asset:collection"@], ..base_request_v() },
        RequestV { dataset_id: "urn:asset:A"@, policies: seq![policy_v("probe"@, seq![targeted_rule_v("use"@, "urn:asset:collection"@)])], asset_collections: seq!["urn:asset:some-other-collection"@], ..base_request_v() },
        base_request_v(),
    ]
}

/// What the expectation of each probe [`asset_probes`] writes says of duties and of
/// the dataset, in order.
pub open spec fn asset_extras() -> Seq<(Option<Seq<(Seq<char>, Seq<char>, bool, Option<Seq<char>>)>>, Option<Seq<char>>)> {
    seq![
        (None::<Seq<(Seq<char>, Seq<char>, bool, Option<Seq<char>>)>>, Some("urn:asset:A"@)),
        (None::<Seq<(Seq<char>, Seq<char>, bool, Option<Seq<char>>)>>, Some("urn:asset:B"@)),
        (None::<Seq<(Seq<char>, Seq<char>, bool, Option<Seq<char>>)>>, Some("urn:asset:A"@)),
        (None::<Seq<(Seq<char>, Seq<char>, bool, Option<Seq<char>>)>>, Some("urn:asset:A"@)),
        (None::<Seq<(Seq<char>, Seq<char>, bool, Option<Seq<char>>)>>, Some("urn:asset:A"@)),
        (None::<Seq<(Seq<char>, Seq<char>, bool, Option<Seq<char>>)>>, None::<Seq<char>>),
    ]
}

/// Category 8, asset relations: a per-rule `odrl:target` is evaluated, an
/// asset collection resolves only through the request's own collection
/// facts, and `odrl:output` is inert.
#[verifier::rlimit(80)]
pub fn asset_probes() -> (r: Vec<ProbeSpec>)
    ensures
        heads(r@) == asset_heads(),
        texts(r@) == asset_texts(),
        reasons(r@) == asset_reasons(),
        patch_lists(r@) == asset_patches(),
        requests(r@) == asset_requests(),
        extras(r@) == asset_extras(),
{
    // Short enough to read as a literal list.
    let probes: Vec<ProbeSpec> = vec![
        ProbeSpec {
            id: "asset-per-rule-target-hit",
            kind: POSITIVE,
            title: "a per-rule odrl:target is evaluated: a prohibition scoped to another asset does not deny",
            asserts: "One policy, permission on urn:asset:A and prohibition on urn:asset:B, requested for \
                      urn:asset:A. Allow, and the reason names the permission's own target -- the \
                      prohibition is about another asset and does not participate. Paired with \
                      asset-per-rule-target-miss, the same policy requested for urn:asset:B.",
            falsified_by: "Deny -- which would mean the prohibition's target is dropped and every rule is \
                           implicitly about dataset_id, as every rule was before per-rule targets existed",
            request: two_asset_request("urn:asset:A"),
            patches: vec![],
            expect: coverage::allow(
                "permission[0] of policy 'probe' matched: action 'use' on target 'urn:asset:A', unconstrained",
            )
            .with_dataset_id("urn:asset:A"),
        },
        ProbeSpec {
            id: "asset-per-rule-target-miss",
            kind: NEGATIVE,
            title: "the same policy, requested for the prohibited asset, denies",
            asserts: "Byte-identical to asset-per-rule-target-hit except for dataset_id (the request's own \
                      target). Deny, naming the prohibition and its target: the permission on urn:asset:A \
                      no longer applies and the prohibition on urn:asset:B does.",
            falsified_by: "Allow -- which would mean the permission's own target is dropped",
            request: two_asset_request("urn:asset:B"),
            patches: vec![],
            expect: deny(
                "prohibition[0] of policy 'probe' matched: action 'use' on target 'urn:asset:B', unconstrained",
            )
            .with_dataset_id("urn:asset:B"),
        },
        ProbeSpec {
            id: "asset-target-not-a-collection",
            kind: NEGATIVE,
            title: "a per-rule odrl:target is matched as an opaque string, absent an asserted odrl:partOf",
            asserts: "The permission targets urn:asset:collection and the request is for urn:asset:A, a \
                      member of it in any real catalog, but the request asserts no odrl:partOf membership \
                      via asset_collections. Deny: with no host-supplied fact to read, IRI-level \
                      inclusion is not inferred -- exactly as it was before asset_collections existed. \
                      Paired with asset-collection-membership-hit, the same shape with the membership \
                      asserted.",
            falsified_by: "Allow -- which would mean collection membership is inferred from the IRIs alone, \
                           with no host-supplied fact",
            request: Request {
                dataset_id: owned("urn:asset:A"),
                policies: vec![policy("probe", vec![targeted_rule("use", "urn:asset:collection")])],
                ..base_request()
            },
            patches: vec![],
            expect: deny(
                "permission[0] of policy 'probe' covers requested action 'use' but targets \
                 'urn:asset:collection', not the requested 'urn:asset:A'",
            )
            .with_dataset_id("urn:asset:A"),
        },
        ProbeSpec {
            id: "asset-collection-membership-hit",
            kind: POSITIVE,
            title: "odrl:AssetCollection membership (odrl:partOf) is evaluated when the host asserts it",
            asserts: "Byte-identical to asset-target-not-a-collection except that the request's own \
                      asset_collections names urn:asset:collection as one urn:asset:A is odrl:partOf. \
                      Allow: a rule scoped to a collection IRI now covers a request for an asserted \
                      member of it, not only the collection IRI itself.",
            falsified_by: "Deny -- which would mean asset_collections is ignored and target_applies still \
                           does bare string equality against dataset_id alone",
            request: Request {
                dataset_id: owned("urn:asset:A"),
                policies: vec![policy("probe", vec![targeted_rule("use", "urn:asset:collection")])],
                asset_collections: vec![owned("urn:asset:collection")],
                ..base_request()
            },
            patches: vec![],
            expect: coverage::allow(
                "permission[0] of policy 'probe' matched: action 'use' on target 'urn:asset:collection', \
                 unconstrained",
            )
            .with_dataset_id("urn:asset:A"),
        },
        ProbeSpec {
            id: "asset-collection-membership-wrong-collection-miss",
            kind: NEGATIVE,
            title: "membership in an unrelated collection does not satisfy a rule scoped to a different one",
            asserts: "Same shape as asset-collection-membership-hit, but asset_collections names a \
                      collection the rule is not scoped to. Deny: asserting *some* membership is not the \
                      same as asserting membership in the collection this rule actually names.",
            falsified_by: "Allow -- which would mean any non-empty asset_collections list satisfies any \
                           targeted rule, regardless of which collection it names",
            request: Request {
                dataset_id: owned("urn:asset:A"),
                policies: vec![policy("probe", vec![targeted_rule("use", "urn:asset:collection")])],
                asset_collections: vec![owned("urn:asset:some-other-collection")],
                ..base_request()
            },
            patches: vec![],
            expect: deny(
                "permission[0] of policy 'probe' covers requested action 'use' but targets \
                 'urn:asset:collection', not the requested 'urn:asset:A'",
            )
            .with_dataset_id("urn:asset:A"),
        },
        ProbeSpec {
            id: "asset-output-ignored",
            kind: NEGATIVE,
            title: "odrl:output on a permission is dropped",
            asserts: "The asset a permitted action produces has no representation on the wire. Identical \
                      decision and reason to act-base-exact's byte-identical request without the key.",
            falsified_by: "any decision or reason differing from act-base-exact's",
            request: base_request(),
            patches: vec![Patch::set("/policies/0/permissions/0", "output", jstr("urn:asset:derived"))],
            expect: coverage::allow(base_allow_reason().as_str()),
        },
    ];
    assert(request_view(probes@[0].request) =~~= asset_requests()[0]);
    assert(expect_extras_view(probes@[0].expect) =~~= asset_extras()[0]);
    assert(request_view(probes@[1].request) =~~= asset_requests()[1]);
    assert(expect_extras_view(probes@[1].expect) =~~= asset_extras()[1]);
    assert(request_view(probes@[2].request) =~~= asset_requests()[2]);
    assert(expect_extras_view(probes@[2].expect) =~~= asset_extras()[2]);
    assert(request_view(probes@[3].request) =~~= asset_requests()[3]);
    assert(expect_extras_view(probes@[3].expect) =~~= asset_extras()[3]);
    assert(request_view(probes@[4].request) =~~= asset_requests()[4]);
    assert(expect_extras_view(probes@[4].expect) =~~= asset_extras()[4]);
    assert(request_view(probes@[5].request) =~~= asset_requests()[5]);
    assert(expect_extras_view(probes@[5].expect) =~~= asset_extras()[5]);
        assert(heads(probes@) =~= asset_heads());
        assert(texts(probes@) =~= asset_texts());
        assert(reasons(probes@) =~~= asset_reasons());
        assert(patch_lists(probes@) =~~= asset_patches());
        assert(requests(probes@) =~= asset_requests());
        assert(extras(probes@) =~= asset_extras());
    probes
}

/// The `(id, kind, expected decision)` of each probe [`conflict_probes`] writes, in order.
pub open spec fn conflict_heads() -> Seq<(Seq<char>, Seq<char>, Seq<char>)> {
    seq![
        ("conflict-default-invalid-voids"@, POSITIVE@, "Deny"@),
        ("conflict-invalid-declared-explicitly"@, NEGATIVE@, "Deny"@),
        ("conflict-perm-allows"@, POSITIVE@, "Allow"@),
        ("conflict-prohibit-denies"@, POSITIVE@, "Deny"@),
        ("conflict-no-collision-inert"@, NEGATIVE@, "Allow"@),
        ("conflict-profile-strategy-unparseable"@, NEGATIVE@, "Error"@),
    ]
}

/// The `(title, asserts, falsified_by)` of each probe [`conflict_probes`] writes, in order.
pub open spec fn conflict_texts() -> Seq<(Seq<char>, Seq<char>, Seq<char>)> {
    seq![
        (
            "a policy declaring no odrl:conflict is void when a permission and a prohibition collide"@,
            "ODRL's own default for an undeclared conflict term is `invalid` -- void the policy -- \
                  and that is now what this engine does, rather than the unconditional \
                  prohibition-overrides earlier revisions applied. Same Deny either way, so the reason \
                  string is the whole observable: it must name the policy as void and name both \
                  colliding rules."@,
            "Allow, or a reason reporting the prohibition as the deciding rule"@,
        ),
        (
            "declaring invalid explicitly is indistinguishable from declaring nothing"@,
            "The control for conflict-default-invalid-voids: the same request with the term written \
                  out on the wire reaches a byte-identical decision and reason, which is what makes the \
                  undeclared case a real default rather than a separate code path. The key is injected \
                  as a patch rather than set on the typed request precisely because a policy meaning the \
                  default serializes without it -- setting the field would produce the same bytes as the \
                  probe this one controls, and prove nothing."@,
            "any decision or reason differing from conflict-default-invalid-voids's"@,
        ),
        (
            "odrl:conflict: perm lets the permission beat the matching prohibition"@,
            "The one ODRL combining rule this engine had no way to express at all until this \
                  revision: the identical policy that is void under the default Allows when it asks for \
                  permission-first resolution, and the trace names the prohibition it overrode. Read \
                  against conflict-default-invalid-voids, the byte-identical request minus the term."@,
            "Deny -- which would mean odrl:conflict is still inert"@,
        ),
        (
            "odrl:conflict: prohibit is deny-overrides, now as a value a policy has to ask for"@,
            "What this engine did unconditionally before the term existed, reachable only by \
                  declaring it -- and saying so in the trace, so \"prohibition-first because the policy \
                  chose it\" and \"void because nothing reconciled the two\" are never the same string."@,
            "Allow, or the void reason"@,
        ),
        (
            "a declared strategy changes nothing for a policy with no genuine collision"@,
            "The scope limit of the whole feature, and the reason no vendored compliance fixture \
                  moved: `perm` on a policy carrying no prohibition at all is byte-identical to the \
                  bare baseline. Controlled by act-base-exact."@,
            "any decision or reason differing from act-base-exact's"@,
        ),
        (
            "a profile-declared conflict strategy cannot be selected: the request fails to parse"@,
            "The config declares `ex:assigneeWins` and the policy selects it. ConflictStrategy is a \
                  closed Rust enum spelling ODRL's three ConflictTerms and nothing else, so an \
                  out-of-enum token is a deserialization failure rather than a silently substituted \
                  default -- the same closed-enum posture op-isa-unparseable establishes for operators."@,
            "Allow or Deny -- either would mean the token was tolerated and some other strategy applied"@,
        ),
    ]
}

/// What the reason of each probe [`conflict_probes`] writes must contain and must not
/// contain, in order.
pub open spec fn conflict_reasons() -> Seq<(Seq<Seq<char>>, Seq<Seq<char>>)> {
    seq![
        (seq!["policy 'probe' is void: permission[0] and prohibition[0] both matched requested action \
     'use', and the policy's odrl:conflict strategy is 'invalid' (ODRL's own default), which \
     voids a conflicting policy rather than resolving it"@], seq!["prohibition[0] of policy 'probe' matched"@]),
        (seq!["policy 'probe' is void: permission[0] and prohibition[0] both matched requested action \
     'use', and the policy's odrl:conflict strategy is 'invalid' (ODRL's own default), which \
     voids a conflicting policy rather than resolving it"@], seq!["prohibition[0] of policy 'probe' matched"@]),
        (seq!["permission[0] of policy 'probe' matched: action 'use', unconstrained; odrl:conflict 'perm' \
             resolves the conflict with prohibition[0] in the permission's favour"@], seq![]),
        (seq!["prohibition[0] of policy 'probe' matched: action 'use', unconstrained; odrl:conflict \
             'prohibit' resolves the conflict with permission[0] in the prohibition's favour"@], seq!["is void"@]),
        (seq![base_allow_text()], seq![]),
        (seq!["request did not parse as the documented Section 5.2 JSON shape"@, "unknown variant `ex:assigneeWins`, expected one of `perm`, `prohibit`, `invalid`"@], seq![]),
    ]
}

/// The patches of each probe [`conflict_probes`] writes, in order.
pub open spec fn conflict_patches() -> Seq<Seq<PatchV>> {
    seq![
        seq![],
        seq![PatchV::SetKey("/policies/0"@, "odrl:conflict"@, JsonV::Str("invalid"@))],
        seq![],
        seq![],
        seq![],
        seq![PatchV::SetKey("/config"@, "odrl:conflict"@, refs_json("ex:assigneeWins"@)), PatchV::SetKey("/policies/0"@, "odrl:conflict"@, JsonV::Str("ex:assigneeWins"@))],
    ]
}

/// The request of each probe [`conflict_probes`] writes, in order.
pub open spec fn conflict_requests() -> Seq<RequestV> {
    seq![
        conflicting_v(ConflictStrategy::Invalid),
        conflicting_v(ConflictStrategy::Invalid),
        conflicting_v(ConflictStrategy::Perm),
        conflicting_v(ConflictStrategy::Prohibit),
        RequestV { policies: seq![PolicyWireV { conflict: ConflictStrategy::Perm, ..policy_v("probe"@, seq![rule_v("use"@, seq![])]) }], ..base_request_v() },
        conflicting_v(ConflictStrategy::Prohibit),
    ]
}

/// What the expectation of each probe [`conflict_probes`] writes says of duties and of
/// the dataset, in order.
pub open spec fn conflict_extras() -> Seq<(Option<Seq<(Seq<char>, Seq<char>, bool, Option<Seq<char>>)>>, Option<Seq<char>>)> {
    seq![
        (None::<Seq<(Seq<char>, Seq<char>, bool, Option<Seq<char>>)>>, None::<Seq<char>>),
        (None::<Seq<(Seq<char>, Seq<char>, bool, Option<Seq<char>>)>>, None::<Seq<char>>),
        (None::<Seq<(Seq<char>, Seq<char>, bool, Option<Seq<char>>)>>, None::<Seq<char>>),
        (None::<Seq<(Seq<char>, Seq<char>, bool, Option<Seq<char>>)>>, None::<Seq<char>>),
        (None::<Seq<(Seq<char>, Seq<char>, bool, Option<Seq<char>>)>>, None::<Seq<char>>),
        (None::<Seq<(Seq<char>, Seq<char>, bool, Option<Seq<char>>)>>, None::<Seq<char>>),
    ]
}

/// Category 9, conflict strategy: an undeclared strategy is ODRL's
/// `invalid`, voiding a policy whose permission and prohibition collide;
/// `perm` and `prohibit` resolve the collision their way; declaring
/// `invalid` explicitly changes nothing; a strategy with no collision is
/// inert; and a profile-declared strategy refuses to parse.
#[verifier::rlimit(80)]
pub fn conflict_probes() -> (r: Vec<ProbeSpec>)
    ensures
        heads(r@) == conflict_heads(),
        texts(r@) == conflict_texts(),
        reasons(r@) == conflict_reasons(),
        patch_lists(r@) == conflict_patches(),
        requests(r@) == conflict_requests(),
        extras(r@) == conflict_extras(),
{
    let mut probes: Vec<ProbeSpec> = Vec::new();

    probes.push(ProbeSpec {
        id: "conflict-default-invalid-voids",
        kind: POSITIVE,
        title: "a policy declaring no odrl:conflict is void when a permission and a prohibition collide",
        asserts: "ODRL's own default for an undeclared conflict term is `invalid` -- void the policy -- \
                  and that is now what this engine does, rather than the unconditional \
                  prohibition-overrides earlier revisions applied. Same Deny either way, so the reason \
                  string is the whole observable: it must name the policy as void and name both \
                  colliding rules.",
        falsified_by: "Allow, or a reason reporting the prohibition as the deciding rule",
        request: conflicting(ConflictStrategy::Invalid),
        patches: vec![],
        expect: deny(void_reason()).excluding(&["prohibition[0] of policy 'probe' matched"]),
    });
    assert(request_view(probes@[0].request) =~~= conflict_requests()[0]);
    assert(expect_extras_view(probes@[0].expect) =~~= conflict_extras()[0]);

    probes.push(ProbeSpec {
        id: "conflict-invalid-declared-explicitly",
        kind: NEGATIVE,
        title: "declaring invalid explicitly is indistinguishable from declaring nothing",
        asserts: "The control for conflict-default-invalid-voids: the same request with the term written \
                  out on the wire reaches a byte-identical decision and reason, which is what makes the \
                  undeclared case a real default rather than a separate code path. The key is injected \
                  as a patch rather than set on the typed request precisely because a policy meaning the \
                  default serializes without it -- setting the field would produce the same bytes as the \
                  probe this one controls, and prove nothing.",
        falsified_by: "any decision or reason differing from conflict-default-invalid-voids's",
        request: conflicting(ConflictStrategy::Invalid),
        patches: vec![Patch::set("/policies/0", "odrl:conflict", jstr("invalid"))],
        expect: deny(void_reason()).excluding(&["prohibition[0] of policy 'probe' matched"]),
    });
    assert(request_view(probes@[1].request) =~~= conflict_requests()[1]);
    assert(expect_extras_view(probes@[1].expect) =~~= conflict_extras()[1]);

    probes.push(ProbeSpec {
        id: "conflict-perm-allows",
        kind: POSITIVE,
        title: "odrl:conflict: perm lets the permission beat the matching prohibition",
        asserts: "The one ODRL combining rule this engine had no way to express at all until this \
                  revision: the identical policy that is void under the default Allows when it asks for \
                  permission-first resolution, and the trace names the prohibition it overrode. Read \
                  against conflict-default-invalid-voids, the byte-identical request minus the term.",
        falsified_by: "Deny -- which would mean odrl:conflict is still inert",
        request: conflicting(ConflictStrategy::Perm),
        patches: vec![],
        expect: coverage::allow(
            "permission[0] of policy 'probe' matched: action 'use', unconstrained; odrl:conflict 'perm' \
             resolves the conflict with prohibition[0] in the permission's favour",
        ),
    });
    assert(request_view(probes@[2].request) =~~= conflict_requests()[2]);
    assert(expect_extras_view(probes@[2].expect) =~~= conflict_extras()[2]);

    probes.push(ProbeSpec {
        id: "conflict-prohibit-denies",
        kind: POSITIVE,
        title: "odrl:conflict: prohibit is deny-overrides, now as a value a policy has to ask for",
        asserts: "What this engine did unconditionally before the term existed, reachable only by \
                  declaring it -- and saying so in the trace, so \"prohibition-first because the policy \
                  chose it\" and \"void because nothing reconciled the two\" are never the same string.",
        falsified_by: "Allow, or the void reason",
        request: conflicting(ConflictStrategy::Prohibit),
        patches: vec![],
        expect: deny(
            "prohibition[0] of policy 'probe' matched: action 'use', unconstrained; odrl:conflict \
             'prohibit' resolves the conflict with permission[0] in the prohibition's favour",
        )
        .excluding(&["is void"]),
    });
    assert(request_view(probes@[3].request) =~~= conflict_requests()[3]);
    assert(expect_extras_view(probes@[3].expect) =~~= conflict_extras()[3]);

    probes.push(ProbeSpec {
        id: "conflict-no-collision-inert",
        kind: NEGATIVE,
        title: "a declared strategy changes nothing for a policy with no genuine collision",
        asserts: "The scope limit of the whole feature, and the reason no vendored compliance fixture \
                  moved: `perm` on a policy carrying no prohibition at all is byte-identical to the \
                  bare baseline. Controlled by act-base-exact.",
        falsified_by: "any decision or reason differing from act-base-exact's",
        request: Request {
            policies: vec![WirePolicy { conflict: ConflictStrategy::Perm, ..policy("probe", vec![rule("use", vec![])]) }],
            ..base_request()
        },
        patches: vec![],
        expect: coverage::allow(base_allow_reason().as_str()),
    });
    assert(request_view(probes@[4].request) =~~= conflict_requests()[4]);
    assert(expect_extras_view(probes@[4].expect) =~~= conflict_extras()[4]);

    probes.push(ProbeSpec {
        id: "conflict-profile-strategy-unparseable",
        kind: NEGATIVE,
        title: "a profile-declared conflict strategy cannot be selected: the request fails to parse",
        asserts: "The config declares `ex:assigneeWins` and the policy selects it. ConflictStrategy is a \
                  closed Rust enum spelling ODRL's three ConflictTerms and nothing else, so an \
                  out-of-enum token is a deserialization failure rather than a silently substituted \
                  default -- the same closed-enum posture op-isa-unparseable establishes for operators.",
        falsified_by: "Allow or Deny -- either would mean the token was tolerated and some other strategy applied",
        request: conflicting(ConflictStrategy::Prohibit),
        patches: vec![
            Patch::set("/config", "odrl:conflict", jrefs("ex:assigneeWins")),
            Patch::set("/policies/0", "odrl:conflict", jstr("ex:assigneeWins")),
        ],
        expect: error(&[
            "request did not parse as the documented Section 5.2 JSON shape",
            "unknown variant `ex:assigneeWins`, expected one of `perm`, `prohibit`, `invalid`",
        ]),
    });
    assert(request_view(probes@[5].request) =~~= conflict_requests()[5]);
    assert(expect_extras_view(probes@[5].expect) =~~= conflict_extras()[5]);

        assert(heads(probes@) =~= conflict_heads());
        assert(texts(probes@) =~= conflict_texts());
        assert(reasons(probes@) =~~= conflict_reasons());
        assert(patch_lists(probes@) =~~= conflict_patches());
        assert(requests(probes@) =~= conflict_requests());
        assert(extras(probes@) =~= conflict_extras());
    probes
}

} // verus!
