//! Coverage probes, category 10: other spec material.

use vstd::prelude::*;
use crate::patch::PatchV;
use crate::json::JsonV;
use crate::text::owned;
use crate::wire::{Request, WirePolicy, Rule, RuleV, Operator, ConflictStrategy, Behaviour, Claims, cviews, rviews};
use crate::probe::{RequestV, PolicyWireV, ConfigV, request_view, policy_wire_view, config_view, requests, extras, policy_v, rule_v, base_request_v, flat_config_v, one_v};
use crate::coverage::strs_view;
use crate::coverage;
use crate::coverage::{deny, closed_deny, allow_constrained};
use crate::probe::{ProbeSpec, heads, texts, reasons, patch_lists, ref_json, refs_json, POSITIVE, NEGATIVE, base_request, config, flat_config, action, policy, rule, jref, jstr, c, s, claims, one};
use crate::patch::Patch;
use crate::coverage::{closed_deny_text, constrained_allow_text, base_allow_text};
use crate::wire::{RequestConfig, DutyMode, atom_v};
use crate::probe::{pairs_v, lemma_put_all_distinct, decls_v, PROFILE_ID, DATASET_ID};
use crate::cli::claims_view;
use crate::rdf_translate::ClaimV;
use crate::coverage::opt_view;

use crate::probe::{expect_extras_view, put_all};
verus! {

/// The request [`empty_permissions`] makes.
pub open spec fn empty_permissions_v(behaviour: Behaviour) -> RequestV {
    RequestV {
        config: ConfigV { behaviour, ..flat_config_v(seq!["use"@]) },
        policies: seq![policy_v("probe"@, Seq::empty())],
        ..base_request_v()
    }
}

/// The request [`uid_request`] makes.
pub open spec fn uid_request_v() -> RequestV {
    RequestV {
        policies: seq![policy_v("https://example.org/policies/p-42"@,
            seq![rule_v("use"@, seq![atom_v("nationality"@, Operator::Eq, "DE"@)])])],
        ..one_v(atom_v("nationality"@, Operator::Eq, "DE"@), seq![("nationality"@, ClaimV::Single("DE"@))])
    }
}

/// The policy [`isolated_parent`] makes.
pub open spec fn isolated_parent_v(permissions: Seq<RuleV>, prohibitions: Seq<RuleV>) -> PolicyWireV {
    PolicyWireV {
        assignee: Some("did:web:mallory.example"@),
        permissions,
        prohibitions,
        ..policy_v("parent"@, Seq::empty())
    }
}

/// The policy [`child_addressed_to_caller`] makes.
pub open spec fn child_addressed_to_caller_v(inherit: bool, permissions: Seq<RuleV>, prohibitions: Seq<RuleV>) -> PolicyWireV {
    PolicyWireV {
        assignee: Some("did:web:alice.example"@),
        inherit_from: if inherit { Some(seq!["parent"@]) } else { None },
        permissions,
        prohibitions,
        ..policy_v("child"@, Seq::empty())
    }
}

/// The configuration [`isolated_config`] makes.
pub open spec fn isolated_config_v(actions: Seq<Seq<char>>, behaviour: Behaviour) -> ConfigV {
    ConfigV { behaviour, party_identity_claim: Some("sub"@), ..flat_config_v(actions) }
}

/// The claims [`caller_is_alice`] makes.
pub open spec fn caller_is_alice_v() -> Seq<(Seq<char>, ClaimV)> {
    seq![("sub"@, ClaimV::Single("did:web:alice.example"@))]
}

/// [`base_request`] whose policy has no permissions at all, under
/// `behaviour`.
fn empty_permissions(behaviour: Behaviour) -> (r: Request)
    ensures
        request_view(r) == empty_permissions_v(behaviour),
        r.dataset_id@ == DATASET_ID@,
        r.action@ == "use"@,
        decls_v(r.config.actions@) == seq![("use"@, None::<Seq<char>>)],
        r.config.behaviour == behaviour,
        r.config.duty_mode == DutyMode::Advise,
        r.policies@.len() == 1,
        r.policies@[0].id@ == "probe"@,
        r.policies@[0].permissions@.len() == 0,
        r.policies@[0].prohibitions@.len() == 0,
        r.policies@[0].obligations@.len() == 0,
        r.claims.entries@.len() == 0,
{
    let base = base_request();
    let config = RequestConfig { behaviour, ..base.config };
    let p = policy("probe", Vec::new());
    assert(rviews(Seq::<Rule>::empty()) =~= Seq::<RuleV>::empty());
    let r = Request { config, policies: vec![p], ..base };
    assert(request_view(r) =~~= empty_permissions_v(behaviour));
    r
}

/// `nationality eq DE`, satisfied, in a policy whose id is an IRI.
fn uid_request() -> (r: Request)
    ensures
        request_view(r) == uid_request_v(),
        r.action@ == "use"@,
        r.policies@.len() == 1,
        r.policies@[0].id@ == "https://example.org/policies/p-42"@,
        r.policies@[0].permissions@.len() == 1,
        r.policies@[0].permissions@[0].constraints@.len() == 1,
        r.policies@[0].permissions@[0].constraints@[0]@ == atom_v("nationality"@, Operator::Eq, "DE"@),
        claims_view(r.claims) == seq![("nationality"@, ClaimV::Single("DE"@))],
{
    let pairs = vec![("nationality", s("DE"))];
    let cl = claims(pairs);
    proof {
        assert(pairs_v(pairs@) =~= seq![("nationality"@, ClaimV::Single("DE"@))]);
        lemma_put_all_distinct(pairs_v(pairs@));
    }
    let request = one(c("nationality", Operator::Eq, "DE"), cl);
    let cs = vec![c("nationality", Operator::Eq, "DE")];
    assert(cviews(cs@) =~= seq![atom_v("nationality"@, Operator::Eq, "DE"@)]);
    let r0 = rule("use", cs);
    assert(r0@ == rule_v("use"@, seq![atom_v("nationality"@, Operator::Eq, "DE"@)]));
    let permitted = vec![r0];
    assert(rviews(permitted@) =~= seq![rule_v("use"@, seq![atom_v("nationality"@, Operator::Eq, "DE"@)])]);
    let p = policy("https://example.org/policies/p-42", permitted);
    let r = Request { policies: vec![p], ..request };
    assert(request_view(r) =~~= uid_request_v());
    r
}

/// The reason [`uid_request`] allows with.
fn uid_reason() -> (r: &'static str)
    ensures
        r@ == "permission[0] of policy 'https://example.org/policies/p-42' matched: action 'use': nationality eq DE"@,
{
    "permission[0] of policy 'https://example.org/policies/p-42' matched: action 'use': nationality eq DE"
}

// `odrl:inheritFrom` is a modelled field of the wire policy, so the
// inheritance probes build it as a typed value like every other supported
// part of a request, rather than injecting it as a patch.
//
// `parent` is scoped to a different `odrl:assignee` in all of them: the
// engine's multi-policy rule is deny-override across the whole policy set,
// so an unscoped `parent` beside `child` would decide the request by
// itself, with or without `inheritFrom` ever being resolved. Scoping
// `parent` to `did:web:mallory.example` under a configured
// `partyIdentityClaim` removes it from the applicable policies while
// leaving it among the request's policies for `inheritFrom` to find by
// `id` -- so what is decided on is `child` alone.

/// The parent policy, scoped away from the caller, with the given rules.
fn isolated_parent(rule_kind_permissions: Vec<Rule>, rule_kind_prohibitions: Vec<Rule>) -> (r: WirePolicy)
    ensures
        policy_wire_view(r) == isolated_parent_v(rviews(rule_kind_permissions@), rviews(rule_kind_prohibitions@)),
        r.id@ == "parent"@,
        r.kind@ == "Set"@,
        opt_view(r.assignee) == Some("did:web:mallory.example"@),
        r.permissions@ == rule_kind_permissions@,
        r.prohibitions@ == rule_kind_prohibitions@,
        r.obligations@.len() == 0,
        r.conflict == ConflictStrategy::Invalid,
        r.inherit_from is None,
{
    WirePolicy {
        assignee: Some(owned("did:web:mallory.example")),
        permissions: rule_kind_permissions,
        prohibitions: rule_kind_prohibitions,
        ..policy("parent", vec![])
    }
}

/// The child policy, assigned to the caller, inheriting from `parent`
/// when `inherit` holds.
fn child_addressed_to_caller(inherit: bool, permissions: Vec<Rule>, prohibitions: Vec<Rule>) -> (r: WirePolicy)
    ensures
        policy_wire_view(r) == child_addressed_to_caller_v(inherit, rviews(permissions@), rviews(prohibitions@)),
        r.id@ == "child"@,
        r.kind@ == "Set"@,
        opt_view(r.assignee) == Some("did:web:alice.example"@),
        r.permissions@ == permissions@,
        r.prohibitions@ == prohibitions@,
        r.obligations@.len() == 0,
        r.conflict == ConflictStrategy::Invalid,
        match r.inherit_from {
            Some(parents) => inherit && parents@.len() == 1 && parents@[0]@ == "parent"@,
            None => !inherit,
        },
{
    WirePolicy {
        assignee: Some(owned("did:web:alice.example")),
        inherit_from: if inherit { Some(vec![owned("parent")]) } else { None },
        permissions,
        prohibitions,
        ..policy("child", vec![])
    }
}

/// [`flat_config`] of `actions` under `behaviour`, naming `sub` as the
/// claim that identifies the caller.
fn isolated_config(actions: &[&str], behaviour: Behaviour) -> (r: RequestConfig)
    ensures
        config_view(r) == isolated_config_v(strs_view(actions@), behaviour),
        r.id@ == PROFILE_ID@,
        decls_v(r.actions@) == Seq::new(actions@.len(), |i: int| (actions@[i]@, None::<Seq<char>>)),
        r.duty_mode == DutyMode::Advise,
        r.behaviour == behaviour,
        opt_view(r.party_identity_claim) == Some("sub"@),
{
    let base = flat_config(actions);
    let r = RequestConfig { behaviour, party_identity_claim: Some(owned("sub")), ..base };
    assert(config_view(r) =~~= isolated_config_v(strs_view(actions@), behaviour));
    r
}

/// Claims presenting the caller `did:web:alice.example`.
fn caller_is_alice() -> (r: Claims)
    ensures
        claims_view(r) == caller_is_alice_v(),
        claims_view(r) == seq![("sub"@, ClaimV::Single("did:web:alice.example"@))],
{
    let pairs = vec![("sub", s("did:web:alice.example"))];
    let r = claims(pairs);
    proof {
        assert(pairs_v(pairs@) =~= seq![("sub"@, ClaimV::Single("did:web:alice.example"@))]);
        lemma_put_all_distinct(pairs_v(pairs@));
    }
    r
}

/// The `(id, kind, expected decision)` of each probe [`other_probes`] writes, in order.
pub open spec fn other_heads() -> Seq<(Seq<char>, Seq<char>, Seq<char>)> {
    seq![
        ("beh-open-empty"@, POSITIVE@, "Allow"@),
        ("beh-closed-empty"@, POSITIVE@, "Deny"@),
        ("beh-default-alias"@, POSITIVE@, "Deny"@),
        ("beh-absent-defaults-open"@, POSITIVE@, "Allow"@),
        ("beh-closed-with-matching-permission"@, NEGATIVE@, "Allow"@),
        ("uid-policy-in-reason"@, POSITIVE@, "Allow"@),
        ("uid-rule-index-not-uid"@, NEGATIVE@, "Allow"@),
        ("uid-constraint-no-uid"@, NEGATIVE@, "Allow"@),
        ("profile-union-not-per-policy"@, NEGATIVE@, "Allow"@),
        ("inheritfrom-safe-direction-hit"@, POSITIVE@, "Allow"@),
        ("inheritfrom-safe-direction-control"@, NEGATIVE@, "Deny"@),
        ("inheritfrom-fail-open-hit"@, POSITIVE@, "Deny"@),
        ("inheritfrom-fail-open-control"@, NEGATIVE@, "Allow"@),
        ("inheritfrom-conflict-divergence-hit"@, POSITIVE@, "Deny"@),
        ("inheritfrom-conflict-divergence-control"@, NEGATIVE@, "Deny"@),
        ("ror-literal-eq"@, POSITIVE@, "Allow"@),
        ("ror-not-dereferenced"@, NEGATIVE@, "Deny"@),
        ("ror-reference-key-ignored"@, NEGATIVE@, "Deny"@),
    ]
}

/// The `(title, asserts, falsified_by)` of each probe [`other_probes`] writes, in order.
pub open spec fn other_texts() -> Seq<(Seq<char>, Seq<char>, Seq<char>)> {
    seq![
        (
            "behaviour: open makes an empty permissions list a vacuous Allow"@,
            "The engine's own historical, unconditional reading: an Offer with no permissions is the \
                  common harvested-data case, not the exception."@,
            "Deny"@,
        ),
        (
            "behaviour: closed denies the same empty permissions list"@,
            "The Community Group Formal Semantics draft's own default, and the whole point of the \
                  parameter: the identical policy reaches the opposite decision."@,
            "Allow -- which would mean the parameter is inert"@,
        ),
        (
            "the draft's own \"default\" value resolves to closed"@,
            "The Formal Semantics draft states plainly that its `default` behaviour IS `closed`, so \
                  this is a synonym rather than a third behaviour -- and it reaches closed's decision."@,
            "Allow, or Error"@,
        ),
        (
            "a request with no behaviour field at all still parses, defaulting to open"@,
            "Backwards compatibility with a caller built against the wire contract from before this \
                  parameter existed: the field is REMOVED from the config here, not set."@,
            "Error (a required-field parse failure), or Deny (a changed default)"@,
        ),
        (
            "behaviour: closed changes nothing when a permission actually matches"@,
            "Bounds the knob to the one degenerate case it governs: with a real, covering, satisfied \
                  permission, closed and open agree."@,
            "Deny -- which would mean the parameter reaches beyond the empty-list case"@,
        ),
        (
            "a policy's own uid is carried and named in the reason"@,
            "The one identifier the engine reports back verbatim."@,
            "a reason not naming the policy IRI"@,
        ),
        (
            "a rule's own uid is dropped; the reason cites a list index instead"@,
            "The permission carries uid urn:rule:r-7 and the reason says `permission[0]`. The \
                  substitution is deliberate, but it does mean a rule identifier a policy author chose \
                  never reaches the caller."@,
            "a reason containing r-7"@,
        ),
        (
            "a constraint's own uid is dropped too"@,
            "The constraint carries uid urn:constraint:c-9 and the reason renders the constraint by \
                  its operands instead."@,
            "a reason containing c-9"@,
        ),
        (
            "a policy may use vocabulary its own declared profile never defines"@,
            "The config is the union of two loaded profiles (it declares both `use` and `anonymize`); \
                  the policy declares odrl:profile A, which defines only `use`; and the policy then uses \
                  `anonymize` successfully. Per-policy profile scoping would produce an Error here \
                  instead. A superset can only ever recognize more, never fewer -- a named fail-open."@,
            "Error -- which is what correctly-scoped per-policy profile selection would give"@,
        ),
        (
            "under a closed default, a child inherits a parent's permission it lacks itself"@,
            "`parent` (party-scoped away from this caller, so only reachable through \
                  `inheritFrom`) permits `use`; `child` (addressed to this caller) permits only \
                  `notify` of its own and declares `inheritFrom: [\"parent\"]`. Real inheritance \
                  makes `child` grant `use` too."@,
            "Deny -- which would mean inheritFrom is not resolved"@,
        ),
        (
            "the same policies, minus inheritFrom, miss exactly as a closed default always has"@,
            "The control for inheritfrom-safe-direction-hit: identical policies, `child` \
                  declaring no `inheritFrom` at all. `child`'s own `notify` permission does not \
                  cover `use`, and a closed default never grants vacuously -- the ordinary miss \
                  this contract always had, proving the Allow above comes from real inheritance \
                  rather than from the closed default itself."@,
            "Allow"@,
        ),
        (
            "under the open default, a child with no rules of its own still inherits a prohibition"@,
            "`parent` (party-scoped away, reachable only through inheritFrom) prohibits `use`; \
                  `child` (addressed to this caller) declares neither permissions nor prohibitions \
                  of its own, only `inheritFrom: [\"parent\"]`, under `behaviour: open` -- the \
                  engine's own documented default. Before this addition, an empty child evaded an \
                  inherited prohibition entirely; see inheritfrom-fail-open-control for the exact \
                  vacuous Allow this closes."@,
            "Allow -- which is the fail-open gap this closes"@,
        ),
        (
            "the same child with no inheritFrom is the vacuous Allow this addition closes"@,
            "The control for inheritfrom-fail-open-hit: identical policies, `child` declaring \
                  no `inheritFrom`. With no rule of its own and nothing inherited, `behaviour: \
                  open`'s vacuous-permission reading grants -- exactly the fail-open outcome the hit \
                  probe shows this addition now prevents for a child that names the prohibiting \
                  policy as its parent."@,
            "Deny"@,
        ),
        (
            "a parent and child declaring differing odrl:conflict values void the merged policy"@,
            "`parent` (reachable only through inheritFrom) declares `odrl:conflict: perm` \
                  alongside a permission and a prohibition that both cover `use`; `child` inherits \
                  both rules, declaring no rules of its own and its own `odrl:conflict: prohibit`. \
                  The merge now carries two distinct values over a genuine collision, which \
                  validation rule 4 requires be void -- not resolved by `child`'s own `prohibit` \
                  (which would coincidentally also deny, for the wrong reason) or `parent`'s `perm`."@,
            "any Deny whose reason names a resolved strategy rather than voiding the \
                       policy, or an Allow"@,
        ),
        (
            "the same shape with matching odrl:conflict on both ends is not a divergence"@,
            "The control for inheritfrom-conflict-divergence-hit: identical policies except \
                  `parent` also declares `odrl:conflict: prohibit`, matching `child`'s own. With \
                  nothing to disagree about, the merge resolves as an ordinary single-value \
                  `prohibit` collision always has -- proving the void reason above comes from the \
                  actual divergence, not from inheritance carrying a collision at all."@,
            "the void reason above"@,
        ),
        (
            "a right operand IRI is compared as a literal string"@,
            "It works exactly when the claim IS that IRI."@,
            "Deny"@,
        ),
        (
            "a right operand IRI is never dereferenced to its member values"@,
            "DE is a member of the EU region the right operand names. Resolving that would require \
                  fetching the IRI -- and engine.wasm is instantiated with an EMPTY import object \
                  (engine_bridge::load_engine_instance), so this is structurally impossible for the \
                  artifact this page just loaded, not merely unimplemented."@,
            "Allow -- which would require network access the guest does not have"@,
        ),
        (
            "odrl:rightOperandReference is dropped entirely"@,
            "The spec's own indirect form for exactly this case, injected on the constraint. The \
                  constraint's literal right operand `XX` decides instead, and misses."@,
            "Allow -- which would mean the reference form is read"@,
        ),
    ]
}

/// What the reason of each probe [`other_probes`] writes must contain and must not
/// contain, in order.
pub open spec fn other_reasons() -> Seq<(Seq<Seq<char>>, Seq<Seq<char>>)> {
    seq![
        (seq!["policy 'probe' has no permissions (open default)"@], seq![]),
        (seq![closed_deny_text("use"@)], seq!["open default"@]),
        (seq![closed_deny_text("use"@)], seq![]),
        (seq!["policy 'probe' has no permissions (open default)"@], seq![]),
        (seq![constrained_allow_text("nationality eq DE"@)], seq![]),
        (seq!["permission[0] of policy 'https://example.org/policies/p-42' matched: action 'use': nationality eq DE"@], seq![]),
        (seq!["permission[0] of policy 'https://example.org/policies/p-42' matched: action 'use': nationality eq DE"@], seq!["r-7"@]),
        (seq!["permission[0] of policy 'https://example.org/policies/p-42' matched: action 'use': nationality eq DE"@], seq!["c-9"@]),
        (seq!["permission[0] of policy 'probe' matched: action 'anonymize', unconstrained"@], seq![]),
        (seq!["permission[1] of policy 'child' matched: action 'use', unconstrained"@], seq![]),
        (seq!["no permission of policy 'child' covered and matched requested action 'use' (closed default)"@], seq![]),
        (seq!["prohibition[0] of policy 'child' matched: action 'use', unconstrained"@], seq![]),
        (seq!["policy 'child' has no permissions (open default)"@], seq![]),
        (seq!["policy 'child' is void: permission[0] and prohibition[0] both matched requested \
             action 'use', and odrl:inheritFrom merged more than one distinct odrl:conflict \
             value into this policy (its own declared value is 'prohibit') — Information Model \
             §2.10's validation rule 4 requires the entire policy be void when a merge carries \
             differing conflict values over a genuine collision, rather than resolved by any \
             one of them"@], seq![]),
        (seq!["prohibition[0] of policy 'child' matched: action 'use', unconstrained; \
             odrl:conflict 'prohibit' resolves the conflict with permission[0] in the \
             prohibition's favour"@], seq![]),
        (seq![constrained_allow_text("spatial eq https://example.org/regions/eu"@)], seq![]),
        (seq![closed_deny_text("use"@)], seq![]),
        (seq![closed_deny_text("use"@)], seq![]),
    ]
}

/// The patches of each probe [`other_probes`] writes, in order.
pub open spec fn other_patches() -> Seq<Seq<PatchV>> {
    seq![
        seq![],
        seq![],
        seq![PatchV::SetKey("/config"@, "behaviour"@, JsonV::Str("default"@))],
        seq![PatchV::Remove("/config"@, "behaviour"@)],
        seq![],
        seq![],
        seq![PatchV::SetKey("/policies/0/permissions/0"@, "uid"@, JsonV::Str("urn:rule:r-7"@))],
        seq![PatchV::SetKey("/policies/0/permissions/0/constraints/0"@, "uid"@, JsonV::Str("urn:constraint:c-9"@))],
        seq![PatchV::SetKey("/policies/0"@, "profile"@, JsonV::Str("https://example.org/profiles/A"@))],
        seq![],
        seq![],
        seq![],
        seq![],
        seq![],
        seq![],
        seq![],
        seq![],
        seq![PatchV::SetKey("/policies/0/permissions/0/constraints/0"@, "rightOperandReference"@, ref_json("https://example.org/regions/eu"@))],
    ]
}

/// The request of each probe [`other_probes`] writes, in order.
pub open spec fn other_requests() -> Seq<RequestV> {
    seq![
        empty_permissions_v(Behaviour::Open),
        empty_permissions_v(Behaviour::Closed),
        empty_permissions_v(Behaviour::Closed),
        empty_permissions_v(Behaviour::Closed),
        one_v(atom_v("nationality"@, Operator::Eq, "DE"@), put_all(seq![("nationality"@, ClaimV::Single("DE"@))])),
        uid_request_v(),
        uid_request_v(),
        uid_request_v(),
        RequestV { action: "anonymize"@, config: flat_config_v(seq!["use"@, "anonymize"@]), policies: seq![policy_v("probe"@, seq![rule_v("anonymize"@, seq![])])], ..base_request_v() },
        RequestV { config: isolated_config_v(seq!["use"@, "notify"@], Behaviour::Closed), policies: seq![ isolated_parent_v(seq![rule_v("use"@, seq![])], seq![]), child_addressed_to_caller_v(true, seq![rule_v("notify"@, seq![])], seq![]), ], claims: caller_is_alice_v(), ..base_request_v() },
        RequestV { config: isolated_config_v(seq!["use"@, "notify"@], Behaviour::Closed), policies: seq![ isolated_parent_v(seq![rule_v("use"@, seq![])], seq![]), child_addressed_to_caller_v(false, seq![rule_v("notify"@, seq![])], seq![]), ], claims: caller_is_alice_v(), ..base_request_v() },
        RequestV { config: isolated_config_v(seq!["use"@], Behaviour::Open), policies: seq![ isolated_parent_v(seq![], seq![rule_v("use"@, seq![])]), child_addressed_to_caller_v(true, seq![], seq![]), ], claims: caller_is_alice_v(), ..base_request_v() },
        RequestV { config: isolated_config_v(seq!["use"@], Behaviour::Open), policies: seq![ isolated_parent_v(seq![], seq![rule_v("use"@, seq![])]), child_addressed_to_caller_v(false, seq![], seq![]), ], claims: caller_is_alice_v(), ..base_request_v() },
        RequestV { config: isolated_config_v(seq!["use"@], Behaviour::Open), policies: seq![ PolicyWireV { conflict: ConflictStrategy::Perm, ..isolated_parent_v(seq![rule_v("use"@, seq![])], seq![rule_v("use"@, seq![])]) }, PolicyWireV { conflict: ConflictStrategy::Prohibit, ..child_addressed_to_caller_v(true, seq![], seq![]) }, ], claims: caller_is_alice_v(), ..base_request_v() },
        RequestV { config: isolated_config_v(seq!["use"@], Behaviour::Open), policies: seq![ PolicyWireV { conflict: ConflictStrategy::Prohibit, ..isolated_parent_v(seq![rule_v("use"@, seq![])], seq![rule_v("use"@, seq![])]) }, PolicyWireV { conflict: ConflictStrategy::Prohibit, ..child_addressed_to_caller_v(true, seq![], seq![]) }, ], claims: caller_is_alice_v(), ..base_request_v() },
        one_v( atom_v("spatial"@, Operator::Eq, "https://example.org/regions/eu"@), put_all(seq![("spatial"@, ClaimV::Single("https://example.org/regions/eu"@))]), ),
        one_v( atom_v("spatial"@, Operator::Eq, "https://example.org/regions/eu"@), put_all(seq![("spatial"@, ClaimV::Single("DE"@))]), ),
        one_v(atom_v("spatial"@, Operator::Eq, "XX"@), put_all(seq![("spatial"@, ClaimV::Single("DE"@))])),
    ]
}

/// What the expectation of each probe [`other_probes`] writes says of duties and of
/// the dataset, in order.
pub open spec fn other_extras() -> Seq<(Option<Seq<(Seq<char>, Seq<char>, bool, Option<Seq<char>>)>>, Option<Seq<char>>)> {
    seq![
        (None::<Seq<(Seq<char>, Seq<char>, bool, Option<Seq<char>>)>>, None::<Seq<char>>),
        (None::<Seq<(Seq<char>, Seq<char>, bool, Option<Seq<char>>)>>, None::<Seq<char>>),
        (None::<Seq<(Seq<char>, Seq<char>, bool, Option<Seq<char>>)>>, None::<Seq<char>>),
        (None::<Seq<(Seq<char>, Seq<char>, bool, Option<Seq<char>>)>>, None::<Seq<char>>),
        (None::<Seq<(Seq<char>, Seq<char>, bool, Option<Seq<char>>)>>, None::<Seq<char>>),
        (None::<Seq<(Seq<char>, Seq<char>, bool, Option<Seq<char>>)>>, None::<Seq<char>>),
        (None::<Seq<(Seq<char>, Seq<char>, bool, Option<Seq<char>>)>>, None::<Seq<char>>),
        (None::<Seq<(Seq<char>, Seq<char>, bool, Option<Seq<char>>)>>, None::<Seq<char>>),
        (None::<Seq<(Seq<char>, Seq<char>, bool, Option<Seq<char>>)>>, None::<Seq<char>>),
        (None::<Seq<(Seq<char>, Seq<char>, bool, Option<Seq<char>>)>>, None::<Seq<char>>),
        (None::<Seq<(Seq<char>, Seq<char>, bool, Option<Seq<char>>)>>, None::<Seq<char>>),
        (None::<Seq<(Seq<char>, Seq<char>, bool, Option<Seq<char>>)>>, None::<Seq<char>>),
        (None::<Seq<(Seq<char>, Seq<char>, bool, Option<Seq<char>>)>>, None::<Seq<char>>),
        (None::<Seq<(Seq<char>, Seq<char>, bool, Option<Seq<char>>)>>, None::<Seq<char>>),
        (None::<Seq<(Seq<char>, Seq<char>, bool, Option<Seq<char>>)>>, None::<Seq<char>>),
        (None::<Seq<(Seq<char>, Seq<char>, bool, Option<Seq<char>>)>>, None::<Seq<char>>),
        (None::<Seq<(Seq<char>, Seq<char>, bool, Option<Seq<char>>)>>, None::<Seq<char>>),
        (None::<Seq<(Seq<char>, Seq<char>, bool, Option<Seq<char>>)>>, None::<Seq<char>>),
    ]
}

/// Category 10, other spec material: the open and closed defaults and
/// the behaviour knob, uids never entering a reason, the loaded profiles
/// acting as one union rather than per policy, `odrl:inheritFrom` merging a
/// parent's rules (and voiding a merge that carries differing conflict
/// strategies), and a right operand IRI never being dereferenced.
#[verifier::rlimit(80)]
pub fn other_probes() -> (r: Vec<ProbeSpec>)
    ensures
        heads(r@) == other_heads(),
        texts(r@) == other_texts(),
        reasons(r@) == other_reasons(),
        patch_lists(r@) == other_patches(),
        requests(r@) == other_requests(),
        extras(r@) == other_extras(),
{
    let mut probes: Vec<ProbeSpec> = Vec::new();

    probes.push(ProbeSpec {
        id: "beh-open-empty",
        kind: POSITIVE,
        title: "behaviour: open makes an empty permissions list a vacuous Allow",
        asserts: "The engine's own historical, unconditional reading: an Offer with no permissions is the \
                  common harvested-data case, not the exception.",
        falsified_by: "Deny",
        request: empty_permissions(Behaviour::Open),
        patches: vec![],
        expect: coverage::allow("policy 'probe' has no permissions (open default)"),
    });
    assert(request_view(probes@[0].request) =~~= other_requests()[0]);
    assert(expect_extras_view(probes@[0].expect) =~~= other_extras()[0]);

    probes.push(ProbeSpec {
        id: "beh-closed-empty",
        kind: POSITIVE,
        title: "behaviour: closed denies the same empty permissions list",
        asserts: "The Community Group Formal Semantics draft's own default, and the whole point of the \
                  parameter: the identical policy reaches the opposite decision.",
        falsified_by: "Allow -- which would mean the parameter is inert",
        request: empty_permissions(Behaviour::Closed),
        patches: vec![],
        expect: deny(closed_deny("use").as_str()).excluding(&["open default"]),
    });
    assert(request_view(probes@[1].request) =~~= other_requests()[1]);
    assert(expect_extras_view(probes@[1].expect) =~~= other_extras()[1]);

    probes.push(ProbeSpec {
        id: "beh-default-alias",
        kind: POSITIVE,
        title: "the draft's own \"default\" value resolves to closed",
        asserts: "The Formal Semantics draft states plainly that its `default` behaviour IS `closed`, so \
                  this is a synonym rather than a third behaviour -- and it reaches closed's decision.",
        falsified_by: "Allow, or Error",
        request: empty_permissions(Behaviour::Closed),
        patches: vec![Patch::set("/config", "behaviour", jstr("default"))],
        expect: deny(closed_deny("use").as_str()),
    });
    assert(request_view(probes@[2].request) =~~= other_requests()[2]);
    assert(expect_extras_view(probes@[2].expect) =~~= other_extras()[2]);

    probes.push(ProbeSpec {
        id: "beh-absent-defaults-open",
        kind: POSITIVE,
        title: "a request with no behaviour field at all still parses, defaulting to open",
        asserts: "Backwards compatibility with a caller built against the wire contract from before this \
                  parameter existed: the field is REMOVED from the config here, not set.",
        falsified_by: "Error (a required-field parse failure), or Deny (a changed default)",
        request: empty_permissions(Behaviour::Closed),
        patches: vec![Patch::remove("/config", "behaviour")],
        expect: coverage::allow("policy 'probe' has no permissions (open default)"),
    });
    assert(request_view(probes@[3].request) =~~= other_requests()[3]);
    assert(expect_extras_view(probes@[3].expect) =~~= other_extras()[3]);

    probes.push(ProbeSpec {
        id: "beh-closed-with-matching-permission",
        kind: NEGATIVE,
        title: "behaviour: closed changes nothing when a permission actually matches",
        asserts: "Bounds the knob to the one degenerate case it governs: with a real, covering, satisfied \
                  permission, closed and open agree.",
        falsified_by: "Deny -- which would mean the parameter reaches beyond the empty-list case",
        request: one(c("nationality", Operator::Eq, "DE"), claims(vec![("nationality", s("DE"))])),
        patches: vec![],
        expect: allow_constrained("nationality eq DE"),
    });
    assert(request_view(probes@[4].request) =~~= other_requests()[4]);
    assert(expect_extras_view(probes@[4].expect) =~~= other_extras()[4]);


    probes.push(ProbeSpec {
        id: "uid-policy-in-reason",
        kind: POSITIVE,
        title: "a policy's own uid is carried and named in the reason",
        asserts: "The one identifier the engine reports back verbatim.",
        falsified_by: "a reason not naming the policy IRI",
        request: uid_request(),
        patches: vec![],
        expect: coverage::allow(uid_reason()),
    });
    assert(request_view(probes@[5].request) =~~= other_requests()[5]);
    assert(expect_extras_view(probes@[5].expect) =~~= other_extras()[5]);

    probes.push(ProbeSpec {
        id: "uid-rule-index-not-uid",
        kind: NEGATIVE,
        title: "a rule's own uid is dropped; the reason cites a list index instead",
        asserts: "The permission carries uid urn:rule:r-7 and the reason says `permission[0]`. The \
                  substitution is deliberate, but it does mean a rule identifier a policy author chose \
                  never reaches the caller.",
        falsified_by: "a reason containing r-7",
        request: uid_request(),
        patches: vec![Patch::set("/policies/0/permissions/0", "uid", jstr("urn:rule:r-7"))],
        expect: coverage::allow(uid_reason()).excluding(&["r-7"]),
    });
    assert(request_view(probes@[6].request) =~~= other_requests()[6]);
    assert(expect_extras_view(probes@[6].expect) =~~= other_extras()[6]);

    probes.push(ProbeSpec {
        id: "uid-constraint-no-uid",
        kind: NEGATIVE,
        title: "a constraint's own uid is dropped too",
        asserts: "The constraint carries uid urn:constraint:c-9 and the reason renders the constraint by \
                  its operands instead.",
        falsified_by: "a reason containing c-9",
        request: uid_request(),
        patches: vec![Patch::set(
            "/policies/0/permissions/0/constraints/0",
            "uid",
            jstr("urn:constraint:c-9"),
        )],
        expect: coverage::allow(uid_reason()).excluding(&["c-9"]),
    });
    assert(request_view(probes@[7].request) =~~= other_requests()[7]);
    assert(expect_extras_view(probes@[7].expect) =~~= other_extras()[7]);

    probes.push(ProbeSpec {
        id: "profile-union-not-per-policy",
        kind: NEGATIVE,
        title: "a policy may use vocabulary its own declared profile never defines",
        asserts: "The config is the union of two loaded profiles (it declares both `use` and `anonymize`); \
                  the policy declares odrl:profile A, which defines only `use`; and the policy then uses \
                  `anonymize` successfully. Per-policy profile scoping would produce an Error here \
                  instead. A superset can only ever recognize more, never fewer -- a named fail-open.",
        falsified_by: "Error -- which is what correctly-scoped per-policy profile selection would give",
        request: Request {
            action: owned("anonymize"),
            config: flat_config(&["use", "anonymize"]),
            policies: vec![policy("probe", vec![rule("anonymize", vec![])])],
            ..base_request()
        },
        patches: vec![Patch::set("/policies/0", "profile", jstr("https://example.org/profiles/A"))],
        expect: coverage::allow("permission[0] of policy 'probe' matched: action 'anonymize', unconstrained"),
    });
    assert(request_view(probes@[8].request) =~~= other_requests()[8]);
    assert(expect_extras_view(probes@[8].expect) =~~= other_extras()[8]);

    probes.push(ProbeSpec {
        id: "inheritfrom-safe-direction-hit",
        kind: POSITIVE,
        title: "under a closed default, a child inherits a parent's permission it lacks itself",
        asserts: "`parent` (party-scoped away from this caller, so only reachable through \
                  `inheritFrom`) permits `use`; `child` (addressed to this caller) permits only \
                  `notify` of its own and declares `inheritFrom: [\"parent\"]`. Real inheritance \
                  makes `child` grant `use` too.",
        falsified_by: "Deny -- which would mean inheritFrom is not resolved",
        request: Request {
            config: isolated_config(&["use", "notify"], Behaviour::Closed),
            policies: vec![
                isolated_parent(vec![rule("use", vec![])], vec![]),
                child_addressed_to_caller(true, vec![rule("notify", vec![])], vec![]),
            ],
            claims: caller_is_alice(),
            ..base_request()
        },
        patches: vec![],
        expect: coverage::allow("permission[1] of policy 'child' matched: action 'use', unconstrained"),
    });
    assert(request_view(probes@[9].request) =~~= other_requests()[9]);
    assert(expect_extras_view(probes@[9].expect) =~~= other_extras()[9]);

    probes.push(ProbeSpec {
        id: "inheritfrom-safe-direction-control",
        kind: NEGATIVE,
        title: "the same policies, minus inheritFrom, miss exactly as a closed default always has",
        asserts: "The control for inheritfrom-safe-direction-hit: identical policies, `child` \
                  declaring no `inheritFrom` at all. `child`'s own `notify` permission does not \
                  cover `use`, and a closed default never grants vacuously -- the ordinary miss \
                  this contract always had, proving the Allow above comes from real inheritance \
                  rather than from the closed default itself.",
        falsified_by: "Allow",
        request: Request {
            config: isolated_config(&["use", "notify"], Behaviour::Closed),
            policies: vec![
                isolated_parent(vec![rule("use", vec![])], vec![]),
                child_addressed_to_caller(false, vec![rule("notify", vec![])], vec![]),
            ],
            claims: caller_is_alice(),
            ..base_request()
        },
        patches: vec![],
        expect: deny("no permission of policy 'child' covered and matched requested action 'use' (closed default)"),
    });
    assert(request_view(probes@[10].request) =~~= other_requests()[10]);
    assert(expect_extras_view(probes@[10].expect) =~~= other_extras()[10]);

    // The fail-open direction specifically: `child` declares no rule of
    // its own at all, under `behaviour: open`'s documented vacuous-grant
    // reading for an *empty* permissions list. This is the exact shape a
    // real caller most naturally writes for "child adds nothing, inherits
    // everything" -- and, with `inheritFrom` left unresolved, it would make
    // an engine grant an action `parent` explicitly prohibited.
    probes.push(ProbeSpec {
        id: "inheritfrom-fail-open-hit",
        kind: POSITIVE,
        title: "under the open default, a child with no rules of its own still inherits a prohibition",
        asserts: "`parent` (party-scoped away, reachable only through inheritFrom) prohibits `use`; \
                  `child` (addressed to this caller) declares neither permissions nor prohibitions \
                  of its own, only `inheritFrom: [\"parent\"]`, under `behaviour: open` -- the \
                  engine's own documented default. Before this addition, an empty child evaded an \
                  inherited prohibition entirely; see inheritfrom-fail-open-control for the exact \
                  vacuous Allow this closes.",
        falsified_by: "Allow -- which is the fail-open gap this closes",
        request: Request {
            config: isolated_config(&["use"], Behaviour::Open),
            policies: vec![
                isolated_parent(vec![], vec![rule("use", vec![])]),
                child_addressed_to_caller(true, vec![], vec![]),
            ],
            claims: caller_is_alice(),
            ..base_request()
        },
        patches: vec![],
        expect: deny("prohibition[0] of policy 'child' matched: action 'use', unconstrained"),
    });
    assert(request_view(probes@[11].request) =~~= other_requests()[11]);
    assert(expect_extras_view(probes@[11].expect) =~~= other_extras()[11]);

    probes.push(ProbeSpec {
        id: "inheritfrom-fail-open-control",
        kind: NEGATIVE,
        title: "the same child with no inheritFrom is the vacuous Allow this addition closes",
        asserts: "The control for inheritfrom-fail-open-hit: identical policies, `child` declaring \
                  no `inheritFrom`. With no rule of its own and nothing inherited, `behaviour: \
                  open`'s vacuous-permission reading grants -- exactly the fail-open outcome the hit \
                  probe shows this addition now prevents for a child that names the prohibiting \
                  policy as its parent.",
        falsified_by: "Deny",
        request: Request {
            config: isolated_config(&["use"], Behaviour::Open),
            policies: vec![
                isolated_parent(vec![], vec![rule("use", vec![])]),
                child_addressed_to_caller(false, vec![], vec![]),
            ],
            claims: caller_is_alice(),
            ..base_request()
        },
        patches: vec![],
        expect: coverage::allow("policy 'child' has no permissions (open default)"),
    });
    assert(request_view(probes@[12].request) =~~= other_requests()[12]);
    assert(expect_extras_view(probes@[12].expect) =~~= other_extras()[12]);

    // Information Model §2.10, validation rule 4: once inheritance itself
    // produces a merge, a parent and child that declared *differing*
    // `odrl:conflict` values over a genuine collision must void the whole
    // policy, not resolve it by either value alone. `parent` is isolated
    // exactly as the two pairs above -- reachable only through
    // `inheritFrom` -- so what `evaluate_request` decides on is `child`
    // alone, and the reason names it.
    probes.push(ProbeSpec {
        id: "inheritfrom-conflict-divergence-hit",
        kind: POSITIVE,
        title: "a parent and child declaring differing odrl:conflict values void the merged policy",
        asserts: "`parent` (reachable only through inheritFrom) declares `odrl:conflict: perm` \
                  alongside a permission and a prohibition that both cover `use`; `child` inherits \
                  both rules, declaring no rules of its own and its own `odrl:conflict: prohibit`. \
                  The merge now carries two distinct values over a genuine collision, which \
                  validation rule 4 requires be void -- not resolved by `child`'s own `prohibit` \
                  (which would coincidentally also deny, for the wrong reason) or `parent`'s `perm`.",
        falsified_by: "any Deny whose reason names a resolved strategy rather than voiding the \
                       policy, or an Allow",
        request: Request {
            config: isolated_config(&["use"], Behaviour::Open),
            policies: vec![
                WirePolicy {
                    conflict: ConflictStrategy::Perm,
                    ..isolated_parent(vec![rule("use", vec![])], vec![rule("use", vec![])])
                },
                WirePolicy {
                    conflict: ConflictStrategy::Prohibit,
                    ..child_addressed_to_caller(true, vec![], vec![])
                },
            ],
            claims: caller_is_alice(),
            ..base_request()
        },
        patches: vec![],
        expect: deny(
            "policy 'child' is void: permission[0] and prohibition[0] both matched requested \
             action 'use', and odrl:inheritFrom merged more than one distinct odrl:conflict \
             value into this policy (its own declared value is 'prohibit') — Information Model \
             §2.10's validation rule 4 requires the entire policy be void when a merge carries \
             differing conflict values over a genuine collision, rather than resolved by any \
             one of them",
        ),
    });
    assert(request_view(probes@[13].request) =~~= other_requests()[13]);
    assert(expect_extras_view(probes@[13].expect) =~~= other_extras()[13]);

    probes.push(ProbeSpec {
        id: "inheritfrom-conflict-divergence-control",
        kind: NEGATIVE,
        title: "the same shape with matching odrl:conflict on both ends is not a divergence",
        asserts: "The control for inheritfrom-conflict-divergence-hit: identical policies except \
                  `parent` also declares `odrl:conflict: prohibit`, matching `child`'s own. With \
                  nothing to disagree about, the merge resolves as an ordinary single-value \
                  `prohibit` collision always has -- proving the void reason above comes from the \
                  actual divergence, not from inheritance carrying a collision at all.",
        falsified_by: "the void reason above",
        request: Request {
            config: isolated_config(&["use"], Behaviour::Open),
            policies: vec![
                WirePolicy {
                    conflict: ConflictStrategy::Prohibit,
                    ..isolated_parent(vec![rule("use", vec![])], vec![rule("use", vec![])])
                },
                WirePolicy {
                    conflict: ConflictStrategy::Prohibit,
                    ..child_addressed_to_caller(true, vec![], vec![])
                },
            ],
            claims: caller_is_alice(),
            ..base_request()
        },
        patches: vec![],
        expect: deny(
            "prohibition[0] of policy 'child' matched: action 'use', unconstrained; \
             odrl:conflict 'prohibit' resolves the conflict with permission[0] in the \
             prohibition's favour",
        ),
    });
    assert(request_view(probes@[14].request) =~~= other_requests()[14]);
    assert(expect_extras_view(probes@[14].expect) =~~= other_extras()[14]);

    probes.push(ProbeSpec {
        id: "ror-literal-eq",
        kind: POSITIVE,
        title: "a right operand IRI is compared as a literal string",
        asserts: "It works exactly when the claim IS that IRI.",
        falsified_by: "Deny",
        request: one(
            c("spatial", Operator::Eq, "https://example.org/regions/eu"),
            claims(vec![("spatial", s("https://example.org/regions/eu"))]),
        ),
        patches: vec![],
        expect: allow_constrained("spatial eq https://example.org/regions/eu"),
    });
    assert(request_view(probes@[15].request) =~~= other_requests()[15]);
    assert(expect_extras_view(probes@[15].expect) =~~= other_extras()[15]);

    probes.push(ProbeSpec {
        id: "ror-not-dereferenced",
        kind: NEGATIVE,
        title: "a right operand IRI is never dereferenced to its member values",
        asserts: "DE is a member of the EU region the right operand names. Resolving that would require \
                  fetching the IRI -- and engine.wasm is instantiated with an EMPTY import object \
                  (engine_bridge::load_engine_instance), so this is structurally impossible for the \
                  artifact this page just loaded, not merely unimplemented.",
        falsified_by: "Allow -- which would require network access the guest does not have",
        request: one(
            c("spatial", Operator::Eq, "https://example.org/regions/eu"),
            claims(vec![("spatial", s("DE"))]),
        ),
        patches: vec![],
        expect: deny(closed_deny("use").as_str()),
    });
    assert(request_view(probes@[16].request) =~~= other_requests()[16]);
    assert(expect_extras_view(probes@[16].expect) =~~= other_extras()[16]);

    probes.push(ProbeSpec {
        id: "ror-reference-key-ignored",
        kind: NEGATIVE,
        title: "odrl:rightOperandReference is dropped entirely",
        asserts: "The spec's own indirect form for exactly this case, injected on the constraint. The \
                  constraint's literal right operand `XX` decides instead, and misses.",
        falsified_by: "Allow -- which would mean the reference form is read",
        request: one(c("spatial", Operator::Eq, "XX"), claims(vec![("spatial", s("DE"))])),
        patches: vec![Patch::set(
            "/policies/0/permissions/0/constraints/0",
            "rightOperandReference",
            jref("https://example.org/regions/eu"),
        )],
        expect: deny(closed_deny("use").as_str()),
    });
    assert(request_view(probes@[17].request) =~~= other_requests()[17]);
    assert(expect_extras_view(probes@[17].expect) =~~= other_extras()[17]);

        assert(heads(probes@) =~= other_heads());
        assert(texts(probes@) =~= other_texts());
        assert(reasons(probes@) =~~= other_reasons());
        assert(patch_lists(probes@) =~~= other_patches());
        assert(requests(probes@) =~= other_requests());
        assert(extras(probes@) =~= other_extras());
    probes
}

} // verus!
