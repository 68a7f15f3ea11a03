use ds_odrl_adapters::catalog::probes;
use ds_odrl_adapters::json::Json;
use ds_odrl_adapters::patch::Patch;
use ds_odrl_adapters::probe::{
    action, action_in, base_request, build, claims, flat_config, jstr, m, s, taxonomy_config, ProbeSpec,
    NEGATIVE, POSITIVE,
};
use ds_odrl_adapters::coverage::deny;
use ds_odrl_adapters::wire::{Behaviour, ClaimValue, DutyMode, WireActionDecl};

fn taxonomy() -> Vec<WireActionDecl> {
    vec![
        action("use"),
        action("transfer"),
        action_in("play", "use"),
        action_in("display", "play"),
        action_in("reproduce", "use"),
        action_in("extract", "reproduce"),
        action_in("sell", "transfer"),
    ]
}

fn find<'a>(all: &'a [ProbeSpec], id: &str) -> &'a ProbeSpec {
    all.iter().find(|p| p.id == id).unwrap_or_else(|| panic!("no probe {id}"))
}

#[test]
fn every_probe_spec_carries_a_kind_a_title_and_a_falsifier() {
    for probe in probes(&taxonomy()) {
        assert!(probe.kind == POSITIVE || probe.kind == NEGATIVE, "{}: kind {}", probe.id, probe.kind);
        assert!(!probe.title.is_empty(), "{}: empty title", probe.id);
        assert!(!probe.asserts.is_empty(), "{}: empty asserts", probe.id);
        assert!(!probe.falsified_by.is_empty(), "{}: empty falsified_by", probe.id);
    }
}

#[test]
fn the_catalog_holds_one_hundred_and_thirty_one_probes_starting_from_the_baseline() {
    let all = probes(&taxonomy());
    assert_eq!(all.len(), 131);
    assert_eq!(all[0].id, "act-base-exact");
    assert_eq!(all[130].id, "ror-reference-key-ignored");
}

/// Every positive/negative pair the catalog leans on must expect opposite
/// decisions.
#[test]
fn each_named_hit_miss_pair_reaches_opposite_decisions() {
    let all = probes(&taxonomy());
    let decision_of = |id: &str| find(&all, id).expect.decision.clone();

    for (hit, miss) in [
        ("lo-extension-hit", "lo-extension-miss"),
        ("lo-datetime-hit", "lo-datetime-miss"),
        ("lo-count-hit", "lo-count-miss"),
        ("lo-duration-metering-example", "lo-duration-malformed-miss"),
        ("lo-coordinates-string-eq", "lo-coordinates-no-geometry"),
        ("lo-spatial-flat-hit", "lo-spatial-no-containment"),
        ("op-eq-multi-membership", "op-eq-no-concat"),
        ("op-neq-hit", "op-neq-absent-miss"),
        ("op-isanyof-hit", "op-isanyof-miss"),
        ("op-isanyof-comma-control", "op-isanyof-comma-unescapable"),
        ("op-isallof-hit", "op-isallof-miss"),
        ("op-isnoneof-hit", "op-isnoneof-miss"),
        ("op-isnoneof-absent-satisfies", "op-neq-absent-miss"),
        ("op-ispartof-hit", "op-ispartof-no-hierarchy"),
        ("op-gteq-numeric-boundary", "op-gt-numeric-boundary"),
        ("op-isa-control-eq", "op-isa-unparseable"),
        ("lc-and-both", "lc-and-one-false"),
        ("lc-and-empty-vacuous", "lc-or-empty-never"),
        ("lc-or-second", "lc-or-none"),
        ("lc-xone-exactly-one", "lc-xone-zero"),
        ("lc-or-two-allows-control", "lc-xone-two-denies"),
        ("lc-and-control-honored", "lc-andsequence-ignored"),
        ("act-includedin-1hop", "act-implies-ignored"),
        ("act-includedin-2hop", "act-includedin-undeclared-gap"),
        ("beh-open-empty", "beh-closed-empty"),
        ("inheritfrom-safe-direction-hit", "inheritfrom-safe-direction-control"),
        ("inheritfrom-fail-open-control", "inheritfrom-fail-open-hit"),
        ("ror-literal-eq", "ror-not-dereferenced"),
        ("asset-per-rule-target-hit", "asset-per-rule-target-miss"),
        ("asset-collection-membership-hit", "asset-target-not-a-collection"),
        ("asset-collection-membership-hit", "asset-collection-membership-wrong-collection-miss"),
        ("pf-assignee-scoped-hit", "pf-assignee-scoped-miss"),
        ("conflict-perm-allows", "conflict-default-invalid-voids"),
        ("conflict-perm-allows", "conflict-prohibit-denies"),
    ] {
        assert_ne!(
            decision_of(hit),
            decision_of(miss),
            "the pair {hit} / {miss} must reach opposite decisions, or it proves nothing"
        );
    }
}

/// The inert-property probes are only meaningful against a control that
/// expects the identical answer.
#[test]
fn each_named_inert_property_probe_matches_its_control_exactly() {
    let all = probes(&taxonomy());
    let expect_of = |id: &str| {
        let probe = find(&all, id);
        (probe.expect.decision.clone(), probe.expect.reason_contains.clone())
    };

    for (injected, control) in [
        ("duty-profile-rule-class-inert", "act-base-exact"),
        ("asset-output-ignored", "act-base-exact"),
        ("pf-assignerof-inert", "pf-assignee-null-control"),
        ("pf-common-functions-inert", "pf-assignee-null-control"),
        ("pf-assignee-mismatch", "pf-assignee-null-control"),
        ("pc-kind-agreement-ignores-assignee", "pc-kind-set"),
        ("pc-kind-nonsense", "pc-kind-set"),
        ("pc-kind-profile-subclass", "pc-kind-nonsense"),
        ("conflict-invalid-declared-explicitly", "conflict-default-invalid-voids"),
        ("conflict-no-collision-inert", "act-base-exact"),
        ("lo-unitofcount-volume", "lo-unitofcount-page"),
    ] {
        assert_eq!(
            expect_of(injected),
            expect_of(control),
            "{injected} must expect exactly what its control {control} expects"
        );
    }
}

fn object(members: Vec<(&str, Json)>) -> Json {
    Json::Object(members.into_iter().map(|(k, v)| (k.to_string(), v)).collect())
}

/// A stand-in for the serialized base request: just enough structure for
/// the patches below to resolve.
fn serialized_base() -> Json {
    object(vec![
        ("action", jstr("use")),
        ("config", object(vec![("behaviour", jstr("closed"))])),
        (
            "policies",
            Json::Array(vec![object(vec![("id", jstr("probe")), ("permissions", Json::Array(vec![]))])]),
        ),
    ])
}

fn spec_with(id: &'static str, patches: Vec<Patch>) -> ProbeSpec {
    ProbeSpec {
        id,
        kind: NEGATIVE,
        title: "t",
        asserts: "a",
        falsified_by: "f",
        request: base_request(),
        patches,
        expect: deny("x"),
    }
}

#[test]
fn a_patch_whose_pointer_does_not_resolve_fails_naming_the_probe() {
    let err = build(spec_with("deliberately-broken", vec![Patch::set("/policies/9", "conflict", jstr("perm"))]), serialized_base())
        .err()
        .expect("a patch that does not land must fail generation");
    assert!(err.starts_with("probe `deliberately-broken`: "), "{err}");
}

#[test]
fn build_applies_every_patch_to_the_serialized_request() {
    let probe = build(
        spec_with("p", vec![Patch::set("/policies/0", "odrl:conflict", jstr("invalid")), Patch::set("/config", "behaviour", jstr("default"))]),
        serialized_base(),
    )
    .unwrap();
    let expected = object(vec![
        ("action", jstr("use")),
        ("config", object(vec![("behaviour", jstr("default"))])),
        (
            "policies",
            Json::Array(vec![object(vec![
                ("id", jstr("probe")),
                ("odrl:conflict", jstr("invalid")),
                ("permissions", Json::Array(vec![])),
            ])]),
        ),
    ]);
    assert_eq!(probe.request, expected);
    assert_eq!(probe.id, "p");
    assert_eq!(probe.title, "t");
}

#[test]
fn a_later_claim_for_the_same_key_replaces_the_earlier_value() {
    let c = claims(vec![("sub", s("alice")), ("scope", m(&["read", "write"])), ("sub", s("bob"))]);
    assert_eq!(c.entries.len(), 2);
    assert_eq!(c.entries[0].0, "sub");
    assert_eq!(c.entries[0].1, ClaimValue::Single("bob".to_string()));
    assert_eq!(c.entries[1].1, ClaimValue::Multi(vec!["read".to_string(), "write".to_string()]));
}

#[test]
fn the_base_request_grants_use_under_a_closed_configuration() {
    let r = base_request();
    assert_eq!(r.dataset_id, "urn:uuid:coverage-probe");
    assert_eq!(r.action, "use");
    assert_eq!(r.config.behaviour, Behaviour::Closed);
    assert_eq!(r.config.duty_mode, DutyMode::Advise);
    assert_eq!(r.policies.len(), 1);
    assert_eq!(r.policies[0].id, "probe");
    assert_eq!(r.policies[0].kind, "Set");
    assert_eq!(r.policies[0].permissions[0].action, "use");
    assert!(r.claims.entries.is_empty());
}

#[test]
fn flat_config_declares_each_action_as_a_root() {
    let c = flat_config(&["use", "notify"]);
    assert_eq!(c.actions.len(), 2);
    assert_eq!(c.actions[1].id, "notify");
    assert!(c.actions[1].included_in.is_none());
    assert_eq!(c.id, "https://ds42.org/profiles/coverage-probe");
}

#[test]
fn the_taxonomy_config_carries_every_action_and_a_closed_behaviour() {
    let t = taxonomy();
    let config = taxonomy_config(&t);
    assert_eq!(config.actions.len(), t.len());
    assert_eq!(config.behaviour, Behaviour::Closed);
    assert_eq!(config.id, "https://www.w3.org/TR/odrl-vocab/");
    assert_eq!(config.actions[3].included_in.as_ref().map(|p| p.id.as_str()), Some("play"));
}

#[test]
fn generating_the_whole_catalog_twice_produces_identical_probes() {
    let first = probes(&taxonomy());
    let second = probes(&taxonomy());
    assert_eq!(first.len(), second.len());
    for (a, b) in first.iter().zip(second.iter()) {
        assert_eq!(a.id, b.id);
        assert_eq!(a.request, b.request, "probe {} is not stable", a.id);
        assert_eq!(a.patches, b.patches, "probe {} is not stable", a.id);
    }
}

#[test]
fn the_two_empty_policy_behaviour_probes_differ_only_in_behaviour() {
    let all = probes(&taxonomy());
    let open = find(&all, "beh-open-empty");
    let closed = find(&all, "beh-closed-empty");
    assert_eq!(open.request.config.behaviour, Behaviour::Open);
    assert_eq!(closed.request.config.behaviour, Behaviour::Closed);
    assert!(open.request.policies[0].permissions.is_empty());
    assert!(closed.request.policies[0].permissions.is_empty());
}

#[test]
fn every_probes_request_carries_the_probe_dataset_and_a_configuration() {
    for p in probes(&taxonomy()) {
        assert!(!p.request.dataset_id.is_empty(), "{}: request has no dataset_id", p.id);
        assert!(!p.request.action.is_empty(), "{}: request has no action", p.id);
        assert!(!p.request.config.actions.is_empty(), "{}: request declares no action", p.id);
    }
}
