use ds_odrl_adapters::suite_cases::{decision_str, fixture_view, FixtureData, CASES_SCHEMA};
use ds_odrl_adapters::wire::{Behaviour, Claims, DutyMode, Request, RequestConfig, WireDecision};

#[test]
fn every_wire_decision_has_a_stable_string_spelling() {
    assert_eq!(decision_str(WireDecision::Allow), "Allow");
    assert_eq!(decision_str(WireDecision::Deny), "Deny");
    assert_eq!(decision_str(WireDecision::Error), "Error");
}

fn a_request() -> Request {
    Request {
        dataset_id: "urn:uuid:dataset-1".to_string(),
        action: "read".to_string(),
        config: RequestConfig {
            type_: "odrl:Profile".to_string(),
            id: "https://ds42.org/profiles/compliance-runner".to_string(),
            actions: vec![],
            duty_mode: DutyMode::Advise,
            behaviour: Behaviour::Closed,
            party_identity_claim: None,
            agreement_assignee_claim: None,
        },
        policies: vec![],
        claims: Claims::new(),
        asset_collections: vec![],
    }
}

#[test]
fn a_ready_fixture_carries_its_request_and_expected_decision_and_no_skip_reason() {
    let data = FixtureData::Ready { request: a_request(), expected: WireDecision::Allow };
    let view = fixture_view("testcase-001-alice", "A title.", &data);
    assert_eq!(view.slug, "testcase-001-alice");
    assert_eq!(view.title, "A title.");
    assert_eq!(view.expected_decision, Some("Allow"));
    assert_eq!(view.request, Some(&a_request()));
    assert_eq!(view.skip_reason, None);
}

#[test]
fn a_skipped_fixture_carries_only_its_reason() {
    let data = FixtureData::Skipped { reason: "odrl:xone is not expressible".to_string() };
    let view = fixture_view("testcase-002", "t", &data);
    assert_eq!(view.skip_reason, Some("odrl:xone is not expressible"));
    assert!(view.request.is_none());
    assert!(view.expected_decision.is_none());
    assert_eq!(CASES_SCHEMA, "ds-odrl-engine-rs/compliance-cases@1");
}
