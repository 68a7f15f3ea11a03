use ds_odrl_adapters::rdf_case::{
    compare_case, report_string, ActivationState, AttemptState, CaseResponse, DeonticState, DetailedEvaluation,
    DetailedPolicyReport, DetailedRuleReport, DutyAttachment, DutyEntry, DutyStateReport, PerformanceState,
    RuleStateReport, SkippedPolicy,
};
use ds_odrl_adapters::rdf_expected::{ExpectedPolicyReport, ExpectedRuleKind, ExpectedRuleReport};
use ds_odrl_adapters::rdf_ids::{PolicyIds, RuleIds};
use ds_odrl_adapters::wire::{Behaviour, DutyMode, WireDecision};

fn rule(id: &str) -> RuleIds {
    RuleIds { rule_id: id.to_string(), action: "read".to_string(), duty: vec![], remedy: vec![], consequence: None }
}

fn ids(policy_id: &str, perms: &[&str], prohs: &[&str]) -> PolicyIds {
    PolicyIds {
        id: policy_id.to_string(),
        permissions: perms.iter().map(|p| rule(p)).collect(),
        prohibitions: prohs.iter().map(|p| rule(p)).collect(),
        obligations: vec![],
        inherit_from: None,
    }
}

fn state(rule_index: usize, active: bool, performed: PerformanceState, deontic: DeonticState) -> RuleStateReport {
    RuleStateReport {
        rule_index,
        activation_state: if active { ActivationState::Active } else { ActivationState::Inactive },
        attempt_state: AttemptState::Attempted,
        performance_state: performed,
        deontic_state: deontic,
    }
}

fn permission(rule_index: usize, active: bool) -> DetailedRuleReport {
    DetailedRuleReport::Permission(state(
        rule_index,
        active,
        if active { PerformanceState::Performed } else { PerformanceState::Unperformed },
        if active { DeonticState::Fulfilled } else { DeonticState::NonSet },
    ))
}

fn prohibition(rule_index: usize, active: bool) -> DetailedRuleReport {
    DetailedRuleReport::Prohibition(state(
        rule_index,
        active,
        if active { PerformanceState::Performed } else { PerformanceState::Unknown },
        if active { DeonticState::Violated } else { DeonticState::NonSet },
    ))
}

fn policy_report(policy_id: &str, rule_reports: Vec<DetailedRuleReport>) -> DetailedPolicyReport {
    DetailedPolicyReport { policy_id: policy_id.to_string(), evaluation_error: None, rule_reports }
}

fn evaluation(policy_reports: Vec<DetailedPolicyReport>) -> DetailedEvaluation {
    DetailedEvaluation { policy_reports, skipped_policies: vec![] }
}

fn response(decision: WireDecision) -> CaseResponse {
    CaseResponse { decision, duties: vec![] }
}

fn expected(policy_id: &str, kind: ExpectedRuleKind, rule: &str, activation: &str) -> ExpectedPolicyReport {
    ExpectedPolicyReport {
        policy_id: policy_id.to_string(),
        rule_reports: vec![ExpectedRuleReport {
            kind,
            rule: rule.to_string(),
            activation_state: Some(activation.to_string()),
            attempt_state: None,
            performance_state: None,
            deontic_state: None,
        }],
    }
}

#[test]
fn an_expected_active_permission_beside_a_coarse_deny_is_a_mismatch() {
    let shadow = [ids("policy-a", &["perm"], &[])];
    let exp = [expected("policy-a", ExpectedRuleKind::Permission, "perm", "Active")];
    let detailed = evaluation(vec![policy_report("policy-a", vec![permission(0, true)])]);

    let ok = compare_case(&shadow, &exp, DutyMode::Advise, Behaviour::Closed, &detailed, &response(WireDecision::Allow))
        .unwrap();
    assert!(ok.is_empty(), "{ok:?}");

    let bad = compare_case(&shadow, &exp, DutyMode::Advise, Behaviour::Closed, &detailed, &response(WireDecision::Deny))
        .unwrap();
    assert!(bad.iter().any(|m| m.contains("Response.decision")), "{bad:?}");
}

#[test]
fn an_expected_active_prohibition_beside_a_coarse_allow_is_a_mismatch() {
    let shadow = [ids("policy-a", &[], &["proh"])];
    let exp = [expected("policy-a", ExpectedRuleKind::Prohibition, "proh", "Active")];
    let detailed = evaluation(vec![policy_report("policy-a", vec![prohibition(0, true)])]);

    let bad = compare_case(&shadow, &exp, DutyMode::Advise, Behaviour::Open, &detailed, &response(WireDecision::Allow))
        .unwrap();
    assert!(bad.iter().any(|m| m.contains("Response.decision")), "{bad:?}");
}

#[test]
fn under_duty_mode_deny_no_active_permission_means_the_request_must_be_denied() {
    let shadow = [ids("policy-a", &["perm"], &[])];
    let exp = [expected("policy-a", ExpectedRuleKind::Permission, "perm", "Inactive")];
    let detailed = evaluation(vec![policy_report("policy-a", vec![permission(0, false)])]);

    let bad = compare_case(&shadow, &exp, DutyMode::Deny, Behaviour::Closed, &detailed, &response(WireDecision::Allow))
        .unwrap();
    assert!(bad.iter().any(|m| m.contains("Response.decision")), "{bad:?}");

    let indeterminate =
        compare_case(&shadow, &exp, DutyMode::Advise, Behaviour::Closed, &detailed, &response(WireDecision::Allow))
            .unwrap();
    assert!(indeterminate.is_empty(), "{indeterminate:?}");
}

#[test]
fn an_evaluated_policy_the_expected_tree_never_mentions_is_a_mismatch() {
    let shadow = [ids("policy-a", &["perm"], &[]), ids("policy-b", &[], &["proh"])];
    let exp = [expected("policy-a", ExpectedRuleKind::Permission, "perm", "Active")];
    let detailed = evaluation(vec![
        policy_report("policy-a", vec![permission(0, true)]),
        policy_report("policy-b", vec![prohibition(0, true)]),
    ]);

    let bad = compare_case(&shadow, &exp, DutyMode::Advise, Behaviour::Closed, &detailed, &response(WireDecision::Deny))
        .unwrap();
    assert!(bad.iter().any(|m| m.contains("policy-b")), "{bad:?}");
}

#[test]
fn every_mismatch_of_a_case_is_reported_in_order_with_its_exact_text() {
    let shadow = [ids("policy-a", &["perm"], &[])];
    let exp = [expected("policy-a", ExpectedRuleKind::Permission, "perm", "Active")];
    let detailed = DetailedEvaluation {
        policy_reports: vec![policy_report("policy-a", vec![permission(0, false), prohibition(3, true)])],
        skipped_policies: vec![SkippedPolicy { policy_id: "policy-c".to_string(), reason: "addressed to bob".to_string() }],
    };
    let resp = CaseResponse {
        decision: WireDecision::Deny,
        duties: vec![DutyEntry { policy_id: "policy-a".to_string(), action: "notify".to_string() }],
    };
    let ms = compare_case(&shadow, &exp, DutyMode::Advise, Behaviour::Closed, &detailed, &resp).unwrap();
    assert_eq!(
        ms,
        vec![
            "policy 'policy-a': engine produced a rule report this translator's own PolicyIds shadow could not resolve \
             back to an RDF rule id -- translator bug: Prohibition(RuleStateReport { rule_index: 3, activation_state: \
             Active, attempt_state: Attempted, performance_state: Performed, deontic_state: Violated })"
                .to_string(),
            "policy 'policy-a' rule 'perm': report:activationState expected 'Active' but engine produced 'Inactive'"
                .to_string(),
            "the engine skipped policy 'policy-c' before evaluating it (addressed to bob) -- the report: vocabulary has \
             no term for a policy addressed to somebody else, so this fixture cannot be stating what it means to state"
                .to_string(),
            "Response.duties cross-check: expected outstanding (policy_id, action) pairs [] but Response.duties \
             actually contains [(\"policy-a\", \"notify\")] -- every report:DutyReport that is Active+Unperformed in \
             the expected tree must appear in the coarse Response.duties list, and nothing else should"
                .to_string(),
        ]
    );
}

#[test]
fn a_policy_whose_inheritance_does_not_resolve_is_an_error_naming_it() {
    let shadow = [ids("policy-a", &["perm"], &[])];
    let exp = [expected("policy-z", ExpectedRuleKind::Permission, "perm", "Active")];
    let detailed = evaluation(vec![]);
    let r = compare_case(&shadow, &exp, DutyMode::Advise, Behaviour::Closed, &detailed, &response(WireDecision::Allow));
    assert_eq!(r, Err("policy-z: no policy 'policy-z' in this request's dsc:policy list".to_string()));
}

#[test]
fn a_decision_mismatch_lists_the_per_policy_verdicts() {
    let shadow = [ids("policy-a", &["perm"], &[])];
    let exp = [expected("policy-a", ExpectedRuleKind::Permission, "perm", "Active")];
    let detailed = evaluation(vec![policy_report("policy-a", vec![permission(0, true)])]);
    let ms = compare_case(&shadow, &exp, DutyMode::Advise, Behaviour::Closed, &detailed, &response(WireDecision::Deny))
        .unwrap();
    assert_eq!(
        ms,
        vec!["Response.decision cross-check: the expected report: tree implies Allow (per-policy verdicts [Allow]) \
              but the engine's coarse Response.decision is Deny -- the detailed and coarse paths disagree, or the \
              fixture's tree is wrong about which rules are Active"
            .to_string()]
    );
}

#[test]
fn a_duty_report_renders_its_attachment_and_depth() {
    let d = DetailedRuleReport::Duty(DutyStateReport {
        attachment: DutyAttachment::PermissionDuty { rule_index: 1 },
        duty_index: 0,
        consequence_depth: 2,
        activation_state: ActivationState::Active,
        performance_state: PerformanceState::Unperformed,
        deontic_state: DeonticState::NonSet,
    });
    assert_eq!(
        report_string(d),
        "Duty(DutyStateReport { attachment: PermissionDuty { rule_index: 1 }, duty_index: 0, consequence_depth: 2, \
         activation_state: Active, performance_state: Unperformed, deontic_state: NonSet })"
    );
}
