use ds_odrl_adapters::rdf_compare::{policy_verdict, PolicyVerdict};
use ds_odrl_adapters::rdf_expected::{ExpectedPolicyReport, ExpectedRuleKind, ExpectedRuleReport};
use ds_odrl_adapters::rdf_ids::{PolicyIds, RuleIds};
use ds_odrl_adapters::wire::{Behaviour, DutyMode};

fn rule(id: &str) -> RuleIds {
    RuleIds { rule_id: id.to_string(), action: "use".to_string(), duty: vec![], remedy: vec![], consequence: None }
}

fn ids(permissions: Vec<RuleIds>, obligations: Vec<RuleIds>) -> PolicyIds {
    PolicyIds { id: "p".to_string(), permissions, prohibitions: vec![rule("q")], obligations, inherit_from: None }
}

fn report(kind: ExpectedRuleKind, rule: &str, activation: &str, performance: Option<&str>) -> ExpectedRuleReport {
    ExpectedRuleReport {
        kind,
        rule: rule.to_string(),
        activation_state: Some(activation.to_string()),
        attempt_state: None,
        performance_state: performance.map(|p| p.to_string()),
        deontic_state: None,
    }
}

fn tree(reports: Vec<ExpectedRuleReport>) -> ExpectedPolicyReport {
    ExpectedPolicyReport { policy_id: "p".to_string(), rule_reports: reports }
}

#[test]
fn an_active_prohibition_denies_even_beside_an_active_permission() {
    let t = tree(vec![
        report(ExpectedRuleKind::Permission, "a", "Active", None),
        report(ExpectedRuleKind::Prohibition, "q", "Active", None),
    ]);
    assert_eq!(policy_verdict(&ids(vec![rule("a")], vec![]), &t, DutyMode::Advise, Behaviour::Open), PolicyVerdict::Deny);
}

#[test]
fn an_active_permission_allows() {
    let t = tree(vec![report(ExpectedRuleKind::Permission, "a", "Active", None)]);
    assert_eq!(policy_verdict(&ids(vec![rule("a")], vec![]), &t, DutyMode::Deny, Behaviour::Closed), PolicyVerdict::Allow);
}

#[test]
fn without_permissions_the_behaviour_decides() {
    let t = tree(vec![]);
    assert_eq!(policy_verdict(&ids(vec![], vec![]), &t, DutyMode::Advise, Behaviour::Open), PolicyVerdict::Allow);
    assert_eq!(policy_verdict(&ids(vec![], vec![]), &t, DutyMode::Advise, Behaviour::Closed), PolicyVerdict::Deny);
}

#[test]
fn an_inactive_permission_is_left_open_under_advise_and_denied_under_deny() {
    let t = tree(vec![report(ExpectedRuleKind::Permission, "a", "Inactive", None)]);
    assert_eq!(policy_verdict(&ids(vec![rule("a")], vec![]), &t, DutyMode::Advise, Behaviour::Open), PolicyVerdict::Indeterminate);
    assert_eq!(policy_verdict(&ids(vec![rule("a")], vec![]), &t, DutyMode::Deny, Behaviour::Open), PolicyVerdict::Deny);
}

#[test]
fn an_outstanding_obligation_denies_under_deny_mode_only() {
    let t = tree(vec![
        report(ExpectedRuleKind::Permission, "a", "Active", None),
        report(ExpectedRuleKind::Duty, "o", "Active", Some("Unperformed")),
    ]);
    let p = ids(vec![rule("a")], vec![rule("o")]);
    assert_eq!(policy_verdict(&p, &t, DutyMode::Deny, Behaviour::Open), PolicyVerdict::Deny);
    assert_eq!(policy_verdict(&p, &t, DutyMode::Advise, Behaviour::Open), PolicyVerdict::Allow);
}
