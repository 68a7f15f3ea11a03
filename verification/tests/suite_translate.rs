use ds_odrl_adapters::rdf::Graph;
use ds_odrl_adapters::suite_dnf::to_dnf;
use ds_odrl_adapters::suite_odrl::{ConstraintForm, PartyRef, PolicyInfo, RequestInfo, RuleInfo, RuleKind, TargetRef};
use ds_odrl_adapters::suite_translate::{translate, Translation};
use ds_odrl_adapters::suite_truth::expected_decision;
use ds_odrl_adapters::wire::{ClaimValue, Operator, Request, WireDecision};

fn req(assignee: &str, action: &str, target: Option<&str>) -> RequestInfo {
    RequestInfo { assignee: assignee.to_string(), action: action.to_string(), target: target.map(String::from) }
}

fn policy(id: &str, rules: Vec<RuleInfo>) -> PolicyInfo {
    PolicyInfo { id: id.to_string(), rules }
}

fn unconstrained(kind: RuleKind) -> RuleInfo {
    RuleInfo { kind, assignee: None, action: None, target: None, constraint: None, nested_duty: None }
}

fn ready(t: Translation) -> Request {
    match t {
        Translation::Ready(r) => *r,
        Translation::Skip(reason) => panic!("expected a translated request, got skip: {reason}"),
    }
}

fn atom(name: &str) -> ConstraintForm {
    ConstraintForm::Atomic { left_operand: name.into(), operator: "eq".into(), right_operand: "v".into() }
}

fn dnf_shape(form: &ConstraintForm) -> Vec<Vec<String>> {
    to_dnf(form)
        .unwrap()
        .iter()
        .map(|conjunct| conjunct.iter().map(|c| c.left_operand.clone()).collect())
        .collect()
}

fn sotw_with_current_time(iso: &str) -> Graph {
    Graph::parse_str(&format!(
        r#"@prefix dct: <http://purl.org/dc/terms/>.
@prefix temp: <http://example.com/request/>.
@prefix xsd: <http://www.w3.org/2001/XMLSchema#>.
temp:currentTime dct:issued "{iso}"^^xsd:dateTime."#
    ))
    .unwrap()
}

fn sotw_with_membership(member: &str, collection: &str) -> Graph {
    Graph::parse_str(&format!(
        r#"@prefix odrl: <http://www.w3.org/ns/odrl/2/>.
@prefix ex: <http://example.org/>.
ex:{member} odrl:partOf ex:{collection}."#
    ))
    .unwrap()
}

fn sotw_with_duty_state(duty_id: &str, state: &str) -> Graph {
    Graph::parse_str(&format!(
        r#"@prefix report: <https://w3id.org/force/compliance-report#>.
@prefix ex: <http://example.org/>.
ex:report1 a report:DutyReport;
    report:rule <{duty_id}>;
    report:deonticState report:{state}."#
    ))
    .unwrap()
}

#[test]
fn xone_logical_constraint_is_skipped() {
    let rule = RuleInfo {
        kind: RuleKind::Permission,
        assignee: None,
        action: Some("read".to_string()),
        target: None,
        constraint: Some(ConstraintForm::Xone(vec![ConstraintForm::Atomic {
            left_operand: "dateTime".into(),
            operator: "gt".into(),
            right_operand: "2024-01-01T00:00:00Z".into(),
        }])),
        nested_duty: None,
    };
    let p = policy("p14", vec![rule]);
    let r = req("alice", "read", None);
    assert!(matches!(translate(&p, &r, &Graph::empty(), "ds1"), Translation::Skip(_)));
}

#[test]
fn unsupported_operator_is_skipped() {
    let rule = RuleInfo {
        kind: RuleKind::Permission,
        assignee: None,
        action: Some("read".to_string()),
        target: None,
        constraint: Some(ConstraintForm::Atomic {
            left_operand: "count".into(),
            operator: "isPartOf".into(),
            right_operand: "5".into(),
        }),
        nested_duty: None,
    };
    let p = policy("p15", vec![rule]);
    let r = req("alice", "read", None);
    assert!(matches!(translate(&p, &r, &Graph::empty(), "ds1"), Translation::Skip(_)));
}

#[test]
fn to_dnf_distributes_an_and_over_nested_ors() {
    let form = ConstraintForm::And(vec![
        ConstraintForm::Or(vec![atom("a"), atom("b")]),
        ConstraintForm::Or(vec![atom("c"), atom("d")]),
    ]);
    assert_eq!(dnf_shape(&form), vec![vec!["a", "c"], vec!["a", "d"], vec!["b", "c"], vec!["b", "d"]]);
}

#[test]
fn to_dnf_handles_three_levels_of_alternating_nesting() {
    let form = ConstraintForm::Or(vec![
        ConstraintForm::And(vec![atom("a"), ConstraintForm::Or(vec![atom("b"), atom("c")])]),
        atom("d"),
    ]);
    assert_eq!(dnf_shape(&form), vec![vec!["a", "b"], vec!["a", "c"], vec!["d"]]);
}

#[test]
fn to_dnf_of_an_and_of_ands_stays_one_flat_conjunction() {
    let form = ConstraintForm::And(vec![
        ConstraintForm::And(vec![atom("a"), atom("b")]),
        ConstraintForm::And(vec![atom("c"), atom("d")]),
    ]);
    assert_eq!(dnf_shape(&form), vec![vec!["a", "b", "c", "d"]]);
}

#[test]
fn to_dnf_propagates_an_unsupported_operator_from_any_depth() {
    let form = ConstraintForm::Or(vec![
        ConstraintForm::And(vec![
            atom("a"),
            ConstraintForm::Atomic {
                left_operand: "resource".into(),
                operator: "isPartOf".into(),
                right_operand: "set".into(),
            },
        ]),
        atom("d"),
    ]);
    assert!(to_dnf(&form).is_err());
}

#[test]
fn the_xone_skip_reason_names_the_branch_count() {
    let form = ConstraintForm::Xone(vec![atom("a"), atom("b"), atom("c")]);
    let err = to_dnf(&form).unwrap_err();
    assert!(err.starts_with("constraint is an odrl:LogicalConstraint using odrl:xone over 3 branch(es);"), "{err}");
}

#[test]
fn an_unsupported_operator_skip_reason_names_the_operator() {
    let err = to_dnf(&ConstraintForm::Atomic {
        left_operand: "x".into(),
        operator: "isPartOf".into(),
        right_operand: "y".into(),
    })
    .unwrap_err();
    assert!(err.starts_with("constraint operator odrl:isPartOf has no equivalent"), "{err}");
}

#[test]
fn to_dnf_resolves_each_supported_operator() {
    let ops = [("eq", Operator::Eq), ("neq", Operator::Neq), ("lt", Operator::Lt), ("lteq", Operator::Lteq), ("gt", Operator::Gt), ("gteq", Operator::Gteq)];
    for (name, op) in ops {
        let d = to_dnf(&ConstraintForm::Atomic { left_operand: "l".into(), operator: name.into(), right_operand: "r".into() }).unwrap();
        assert_eq!(d.len(), 1);
        assert_eq!(d[0][0].operator, op);
        assert_eq!(d[0][0].right_operand, "r");
    }
}

#[test]
fn unconstrained_rules_take_the_requests_action_and_carry_no_constraint() {
    let p = policy("p1", vec![unconstrained(RuleKind::Permission), unconstrained(RuleKind::Prohibition)]);
    let wire = ready(translate(&p, &req("alice", "read", None), &Graph::empty(), "ds1"));
    assert_eq!(wire.dataset_id, "ds1");
    assert_eq!(wire.action, "read");
    assert_eq!(wire.policies.len(), 1);
    let pol = &wire.policies[0];
    assert_eq!(pol.id, "p1");
    assert_eq!(pol.kind, "Set");
    assert_eq!(pol.permissions.len(), 1);
    assert_eq!(pol.prohibitions.len(), 1);
    assert_eq!(pol.permissions[0].action, "read");
    assert!(pol.permissions[0].constraints.is_empty());
    assert_eq!(wire.config.actions.len(), 8);
    assert_eq!(wire.claims.entries.len(), 1);
    assert_eq!(wire.claims.entries[0].0, "sub");
    assert!(matches!(&wire.claims.entries[0].1, ClaimValue::Single(s) if s == "alice"));
}

#[test]
fn assignee_scoped_permission_omits_the_policy_for_a_non_matching_caller() {
    let rule = RuleInfo {
        kind: RuleKind::Permission,
        assignee: Some(PartyRef::Individual("alice".to_string())),
        action: Some("read".to_string()),
        target: Some(TargetRef::Individual("ds1".to_string())),
        constraint: None,
        nested_duty: None,
    };
    let p = policy("p3", vec![rule]);
    let wire = ready(translate(&p, &req("bob", "read", Some("ds1")), &Graph::empty(), "ds1"));
    assert!(wire.policies.is_empty());
    let alice = ready(translate(&p, &req("alice", "read", Some("ds1")), &Graph::empty(), "ds1"));
    assert_eq!(alice.policies.len(), 1);
    let c = &alice.policies[0].permissions[0].constraints;
    assert_eq!(c.len(), 1);
    assert_eq!(c[0].left_operand, "sub");
    assert_eq!(c[0].right_operand, "alice");
}

#[test]
fn or_logical_constraint_becomes_sibling_rules_and_an_and_one_rule() {
    let window = |a: &str, b: &str| {
        ConstraintForm::And(vec![
            ConstraintForm::Atomic { left_operand: "dateTime".into(), operator: "gteq".into(), right_operand: a.into() },
            ConstraintForm::Atomic { left_operand: "dateTime".into(), operator: "lteq".into(), right_operand: b.into() },
        ])
    };
    let rule = RuleInfo {
        kind: RuleKind::Permission,
        assignee: None,
        action: Some("read".to_string()),
        target: None,
        constraint: Some(ConstraintForm::Or(vec![window("1", "2"), window("3", "4")])),
        nested_duty: None,
    };
    let p = policy("p13", vec![rule]);
    let wire = ready(translate(&p, &req("alice", "read", None), &sotw_with_current_time("2024-01-01T11:00:00Z"), "ds1"));
    let perms = &wire.policies[0].permissions;
    assert_eq!(perms.len(), 2);
    assert_eq!(perms[0].constraints.len(), 2);
    assert_eq!(perms[1].constraints[1].right_operand, "4");
    assert_eq!(wire.claims.entries.len(), 2);
    assert_eq!(wire.claims.entries[1].0, "dateTime");
    assert!(matches!(&wire.claims.entries[1].1, ClaimValue::Single(s) if s == "2024-01-01T11:00:00Z"));
}

#[test]
fn party_collection_assignee_resolves_via_sotw_membership() {
    let rule = RuleInfo {
        kind: RuleKind::Permission,
        assignee: Some(PartyRef::Collection("partyCollection".to_string())),
        action: Some("read".to_string()),
        target: None,
        constraint: None,
        nested_duty: None,
    };
    let p = policy("p16", vec![rule]);
    let sotw = sotw_with_membership("alice", "partyCollection");
    let alice = ready(translate(&p, &req("alice", "read", None), &sotw, "ds1"));
    assert_eq!(alice.policies.len(), 1);
    assert_eq!(alice.policies[0].permissions[0].constraints[0].right_operand, "alice");
    let mallory = ready(translate(&p, &req("mallory", "read", None), &sotw, "ds1"));
    assert!(mallory.policies.is_empty());
}

#[test]
fn asset_collection_target_needs_a_target_to_check_membership() {
    let rule = RuleInfo {
        kind: RuleKind::Permission,
        assignee: None,
        action: Some("read".to_string()),
        target: Some(TargetRef::Collection("assetCollection".to_string())),
        constraint: None,
        nested_duty: None,
    };
    let p = policy("p17", vec![rule]);
    let sotw = sotw_with_membership("ds1", "assetCollection");
    assert_eq!(ready(translate(&p, &req("alice", "read", Some("ds1")), &sotw, "ds1")).policies.len(), 1);
    assert!(ready(translate(&p, &req("alice", "read", None), &sotw, "ds1")).policies.is_empty());
}

#[test]
fn permission_with_a_violated_nested_duty_is_excluded() {
    let rule = || RuleInfo {
        kind: RuleKind::Permission,
        assignee: Some(PartyRef::Individual("alice".to_string())),
        action: Some("read".to_string()),
        target: None,
        constraint: None,
        nested_duty: Some("urn:uuid:duty-1".to_string()),
    };
    let violated = ready(translate(&policy("p18", vec![rule()]), &req("alice", "read", None), &sotw_with_duty_state("urn:uuid:duty-1", "Violated"), "ds1"));
    assert!(violated.policies.is_empty());
    for state in ["Fulfilled", "NonSet"] {
        let kept = ready(translate(&policy("p19", vec![rule()]), &req("alice", "read", None), &sotw_with_duty_state("urn:uuid:duty-1", state), "ds1"));
        assert_eq!(kept.policies.len(), 1, "{state}");
    }
}

#[test]
fn expected_decision_is_deny_overrides_with_a_closed_default() {
    let ttl = |body: &str| {
        Graph::parse_str(&format!(
            r#"@prefix report: <https://w3id.org/force/compliance-report#>.
@prefix ex: <http://example.org/>.
{body}"#
        ))
        .unwrap()
    };
    assert_eq!(expected_decision(&ttl("ex:r1 a report:PermissionReport; report:activationState report:Active.")), WireDecision::Allow);
    assert_eq!(
        expected_decision(&ttl("ex:r1 a report:PermissionReport; report:activationState report:Active.\nex:r2 a report:ProhibitionReport; report:activationState report:Active.")),
        WireDecision::Deny
    );
    assert_eq!(expected_decision(&ttl("ex:r1 a report:PermissionReport; report:activationState report:Inactive.")), WireDecision::Deny);
    assert_eq!(expected_decision(&Graph::empty()), WireDecision::Deny);
}
