use ds_odrl_adapters::rdf::Graph;
use ds_odrl_adapters::suite_index::{case_slug, file_stem, parse_index, rewrite_to_local_path, sequence_number, TestCaseEntry};
use ds_odrl_adapters::suite_odrl::{parse_policy, parse_request, ConstraintForm, PartyRef, RuleKind, TargetRef};

const POLICY: &str = r#"@prefix odrl: <http://www.w3.org/ns/odrl/2/>.
@prefix ex: <http://example.org/>.
ex:policy a odrl:Set;
    odrl:permission ex:perm1, ex:perm2;
    odrl:prohibition ex:proh1.
ex:perm1 odrl:assignee ex:alice; odrl:action odrl:read; odrl:target ex:x;
    odrl:constraint ex:c1; odrl:duty ex:duty1.
ex:c1 odrl:leftOperand odrl:purpose; odrl:operator odrl:eq; odrl:rightOperand "research".
ex:perm2 odrl:assignee ex:team; odrl:target ex:shelf; odrl:constraint ex:c2.
ex:team a odrl:PartyCollection.
ex:shelf a odrl:AssetCollection.
ex:c2 a odrl:LogicalConstraint; odrl:or ( ex:c3 ex:c4 ).
ex:c3 odrl:leftOperand odrl:dateTime; odrl:operator odrl:lt; odrl:rightOperand "2025-01-01".
ex:c4 odrl:leftOperand odrl:dateTime; odrl:operator odrl:gt; odrl:rightOperand "2026-01-01".
ex:proh1 odrl:action odrl:distribute."#;

#[test]
fn a_policy_fixture_reads_permissions_then_prohibitions() {
    let g = Graph::parse_str(POLICY).unwrap();
    let p = parse_policy(&g).unwrap();
    assert_eq!(p.id, "http://example.org/policy");
    assert_eq!(p.rules.len(), 3);

    let r = &p.rules[0];
    assert_eq!(r.kind, RuleKind::Permission);
    assert_eq!(r.assignee, Some(PartyRef::Individual("alice".to_string())));
    assert_eq!(r.action.as_deref(), Some("read"));
    assert_eq!(r.target, Some(TargetRef::Individual("x".to_string())));
    assert_eq!(
        r.constraint,
        Some(ConstraintForm::Atomic {
            left_operand: "purpose".to_string(),
            operator: "eq".to_string(),
            right_operand: "research".to_string()
        })
    );
    assert_eq!(r.nested_duty.as_deref(), Some("http://example.org/duty1"));

    let r = &p.rules[1];
    assert_eq!(r.assignee, Some(PartyRef::Collection("team".to_string())));
    assert_eq!(r.action, None);
    assert_eq!(r.target, Some(TargetRef::Collection("shelf".to_string())));
    match &r.constraint {
        Some(ConstraintForm::Or(children)) => {
            assert_eq!(children.len(), 2);
            assert!(matches!(&children[0], ConstraintForm::Atomic { operator, .. } if operator == "lt"));
        },
        other => panic!("expected an odrl:or group, got {other:?}"),
    }
    assert_eq!(r.nested_duty, None);

    assert_eq!(p.rules[2].kind, RuleKind::Prohibition);
    assert_eq!(p.rules[2].action.as_deref(), Some("distribute"));
}

#[test]
fn a_graph_without_a_policy_node_is_an_error() {
    let g = Graph::parse_str("@prefix ex: <http://example.org/>. ex:a ex:b ex:c.").unwrap();
    assert_eq!(parse_policy(&g).unwrap_err(), "no odrl:Set/Offer/Agreement node");
}

#[test]
fn a_request_fixture_reads_assignee_action_and_target() {
    let g = Graph::parse_str(
        r#"@prefix odrl: <http://www.w3.org/ns/odrl/2/>.
@prefix ex: <http://example.org/>.
ex:req a odrl:Request; odrl:permission ex:p.
ex:p odrl:assignee ex:alice; odrl:action odrl:read; odrl:target ex:x."#,
    )
    .unwrap();
    let r = parse_request(&g).unwrap();
    assert_eq!(r.assignee, "alice");
    assert_eq!(r.action, "read");
    assert_eq!(r.target.as_deref(), Some("x"));
}

#[test]
fn a_request_fixture_without_an_action_is_an_error() {
    let g = Graph::parse_str(
        r#"@prefix odrl: <http://www.w3.org/ns/odrl/2/>.
@prefix ex: <http://example.org/>.
ex:req a odrl:Request; odrl:permission ex:p.
ex:p odrl:assignee ex:alice."#,
    )
    .unwrap();
    assert_eq!(parse_request(&g).err().as_deref(), Some("request's odrl:permission has no odrl:action"));
}

const INDEX: &str = r#"@prefix dct: <http://purl.org/dc/terms/>.
@prefix ex: <http://example.org/>.
<urn:uuid:b> dct:title "second";
    ex:policySource <https://raw.githubusercontent.com/S/T/refs/heads/main/data/policies/p2.ttl>;
    ex:requestSource <https://raw.githubusercontent.com/S/T/refs/heads/main/data/requests/r2.ttl>;
    ex:expectedReportSource <https://raw.githubusercontent.com/S/T/refs/heads/main/data/reports/testcase-002-b.ttl>.
<urn:uuid:a> dct:title "first";
    ex:policySource <https://raw.githubusercontent.com/S/T/refs/heads/main/data/policies/p1.ttl>;
    ex:requestSource <https://raw.githubusercontent.com/S/T/refs/heads/main/data/requests/r1.ttl>;
    ex:expectedReportSource <https://raw.githubusercontent.com/S/T/refs/heads/main/data/reports/testcase-001-a.ttl>."#;

#[test]
fn the_index_lists_cases_by_sequence_number_with_local_paths() {
    let g = Graph::parse_str(INDEX).unwrap();
    let cases: Vec<TestCaseEntry> = parse_index(&g, "vendor/suite").unwrap();
    assert_eq!(cases.len(), 2);
    assert_eq!(cases[0].id, "urn:uuid:a");
    assert_eq!(cases[0].title, "first");
    assert_eq!(cases[0].policy_path, "vendor/suite/data/policies/p1.ttl");
    assert_eq!(cases[0].request_path, "vendor/suite/data/requests/r1.ttl");
    assert_eq!(cases[0].expected_report_path, "vendor/suite/data/reports/testcase-001-a.ttl");
    assert_eq!(cases[1].id, "urn:uuid:b");
    assert_eq!(case_slug(&cases[1]), "testcase-002-b");
}

#[test]
fn an_index_case_without_a_title_is_an_error() {
    let g = Graph::parse_str(&INDEX.replace("dct:title \"second\";", "")).unwrap();
    assert_eq!(parse_index(&g, "v").err().as_deref(), Some("urn:uuid:b: no dct:title"));
}

#[test]
fn a_source_url_without_a_data_segment_is_an_error() {
    assert_eq!(
        rewrite_to_local_path("v", "https://example.org/x.ttl"),
        Err("source URL does not contain \"/data/\": https://example.org/x.ttl".to_string())
    );
    assert_eq!(rewrite_to_local_path("v/", "https://h/a/data/b.ttl"), Ok("v/data/b.ttl".to_string()));
}

#[test]
fn the_sequence_number_is_the_second_field_of_the_file_stem() {
    assert_eq!(sequence_number("reports/testcase-014-alice-sell.ttl"), 14);
    assert_eq!(sequence_number("reports/readme.ttl"), 0);
    assert_eq!(sequence_number("reports/testcase-x.ttl"), 0);
}

#[test]
fn a_file_stem_skips_trailing_separators_and_dot_components() {
    assert_eq!(file_stem("fixtures/odrl-0042-read.ttl/").as_deref(), Some("odrl-0042-read"));
    assert_eq!(file_stem("fixtures/odrl-0042-read.ttl/.").as_deref(), Some("odrl-0042-read"));
    assert_eq!(file_stem("fixtures//case.ttl").as_deref(), Some("case"));
    assert_eq!(file_stem("fixtures/.."), None);
    assert_eq!(file_stem("/"), None);
    assert_eq!(file_stem("."), None);
    assert_eq!(file_stem("archive.tar.gz").as_deref(), Some("archive.tar"));
}
