use ds_odrl_adapters::rdf::{Graph, Subject, Term};
use ds_odrl_adapters::rdf_expected::parse_expected_decision;
use ds_odrl_adapters::suite_vocab::{odrl, report_ns};
use ds_odrl_adapters::wire::WireDecision;

#[test]
fn parses_a_minimal_turtle_fixture_into_queryable_triples() {
    let g = Graph::parse_str(
        r#"@prefix odrl: <http://www.w3.org/ns/odrl/2/>.
@prefix ex: <http://example.org/>.
ex:alice a odrl:Permission;
    odrl:action odrl:read."#,
    )
    .unwrap();
    assert_eq!(g.type_of("http://example.org/alice").as_deref(), Some(odrl("Permission").as_str()));
    assert_eq!(
        g.object_node("http://example.org/alice", &odrl("action")).as_deref(),
        Some(odrl("read").as_str())
    );
}

fn odrl2(local: &str) -> String {
    format!("http://example.org/{local}")
}

#[test]
fn objects_by_subject_local_name_looks_up_by_local_name_not_full_iri() {
    let g = Graph::parse_str(
        r#"@prefix odrl: <http://www.w3.org/ns/odrl/2/>.
@prefix ex: <http://example.org/>.
ex:alice odrl:partOf ex:partyCollection."#,
    )
    .unwrap();
    assert_eq!(g.objects_by_subject_local_name("alice", &odrl("partOf")), vec![odrl2("partyCollection")]);
    assert!(g.objects_by_subject_local_name("bob", &odrl("partOf")).is_empty());
}

#[test]
fn subjects_by_object_local_name_finds_the_reverse_edge() {
    let g = Graph::parse_str(
        r#"@prefix report: <https://w3id.org/force/compliance-report#>.
@prefix ex: <http://example.org/>.
ex:report1 report:rule ex:duty1."#,
    )
    .unwrap();
    assert_eq!(
        g.subjects_by_object_local_name(&report_ns("rule"), "duty1"),
        vec!["http://example.org/report1".to_string()]
    );
}

#[test]
fn first_literal_for_predicate_finds_the_currenttime_fact() {
    let g = Graph::parse_str(
        r#"@prefix dct: <http://purl.org/dc/terms/>.
@prefix temp: <http://example.com/request/>.
@prefix xsd: <http://www.w3.org/2001/XMLSchema#>.
temp:currentTime dct:issued "2024-02-12T11:20:10.999Z"^^xsd:dateTime."#,
    )
    .unwrap();
    assert_eq!(
        g.first_literal_for_predicate("http://purl.org/dc/terms/issued").as_deref(),
        Some("2024-02-12T11:20:10.999Z")
    );
}

#[test]
fn rdf_list_reads_a_turtle_collection_in_order() {
    let g = Graph::parse_str(
        r#"@prefix ex: <http://example.org/>.
ex:s ex:items ( ex:a "b" ex:c ) ."#,
    )
    .unwrap();
    let items = g.rdf_list("http://example.org/s", "http://example.org/items");
    assert_eq!(
        items,
        vec![
            Term::Iri("http://example.org/a".to_string()),
            Term::Literal("b".to_string()),
            Term::Iri("http://example.org/c".to_string()),
        ]
    );
    assert_eq!(
        g.rdf_list_ids("http://example.org/s", "http://example.org/items"),
        vec!["http://example.org/a".to_string(), "http://example.org/c".to_string()]
    );
    assert!(g.rdf_list("http://example.org/s", "http://example.org/none").is_empty());
}

#[test]
fn a_malformed_turtle_document_is_an_error() {
    assert!(Graph::parse_str("@prefix ex: <http://example.org/> .\nex:a ex:b").is_err());
}

#[test]
fn literals_keep_their_lexical_form_and_objects_keep_document_order() {
    let g = Graph::parse_str(
        r#"@prefix ex: <http://example.org/>.
ex:s ex:p "one", 2, ex:three ."#,
    )
    .unwrap();
    assert_eq!(
        g.objects("http://example.org/s", "http://example.org/p"),
        vec![
            Term::Literal("one".to_string()),
            Term::Literal("2".to_string()),
            Term::Iri("http://example.org/three".to_string()),
        ]
    );
    assert_eq!(g.literal("http://example.org/s", "http://example.org/p").as_deref(), Some("one"));
    assert_eq!(g.object_id("http://example.org/s", "http://example.org/p"), None);
    assert_eq!(g.object_ids("http://example.org/s", "http://example.org/p"), vec!["http://example.org/three".to_string()]);
}

const PREFIXES: &str = "\
@base <https://example.org/tc> .
@prefix : <#> .
@prefix dsc: <https://ds-labs-org.github.io/ds-odrl-compliance-rdf/ns#> .
";

const TESTCASE: &str = "https://example.org/tc#testcase";

fn parse_ttl(ttl: &str) -> Graph {
    Graph::parse_str(ttl).expect("parse scratch ttl fixture")
}

#[test]
fn expected_decision_allow_parses_to_wire_decision_allow() {
    let g = parse_ttl(&format!("{PREFIXES}:testcase a dsc:TestCase ; dsc:expectedDecision \"Allow\" .\n"));
    assert_eq!(parse_expected_decision(&g, TESTCASE).unwrap(), Some(WireDecision::Allow));
}

#[test]
fn expected_decision_deny_parses_to_wire_decision_deny() {
    let g = parse_ttl(&format!("{PREFIXES}:testcase a dsc:TestCase ; dsc:expectedDecision \"Deny\" .\n"));
    assert_eq!(parse_expected_decision(&g, TESTCASE).unwrap(), Some(WireDecision::Deny));
}

#[test]
fn expected_decision_error_parses_to_wire_decision_error() {
    let g = parse_ttl(&format!("{PREFIXES}:testcase a dsc:TestCase ; dsc:expectedDecision \"Error\" .\n"));
    assert_eq!(parse_expected_decision(&g, TESTCASE).unwrap(), Some(WireDecision::Error));
}

#[test]
fn expected_decision_absent_is_none() {
    let g = parse_ttl(&format!("{PREFIXES}:testcase a dsc:TestCase .\n"));
    assert_eq!(parse_expected_decision(&g, TESTCASE).unwrap(), None);
}

#[test]
fn expected_decision_unrecognized_value_is_an_error() {
    let g = parse_ttl(&format!("{PREFIXES}:testcase a dsc:TestCase ; dsc:expectedDecision \"Maybe\" .\n"));
    let err = parse_expected_decision(&g, TESTCASE).unwrap_err();
    assert!(err.contains("Maybe"), "error should name the bad value: {err}");
}

#[test]
fn two_parses_of_one_document_agree_up_to_blank_node_labels() {
    let ttl = "@prefix ex: <http://example.org/> .\n[] ex:p [ ex:q \"1\" ] .\n_:named ex:r ex:s .\n";
    let a = Graph::parse_str(ttl).unwrap();
    let b = Graph::parse_str(ttl).unwrap();
    assert_eq!(a.triples.len(), 3);
    assert_eq!(a.triples.len(), b.triples.len());
    // The same positions hold blank nodes, literals and IRIs in both parses,
    // and the predicates agree; two blank nodes are the same node in one
    // parse exactly when they are in the other.
    let blank_s = |g: &Graph, i: usize| match &g.triples[i].subject {
        Subject::Blank(l) => Some(l.clone()),
        Subject::Iri(_) => None,
    };
    let blank_o = |g: &Graph, i: usize| match &g.triples[i].object {
        Term::Blank(l) => Some(l.clone()),
        _ => None,
    };
    for i in 0..3 {
        assert_eq!(a.triples[i].predicate, b.triples[i].predicate);
        assert_eq!(blank_s(&a, i).is_some(), blank_s(&b, i).is_some());
        assert_eq!(blank_o(&a, i).is_some(), blank_o(&b, i).is_some());
        for j in 0..3 {
            assert_eq!(blank_s(&a, i) == blank_o(&a, j), blank_s(&b, i) == blank_o(&b, j));
            assert_eq!(blank_s(&a, i) == blank_s(&a, j), blank_s(&b, i) == blank_s(&b, j));
        }
    }
    assert!(a.triples.iter().any(|t| t.subject == Subject::Blank("named".to_string())));
}
