use ds_odrl_adapters::expand::ContextRegistry;
use ds_odrl_adapters::ingest::{ingest_policy, minimal_config, request_for, IngestError};
use ds_odrl_adapters::wire::{Behaviour, Claims, ConflictStrategy, DutyMode, Rule};

const CONTEXT_URL: &str = "https://example.org/contexts/odrl-terms.jsonld";

/// A small context document mapping the ODRL terms these fixtures use.
const CONTEXT: &str = r#"{ "@context": {
    "odrl": "http://www.w3.org/ns/odrl/2/",
    "Offer": "odrl:Offer", "Set": "odrl:Set", "Asset": "odrl:Asset",
    "permission": { "@id": "odrl:permission", "@type": "@id" },
    "prohibition": { "@id": "odrl:prohibition", "@type": "@id" },
    "obligation": { "@id": "odrl:obligation", "@type": "@id" },
    "action": { "@id": "odrl:action", "@type": "@vocab" },
    "target": { "@id": "odrl:target", "@type": "@id" },
    "assigner": { "@id": "odrl:assigner", "@type": "@id" },
    "assignee": { "@id": "odrl:assignee", "@type": "@id" },
    "conflict": { "@id": "odrl:conflict", "@type": "@vocab" },
    "hasPolicy": { "@id": "odrl:hasPolicy", "@type": "@id" },
    "constraint": { "@id": "odrl:constraint", "@type": "@id" },
    "leftOperand": { "@id": "odrl:leftOperand", "@type": "@vocab" },
    "operator": { "@id": "odrl:operator", "@type": "@vocab" },
    "rightOperand": "odrl:rightOperand",
    "and": { "@id": "odrl:and", "@type": "@id" },
    "xone": { "@id": "odrl:xone", "@type": "@id" },
    "use": "odrl:use", "print": "odrl:print", "distribute": "odrl:distribute", "inform": "odrl:inform",
    "perm": "odrl:perm", "eq": "odrl:eq", "hasPart": "odrl:hasPart",
    "purpose": "odrl:purpose", "spatial": "odrl:spatial"
} }"#;

/// A stand-in for the DSP 2024/1 context: the `odrl` prefix and the
/// coercions of the ODRL properties whose values are vocabulary terms or
/// node references.
const DSP_2024_1_STAND_IN: &str = r#"{ "@context": {
    "odrl": "http://www.w3.org/ns/odrl/2/",
    "xsd": "http://www.w3.org/2001/XMLSchema#",
    "odrl:action": { "@type": "@vocab" },
    "odrl:leftOperand": { "@type": "@vocab" },
    "odrl:operator": { "@type": "@vocab" },
    "odrl:target": { "@type": "@id" },
    "odrl:assigner": { "@type": "@id" },
    "odrl:assignee": { "@type": "@id" }
} }"#;

/// The registry these tests resolve contexts against: the small ODRL term
/// context above, registered under its own URL and as a stand-in for the
/// W3C ODRL context, and the DSP 2024/1 stand-in. The library bundles no
/// context document (a caller hands it the registry), and the pinned W3C
/// and DSP documents are not among this crate's files: the tests below that
/// name those URLs check ingestion over these stand-ins, which define only
/// the terms their documents use, not over the pinned documents.
fn registry() -> ContextRegistry {
    ContextRegistry {
        entries: vec![
            (CONTEXT_URL.to_string(), CONTEXT.to_string()),
            ("http://www.w3.org/ns/odrl.jsonld".to_string(), CONTEXT.to_string()),
            ("https://w3id.org/dspace/2024/1/context.json".to_string(), DSP_2024_1_STAND_IN.to_string()),
        ],
    }
}

fn doc(body: &str) -> String {
    format!("{{ \"@context\": \"{CONTEXT_URL}\", {body} }}")
}

#[test]
fn an_unknown_context_url_is_a_named_error_not_a_silently_empty_policy() {
    let doc = r#"{
      "@context": "https://example.org/some/other/context.jsonld",
      "@type": "odrl:Offer",
      "odrl:permission": [{ "odrl:action": "odrl:use" }]
    }"#;
    assert_eq!(
        ingest_policy(doc, &ContextRegistry { entries: vec![] }),
        Err(IngestError::UnknownContext("https://example.org/some/other/context.jsonld".to_string()))
    );
}

#[test]
fn a_right_operand_that_starts_with_odrl_stays_verbatim() {
    let text = doc(r#""@type": "Offer", "permission": [{ "action": "use",
        "constraint": [{ "leftOperand": "purpose", "operator": "eq", "rightOperand": "odrl:internal-use-only" }] }]"#);
    let ingested = ingest_policy(&text, &registry()).unwrap();
    let c = &ingested.policy.permissions[0].constraints[0];
    assert_eq!(c.left_operand, "purpose");
    assert_eq!(c.right_operand, "odrl:internal-use-only");
}

#[test]
fn a_document_with_no_policy_node_is_an_error() {
    let text = doc(r#""@type": "Asset", "@id": "urn:asset:A""#);
    assert_eq!(ingest_policy(&text, &registry()), Err(IngestError::NoPolicyNode));
}

#[test]
fn text_that_is_not_json_is_a_json_error() {
    assert!(matches!(ingest_policy("{ not json", &registry()), Err(IngestError::Json(_))));
}

#[test]
fn has_policy_on_an_asset_becomes_the_policy_target() {
    let text = doc(r#""@type": "Asset", "@id": "urn:asset:A",
        "hasPolicy": { "@id": "urn:uuid:offer", "@type": "Offer", "permission": [{ "action": "use" }] }"#);
    let ingested = ingest_policy(&text, &registry()).unwrap();
    assert_eq!(
        ingested.policy.permissions,
        vec![Rule::targeting("use".to_string(), "urn:asset:A".to_string(), vec![])]
    );
}

#[test]
fn minimal_config_declares_every_action_the_policy_names_sorted_and_unrelated() {
    let text = doc(r#""@type": "Offer", "@id": "urn:uuid:o", "assigner": "did:web:p", "target": "urn:asset:A",
        "permission": [{ "action": "use" }, { "action": "print" }], "prohibition": [{ "action": "distribute" }],
        "obligation": [{ "action": "inform" }, { "action": "use" }]"#);
    let ingested = ingest_policy(&text, &registry()).unwrap();
    let config = minimal_config(&ingested.policy, DutyMode::Advise, Behaviour::Closed);
    let declared: Vec<&str> = config.actions.iter().map(|a| a.id.as_str()).collect();
    assert_eq!(declared, vec!["distribute", "inform", "print", "use"]);
    assert!(config.actions.iter().all(|a| a.included_in.is_none()));
    assert_eq!(config.duty_mode, DutyMode::Advise);
    assert_eq!(config.behaviour, Behaviour::Closed);

    let request = request_for(&ingested.policy, "urn:asset:A", "use", Claims::new(), DutyMode::Deny, Behaviour::Open);
    assert_eq!(request.dataset_id, "urn:asset:A");
    assert_eq!(request.action, "use");
    assert_eq!(request.policies.len(), 1);
    assert_eq!(request.policies[0], ingested.policy);
    assert_eq!(request.config.duty_mode, DutyMode::Deny);
    assert!(request.asset_collections.is_empty());
}

#[test]
fn a_bare_odrl_policy_document_with_no_dsp_envelope_ingests_too() {
    let doc = r#"{
      "@context": "http://www.w3.org/ns/odrl.jsonld",
      "@type": "Offer",
      "@id": "urn:uuid:bare-offer",
      "assigner": "did:web:provider.example",
      "target": "urn:asset:A",
      "permission": [{ "action": "use" }]
    }"#;
    let ingested = ingest_policy(doc, &registry()).expect("a bare ODRL offer must ingest");
    assert_eq!(ingested.policy.id, "urn:uuid:bare-offer");
    assert_eq!(ingested.policy.kind, "Offer");
    assert_eq!(ingested.policy.assignee, None);
    assert_eq!(
        ingested.policy.permissions,
        vec![Rule::targeting("use".to_string(), "urn:asset:A".to_string(), vec![])]
    );
}

#[test]
fn a_prohibition_keyed_by_its_full_odrl_iri_instead_of_the_compact_term_still_ingests() {
    let doc = r#"{
      "@context": "http://www.w3.org/ns/odrl.jsonld",
      "@type": "Offer",
      "@id": "urn:uuid:t",
      "assigner": "did:web:provider.example",
      "target": "urn:asset:A",
      "permission": [{ "action": "use" }],
      "http://www.w3.org/ns/odrl/2/prohibition": [{ "action": "distribute" }]
    }"#;
    let ingested = ingest_policy(doc, &registry()).expect("a full-IRI-keyed prohibition must still ingest");
    assert_eq!(
        ingested.policy.prohibitions,
        vec![Rule::targeting("distribute".to_string(), "urn:asset:A".to_string(), vec![])],
        "warnings: {:?}",
        ingested.warnings
    );
    assert!(ingested.warnings.is_empty(), "warnings: {:?}", ingested.warnings);
}

#[test]
fn a_declared_odrl_conflict_term_is_warned_about_rather_than_silently_dropped() {
    let doc = r#"{
      "@context": "http://www.w3.org/ns/odrl.jsonld",
      "@type": "Offer",
      "@id": "urn:uuid:conflicting-offer",
      "assigner": "did:web:provider.example",
      "target": "urn:asset:A",
      "conflict": "perm",
      "permission": [{ "action": "use" }],
      "prohibition": [{ "action": "use" }]
    }"#;
    let ingested = ingest_policy(doc, &registry()).expect("a policy declaring odrl:conflict still ingests");
    assert_eq!(
        ingested.policy.conflict,
        ConflictStrategy::Invalid,
        "the strategy really is dropped -- which is what makes the warning load-bearing"
    );
    assert!(ingested.warnings.iter().any(|w| w.contains("odrl:conflict")), "warnings: {:?}", ingested.warnings);

    let quiet = ingest_policy(&doc.replace("\"conflict\": \"perm\",", ""), &registry()).expect("must ingest");
    assert!(!quiet.warnings.iter().any(|w| w.contains("odrl:conflict")), "warnings: {:?}", quiet.warnings);
}

#[test]
fn a_constraint_written_with_the_idsa_examples_odrl_operand_misspelling_is_a_named_error() {
    let doc = r#"{
      "@context": "https://w3id.org/dspace/2024/1/context.json",
      "@type": "odrl:Offer",
      "odrl:permission": [{
        "odrl:action": "odrl:use",
        "odrl:constraint": [{
          "odrl:leftOperand": "odrl:dateTime",
          "odrl:operand": "odrl:lteq",
          "odrl:rightOperand": { "@value": "2023-12-31T06:00Z", "@type": "xsd:dateTime" }
        }]
      }]
    }"#;
    assert_eq!(ingest_policy(doc, &registry()), Err(IngestError::ConstraintWithoutOperator));
}

#[test]
fn an_operator_outside_this_engines_ten_is_a_named_error_not_a_dropped_constraint() {
    let doc = r#"{
      "@context": "https://w3id.org/dspace/2024/1/context.json",
      "@type": "odrl:Offer",
      "odrl:permission": [{
        "odrl:action": "odrl:use",
        "odrl:constraint": [{
          "odrl:leftOperand": "odrl:spatial",
          "odrl:operator": "odrl:hasPart",
          "odrl:rightOperand": "EU"
        }]
      }]
    }"#;
    assert_eq!(
        ingest_policy(doc, &registry()),
        Err(IngestError::UnsupportedOperator("http://www.w3.org/ns/odrl/2/hasPart".to_string()))
    );
}

#[test]
fn a_constraint_setting_several_logical_keys_resolves_by_the_engines_own_precedence() {
    let doc = r#"{
      "@context": "https://w3id.org/dspace/2024/1/context.json",
      "@type": "odrl:Offer",
      "odrl:permission": [{
        "odrl:action": "odrl:use",
        "odrl:constraint": [{
          "odrl:and": [
            { "odrl:leftOperand": "odrl:purpose", "odrl:operator": "odrl:eq", "odrl:rightOperand": "a" }
          ],
          "odrl:xone": [
            { "odrl:leftOperand": "odrl:purpose", "odrl:operator": "odrl:eq", "odrl:rightOperand": "b" }
          ]
        }]
      }]
    }"#;
    let ingested = ingest_policy(doc, &registry()).expect("must ingest");
    let constraint = &ingested.policy.permissions[0].constraints[0];
    assert!(constraint.and.is_empty(), "`odrl:and` must lose to `odrl:xone`, as it does in the engine");
    assert_eq!(constraint.xone.first().map(|c| c.right_operand.clone()), Some("b".to_string()));
}

#[test]
fn a_rule_given_as_a_bare_reference_is_an_error_not_a_silently_skipped_rule() {
    let doc = r#"{
      "@context": "https://w3id.org/dspace/2024/1/context.json",
      "@type": "odrl:Offer",
      "odrl:permission": [{ "odrl:action": "odrl:use" }],
      "odrl:prohibition": [{ "@id": "urn:uuid:rule-defined-elsewhere" }]
    }"#;
    assert_eq!(
        ingest_policy(doc, &registry()),
        Err(IngestError::RuleIsABareReference(
            "prohibition".to_string(),
            "urn:uuid:rule-defined-elsewhere".to_string()
        ))
    );
}

#[test]
fn several_policy_nodes_in_one_document_is_a_named_error_listing_them() {
    let doc = r#"{
      "@context": "http://www.w3.org/ns/odrl.jsonld",
      "@type": "Asset",
      "hasPolicy": [
        { "@id": "urn:uuid:offer-a", "@type": "Offer", "permission": [{ "action": "use" }] },
        { "@id": "urn:uuid:offer-b", "@type": "Offer", "permission": [{ "action": "print" }] }
      ]
    }"#;
    assert_eq!(
        ingest_policy(doc, &registry()),
        Err(IngestError::SeveralPolicyNodes(vec![
            "urn:uuid:offer-a".to_string(),
            "urn:uuid:offer-b".to_string()
        ]))
    );
}

#[test]
fn an_ingest_error_reads_as_its_debug_rendering() {
    for e in [
        IngestError::Json("expected value at line 1 column 1".to_string()),
        IngestError::UnknownContext("https://example.org/\"quoted\"".to_string()),
        IngestError::NoPolicyNode,
        IngestError::SeveralPolicyNodes(vec!["urn:a".to_string(), "urn:b".to_string()]),
        IngestError::SeveralPolicyNodes(vec![]),
        IngestError::RuleIsABareReference("prohibition".to_string(), "urn:uuid:x".to_string()),
        IngestError::ConstraintWithoutRightOperand,
        IngestError::UnsupportedOperator("http://www.w3.org/ns/odrl/2/hasPart".to_string()),
        IngestError::ConstraintNestedTooDeep(33),
    ] {
        assert_eq!(e.message(), format!("{e:?}"));
    }
}
