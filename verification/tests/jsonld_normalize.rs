use ds_odrl_adapters::expand::{expand, ContextRegistry};
use ds_odrl_adapters::json::read_json;
use ds_odrl_adapters::jsonld::{internalize_inverse_properties, Expanded, Node, ODRL_NS};

/// A stand-in for the W3C ODRL context, holding the terms these documents
/// use with the same definitions. The library bundles no context document:
/// it resolves each context URL through the registry its caller hands it,
/// and the pinned W3C document is not among this crate's files. So these
/// tests exercise the normalization logic over this stand-in, not the
/// pinned document itself.
const ODRL_STAND_IN: &str = r#"{ "@context": {
    "odrl": "http://www.w3.org/ns/odrl/2/",
    "Offer": "odrl:Offer", "Asset": "odrl:Asset", "Party": "odrl:Party",
    "permission": { "@id": "odrl:permission", "@type": "@id" },
    "prohibition": { "@id": "odrl:prohibition", "@type": "@id" },
    "action": { "@id": "odrl:action", "@type": "@vocab" },
    "target": { "@id": "odrl:target", "@type": "@id" },
    "assigner": { "@id": "odrl:assigner", "@type": "@id" },
    "assignee": { "@id": "odrl:assignee", "@type": "@id" },
    "assignerOf": { "@id": "odrl:assignerOf", "@type": "@id" },
    "assigneeOf": { "@id": "odrl:assigneeOf", "@type": "@id" },
    "hasPolicy": { "@id": "odrl:hasPolicy", "@type": "@id" },
    "use": "odrl:use", "distribute": "odrl:distribute"
} }"#;

fn expanded(text: &str) -> Node {
    let registry = ContextRegistry {
        entries: vec![("http://www.w3.org/ns/odrl.jsonld".to_string(), ODRL_STAND_IN.to_string())],
    };
    let doc = read_json(text).expect("fixture must parse");
    expand(&doc, &registry).expect("fixture must expand").node
}

fn find_by_id<'a>(node: &'a Node, id: &str) -> Option<&'a Node> {
    if node.id.as_deref() == Some(id) {
        return Some(node);
    }
    for (_, values) in &node.props {
        for v in values {
            if let Expanded::Node(child) = v {
                if let Some(found) = find_by_id(child, id) {
                    return Some(found);
                }
            }
        }
    }
    None
}

#[test]
fn two_assets_haspolicy_referencing_the_same_shared_policy_both_survive_as_targets() {
    let policy = Node { id: Some("urn:uuid:shared-policy".to_string()), types: vec![], props: vec![] };
    let asset_a = Node {
        id: Some("urn:asset:A".to_string()),
        types: vec![],
        props: vec![(
            format!("{ODRL_NS}hasPolicy"),
            vec![Expanded::Iri("urn:uuid:shared-policy".to_string())],
        )],
    };
    let asset_b = Node {
        id: Some("urn:asset:B".to_string()),
        types: vec![],
        props: vec![(
            format!("{ODRL_NS}hasPolicy"),
            vec![Expanded::Iri("urn:uuid:shared-policy".to_string())],
        )],
    };
    let mut root = Node {
        id: None,
        types: vec![],
        props: vec![(
            "urn:test:items".to_string(),
            vec![Expanded::Node(policy), Expanded::Node(asset_a), Expanded::Node(asset_b)],
        )],
    };
    let mut warnings = Vec::new();
    internalize_inverse_properties(&mut root, &mut warnings);
    let policy_node = find_by_id(&root, "urn:uuid:shared-policy").expect("policy must still be in the tree");
    let mut targets: Vec<String> = policy_node
        .get(&format!("{ODRL_NS}target"))
        .iter()
        .filter_map(|v| match v {
            Expanded::Iri(iri) => Some(iri.clone()),
            _ => None,
        })
        .collect();
    targets.sort();
    assert_eq!(
        targets,
        vec!["urn:asset:A".to_string(), "urn:asset:B".to_string()],
        "both assets' hasPolicy references must accumulate onto the shared policy's target, \
         not truncate to the first: warnings {warnings:?}"
    );
}

#[test]
fn internalizing_inverse_properties_stays_fast_on_a_large_synthetic_document() {
    const N: usize = 16_000;
    let mut items = Vec::with_capacity(N * 2);
    for i in 0..N {
        items.push(Expanded::Node(Node {
            id: Some(format!("urn:dataset:{i}")),
            types: vec![],
            props: vec![(format!("{ODRL_NS}hasPolicy"), vec![Expanded::Iri(format!("urn:policy:{i}"))])],
        }));
        items.push(Expanded::Node(Node { id: Some(format!("urn:policy:{i}")), types: vec![], props: vec![] }));
    }
    let mut root = Node { id: None, types: vec![], props: vec![("urn:test:items".to_string(), items)] };
    let mut warnings = Vec::new();
    let start = std::time::Instant::now();
    internalize_inverse_properties(&mut root, &mut warnings);
    let elapsed = start.elapsed();
    assert!(
        warnings.is_empty(),
        "every reference here names a real policy node; nothing should warn: {warnings:?}"
    );
    assert!(
        elapsed < std::time::Duration::from_secs(3),
        "internalize_inverse_properties took {elapsed:?} for {N} references against a {}-node document",
        N * 2 + 1,
    );
}

#[test]
fn a_full_odrl_iri_written_in_place_of_the_compact_term_is_not_silently_dropped() {
    let node = expanded(
        r#"{
            "@context": "http://www.w3.org/ns/odrl.jsonld",
            "@type": "Offer",
            "@id": "urn:uuid:t",
            "assigner": "did:web:provider.example",
            "target": "urn:asset:A",
            "permission": [{ "action": "use" }],
            "http://www.w3.org/ns/odrl/2/prohibition": [{ "action": "distribute" }]
        }"#,
    );
    assert_eq!(
        node.get(&format!("{ODRL_NS}prohibition")).len(),
        1,
        "the full-IRI-keyed prohibition must expand exactly like its compact-term sibling, not vanish"
    );
}

#[test]
fn an_assignee_of_on_a_party_injects_odrl_assignee_onto_the_rule_it_names() {
    let mut root = expanded(
        r#"{
            "@context": "http://www.w3.org/ns/odrl.jsonld",
            "@type": "Offer",
            "@id": "urn:uuid:offer-a",
            "assigner": "did:web:provider.example",
            "permission": [{ "@id": "urn:uuid:rule-1", "action": "use" }],
            "assignee": {
                "@id": "urn:party:consumer",
                "@type": "Party",
                "assigneeOf": { "@id": "urn:uuid:rule-1" }
            }
        }"#,
    );
    let mut warnings = Vec::new();
    internalize_inverse_properties(&mut root, &mut warnings);
    let rule = find_by_id(&root, "urn:uuid:rule-1").expect("rule-1 must still be in the tree");
    assert_eq!(
        rule.get(&format!("{ODRL_NS}assignee")),
        [Expanded::Iri("urn:party:consumer".to_string())],
        "odrl:assigneeOf on the party must internalize into odrl:assignee on the rule it names"
    );
}

#[test]
fn an_assigner_of_on_a_party_injects_odrl_assigner_onto_the_rule_it_names() {
    let mut root = expanded(
        r#"{
            "@context": "http://www.w3.org/ns/odrl.jsonld",
            "@type": "Offer",
            "@id": "urn:uuid:offer-a",
            "permission": [{ "@id": "urn:uuid:rule-1", "action": "use" }],
            "assigner": {
                "@id": "urn:party:provider",
                "@type": "Party",
                "assignerOf": { "@id": "urn:uuid:rule-1" }
            }
        }"#,
    );
    let mut warnings = Vec::new();
    internalize_inverse_properties(&mut root, &mut warnings);
    let rule = find_by_id(&root, "urn:uuid:rule-1").expect("rule-1 must still be in the tree");
    assert_eq!(
        rule.get(&format!("{ODRL_NS}assigner")),
        [Expanded::Iri("urn:party:provider".to_string())],
        "odrl:assignerOf on the party must internalize into odrl:assigner on the rule it names"
    );
}

#[test]
fn an_inverse_property_naming_an_id_absent_from_the_document_is_warned_about() {
    let mut root = expanded(
        r#"{
            "@context": "http://www.w3.org/ns/odrl.jsonld",
            "@type": "Asset",
            "@id": "urn:asset:A",
            "hasPolicy": { "@id": "urn:uuid:nowhere-defined" }
        }"#,
    );
    let mut warnings = Vec::new();
    internalize_inverse_properties(&mut root, &mut warnings);
    assert!(
        warnings.iter().any(|w| w.contains("urn:uuid:nowhere-defined") && w.contains("hasPolicy")),
        "warnings: {warnings:?}"
    );
}
