use ds_odrl_adapters::expand::{bundled_context_urls, expand, expand_iri, ContextRegistry, Ctx, JsonLdError};
use ds_odrl_adapters::json::read_json;
use ds_odrl_adapters::jsonld::{Expanded, Node};

fn no_registry() -> ContextRegistry {
    ContextRegistry { entries: vec![] }
}

fn expanded(text: &str) -> Node {
    let doc = read_json(text).expect("fixture must parse");
    expand(&doc, &no_registry()).expect("fixture must expand").node
}

#[test]
fn a_compact_iri_expands_through_its_prefix_definition_not_by_string_surgery() {
    let node = expanded(
        r#"{
            "@context": { "ex": "https://example.org/ns#", "target": { "@id": "ex:target", "@type": "@id" } },
            "@type": "ex:Thing",
            "ex:name": "plain",
            "target": "ex:asset"
        }"#,
    );
    assert_eq!(node.types, vec!["https://example.org/ns#Thing".to_string()]);
    assert_eq!(node.get("https://example.org/ns#name"), [Expanded::Literal("plain".to_string())]);
    assert_eq!(
        node.get("https://example.org/ns#target"),
        [Expanded::Iri("https://example.org/ns#asset".to_string())],
        "a term declared `@type: @id` expands its string value as an IRI"
    );
}

#[test]
fn a_value_in_a_position_with_no_type_coercion_stays_a_literal_even_when_it_looks_like_a_compact_iri() {
    let node = expanded(
        r#"{
            "@context": { "ex": "https://example.org/ns#" },
            "ex:note": "ex:looks-like-a-curie"
        }"#,
    );
    assert_eq!(node.get("https://example.org/ns#note"), [Expanded::Literal("ex:looks-like-a-curie".to_string())]);
}

#[test]
fn a_suffix_beginning_with_a_double_slash_is_never_read_as_a_compact_iri() {
    let node = expanded(
        r#"{
            "@context": { "https": "https://wrong.example/", "ex": "https://example.org/ns#",
                          "ref": { "@id": "ex:ref", "@type": "@id" } },
            "ref": "https://example.org/x"
        }"#,
    );
    assert_eq!(node.get("https://example.org/ns#ref"), [Expanded::Iri("https://example.org/x".to_string())]);
}

#[test]
fn a_type_scoped_context_marked_propagate_applies_to_nested_node_objects_too() {
    let node = expanded(
        r#"{
            "@context": {
                "ex": "https://example.org/ns#",
                "Envelope": { "@id": "ex:Envelope",
                              "@context": { "@propagate": true, "inner": { "@id": "ex:inner" }, "name": "ex:name" } }
            },
            "@type": "Envelope",
            "inner": { "name": "deep" }
        }"#,
    );
    let Some(Expanded::Node(inner)) = node.get("https://example.org/ns#inner").first() else {
        panic!("`inner` must have resolved through the type-scoped context");
    };
    assert_eq!(inner.get("https://example.org/ns#name"), [Expanded::Literal("deep".to_string())]);
}

#[test]
fn a_type_scoped_context_not_marked_propagate_stops_at_the_nested_node() {
    let node = expanded(
        r#"{
            "@context": {
                "ex": "https://example.org/ns#",
                "Envelope": { "@id": "ex:Envelope",
                              "@context": { "inner": { "@id": "ex:inner" }, "name": "ex:name" } }
            },
            "@type": "Envelope",
            "inner": { "name": "deep" }
        }"#,
    );
    let Some(Expanded::Node(inner)) = node.get("https://example.org/ns#inner").first() else {
        panic!("`inner` itself is in scope");
    };
    assert!(inner.props.is_empty(), "`name` is out of scope inside the nested node, so it expands to nothing at all");
}

#[test]
fn an_already_absolute_iri_key_expands_verbatim_instead_of_being_dropped() {
    let ctx = Ctx { terms: vec![], vocab: None };
    assert_eq!(
        expand_iri(&ctx, "http://www.w3.org/ns/odrl/2/prohibition", true),
        ("http://www.w3.org/ns/odrl/2/prohibition".to_string(), true)
    );
}

#[test]
fn an_already_absolute_iri_value_is_not_corrupted_by_a_document_level_vocab() {
    let ctx = Ctx { terms: vec![], vocab: Some("https://example.org/ns#".to_string()) };
    assert_eq!(
        expand_iri(&ctx, "http://www.w3.org/ns/odrl/2/use", true),
        ("http://www.w3.org/ns/odrl/2/use".to_string(), true)
    );
}

#[test]
fn the_bundled_context_urls_name_the_pinned_documents() {
    let urls = bundled_context_urls();
    assert!(urls.contains(&"https://w3id.org/dspace/2024/1/context.json".to_string()));
    assert!(urls.contains(&"https://w3id.org/dspace/2025/1/context.jsonld".to_string()));
    assert!(urls.contains(&"https://w3id.org/dspace/2025/1/odrl-profile.jsonld".to_string()));
    assert!(urls.contains(&"http://www.w3.org/ns/odrl.jsonld".to_string()));
    assert!(urls.contains(&"https://www.w3.org/ns/odrl.jsonld".to_string()));
    assert_eq!(urls.len(), 5);
}

#[test]
fn a_context_reference_resolves_only_against_the_registry() {
    let doc = read_json(r#"{ "@context": "https://example.org/ctx.jsonld", "name": "x" }"#).unwrap();
    assert_eq!(
        expand(&doc, &no_registry()).unwrap_err(),
        JsonLdError::UnknownContext("https://example.org/ctx.jsonld".to_string())
    );
    let registry = ContextRegistry {
        entries: vec![(
            "https://example.org/ctx.jsonld".to_string(),
            r#"{ "@context": { "name": "https://example.org/ns#name" } }"#.to_string(),
        )],
    };
    let node = expand(&doc, &registry).unwrap().node;
    assert_eq!(node.get("https://example.org/ns#name"), [Expanded::Literal("x".to_string())]);
}

#[test]
fn a_registry_document_without_a_context_member_is_malformed() {
    let doc = read_json(r#"{ "@context": "https://example.org/ctx.jsonld" }"#).unwrap();
    let registry = ContextRegistry {
        entries: vec![("https://example.org/ctx.jsonld".to_string(), "{}".to_string())],
    };
    assert_eq!(
        expand(&doc, &registry).unwrap_err(),
        JsonLdError::MalformedContext("https://example.org/ctx.jsonld: no @context member".to_string())
    );
}

#[test]
fn a_document_that_is_not_an_object_is_not_a_node_object() {
    let doc = read_json("[1, 2]").unwrap();
    assert_eq!(expand(&doc, &no_registry()).unwrap_err(), JsonLdError::NotANodeObject);
}

#[test]
fn a_colon_with_no_matching_prefix_is_already_an_absolute_iri() {
    let node = expanded(
        r#"{ "@context": { "ref": { "@id": "https://example.org/ns#ref", "@type": "@id" } }, "ref": "urn:uuid:x" }"#,
    );
    assert_eq!(node.get("https://example.org/ns#ref"), [Expanded::Iri("urn:uuid:x".to_string())]);
}

#[test]
fn an_unresolvable_string_in_a_coerced_position_is_kept_verbatim_with_a_warning() {
    let doc = read_json(
        r#"{ "@context": { "ref": { "@id": "https://example.org/ns#ref", "@type": "@id" } }, "ref": "thing" }"#,
    )
    .unwrap();
    let expansion = expand(&doc, &no_registry()).unwrap();
    assert_eq!(expansion.node.get("https://example.org/ns#ref"), [Expanded::Iri("thing".to_string())]);
    assert_eq!(expansion.warnings.len(), 1);
    assert!(expansion.warnings[0].starts_with("\"thing\" sits in a position the active context coerces to @id"));
}

#[test]
fn value_objects_numbers_and_booleans_become_literals() {
    let node = expanded(
        r#"{ "@context": { "ex": "https://example.org/ns#" },
             "ex:a": { "@value": "v", "@type": "ex:T" }, "ex:b": 7, "ex:c": true, "ex:d": null }"#,
    );
    assert_eq!(node.get("https://example.org/ns#a"), [Expanded::Literal("v".to_string())]);
    assert_eq!(node.get("https://example.org/ns#b"), [Expanded::Literal("7".to_string())]);
    assert_eq!(node.get("https://example.org/ns#c"), [Expanded::Literal("true".to_string())]);
    assert!(node.get("https://example.org/ns#d").is_empty());
}

#[test]
fn a_null_context_resets_the_active_context() {
    let node = expanded(
        r#"{ "@context": [ { "a": "https://example.org/ns#a" }, null ], "a": "x" }"#,
    );
    assert!(node.props.is_empty());
}

#[test]
fn an_unknown_context_error_names_the_url_and_every_resolvable_one() {
    let e = JsonLdError::UnknownContext("https://example.org/ctx.jsonld".to_string());
    let urls: Vec<String> = bundled_context_urls();
    assert_eq!(
        e.message(),
        format!(
            "@context \"https://example.org/ctx.jsonld\" is not one of the context documents bundled with this \
             adapter, and no context is ever fetched over the network: {urls:?}"
        )
    );
    assert_eq!(JsonLdError::MalformedContext("42".to_string()).message(), "malformed @context: 42");
    assert_eq!(JsonLdError::NotANodeObject.message(), "the document is not a JSON object");
}
