use ds_odrl_adapters::suite_vocab::{dct, local_name, odrl, report_ns};

#[test]
fn local_name_splits_on_last_slash_or_hash() {
    assert_eq!(local_name("http://example.org/alice"), "alice");
    assert_eq!(local_name("http://www.w3.org/ns/odrl/2/read"), "read");
    assert_eq!(local_name("http://www.w3.org/1999/02/22-rdf-syntax-ns#type"), "type");
    assert_eq!(local_name("no-separator"), "no-separator");
}

#[test]
fn local_name_of_an_iri_ending_in_a_separator_is_empty() {
    assert_eq!(local_name("http://example.org/"), "");
    assert_eq!(local_name(""), "");
    assert_eq!(local_name("a#b/c"), "c");
}

#[test]
fn namespace_builders_prefix_their_namespace() {
    assert_eq!(odrl("read"), "http://www.w3.org/ns/odrl/2/read");
    assert_eq!(report_ns("rule"), "https://w3id.org/force/compliance-report#rule");
    assert_eq!(dct("issued"), "http://purl.org/dc/terms/issued");
}
