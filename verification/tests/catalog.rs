use ds_odrl_adapters::catalog::{categories, probes, rows};
use ds_odrl_adapters::probe::{action, action_in};
use ds_odrl_adapters::wire::WireActionDecl;
use ds_odrl_adapters::coverage::{IMPLEMENTED, NOT_IMPLEMENTED, OUT_OF_SCOPE, PARTIAL};
use std::collections::BTreeSet;

#[test]
fn the_catalog_has_fifty_two_rows_across_ten_categories() {
    assert_eq!(rows().len(), 52);
    assert_eq!(categories().len(), 10);
}

/// A stand-in for the action list the ODRL 2.2 vocabulary document
/// declares: the chains the taxonomy probes lean on.
fn taxonomy() -> Vec<WireActionDecl> {
    vec![
        action("use"),
        action("transfer"),
        action_in("play", "use"),
        action_in("display", "play"),
        action_in("reproduce", "use"),
        action_in("extract", "reproduce"),
        action_in("sell", "transfer"),
    ]
}

#[test]
fn every_row_id_and_probe_id_is_unique() {
    let mut row_ids = BTreeSet::new();
    for row in rows() {
        assert!(row_ids.insert(row.id.clone()), "duplicate row id {}", row.id);
    }
    let mut probe_ids = BTreeSet::new();
    for probe in probes(&taxonomy()) {
        assert!(probe_ids.insert(probe.id), "duplicate probe id {}", probe.id);
    }
}

#[test]
fn referential_integrity_holds_in_both_directions() {
    let all = probes(&taxonomy());
    let probe_ids: BTreeSet<&str> = all.iter().map(|p| p.id).collect();
    let mut referenced: BTreeSet<String> = BTreeSet::new();

    for row in rows() {
        for id in &row.probe_ids {
            assert!(probe_ids.contains(id.as_str()), "row {} references unknown probe {id}", row.id);
            referenced.insert(id.clone());
        }
    }
    for id in &probe_ids {
        assert!(referenced.contains(*id), "probe {id} is referenced by no row");
    }
}

#[test]
fn every_row_names_a_real_category_and_every_category_is_used() {
    let category_ids: BTreeSet<String> = categories().iter().map(|c| c.id.clone()).collect();
    let mut referenced: BTreeSet<String> = BTreeSet::new();
    for row in rows() {
        assert!(category_ids.contains(&row.category), "row {} names unknown category {}", row.id, row.category);
        referenced.insert(row.category.clone());
    }
    assert_eq!(referenced, category_ids, "every category must carry at least one row");
}

#[test]
fn a_row_is_either_probed_or_documented_never_both_and_never_neither() {
    let mut documented = 0;
    for row in rows() {
        match (row.probe_ids.is_empty(), &row.documented_because) {
            (true, Some(_)) => documented += 1,
            (false, None) => {}
            _ => panic!("row {} must be exactly one of probed or documented-only", row.id),
        }
    }
    assert_eq!(
        documented, 2,
        "exactly two rows are documented-only: party collections, hasPolicy -- asset collections \
         moved to probed once Request::asset_collections gave it a real wire fact to evaluate()"
    );
}

#[test]
fn every_row_carries_a_status_from_the_documented_four() {
    for row in rows() {
        let status = row.status.as_str();
        assert!(
            status == IMPLEMENTED || status == PARTIAL || status == NOT_IMPLEMENTED || status == OUT_OF_SCOPE,
            "row {} has status {}",
            row.id,
            row.status
        );
    }
}

#[test]
fn categories_are_numbered_in_order_from_one() {
    let cats = categories();
    for (i, c) in cats.iter().enumerate() {
        assert_eq!(c.number as usize, i + 1);
    }
    assert_eq!(cats[0].id, "actions");
    assert_eq!(cats[9].id, "other");
}

#[test]
fn the_two_documented_rows_are_party_collections_and_has_policy() {
    let r = rows();
    assert_eq!(r[30].id, "party.collections");
    assert_eq!(r[42].id, "assets.has-policy");
}
