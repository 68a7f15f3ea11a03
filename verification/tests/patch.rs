use ds_odrl_adapters::json::{read_json, Json};
use ds_odrl_adapters::patch::{apply_patches, Patch};

fn json(text: &str) -> Json {
    read_json(text).unwrap()
}

fn document() -> Json {
    json(r#"{
        "policies": [ { "id": "probe", "permissions": [ { "action": "use" } ] } ],
        "config": { "behaviour": "closed" }
    }"#)
}

/// The value at a path of object keys and array positions.
fn at<'a>(v: &'a Json, path: &[&str]) -> Option<&'a Json> {
    let mut cur = v;
    for step in path {
        cur = match cur {
            Json::Object(ms) => &ms.iter().find(|(k, _)| k == step)?.1,
            Json::Array(items) => items.get(step.parse::<usize>().ok()?)?,
            _ => return None,
        };
    }
    Some(cur)
}

#[test]
fn set_inserts_a_key_the_typed_request_could_never_carry() {
    let mut value = document();
    apply_patches(&mut value, &[Patch::set("/policies/0", "conflict", json("\"perm\""))]).unwrap();
    assert_eq!(at(&value, &["policies", "0", "conflict"]), Some(&json("\"perm\"")));
}

#[test]
fn set_replaces_an_existing_key_rather_than_duplicating_it() {
    let mut value = document();
    apply_patches(&mut value, &[Patch::set("/config", "behaviour", json("\"default\""))]).unwrap();
    assert_eq!(at(&value, &["config", "behaviour"]), Some(&json("\"default\"")));
    match at(&value, &["config"]) {
        Some(Json::Object(ms)) => assert_eq!(ms.len(), 1),
        other => panic!("config must stay an object, got {other:?}"),
    }
}

#[test]
fn set_reaches_the_request_root_through_the_empty_pointer() {
    let mut value = document();
    apply_patches(&mut value, &[Patch::set("", "inheritFrom", json("\"parent\""))]).unwrap();
    assert_eq!(at(&value, &["inheritFrom"]), Some(&json("\"parent\"")));
}

#[test]
fn remove_deletes_a_present_key() {
    let mut value = document();
    apply_patches(&mut value, &[Patch::remove("/config", "behaviour")]).unwrap();
    assert!(at(&value, &["config", "behaviour"]).is_none());
}

#[test]
fn a_pointer_that_does_not_resolve_is_an_error_not_a_silent_no_op() {
    let mut value = document();
    let err = apply_patches(&mut value, &[Patch::set("/policies/7", "conflict", json("\"perm\""))]).unwrap_err();
    assert!(err.contains("does not resolve"), "{err}");
}

#[test]
fn a_pointer_resolving_to_a_non_object_is_an_error_naming_what_it_found() {
    let mut value = document();
    let err = apply_patches(&mut value, &[Patch::set("/policies", "conflict", json("\"perm\""))]).unwrap_err();
    assert!(err.contains("resolves to a array"), "{err}");

    let err = apply_patches(&mut value, &[Patch::set("/policies/0/id", "x", json("1"))]).unwrap_err();
    assert!(err.contains("resolves to a string"), "{err}");
}

#[test]
fn removing_an_absent_key_is_an_error_too() {
    let mut value = document();
    let err = apply_patches(&mut value, &[Patch::remove("/config", "dutyMode")]).unwrap_err();
    assert!(err.contains("carries no key `dutyMode`"), "{err}");
}

#[test]
fn patches_apply_in_order_so_a_later_one_sees_an_earlier_ones_object() {
    let mut value = document();
    apply_patches(
        &mut value,
        &[
            Patch::set("/policies/0", "duty", json("{}")),
            Patch::set("/policies/0/duty", "action", json("\"compensate\"")),
        ],
    )
    .unwrap();
    assert_eq!(at(&value, &["policies", "0", "duty", "action"]), Some(&json("\"compensate\"")));
}

#[test]
fn an_inserted_key_takes_its_place_in_key_order() {
    let mut value = document();
    apply_patches(&mut value, &[Patch::set("", "claims", json("{}"))]).unwrap();
    let keys: Vec<&str> = match &value {
        Json::Object(ms) => ms.iter().map(|(k, _)| k.as_str()).collect(),
        _ => panic!("the document is an object"),
    };
    assert_eq!(keys, vec!["claims", "config", "policies"]);
}

#[test]
fn escaped_pointer_tokens_and_leading_zeros() {
    let mut value = json(r#"{ "a/b": { "m~n": {} }, "list": [ {}, {} ] }"#);
    apply_patches(&mut value, &[Patch::set("/a~1b/m~0n", "k", json("true"))]).unwrap();
    assert_eq!(at(&value, &["a/b", "m~n", "k"]), Some(&json("true")));
    assert!(apply_patches(&mut value, &[Patch::set("/list/01", "k", json("1"))]).is_err());
    assert!(apply_patches(&mut value, &[Patch::set("list", "k", json("1"))]).is_err());
    apply_patches(&mut value, &[Patch::set("/list/1", "k", json("1"))]).unwrap();
    assert_eq!(at(&value, &["list", "1", "k"]), Some(&json("1")));
}

#[test]
fn a_failing_patch_keeps_the_earlier_ones_and_stops() {
    let mut value = document();
    let err = apply_patches(
        &mut value,
        &[
            Patch::set("", "first", json("1")),
            Patch::remove("/config", "absent"),
            Patch::set("", "third", json("3")),
        ],
    )
    .unwrap_err();
    assert!(err.contains("absent"), "{err}");
    assert_eq!(at(&value, &["first"]), Some(&json("1")));
    assert!(at(&value, &["third"]).is_none());
}
