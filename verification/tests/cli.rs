use ds_odrl_adapters::cli::{add_claim, parse_args, parse_behaviour, parse_duty_mode};
use ds_odrl_adapters::wire::{Behaviour, ClaimValue, Claims, DutyMode};

fn strings(args: &[&str]) -> Vec<String> {
    args.iter().map(|a| a.to_string()).collect()
}

#[test]
fn duty_mode_and_behaviour_spellings() {
    assert_eq!(parse_duty_mode("advise"), Ok(DutyMode::Advise));
    assert_eq!(parse_duty_mode("deny"), Ok(DutyMode::Deny));
    assert_eq!(
        parse_duty_mode("strict"),
        Err("--duty-mode must be \"advise\" or \"deny\", got \"strict\"".to_string())
    );
    assert_eq!(parse_behaviour("open"), Ok(Behaviour::Open));
    assert_eq!(parse_behaviour("closed"), Ok(Behaviour::Closed));
    assert_eq!(parse_behaviour("default"), Ok(Behaviour::Closed));
    assert!(parse_behaviour("Open").is_err());
}

#[test]
fn a_repeated_claim_key_becomes_a_multi_valued_claim() {
    let mut claims = Claims::new();
    add_claim(&mut claims, "scope=read").unwrap();
    add_claim(&mut claims, "sub=alice").unwrap();
    add_claim(&mut claims, "scope=write").unwrap();
    add_claim(&mut claims, "scope=a=b").unwrap();
    assert_eq!(claims.entries.len(), 2);
    assert_eq!(claims.entries[0].0, "scope");
    assert_eq!(
        claims.entries[0].1,
        ClaimValue::Multi(vec!["read".to_string(), "write".to_string(), "a=b".to_string()])
    );
    assert_eq!(claims.entries[1], ("sub".to_string(), ClaimValue::Single("alice".to_string())));
}

#[test]
fn a_claim_without_an_equals_sign_is_an_error_and_changes_nothing() {
    let mut claims = Claims::new();
    add_claim(&mut claims, "sub=alice").unwrap();
    let err = add_claim(&mut claims, "nokey").unwrap_err();
    assert_eq!(err, "--claim expects key=value, got \"nokey\"");
    assert_eq!(claims.entries.len(), 1);
}

#[test]
fn options_take_the_next_argument_and_everything_else_is_a_file() {
    let args = parse_args(&strings(&[
        "offer.json", "--dataset-id", "urn:asset:A", "--action", "use", "--claim", "sub=alice",
        "--duty-mode", "deny", "--behaviour", "open",
    ]))
    .unwrap();
    assert_eq!(args.files, vec!["offer.json".to_string()]);
    assert_eq!(args.dataset_id.as_deref(), Some("urn:asset:A"));
    assert_eq!(args.action.as_deref(), Some("use"));
    assert_eq!(args.claims.entries.len(), 1);
    assert_eq!(args.duty_mode, DutyMode::Deny);
    assert_eq!(args.behaviour, Behaviour::Open);
}

#[test]
fn defaults_are_advise_and_closed() {
    let args = parse_args(&strings(&["a.json", "b.json"])).unwrap();
    assert_eq!(args.files.len(), 2);
    assert_eq!(args.duty_mode, DutyMode::Advise);
    assert_eq!(args.behaviour, Behaviour::Closed);
    assert!(args.claims.entries.is_empty());
}

#[test]
fn an_option_without_its_value_is_an_error() {
    assert_eq!(parse_args(&strings(&["x", "--action"])).err().as_deref(), Some("--action needs a value"));
    assert!(parse_args(&strings(&["--duty-mode", "sometimes"])).is_err());
}
