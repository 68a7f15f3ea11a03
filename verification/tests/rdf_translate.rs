use ds_odrl_adapters::rdf::Graph;
use ds_odrl_adapters::rdf_ids::merged_policy_ids;
use ds_odrl_adapters::rdf_translate::{translate_constraint, translate_request};
use ds_odrl_adapters::wire::{Behaviour, ClaimValue, ConflictStrategy, DutyMode, Operator};

const CASE: &str = r#"@base <https://example.org/tc> .
@prefix : <#> .
@prefix odrl: <http://www.w3.org/ns/odrl/2/> .
@prefix dsc: <https://ds-labs-org.github.io/ds-odrl-compliance-rdf/ns#> .
@prefix rdf: <http://www.w3.org/1999/02/22-rdf-syntax-ns#> .

:request a dsc:Request ;
    odrl:target :dataset ;
    odrl:action odrl:read ;
    dsc:profile :profile ;
    dsc:policy :policy ;
    dsc:claim :c1, :c2 .
:dataset odrl:partOf :catalog .
:profile a odrl:Profile ;
    odrl:action odrl:use, odrl:read ;
    dsc:dutyMode dsc:Deny ;
    dsc:behaviour dsc:Closed ;
    dsc:partyIdentityClaim "sub" .
odrl:read odrl:includedIn odrl:use .
:policy a odrl:Agreement ;
    odrl:assigner :provider ;
    odrl:assignee :alice ;
    odrl:permission :perm1 ;
    odrl:prohibition :proh1 ;
    odrl:conflict odrl:perm ;
    dsc:inheritsFrom ( :parent ) .
:perm1 odrl:action odrl:use ;
    odrl:target :dataset ;
    odrl:constraint :c ;
    odrl:duty :d1 .
:c odrl:and ( :a1 :a2 ) .
:a1 odrl:leftOperand odrl:purpose ; odrl:operator odrl:eq ; odrl:rightOperand "research" .
:a2 odrl:leftOperand :tier ; odrl:operator odrl:isAnyOf ; odrl:rightOperand "gold", "silver" .
:tier a dsc:ClaimKey ; dsc:key "https://example.org/tier" .
:d1 odrl:action odrl:compensate ; odrl:consequence :d2 .
:d2 odrl:action odrl:inform .
:proh1 odrl:action [ rdf:value odrl:distribute ; odrl:refinement :r1 ] .
:r1 odrl:leftOperand odrl:count ; odrl:operator odrl:gt ; odrl:rightOperand 5 .
:c1 dsc:key "sub" ; rdf:value :alice .
:c2 dsc:key "scope" ; rdf:value "a", "b" .
"#;

const REQUEST: &str = "https://example.org/tc#request";

#[test]
fn a_request_node_translates_field_for_field() {
    let g = Graph::parse_str(CASE).unwrap();
    let (request, ids) = translate_request(&g, REQUEST).unwrap();
    assert_eq!(request.dataset_id, "dataset");
    assert_eq!(request.action, "read");
    assert_eq!(request.asset_collections, vec!["catalog".to_string()]);

    let config = &request.config;
    assert_eq!(config.type_, "odrl:Profile");
    assert_eq!(config.id, "#profile");
    assert_eq!(config.actions.len(), 2);
    assert_eq!(config.actions[0].id, "use");
    assert!(config.actions[0].included_in.is_none());
    assert_eq!(config.actions[1].id, "read");
    assert_eq!(config.actions[1].included_in.as_ref().map(|n| n.id.as_str()), Some("use"));
    assert_eq!(config.duty_mode, DutyMode::Deny);
    assert_eq!(config.behaviour, Behaviour::Closed);
    assert_eq!(config.party_identity_claim.as_deref(), Some("sub"));
    assert_eq!(config.agreement_assignee_claim, None);

    let policy = &request.policies[0];
    assert_eq!(policy.id, "policy");
    assert_eq!(policy.kind, "Agreement");
    assert_eq!(policy.assigner, "provider");
    assert_eq!(policy.assignee.as_deref(), Some("alice"));
    assert_eq!(policy.conflict, ConflictStrategy::Perm);
    assert_eq!(policy.inherit_from, Some(vec!["parent".to_string()]));

    let permission = &policy.permissions[0];
    assert_eq!(permission.action, "use");
    assert_eq!(permission.target.as_deref(), Some("dataset"));
    let group = &permission.constraints[0];
    assert_eq!(group.and.len(), 2);
    assert_eq!(group.and[0].left_operand, "purpose");
    assert_eq!(group.and[0].operator, Operator::Eq);
    assert_eq!(group.and[0].right_operand, "research");
    assert_eq!(group.and[1].left_operand, "https://example.org/tier");
    assert_eq!(group.and[1].operator, Operator::IsAnyOf);
    assert_eq!(group.and[1].right_operand, "gold,silver");
    assert_eq!(permission.duty[0].action, "compensate");
    assert_eq!(permission.duty[0].consequence.as_ref().map(|c| c.action.as_str()), Some("inform"));

    let prohibition = &policy.prohibitions[0];
    assert_eq!(prohibition.action, "distribute");
    let refinement = prohibition.action_refinement.as_ref().unwrap();
    assert_eq!(refinement.left_operand, "count");
    assert_eq!(refinement.operator, Operator::Gt);
    assert_eq!(refinement.right_operand, "5");

    assert_eq!(request.claims.entries.len(), 2);
    assert_eq!(request.claims.entries[0].0, "sub");
    assert_eq!(request.claims.entries[0].1, ClaimValue::Single("alice".to_string()));
    assert_eq!(request.claims.entries[1].0, "scope");
    assert_eq!(request.claims.entries[1].1, ClaimValue::Multi(vec!["a".to_string(), "b".to_string()]));

    assert_eq!(ids.len(), 1);
    assert_eq!(ids[0].id, "policy");
    assert_eq!(ids[0].permissions[0].rule_id, "perm1");
    assert_eq!(ids[0].permissions[0].duty[0].rule_id, "d1");
    assert_eq!(ids[0].permissions[0].duty[0].consequence.as_ref().map(|c| c.rule_id.as_str()), Some("d2"));
    assert_eq!(ids[0].prohibitions[0].action, "distribute");
}

#[test]
fn a_profile_named_by_reference_is_an_error() {
    let g = Graph::parse_str(&CASE.replace(":profile a odrl:Profile ;", ":profile")).unwrap();
    let err = translate_request(&g, REQUEST).unwrap_err();
    assert!(err.contains("is not an inline odrl:Profile"), "{err}");
}

#[test]
fn a_request_without_a_target_is_an_error() {
    let g = Graph::parse_str(&CASE.replace("    odrl:target :dataset ;\n    odrl:action odrl:read ;", "    odrl:action odrl:read ;")).unwrap();
    assert_eq!(translate_request(&g, REQUEST).unwrap_err(), "https://example.org/tc#request: no odrl:target");
}

#[test]
fn an_operator_outside_the_ten_is_an_error_naming_it() {
    let g = Graph::parse_str(&CASE.replace("odrl:operator odrl:eq", "odrl:operator odrl:hasPart")).unwrap();
    let err = translate_request(&g, REQUEST).unwrap_err();
    assert!(err.contains("\"hasPart\""), "{err}");
}

#[test]
fn a_claim_without_a_value_is_an_error() {
    let g = Graph::parse_str(&CASE.replace(":c1 dsc:key \"sub\" ; rdf:value :alice .", ":c1 dsc:key \"sub\" .")).unwrap();
    assert_eq!(
        translate_request(&g, REQUEST).unwrap_err(),
        "https://example.org/tc#c1: dsc:ClaimAssertion has no rdf:value"
    );
}

#[test]
fn defaults_apply_when_the_profile_states_no_mode() {
    let text = CASE.replace("    dsc:dutyMode dsc:Deny ;\n    dsc:behaviour dsc:Closed ;\n", "");
    let g = Graph::parse_str(&text).unwrap();
    let (request, _) = translate_request(&g, REQUEST).unwrap();
    assert_eq!(request.config.duty_mode, DutyMode::Advise);
    assert_eq!(request.config.behaviour, Behaviour::Open);
}

#[test]
fn a_cyclic_logical_constraint_is_an_error_not_a_stack_overflow() {
    let g = Graph::parse_str(
        r#"@prefix odrl: <http://www.w3.org/ns/odrl/2/> .
@prefix ex: <http://example.org/> .
ex:c odrl:and ( ex:c ) ."#,
    )
    .unwrap();
    let err = translate_constraint(&g, "http://example.org/c", g.triples().len()).unwrap_err();
    assert!(err.contains("nesting is cyclic"), "{err}");
}

#[test]
fn merged_policy_ids_puts_own_rules_before_each_parents() {
    let text = CASE.replace(":request a dsc:Request ;", ":request a dsc:Request ;\n    dsc:policy :parent ;")
        + ":parent a odrl:Set ; odrl:permission :pp .\n:pp odrl:action odrl:print .\n";
    let g = Graph::parse_str(&text).unwrap();
    let (_, ids) = translate_request(&g, REQUEST).unwrap();
    let merged = merged_policy_ids(&ids, "policy").unwrap();
    let perms: Vec<&str> = merged.permissions.iter().map(|r| r.rule_id.as_str()).collect();
    assert_eq!(perms, vec!["perm1", "pp"]);
    let parent = merged_policy_ids(&ids, "parent").unwrap();
    assert_eq!(parent.permissions.len(), 1);
    assert!(merged_policy_ids(&ids, "nowhere").is_err());
}
