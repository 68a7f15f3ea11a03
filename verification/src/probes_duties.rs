//! Coverage probes, category 7: duty relations.

use vstd::prelude::*;
use crate::patch::PatchV;
use crate::json::{Json, JsonV};
use crate::text::{owned, concat2};
use crate::wire::{Request, Rule, RuleV, WirePolicy, Operator, ConflictStrategy, DutyMode, Claims, Constraint, ConstraintV, cviews, rviews};
use crate::probe::{RequestV, PolicyWireV, ConfigV, request_view, requests, extras, policy_v, rule_v, base_request_v, flat_config_v};
use crate::coverage::strs_view;
use crate::coverage;
use crate::coverage::{deny, base_allow_reason, duty, attached_duty};
use crate::probe::{ProbeSpec, heads, texts, reasons, patch_lists, ref_json, refs_json, POSITIVE, NEGATIVE, base_request, config, flat_config, action, policy, rule, jstr, jarr, jobj, c, s, claims, no_claims, one, constrained};
use crate::patch::Patch;
use crate::coverage::{closed_deny_text, constrained_allow_text, base_allow_text};
use crate::probe::{pairs_v, lemma_put_all_distinct, decls_v, DATASET_ID};
use crate::cli::claims_view;
use crate::rdf_translate::ClaimV;
use crate::wire::{RequestConfig, Behaviour, atom_v};

use crate::probe::{expect_extras_view, put_all};
verus! {

/// The request [`obligation_request`] makes.
pub open spec fn obligation_request_v(duty_mode: DutyMode, obligations: Seq<RuleV>, claims: Seq<(Seq<char>, ClaimV)>) -> RequestV {
    RequestV {
        config: ConfigV { duty_mode, ..flat_config_v(seq!["use"@, "notify"@]) },
        policies: seq![PolicyWireV { obligations, ..policy_v("probe"@, seq![rule_v("use"@, Seq::empty())]) }],
        claims,
        ..base_request_v()
    }
}

/// The rule [`asserted_duty`] makes.
pub open spec fn asserted_duty_v(action: Seq<char>) -> RuleV {
    rule_v(action, seq![atom_v("duty:"@ + action, Operator::Eq, "fulfilled"@)])
}

/// The claims [`fulfilled`] makes.
pub open spec fn fulfilled_v(action: Seq<char>) -> Seq<(Seq<char>, ClaimV)> {
    seq![("duty:"@ + action, ClaimV::Single("fulfilled"@))]
}

/// The request [`permission_duty_request`] makes.
pub open spec fn permission_duty_request_v(duty_mode: DutyMode, duty: RuleV, claims: Seq<(Seq<char>, ClaimV)>) -> RequestV {
    RequestV {
        config: ConfigV { duty_mode, ..flat_config_v(seq!["use"@, "compensate"@, "notify"@]) },
        policies: seq![policy_v("probe"@, seq![RuleV { duty: seq![duty], ..rule_v("use"@, Seq::empty()) }])],
        claims,
        ..base_request_v()
    }
}

/// The rule [`notify_with_consequence`] makes.
pub open spec fn notify_with_consequence_v() -> RuleV {
    RuleV {
        consequence: Some(Box::new(asserted_duty_v("compensate"@))),
        ..rule_v("notify"@, seq![atom_v("duty:notify"@, Operator::Eq, "fulfilled"@)])
    }
}

/// The request [`remedy_request`] makes.
pub open spec fn remedy_request_v(claims: Seq<(Seq<char>, ClaimV)>) -> RequestV {
    RequestV {
        config: flat_config_v(seq!["use"@, "anonymize"@]),
        policies: seq![PolicyWireV {
            prohibitions: seq![RuleV {
                remedy: seq![asserted_duty_v("anonymize"@)],
                ..rule_v("use"@, seq![atom_v("nationality"@, Operator::Eq, "US"@)])
            }],
            conflict: ConflictStrategy::Prohibit,
            ..policy_v("probe"@, seq![rule_v("use"@, Seq::empty())])
        }],
        claims,
        ..base_request_v()
    }
}

/// The request [`consequence_request`] makes.
pub open spec fn consequence_request_v(duty_mode: DutyMode, claims: Seq<(Seq<char>, ClaimV)>) -> RequestV {
    RequestV {
        config: ConfigV { duty_mode, ..flat_config_v(seq!["use"@, "notify"@, "compensate"@]) },
        policies: seq![PolicyWireV {
            obligations: seq![notify_with_consequence_v()],
            ..policy_v("probe"@, seq![rule_v("use"@, Seq::empty())])
        }],
        claims,
        ..base_request_v()
    }
}

/// The request [`duty_beside_plain_use`] makes.
pub open spec fn duty_beside_plain_use_v() -> RequestV {
    RequestV {
        policies: seq![policy_v("probe"@, seq![
            RuleV { duty: seq![asserted_duty_v("compensate"@)], ..rule_v("use"@, Seq::empty()) },
            rule_v("use"@, Seq::empty()),
        ])],
        ..permission_duty_request_v(DutyMode::Deny, asserted_duty_v("compensate"@), Seq::empty())
    }
}

/// The unconstrained `use` permission every duty request starts from.
fn plain_use() -> (r: Vec<Rule>)
    ensures
        rviews(r@) == seq![rule_v("use"@, Seq::empty())],
{
    let r = vec![rule("use", vec![])];
    assert(cviews(Seq::<Constraint>::empty()) =~= Seq::<ConstraintV>::empty());
    assert(rviews(r@) =~= seq![rule_v("use"@, Seq::empty())]);
    r
}

/// [`base_request`] declaring `use` and `notify`, under `duty_mode`, whose
/// policy carries exactly `obligations`, with the claims `request_claims`.
fn obligation_request(duty_mode: DutyMode, obligations: Vec<Rule>, request_claims: Claims) -> (r: Request)
    ensures
        request_view(r) == obligation_request_v(duty_mode, rviews(obligations@), claims_view(request_claims)),
{
    let base = base_request();
    let ids: [&str; 2] = ["use", "notify"];
    let declared = flat_config(&ids);
    assert(strs_view(ids@) =~= seq!["use"@, "notify"@]);
    let config = RequestConfig { duty_mode, ..declared };
    let ghost ov = rviews(obligations@);
    let ghost cv = claims_view(request_claims);
    let p = WirePolicy { obligations, ..policy("probe", plain_use()) };
    let r = Request { config, policies: vec![p], claims: request_claims, ..base };
    assert(request_view(r) =~~= obligation_request_v(duty_mode, ov, cv));
    r
}

/// A duty asserted through the claims map, which is how every duty in this
/// engine resolves: `duty:<action> eq fulfilled`. There is no second lookup
/// mechanism -- a host states duty state as an ordinary claim.
fn asserted_duty(action: &str) -> (r: Rule)
    ensures
        r@ == asserted_duty_v(action@),
{
    let cs = vec![c(concat2("duty:", action).as_str(), Operator::Eq, "fulfilled")];
    assert(cviews(cs@) =~= seq![atom_v("duty:"@ + action@, Operator::Eq, "fulfilled"@)]);
    rule(action, cs)
}

/// Claims asserting the duty on `action` fulfilled.
fn fulfilled(action: &str) -> (r: Claims)
    ensures
        claims_view(r) == fulfilled_v(action@),
{
    let key = concat2("duty:", action);
    let pairs = vec![(key.as_str(), s("fulfilled"))];
    let r = claims(pairs);
    proof {
        assert(pairs_v(pairs@) =~= seq![("duty:"@ + action@, ClaimV::Single("fulfilled"@))]);
        lemma_put_all_distinct(pairs_v(pairs@));
    }
    r
}

/// [`base_request`] whose single `use` permission carries one
/// per-permission `odrl:duty`, under `duty_mode`.
fn permission_duty_request(duty_mode: DutyMode, duty: Rule, request_claims: Claims) -> (r: Request)
    ensures
        request_view(r) == permission_duty_request_v(duty_mode, duty@, claims_view(request_claims)),
{
    let base = base_request();
    let ids: [&str; 3] = ["use", "compensate", "notify"];
    let declared = flat_config(&ids);
    assert(strs_view(ids@) =~= seq!["use"@, "compensate"@, "notify"@]);
    let config = RequestConfig { duty_mode, ..declared };
    let ghost dv = duty@;
    let ghost cv = claims_view(request_claims);
    let duties = vec![duty];
    let use_rule = rule("use", vec![]);
    assert(cviews(Seq::<Constraint>::empty()) =~= Seq::<ConstraintV>::empty());
    let with_duty = Rule { duty: duties, ..use_rule };
    assert(with_duty@.duty =~= seq![dv]);
    assert(with_duty@.remedy =~= Seq::<RuleV>::empty());
    assert(with_duty@.constraints =~= Seq::<ConstraintV>::empty());
    assert(with_duty@ =~~= RuleV { duty: seq![dv], ..rule_v("use"@, Seq::empty()) });
    let permitted = vec![with_duty];
    assert(rviews(permitted@) =~= seq![RuleV { duty: seq![dv], ..rule_v("use"@, Seq::empty()) }]);
    let p = policy("probe", permitted);
    let r = Request { config, policies: vec![p], claims: request_claims, ..base };
    assert(request_view(r) =~~= permission_duty_request_v(duty_mode, dv, cv));
    r
}

/// A policy-level obligation `notify` carrying an `odrl:consequence` duty
/// `compensate`, both resolved from the claims map.
fn notify_with_consequence() -> (r: Rule)
    ensures
        r@ == notify_with_consequence_v(),
{
    let cs = vec![c("duty:notify", Operator::Eq, "fulfilled")];
    assert(cviews(cs@) =~= seq![atom_v("duty:notify"@, Operator::Eq, "fulfilled"@)]);
    let then = asserted_duty("compensate");
    let r = Rule::with_consequence(owned("notify"), cs, then);
    assert(r@.duty =~= Seq::<RuleV>::empty());
    assert(r@.remedy =~= Seq::<RuleV>::empty());
    assert(r@ =~~= notify_with_consequence_v());
    r
}

/// The prohibition every remedy probe varies: `use` prohibited for a US
/// claim, carrying an `odrl:remedy` duty `anonymize`.
fn remedy_request(request_claims: Claims) -> (r: Request)
    ensures
        request_view(r) == remedy_request_v(claims_view(request_claims)),
{
    let base = base_request();
    let ids: [&str; 2] = ["use", "anonymize"];
    let declared = flat_config(&ids);
    assert(strs_view(ids@) =~= seq!["use"@, "anonymize"@]);
    let ghost cv = claims_view(request_claims);
    let remedies = vec![asserted_duty("anonymize")];
    let cs = vec![c("nationality", Operator::Eq, "US")];
    assert(cviews(cs@) =~= seq![atom_v("nationality"@, Operator::Eq, "US"@)]);
    let prohibition = Rule { remedy: remedies, ..rule("use", cs) };
    let ghost pv = RuleV { remedy: seq![asserted_duty_v("anonymize"@)], ..rule_v("use"@, seq![atom_v("nationality"@, Operator::Eq, "US"@)]) };
    assert(prohibition@.remedy =~= seq![asserted_duty_v("anonymize"@)]);
    assert(prohibition@.duty =~= Seq::<RuleV>::empty());
    assert(prohibition@ =~~= pv);
    let prohibited = vec![prohibition];
    assert(rviews(prohibited@) =~= seq![pv]);
    // The base request's unconstrained `use` permission plus this
    // prohibition is a genuine odrl:conflict collision for a US claim.
    // These probes are about a remedy never lifting a prohibition that
    // won, so the policy declares the strategy under which one does --
    // otherwise it would be void under ODRL's default and there would be
    // no deciding prohibition to hang a remedy clause off at all (category
    // 9 covers that case on its own).
    let p = WirePolicy { prohibitions: prohibited, conflict: ConflictStrategy::Prohibit, ..policy("probe", plain_use()) };
    let r = Request { config: declared, policies: vec![p], claims: request_claims, ..base };
    assert(request_view(r) =~~= remedy_request_v(cv));
    r
}

/// [`base_request`] declaring `use`, `notify` and `compensate`, under
/// `duty_mode`, whose policy carries one obligation `notify` with the
/// consequence `compensate`, with the claims `request_claims`.
fn consequence_request(duty_mode: DutyMode, request_claims: Claims) -> (r: Request)
    ensures
        request_view(r) == consequence_request_v(duty_mode, claims_view(request_claims)),
{
    let base = base_request();
    let ids: [&str; 3] = ["use", "notify", "compensate"];
    let declared = flat_config(&ids);
    assert(strs_view(ids@) =~= seq!["use"@, "notify"@, "compensate"@]);
    let config = RequestConfig { duty_mode, ..declared };
    let ghost cv = claims_view(request_claims);
    let obligations = vec![notify_with_consequence()];
    assert(rviews(obligations@) =~= seq![notify_with_consequence_v()]);
    let p = WirePolicy { obligations, ..policy("probe", plain_use()) };
    let r = Request { config, policies: vec![p], claims: request_claims, ..base };
    assert(request_view(r) =~~= consequence_request_v(duty_mode, cv));
    r
}

/// [`permission_duty_request`] under `dutyMode: deny` with the duty
/// `compensate` unresolved, beside a second, plain `use` permission.
fn duty_beside_plain_use() -> (r: Request)
    ensures
        request_view(r) == duty_beside_plain_use_v(),
{
    let request = permission_duty_request(DutyMode::Deny, asserted_duty("compensate"), no_claims());
    let ghost before = request_view(request);
    let ghost dv = RuleV { duty: seq![asserted_duty_v("compensate"@)], ..rule_v("use"@, Seq::empty()) };
    assert(before.policies[0].permissions == seq![dv]);
    let duties = vec![asserted_duty("compensate")];
    let use_rule = rule("use", vec![]);
    assert(cviews(Seq::<Constraint>::empty()) =~= Seq::<ConstraintV>::empty());
    let with_duty = Rule { duty: duties, ..use_rule };
    assert(with_duty@.duty =~= seq![asserted_duty_v("compensate"@)]);
    assert(with_duty@.remedy =~= Seq::<RuleV>::empty());
    assert(with_duty@.constraints =~= Seq::<ConstraintV>::empty());
    assert(with_duty@ =~~= dv);
    let permitted = vec![with_duty, rule("use", vec![])];
    assert(rviews(permitted@) =~= seq![dv, rule_v("use"@, Seq::empty())]);
    let p = policy("probe", permitted);
    let r = Request { policies: vec![p], ..request };
    assert(request_view(r) =~~= duty_beside_plain_use_v());
    r
}

/// The `(id, kind, expected decision)` of each probe [`duty_probes`] writes, in order.
pub open spec fn duty_heads() -> Seq<(Seq<char>, Seq<char>, Seq<char>)> {
    seq![
        ("duty-obligation-unresolved-advise"@, POSITIVE@, "Allow"@),
        ("duty-obligation-satisfied-by-claims"@, POSITIVE@, "Allow"@),
        ("duty-obligation-deny-mode"@, POSITIVE@, "Deny"@),
        ("duty-per-permission-unresolved-deny"@, POSITIVE@, "Deny"@),
        ("duty-per-permission-satisfied"@, POSITIVE@, "Allow"@),
        ("duty-per-permission-advisory"@, POSITIVE@, "Allow"@),
        ("duty-per-permission-scoped-to-its-own-permission"@, POSITIVE@, "Allow"@),
        ("duty-consequence-resolves-where-the-primary-did-not"@, POSITIVE@, "Allow"@),
        ("duty-consequence-itself-unresolved"@, POSITIVE@, "Allow"@),
        ("duty-remedy-unresolved-does-not-drop-the-prohibition"@, POSITIVE@, "Deny"@),
        ("duty-remedy-satisfied-still-denies"@, POSITIVE@, "Deny"@),
        ("duty-remedy-not-reported-when-the-prohibition-does-not-fire"@, NEGATIVE@, "Allow"@),
        ("duty-profile-rule-class-inert"@, NEGATIVE@, "Allow"@),
    ]
}

/// The `(title, asserts, falsified_by)` of each probe [`duty_probes`] writes, in order.
pub open spec fn duty_texts() -> Seq<(Seq<char>, Seq<char>, Seq<char>)> {
    seq![
        (
            "an unconditional policy-level obligation is reported unresolved, not satisfied"@,
            "\"Satisfied\" here means a claims precondition the engine can check. An obligation with \
                  no constraints is an unconditional \"you must notify\" it has no way to verify, so it \
                  surfaces in `duties` rather than being assumed done."@,
            "an empty duties list -- which would mean an unverifiable duty is treated as met"@,
        ),
        (
            "a constrained obligation whose constraints match resolves and leaves duties empty"@,
            "The other half: duty satisfaction is purely a claims precondition, never an observation \
                  that the action was performed."@,
            "a non-empty duties list"@,
        ),
        (
            "under dutyMode: deny an unresolved obligation overrides the Allow"@,
            "The same request as duty-obligation-unresolved-advise with one knob moved. duties is \
                  emptied because the information is already carried by the decision itself."@,
            "Allow -- which would make dutyMode inert"@,
        ),
        (
            "under dutyMode: deny an unresolved per-permission odrl:duty stops that permission granting"@,
            "ODRL's `duty` on a Permission is a PRE-CONDITION for receiving that permission. It is                   resolved exactly as a policy-level obligation is -- its own constraints against the                   claims -- but the effect is scoped to the one permission it hangs off, so the reason                   names the permission rather than the policy."@,
            "Allow, which would mean the pre-condition was discarded -- the fail-open gap this                        row recorded before the field existed"@,
        ),
        (
            "the same permission grants once the claims assert its duty fulfilled"@,
            "The paired hit for the probe above: one claim differs. Without it, an engine that                   denied every duty-bearing permission outright would pass the deny probe."@,
            "Deny, or a non-empty duties list"@,
        ),
        (
            "under dutyMode: advise the same unresolved duty is advisory, and carries its attachment point"@,
            "The duty surfaces in `duties` with a `source` naming where it hangs -- the field a                   policy-level obligation never carries, which is how a caller tells the two apart."@,
            "Deny, or a duties entry with no source"@,
        ),
        (
            "an unresolved per-permission duty does not deny a policy whose other permission grants"@,
            "The difference from a policy-level obligation, stated as an observation: under the same                   dutyMode: deny, an unresolved *obligation* denies outright (duty-obligation-deny-mode),                   while an unresolved duty on permission[0] leaves permission[1] free to grant."@,
            "Deny -- which would mean the duty was applied policy-wide, not to its own permission"@,
        ),
        (
            "an unfulfilled duty falls through to its odrl:consequence, which resolves"@,
            "`notify` is not fulfilled, so ODRL says the consequence duty is what now applies -- and                   the claims assert *it* fulfilled, so nothing is outstanding and dutyMode: deny has                   nothing to act on."@,
            "Deny, or a duties entry -- either would mean the consequence was never consulted"@,
        ),
        (
            "a consequence that is itself unresolved leaves dutyMode governing, and is named as a consequence"@,
            "The paired miss: the same obligation with no claims at all. The outstanding duty reported                   is the consequence -- what the policy now requires -- not the `notify` it replaced, and                   its source says `.consequence`."@,
            "a duties entry naming notify, or one with no source"@,
        ),
        (
            "a violated prohibition's unresolved odrl:remedy denies and leaves a trace"@,
            "The specific fail-open hazard this engine's README names for remedy: a violated duty                   attached to a prohibition must not drop the prohibition. It denies exactly as the bare                   prohibition would, the remedy is named in the reason, and it surfaces in duties with its                   attachment point."@,
            "Allow, or an empty duties list, or a reason that does not mention the remedy"@,
        ),
        (
            "a satisfied remedy still denies -- a duty never loosens a decision in this engine"@,
            "The documented sub-decision, as an observation rather than a claim: one extra claim                   resolves the remedy, and the decision is the same Deny. Duties here only ever tighten a                   decision (dutyMode: deny turns Allow into Deny; nothing turns Deny into Allow), so the                   ODRL reading where a remedy substitutes for the violation is deliberately not                   implemented -- see engine/src/decision.rs::decide."@,
            "Allow -- which would make a single host-supplied claim able to erase a prohibition"@,
        ),
        (
            "a remedy on a prohibition that never applies is not reported"@,
            "A remedy is what must be done *on violation*. The same policy with a DE claim leaves the                   prohibition inapplicable, and reporting its remedy would invent an obligation out of a                   rule that had nothing to say."@,
            "a duties entry naming anonymize"@,
        ),
        (
            "a profile-declared Rule class on a policy is dropped"@,
            "`ex:auditObligations` as a fourth rule list beside permissions/prohibitions/obligations. \
                  Identical decision, identical reason and an empty duties list, against act-base-exact's \
                  byte-identical request without it."@,
            "any decision, reason or duties list differing from act-base-exact's"@,
        ),
    ]
}

/// What the reason of each probe [`duty_probes`] writes must contain and must not
/// contain, in order.
pub open spec fn duty_reasons() -> Seq<(Seq<Seq<char>>, Seq<Seq<char>>)> {
    seq![
        (seq![base_allow_text()], seq![]),
        (seq![base_allow_text()], seq![]),
        (seq!["duty[0] 'notify' of policy 'probe' is unresolved under duty_mode: deny"@], seq![]),
        (seq!["permission[0] of policy 'probe' matched, but its odrl:duty[0] 'compensate' is \
             unresolved under duty_mode: deny"@], seq![]),
        (seq!["permission[0] of policy 'probe' matched: action 'use', unconstrained; odrl:duty[0] \
             'compensate' satisfied"@], seq![]),
        (seq!["permission[0] of policy 'probe' matched: action 'use', unconstrained"@], seq![]),
        (seq!["permission[1] of policy 'probe' matched: action 'use', unconstrained"@], seq![]),
        (seq![base_allow_text()], seq![]),
        (seq![base_allow_text()], seq![]),
        (seq!["prohibition[0] of policy 'probe' matched: action 'use': nationality eq US; its \
             odrl:remedy[0] 'anonymize' is unresolved and does not lift the prohibition; \
             odrl:conflict 'prohibit' resolves the conflict with permission[0] in the prohibition's favour"@], seq![]),
        (seq!["prohibition[0] of policy 'probe' matched: action 'use': nationality eq US; its \
             odrl:remedy[0] 'anonymize' is satisfied, which does not lift the prohibition; \
             odrl:conflict 'prohibit' resolves the conflict with permission[0] in the prohibition's favour"@], seq![]),
        (seq![base_allow_text()], seq![]),
        (seq![base_allow_text()], seq![]),
    ]
}

/// The patches of each probe [`duty_probes`] writes, in order.
pub open spec fn duty_patches() -> Seq<Seq<PatchV>> {
    seq![
        seq![],
        seq![],
        seq![],
        seq![],
        seq![],
        seq![],
        seq![],
        seq![],
        seq![],
        seq![],
        seq![],
        seq![],
        seq![PatchV::SetKey("/policies/0"@, "ex:auditObligations"@, audit_obligations_json())],
    ]
}

/// The JSON of one rule of a profile-declared rule class: `notify`, with
/// no constraints.
pub open spec fn audit_obligations_json() -> JsonV {
    JsonV::Array(seq![JsonV::Object(seq![("action"@, JsonV::Str("notify"@)), ("constraints"@, JsonV::Array(seq![]))])])
}

fn audit_obligations() -> (r: Json)
    ensures
        r@ == audit_obligations_json(),
{
    let none: Vec<Json> = Vec::new();
    let empty = jarr(none);
    assert(crate::json::items_view(none@) =~= Seq::<JsonV>::empty());
    assert(empty@ == JsonV::Array(seq![]));
    let members = vec![("action", jstr("notify")), ("constraints", empty)];
    let rule = jobj(members);
    assert(Seq::new(members@.len(), |i: int| (members@[i].0@, members@[i].1@))
        =~= seq![("action"@, JsonV::Str("notify"@)), ("constraints"@, JsonV::Array(seq![]))]);
    let items = vec![rule];
    let r = jarr(items);
    assert(crate::json::items_view(items@) =~= seq![rule@]);
    r
}

/// The request of each probe [`duty_probes`] writes, in order.
pub open spec fn duty_requests() -> Seq<RequestV> {
    seq![
        obligation_request_v(DutyMode::Advise, seq![rule_v("notify"@, seq![])], Seq::empty()),
        obligation_request_v( DutyMode::Advise, seq![rule_v("notify"@, seq![atom_v("notified"@, Operator::Eq, "true"@)])], put_all(seq![("notified"@, ClaimV::Single("true"@))]), ),
        obligation_request_v(DutyMode::Deny, seq![rule_v("notify"@, seq![])], Seq::empty()),
        permission_duty_request_v(DutyMode::Deny, asserted_duty_v("compensate"@), Seq::empty()),
        permission_duty_request_v(DutyMode::Deny, asserted_duty_v("compensate"@), fulfilled_v("compensate"@)),
        permission_duty_request_v(DutyMode::Advise, asserted_duty_v("compensate"@), Seq::empty()),
        duty_beside_plain_use_v(),
        consequence_request_v(DutyMode::Deny, fulfilled_v("compensate"@)),
        consequence_request_v(DutyMode::Advise, Seq::empty()),
        remedy_request_v(put_all(seq![("nationality"@, ClaimV::Single("US"@))])),
        remedy_request_v(put_all(seq![("nationality"@, ClaimV::Single("US"@)), ("duty:anonymize"@, ClaimV::Single("fulfilled"@))])),
        remedy_request_v(put_all(seq![("nationality"@, ClaimV::Single("DE"@))])),
        base_request_v(),
    ]
}

/// What the expectation of each probe [`duty_probes`] writes says of duties and of
/// the dataset, in order.
pub open spec fn duty_extras() -> Seq<(Option<Seq<(Seq<char>, Seq<char>, bool, Option<Seq<char>>)>>, Option<Seq<char>>)> {
    seq![
        (Some(seq![("probe"@, "notify"@, false, None::<Seq<char>>)]), None::<Seq<char>>),
        (Some(Seq::<(Seq<char>, Seq<char>, bool, Option<Seq<char>>)>::empty()), None::<Seq<char>>),
        (Some(Seq::<(Seq<char>, Seq<char>, bool, Option<Seq<char>>)>::empty()), None::<Seq<char>>),
        (Some(seq![("probe"@, "compensate"@, false, Some("permission[0].duty[0]"@))]), None::<Seq<char>>),
        (Some(Seq::<(Seq<char>, Seq<char>, bool, Option<Seq<char>>)>::empty()), None::<Seq<char>>),
        (Some(seq![("probe"@, "compensate"@, false, Some("permission[0].duty[0]"@))]), None::<Seq<char>>),
        (Some(seq![("probe"@, "compensate"@, false, Some("permission[0].duty[0]"@))]), None::<Seq<char>>),
        (Some(Seq::<(Seq<char>, Seq<char>, bool, Option<Seq<char>>)>::empty()), None::<Seq<char>>),
        (Some(seq![("probe"@, "compensate"@, false, Some("duty[0].consequence"@))]), None::<Seq<char>>),
        (Some(seq![("probe"@, "anonymize"@, false, Some("prohibition[0].remedy[0]"@))]), None::<Seq<char>>),
        (Some(Seq::<(Seq<char>, Seq<char>, bool, Option<Seq<char>>)>::empty()), None::<Seq<char>>),
        (Some(Seq::<(Seq<char>, Seq<char>, bool, Option<Seq<char>>)>::empty()), None::<Seq<char>>),
        (Some(Seq::<(Seq<char>, Seq<char>, bool, Option<Seq<char>>)>::empty()), None::<Seq<char>>),
    ]
}

/// Category 7, duty relations: a policy-level obligation is a claims
/// precondition, unresolved unless its constraints match, and under
/// `dutyMode: deny` it overrides an Allow; a per-permission `odrl:duty`
/// gates only its own permission; an unfulfilled duty falls through to its
/// `odrl:consequence`; a remedy never lifts a prohibition; and a
/// profile-declared rule class is inert.
#[verifier::rlimit(80)]
pub fn duty_probes() -> (r: Vec<ProbeSpec>)
    ensures
        heads(r@) == duty_heads(),
        texts(r@) == duty_texts(),
        reasons(r@) == duty_reasons(),
        patch_lists(r@) == duty_patches(),
        requests(r@) == duty_requests(),
        extras(r@) == duty_extras(),
{
    let mut probes: Vec<ProbeSpec> = Vec::new();

    probes.push(ProbeSpec {
        id: "duty-obligation-unresolved-advise",
        kind: POSITIVE,
        title: "an unconditional policy-level obligation is reported unresolved, not satisfied",
        asserts: "\"Satisfied\" here means a claims precondition the engine can check. An obligation with \
                  no constraints is an unconditional \"you must notify\" it has no way to verify, so it \
                  surfaces in `duties` rather than being assumed done.",
        falsified_by: "an empty duties list -- which would mean an unverifiable duty is treated as met",
        request: obligation_request(DutyMode::Advise, vec![rule("notify", vec![])], no_claims()),
        patches: vec![],
        expect: coverage::allow(base_allow_reason().as_str()).with_duties(vec![duty("notify")]),
    });
    assert(request_view(probes@[0].request) =~~= duty_requests()[0]);
    assert(expect_extras_view(probes@[0].expect) =~~= duty_extras()[0]);

    probes.push(ProbeSpec {
        id: "duty-obligation-satisfied-by-claims",
        kind: POSITIVE,
        title: "a constrained obligation whose constraints match resolves and leaves duties empty",
        asserts: "The other half: duty satisfaction is purely a claims precondition, never an observation \
                  that the action was performed.",
        falsified_by: "a non-empty duties list",
        request: obligation_request(
            DutyMode::Advise,
            vec![rule("notify", vec![c("notified", Operator::Eq, "true")])],
            claims(vec![("notified", s("true"))]),
        ),
        patches: vec![],
        expect: coverage::allow(base_allow_reason().as_str()).with_duties(vec![]),
    });
    assert(request_view(probes@[1].request) =~~= duty_requests()[1]);
    assert(expect_extras_view(probes@[1].expect) =~~= duty_extras()[1]);

    probes.push(ProbeSpec {
        id: "duty-obligation-deny-mode",
        kind: POSITIVE,
        title: "under dutyMode: deny an unresolved obligation overrides the Allow",
        asserts: "The same request as duty-obligation-unresolved-advise with one knob moved. duties is \
                  emptied because the information is already carried by the decision itself.",
        falsified_by: "Allow -- which would make dutyMode inert",
        request: obligation_request(DutyMode::Deny, vec![rule("notify", vec![])], no_claims()),
        patches: vec![],
        expect: deny("duty[0] 'notify' of policy 'probe' is unresolved under duty_mode: deny").with_duties(vec![]),
    });
    assert(request_view(probes@[2].request) =~~= duty_requests()[2]);
    assert(expect_extras_view(probes@[2].expect) =~~= duty_extras()[2]);

    probes.push(ProbeSpec {
        id: "duty-per-permission-unresolved-deny",
        kind: POSITIVE,
        title: "under dutyMode: deny an unresolved per-permission odrl:duty stops that permission granting",
        asserts: "ODRL's `duty` on a Permission is a PRE-CONDITION for receiving that permission. It is                   resolved exactly as a policy-level obligation is -- its own constraints against the                   claims -- but the effect is scoped to the one permission it hangs off, so the reason                   names the permission rather than the policy.",
        falsified_by: "Allow, which would mean the pre-condition was discarded -- the fail-open gap this                        row recorded before the field existed",
        request: permission_duty_request(DutyMode::Deny, asserted_duty("compensate"), no_claims()),
        patches: vec![],
        expect: deny(
            "permission[0] of policy 'probe' matched, but its odrl:duty[0] 'compensate' is \
             unresolved under duty_mode: deny",
        )
        .with_duties(vec![attached_duty("compensate", "permission[0].duty[0]")]),
    });
    assert(request_view(probes@[3].request) =~~= duty_requests()[3]);
    assert(expect_extras_view(probes@[3].expect) =~~= duty_extras()[3]);

    probes.push(ProbeSpec {
        id: "duty-per-permission-satisfied",
        kind: POSITIVE,
        title: "the same permission grants once the claims assert its duty fulfilled",
        asserts: "The paired hit for the probe above: one claim differs. Without it, an engine that                   denied every duty-bearing permission outright would pass the deny probe.",
        falsified_by: "Deny, or a non-empty duties list",
        request: permission_duty_request(DutyMode::Deny, asserted_duty("compensate"), fulfilled("compensate")),
        patches: vec![],
        expect: coverage::allow(
            "permission[0] of policy 'probe' matched: action 'use', unconstrained; odrl:duty[0] \
             'compensate' satisfied",
        )
        .with_duties(vec![]),
    });
    assert(request_view(probes@[4].request) =~~= duty_requests()[4]);
    assert(expect_extras_view(probes@[4].expect) =~~= duty_extras()[4]);

    probes.push(ProbeSpec {
        id: "duty-per-permission-advisory",
        kind: POSITIVE,
        title: "under dutyMode: advise the same unresolved duty is advisory, and carries its attachment point",
        asserts: "The duty surfaces in `duties` with a `source` naming where it hangs -- the field a                   policy-level obligation never carries, which is how a caller tells the two apart.",
        falsified_by: "Deny, or a duties entry with no source",
        request: permission_duty_request(DutyMode::Advise, asserted_duty("compensate"), no_claims()),
        patches: vec![],
        expect: coverage::allow("permission[0] of policy 'probe' matched: action 'use', unconstrained")
            .with_duties(vec![attached_duty("compensate", "permission[0].duty[0]")]),
    });
    assert(request_view(probes@[5].request) =~~= duty_requests()[5]);
    assert(expect_extras_view(probes@[5].expect) =~~= duty_extras()[5]);

    probes.push(ProbeSpec {
        id: "duty-per-permission-scoped-to-its-own-permission",
        kind: POSITIVE,
        title: "an unresolved per-permission duty does not deny a policy whose other permission grants",
        asserts: "The difference from a policy-level obligation, stated as an observation: under the same                   dutyMode: deny, an unresolved *obligation* denies outright (duty-obligation-deny-mode),                   while an unresolved duty on permission[0] leaves permission[1] free to grant.",
        falsified_by: "Deny -- which would mean the duty was applied policy-wide, not to its own permission",
        request: duty_beside_plain_use(),
        patches: vec![],
        expect: coverage::allow("permission[1] of policy 'probe' matched: action 'use', unconstrained")
            .with_duties(vec![attached_duty("compensate", "permission[0].duty[0]")]),
    });
    assert(request_view(probes@[6].request) =~~= duty_requests()[6]);
    assert(expect_extras_view(probes@[6].expect) =~~= duty_extras()[6]);

    probes.push(ProbeSpec {
        id: "duty-consequence-resolves-where-the-primary-did-not",
        kind: POSITIVE,
        title: "an unfulfilled duty falls through to its odrl:consequence, which resolves",
        asserts: "`notify` is not fulfilled, so ODRL says the consequence duty is what now applies -- and                   the claims assert *it* fulfilled, so nothing is outstanding and dutyMode: deny has                   nothing to act on.",
        falsified_by: "Deny, or a duties entry -- either would mean the consequence was never consulted",
        request: consequence_request(DutyMode::Deny, fulfilled("compensate")),
        patches: vec![],
        expect: coverage::allow(base_allow_reason().as_str()).with_duties(vec![]),
    });
    assert(request_view(probes@[7].request) =~~= duty_requests()[7]);
    assert(expect_extras_view(probes@[7].expect) =~~= duty_extras()[7]);

    probes.push(ProbeSpec {
        id: "duty-consequence-itself-unresolved",
        kind: POSITIVE,
        title: "a consequence that is itself unresolved leaves dutyMode governing, and is named as a consequence",
        asserts: "The paired miss: the same obligation with no claims at all. The outstanding duty reported                   is the consequence -- what the policy now requires -- not the `notify` it replaced, and                   its source says `.consequence`.",
        falsified_by: "a duties entry naming notify, or one with no source",
        request: consequence_request(DutyMode::Advise, no_claims()),
        patches: vec![],
        expect: coverage::allow(base_allow_reason().as_str())
            .with_duties(vec![attached_duty("compensate", "duty[0].consequence")]),
    });
    assert(request_view(probes@[8].request) =~~= duty_requests()[8]);
    assert(expect_extras_view(probes@[8].expect) =~~= duty_extras()[8]);

    probes.push(ProbeSpec {
        id: "duty-remedy-unresolved-does-not-drop-the-prohibition",
        kind: POSITIVE,
        title: "a violated prohibition's unresolved odrl:remedy denies and leaves a trace",
        asserts: "The specific fail-open hazard this engine's README names for remedy: a violated duty                   attached to a prohibition must not drop the prohibition. It denies exactly as the bare                   prohibition would, the remedy is named in the reason, and it surfaces in duties with its                   attachment point.",
        falsified_by: "Allow, or an empty duties list, or a reason that does not mention the remedy",
        request: remedy_request(claims(vec![("nationality", s("US"))])),
        patches: vec![],
        expect: deny(
            "prohibition[0] of policy 'probe' matched: action 'use': nationality eq US; its \
             odrl:remedy[0] 'anonymize' is unresolved and does not lift the prohibition; \
             odrl:conflict 'prohibit' resolves the conflict with permission[0] in the prohibition's favour",
        )
        .with_duties(vec![attached_duty("anonymize", "prohibition[0].remedy[0]")]),
    });
    assert(request_view(probes@[9].request) =~~= duty_requests()[9]);
    assert(expect_extras_view(probes@[9].expect) =~~= duty_extras()[9]);

    probes.push(ProbeSpec {
        id: "duty-remedy-satisfied-still-denies",
        kind: POSITIVE,
        title: "a satisfied remedy still denies -- a duty never loosens a decision in this engine",
        asserts: "The documented sub-decision, as an observation rather than a claim: one extra claim                   resolves the remedy, and the decision is the same Deny. Duties here only ever tighten a                   decision (dutyMode: deny turns Allow into Deny; nothing turns Deny into Allow), so the                   ODRL reading where a remedy substitutes for the violation is deliberately not                   implemented -- see engine/src/decision.rs::decide.",
        falsified_by: "Allow -- which would make a single host-supplied claim able to erase a prohibition",
        request: remedy_request(claims(vec![("nationality", s("US")), ("duty:anonymize", s("fulfilled"))])),
        patches: vec![],
        expect: deny(
            "prohibition[0] of policy 'probe' matched: action 'use': nationality eq US; its \
             odrl:remedy[0] 'anonymize' is satisfied, which does not lift the prohibition; \
             odrl:conflict 'prohibit' resolves the conflict with permission[0] in the prohibition's favour",
        )
        .with_duties(vec![]),
    });
    assert(request_view(probes@[10].request) =~~= duty_requests()[10]);
    assert(expect_extras_view(probes@[10].expect) =~~= duty_extras()[10]);

    probes.push(ProbeSpec {
        id: "duty-remedy-not-reported-when-the-prohibition-does-not-fire",
        kind: NEGATIVE,
        title: "a remedy on a prohibition that never applies is not reported",
        asserts: "A remedy is what must be done *on violation*. The same policy with a DE claim leaves the                   prohibition inapplicable, and reporting its remedy would invent an obligation out of a                   rule that had nothing to say.",
        falsified_by: "a duties entry naming anonymize",
        request: remedy_request(claims(vec![("nationality", s("DE"))])),
        patches: vec![],
        expect: coverage::allow(base_allow_reason().as_str()).with_duties(vec![]),
    });
    assert(request_view(probes@[11].request) =~~= duty_requests()[11]);
    assert(expect_extras_view(probes@[11].expect) =~~= duty_extras()[11]);

    probes.push(ProbeSpec {
        id: "duty-profile-rule-class-inert",
        kind: NEGATIVE,
        title: "a profile-declared Rule class on a policy is dropped",
        asserts: "`ex:auditObligations` as a fourth rule list beside permissions/prohibitions/obligations. \
                  Identical decision, identical reason and an empty duties list, against act-base-exact's \
                  byte-identical request without it.",
        falsified_by: "any decision, reason or duties list differing from act-base-exact's",
        request: base_request(),
        patches: vec![Patch::set(
            "/policies/0",
            "ex:auditObligations",
            audit_obligations(),
        )],
        expect: coverage::allow(base_allow_reason().as_str()).with_duties(vec![]),
    });
    assert(request_view(probes@[12].request) =~~= duty_requests()[12]);
    assert(expect_extras_view(probes@[12].expect) =~~= duty_extras()[12]);

        assert(heads(probes@) =~= duty_heads());
        assert(texts(probes@) =~= duty_texts());
        assert(reasons(probes@) =~~= duty_reasons());
        assert(patch_lists(probes@) =~~= duty_patches());
        assert(requests(probes@) =~= duty_requests());
        assert(extras(probes@) =~= duty_extras());
    probes
}

} // verus!
