//! Coverage probes, category 1: actions.

use vstd::prelude::*;
use crate::probe::{RequestV, ConfigV, request_view, expect_extras_view, requests, extras, one_v, base_request_v, config_v, flat_config_v, taxonomy_config_v, policy_v, rule_v};
use crate::patch::PatchV;
use crate::json::JsonV;
use crate::text::owned;
use crate::wire::{WireActionDecl, Request, Constraint, ConstraintV, cviews, rviews};
use crate::coverage;
use crate::coverage::{deny, error, base_allow_reason, closed_deny};
use crate::probe::{ProbeSpec, heads, texts, reasons, patch_lists, ref_json, refs_json, POSITIVE, NEGATIVE, base_request, config, action, action_in, policy, rule, taxonomy_config, jref};
use crate::patch::Patch;
use crate::coverage::{closed_deny_text, constrained_allow_text, base_allow_text};
use crate::probe::{decls_v, DATASET_ID, TAXONOMY_PROFILE_ID};
use crate::text::strings_view;

verus! {

/// The request a taxonomy probe sends: `requested`, under the taxonomy
/// configuration declaring `taxonomy`, to a policy permitting `permitted`.
pub open spec fn taxonomy_request_v(taxonomy: Seq<(Seq<char>, Option<Seq<char>>)>, requested: Seq<char>, permitted: Seq<char>) -> RequestV {
    RequestV {
        action: requested,
        config: taxonomy_config_v(taxonomy),
        policies: seq![policy_v("probe"@, seq![rule_v(permitted, Seq::empty())])],
        ..base_request_v()
    }
}

/// A positive probe over the shipped taxonomy: a permission for
/// `permitted` covers a request for `requested`.
fn taxonomy_probe(
    taxonomy: &[WireActionDecl],
    id: &'static str,
    title: &'static str,
    asserts: &'static str,
    requested: &str,
    permitted: &str,
    reason: &str,
) -> (r: ProbeSpec)
    ensures
        expect_extras_view(r.expect) == (None::<Seq<(Seq<char>, Seq<char>, bool, Option<Seq<char>>)>>, None::<Seq<char>>),
        request_view(r.request) == taxonomy_request_v(decls_v(taxonomy@), requested@, permitted@),
        r.id == id,
        r.kind == POSITIVE,
        r.title == title,
        r.asserts == asserts,
        r.falsified_by@ == "Deny -- which would mean the engine cannot resolve the spec's own taxonomy"@,
        r.request.dataset_id@ == DATASET_ID@,
        r.request.action@ == requested@,
        r.request.config.id@ == TAXONOMY_PROFILE_ID@,
        decls_v(r.request.config.actions@) == decls_v(taxonomy@),
        r.request.policies@.len() == 1,
        r.request.policies@[0].id@ == "probe"@,
        r.request.policies@[0].permissions@.len() == 1,
        r.request.policies@[0].permissions@[0].action@ == permitted@,
        r.request.policies@[0].permissions@[0].constraints@.len() == 0,
        r.request.claims.entries@.len() == 0,
        r.patches@.len() == 0,
        r.expect.decision@ == "Allow"@,
        strings_view(r.expect.reason_contains@) == seq![reason@],
        r.expect.reason_excludes@.len() == 0,
{
    let base = base_request();
    let granted = vec![rule(permitted, vec![])];
    assert(cviews(Seq::<Constraint>::empty()) =~= Seq::<ConstraintV>::empty());
    assert(rviews(granted@) =~= seq![rule_v(permitted@, Seq::empty())]);
    let request = Request {
        action: owned(requested),
        config: taxonomy_config(taxonomy),
        policies: vec![policy("probe", granted)],
        ..base
    };
    assert(request_view(request) =~~= taxonomy_request_v(decls_v(taxonomy@), requested@, permitted@));
    ProbeSpec {
        id,
        kind: POSITIVE,
        title,
        asserts,
        falsified_by: "Deny -- which would mean the engine cannot resolve the spec's own taxonomy",
        request,
        patches: vec![],
        expect: coverage::allow(reason),
    }
}

/// The `(id, kind, expected decision)` of each probe [`action_probes`] writes, in order.
pub open spec fn action_heads() -> Seq<(Seq<char>, Seq<char>, Seq<char>)> {
    seq![
        ("act-base-exact"@, POSITIVE@, "Allow"@),
        ("act-includedin-1hop"@, POSITIVE@, "Allow"@),
        ("act-includedin-2hop"@, POSITIVE@, "Allow"@),
        ("act-includedin-undeclared-gap"@, NEGATIVE@, "Deny"@),
        ("act-implies-ignored"@, NEGATIVE@, "Deny"@),
        ("act-taxonomy-display-play-use"@, POSITIVE@, "Allow"@),
        ("act-taxonomy-extract-reproduce-use"@, POSITIVE@, "Allow"@),
        ("act-taxonomy-sell-transfer"@, POSITIVE@, "Allow"@),
        ("act-unrecognized-error"@, POSITIVE@, "Error"@),
        ("act-unrecognized-outranks-allow"@, POSITIVE@, "Error"@),
    ]
}

/// The `(title, asserts, falsified_by)` of each probe [`action_probes`] writes, in order.
pub open spec fn action_texts() -> Seq<(Seq<char>, Seq<char>, Seq<char>)> {
    seq![
        (
            "a permission naming exactly the requested action matches"@,
            "The baseline every other probe in this catalog is read against: one Set policy, one \
                  unconstrained permission for the requested action, closed-world behaviour."@,
            "anything but Allow -- which would mean the baseline itself is broken and no other \
                       probe's reading can be trusted"@,
        ),
        (
            "a permission for the broader action covers a request for its declared child"@,
            "The Information Model's own worked example (sell includedIn transfer): a permission for \
                  transfer covers a request for sell, and the reason says which edge it walked."@,
            "Deny -- which would mean coverage is exact-string matching, not taxonomy resolution"@,
        ),
        (
            "an includedIn chain resolves through more than one declared hop"@,
            "display includedIn play includedIn use: a permission for the top of a two-hop chain \
                  covers a request for the bottom."@,
            "Deny -- which would mean coverage resolves one hop only"@,
        ),
        (
            "an includedIn chain through an undeclared intermediate action does not cover"@,
            "The same two-hop chain as act-includedin-2hop with its intermediate action (`play`) left \
                  undeclared as its own ActionDecl. Coverage traverses only edges some loaded profile \
                  declares -- a typo'd or unlisted action can never silently become covered."@,
            "Allow -- which would mean covers() reaches through actions no profile declared"@,
        ),
        (
            "odrl:implies on an action declaration is dropped"@,
            "Byte-identical to act-includedin-1hop except that sell's relationship to transfer is \
                  declared with `odrl:implies` instead of `odrl:includedIn`. That one is honoured (Allow), \
                  this one is not (Deny) -- the engine resolves includedIn and nothing else."@,
            "Allow -- which would mean odrl:implies is being resolved as a coverage edge"@,
        ),
        (
            "the shipped 51-term ODRL 2.2 taxonomy resolves display -> play -> use"@,
            "One of the two chains in the whole ODRL 2.2 Common Vocabulary whose root is neither `use` nor \
         `transfer` directly, and one no hand-written config anywhere in this workspace declares. The 51 \
         action declarations in this probe's config came out of profile-interpreter parsing the spec's own \
         taxonomy; what runs here is the engine's resolution over them."@,
            "Deny -- which would mean the engine cannot resolve the spec's own taxonomy"@,
        ),
        (
            "the shipped taxonomy resolves extract -> reproduce"@,
            "The second non-`use`-rooted chain (odrl-vocab 4.4.20). A permission for reproduce covers a \
         request for extract."@,
            "Deny -- which would mean the engine cannot resolve the spec's own taxonomy"@,
        ),
        (
            "the shipped taxonomy resolves sell -> transfer"@,
            "The vocabulary's second root: a permission for transfer covers a request for sell, over the real \
         51-term taxonomy rather than a three-action config hand-written for the occasion."@,
            "Deny -- which would mean the engine cannot resolve the spec's own taxonomy"@,
        ),
        (
            "a rule naming an action no loaded profile declares is an Error, not a non-match"@,
            "The engine ships zero actions of its own: `anonymize` is a real ODRL 2.2 Common \
                  Vocabulary term, and a config that does not declare it makes any rule naming it a \
                  configuration gap rather than an ordinary miss."@,
            "Allow or Deny -- either would mean unknown vocabulary is tolerated silently"@,
        ),
        (
            "an unrecognized action in one policy out-ranks another policy's Allow"@,
            "Two policies: the first grants the requested action outright, the second names an \
                  undeclared action. Error beats Allow across the whole policy set, and the reason names \
                  the offending policy."@,
            "Allow or Deny -- Error must out-rank both, or a misconfigured policy could be \
                       masked by a well-formed one beside it"@,
        ),
    ]
}

/// What the reason of each probe [`action_probes`] writes must contain and must not
/// contain, in order.
pub open spec fn action_reasons() -> Seq<(Seq<Seq<char>>, Seq<Seq<char>>)> {
    seq![
        (seq![base_allow_text()], seq![]),
        (seq!["permission[0] of policy 'probe' matched: action 'transfer' covers requested 'sell', unconstrained"@], seq![]),
        (seq!["permission[0] of policy 'probe' matched: action 'use' covers requested 'display', unconstrained"@], seq![]),
        (seq![closed_deny_text("display"@)], seq![]),
        (seq![closed_deny_text("sell"@)], seq![]),
        (seq!["permission[0] of policy 'probe' matched: action 'use' covers requested 'display', unconstrained"@], seq![]),
        (seq!["permission[0] of policy 'probe' matched: action 'reproduce' covers requested 'extract', unconstrained"@], seq![]),
        (seq!["permission[0] of policy 'probe' matched: action 'transfer' covers requested 'sell', unconstrained"@], seq![]),
        (seq!["unrecognized action \"anonymize\" in permission rule at index 0"@], seq![]),
        (seq!["policy 'probe-bad'"@, "unrecognized action \"anonymize\""@], seq![]),
    ]
}

/// The patches of each probe [`action_probes`] writes, in order.
pub open spec fn action_patches() -> Seq<Seq<PatchV>> {
    seq![
        seq![],
        seq![],
        seq![],
        seq![],
        seq![PatchV::SetKey("/config/odrl:action/2"@, "odrl:implies"@, ref_json("transfer"@))],
        seq![],
        seq![],
        seq![],
        seq![],
        seq![],
    ]
}

/// The request of each probe [`action_probes`] writes, in order.
pub open spec fn action_requests(tax: Seq<(Seq<char>, Option<Seq<char>>)>) -> Seq<RequestV> {
    seq![
        base_request_v(),
        RequestV { action: "sell"@, config: config_v(seq![("use"@, None::<Seq<char>>), ("transfer"@, None::<Seq<char>>), ("sell"@, Some("transfer"@))]), policies: seq![policy_v("probe"@, seq![rule_v("transfer"@, seq![])])], ..base_request_v() },
        RequestV { action: "display"@, config: config_v(seq![("use"@, None::<Seq<char>>), ("play"@, Some("use"@)), ("display"@, Some("play"@))]), policies: seq![policy_v("probe"@, seq![rule_v("use"@, seq![])])], ..base_request_v() },
        RequestV { action: "display"@, config: config_v(seq![("use"@, None::<Seq<char>>), ("display"@, Some("play"@))]), policies: seq![policy_v("probe"@, seq![rule_v("use"@, seq![])])], ..base_request_v() },
        RequestV { action: "sell"@, config: config_v(seq![("use"@, None::<Seq<char>>), ("transfer"@, None::<Seq<char>>), ("sell"@, None::<Seq<char>>)]), policies: seq![policy_v("probe"@, seq![rule_v("transfer"@, seq![])])], ..base_request_v() },
        taxonomy_request_v(tax, "display"@, "use"@),
        taxonomy_request_v(tax, "extract"@, "reproduce"@),
        taxonomy_request_v(tax, "sell"@, "transfer"@),
        RequestV { policies: seq![policy_v("probe"@, seq![rule_v("anonymize"@, seq![])])], ..base_request_v() },
        RequestV { policies: seq![ policy_v("probe-ok"@, seq![rule_v("use"@, seq![])]), policy_v("probe-bad"@, seq![rule_v("anonymize"@, seq![])]), ], ..base_request_v() },
    ]
}

/// What the expectation of each probe [`action_probes`] writes says of duties and of
/// the dataset, in order.
pub open spec fn action_extras() -> Seq<(Option<Seq<(Seq<char>, Seq<char>, bool, Option<Seq<char>>)>>, Option<Seq<char>>)> {
    seq![
        (None::<Seq<(Seq<char>, Seq<char>, bool, Option<Seq<char>>)>>, None::<Seq<char>>),
        (None::<Seq<(Seq<char>, Seq<char>, bool, Option<Seq<char>>)>>, None::<Seq<char>>),
        (None::<Seq<(Seq<char>, Seq<char>, bool, Option<Seq<char>>)>>, None::<Seq<char>>),
        (None::<Seq<(Seq<char>, Seq<char>, bool, Option<Seq<char>>)>>, None::<Seq<char>>),
        (None::<Seq<(Seq<char>, Seq<char>, bool, Option<Seq<char>>)>>, None::<Seq<char>>),
        (None::<Seq<(Seq<char>, Seq<char>, bool, Option<Seq<char>>)>>, None::<Seq<char>>),
        (None::<Seq<(Seq<char>, Seq<char>, bool, Option<Seq<char>>)>>, None::<Seq<char>>),
        (None::<Seq<(Seq<char>, Seq<char>, bool, Option<Seq<char>>)>>, None::<Seq<char>>),
        (None::<Seq<(Seq<char>, Seq<char>, bool, Option<Seq<char>>)>>, None::<Seq<char>>),
        (None::<Seq<(Seq<char>, Seq<char>, bool, Option<Seq<char>>)>>, None::<Seq<char>>),
    ]
}

/// Category 1, actions: exact-match coverage, `odrl:includedIn` chains of
/// one and two declared hops, the gap an undeclared intermediate leaves,
/// `odrl:implies` being inert, three chains of the shipped ODRL 2.2
/// taxonomy (`taxonomy` is the action list that vocabulary document
/// declares), and an undeclared action being an Error that out-ranks Allow.
#[verifier::rlimit(80)]
pub fn action_probes(taxonomy: &[WireActionDecl]) -> (r: Vec<ProbeSpec>)
    ensures
        heads(r@) == action_heads(),
        texts(r@) == action_texts(),
        reasons(r@) == action_reasons(),
        patch_lists(r@) == action_patches(),
        requests(r@) == action_requests(decls_v(taxonomy@)),
        extras(r@) == action_extras(),
        forall|k: int| 5 <= k < 8 ==> decls_v((#[trigger] r@[k]).request.config.actions@) == decls_v(taxonomy@),
{
    let mut probes: Vec<ProbeSpec> = Vec::new();

    probes.push(ProbeSpec {
        id: "act-base-exact",
        kind: POSITIVE,
        title: "a permission naming exactly the requested action matches",
        asserts: "The baseline every other probe in this catalog is read against: one Set policy, one \
                  unconstrained permission for the requested action, closed-world behaviour.",
        falsified_by: "anything but Allow -- which would mean the baseline itself is broken and no other \
                       probe's reading can be trusted",
        request: base_request(),
        patches: vec![],
        expect: coverage::allow(base_allow_reason().as_str()),
    });
    assert(request_view(probes@[0].request) =~~= action_requests(decls_v(taxonomy@))[0]);
    assert(expect_extras_view(probes@[0].expect) =~~= action_extras()[0]);

    probes.push(ProbeSpec {
        id: "act-includedin-1hop",
        kind: POSITIVE,
        title: "a permission for the broader action covers a request for its declared child",
        asserts: "The Information Model's own worked example (sell includedIn transfer): a permission for \
                  transfer covers a request for sell, and the reason says which edge it walked.",
        falsified_by: "Deny -- which would mean coverage is exact-string matching, not taxonomy resolution",
        request: Request {
            action: owned("sell"),
            config: config(vec![action("use"), action("transfer"), action_in("sell", "transfer")]),
            policies: vec![policy("probe", vec![rule("transfer", vec![])])],
            ..base_request()
        },
        patches: vec![],
        expect: coverage::allow("permission[0] of policy 'probe' matched: action 'transfer' covers requested 'sell', unconstrained"),
    });
    assert(request_view(probes@[1].request) =~~= action_requests(decls_v(taxonomy@))[1]);
    assert(expect_extras_view(probes@[1].expect) =~~= action_extras()[1]);

    probes.push(ProbeSpec {
        id: "act-includedin-2hop",
        kind: POSITIVE,
        title: "an includedIn chain resolves through more than one declared hop",
        asserts: "display includedIn play includedIn use: a permission for the top of a two-hop chain \
                  covers a request for the bottom.",
        falsified_by: "Deny -- which would mean coverage resolves one hop only",
        request: Request {
            action: owned("display"),
            config: config(vec![action("use"), action_in("play", "use"), action_in("display", "play")]),
            policies: vec![policy("probe", vec![rule("use", vec![])])],
            ..base_request()
        },
        patches: vec![],
        expect: coverage::allow("permission[0] of policy 'probe' matched: action 'use' covers requested 'display', unconstrained"),
    });
    assert(request_view(probes@[2].request) =~~= action_requests(decls_v(taxonomy@))[2]);
    assert(expect_extras_view(probes@[2].expect) =~~= action_extras()[2]);

    probes.push(ProbeSpec {
        id: "act-includedin-undeclared-gap",
        kind: NEGATIVE,
        title: "an includedIn chain through an undeclared intermediate action does not cover",
        asserts: "The same two-hop chain as act-includedin-2hop with its intermediate action (`play`) left \
                  undeclared as its own ActionDecl. Coverage traverses only edges some loaded profile \
                  declares -- a typo'd or unlisted action can never silently become covered.",
        falsified_by: "Allow -- which would mean covers() reaches through actions no profile declared",
        request: Request {
            action: owned("display"),
            config: config(vec![action("use"), action_in("display", "play")]),
            policies: vec![policy("probe", vec![rule("use", vec![])])],
            ..base_request()
        },
        patches: vec![],
        expect: deny(closed_deny("display").as_str()),
    });
    assert(request_view(probes@[3].request) =~~= action_requests(decls_v(taxonomy@))[3]);
    assert(expect_extras_view(probes@[3].expect) =~~= action_extras()[3]);

    probes.push(ProbeSpec {
        id: "act-implies-ignored",
        kind: NEGATIVE,
        title: "odrl:implies on an action declaration is dropped",
        asserts: "Byte-identical to act-includedin-1hop except that sell's relationship to transfer is \
                  declared with `odrl:implies` instead of `odrl:includedIn`. That one is honoured (Allow), \
                  this one is not (Deny) -- the engine resolves includedIn and nothing else.",
        falsified_by: "Allow -- which would mean odrl:implies is being resolved as a coverage edge",
        request: Request {
            action: owned("sell"),
            config: config(vec![action("use"), action("transfer"), action("sell")]),
            policies: vec![policy("probe", vec![rule("transfer", vec![])])],
            ..base_request()
        },
        patches: vec![Patch::set("/config/odrl:action/2", "odrl:implies", jref("transfer"))],
        expect: deny(closed_deny("sell").as_str()),
    });
    assert(request_view(probes@[4].request) =~~= action_requests(decls_v(taxonomy@))[4]);
    assert(expect_extras_view(probes@[4].expect) =~~= action_extras()[4]);

    probes.push(taxonomy_probe(
        taxonomy,
        "act-taxonomy-display-play-use",
        "the shipped 51-term ODRL 2.2 taxonomy resolves display -> play -> use",
        "One of the two chains in the whole ODRL 2.2 Common Vocabulary whose root is neither `use` nor \
         `transfer` directly, and one no hand-written config anywhere in this workspace declares. The 51 \
         action declarations in this probe's config came out of profile-interpreter parsing the spec's own \
         taxonomy; what runs here is the engine's resolution over them.",
        "display",
        "use",
        "permission[0] of policy 'probe' matched: action 'use' covers requested 'display', unconstrained",
    ));
    assert(request_view(probes@[5].request) =~~= action_requests(decls_v(taxonomy@))[5]);
    assert(expect_extras_view(probes@[5].expect) =~~= action_extras()[5]);

    probes.push(taxonomy_probe(
        taxonomy,
        "act-taxonomy-extract-reproduce-use",
        "the shipped taxonomy resolves extract -> reproduce",
        "The second non-`use`-rooted chain (odrl-vocab 4.4.20). A permission for reproduce covers a \
         request for extract.",
        "extract",
        "reproduce",
        "permission[0] of policy 'probe' matched: action 'reproduce' covers requested 'extract', unconstrained",
    ));
    assert(request_view(probes@[6].request) =~~= action_requests(decls_v(taxonomy@))[6]);
    assert(expect_extras_view(probes@[6].expect) =~~= action_extras()[6]);

    probes.push(taxonomy_probe(
        taxonomy,
        "act-taxonomy-sell-transfer",
        "the shipped taxonomy resolves sell -> transfer",
        "The vocabulary's second root: a permission for transfer covers a request for sell, over the real \
         51-term taxonomy rather than a three-action config hand-written for the occasion.",
        "sell",
        "transfer",
        "permission[0] of policy 'probe' matched: action 'transfer' covers requested 'sell', unconstrained",
    ));
    assert(request_view(probes@[7].request) =~~= action_requests(decls_v(taxonomy@))[7]);
    assert(expect_extras_view(probes@[7].expect) =~~= action_extras()[7]);

    probes.push(ProbeSpec {
        id: "act-unrecognized-error",
        kind: POSITIVE,
        title: "a rule naming an action no loaded profile declares is an Error, not a non-match",
        asserts: "The engine ships zero actions of its own: `anonymize` is a real ODRL 2.2 Common \
                  Vocabulary term, and a config that does not declare it makes any rule naming it a \
                  configuration gap rather than an ordinary miss.",
        falsified_by: "Allow or Deny -- either would mean unknown vocabulary is tolerated silently",
        request: Request {
            policies: vec![policy("probe", vec![rule("anonymize", vec![])])],
            ..base_request()
        },
        patches: vec![],
        expect: error(&["unrecognized action \"anonymize\" in permission rule at index 0"]),
    });
    assert(request_view(probes@[8].request) =~~= action_requests(decls_v(taxonomy@))[8]);
    assert(expect_extras_view(probes@[8].expect) =~~= action_extras()[8]);

    probes.push(ProbeSpec {
        id: "act-unrecognized-outranks-allow",
        kind: POSITIVE,
        title: "an unrecognized action in one policy out-ranks another policy's Allow",
        asserts: "Two policies: the first grants the requested action outright, the second names an \
                  undeclared action. Error beats Allow across the whole policy set, and the reason names \
                  the offending policy.",
        falsified_by: "Allow or Deny -- Error must out-rank both, or a misconfigured policy could be \
                       masked by a well-formed one beside it",
        request: Request {
            policies: vec![
                policy("probe-ok", vec![rule("use", vec![])]),
                policy("probe-bad", vec![rule("anonymize", vec![])]),
            ],
            ..base_request()
        },
        patches: vec![],
        expect: error(&["policy 'probe-bad'", "unrecognized action \"anonymize\""]),
    });
    assert(request_view(probes@[9].request) =~~= action_requests(decls_v(taxonomy@))[9]);
    assert(expect_extras_view(probes@[9].expect) =~~= action_extras()[9]);

        assert(heads(probes@) =~= action_heads());
        assert(texts(probes@) =~= action_texts());
        assert(reasons(probes@) =~~= action_reasons());
        assert(patch_lists(probes@) =~~= action_patches());
        assert(requests(probes@) =~= action_requests(decls_v(taxonomy@)));
        assert(extras(probes@) =~= action_extras());
    probes
}

} // verus!
