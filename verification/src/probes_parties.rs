//! Coverage probes, categories 5 and 6: policy classes and party functions.

use vstd::prelude::*;
use crate::probe::{RequestV, PolicyWireV, ConfigV, request_view, requests, extras, policy_v, rule_v, targeted_rule_v, base_request_v, flat_config_v, one_v, config_v};
use crate::patch::PatchV;
use crate::json::JsonV;
use crate::text::owned;
use crate::wire::{Request, RequestConfig, WirePolicy, Operator, Claims, Constraint, ConstraintV, cviews, rviews};
use crate::coverage;
use crate::coverage::{deny, base_allow_reason, allow_constrained};
use crate::probe::{ProbeSpec, heads, texts, reasons, patch_lists, ref_json, refs_json, POSITIVE, NEGATIVE, base_request, config, policy, rule, jrefs, jstr, c, s, claims, one};
use crate::patch::Patch;
use crate::coverage::{closed_deny_text, constrained_allow_text, base_allow_text};
use crate::probe::{pairs_v, lemma_put_all_distinct};
use crate::cli::claims_view;
use crate::rdf_translate::ClaimV;
use crate::coverage::opt_view;

use crate::probe::{expect_extras_view, put_all};
use crate::wire::{atom_v};
verus! {

/// The claims [`stranger`] makes.
pub open spec fn stranger_v() -> Seq<(Seq<char>, ClaimV)> {
    seq![("sub"@, ClaimV::Single("did:web:mallory.example"@))]
}

/// The request [`named_to_alice`] makes.
pub open spec fn named_to_alice_v(kind: Seq<char>) -> RequestV {
    RequestV {
        policies: seq![PolicyWireV {
            kind,
            assignee: Some("did:web:alice.example"@),
            ..policy_v("probe"@, seq![rule_v("use"@, Seq::empty())])
        }],
        claims: stranger_v(),
        ..base_request_v()
    }
}

/// The request [`scoped_to_alice`] makes.
pub open spec fn scoped_to_alice_v(caller_claims: Seq<(Seq<char>, ClaimV)>) -> RequestV {
    RequestV {
        config: ConfigV { party_identity_claim: Some("sub"@), ..flat_config_v(seq!["use"@]) },
        policies: seq![PolicyWireV {
            assignee: Some("did:web:alice.example"@),
            ..policy_v("probe"@, seq![rule_v("use"@, Seq::empty())])
        }],
        claims: caller_claims,
        ..base_request_v()
    }
}

/// Claims presenting the caller `did:web:mallory.example`.
fn stranger() -> (r: Claims)
    ensures
        claims_view(r) == stranger_v(),
        claims_view(r) == seq![("sub"@, ClaimV::Single("did:web:mallory.example"@))],
{
    let pairs = vec![("sub", s("did:web:mallory.example"))];
    let r = claims(pairs);
    proof {
        assert(pairs_v(pairs@) =~= seq![("sub"@, ClaimV::Single("did:web:mallory.example"@))]);
        lemma_put_all_distinct(pairs_v(pairs@));
    }
    r
}

/// [`base_request`] whose policy is of class `kind` and assigned to
/// `did:web:alice.example`, requested by a stranger.
fn named_to_alice(kind: &str) -> (r: Request)
    ensures
        request_view(r) == named_to_alice_v(kind@),
        r.action@ == "use"@,
        r.policies@.len() == 1,
        r.policies@[0].id@ == "probe"@,
        r.policies@[0].kind@ == kind@,
        opt_view(r.policies@[0].assignee) == Some("did:web:alice.example"@),
        r.policies@[0].permissions@.len() == 1,
        r.policies@[0].permissions@[0].action@ == "use"@,
        r.policies@[0].permissions@[0].constraints@.len() == 0,
        r.config.party_identity_claim is None,
        claims_view(r.claims) == seq![("sub"@, ClaimV::Single("did:web:mallory.example"@))],
{
    let base = base_request();
    let permitted = vec![rule("use", vec![])];
    assert(cviews(Seq::<Constraint>::empty()) =~= Seq::<ConstraintV>::empty());
    assert(rviews(permitted@) =~= seq![rule_v("use"@, Seq::empty())]);
    let p = WirePolicy { kind: owned(kind), assignee: Some(owned("did:web:alice.example")), ..policy("probe", permitted) };
    let r = Request { policies: vec![p], claims: stranger(), ..base };
    assert(request_view(r) =~~= named_to_alice_v(kind@));
    r
}

/// One policy assigned to `did:web:alice.example`, under a configuration
/// naming `sub` as the claim that identifies the caller, requested with
/// `caller_claims`.
fn scoped_to_alice(caller_claims: Claims) -> (r: Request)
    ensures
        request_view(r) == scoped_to_alice_v(claims_view(caller_claims)),
        r.action@ == "use"@,
        r.policies@.len() == 1,
        r.policies@[0].id@ == "probe"@,
        opt_view(r.policies@[0].assignee) == Some("did:web:alice.example"@),
        r.policies@[0].permissions@.len() == 1,
        r.policies@[0].permissions@[0].action@ == "use"@,
        r.policies@[0].permissions@[0].constraints@.len() == 0,
        r.policies@[0].prohibitions@.len() == 0,
        opt_view(r.config.party_identity_claim) == Some("sub"@),
        r.claims == caller_claims,
{
    let base = base_request();
    let permitted = vec![rule("use", vec![])];
    assert(cviews(Seq::<Constraint>::empty()) =~= Seq::<ConstraintV>::empty());
    assert(rviews(permitted@) =~= seq![rule_v("use"@, Seq::empty())]);
    let p = WirePolicy { assignee: Some(owned("did:web:alice.example")), ..policy("probe", permitted) };
    let ghost cv = claims_view(caller_claims);
    let config = RequestConfig { party_identity_claim: Some(owned("sub")), ..base.config };
    let r = Request { config, policies: vec![p], claims: caller_claims, ..base };
    assert(request_view(r) =~~= scoped_to_alice_v(cv));
    r
}

/// The `(id, kind, expected decision)` of each probe [`policy_class_probes`] writes, in order.
pub open spec fn policy_class_heads() -> Seq<(Seq<char>, Seq<char>, Seq<char>)> {
    seq![
        ("pc-kind-set"@, NEGATIVE@, "Allow"@),
        ("pc-kind-agreement-ignores-assignee"@, NEGATIVE@, "Allow"@),
        ("pc-kind-ticket-with-assignee"@, NEGATIVE@, "Allow"@),
        ("pc-kind-nonsense"@, NEGATIVE@, "Allow"@),
        ("pc-kind-profile-subclass"@, NEGATIVE@, "Allow"@),
    ]
}

/// The `(title, asserts, falsified_by)` of each probe [`policy_class_probes`] writes, in order.
pub open spec fn policy_class_texts() -> Seq<(Seq<char>, Seq<char>, Seq<char>)> {
    seq![
        (
            "kind: Set grants to a caller who is not the named assignee"@,
            "The reference point for the whole category: whatever `kind` says, evaluation is the \
                  same. This is the one class for which that is also the correct answer."@,
            "Deny"@,
        ),
        (
            "kind: Agreement grants to a stranger, exactly as Set does"@,
            "An ODRL Agreement MUST grant only to its own named assignee. This request names \
                  did:web:alice.example and the caller presents did:web:mallory.example -- and the \
                  decision AND the reason are byte-identical to pc-kind-set's. No class-level MUST is \
                  validated anywhere: `kind` never selects a semantics. Assignee scoping is available \
                  (pf-assignee-scoped-miss) but is switched on by the config's partyIdentityClaim, not \
                  by a policy calling itself an Agreement, and this request does not switch it on."@,
            "Deny -- which would mean assignee scoping is enforced for Agreements"@,
        ),
        (
            "kind: Ticket carrying an assignee is accepted, though the spec forbids one"@,
            "The MUST NOT direction of the same absence: a structurally invalid Ticket evaluates \
                  normally rather than being rejected."@,
            "Deny or Error"@,
        ),
        (
            "a kind that is not an ODRL policy class at all is accepted"@,
            "`NotAnOdrlPolicyClass` reaches the identical decision and reason as Set, Agreement and \
                  Ticket. Nothing validates `kind`; carrying it on the wire is documentation, not \
                  semantics."@,
            "Error -- which would mean `kind` is validated"@,
        ),
        (
            "a profile-declared Policy subclass sits in the same position as any other unknown kind"@,
            "The config declares `ex:ResearchLicence` as a Policy subclass and the policy uses it. \
                  Same decision, same reason as pc-kind-nonsense -- which is the honest reading: a \
                  declared subclass is observationally indistinguishable from an unrecognised string."@,
            "a decision or reason differing from pc-kind-nonsense's"@,
        ),
    ]
}

/// What the reason of each probe [`policy_class_probes`] writes must contain and must not
/// contain, in order.
pub open spec fn policy_class_reasons() -> Seq<(Seq<Seq<char>>, Seq<Seq<char>>)> {
    seq![
        (seq![base_allow_text()], seq![]),
        (seq![base_allow_text()], seq![]),
        (seq![base_allow_text()], seq![]),
        (seq![base_allow_text()], seq![]),
        (seq![base_allow_text()], seq![]),
    ]
}

/// The patches of each probe [`policy_class_probes`] writes, in order.
pub open spec fn policy_class_patches() -> Seq<Seq<PatchV>> {
    seq![
        seq![],
        seq![],
        seq![],
        seq![],
        seq![PatchV::SetKey("/config"@, "odrl:policyClass"@, refs_json("ex:ResearchLicence"@))],
    ]
}

/// The request of each probe [`policy_class_probes`] writes, in order.
pub open spec fn policy_class_requests() -> Seq<RequestV> {
    seq![
        named_to_alice_v("Set"@),
        named_to_alice_v("Agreement"@),
        named_to_alice_v("Ticket"@),
        named_to_alice_v("NotAnOdrlPolicyClass"@),
        named_to_alice_v("ex:ResearchLicence"@),
    ]
}

/// What the expectation of each probe [`policy_class_probes`] writes says of duties and of
/// the dataset, in order.
pub open spec fn policy_class_extras() -> Seq<(Option<Seq<(Seq<char>, Seq<char>, bool, Option<Seq<char>>)>>, Option<Seq<char>>)> {
    seq![
        (None::<Seq<(Seq<char>, Seq<char>, bool, Option<Seq<char>>)>>, None::<Seq<char>>),
        (None::<Seq<(Seq<char>, Seq<char>, bool, Option<Seq<char>>)>>, None::<Seq<char>>),
        (None::<Seq<(Seq<char>, Seq<char>, bool, Option<Seq<char>>)>>, None::<Seq<char>>),
        (None::<Seq<(Seq<char>, Seq<char>, bool, Option<Seq<char>>)>>, None::<Seq<char>>),
        (None::<Seq<(Seq<char>, Seq<char>, bool, Option<Seq<char>>)>>, None::<Seq<char>>),
    ]
}

/// Category 5, policy classes: `kind` never selects a semantics. A policy
/// named to alice grants a stranger the same under `Set`, `Agreement`,
/// `Ticket`, a nonsense class and a profile-declared subclass.
#[verifier::rlimit(80)]
pub fn policy_class_probes() -> (r: Vec<ProbeSpec>)
    ensures
        heads(r@) == policy_class_heads(),
        texts(r@) == policy_class_texts(),
        reasons(r@) == policy_class_reasons(),
        patch_lists(r@) == policy_class_patches(),
        requests(r@) == policy_class_requests(),
        extras(r@) == policy_class_extras(),
{
    let mut probes: Vec<ProbeSpec> = Vec::new();

    probes.push(ProbeSpec {
        id: "pc-kind-set",
        kind: NEGATIVE,
        title: "kind: Set grants to a caller who is not the named assignee",
        asserts: "The reference point for the whole category: whatever `kind` says, evaluation is the \
                  same. This is the one class for which that is also the correct answer.",
        falsified_by: "Deny",
        request: named_to_alice("Set"),
        patches: vec![],
        expect: coverage::allow(base_allow_reason().as_str()),
    });
    assert(request_view(probes@[0].request) =~~= policy_class_requests()[0]);
    assert(expect_extras_view(probes@[0].expect) =~~= policy_class_extras()[0]);

    probes.push(ProbeSpec {
        id: "pc-kind-agreement-ignores-assignee",
        kind: NEGATIVE,
        title: "kind: Agreement grants to a stranger, exactly as Set does",
        asserts: "An ODRL Agreement MUST grant only to its own named assignee. This request names \
                  did:web:alice.example and the caller presents did:web:mallory.example -- and the \
                  decision AND the reason are byte-identical to pc-kind-set's. No class-level MUST is \
                  validated anywhere: `kind` never selects a semantics. Assignee scoping is available \
                  (pf-assignee-scoped-miss) but is switched on by the config's partyIdentityClaim, not \
                  by a policy calling itself an Agreement, and this request does not switch it on.",
        falsified_by: "Deny -- which would mean assignee scoping is enforced for Agreements",
        request: named_to_alice("Agreement"),
        patches: vec![],
        expect: coverage::allow(base_allow_reason().as_str()),
    });
    assert(request_view(probes@[1].request) =~~= policy_class_requests()[1]);
    assert(expect_extras_view(probes@[1].expect) =~~= policy_class_extras()[1]);

    probes.push(ProbeSpec {
        id: "pc-kind-ticket-with-assignee",
        kind: NEGATIVE,
        title: "kind: Ticket carrying an assignee is accepted, though the spec forbids one",
        asserts: "The MUST NOT direction of the same absence: a structurally invalid Ticket evaluates \
                  normally rather than being rejected.",
        falsified_by: "Deny or Error",
        request: named_to_alice("Ticket"),
        patches: vec![],
        expect: coverage::allow(base_allow_reason().as_str()),
    });
    assert(request_view(probes@[2].request) =~~= policy_class_requests()[2]);
    assert(expect_extras_view(probes@[2].expect) =~~= policy_class_extras()[2]);

    probes.push(ProbeSpec {
        id: "pc-kind-nonsense",
        kind: NEGATIVE,
        title: "a kind that is not an ODRL policy class at all is accepted",
        asserts: "`NotAnOdrlPolicyClass` reaches the identical decision and reason as Set, Agreement and \
                  Ticket. Nothing validates `kind`; carrying it on the wire is documentation, not \
                  semantics.",
        falsified_by: "Error -- which would mean `kind` is validated",
        request: named_to_alice("NotAnOdrlPolicyClass"),
        patches: vec![],
        expect: coverage::allow(base_allow_reason().as_str()),
    });
    assert(request_view(probes@[3].request) =~~= policy_class_requests()[3]);
    assert(expect_extras_view(probes@[3].expect) =~~= policy_class_extras()[3]);

    probes.push(ProbeSpec {
        id: "pc-kind-profile-subclass",
        kind: NEGATIVE,
        title: "a profile-declared Policy subclass sits in the same position as any other unknown kind",
        asserts: "The config declares `ex:ResearchLicence` as a Policy subclass and the policy uses it. \
                  Same decision, same reason as pc-kind-nonsense -- which is the honest reading: a \
                  declared subclass is observationally indistinguishable from an unrecognised string.",
        falsified_by: "a decision or reason differing from pc-kind-nonsense's",
        request: named_to_alice("ex:ResearchLicence"),
        patches: vec![Patch::set("/config", "odrl:policyClass", jrefs("ex:ResearchLicence"))],
        expect: coverage::allow(base_allow_reason().as_str()),
    });
    assert(request_view(probes@[4].request) =~~= policy_class_requests()[4]);
    assert(expect_extras_view(probes@[4].expect) =~~= policy_class_extras()[4]);

        assert(heads(probes@) =~= policy_class_heads());
        assert(texts(probes@) =~= policy_class_texts());
        assert(reasons(probes@) =~~= policy_class_reasons());
        assert(patch_lists(probes@) =~~= policy_class_patches());
        assert(requests(probes@) =~= policy_class_requests());
        assert(extras(probes@) =~= policy_class_extras());
    probes
}

/// The `(id, kind, expected decision)` of each probe [`party_probes`] writes, in order.
pub open spec fn party_heads() -> Seq<(Seq<char>, Seq<char>, Seq<char>)> {
    seq![
        ("pf-assignee-mismatch"@, NEGATIVE@, "Allow"@),
        ("pf-assignee-null-control"@, POSITIVE@, "Allow"@),
        ("pf-assignee-scoped-hit"@, POSITIVE@, "Allow"@),
        ("pf-assignee-scoped-miss"@, NEGATIVE@, "Deny"@),
        ("pf-assignee-as-claim"@, POSITIVE@, "Allow"@),
        ("pf-assignerof-inert"@, NEGATIVE@, "Allow"@),
        ("pf-common-functions-inert"@, NEGATIVE@, "Allow"@),
    ]
}

/// The `(title, asserts, falsified_by)` of each probe [`party_probes`] writes, in order.
pub open spec fn party_texts() -> Seq<(Seq<char>, Seq<char>, Seq<char>)> {
    seq![
        (
            "with no partyIdentityClaim configured, a policy's assignee is never compared against \
                the caller"@,
            "The policy names did:web:alice.example; the caller's `sub` claim is \
                  did:web:mallory.example; the config names no identity claim. The permission still \
                  applies. This is the default, and what every request built before \
                  partyIdentityClaim existed gets."@,
            "Deny -- which would mean assignee is evaluated as a party scope unasked"@,
        ),
        (
            "the same request with no assignee at all reaches the identical answer"@,
            "The control for pf-assignee-mismatch and for every inert-party-property probe below: \
                  the field is carried faithfully and, with no partyIdentityClaim configured, consumed \
                  by nothing."@,
            "a decision or reason differing from pf-assignee-mismatch's"@,
        ),
        (
            "with partyIdentityClaim configured, a policy still applies to the assignee it names"@,
            "The opt-in half of the pair: the config names `sub` as the caller's identity claim, \
                  the policy names did:web:alice.example, and the caller presents exactly that. The \
                  answer is byte-identical to pf-assignee-mismatch's -- switching party-role scoping \
                  on must change nothing for the party a policy is addressed to."@,
            "Deny -- which would mean the check rejects even the correct assignee"@,
        ),
        (
            "with partyIdentityClaim configured, a policy assigned to someone else grants nothing"@,
            "Identical to pf-assignee-scoped-hit but for the caller's own `sub`. The policy is \
                  treated as absent from the request rather than as a policy that grants nothing, so \
                  the answer is a deny whose reason names the assignee mismatch -- explicitly not the \
                  closed-default 'no permission ... covered and matched' line."@,
            "Allow, or a Deny reported as an ordinary constraint miss"@,
        ),
        (
            "party scoping is also reachable by mirroring the party into the claims map"@,
            "The other route to party-scoped evaluation, and the only one before \
                  partyIdentityClaim existed: put the party in the claims map and constrain on it as \
                  an ordinary opaque key. Note the key is a claim named `assignee`, not the policy's \
                  own assignee field, and that this scopes one *rule* where partyIdentityClaim scopes \
                  the whole policy."@,
            "Deny"@,
        ),
        (
            "assignerOf and assigneeOf are dropped"@,
            "ODRL's two inverse party properties, injected on the policy, reaching the identical \
                  decision and reason as pf-assignee-null-control's request without them."@,
            "any decision or reason differing from pf-assignee-null-control's"@,
        ),
        (
            "all twelve common party functions, injected at once, change nothing"@,
            "attributedParty/attributingParty, compensatedParty/compensatingParty, \
                  consentingParty/consentedParty, contractingParty/contractedParty, \
                  informedParty/informingParty, trackingParty/trackedParty -- every one of the Common \
                  Vocabulary's paired party roles on one policy, reaching the identical decision and \
                  reason as pf-assignee-null-control."@,
            "any decision or reason differing from pf-assignee-null-control's"@,
        ),
    ]
}

/// What the reason of each probe [`party_probes`] writes must contain and must not
/// contain, in order.
pub open spec fn party_reasons() -> Seq<(Seq<Seq<char>>, Seq<Seq<char>>)> {
    seq![
        (seq![base_allow_text()], seq![]),
        (seq![base_allow_text()], seq![]),
        (seq![base_allow_text()], seq![]),
        (seq!["no policy in the request applies to this caller: policy 'probe' names odrl:assignee \
             'did:web:alice.example', which does not match the caller's 'sub' claim \
             (\"did:web:mallory.example\")"@], seq!["no permission of policy"@]),
        (seq![constrained_allow_text("assignee eq did:web:alice.example"@)], seq![]),
        (seq![base_allow_text()], seq![]),
        (seq![base_allow_text()], seq![]),
    ]
}

/// The patches of each probe [`party_probes`] writes, in order.
pub open spec fn party_patches() -> Seq<Seq<PatchV>> {
    seq![
        seq![],
        seq![],
        seq![],
        seq![],
        seq![],
        seq![PatchV::SetKey("/policies/0"@, "assignerOf"@, JsonV::Str("urn:asset:1"@)), PatchV::SetKey("/policies/0"@, "assigneeOf"@, JsonV::Str("urn:asset:2"@))],
        seq![PatchV::SetKey("/policies/0"@, "attributedParty"@, JsonV::Str("did:web:a.example"@)), PatchV::SetKey("/policies/0"@, "attributingParty"@, JsonV::Str("did:web:b.example"@)), PatchV::SetKey("/policies/0"@, "compensatedParty"@, JsonV::Str("did:web:c.example"@)), PatchV::SetKey("/policies/0"@, "compensatingParty"@, JsonV::Str("did:web:d.example"@)), PatchV::SetKey("/policies/0"@, "consentingParty"@, JsonV::Str("did:web:e.example"@)), PatchV::SetKey("/policies/0"@, "consentedParty"@, JsonV::Str("did:web:f.example"@)), PatchV::SetKey("/policies/0"@, "contractingParty"@, JsonV::Str("did:web:g.example"@)), PatchV::SetKey("/policies/0"@, "contractedParty"@, JsonV::Str("did:web:h.example"@)), PatchV::SetKey("/policies/0"@, "informedParty"@, JsonV::Str("did:web:i.example"@)), PatchV::SetKey("/policies/0"@, "informingParty"@, JsonV::Str("did:web:j.example"@)), PatchV::SetKey("/policies/0"@, "trackingParty"@, JsonV::Str("did:web:k.example"@)), PatchV::SetKey("/policies/0"@, "trackedParty"@, JsonV::Str("did:web:l.example"@))],
    ]
}

/// The request of each probe [`party_probes`] writes, in order.
pub open spec fn party_requests() -> Seq<RequestV> {
    seq![
        RequestV { policies: seq![PolicyWireV { assignee: Some("did:web:alice.example"@), ..policy_v("probe"@, seq![rule_v("use"@, seq![])]) }], claims: stranger_v(), ..base_request_v() },
        RequestV { claims: stranger_v(), ..base_request_v() },
        scoped_to_alice_v(put_all(seq![("sub"@, ClaimV::Single("did:web:alice.example"@))])),
        scoped_to_alice_v(stranger_v()),
        one_v( atom_v("assignee"@, Operator::Eq, "did:web:alice.example"@), put_all(seq![("assignee"@, ClaimV::Single("did:web:alice.example"@))]), ),
        RequestV { claims: stranger_v(), ..base_request_v() },
        RequestV { claims: stranger_v(), ..base_request_v() },
    ]
}

/// What the expectation of each probe [`party_probes`] writes says of duties and of
/// the dataset, in order.
pub open spec fn party_extras() -> Seq<(Option<Seq<(Seq<char>, Seq<char>, bool, Option<Seq<char>>)>>, Option<Seq<char>>)> {
    seq![
        (None::<Seq<(Seq<char>, Seq<char>, bool, Option<Seq<char>>)>>, None::<Seq<char>>),
        (None::<Seq<(Seq<char>, Seq<char>, bool, Option<Seq<char>>)>>, None::<Seq<char>>),
        (None::<Seq<(Seq<char>, Seq<char>, bool, Option<Seq<char>>)>>, None::<Seq<char>>),
        (None::<Seq<(Seq<char>, Seq<char>, bool, Option<Seq<char>>)>>, None::<Seq<char>>),
        (None::<Seq<(Seq<char>, Seq<char>, bool, Option<Seq<char>>)>>, None::<Seq<char>>),
        (None::<Seq<(Seq<char>, Seq<char>, bool, Option<Seq<char>>)>>, None::<Seq<char>>),
        (None::<Seq<(Seq<char>, Seq<char>, bool, Option<Seq<char>>)>>, None::<Seq<char>>),
    ]
}

/// Category 6, party functions: a policy's assignee is compared against
/// the caller only when the configuration names the identity claim,
/// `assigner` is never a scope, and the inverse and common party functions
/// are inert.
#[verifier::rlimit(80)]
pub fn party_probes() -> (r: Vec<ProbeSpec>)
    ensures
        heads(r@) == party_heads(),
        texts(r@) == party_texts(),
        reasons(r@) == party_reasons(),
        patch_lists(r@) == party_patches(),
        requests(r@) == party_requests(),
        extras(r@) == party_extras(),
{
    let mut probes: Vec<ProbeSpec> = Vec::new();

    // The request the two `pf-assignee-scoped-*` probes share, differing
    // only in whose identity the caller presents: one policy assigned to
    // alice, under a config naming `sub` as the claim that identifies the
    // caller. `party_identity_claim` is a modelled field of the
    // configuration, so these are typed values like every other supported
    // part of a request rather than keys injected by a patch.
    probes.push(ProbeSpec {
        id: "pf-assignee-mismatch",
        kind: NEGATIVE,
        title: "with no partyIdentityClaim configured, a policy's assignee is never compared against \
                the caller",
        asserts: "The policy names did:web:alice.example; the caller's `sub` claim is \
                  did:web:mallory.example; the config names no identity claim. The permission still \
                  applies. This is the default, and what every request built before \
                  partyIdentityClaim existed gets.",
        falsified_by: "Deny -- which would mean assignee is evaluated as a party scope unasked",
        request: Request {
            policies: vec![WirePolicy {
                assignee: Some(owned("did:web:alice.example")),
                ..policy("probe", vec![rule("use", vec![])])
            }],
            claims: stranger(),
            ..base_request()
        },
        patches: vec![],
        expect: coverage::allow(base_allow_reason().as_str()),
    });
    assert(request_view(probes@[0].request) =~~= party_requests()[0]);
    assert(expect_extras_view(probes@[0].expect) =~~= party_extras()[0]);

    probes.push(ProbeSpec {
        id: "pf-assignee-null-control",
        kind: POSITIVE,
        title: "the same request with no assignee at all reaches the identical answer",
        asserts: "The control for pf-assignee-mismatch and for every inert-party-property probe below: \
                  the field is carried faithfully and, with no partyIdentityClaim configured, consumed \
                  by nothing.",
        falsified_by: "a decision or reason differing from pf-assignee-mismatch's",
        request: Request { claims: stranger(), ..base_request() },
        patches: vec![],
        expect: coverage::allow(base_allow_reason().as_str()),
    });
    assert(request_view(probes@[1].request) =~~= party_requests()[1]);
    assert(expect_extras_view(probes@[1].expect) =~~= party_extras()[1]);

    probes.push(ProbeSpec {
        id: "pf-assignee-scoped-hit",
        kind: POSITIVE,
        title: "with partyIdentityClaim configured, a policy still applies to the assignee it names",
        asserts: "The opt-in half of the pair: the config names `sub` as the caller's identity claim, \
                  the policy names did:web:alice.example, and the caller presents exactly that. The \
                  answer is byte-identical to pf-assignee-mismatch's -- switching party-role scoping \
                  on must change nothing for the party a policy is addressed to.",
        falsified_by: "Deny -- which would mean the check rejects even the correct assignee",
        request: scoped_to_alice(claims(vec![("sub", s("did:web:alice.example"))])),
        patches: vec![],
        expect: coverage::allow(base_allow_reason().as_str()),
    });
    assert(request_view(probes@[2].request) =~~= party_requests()[2]);
    assert(expect_extras_view(probes@[2].expect) =~~= party_extras()[2]);

    probes.push(ProbeSpec {
        id: "pf-assignee-scoped-miss",
        kind: NEGATIVE,
        title: "with partyIdentityClaim configured, a policy assigned to someone else grants nothing",
        asserts: "Identical to pf-assignee-scoped-hit but for the caller's own `sub`. The policy is \
                  treated as absent from the request rather than as a policy that grants nothing, so \
                  the answer is a deny whose reason names the assignee mismatch -- explicitly not the \
                  closed-default 'no permission ... covered and matched' line.",
        falsified_by: "Allow, or a Deny reported as an ordinary constraint miss",
        request: scoped_to_alice(stranger()),
        patches: vec![],
        expect: deny(
            "no policy in the request applies to this caller: policy 'probe' names odrl:assignee \
             'did:web:alice.example', which does not match the caller's 'sub' claim \
             (\"did:web:mallory.example\")",
        )
        .excluding(&["no permission of policy"]),
    });
    assert(request_view(probes@[3].request) =~~= party_requests()[3]);
    assert(expect_extras_view(probes@[3].expect) =~~= party_extras()[3]);

    probes.push(ProbeSpec {
        id: "pf-assignee-as-claim",
        kind: POSITIVE,
        title: "party scoping is also reachable by mirroring the party into the claims map",
        asserts: "The other route to party-scoped evaluation, and the only one before \
                  partyIdentityClaim existed: put the party in the claims map and constrain on it as \
                  an ordinary opaque key. Note the key is a claim named `assignee`, not the policy's \
                  own assignee field, and that this scopes one *rule* where partyIdentityClaim scopes \
                  the whole policy.",
        falsified_by: "Deny",
        request: one(
            c("assignee", Operator::Eq, "did:web:alice.example"),
            claims(vec![("assignee", s("did:web:alice.example"))]),
        ),
        patches: vec![],
        expect: allow_constrained("assignee eq did:web:alice.example"),
    });
    assert(request_view(probes@[4].request) =~~= party_requests()[4]);
    assert(expect_extras_view(probes@[4].expect) =~~= party_extras()[4]);

    probes.push(ProbeSpec {
        id: "pf-assignerof-inert",
        kind: NEGATIVE,
        title: "assignerOf and assigneeOf are dropped",
        asserts: "ODRL's two inverse party properties, injected on the policy, reaching the identical \
                  decision and reason as pf-assignee-null-control's request without them.",
        falsified_by: "any decision or reason differing from pf-assignee-null-control's",
        request: Request { claims: stranger(), ..base_request() },
        patches: vec![
            Patch::set("/policies/0", "assignerOf", jstr("urn:asset:1")),
            Patch::set("/policies/0", "assigneeOf", jstr("urn:asset:2")),
        ],
        expect: coverage::allow(base_allow_reason().as_str()),
    });
    assert(request_view(probes@[5].request) =~~= party_requests()[5]);
    assert(expect_extras_view(probes@[5].expect) =~~= party_extras()[5]);

    probes.push(ProbeSpec {
        id: "pf-common-functions-inert",
        kind: NEGATIVE,
        title: "all twelve common party functions, injected at once, change nothing",
        asserts: "attributedParty/attributingParty, compensatedParty/compensatingParty, \
                  consentingParty/consentedParty, contractingParty/contractedParty, \
                  informedParty/informingParty, trackingParty/trackedParty -- every one of the Common \
                  Vocabulary's paired party roles on one policy, reaching the identical decision and \
                  reason as pf-assignee-null-control.",
        falsified_by: "any decision or reason differing from pf-assignee-null-control's",
        request: Request { claims: stranger(), ..base_request() },
        patches: vec![
            Patch::set("/policies/0", "attributedParty", jstr("did:web:a.example")),
            Patch::set("/policies/0", "attributingParty", jstr("did:web:b.example")),
            Patch::set("/policies/0", "compensatedParty", jstr("did:web:c.example")),
            Patch::set("/policies/0", "compensatingParty", jstr("did:web:d.example")),
            Patch::set("/policies/0", "consentingParty", jstr("did:web:e.example")),
            Patch::set("/policies/0", "consentedParty", jstr("did:web:f.example")),
            Patch::set("/policies/0", "contractingParty", jstr("did:web:g.example")),
            Patch::set("/policies/0", "contractedParty", jstr("did:web:h.example")),
            Patch::set("/policies/0", "informedParty", jstr("did:web:i.example")),
            Patch::set("/policies/0", "informingParty", jstr("did:web:j.example")),
            Patch::set("/policies/0", "trackingParty", jstr("did:web:k.example")),
            Patch::set("/policies/0", "trackedParty", jstr("did:web:l.example")),
        ],
        expect: coverage::allow(base_allow_reason().as_str()),
    });
    assert(request_view(probes@[6].request) =~~= party_requests()[6]);
    assert(expect_extras_view(probes@[6].expect) =~~= party_extras()[6]);

        assert(heads(probes@) =~= party_heads());
        assert(texts(probes@) =~= party_texts());
        assert(reasons(probes@) =~~= party_reasons());
        assert(patch_lists(probes@) =~~= party_patches());
        assert(requests(probes@) =~= party_requests());
        assert(extras(probes@) =~= party_extras());
    probes
}

} // verus!
