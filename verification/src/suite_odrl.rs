//! Structured views over one test-suite `request.ttl` and `policy.ttl`
//! fixture: who asks for what, and each rule's scoping, action, constraint
//! and nested duty.

use vstd::prelude::*;
use vstd::string::*;
use crate::text::{owned, concat2, str_eq};
use crate::rdf::{Graph, Term, Triple, objects_of, ids_of, first_of, term_id_of, literal_of, object_id_of,
    first_typed_subject, views, opt_string_view, list_of, RDF_TYPE};
use crate::suite_vocab::{odrl, local_name, local_name_of, SUITE_ODRL_NS};

verus! {

/// The request fixture: the asking party, the action and the optional
/// target, each by local name.
#[derive(Debug, PartialEq, Eq)]
pub struct RequestInfo {
    pub assignee: String,
    pub action: String,
    pub target: Option<String>,
}

/// A rule's assignee: one party, or a party collection whose membership is
/// a state-of-the-world `odrl:partOf` fact.
#[derive(Clone, Debug, PartialEq, Eq)]
pub enum PartyRef {
    Individual(String),
    Collection(String),
}

/// A rule's target: one asset, or an asset collection.
#[derive(Clone, Debug, PartialEq, Eq)]
pub enum TargetRef {
    Individual(String),
    Collection(String),
}

/// A rule's constraint: atomic, or a logical combination.
#[derive(Debug, PartialEq, Eq)]
pub enum ConstraintForm {
    Atomic { left_operand: String, operator: String, right_operand: String },
    And(Vec<ConstraintForm>),
    Or(Vec<ConstraintForm>),
    Xone(Vec<ConstraintForm>),
}

#[derive(Clone, Copy, Debug, PartialEq, Eq)]
pub enum RuleKind {
    Permission,
    Prohibition,
}

/// One permission or prohibition of a policy fixture.
#[derive(Debug, PartialEq, Eq)]
pub struct RuleInfo {
    pub kind: RuleKind,
    pub assignee: Option<PartyRef>,
    pub action: Option<String>,
    pub target: Option<TargetRef>,
    pub constraint: Option<ConstraintForm>,
    /// The id of an `odrl:duty` attached directly to this rule.
    pub nested_duty: Option<String>,
}

/// A policy fixture: its node id and its rules, permissions first.
#[derive(Debug, PartialEq, Eq)]
pub struct PolicyInfo {
    pub id: String,
    pub rules: Vec<RuleInfo>,
}

/// `odrl:{local}`.
pub open spec fn odrl_iri(local: Seq<char>) -> Seq<char> {
    SUITE_ODRL_NS@ + local
}

/// The local name of an optional id.
pub open spec fn local_opt(o: Option<Seq<char>>) -> Option<Seq<char>> {
    match o {
        Some(id) => Some(local_name_of(id)),
        None => None,
    }
}

/// The local name of the first node object of `s`/`odrl:{p}`.
pub open spec fn local_object_of(ts: Seq<Triple>, s: Seq<char>, p: Seq<char>) -> Option<Seq<char>> {
    local_opt(object_id_of(ts, s, odrl_iri(p)))
}

fn local_object(g: &Graph, node: &str, local: &str) -> (r: Option<String>)
    ensures
        opt_string_view(r) == local_object_of(g.triples@, node@, local@),
{
    match g.object_node(node, odrl(local).as_str()) {
        Some(id) => Some(owned(local_name(id.as_str()))),
        None => None,
    }
}

/// Why a request fixture does not read, if it does not.
pub open spec fn request_error(ts: Seq<Triple>) -> Option<Seq<char>> {
    match first_typed_subject(ts, seq![odrl_iri("Request"@)]) {
        None => Some("no odrl:Request node"@),
        Some(req) => match object_id_of(ts, req, odrl_iri("permission"@)) {
            None => Some("odrl:Request has no odrl:permission"@),
            Some(perm) => if local_object_of(ts, perm, "assignee"@) is None {
                Some("request's odrl:permission has no odrl:assignee"@)
            } else if local_object_of(ts, perm, "action"@) is None {
                Some("request's odrl:permission has no odrl:action"@)
            } else {
                None
            },
        },
    }
}

/// Reads the request fixture: the first `odrl:Request` node's first
/// `odrl:permission`, and that permission's assignee, action and target.
pub fn parse_request(g: &Graph) -> (r: Result<RequestInfo, String>)
    ensures
        match request_error(g.triples@) {
            Some(e) => r is Err && r->Err_0@ == e,
            None => r is Ok && {
                let req = first_typed_subject(g.triples@, seq![odrl_iri("Request"@)])->0;
                let perm = object_id_of(g.triples@, req, odrl_iri("permission"@))->0;
                &&& Some(r->Ok_0.assignee@) == local_object_of(g.triples@, perm, "assignee"@)
                &&& Some(r->Ok_0.action@) == local_object_of(g.triples@, perm, "action"@)
                &&& opt_string_view(r->Ok_0.target) == local_object_of(g.triples@, perm, "target"@)
            },
        },
{
    let req_node = match g.subject_with_type(odrl("Request").as_str()) {
        Some(n) => n,
        None => return Err(owned("no odrl:Request node")),
    };
    let permission = match g.object_node(req_node.as_str(), odrl("permission").as_str()) {
        Some(p) => p,
        None => return Err(owned("odrl:Request has no odrl:permission")),
    };
    let assignee = match local_object(g, permission.as_str(), "assignee") {
        Some(a) => a,
        None => return Err(owned("request's odrl:permission has no odrl:assignee")),
    };
    let action = match local_object(g, permission.as_str(), "action") {
        Some(a) => a,
        None => return Err(owned("request's odrl:permission has no odrl:action")),
    };
    let target = local_object(g, permission.as_str(), "target");
    Ok(RequestInfo { assignee, action, target })
}


// -- policy fixtures ---------------------------------------------------------------

/// The value of a [`ConstraintForm`].
pub enum FormV {
    Atomic(Seq<char>, Seq<char>, Seq<char>),
    And(Seq<FormV>),
    Or(Seq<FormV>),
    Xone(Seq<FormV>),
}

pub open spec fn form_view(f: ConstraintForm) -> FormV
    decreases f,
{
    match f {
        ConstraintForm::Atomic { left_operand, operator, right_operand } => FormV::Atomic(left_operand@, operator@, right_operand@),
        ConstraintForm::And(cs) => FormV::And(Seq::new(cs@.len(), |i: int| if 0 <= i < cs@.len() { form_view(cs@[i]) } else { FormV::And(Seq::empty()) })),
        ConstraintForm::Or(cs) => FormV::Or(Seq::new(cs@.len(), |i: int| if 0 <= i < cs@.len() { form_view(cs@[i]) } else { FormV::And(Seq::empty()) })),
        ConstraintForm::Xone(cs) => FormV::Xone(Seq::new(cs@.len(), |i: int| if 0 <= i < cs@.len() { form_view(cs@[i]) } else { FormV::And(Seq::empty()) })),
    }
}

impl View for ConstraintForm {
    type V = FormV;

    open spec fn view(&self) -> FormV {
        form_view(*self)
    }
}

/// The values of a list of forms.
pub open spec fn forms_view(s: Seq<ConstraintForm>) -> Seq<FormV> {
    Seq::new(s.len(), |i: int| s[i]@)
}

/// The value of a rule fixture; a party or asset is `(is a collection,
/// local name)`.
pub struct RuleInfoV {
    pub kind: RuleKind,
    pub assignee: Option<(bool, Seq<char>)>,
    pub action: Option<Seq<char>>,
    pub target: Option<(bool, Seq<char>)>,
    pub constraint: Option<FormV>,
    pub nested_duty: Option<Seq<char>>,
}

/// `r` is the rule fixture whose value is `v`.
pub open spec fn rule_info_is(r: RuleInfo, v: RuleInfoV) -> bool {
    &&& r.kind == v.kind
    &&& match r.assignee {
        None => v.assignee is None,
        Some(PartyRef::Individual(n)) => v.assignee == Some((false, n@)),
        Some(PartyRef::Collection(n)) => v.assignee == Some((true, n@)),
    }
    &&& opt_string_view(r.action) == v.action
    &&& match r.target {
        None => v.target is None,
        Some(TargetRef::Individual(n)) => v.target == Some((false, n@)),
        Some(TargetRef::Collection(n)) => v.target == Some((true, n@)),
    }
    &&& match r.constraint {
        None => v.constraint is None,
        Some(f) => v.constraint == Some(f@),
    }
    &&& opt_string_view(r.nested_duty) == v.nested_duty
}

/// Whether `id`'s first `rdf:type` is `odrl:{local}`.
pub open spec fn first_type_is(ts: Seq<Triple>, id: Seq<char>, local: Seq<char>) -> bool {
    object_id_of(ts, id, RDF_TYPE@) == Some(odrl_iri(local))
}

/// The local name of an optional id, or the empty string.
pub open spec fn local_or_empty(o: Option<Seq<char>>) -> Seq<char> {
    match o {
        Some(id) => local_name_of(id),
        None => Seq::empty(),
    }
}

/// The lexical form of an optional literal term, or the empty string.
pub open spec fn literal_or_empty(o: Option<Term>) -> Seq<char> {
    match o {
        Some(t) => match literal_of(t) {
            Some(l) => l,
            None => Seq::empty(),
        },
        None => Seq::empty(),
    }
}

/// The member ids of `c`'s `odrl:{local}` list.
pub open spec fn members_of(ts: Seq<Triple>, c: Seq<char>, local: Seq<char>) -> Seq<Seq<char>> {
    ids_of(list_of(ts, c, odrl_iri(local)))
}

/// The error for constraint nesting followed past the bound.
pub open spec fn nesting_error_of(c: Seq<char>) -> Seq<char> {
    c + ": constraint nesting is cyclic or deeper than the graph has triples"@
}

/// A constraint node: an `odrl:and`, `odrl:or` or `odrl:xone` group of its
/// list's members (the first non-empty list, in that order), else atomic,
/// with any missing part read as the empty string.
pub open spec fn form_of(ts: Seq<Triple>, c: Seq<char>, fuel: nat) -> Result<FormV, Seq<char>>
    decreases fuel, 0nat,
{
    if fuel == 0 {
        Err(nesting_error_of(c))
    } else {
        let a = members_of(ts, c, "and"@);
        let o = members_of(ts, c, "or"@);
        let x = members_of(ts, c, "xone"@);
        let f = (fuel - 1) as nat;
        if a.len() > 0 {
            match forms_of(ts, a, f, a.len() as int) { Err(e) => Err(e), Ok(cs) => Ok(FormV::And(cs)) }
        } else if o.len() > 0 {
            match forms_of(ts, o, f, o.len() as int) { Err(e) => Err(e), Ok(cs) => Ok(FormV::Or(cs)) }
        } else if x.len() > 0 {
            match forms_of(ts, x, f, x.len() as int) { Err(e) => Err(e), Ok(cs) => Ok(FormV::Xone(cs)) }
        } else {
            Ok(FormV::Atomic(
                local_or_empty(object_id_of(ts, c, odrl_iri("leftOperand"@))),
                local_or_empty(object_id_of(ts, c, odrl_iri("operator"@))),
                literal_or_empty(first_of(objects_of(ts, c, odrl_iri("rightOperand"@)))),
            ))
        }
    }
}

/// The first `n` constraint nodes of `ids`, read in order.
pub open spec fn forms_of(ts: Seq<Triple>, ids: Seq<Seq<char>>, fuel: nat, n: int) -> Result<Seq<FormV>, Seq<char>>
    decreases fuel, if n < 0 { 0 } else { n as nat },
{
    if n <= 0 || n > ids.len() {
        Ok(Seq::empty())
    } else {
        match forms_of(ts, ids, fuel, n - 1) {
            Err(e) => Err(e),
            Ok(fs) => match form_of(ts, ids[n - 1], fuel) {
                Err(e) => Err(e),
                Ok(f) => Ok(fs.push(f)),
            },
        }
    }
}

pub proof fn lemma_forms_err_persists(ts: Seq<Triple>, ids: Seq<Seq<char>>, fuel: nat, k: int, m: int)
    requires
        1 <= k <= m <= ids.len(),
        forms_of(ts, ids, fuel, k) is Err,
    ensures
        forms_of(ts, ids, fuel, m) == forms_of(ts, ids, fuel, k),
    decreases m - k,
{
    if m > k {
        lemma_forms_err_persists(ts, ids, fuel, k, m - 1);
    }
}

/// A party or asset reference: `(is a collection of the given class, local
/// name)`.
pub open spec fn ref_of(ts: Seq<Triple>, node: Seq<char>, p: Seq<char>, collection: Seq<char>) -> Option<(bool, Seq<char>)> {
    match object_id_of(ts, node, odrl_iri(p)) {
        None => None,
        Some(id) => Some((first_type_is(ts, id, collection), local_name_of(id))),
    }
}

/// One rule node of a policy fixture.
pub open spec fn rule_of(ts: Seq<Triple>, r: Seq<char>, kind: RuleKind, fuel: nat) -> Result<RuleInfoV, Seq<char>> {
    let constraint = match object_id_of(ts, r, odrl_iri("constraint"@)) {
        None => Ok(None),
        Some(c) => match form_of(ts, c, fuel) {
            Err(e) => Err(e),
            Ok(f) => Ok(Some(f)),
        },
    };
    match constraint {
        Err(e) => Err(e),
        Ok(constraint) => Ok(RuleInfoV {
            kind,
            assignee: ref_of(ts, r, "assignee"@, "PartyCollection"@),
            action: local_object_of(ts, r, "action"@),
            target: ref_of(ts, r, "target"@, "AssetCollection"@),
            constraint,
            nested_duty: object_id_of(ts, r, odrl_iri("duty"@)),
        }),
    }
}

/// The first `n` rule nodes of `ids`, all of `kind`, read in order.
pub open spec fn rules_of(ts: Seq<Triple>, ids: Seq<Seq<char>>, kind: RuleKind, fuel: nat, n: int) -> Result<Seq<RuleInfoV>, Seq<char>>
    decreases if n < 0 { 0 } else { n as nat },
{
    if n <= 0 || n > ids.len() {
        Ok(Seq::empty())
    } else {
        match rules_of(ts, ids, kind, fuel, n - 1) {
            Err(e) => Err(e),
            Ok(rs) => match rule_of(ts, ids[n - 1], kind, fuel) {
                Err(e) => Err(e),
                Ok(r) => Ok(rs.push(r)),
            },
        }
    }
}

pub proof fn lemma_rules_err_persists(ts: Seq<Triple>, ids: Seq<Seq<char>>, kind: RuleKind, fuel: nat, k: int, m: int)
    requires
        1 <= k <= m <= ids.len(),
        rules_of(ts, ids, kind, fuel, k) is Err,
    ensures
        rules_of(ts, ids, kind, fuel, m) == rules_of(ts, ids, kind, fuel, k),
    decreases m - k,
{
    if m > k {
        lemma_rules_err_persists(ts, ids, kind, fuel, k, m - 1);
    }
}

/// The policy classes a policy fixture's node may carry.
pub open spec fn policy_classes() -> Seq<Seq<char>> {
    seq![odrl_iri("Set"@), odrl_iri("Offer"@), odrl_iri("Agreement"@)]
}

/// A policy fixture: the first node typed `odrl:Set`, `Offer` or
/// `Agreement`, with its permissions, then its prohibitions; constraint
/// nesting is followed at most as deep as the graph has triples.
pub open spec fn policy_info_of(ts: Seq<Triple>) -> Result<(Seq<char>, Seq<RuleInfoV>), Seq<char>> {
    match first_typed_subject(ts, policy_classes()) {
        None => Err("no odrl:Set/Offer/Agreement node"@),
        Some(p) => {
            let perms = ids_of(objects_of(ts, p, odrl_iri("permission"@)));
            let prohs = ids_of(objects_of(ts, p, odrl_iri("prohibition"@)));
            match rules_of(ts, perms, RuleKind::Permission, ts.len(), perms.len() as int) {
                Err(e) => Err(e),
                Ok(a) => match rules_of(ts, prohs, RuleKind::Prohibition, ts.len(), prohs.len() as int) {
                    Err(e) => Err(e),
                    Ok(b) => Ok((p, a + b)),
                },
            }
        },
    }
}

/// A logical form's value is the group of its children's values.
pub proof fn lemma_group_views(cs: Vec<ConstraintForm>)
    ensures
        ConstraintForm::And(cs)@ == FormV::And(forms_view(cs@)),
        ConstraintForm::Or(cs)@ == FormV::Or(forms_view(cs@)),
        ConstraintForm::Xone(cs)@ == FormV::Xone(forms_view(cs@)),
{
    let fa = form_view(ConstraintForm::And(cs));
    let fo = form_view(ConstraintForm::Or(cs));
    let fx = form_view(ConstraintForm::Xone(cs));
    assert(fa->And_0 =~= forms_view(cs@));
    assert(fo->Or_0 =~= forms_view(cs@));
    assert(fx->Xone_0 =~= forms_view(cs@));
}

fn members(g: &Graph, c: &str, local: &str) -> (r: Vec<String>)
    ensures
        views(r@) == members_of(g.triples@, c@, local@),
{
    g.rdf_list_ids(c, odrl(local).as_str())
}

fn first_type_matches(g: &Graph, id: &str, local: &str) -> (r: bool)
    ensures
        r == first_type_is(g.triples@, id@, local@),
{
    match g.type_of(id) {
        Some(t) => str_eq(t.as_str(), odrl(local).as_str()),
        None => false,
    }
}

/// One constraint node of a policy fixture.
pub fn parse_constraint(g: &Graph, c: &str, fuel: usize) -> (r: Result<ConstraintForm, String>)
    ensures
        match form_of(g.triples@, c@, fuel as nat) {
            Ok(f) => r is Ok && r->Ok_0@ == f,
            Err(e) => r is Err && r->Err_0@ == e,
        },
    decreases fuel, 0nat,
{
    if fuel == 0 {
        return Err(concat2(c, ": constraint nesting is cyclic or deeper than the graph has triples"));
    }
    let a = members(g, c, "and");
    if a.len() > 0 {
        return match parse_constraints(g, &a, fuel - 1) {
            Ok(cs) => {
                proof { lemma_group_views(cs); }
                let f = ConstraintForm::And(cs);
                Ok(f)
            },
            Err(e) => Err(e),
        };
    }
    let o = members(g, c, "or");
    if o.len() > 0 {
        return match parse_constraints(g, &o, fuel - 1) {
            Ok(cs) => {
                proof { lemma_group_views(cs); }
                let f = ConstraintForm::Or(cs);
                Ok(f)
            },
            Err(e) => Err(e),
        };
    }
    let x = members(g, c, "xone");
    if x.len() > 0 {
        return match parse_constraints(g, &x, fuel - 1) {
            Ok(cs) => {
                proof { lemma_group_views(cs); }
                let f = ConstraintForm::Xone(cs);
                Ok(f)
            },
            Err(e) => Err(e),
        };
    }
    let left_operand = match g.object_node(c, odrl("leftOperand").as_str()) {
        Some(id) => owned(local_name(id.as_str())),
        None => String::new(),
    };
    let operator = match g.object_node(c, odrl("operator").as_str()) {
        Some(id) => owned(local_name(id.as_str())),
        None => String::new(),
    };
    let right_operand = match g.object(c, odrl("rightOperand").as_str()) {
        Some(Term::Literal(l)) => l,
        _ => String::new(),
    };
    Ok(ConstraintForm::Atomic { left_operand, operator, right_operand })
}

/// The constraint nodes `ids`, read in order.
pub fn parse_constraints(g: &Graph, ids: &Vec<String>, fuel: usize) -> (r: Result<Vec<ConstraintForm>, String>)
    ensures
        match forms_of(g.triples@, views(ids@), fuel as nat, ids@.len() as int) {
            Ok(fs) => r is Ok && forms_view(r->Ok_0@) == fs,
            Err(e) => r is Err && r->Err_0@ == e,
        },
    decreases fuel, 1nat,
{
    let ghost iv = views(ids@);
    let mut out: Vec<ConstraintForm> = Vec::new();
    let mut i: usize = 0;
    assert(forms_view(out@) =~= Seq::<FormV>::empty());
    while i < ids.len()
        invariant
            i <= ids@.len(),
            iv == views(ids@),
            forms_of(g.triples@, iv, fuel as nat, i as int) == Ok::<Seq<FormV>, Seq<char>>(forms_view(out@)),
        decreases ids.len() - i,
    {
        assert(iv[i as int] == ids@[i as int]@);
        match parse_constraint(g, ids[i].as_str(), fuel) {
            Ok(f) => {
                let ghost before = out@;
                out.push(f);
                assert(forms_view(out@) =~= forms_view(before).push(f@));
            },
            Err(e) => {
                proof { lemma_forms_err_persists(g.triples@, iv, fuel as nat, i as int + 1, iv.len() as int); }
                return Err(e);
            },
        }
        i = i + 1;
    }
    Ok(out)
}

/// One rule node of a policy fixture.
pub fn parse_rule(g: &Graph, rule_node: &str, kind: RuleKind, fuel: usize) -> (r: Result<RuleInfo, String>)
    ensures
        match rule_of(g.triples@, rule_node@, kind, fuel as nat) {
            Ok(v) => r is Ok && rule_info_is(r->Ok_0, v),
            Err(e) => r is Err && r->Err_0@ == e,
        },
{
    let constraint = match g.object_node(rule_node, odrl("constraint").as_str()) {
        None => None,
        Some(c) => match parse_constraint(g, c.as_str(), fuel) {
            Ok(f) => Some(f),
            Err(e) => return Err(e),
        },
    };
    let assignee = match g.object_node(rule_node, odrl("assignee").as_str()) {
        None => None,
        Some(id) => if first_type_matches(g, id.as_str(), "PartyCollection") {
            Some(PartyRef::Collection(owned(local_name(id.as_str()))))
        } else {
            Some(PartyRef::Individual(owned(local_name(id.as_str()))))
        },
    };
    let action = local_object(g, rule_node, "action");
    let target = match g.object_node(rule_node, odrl("target").as_str()) {
        None => None,
        Some(id) => if first_type_matches(g, id.as_str(), "AssetCollection") {
            Some(TargetRef::Collection(owned(local_name(id.as_str()))))
        } else {
            Some(TargetRef::Individual(owned(local_name(id.as_str()))))
        },
    };
    let nested_duty = g.object_node(rule_node, odrl("duty").as_str());
    Ok(RuleInfo { kind, assignee, action, target, constraint, nested_duty })
}

fn parse_rules(g: &Graph, ids: &Vec<String>, kind: RuleKind, fuel: usize, out: &mut Vec<RuleInfo>) -> (r: Result<(), String>)
    ensures
        match rules_of(g.triples@, views(ids@), kind, fuel as nat, ids@.len() as int) {
            Ok(vs) => r is Ok && final(out)@.len() == old(out)@.len() + vs.len()
                && (forall|k: int| 0 <= k < old(out)@.len() ==> #[trigger] final(out)@[k] == old(out)@[k])
                && (forall|k: int| old(out)@.len() <= k < final(out)@.len() ==> rule_info_is(#[trigger] final(out)@[k], vs[k - old(out)@.len()])),
            Err(e) => r is Err && r->Err_0@ == e,
        },
{
    let ghost iv = views(ids@);
    let ghost base = out@;
    let mut i: usize = 0;
    while i < ids.len()
        invariant
            i <= ids@.len(),
            iv == views(ids@),
            base == old(out)@,
            rules_of(g.triples@, iv, kind, fuel as nat, i as int) is Ok,
            out@.len() == base.len() + rules_of(g.triples@, iv, kind, fuel as nat, i as int)->Ok_0.len(),
            rules_of(g.triples@, iv, kind, fuel as nat, i as int)->Ok_0.len() == i,
            forall|k: int| 0 <= k < base.len() ==> #[trigger] out@[k] == base[k],
            forall|k: int| base.len() <= k < out@.len() ==> rule_info_is(#[trigger] out@[k], rules_of(g.triples@, iv, kind, fuel as nat, i as int)->Ok_0[k - base.len()]),
        decreases ids.len() - i,
    {
        assert(iv[i as int] == ids@[i as int]@);
        match parse_rule(g, ids[i].as_str(), kind, fuel) {
            Ok(rule) => {
                let ghost prev = rules_of(g.triples@, iv, kind, fuel as nat, i as int)->Ok_0;
                let ghost before = out@;
                out.push(rule);
                proof {
                    let now = rules_of(g.triples@, iv, kind, fuel as nat, i as int + 1)->Ok_0;
                    assert forall|k: int| base.len() <= k < out@.len() implies rule_info_is(#[trigger] out@[k], now[k - base.len()]) by {
                        if k < out@.len() - 1 {
                            assert(now[k - base.len()] == prev[k - base.len()]);
                            assert(out@[k] == before[k]);
                        }
                    }
                    assert forall|k: int| 0 <= k < base.len() implies #[trigger] out@[k] == base[k] by {
                        assert(out@[k] == before[k]);
                    }
                }
            },
            Err(e) => {
                proof { lemma_rules_err_persists(g.triples@, iv, kind, fuel as nat, i as int + 1, iv.len() as int); }
                return Err(e);
            },
        }
        i = i + 1;
    }
    Ok(())
}

/// Reads a policy fixture: its policy node's id and its rules,
/// permissions first.
pub fn parse_policy(g: &Graph) -> (r: Result<PolicyInfo, String>)
    ensures
        match policy_info_of(g.triples@) {
            Ok((id, vs)) => r is Ok && r->Ok_0.id@ == id && r->Ok_0.rules@.len() == vs.len()
                && forall|k: int| 0 <= k < vs.len() ==> #[trigger] rule_info_is(r->Ok_0.rules@[k], vs[k]),
            Err(e) => r is Err && r->Err_0@ == e,
        },
{
    let classes = vec![odrl("Set"), odrl("Offer"), odrl("Agreement")];
    assert(views(classes@) =~= policy_classes());
    let policy_node = match g.subject_with_any_type(classes.as_slice()) {
        Some(p) => p,
        None => return Err(owned("no odrl:Set/Offer/Agreement node")),
    };
    let fuel = g.triples.len();
    let perms = g.object_nodes(policy_node.as_str(), odrl("permission").as_str());
    let prohs = g.object_nodes(policy_node.as_str(), odrl("prohibition").as_str());
    let mut rules: Vec<RuleInfo> = Vec::new();
    match parse_rules(g, &perms, RuleKind::Permission, fuel, &mut rules) {
        Ok(()) => {},
        Err(e) => return Err(e),
    }
    let ghost after_perms = rules@;
    match parse_rules(g, &prohs, RuleKind::Prohibition, fuel, &mut rules) {
        Ok(()) => {},
        Err(e) => return Err(e),
    }
    proof {
        let a = rules_of(g.triples@, views(perms@), RuleKind::Permission, fuel as nat, perms@.len() as int)->Ok_0;
        let b = rules_of(g.triples@, views(prohs@), RuleKind::Prohibition, fuel as nat, prohs@.len() as int)->Ok_0;
        assert forall|k: int| 0 <= k < (a + b).len() implies #[trigger] rule_info_is(rules@[k], (a + b)[k]) by {
            if k < a.len() {
                assert(rules@[k] == after_perms[k]);
                assert(rule_info_is(after_perms[k], a[k - 0]));
            } else {
                assert(rule_info_is(rules@[k], b[k - a.len()]));
            }
        }
    }
    Ok(PolicyInfo { id: policy_node, rules })
}

} // verus!
