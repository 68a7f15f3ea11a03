//! Translates one `dsc:Request` node of a compliance fixture's graph into
//! the engine's wire `Request`, together with the source-id shadow of every
//! translated policy.
//!
//! Every resource is stringified by its local name and every literal by
//! its lexical form: the engine compares actions, targets, parties, claim
//! keys and values as opaque strings, and within one fixture file every
//! resource is a fragment of the file's own base, so the local name names
//! it uniquely.
//!
//! Nested constraints and rules are followed at most as many levels deep
//! as the graph has triples, which no acyclic graph reaches; a cyclic
//! nesting is reported as an error.

use vstd::prelude::*;
use vstd::string::*;
use crate::text::{str_eq, owned, concat2, concat3, debug_quoted, debug_str, to_lowercase, lowercase};
use crate::rdf::{Graph, Term, Triple, objects_of, ids_of, first_literal, object_id_of, has_type_of, first_of,
    term_id_of, list_of, views, opt_string_view, term_id};
use crate::rdf_vocab::{local_name, odrl, dsc, RDF_ODRL_NS, DSC_NS, RDF_VALUE};
use crate::suite_vocab::local_name_of;
use crate::rdf_expected::opt_local;
use crate::rdf_ids::{RuleIds, RuleIdsV, PolicyIds, rids_view, opt_views};
use crate::ingest::{join_commas, join_with_commas, lemma_atom_view, lemma_logical_view};
use crate::wire::{Constraint, ConstraintV, Operator, Rule, RuleV, WirePolicy, ConflictStrategy, DutyMode, Behaviour,
    RequestConfig, WireActionDecl, WireNodeRef, ClaimValue, Claims, Request, atom_v, logical_v, sequence_v, cviews, rviews, operator_wire_name, lemma_operator_wire_name_chars,
    conflict_wire_name, duty_mode_wire_name, behaviour_wire_name, lemma_config_wire_name_lengths};

verus! {

/// `odrl:{local}`.
pub open spec fn odrl_iri(local: Seq<char>) -> Seq<char> {
    RDF_ODRL_NS@ + local
}

/// `dsc:{local}`.
pub open spec fn dsc_iri(local: Seq<char>) -> Seq<char> {
    DSC_NS@ + local
}

/// The string a term translates to: a resource's local name, a literal's
/// lexical form.
pub open spec fn term_string_of(t: Term) -> Seq<char> {
    match t {
        Term::Iri(i) => local_name_of(i@),
        Term::Blank(b) => local_name_of("_:"@ + b@),
        Term::Literal(l) => l@,
    }
}

/// The error for a value that names no variant of the enum it selects.
pub open spec fn unrecognized_of(local: Seq<char>) -> Seq<char> {
    debug_str(local) + " is not a recognized value"@
}

/// The error for nesting followed past the bound.
pub open spec fn too_deep_of(node: Seq<char>) -> Seq<char> {
    node + ": nesting is cyclic or deeper than the graph has triples"@
}

/// The operator an ODRL local name selects.
pub open spec fn operator_local_of(s: Seq<char>) -> Option<Operator> {
    if s == "eq"@ {
        Some(Operator::Eq)
    } else if s == "neq"@ {
        Some(Operator::Neq)
    } else if s == "lt"@ {
        Some(Operator::Lt)
    } else if s == "lteq"@ {
        Some(Operator::Lteq)
    } else if s == "gt"@ {
        Some(Operator::Gt)
    } else if s == "gteq"@ {
        Some(Operator::Gteq)
    } else if s == "isAnyOf"@ {
        Some(Operator::IsAnyOf)
    } else if s == "isAllOf"@ {
        Some(Operator::IsAllOf)
    } else if s == "isNoneOf"@ {
        Some(Operator::IsNoneOf)
    } else if s == "isPartOf"@ {
        Some(Operator::IsPartOf)
    } else {
        None
    }
}

/// The operator an RDF constraint names by local name is the engine
/// operator whose wire name that local name is: each of the ten wire names
/// selects its own operator, and a name selects an operator only if it is
/// that operator's wire name.
pub proof fn an_operator_local_name_selects_the_operator_so_named(s: Seq<char>, op: Operator)
    ensures
        operator_local_of(operator_wire_name(op)) == Some(op),
        operator_local_of(s) == Some(op) <==> s == operator_wire_name(op),
{
    lemma_operator_wire_name_chars();
}

/// A constraint's left operand: a `dsc:ClaimKey` node's own `dsc:key`
/// literal, else the node's local name.
pub open spec fn left_operand_of(ts: Seq<Triple>, t: Term) -> Result<Seq<char>, Seq<char>> {
    match term_id_of(t) {
        None => Err("odrl:leftOperand must be a resource, not a literal"@),
        Some(id) => if has_type_of(ts, id, dsc_iri("ClaimKey"@)) {
            match first_literal(objects_of(ts, id, dsc_iri("key"@))) {
                Some(k) => Ok(k),
                None => Err(id + ": dsc:ClaimKey with no dsc:key"@),
            }
        } else {
            Ok(local_name_of(id))
        },
    }
}

/// The node ids of the `rdf:List` that is `node`'s `odrl:{local}`.
pub open spec fn list_ids_of(ts: Seq<Triple>, node: Seq<char>, local: Seq<char>) -> Seq<Seq<char>> {
    ids_of(list_of(ts, node, odrl_iri(local)))
}

/// The strings of `terms`, in order.
pub open spec fn term_strings_of(terms: Seq<Term>) -> Seq<Seq<char>> {
    terms.map_values(|t: Term| term_string_of(t))
}

/// An atomic constraint node: left operand, operator, and its right
/// operands joined with commas.
pub open spec fn atomic_of(ts: Seq<Triple>, node: Seq<char>) -> Result<ConstraintV, Seq<char>> {
    match first_of(objects_of(ts, node, odrl_iri("leftOperand"@))) {
        None => Err(node + ": constraint has no odrl:leftOperand"@),
        Some(lt) => match left_operand_of(ts, lt) {
            Err(e) => Err(e),
            Ok(left) => match object_id_of(ts, node, odrl_iri("operator"@)) {
                None => Err(node + ": constraint has no odrl:operator"@),
                Some(opid) => match operator_local_of(local_name_of(opid)) {
                    None => Err(unrecognized_of(local_name_of(opid))),
                    Some(op) => {
                        let right = join_commas(term_strings_of(objects_of(ts, node, odrl_iri("rightOperand"@))));
                        if right.len() == 0 {
                            Err(node + ": constraint has no odrl:rightOperand"@)
                        } else {
                            Ok(atom_v(left, op, right))
                        }
                    },
                },
            },
        },
    }
}

/// One constraint node: the first of `odrl:and`, `odrl:or`, `odrl:xone`,
/// `odrl:andSequence` whose list is non-empty makes it a logical group of
/// its members, else it is atomic.
pub open spec fn translate_constraint_of(ts: Seq<Triple>, node: Seq<char>, fuel: nat) -> Result<ConstraintV, Seq<char>>
    decreases fuel, 0nat,
{
    if fuel == 0 {
        Err(too_deep_of(node))
    } else {
        let a = list_ids_of(ts, node, "and"@);
        let o = list_ids_of(ts, node, "or"@);
        let x = list_ids_of(ts, node, "xone"@);
        let q = list_ids_of(ts, node, "andSequence"@);
        let f = (fuel - 1) as nat;
        if a.len() > 0 {
            match constraints_of(ts, a, f, a.len() as int) {
                Err(e) => Err(e),
                Ok(cs) => Ok(logical_v(cs, Seq::empty(), Seq::empty())),
            }
        } else if o.len() > 0 {
            match constraints_of(ts, o, f, o.len() as int) {
                Err(e) => Err(e),
                Ok(cs) => Ok(logical_v(Seq::empty(), cs, Seq::empty())),
            }
        } else if x.len() > 0 {
            match constraints_of(ts, x, f, x.len() as int) {
                Err(e) => Err(e),
                Ok(cs) => Ok(logical_v(Seq::empty(), Seq::empty(), cs)),
            }
        } else if q.len() > 0 {
            match constraints_of(ts, q, f, q.len() as int) {
                Err(e) => Err(e),
                Ok(cs) => Ok(sequence_v(cs)),
            }
        } else {
            atomic_of(ts, node)
        }
    }
}

/// The first `n` of the constraint nodes `ids`, translated in order.
pub open spec fn constraints_of(ts: Seq<Triple>, ids: Seq<Seq<char>>, fuel: nat, n: int) -> Result<Seq<ConstraintV>, Seq<char>>
    decreases fuel, if n < 0 { 0 } else { n as nat },
{
    if n <= 0 || n > ids.len() {
        Ok(Seq::empty())
    } else {
        match constraints_of(ts, ids, fuel, n - 1) {
            Err(e) => Err(e),
            Ok(cs) => match translate_constraint_of(ts, ids[n - 1], fuel) {
                Err(e) => Err(e),
                Ok(c) => Ok(cs.push(c)),
            },
        }
    }
}

pub proof fn lemma_constraints_err_persists(ts: Seq<Triple>, ids: Seq<Seq<char>>, fuel: nat, k: int, m: int)
    requires
        1 <= k <= m <= ids.len(),
        constraints_of(ts, ids, fuel, k) is Err,
    ensures
        constraints_of(ts, ids, fuel, m) == constraints_of(ts, ids, fuel, k),
    decreases m - k,
{
    if m > k {
        lemma_constraints_err_persists(ts, ids, fuel, k, m - 1);
    }
}

/// The string a term translates to.
pub fn term_string(t: &Term) -> (r: String)
    ensures
        r@ == term_string_of(*t),
{
    match t {
        Term::Iri(i) => owned(local_name(i.as_str())),
        Term::Blank(b) => {
            let id = concat2("_:", b.as_str());
            owned(local_name(id.as_str()))
        },
        Term::Literal(l) => l.clone(),
    }
}

fn unrecognized(local: &str) -> (r: String)
    ensures
        r@ == unrecognized_of(local@),
{
    let q = debug_quoted(local);
    concat2(q.as_str(), " is not a recognized value")
}

fn too_deep(node: &str) -> (r: String)
    ensures
        r@ == too_deep_of(node@),
{
    concat2(node, ": nesting is cyclic or deeper than the graph has triples")
}

/// The operator an ODRL local name selects.
pub fn operator_local(s: &str) -> (r: Option<Operator>)
    ensures
        r == operator_local_of(s@),
{
    if str_eq(s, "eq") {
        Some(Operator::Eq)
    } else if str_eq(s, "neq") {
        Some(Operator::Neq)
    } else if str_eq(s, "lt") {
        Some(Operator::Lt)
    } else if str_eq(s, "lteq") {
        Some(Operator::Lteq)
    } else if str_eq(s, "gt") {
        Some(Operator::Gt)
    } else if str_eq(s, "gteq") {
        Some(Operator::Gteq)
    } else if str_eq(s, "isAnyOf") {
        Some(Operator::IsAnyOf)
    } else if str_eq(s, "isAllOf") {
        Some(Operator::IsAllOf)
    } else if str_eq(s, "isNoneOf") {
        Some(Operator::IsNoneOf)
    } else if str_eq(s, "isPartOf") {
        Some(Operator::IsPartOf)
    } else {
        None
    }
}

/// A constraint's left operand.
pub fn resolve_left_operand(g: &Graph, t: &Term) -> (r: Result<String, String>)
    ensures
        match left_operand_of(g.triples@, *t) {
            Ok(s) => r is Ok && r->Ok_0@ == s,
            Err(e) => r is Err && r->Err_0@ == e,
        },
{
    let id = match term_id(t) {
        Some(id) => id,
        None => return Err(owned("odrl:leftOperand must be a resource, not a literal")),
    };
    let ck = dsc("ClaimKey");
    if g.has_type(id.as_str(), ck.as_str()) {
        let k = dsc("key");
        match g.literal(id.as_str(), k.as_str()) {
            Some(l) => Ok(l),
            None => Err(concat2(id.as_str(), ": dsc:ClaimKey with no dsc:key")),
        }
    } else {
        Ok(owned(local_name(id.as_str())))
    }
}

/// The strings of `terms`, in order.
fn term_strings(terms: &Vec<Term>) -> (r: Vec<String>)
    ensures
        Seq::new(r@.len(), |i: int| r@[i]@) == term_strings_of(terms@),
{
    let mut r: Vec<String> = Vec::new();
    let mut i: usize = 0;
    while i < terms.len()
        invariant
            i <= terms@.len(),
            r@.len() == i,
            forall|j: int| 0 <= j < i ==> (#[trigger] r@[j])@ == term_string_of(terms@[j]),
        decreases terms.len() - i,
    {
        r.push(term_string(&terms[i]));
        i = i + 1;
    }
    assert(Seq::new(r@.len(), |i: int| r@[i]@) =~= term_strings_of(terms@));
    r
}

/// An atomic constraint node.
fn translate_atomic(g: &Graph, node: &str) -> (r: Result<Constraint, String>)
    ensures
        match atomic_of(g.triples@, node@) {
            Ok(c) => r is Ok && r->Ok_0@ == c,
            Err(e) => r is Err && r->Err_0@ == e,
        },
{
    let lo = odrl("leftOperand");
    let lt = match g.object(node, lo.as_str()) {
        Some(t) => t,
        None => return Err(concat2(node, ": constraint has no odrl:leftOperand")),
    };
    let left = match resolve_left_operand(g, &lt) {
        Ok(l) => l,
        Err(e) => return Err(e),
    };
    let opi = odrl("operator");
    let opid = match g.object_id(node, opi.as_str()) {
        Some(o) => o,
        None => return Err(concat2(node, ": constraint has no odrl:operator")),
    };
    let local = local_name(opid.as_str());
    let op = match operator_local(local) {
        Some(o) => o,
        None => return Err(unrecognized(local)),
    };
    let ro = odrl("rightOperand");
    let objs = g.objects(node, ro.as_str());
    let strs = term_strings(&objs);
    let right = join_with_commas(&strs);
    if right.unicode_len() == 0 {
        return Err(concat2(node, ": constraint has no odrl:rightOperand"));
    }
    let c = Constraint::new(left, op, right);
    proof { lemma_atom_view(c); }
    Ok(c)
}

/// The non-empty list of logical members under `odrl:{local}`, if any.
fn logical_members(g: &Graph, node: &str, local: &str) -> (r: Vec<String>)
    ensures
        views(r@) == list_ids_of(g.triples@, node@, local@),
{
    let p = odrl(local);
    g.rdf_list_ids(node, p.as_str())
}

pub proof fn lemma_sequence_view(c: Constraint)
    requires
        c.left_operand@.len() == 0,
        c.right_operand@.len() == 0,
        c.operator == Operator::Eq,
        c.and@.len() == 0,
        c.or@.len() == 0,
        c.xone@.len() == 0,
    ensures
        c@ == sequence_v(cviews(c.and_sequence@)),
{
    assert(c@.left =~= Seq::<char>::empty());
    assert(c@.right =~= Seq::<char>::empty());
    assert(c@.and =~= Seq::<ConstraintV>::empty());
    assert(c@.or =~= Seq::<ConstraintV>::empty());
    assert(c@.xone =~= Seq::<ConstraintV>::empty());
    assert(c@.and_sequence =~= cviews(c.and_sequence@));
}

/// One constraint node, followed at most `fuel` levels deep.
pub fn translate_constraint(g: &Graph, node: &str, fuel: usize) -> (r: Result<Constraint, String>)
    ensures
        match translate_constraint_of(g.triples@, node@, fuel as nat) {
            Ok(c) => r is Ok && r->Ok_0@ == c,
            Err(e) => r is Err && r->Err_0@ == e,
        },
    decreases fuel, 0nat,
{
    if fuel == 0 {
        return Err(too_deep(node));
    }
    let a = logical_members(g, node, "and");
    if a.len() > 0 {
        return match translate_constraints(g, &a, fuel - 1) {
            Ok(cs) => {
                let c = Constraint::and(cs);
                proof { lemma_logical_view(c); }
                Ok(c)
            },
            Err(e) => Err(e),
        };
    }
    let o = logical_members(g, node, "or");
    if o.len() > 0 {
        return match translate_constraints(g, &o, fuel - 1) {
            Ok(cs) => {
                let c = Constraint::or(cs);
                proof { lemma_logical_view(c); }
                Ok(c)
            },
            Err(e) => Err(e),
        };
    }
    let x = logical_members(g, node, "xone");
    if x.len() > 0 {
        return match translate_constraints(g, &x, fuel - 1) {
            Ok(cs) => {
                let c = Constraint::xone(cs);
                proof { lemma_logical_view(c); }
                Ok(c)
            },
            Err(e) => Err(e),
        };
    }
    let q = logical_members(g, node, "andSequence");
    if q.len() > 0 {
        return match translate_constraints(g, &q, fuel - 1) {
            Ok(cs) => {
                let c = Constraint::and_sequence(cs);
                proof { lemma_sequence_view(c); }
                Ok(c)
            },
            Err(e) => Err(e),
        };
    }
    translate_atomic(g, node)
}

/// The constraint nodes `ids`, translated in order.
pub fn translate_constraints(g: &Graph, ids: &Vec<String>, fuel: usize) -> (r: Result<Vec<Constraint>, String>)
    ensures
        match constraints_of(g.triples@, views(ids@), fuel as nat, ids@.len() as int) {
            Ok(cs) => r is Ok && cviews(r->Ok_0@) == cs,
            Err(e) => r is Err && r->Err_0@ == e,
        },
    decreases fuel, 1nat,
{
    let ghost iv = views(ids@);
    let mut out: Vec<Constraint> = Vec::new();
    let mut i: usize = 0;
    assert(cviews(out@) =~= Seq::<ConstraintV>::empty());
    while i < ids.len()
        invariant
            i <= ids@.len(),
            iv == views(ids@),
            constraints_of(g.triples@, iv, fuel as nat, i as int) == Ok::<Seq<ConstraintV>, Seq<char>>(cviews(out@)),
        decreases ids.len() - i,
    {
        assert(iv[i as int] == ids@[i as int]@);
        match translate_constraint(g, ids[i].as_str(), fuel) {
            Ok(c) => {
                let ghost before = out@;
                out.push(c);
                assert(cviews(out@) =~= cviews(before).push(c@));
            },
            Err(e) => {
                proof { lemma_constraints_err_persists(g.triples@, iv, fuel as nat, i as int + 1, iv.len() as int); }
                return Err(e);
            },
        }
        i = i + 1;
    }
    Ok(out)
}


// -- rules -----------------------------------------------------------------------

/// A rule node's `odrl:action`: a plain action resource, or a node whose
/// `rdf:value` names the action and whose `odrl:refinement` refines it.
pub open spec fn action_of(ts: Seq<Triple>, node: Seq<char>, fuel: nat) -> Result<(Seq<char>, Option<ConstraintV>), Seq<char>> {
    match first_of(objects_of(ts, node, odrl_iri("action"@))) {
        None => Err(node + ": no odrl:action"@),
        Some(t) => match term_id_of(t) {
            None => Err(node + ": odrl:action must be a resource"@),
            Some(aid) => match object_id_of(ts, aid, RDF_VALUE@) {
                Some(vid) => match object_id_of(ts, aid, odrl_iri("refinement"@)) {
                    None => Ok((local_name_of(vid), None)),
                    Some(rid) => match translate_constraint_of(ts, rid, fuel) {
                        Err(e) => Err(e),
                        Ok(c) => Ok((local_name_of(vid), Some(c))),
                    },
                },
                None => Ok((local_name_of(aid), None)),
            },
        },
    }
}

/// The ids of the node-valued `odrl:{local}` objects of `node`.
pub open spec fn odrl_ids_of(ts: Seq<Triple>, node: Seq<char>, local: Seq<char>) -> Seq<Seq<char>> {
    ids_of(objects_of(ts, node, odrl_iri(local)))
}

/// One rule node with its id shadow: action and refinement, target,
/// constraints, duties, remedies and consequence, each nested rule
/// translated the same way.
pub open spec fn translate_rule_of(ts: Seq<Triple>, node: Seq<char>, fuel: nat) -> Result<(RuleV, RuleIdsV), Seq<char>>
    decreases fuel, 0nat,
{
    if fuel == 0 {
        Err(too_deep_of(node))
    } else {
        let f = (fuel - 1) as nat;
        match action_of(ts, node, f) {
            Err(e) => Err(e),
            Ok((action, refinement)) => {
                let target = opt_local(object_id_of(ts, node, odrl_iri("target"@)));
                let cids = odrl_ids_of(ts, node, "constraint"@);
                let dids = odrl_ids_of(ts, node, "duty"@);
                let rids = odrl_ids_of(ts, node, "remedy"@);
                match constraints_of(ts, cids, f, cids.len() as int) {
                    Err(e) => Err(e),
                    Ok(cs) => match rules_of(ts, dids, f, dids.len() as int) {
                        Err(e) => Err(e),
                        Ok((duty, duty_ids)) => match rules_of(ts, rids, f, rids.len() as int) {
                            Err(e) => Err(e),
                            Ok((remedy, remedy_ids)) => {
                                let rule = RuleV { action, target, constraints: cs, refinement, duty, remedy, consequence: None };
                                let ids = RuleIdsV { rule_id: local_name_of(node), action, duty: duty_ids, remedy: remedy_ids, consequence: None };
                                match object_id_of(ts, node, odrl_iri("consequence"@)) {
                                    None => Ok((rule, ids)),
                                    Some(c) => match translate_rule_of(ts, c, f) {
                                        Err(e) => Err(e),
                                        Ok((cr, ci)) => Ok((
                                            RuleV { consequence: Some(Box::new(cr)), ..rule },
                                            RuleIdsV { consequence: Some(Box::new(ci)), ..ids },
                                        )),
                                    },
                                }
                            },
                        },
                    },
                }
            },
        }
    }
}

/// The first `n` of the rule nodes `ids`, translated in order.
pub open spec fn rules_of(ts: Seq<Triple>, ids: Seq<Seq<char>>, fuel: nat, n: int) -> Result<(Seq<RuleV>, Seq<RuleIdsV>), Seq<char>>
    decreases fuel, if n < 0 { 0 } else { n as nat },
{
    if n <= 0 || n > ids.len() {
        Ok((Seq::empty(), Seq::empty()))
    } else {
        match rules_of(ts, ids, fuel, n - 1) {
            Err(e) => Err(e),
            Ok((rs, is)) => match translate_rule_of(ts, ids[n - 1], fuel) {
                Err(e) => Err(e),
                Ok((r, i)) => Ok((rs.push(r), is.push(i))),
            },
        }
    }
}

pub proof fn lemma_rules_err_persists(ts: Seq<Triple>, ids: Seq<Seq<char>>, fuel: nat, k: int, m: int)
    requires
        1 <= k <= m <= ids.len(),
        rules_of(ts, ids, fuel, k) is Err,
    ensures
        rules_of(ts, ids, fuel, m) == rules_of(ts, ids, fuel, k),
    decreases m - k,
{
    if m > k {
        lemma_rules_err_persists(ts, ids, fuel, k, m - 1);
    }
}

/// A rule node's `odrl:action`.
pub fn translate_action(g: &Graph, node: &str, fuel: usize) -> (r: Result<(String, Option<Constraint>), String>)
    ensures
        match action_of(g.triples@, node@, fuel as nat) {
            Ok((a, c)) => r is Ok && r->Ok_0.0@ == a && match c {
                Some(cv) => r->Ok_0.1 is Some && r->Ok_0.1->Some_0@ == cv,
                None => r->Ok_0.1 is None,
            },
            Err(e) => r is Err && r->Err_0@ == e,
        },
{
    let ai = odrl("action");
    let t = match g.object(node, ai.as_str()) {
        Some(t) => t,
        None => return Err(concat2(node, ": no odrl:action")),
    };
    let aid = match term_id(&t) {
        Some(a) => a,
        None => return Err(concat2(node, ": odrl:action must be a resource")),
    };
    match g.object_id(aid.as_str(), RDF_VALUE) {
        Some(vid) => {
            let ri = odrl("refinement");
            match g.object_id(aid.as_str(), ri.as_str()) {
                None => Ok((owned(local_name(vid.as_str())), None)),
                Some(rid) => match translate_constraint(g, rid.as_str(), fuel) {
                    Ok(c) => Ok((owned(local_name(vid.as_str())), Some(c))),
                    Err(e) => Err(e),
                },
            }
        },
        None => Ok((owned(local_name(aid.as_str())), None)),
    }
}

/// The ids of the node-valued `odrl:{local}` objects of `node`.
fn odrl_ids(g: &Graph, node: &str, local: &str) -> (r: Vec<String>)
    ensures
        views(r@) == odrl_ids_of(g.triples@, node@, local@),
{
    let p = odrl(local);
    g.object_ids(node, p.as_str())
}

/// The local name of an optional id.
fn opt_local_name(o: Option<String>) -> (r: Option<String>)
    ensures
        opt_string_view(r) == opt_local(opt_string_view(o)),
{
    match o {
        Some(s) => Some(owned(local_name(s.as_str()))),
        None => None,
    }
}

/// One rule node with its id shadow, nested rules at most `fuel` levels
/// deep.
pub fn translate_rule(g: &Graph, node: &str, fuel: usize) -> (r: Result<(Rule, RuleIds), String>)
    ensures
        match translate_rule_of(g.triples@, node@, fuel as nat) {
            Ok((rv, iv)) => r is Ok && r->Ok_0.0@ == rv && r->Ok_0.1@ == iv,
            Err(e) => r is Err && r->Err_0@ == e,
        },
    decreases fuel, 0nat,
{
    if fuel == 0 {
        return Err(too_deep(node));
    }
    let f = fuel - 1;
    let (action, refinement) = match translate_action(g, node, f) {
        Ok(p) => p,
        Err(e) => return Err(e),
    };
    let ti = odrl("target");
    let target = opt_local_name(g.object_id(node, ti.as_str()));
    let cids = odrl_ids(g, node, "constraint");
    let dids = odrl_ids(g, node, "duty");
    let rids = odrl_ids(g, node, "remedy");
    let constraints = match translate_constraints(g, &cids, f) {
        Ok(cs) => cs,
        Err(e) => return Err(e),
    };
    let (duty, duty_ids) = match translate_rules(g, &dids, f) {
        Ok(p) => p,
        Err(e) => return Err(e),
    };
    let (remedy, remedy_ids) = match translate_rules(g, &rids, f) {
        Ok(p) => p,
        Err(e) => return Err(e),
    };
    let ci = odrl("consequence");
    let (consequence, consequence_ids) = match g.object_id(node, ci.as_str()) {
        None => (None, None),
        Some(c) => match translate_rule(g, c.as_str(), f) {
            Ok((cr, cids2)) => (Some(Box::new(cr)), Some(Box::new(cids2))),
            Err(e) => return Err(e),
        },
    };
    let action_copy = action.clone();
    let action_refinement = match refinement {
        Some(c) => Some(Box::new(c)),
        None => None,
    };
    let rule = Rule { action, target, constraints, action_refinement, duty, remedy, consequence };
    let ids = RuleIds { rule_id: owned(local_name(node)), action: action_copy, duty: duty_ids, remedy: remedy_ids, consequence: consequence_ids };
    proof {
        assert(rule@.duty =~= rviews(rule.duty@));
        assert(rule@.remedy =~= rviews(rule.remedy@));
        assert(ids@.duty =~= rids_view(ids.duty@));
        assert(ids@.remedy =~= rids_view(ids.remedy@));
    }
    Ok((rule, ids))
}

/// The rule nodes `ids`, translated in order.
pub fn translate_rules(g: &Graph, ids: &Vec<String>, fuel: usize) -> (r: Result<(Vec<Rule>, Vec<RuleIds>), String>)
    ensures
        match rules_of(g.triples@, views(ids@), fuel as nat, ids@.len() as int) {
            Ok((rs, is)) => r is Ok && rviews(r->Ok_0.0@) == rs && rids_view(r->Ok_0.1@) == is,
            Err(e) => r is Err && r->Err_0@ == e,
        },
    decreases fuel, 1nat,
{
    let ghost iv = views(ids@);
    let mut rules: Vec<Rule> = Vec::new();
    let mut shadow: Vec<RuleIds> = Vec::new();
    let mut i: usize = 0;
    assert(rviews(rules@) =~= Seq::<RuleV>::empty());
    assert(rids_view(shadow@) =~= Seq::<RuleIdsV>::empty());
    while i < ids.len()
        invariant
            i <= ids@.len(),
            iv == views(ids@),
            rules_of(g.triples@, iv, fuel as nat, i as int) == Ok::<(Seq<RuleV>, Seq<RuleIdsV>), Seq<char>>((rviews(rules@), rids_view(shadow@))),
        decreases ids.len() - i,
    {
        assert(iv[i as int] == ids@[i as int]@);
        match translate_rule(g, ids[i].as_str(), fuel) {
            Ok((rule, rid)) => {
                let ghost r0 = rules@;
                let ghost s0 = shadow@;
                rules.push(rule);
                shadow.push(rid);
                assert(rviews(rules@) =~= rviews(r0).push(rule@));
                assert(rids_view(shadow@) =~= rids_view(s0).push(rid@));
            },
            Err(e) => {
                proof { lemma_rules_err_persists(g.triples@, iv, fuel as nat, i as int + 1, iv.len() as int); }
                return Err(e);
            },
        }
        i = i + 1;
    }
    Ok((rules, shadow))
}


// -- policies --------------------------------------------------------------------

/// The value of a translated wire policy.
pub struct WirePolicyV {
    pub id: Seq<char>,
    pub kind: Seq<char>,
    pub assigner: Seq<char>,
    pub assignee: Option<Seq<char>>,
    pub permissions: Seq<RuleV>,
    pub prohibitions: Seq<RuleV>,
    pub obligations: Seq<RuleV>,
    pub conflict: ConflictStrategy,
    pub inherit_from: Option<Seq<Seq<char>>>,
}

/// The value of a policy's id shadow.
pub struct PolicyIdsV {
    pub id: Seq<char>,
    pub permissions: Seq<RuleIdsV>,
    pub prohibitions: Seq<RuleIdsV>,
    pub obligations: Seq<RuleIdsV>,
    pub inherit_from: Option<Seq<Seq<char>>>,
}

/// `p` is the wire policy whose value is `v`.
pub open spec fn wire_policy_is(p: WirePolicy, v: WirePolicyV) -> bool {
    &&& p.id@ == v.id
    &&& p.kind@ == v.kind
    &&& p.assigner@ == v.assigner
    &&& opt_string_view(p.assignee) == v.assignee
    &&& rviews(p.permissions@) == v.permissions
    &&& rviews(p.prohibitions@) == v.prohibitions
    &&& rviews(p.obligations@) == v.obligations
    &&& p.conflict == v.conflict
    &&& opt_views(p.inherit_from) == v.inherit_from
}

/// `p` is the id shadow whose value is `v`.
pub open spec fn policy_ids_is(p: PolicyIds, v: PolicyIdsV) -> bool {
    &&& p.id@ == v.id
    &&& rids_view(p.permissions@) == v.permissions
    &&& rids_view(p.prohibitions@) == v.prohibitions
    &&& rids_view(p.obligations@) == v.obligations
    &&& opt_views(p.inherit_from) == v.inherit_from
}

/// A policy node's kind: the first native ODRL policy class among `Set`,
/// `Offer`, `Agreement`, `Privacy`, `Request`, `Ticket`, `Assertion` it is
/// typed as, else its `dsc:policyKind` literal, else `Set`.
pub open spec fn policy_kind_of(ts: Seq<Triple>, node: Seq<char>) -> Seq<char> {
    if has_type_of(ts, node, odrl_iri("Set"@)) {
        "Set"@
    } else if has_type_of(ts, node, odrl_iri("Offer"@)) {
        "Offer"@
    } else if has_type_of(ts, node, odrl_iri("Agreement"@)) {
        "Agreement"@
    } else if has_type_of(ts, node, odrl_iri("Privacy"@)) {
        "Privacy"@
    } else if has_type_of(ts, node, odrl_iri("Request"@)) {
        "Request"@
    } else if has_type_of(ts, node, odrl_iri("Ticket"@)) {
        "Ticket"@
    } else if has_type_of(ts, node, odrl_iri("Assertion"@)) {
        "Assertion"@
    } else {
        match first_literal(objects_of(ts, node, dsc_iri("policyKind"@))) {
            Some(k) => k,
            None => "Set"@,
        }
    }
}

/// The conflict strategy an ODRL local name selects.
pub open spec fn conflict_local_of(s: Seq<char>) -> Option<ConflictStrategy> {
    if s == "perm"@ {
        Some(ConflictStrategy::Perm)
    } else if s == "prohibit"@ {
        Some(ConflictStrategy::Prohibit)
    } else if s == "invalid"@ {
        Some(ConflictStrategy::Invalid)
    } else {
        None
    }
}

/// A local name selects a conflict strategy exactly when it is that
/// strategy's wire name.
pub proof fn a_conflict_local_name_selects_the_strategy_so_named(s: Seq<char>, c: ConflictStrategy)
    ensures
        conflict_local_of(conflict_wire_name(c)) == Some(c),
        conflict_local_of(s) == Some(c) <==> s == conflict_wire_name(c),
{
    lemma_config_wire_name_lengths();
}

/// A policy node's `odrl:conflict`, `invalid` when it states none.
pub open spec fn conflict_of(ts: Seq<Triple>, node: Seq<char>) -> Result<ConflictStrategy, Seq<char>> {
    match object_id_of(ts, node, odrl_iri("conflict"@)) {
        None => Ok(ConflictStrategy::Invalid),
        Some(c) => match conflict_local_of(local_name_of(c)) {
            Some(k) => Ok(k),
            None => Err(unrecognized_of(local_name_of(c))),
        },
    }
}

/// A policy node's `dsc:inheritsFrom` parents, by local name; `None` when
/// the list is empty or absent.
pub open spec fn parents_of(ts: Seq<Triple>, node: Seq<char>) -> Option<Seq<Seq<char>>> {
    let ids = ids_of(list_of(ts, node, dsc_iri("inheritsFrom"@)));
    if ids.len() == 0 {
        None
    } else {
        Some(ids.map_values(|p: Seq<char>| local_name_of(p)))
    }
}

/// One policy node with its id shadow.
pub open spec fn translate_policy_of(ts: Seq<Triple>, node: Seq<char>, fuel: nat) -> Result<(WirePolicyV, PolicyIdsV), Seq<char>> {
    let pids = odrl_ids_of(ts, node, "permission"@);
    let qids = odrl_ids_of(ts, node, "prohibition"@);
    let oids = odrl_ids_of(ts, node, "obligation"@);
    match rules_of(ts, pids, fuel, pids.len() as int) {
        Err(e) => Err(e),
        Ok((ps, pis)) => match rules_of(ts, qids, fuel, qids.len() as int) {
            Err(e) => Err(e),
            Ok((qs, qis)) => match rules_of(ts, oids, fuel, oids.len() as int) {
                Err(e) => Err(e),
                Ok((os, ois)) => match conflict_of(ts, node) {
                    Err(e) => Err(e),
                    Ok(conflict) => Ok((
                        WirePolicyV {
                            id: local_name_of(node),
                            kind: policy_kind_of(ts, node),
                            assigner: match object_id_of(ts, node, odrl_iri("assigner"@)) {
                                Some(a) => local_name_of(a),
                                None => Seq::empty(),
                            },
                            assignee: opt_local(object_id_of(ts, node, odrl_iri("assignee"@))),
                            permissions: ps,
                            prohibitions: qs,
                            obligations: os,
                            conflict,
                            inherit_from: parents_of(ts, node),
                        },
                        PolicyIdsV {
                            id: local_name_of(node),
                            permissions: pis,
                            prohibitions: qis,
                            obligations: ois,
                            inherit_from: parents_of(ts, node),
                        },
                    )),
                },
            },
        },
    }
}

/// The first `n` of the policy nodes `ids`, translated in order.
pub open spec fn policies_of(ts: Seq<Triple>, ids: Seq<Seq<char>>, fuel: nat, n: int) -> Result<(Seq<WirePolicyV>, Seq<PolicyIdsV>), Seq<char>>
    decreases if n < 0 { 0 } else { n as nat },
{
    if n <= 0 || n > ids.len() {
        Ok((Seq::empty(), Seq::empty()))
    } else {
        match policies_of(ts, ids, fuel, n - 1) {
            Err(e) => Err(e),
            Ok((ps, is)) => match translate_policy_of(ts, ids[n - 1], fuel) {
                Err(e) => Err(e),
                Ok((p, i)) => Ok((ps.push(p), is.push(i))),
            },
        }
    }
}

pub proof fn lemma_policies_err_persists(ts: Seq<Triple>, ids: Seq<Seq<char>>, fuel: nat, k: int, m: int)
    requires
        1 <= k <= m <= ids.len(),
        policies_of(ts, ids, fuel, k) is Err,
    ensures
        policies_of(ts, ids, fuel, m) == policies_of(ts, ids, fuel, k),
    decreases m - k,
{
    if m > k {
        lemma_policies_err_persists(ts, ids, fuel, k, m - 1);
    }
}

fn policy_kind(g: &Graph, node: &str) -> (r: String)
    ensures
        r@ == policy_kind_of(g.triples@, node@),
{
    let t0 = odrl("Set");
    if g.has_type(node, t0.as_str()) {
        return owned("Set");
    }
    let t1 = odrl("Offer");
    if g.has_type(node, t1.as_str()) {
        return owned("Offer");
    }
    let t2 = odrl("Agreement");
    if g.has_type(node, t2.as_str()) {
        return owned("Agreement");
    }
    let t3 = odrl("Privacy");
    if g.has_type(node, t3.as_str()) {
        return owned("Privacy");
    }
    let t4 = odrl("Request");
    if g.has_type(node, t4.as_str()) {
        return owned("Request");
    }
    let t5 = odrl("Ticket");
    if g.has_type(node, t5.as_str()) {
        return owned("Ticket");
    }
    let t6 = odrl("Assertion");
    if g.has_type(node, t6.as_str()) {
        return owned("Assertion");
    }
    let pk = dsc("policyKind");
    match g.literal(node, pk.as_str()) {
        Some(k) => k,
        None => owned("Set"),
    }
}

fn conflict_strategy(g: &Graph, node: &str) -> (r: Result<ConflictStrategy, String>)
    ensures
        match conflict_of(g.triples@, node@) {
            Ok(k) => r == Ok::<ConflictStrategy, String>(k),
            Err(e) => r is Err && r->Err_0@ == e,
        },
{
    let ci = odrl("conflict");
    match g.object_id(node, ci.as_str()) {
        None => Ok(ConflictStrategy::Invalid),
        Some(c) => {
            let local = local_name(c.as_str());
            if str_eq(local, "perm") {
                Ok(ConflictStrategy::Perm)
            } else if str_eq(local, "prohibit") {
                Ok(ConflictStrategy::Prohibit)
            } else if str_eq(local, "invalid") {
                Ok(ConflictStrategy::Invalid)
            } else {
                Err(unrecognized(local))
            }
        },
    }
}

/// The local names of `ids`, in order.
fn local_names(ids: &Vec<String>) -> (r: Vec<String>)
    ensures
        views(r@) == views(ids@).map_values(|p: Seq<char>| local_name_of(p)),
{
    let mut r: Vec<String> = Vec::new();
    let mut i: usize = 0;
    while i < ids.len()
        invariant
            i <= ids@.len(),
            r@.len() == i,
            forall|j: int| 0 <= j < i ==> (#[trigger] r@[j])@ == local_name_of(ids@[j]@),
        decreases ids.len() - i,
    {
        r.push(owned(local_name(ids[i].as_str())));
        i = i + 1;
    }
    assert(views(r@) =~= views(ids@).map_values(|p: Seq<char>| local_name_of(p)));
    r
}

fn parents(g: &Graph, node: &str) -> (r: Option<Vec<String>>)
    ensures
        opt_views(r) == parents_of(g.triples@, node@),
{
    let inh = dsc("inheritsFrom");
    let ids = g.rdf_list_ids(node, inh.as_str());
    if ids.len() == 0 {
        None
    } else {
        Some(local_names(&ids))
    }
}

/// One policy node with its id shadow, nested rules at most `fuel` levels
/// deep.
pub fn translate_policy(g: &Graph, node: &str, fuel: usize) -> (r: Result<(WirePolicy, PolicyIds), String>)
    ensures
        match translate_policy_of(g.triples@, node@, fuel as nat) {
            Ok((pv, iv)) => r is Ok && wire_policy_is(r->Ok_0.0, pv) && policy_ids_is(r->Ok_0.1, iv),
            Err(e) => r is Err && r->Err_0@ == e,
        },
{
    let pids = odrl_ids(g, node, "permission");
    let qids = odrl_ids(g, node, "prohibition");
    let oids = odrl_ids(g, node, "obligation");
    let (permissions, permission_ids) = match translate_rules(g, &pids, fuel) {
        Ok(p) => p,
        Err(e) => return Err(e),
    };
    let (prohibitions, prohibition_ids) = match translate_rules(g, &qids, fuel) {
        Ok(p) => p,
        Err(e) => return Err(e),
    };
    let (obligations, obligation_ids) = match translate_rules(g, &oids, fuel) {
        Ok(p) => p,
        Err(e) => return Err(e),
    };
    let conflict = match conflict_strategy(g, node) {
        Ok(c) => c,
        Err(e) => return Err(e),
    };
    let asi = odrl("assigner");
    let assigner = match g.object_id(node, asi.as_str()) {
        Some(a) => owned(local_name(a.as_str())),
        None => String::new(),
    };
    let aei = odrl("assignee");
    let assignee = opt_local_name(g.object_id(node, aei.as_str()));
    let inherit_from = parents(g, node);
    let inherit_copy = parents(g, node);
    let policy = WirePolicy {
        id: owned(local_name(node)),
        kind: policy_kind(g, node),
        assigner,
        assignee,
        permissions,
        prohibitions,
        obligations,
        conflict,
        inherit_from,
    };
    let ids = PolicyIds {
        id: owned(local_name(node)),
        permissions: permission_ids,
        prohibitions: prohibition_ids,
        obligations: obligation_ids,
        inherit_from: inherit_copy,
    };
    Ok((policy, ids))
}

/// The policy nodes `ids`, translated in order.
pub fn translate_policies(g: &Graph, ids: &Vec<String>, fuel: usize) -> (r: Result<(Vec<WirePolicy>, Vec<PolicyIds>), String>)
    ensures
        match policies_of(g.triples@, views(ids@), fuel as nat, ids@.len() as int) {
            Ok((ps, is)) => r is Ok && r->Ok_0.0@.len() == ps.len() && r->Ok_0.1@.len() == is.len()
                && (forall|k: int| 0 <= k < ps.len() ==> #[trigger] wire_policy_is(r->Ok_0.0@[k], ps[k]))
                && (forall|k: int| 0 <= k < is.len() ==> #[trigger] policy_ids_is(r->Ok_0.1@[k], is[k])),
            Err(e) => r is Err && r->Err_0@ == e,
        },
{
    let ghost iv = views(ids@);
    let mut ps: Vec<WirePolicy> = Vec::new();
    let mut is: Vec<PolicyIds> = Vec::new();
    let mut i: usize = 0;
    while i < ids.len()
        invariant
            i <= ids@.len(),
            iv == views(ids@),
            policies_of(g.triples@, iv, fuel as nat, i as int) is Ok,
            ps@.len() == i,
            is@.len() == i,
            policies_of(g.triples@, iv, fuel as nat, i as int)->Ok_0.0.len() == i,
            policies_of(g.triples@, iv, fuel as nat, i as int)->Ok_0.1.len() == i,
            forall|k: int| 0 <= k < i ==> #[trigger] wire_policy_is(ps@[k], policies_of(g.triples@, iv, fuel as nat, i as int)->Ok_0.0[k]),
            forall|k: int| 0 <= k < i ==> #[trigger] policy_ids_is(is@[k], policies_of(g.triples@, iv, fuel as nat, i as int)->Ok_0.1[k]),
        decreases ids.len() - i,
    {
        assert(iv[i as int] == ids@[i as int]@);
        match translate_policy(g, ids[i].as_str(), fuel) {
            Ok((p, pi)) => {
                ps.push(p);
                is.push(pi);
                proof {
                    let prev = policies_of(g.triples@, iv, fuel as nat, i as int)->Ok_0;
                    let now = policies_of(g.triples@, iv, fuel as nat, i as int + 1)->Ok_0;
                    assert(now.0 == prev.0.push(translate_policy_of(g.triples@, iv[i as int], fuel as nat)->Ok_0.0));
                    assert forall|k: int| 0 <= k < i + 1 implies #[trigger] wire_policy_is(ps@[k], now.0[k]) by {
                        if k < i {
                            assert(now.0[k] == prev.0[k]);
                        }
                    }
                    assert forall|k: int| 0 <= k < i + 1 implies #[trigger] policy_ids_is(is@[k], now.1[k]) by {
                        if k < i {
                            assert(now.1[k] == prev.1[k]);
                        }
                    }
                }
            },
            Err(e) => {
                proof { lemma_policies_err_persists(g.triples@, iv, fuel as nat, i as int + 1, iv.len() as int); }
                return Err(e);
            },
        }
        i = i + 1;
    }
    Ok((ps, is))
}


// -- configuration, claims and the request ----------------------------------------

/// The value of a translated configuration; its `type_` is always
/// `odrl:Profile`.
pub struct ConfigV {
    pub id: Seq<char>,
    pub actions: Seq<(Seq<char>, Option<Seq<char>>)>,
    pub duty_mode: DutyMode,
    pub behaviour: Behaviour,
    pub party_identity_claim: Option<Seq<char>>,
    pub agreement_assignee_claim: Option<Seq<char>>,
}

/// The value of a claim.
pub enum ClaimV {
    Single(Seq<char>),
    Multi(Seq<Seq<char>>),
}

/// The value of a translated request.
pub struct RequestV {
    pub dataset_id: Seq<char>,
    pub action: Seq<char>,
    pub config: ConfigV,
    pub policies: Seq<WirePolicyV>,
    pub claims: Seq<(Seq<char>, ClaimV)>,
    pub asset_collections: Seq<Seq<char>>,
}

/// `a` is the declared action whose value is `v`.
pub open spec fn action_decl_is(a: WireActionDecl, v: (Seq<char>, Option<Seq<char>>)) -> bool {
    a.id@ == v.0 && match a.included_in {
        Some(n) => v.1 == Some(n.id@),
        None => v.1 is None,
    }
}

/// `c` is the configuration whose value is `v`.
pub open spec fn config_is(c: RequestConfig, v: ConfigV) -> bool {
    &&& c.type_@ == "odrl:Profile"@
    &&& c.id@ == v.id
    &&& c.actions@.len() == v.actions.len()
    &&& forall|i: int| 0 <= i < v.actions.len() ==> #[trigger] action_decl_is(c.actions@[i], v.actions[i])
    &&& c.duty_mode == v.duty_mode
    &&& c.behaviour == v.behaviour
    &&& opt_string_view(c.party_identity_claim) == v.party_identity_claim
    &&& opt_string_view(c.agreement_assignee_claim) == v.agreement_assignee_claim
}

/// `c` is the claim whose value is `v`.
pub open spec fn claim_is(c: ClaimValue, v: ClaimV) -> bool {
    match (c, v) {
        (ClaimValue::Single(s), ClaimV::Single(t)) => s@ == t,
        (ClaimValue::Multi(ss), ClaimV::Multi(ts)) => views(ss@) == ts,
        _ => false,
    }
}

/// `c` holds exactly the claim entries `v`, in order.
pub open spec fn claims_are(c: Claims, v: Seq<(Seq<char>, ClaimV)>) -> bool {
    &&& c.entries@.len() == v.len()
    &&& forall|i: int| 0 <= i < v.len() ==> (#[trigger] c.entries@[i]).0@ == v[i].0 && claim_is(c.entries@[i].1, v[i].1)
}

/// `r` is the request whose value is `v`.
pub open spec fn request_is(r: Request, v: RequestV) -> bool {
    &&& r.dataset_id@ == v.dataset_id
    &&& r.action@ == v.action
    &&& config_is(r.config, v.config)
    &&& r.policies@.len() == v.policies.len()
    &&& forall|i: int| 0 <= i < v.policies.len() ==> #[trigger] wire_policy_is(r.policies@[i], v.policies[i])
    &&& claims_are(r.claims, v.claims)
    &&& views(r.asset_collections@) == v.asset_collections
}

/// The duty mode a lower-cased local name selects.
pub open spec fn duty_mode_named(s: Seq<char>) -> Option<DutyMode> {
    if s == "advise"@ {
        Some(DutyMode::Advise)
    } else if s == "deny"@ {
        Some(DutyMode::Deny)
    } else {
        None
    }
}

/// The behaviour a lower-cased local name selects; `default` is `closed`.
pub open spec fn behaviour_named(s: Seq<char>) -> Option<Behaviour> {
    if s == "open"@ {
        Some(Behaviour::Open)
    } else if s == "closed"@ || s == "default"@ {
        Some(Behaviour::Closed)
    } else {
        None
    }
}

/// A lower-cased local name selects a duty mode exactly when it is that
/// mode's wire name, and a behaviour exactly when it is that behaviour's
/// wire name or, for `closed`, the word `default`.
pub proof fn a_config_local_name_selects_the_setting_so_named(s: Seq<char>, d: DutyMode, b: Behaviour)
    ensures
        duty_mode_named(duty_mode_wire_name(d)) == Some(d),
        duty_mode_named(s) == Some(d) <==> s == duty_mode_wire_name(d),
        behaviour_named(behaviour_wire_name(b)) == Some(b),
        behaviour_named(s) == Some(b) <==> (s == behaviour_wire_name(b) || (s == "default"@ && b == Behaviour::Closed)),
{
    lemma_config_wire_name_lengths();
}

/// The inline profile's configuration: its declared actions (each with
/// the `odrl:includedIn` the graph states for it), `dsc:dutyMode`
/// (default `advise`), `dsc:behaviour` (default `open`) and the two claim
/// names it may set.
pub open spec fn translate_config_of(ts: Seq<Triple>, profile: Seq<char>) -> Result<ConfigV, Seq<char>> {
    let duty = match object_id_of(ts, profile, dsc_iri("dutyMode"@)) {
        None => Ok(DutyMode::Advise),
        Some(m) => match duty_mode_named(lowercase(local_name_of(m))) {
            Some(d) => Ok(d),
            None => Err(unrecognized_of(lowercase(local_name_of(m)))),
        },
    };
    let beh = match object_id_of(ts, profile, dsc_iri("behaviour"@)) {
        None => Ok(Behaviour::Open),
        Some(b) => match behaviour_named(lowercase(local_name_of(b))) {
            Some(x) => Ok(x),
            None => Err(unrecognized_of(lowercase(local_name_of(b)))),
        },
    };
    match duty {
        Err(e) => Err(e),
        Ok(d) => match beh {
            Err(e) => Err(e),
            Ok(b) => Ok(ConfigV {
                id: "#"@ + local_name_of(profile),
                actions: odrl_ids_of(ts, profile, "action"@).map_values(|a: Seq<char>|
                    (local_name_of(a), opt_local(object_id_of(ts, a, odrl_iri("includedIn"@))))),
                duty_mode: d,
                behaviour: b,
                party_identity_claim: first_literal(objects_of(ts, profile, dsc_iri("partyIdentityClaim"@))),
                agreement_assignee_claim: first_literal(objects_of(ts, profile, dsc_iri("agreementAssigneeClaim"@))),
            }),
        },
    }
}

/// The position of the entry keyed `k`, or `-1`.
pub open spec fn claim_pos(es: Seq<(Seq<char>, ClaimV)>, k: Seq<char>) -> int
    decreases es.len(),
{
    if es.len() == 0 {
        -1
    } else if claim_pos(es.drop_last(), k) >= 0 {
        claim_pos(es.drop_last(), k)
    } else if es.last().0 == k {
        es.len() - 1
    } else {
        -1
    }
}

/// `es` with `k` mapped to `v`: the entry replaced in place, or added.
pub open spec fn claim_put(es: Seq<(Seq<char>, ClaimV)>, k: Seq<char>, v: ClaimV) -> Seq<(Seq<char>, ClaimV)> {
    let i = claim_pos(es, k);
    if i < 0 {
        es.push((k, v))
    } else {
        es.update(i, (k, v))
    }
}

/// The claims the first `n` claim assertions `ids` make, a later one for
/// the same key replacing an earlier one.
pub open spec fn claims_of(ts: Seq<Triple>, ids: Seq<Seq<char>>, n: int) -> Result<Seq<(Seq<char>, ClaimV)>, Seq<char>>
    decreases if n < 0 { 0 } else { n as nat },
{
    if n <= 0 || n > ids.len() {
        Ok(Seq::empty())
    } else {
        match claims_of(ts, ids, n - 1) {
            Err(e) => Err(e),
            Ok(es) => {
                let id = ids[n - 1];
                match first_literal(objects_of(ts, id, dsc_iri("key"@))) {
                    None => Err(id + ": dsc:ClaimAssertion has no dsc:key"@),
                    Some(k) => {
                        let vals = term_strings_of(objects_of(ts, id, RDF_VALUE@));
                        if vals.len() == 0 {
                            Err(id + ": dsc:ClaimAssertion has no rdf:value"@)
                        } else {
                            Ok(claim_put(es, k, if vals.len() == 1 { ClaimV::Single(vals[0]) } else { ClaimV::Multi(vals) }))
                        }
                    },
                }
            },
        }
    }
}

pub proof fn lemma_claims_err_persists(ts: Seq<Triple>, ids: Seq<Seq<char>>, k: int, m: int)
    requires
        1 <= k <= m <= ids.len(),
        claims_of(ts, ids, k) is Err,
    ensures
        claims_of(ts, ids, m) == claims_of(ts, ids, k),
    decreases m - k,
{
    if m > k {
        lemma_claims_err_persists(ts, ids, k, m - 1);
    }
}

/// The error for a profile that is not inline.
pub open spec fn not_inline_profile_of(req: Seq<char>, profile: Seq<char>) -> Seq<char> {
    req + ": dsc:profile "@ + profile
        + " is not an inline odrl:Profile in this file -- profiles given by reference are not supported by this runner"@
}

/// One `dsc:Request` node: target, action, inline profile, policies (each
/// with its id shadow, nested rules followed at most as deep as the graph
/// has triples), claims, and the asset collections the target is part of.
pub open spec fn translate_request_of(ts: Seq<Triple>, req: Seq<char>) -> Result<(RequestV, Seq<PolicyIdsV>), Seq<char>> {
    match object_id_of(ts, req, odrl_iri("target"@)) {
        None => Err(req + ": no odrl:target"@),
        Some(target) => match object_id_of(ts, req, odrl_iri("action"@)) {
            None => Err(req + ": no odrl:action"@),
            Some(aid) => match object_id_of(ts, req, dsc_iri("profile"@)) {
                None => Err(req + ": no dsc:profile"@),
                Some(pid) => if !has_type_of(ts, pid, odrl_iri("Profile"@)) {
                    Err(not_inline_profile_of(req, pid))
                } else {
                    match translate_config_of(ts, pid) {
                        Err(e) => Err(e),
                        Ok(cfg) => {
                            let pols = ids_of(objects_of(ts, req, dsc_iri("policy"@)));
                            let cids = ids_of(objects_of(ts, req, dsc_iri("claim"@)));
                            match policies_of(ts, pols, ts.len(), pols.len() as int) {
                                Err(e) => Err(e),
                                Ok((ps, pis)) => match claims_of(ts, cids, cids.len() as int) {
                                    Err(e) => Err(e),
                                    Ok(cl) => Ok((
                                        RequestV {
                                            dataset_id: local_name_of(target),
                                            action: local_name_of(aid),
                                            config: cfg,
                                            policies: ps,
                                            claims: cl,
                                            asset_collections: odrl_ids_of(ts, target, "partOf"@).map_values(|c: Seq<char>| local_name_of(c)),
                                        },
                                        pis,
                                    )),
                                },
                            }
                        },
                    }
                },
            },
        },
    }
}

fn duty_mode(g: &Graph, profile: &str) -> (r: Result<DutyMode, String>)
    ensures
        match object_id_of(g.triples@, profile@, dsc_iri("dutyMode"@)) {
            None => r == Ok::<DutyMode, String>(DutyMode::Advise),
            Some(m) => match duty_mode_named(lowercase(local_name_of(m))) {
                Some(d) => r == Ok::<DutyMode, String>(d),
                None => r is Err && r->Err_0@ == unrecognized_of(lowercase(local_name_of(m))),
            },
        },
{
    let p = dsc("dutyMode");
    match g.object_id(profile, p.as_str()) {
        None => Ok(DutyMode::Advise),
        Some(m) => {
            let l = to_lowercase(local_name(m.as_str()));
            if str_eq(l.as_str(), "advise") {
                Ok(DutyMode::Advise)
            } else if str_eq(l.as_str(), "deny") {
                Ok(DutyMode::Deny)
            } else {
                Err(unrecognized(l.as_str()))
            }
        },
    }
}

fn behaviour(g: &Graph, profile: &str) -> (r: Result<Behaviour, String>)
    ensures
        match object_id_of(g.triples@, profile@, dsc_iri("behaviour"@)) {
            None => r == Ok::<Behaviour, String>(Behaviour::Open),
            Some(b) => match behaviour_named(lowercase(local_name_of(b))) {
                Some(x) => r == Ok::<Behaviour, String>(x),
                None => r is Err && r->Err_0@ == unrecognized_of(lowercase(local_name_of(b))),
            },
        },
{
    let p = dsc("behaviour");
    match g.object_id(profile, p.as_str()) {
        None => Ok(Behaviour::Open),
        Some(b) => {
            let l = to_lowercase(local_name(b.as_str()));
            if str_eq(l.as_str(), "open") {
                Ok(Behaviour::Open)
            } else if str_eq(l.as_str(), "closed") || str_eq(l.as_str(), "default") {
                Ok(Behaviour::Closed)
            } else {
                Err(unrecognized(l.as_str()))
            }
        },
    }
}

/// The inline profile's configuration.
pub fn translate_config(g: &Graph, profile: &str) -> (r: Result<RequestConfig, String>)
    ensures
        match translate_config_of(g.triples@, profile@) {
            Ok(v) => r is Ok && config_is(r->Ok_0, v),
            Err(e) => r is Err && r->Err_0@ == e,
        },
{
    let aids = odrl_ids(g, profile, "action");
    let ghost av = views(aids@);
    let inc = odrl("includedIn");
    let mut actions: Vec<WireActionDecl> = Vec::new();
    let mut i: usize = 0;
    while i < aids.len()
        invariant
            i <= aids@.len(),
            av == views(aids@),
            inc@ == odrl_iri("includedIn"@),
            actions@.len() == i,
            forall|j: int| 0 <= j < i ==> #[trigger] action_decl_is(actions@[j],
                (local_name_of(av[j]), opt_local(object_id_of(g.triples@, av[j], odrl_iri("includedIn"@))))),
        decreases aids.len() - i,
    {
        let a = aids[i].as_str();
        let included_in = match g.object_id(a, inc.as_str()) {
            Some(p) => Some(WireNodeRef { id: owned(local_name(p.as_str())) }),
            None => None,
        };
        actions.push(WireActionDecl { id: owned(local_name(a)), included_in });
        i = i + 1;
    }
    let duty_mode = match duty_mode(g, profile) {
        Ok(d) => d,
        Err(e) => return Err(e),
    };
    let behaviour = match behaviour(g, profile) {
        Ok(b) => b,
        Err(e) => return Err(e),
    };
    let pic = dsc("partyIdentityClaim");
    let aac = dsc("agreementAssigneeClaim");
    let c = RequestConfig {
        type_: owned("odrl:Profile"),
        id: concat2("#", local_name(profile)),
        actions,
        duty_mode,
        behaviour,
        party_identity_claim: g.literal(profile, pic.as_str()),
        agreement_assignee_claim: g.literal(profile, aac.as_str()),
    };
    proof {
        let v = translate_config_of(g.triples@, profile@)->Ok_0;
        assert forall|j: int| 0 <= j < v.actions.len() implies #[trigger] action_decl_is(c.actions@[j], v.actions[j]) by {
            assert(v.actions[j] == (local_name_of(av[j]), opt_local(object_id_of(g.triples@, av[j], odrl_iri("includedIn"@)))));
        }
    }
    Ok(c)
}

/// The position of the entry keyed `k` in `entries`, if any.
pub(crate) fn claim_index(entries: &Vec<(String, ClaimValue)>, k: &str) -> (r: Option<usize>)
    ensures
        match r {
            Some(i) => i < entries@.len() && entries@[i as int].0@ == k@
                && forall|j: int| 0 <= j < i ==> (#[trigger] entries@[j]).0@ != k@,
            None => forall|j: int| 0 <= j < entries@.len() ==> (#[trigger] entries@[j]).0@ != k@,
        },
{
    let mut i: usize = 0;
    while i < entries.len()
        invariant
            i <= entries@.len(),
            forall|j: int| 0 <= j < i ==> (#[trigger] entries@[j]).0@ != k@,
        decreases entries.len() - i,
    {
        if str_eq(entries[i].0.as_str(), k) {
            return Some(i);
        }
        i = i + 1;
    }
    None
}

/// `claim_pos` finds the first entry keyed `k`.
pub proof fn lemma_claim_pos(es: Seq<(Seq<char>, ClaimV)>, k: Seq<char>)
    ensures
        -1 <= claim_pos(es, k) < es.len(),
        claim_pos(es, k) >= 0 ==> es[claim_pos(es, k)].0 == k
            && forall|j: int| 0 <= j < claim_pos(es, k) ==> (#[trigger] es[j]).0 != k,
        claim_pos(es, k) < 0 ==> forall|j: int| 0 <= j < es.len() ==> (#[trigger] es[j]).0 != k,
    decreases es.len(),
{
    if es.len() > 0 {
        lemma_claim_pos(es.drop_last(), k);
        assert forall|j: int| 0 <= j < es.len() - 1 implies (#[trigger] es[j]).0 == es.drop_last()[j].0 by {}
    }
}

/// The claims the request's claim assertions make.
pub fn translate_claims(g: &Graph, request_node: &str) -> (r: Result<Claims, String>)
    ensures
        match claims_of(g.triples@, ids_of(objects_of(g.triples@, request_node@, dsc_iri("claim"@))),
            ids_of(objects_of(g.triples@, request_node@, dsc_iri("claim"@))).len() as int) {
            Ok(v) => r is Ok && claims_are(r->Ok_0, v),
            Err(e) => r is Err && r->Err_0@ == e,
        },
{
    let ci = dsc("claim");
    let ids = g.object_ids(request_node, ci.as_str());
    let ghost iv = views(ids@);
    let ki = dsc("key");
    let mut entries: Vec<(String, ClaimValue)> = Vec::new();
    let mut i: usize = 0;
    while i < ids.len()
        invariant
            i <= ids@.len(),
            iv == views(ids@),
            iv == ids_of(objects_of(g.triples@, request_node@, dsc_iri("claim"@))),
            ki@ == dsc_iri("key"@),
            claims_of(g.triples@, iv, i as int) is Ok,
            claims_are(Claims { entries }, claims_of(g.triples@, iv, i as int)->Ok_0),
        decreases ids.len() - i,
    {
        let id = ids[i].as_str();
        assert(iv[i as int] == id@);
        let ghost es = claims_of(g.triples@, iv, i as int)->Ok_0;
        let key = match g.literal(id, ki.as_str()) {
            Some(k) => k,
            None => {
                let e = concat2(id, ": dsc:ClaimAssertion has no dsc:key");
                proof {
                    assert(claims_of(g.triples@, iv, i as int + 1) == Err::<Seq<(Seq<char>, ClaimV)>, Seq<char>>(e@));
                    lemma_claims_err_persists(g.triples@, iv, i as int + 1, iv.len() as int);
                }
                return Err(e);
            },
        };
        let objs = g.objects(id, RDF_VALUE);
        let vals = term_strings(&objs);
        if vals.len() == 0 {
            let e = concat2(id, ": dsc:ClaimAssertion has no rdf:value");
            proof {
                assert(term_strings_of(objs@).len() == vals@.len());
                assert(claims_of(g.triples@, iv, i as int + 1) == Err::<Seq<(Seq<char>, ClaimV)>, Seq<char>>(e@));
                lemma_claims_err_persists(g.triples@, iv, i as int + 1, iv.len() as int);
            }
            return Err(e);
        }
        let ghost vv = term_strings_of(objs@);
        assert(views(vals@) =~= vv);
        let value = if vals.len() == 1 {
            ClaimValue::Single(vals[0].clone())
        } else {
            ClaimValue::Multi(vals)
        };
        let ghost cv = if vv.len() == 1 { ClaimV::Single(vv[0]) } else { ClaimV::Multi(vv) };
        assert(claim_is(value, cv));
        proof { lemma_claim_pos(es, key@); }
        match claim_index(&entries, key.as_str()) {
            Some(j) => {
                proof {
                    let p = claim_pos(es, key@);
                    assert(entries@[j as int].0@ == es[j as int].0);
                    if 0 <= p < j as int {
                        assert(entries@[p].0@ == es[p].0);
                    }
                }
                assert(claim_pos(es, key@) == j as int);
                let ghost before = entries@;
                entries.set(j, (key, value));
                proof {
                    let now = claim_put(es, key@, cv);
                    assert forall|x: int| 0 <= x < now.len() implies (#[trigger] entries@[x]).0@ == now[x].0 && claim_is(entries@[x].1, now[x].1) by {
                        if x != j as int {
                            assert(entries@[x] == before[x]);
                        }
                    }
                }
            },
            None => {
                proof {
                    let p = claim_pos(es, key@);
                    if p >= 0 {
                        assert(entries@[p].0@ == es[p].0);
                    }
                }
                assert(claim_pos(es, key@) < 0);
                entries.push((key, value));
                proof {
                    let now = claim_put(es, key@, cv);
                    assert forall|x: int| 0 <= x < now.len() implies (#[trigger] entries@[x]).0@ == now[x].0 && claim_is(entries@[x].1, now[x].1) by {
                        if x < es.len() {
                            assert(now[x] == es[x]);
                        }
                    }
                }
            },
        }
        i = i + 1;
    }
    Ok(Claims { entries })
}

/// Translates one `dsc:Request` node into the engine's wire `Request`,
/// with the id shadow of each translated policy.
pub fn translate_request(g: &Graph, request_node: &str) -> (r: Result<(Request, Vec<PolicyIds>), String>)
    ensures
        match translate_request_of(g.triples@, request_node@) {
            Ok((v, pis)) => r is Ok && request_is(r->Ok_0.0, v) && r->Ok_0.1@.len() == pis.len()
                && forall|k: int| 0 <= k < pis.len() ==> #[trigger] policy_ids_is(r->Ok_0.1@[k], pis[k]),
            Err(e) => r is Err && r->Err_0@ == e,
        },
{
    let ti = odrl("target");
    let target = match g.object_id(request_node, ti.as_str()) {
        Some(t) => t,
        None => return Err(concat2(request_node, ": no odrl:target")),
    };
    let ai = odrl("action");
    let aid = match g.object_id(request_node, ai.as_str()) {
        Some(a) => a,
        None => return Err(concat2(request_node, ": no odrl:action")),
    };
    let pi = dsc("profile");
    let pid = match g.object_id(request_node, pi.as_str()) {
        Some(p) => p,
        None => return Err(concat2(request_node, ": no dsc:profile")),
    };
    let prof = odrl("Profile");
    if !g.has_type(pid.as_str(), prof.as_str()) {
        let head = concat3(request_node, ": dsc:profile ", pid.as_str());
        return Err(concat2(head.as_str(), " is not an inline odrl:Profile in this file -- profiles given by reference are not supported by this runner"));
    }
    let config = match translate_config(g, pid.as_str()) {
        Ok(c) => c,
        Err(e) => return Err(e),
    };
    let poi = dsc("policy");
    let pols = g.object_ids(request_node, poi.as_str());
    let (policies, policy_ids) = match translate_policies(g, &pols, g.triples.len()) {
        Ok(p) => p,
        Err(e) => return Err(e),
    };
    let claims = match translate_claims(g, request_node) {
        Ok(c) => c,
        Err(e) => return Err(e),
    };
    let po = odrl("partOf");
    let colls = g.object_ids(target.as_str(), po.as_str());
    let asset_collections = local_names(&colls);
    let request = Request {
        dataset_id: owned(local_name(target.as_str())),
        action: owned(local_name(aid.as_str())),
        config,
        policies,
        claims,
        asset_collections,
    };
    Ok((request, policy_ids))
}


// -- laws ------------------------------------------------------------------------

/// `ids` names `r` node for node: the same action, and duties, remedies
/// and consequence at the same positions, each named in turn.
pub open spec fn shadows(ids: RuleIdsV, r: RuleV) -> bool
    decreases ids, 1nat,
{
    &&& ids.action == r.action
    &&& all_shadow(ids.duty, r.duty)
    &&& all_shadow(ids.remedy, r.remedy)
    &&& match (ids.consequence, r.consequence) {
        (Some(a), Some(b)) => shadows(*a, *b),
        (None, None) => true,
        _ => false,
    }
}

/// Each of `is` names the rule of `rs` at the same position.
pub open spec fn all_shadow(is: Seq<RuleIdsV>, rs: Seq<RuleV>) -> bool
    decreases is, 0nat,
{
    if is.len() != rs.len() {
        false
    } else if is.len() == 0 {
        true
    } else {
        shadows(is[is.len() - 1], rs[rs.len() - 1])
            && all_shadow(is.subrange(0, is.len() - 1), rs.subrange(0, rs.len() - 1))
    }
}

/// The id shadow of a translated rule tree never drifts from the tree: a
/// rule node that translates yields a rule and an id tree of the same
/// shape.
pub proof fn translated_rule_and_ids_agree(ts: Seq<Triple>, node: Seq<char>, fuel: nat)
    requires
        translate_rule_of(ts, node, fuel) is Ok,
    ensures
        shadows(translate_rule_of(ts, node, fuel)->Ok_0.1, translate_rule_of(ts, node, fuel)->Ok_0.0),
    decreases fuel, 0nat,
{
    let f = (fuel - 1) as nat;
    let dids = odrl_ids_of(ts, node, "duty"@);
    let rids = odrl_ids_of(ts, node, "remedy"@);
    let (rv, iv) = translate_rule_of(ts, node, fuel)->Ok_0;
    lemma_rules_agree(ts, dids, f, dids.len() as int);
    lemma_rules_agree(ts, rids, f, rids.len() as int);
    match object_id_of(ts, node, odrl_iri("consequence"@)) {
        Some(c) => {
            translated_rule_and_ids_agree(ts, c, f);
        },
        None => {},
    }
}

/// The same, for every rule of a list.
pub proof fn lemma_rules_agree(ts: Seq<Triple>, ids: Seq<Seq<char>>, fuel: nat, n: int)
    requires
        rules_of(ts, ids, fuel, n) is Ok,
    ensures
        all_shadow(rules_of(ts, ids, fuel, n)->Ok_0.1, rules_of(ts, ids, fuel, n)->Ok_0.0),
    decreases fuel, if n < 0 { 0 } else { n as nat },
{
    if n > 0 && n <= ids.len() {
        lemma_rules_agree(ts, ids, fuel, n - 1);
        translated_rule_and_ids_agree(ts, ids[n - 1], fuel);
        let prev = rules_of(ts, ids, fuel, n - 1)->Ok_0;
        let now = rules_of(ts, ids, fuel, n)->Ok_0;
        assert(now.0.subrange(0, now.0.len() - 1) =~= prev.0);
        assert(now.1.subrange(0, now.1.len() - 1) =~= prev.1);
    }
}

} // verus!
