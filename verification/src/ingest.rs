//! Maps an expanded ODRL policy node onto the engine's Section 5.2 wire
//! shape.
//!
//! Vocabulary terms (an action, a policy class, a `leftOperand`) are
//! compacted out of the ODRL namespace; an IRI outside it is kept as
//! written. A `rightOperand` is data and is never compacted.

use vstd::prelude::*;
use vstd::string::*;
use crate::text::{strings_view, str_eq, starts_with, is_prefix, owned, concat2, concat3, chars_of, string_of,
    debug_quoted, debug_str, usize_string, decimal, debug_list, debug_list_of};
use crate::expand::{JsonLdError, JsonLdErrorV, ContextRegistry, expand, expand_of, reg_view};
use crate::json::{Json, JsonV, parse_json, parsed_json};
use crate::jsonld::{Expansion, internalize_inverse_properties, expand_compound_rules, internalized, internalized_warnings, compound_tree, compound_warnings, nodes_view, copy_node, Expanded, ExpandedV, Node, NodeV, ODRL_NS, vget, vals_view, lemma_get_view, prop_values,
    copy_values_of, expanded_view, node_view};
use crate::wire::{Constraint, ConstraintV, Operator, Rule, RuleV, WirePolicy, ConflictStrategy, RequestConfig, WireActionDecl, DutyMode, Behaviour, Claims, Request, atom_v, logical_v, cviews, rviews, plain_rule_v, operator_wire_name, lemma_operator_wire_name_chars};

verus! {

/// `rdf:value`, which names the action inside a refined Action node.
pub const RDF_VALUE: &'static str = "http://www.w3.org/1999/02/22-rdf-syntax-ns#value";

/// How deep a logical constraint tree may nest; the evaluator stops
/// recursing at the same bound.
pub const MAX_CONSTRAINT_DEPTH: usize = 32;

/// Why a document could not be ingested.
#[derive(Debug, Clone, PartialEq, Eq)]
pub enum IngestError {
    Json(String),
    UnknownContext(String),
    MalformedContext(String),
    NotANodeObject,
    NoPolicyNode,
    SeveralPolicyNodes(Vec<String>),
    RuleWithoutAction(String),
    /// A rule given as a bare `{"@id": …}` reference; dropping it would be
    /// fail-open.
    RuleIsABareReference(String, String),
    ConstraintWithoutOperator,
    ConstraintWithoutLeftOperand,
    ConstraintWithoutRightOperand,
    UnsupportedOperator(String),
    /// A logical constraint tree nested past [`MAX_CONSTRAINT_DEPTH`].
    ConstraintNestedTooDeep(usize),
}

/// The mathematical value of an [`IngestError`].
pub enum IngestErrorV {
    Json(Seq<char>),
    UnknownContext(Seq<char>),
    MalformedContext(Seq<char>),
    NotANodeObject,
    NoPolicyNode,
    SeveralPolicyNodes(Seq<Seq<char>>),
    RuleWithoutAction(Seq<char>),
    RuleIsABareReference(Seq<char>, Seq<char>),
    ConstraintWithoutOperator,
    ConstraintWithoutLeftOperand,
    ConstraintWithoutRightOperand,
    UnsupportedOperator(Seq<char>),
    ConstraintNestedTooDeep(nat),
}

impl View for IngestError {
    type V = IngestErrorV;

    open spec fn view(&self) -> IngestErrorV {
        match *self {
            IngestError::Json(s) => IngestErrorV::Json(s@),
            IngestError::UnknownContext(s) => IngestErrorV::UnknownContext(s@),
            IngestError::MalformedContext(s) => IngestErrorV::MalformedContext(s@),
            IngestError::NotANodeObject => IngestErrorV::NotANodeObject,
            IngestError::NoPolicyNode => IngestErrorV::NoPolicyNode,
            IngestError::SeveralPolicyNodes(v) => IngestErrorV::SeveralPolicyNodes(Seq::new(v@.len(), |i: int| v@[i]@)),
            IngestError::RuleWithoutAction(s) => IngestErrorV::RuleWithoutAction(s@),
            IngestError::RuleIsABareReference(a, b) => IngestErrorV::RuleIsABareReference(a@, b@),
            IngestError::ConstraintWithoutOperator => IngestErrorV::ConstraintWithoutOperator,
            IngestError::ConstraintWithoutLeftOperand => IngestErrorV::ConstraintWithoutLeftOperand,
            IngestError::ConstraintWithoutRightOperand => IngestErrorV::ConstraintWithoutRightOperand,
            IngestError::UnsupportedOperator(s) => IngestErrorV::UnsupportedOperator(s@),
            IngestError::ConstraintNestedTooDeep(d) => IngestErrorV::ConstraintNestedTooDeep(d as nat),
        }
    }
}

/// The message an ingest error is reported with: its variant and fields
/// as std's `Debug` renders them.
pub open spec fn ingest_error_text(e: IngestErrorV) -> Seq<char> {
    match e {
        IngestErrorV::Json(s) => "Json("@ + debug_str(s) + ")"@,
        IngestErrorV::UnknownContext(s) => "UnknownContext("@ + debug_str(s) + ")"@,
        IngestErrorV::MalformedContext(s) => "MalformedContext("@ + debug_str(s) + ")"@,
        IngestErrorV::NotANodeObject => "NotANodeObject"@,
        IngestErrorV::NoPolicyNode => "NoPolicyNode"@,
        IngestErrorV::SeveralPolicyNodes(v) => "SeveralPolicyNodes("@ + debug_list_of(v) + ")"@,
        IngestErrorV::RuleWithoutAction(s) => "RuleWithoutAction("@ + debug_str(s) + ")"@,
        IngestErrorV::RuleIsABareReference(a, b) =>
            "RuleIsABareReference("@ + debug_str(a) + ", "@ + debug_str(b) + ")"@,
        IngestErrorV::ConstraintWithoutOperator => "ConstraintWithoutOperator"@,
        IngestErrorV::ConstraintWithoutLeftOperand => "ConstraintWithoutLeftOperand"@,
        IngestErrorV::ConstraintWithoutRightOperand => "ConstraintWithoutRightOperand"@,
        IngestErrorV::UnsupportedOperator(s) => "UnsupportedOperator("@ + debug_str(s) + ")"@,
        IngestErrorV::ConstraintNestedTooDeep(d) => "ConstraintNestedTooDeep("@ + decimal(d) + ")"@,
    }
}

impl IngestError {
    /// The error's message: its variant and fields, as std's `Debug`
    /// renders them.
    pub fn message(&self) -> (r: String)
        ensures
            r@ == ingest_error_text(self@),
    {
        match self {
            IngestError::Json(s) => wrapped("Json(", s.as_str()),
            IngestError::UnknownContext(s) => wrapped("UnknownContext(", s.as_str()),
            IngestError::MalformedContext(s) => wrapped("MalformedContext(", s.as_str()),
            IngestError::NotANodeObject => owned("NotANodeObject"),
            IngestError::NoPolicyNode => owned("NoPolicyNode"),
            IngestError::SeveralPolicyNodes(v) => {
                let list = debug_list(v);
                assert(strings_view(v@) =~= Seq::new(v@.len(), |i: int| v@[i]@));
                concat3("SeveralPolicyNodes(", list.as_str(), ")")
            },
            IngestError::RuleWithoutAction(s) => wrapped("RuleWithoutAction(", s.as_str()),
            IngestError::RuleIsABareReference(a, b) => {
                let qa = debug_quoted(a.as_str());
                let qb = debug_quoted(b.as_str());
                let head = concat3("RuleIsABareReference(", qa.as_str(), ", ");
                concat3(head.as_str(), qb.as_str(), ")")
            },
            IngestError::ConstraintWithoutOperator => owned("ConstraintWithoutOperator"),
            IngestError::ConstraintWithoutLeftOperand => owned("ConstraintWithoutLeftOperand"),
            IngestError::ConstraintWithoutRightOperand => owned("ConstraintWithoutRightOperand"),
            IngestError::UnsupportedOperator(s) => wrapped("UnsupportedOperator(", s.as_str()),
            IngestError::ConstraintNestedTooDeep(d) => {
                let n = usize_string(*d);
                concat3("ConstraintNestedTooDeep(", n.as_str(), ")")
            },
        }
    }
}

/// `head`, the quoted and escaped `field`, and a closing bracket.
fn wrapped(head: &str, field: &str) -> (r: String)
    ensures
        r@ == head@ + debug_str(field@) + ")"@,
{
    let q = debug_quoted(field);
    concat3(head, q.as_str(), ")")
}

// -- vocabulary ------------------------------------------------------------

/// `iri` with the ODRL namespace stripped, or unchanged outside it.
pub open spec fn compact_of(iri: Seq<char>) -> Seq<char> {
    if is_prefix(ODRL_NS@, iri) {
        iri.subrange(ODRL_NS@.len() as int, iri.len() as int)
    } else {
        iri
    }
}

/// The ODRL policy classes that mark a node as the policy.
pub open spec fn is_policy_class(local: Seq<char>) -> bool {
    local == "Offer"@ || local == "Agreement"@ || local == "Set"@ || local == "Policy"@
        || local == "Request"@ || local == "Ticket"@ || local == "Assertion"@ || local == "Privacy"@
}

/// The policy kind an ODRL class IRI names: its local name, with the
/// abstract `Policy` read as `Set`.
pub open spec fn policy_kind_of(iri: Seq<char>) -> Option<Seq<char>> {
    if is_prefix(ODRL_NS@, iri) && is_policy_class(compact_of(iri)) {
        if compact_of(iri) == "Policy"@ { Some("Set"@) } else { Some(compact_of(iri)) }
    } else {
        None
    }
}

/// The operator an (ODRL or compacted) operator IRI names, among the ten.
pub open spec fn operator_of(iri: Seq<char>) -> Option<Operator> {
    let l = compact_of(iri);
    if l == "eq"@ { Some(Operator::Eq) }
    else if l == "neq"@ { Some(Operator::Neq) }
    else if l == "lt"@ { Some(Operator::Lt) }
    else if l == "lteq"@ { Some(Operator::Lteq) }
    else if l == "gt"@ { Some(Operator::Gt) }
    else if l == "gteq"@ { Some(Operator::Gteq) }
    else if l == "isAnyOf"@ { Some(Operator::IsAnyOf) }
    else if l == "isAllOf"@ { Some(Operator::IsAllOf) }
    else if l == "isNoneOf"@ { Some(Operator::IsNoneOf) }
    else if l == "isPartOf"@ { Some(Operator::IsPartOf) }
    else { None }
}

/// An operator IRI selects an operator exactly when its compacted form is
/// that operator's wire name.
pub proof fn an_operator_iri_selects_the_operator_so_named(iri: Seq<char>, op: Operator)
    ensures
        operator_of(iri) == Some(op) <==> compact_of(iri) == operator_wire_name(op),
{
    lemma_operator_wire_name_chars();
}

/// The values of `odrl:{local}` on a node.
pub open spec fn odrl_vals(n: NodeV, local: Seq<char>) -> Seq<ExpandedV> {
    vget(n, ODRL_NS@ + local)
}

/// The string a value carries: an IRI, a literal, or a node that is
/// nothing but an `@id`.
pub open spec fn as_string_of(v: ExpandedV) -> Option<Seq<char>> {
    match v {
        ExpandedV::Iri(s) => Some(s),
        ExpandedV::Literal(s) => Some(s),
        ExpandedV::Node(n) => if n.props.len() == 0 { n.id } else { None },
    }
}

/// The string of the first `odrl:{local}` value.
pub open spec fn first_string_of(n: NodeV, local: Seq<char>) -> Option<Seq<char>> {
    let vs = odrl_vals(n, local);
    if vs.len() == 0 { None } else { as_string_of(vs[0]) }
}

/// The strings of `vs`, values without one dropped.
pub open spec fn strings_in(vs: Seq<ExpandedV>) -> Seq<Seq<char>>
    decreases vs.len(),
{
    if vs.len() == 0 {
        Seq::empty()
    } else {
        match as_string_of(vs.last()) {
            Some(s) => strings_in(vs.drop_last()).push(s),
            None => strings_in(vs.drop_last()),
        }
    }
}

/// `s` joined with commas.
pub open spec fn join_commas(s: Seq<Seq<char>>) -> Seq<char>
    decreases s.len(),
{
    if s.len() == 0 {
        Seq::empty()
    } else if s.len() == 1 {
        s[0]
    } else {
        join_commas(s.drop_last()) + ","@ + s.last()
    }
}

/// The kind of the first policy-class type, if any.
pub fn policy_kind(iri: &str) -> (r: Option<String>)
    ensures
        match r {
            Some(k) => policy_kind_of(iri@) == Some(k@),
            None => policy_kind_of(iri@) is None,
        },
{
    if !starts_with(iri, ODRL_NS) {
        return None;
    }
    let local = compact(iri);
    let l = local.as_str();
    if str_eq(l, "Policy") {
        Some(owned("Set"))
    } else if str_eq(l, "Offer") || str_eq(l, "Agreement") || str_eq(l, "Set") || str_eq(l, "Request")
        || str_eq(l, "Ticket") || str_eq(l, "Assertion") || str_eq(l, "Privacy") {
        Some(local)
    } else {
        None
    }
}

/// The compaction applied to a vocabulary IRI; never to a `rightOperand`.
pub fn compact(iri: &str) -> (r: String)
    ensures
        r@ == compact_of(iri@),
{
    if starts_with(iri, ODRL_NS) {
        let n = iri.unicode_len();
        let k = ODRL_NS.unicode_len();
        owned(iri.substring_char(k, n))
    } else {
        owned(iri)
    }
}

/// Copies of the values of `odrl:{local}` on `node`.
pub fn odrl(node: &Node, local: &str) -> (r: Vec<Expanded>)
    ensures
        vals_view(r@) == odrl_vals(node@, local@),
{
    let iri = concat2(ODRL_NS, local);
    let vs = node.get(iri.as_str());
    proof {
        lemma_get_view(*node, iri@);
    }
    copy_values_of(vs)
}

/// The string an expanded value carries, whichever form it took.
pub fn as_string(value: &Expanded) -> (r: Option<String>)
    ensures
        match r {
            Some(s) => as_string_of(value@) == Some(s@),
            None => as_string_of(value@) is None,
        },
{
    match value {
        Expanded::Iri(iri) => Some(iri.clone()),
        Expanded::Literal(lit) => Some(lit.clone()),
        Expanded::Node(n) => {
            if n.props.len() == 0 {
                match &n.id {
                    Some(id) => Some(id.clone()),
                    None => None,
                }
            } else {
                None
            }
        },
    }
}

/// The string of the first `odrl:{local}` value of `node`.
pub fn first_string(node: &Node, local: &str) -> (r: Option<String>)
    ensures
        match r {
            Some(s) => first_string_of(node@, local@) == Some(s@),
            None => first_string_of(node@, local@) is None,
        },
{
    let vs = odrl(node, local);
    if vs.len() == 0 {
        None
    } else {
        as_string(&vs[0])
    }
}

/// The operator an operator IRI names, or the error naming it.
pub fn operator_from(iri: &str) -> (r: Result<Operator, IngestError>)
    ensures
        match operator_of(iri@) {
            Some(o) => r == Ok::<Operator, IngestError>(o),
            None => r is Err && r->Err_0@ == IngestErrorV::UnsupportedOperator(iri@),
        },
{
    let local = compact(iri);
    let l = local.as_str();
    if str_eq(l, "eq") { Ok(Operator::Eq) }
    else if str_eq(l, "neq") { Ok(Operator::Neq) }
    else if str_eq(l, "lt") { Ok(Operator::Lt) }
    else if str_eq(l, "lteq") { Ok(Operator::Lteq) }
    else if str_eq(l, "gt") { Ok(Operator::Gt) }
    else if str_eq(l, "gteq") { Ok(Operator::Gteq) }
    else if str_eq(l, "isAnyOf") { Ok(Operator::IsAnyOf) }
    else if str_eq(l, "isAllOf") { Ok(Operator::IsAllOf) }
    else if str_eq(l, "isNoneOf") { Ok(Operator::IsNoneOf) }
    else if str_eq(l, "isPartOf") { Ok(Operator::IsPartOf) }
    else { Err(IngestError::UnsupportedOperator(owned(iri))) }
}


// -- constraints -------------------------------------------------------------

/// The constraint a value reads as at nesting `depth`: a logical group when
/// it sets `odrl:xone`, else `odrl:or`, else `odrl:and` (that precedence),
/// otherwise an atomic constraint whose right operands are joined with
/// commas.
pub open spec fn constraint_of(v: ExpandedV, depth: int) -> Result<ConstraintV, IngestErrorV>
    decreases MAX_CONSTRAINT_DEPTH + 2 - depth, 0nat,
{
    match v {
        ExpandedV::Node(n) => if depth > MAX_CONSTRAINT_DEPTH as int || depth < 0 {
            Err(IngestErrorV::ConstraintNestedTooDeep(if depth < 0 { 0 } else { depth as nat }))
        } else if odrl_vals(n, "xone"@).len() > 0 {
            match constraints_of(odrl_vals(n, "xone"@), depth + 1) {
                Ok(cs) => Ok(logical_v(Seq::empty(), Seq::empty(), cs)),
                Err(e) => Err(e),
            }
        } else if odrl_vals(n, "or"@).len() > 0 {
            match constraints_of(odrl_vals(n, "or"@), depth + 1) {
                Ok(cs) => Ok(logical_v(Seq::empty(), cs, Seq::empty())),
                Err(e) => Err(e),
            }
        } else if odrl_vals(n, "and"@).len() > 0 {
            match constraints_of(odrl_vals(n, "and"@), depth + 1) {
                Ok(cs) => Ok(logical_v(cs, Seq::empty(), Seq::empty())),
                Err(e) => Err(e),
            }
        } else {
            atomic_of(n)
        },
        _ => Err(IngestErrorV::ConstraintWithoutOperator),
    }
}

/// An atomic constraint node's value.
pub open spec fn atomic_of(n: NodeV) -> Result<ConstraintV, IngestErrorV> {
    match first_string_of(n, "leftOperand"@) {
        None => Err(IngestErrorV::ConstraintWithoutLeftOperand),
        Some(left) => match first_string_of(n, "operator"@) {
            None => Err(IngestErrorV::ConstraintWithoutOperator),
            Some(op_iri) => match operator_of(op_iri) {
                None => Err(IngestErrorV::UnsupportedOperator(op_iri)),
                Some(op) => if odrl_vals(n, "rightOperand"@).len() == 0 || strings_in(odrl_vals(n, "rightOperand"@)).len() == 0 {
                    Err(IngestErrorV::ConstraintWithoutRightOperand)
                } else {
                    Ok(atom_v(compact_of(left), op, join_commas(strings_in(odrl_vals(n, "rightOperand"@)))))
                },
            },
        },
    }
}

/// The constraints each of `vs` reads as, or the first error.
pub open spec fn constraints_of(vs: Seq<ExpandedV>, depth: int) -> Result<Seq<ConstraintV>, IngestErrorV>
    decreases MAX_CONSTRAINT_DEPTH + 2 - depth, vs.len() + 1,
{
    if vs.len() == 0 {
        Ok(Seq::empty())
    } else {
        match constraints_of(vs.drop_last(), depth) {
            Err(e) => Err(e),
            Ok(cs) => match constraint_of(vs.last(), depth) {
                Err(e) => Err(e),
                Ok(c) => Ok(cs.push(c)),
            },
        }
    }
}

/// The strings of `vs`, in order.
fn strings_of_values(vs: &Vec<Expanded>) -> (r: Vec<String>)
    ensures
        Seq::new(r@.len(), |i: int| r@[i]@) == strings_in(vals_view(vs@)),
{
    let mut r: Vec<String> = Vec::new();
    let mut i: usize = 0;
    while i < vs.len()
        invariant
            i <= vs@.len(),
            Seq::new(r@.len(), |k: int| r@[k]@) == strings_in(vals_view(vs@.subrange(0, i as int))),
        decreases vs.len() - i,
    {
        proof {
            assert(vals_view(vs@.subrange(0, i + 1)).drop_last() =~= vals_view(vs@.subrange(0, i as int)));
            assert(vals_view(vs@.subrange(0, i + 1)).last() == vs@[i as int]@);
        }
        match as_string(&vs[i]) {
            Some(s) => {
                let ghost before = r@;
                r.push(s);
                assert(Seq::new(r@.len(), |k: int| r@[k]@) =~= Seq::new(before.len(), |k: int| before[k]@).push(s@));
            },
            None => {},
        }
        i = i + 1;
    }
    assert(vs@.subrange(0, vs@.len() as int) =~= vs@);
    r
}

/// `v` joined with commas.
pub fn join_with_commas(v: &Vec<String>) -> (r: String)
    ensures
        r@ == join_commas(Seq::new(v@.len(), |i: int| v@[i]@)),
{
    let ghost sv = Seq::new(v@.len(), |i: int| v@[i]@);
    let mut r = String::new();
    let mut i: usize = 0;
    while i < v.len()
        invariant
            i <= v@.len(),
            sv == Seq::new(v@.len(), |k: int| v@[k]@),
            r@ == join_commas(sv.subrange(0, i as int)),
        decreases v.len() - i,
    {
        proof {
            assert(sv.subrange(0, i + 1).drop_last() =~= sv.subrange(0, i as int));
        }
        if i == 0 {
            r = v[0].clone();
        } else {
            let next = concat3(r.as_str(), ",", v[i].as_str());
            r = next;
        }
        i = i + 1;
    }
    assert(sv.subrange(0, sv.len() as int) =~= sv);
    r
}

pub proof fn lemma_atom_view(c: Constraint)
    requires
        c.and@.len() == 0,
        c.or@.len() == 0,
        c.xone@.len() == 0,
        c.and_sequence@.len() == 0,
    ensures
        c@ == atom_v(c.left_operand@, c.operator, c.right_operand@),
{
    assert(c@.and =~= Seq::<ConstraintV>::empty());
    assert(c@.or =~= Seq::<ConstraintV>::empty());
    assert(c@.xone =~= Seq::<ConstraintV>::empty());
    assert(c@.and_sequence =~= Seq::<ConstraintV>::empty());
}

pub proof fn lemma_logical_view(c: Constraint)
    requires
        c.left_operand@.len() == 0,
        c.right_operand@.len() == 0,
        c.operator == Operator::Eq,
        c.and_sequence@.len() == 0,
    ensures
        c@ == logical_v(cviews(c.and@), cviews(c.or@), cviews(c.xone@)),
        c.and@.len() == 0 ==> cviews(c.and@) == Seq::<ConstraintV>::empty(),
        c.or@.len() == 0 ==> cviews(c.or@) == Seq::<ConstraintV>::empty(),
        c.xone@.len() == 0 ==> cviews(c.xone@) == Seq::<ConstraintV>::empty(),
{
    assert(c.and@.len() == 0 ==> cviews(c.and@) =~= Seq::<ConstraintV>::empty());
    assert(c.or@.len() == 0 ==> cviews(c.or@) =~= Seq::<ConstraintV>::empty());
    assert(c.xone@.len() == 0 ==> cviews(c.xone@) =~= Seq::<ConstraintV>::empty());
    assert(c@.left =~= Seq::<char>::empty());
    assert(c@.right =~= Seq::<char>::empty());
    assert(c@.and =~= cviews(c.and@));
    assert(c@.or =~= cviews(c.or@));
    assert(c@.xone =~= cviews(c.xone@));
    assert(c@.and_sequence =~= Seq::<ConstraintV>::empty());
}

/// Maps one constraint value at nesting `depth`.
pub fn constraint_from(value: &Expanded, depth: usize) -> (r: Result<Constraint, IngestError>)
    requires
        depth <= MAX_CONSTRAINT_DEPTH + 1,
    ensures
        match constraint_of(value@, depth as int) {
            Ok(c) => r is Ok && r->Ok_0@ == c,
            Err(e) => r is Err && r->Err_0@ == e,
        },
    decreases MAX_CONSTRAINT_DEPTH + 2 - depth, 0nat,
{
    let node = match value {
        Expanded::Node(n) => n,
        _ => return Err(IngestError::ConstraintWithoutOperator),
    };
    if depth > MAX_CONSTRAINT_DEPTH {
        return Err(IngestError::ConstraintNestedTooDeep(depth));
    }
    let xone = odrl(node, "xone");
    if xone.len() > 0 {
        return match constraints_from(&xone, depth + 1) {
            Ok(cs) => {
                let c = Constraint::xone(cs);
                proof { lemma_logical_view(c); }
                Ok(c)
            },
            Err(e) => Err(e),
        };
    }
    let or = odrl(node, "or");
    if or.len() > 0 {
        return match constraints_from(&or, depth + 1) {
            Ok(cs) => {
                let c = Constraint::or(cs);
                proof { lemma_logical_view(c); }
                Ok(c)
            },
            Err(e) => Err(e),
        };
    }
    let and = odrl(node, "and");
    if and.len() > 0 {
        return match constraints_from(&and, depth + 1) {
            Ok(cs) => {
                let c = Constraint::and(cs);
                proof { lemma_logical_view(c); }
                Ok(c)
            },
            Err(e) => Err(e),
        };
    }
    let left = match first_string(node, "leftOperand") {
        Some(l) => l,
        None => return Err(IngestError::ConstraintWithoutLeftOperand),
    };
    let operator_iri = match first_string(node, "operator") {
        Some(o) => o,
        None => return Err(IngestError::ConstraintWithoutOperator),
    };
    let operator = match operator_from(operator_iri.as_str()) {
        Ok(o) => o,
        Err(e) => return Err(e),
    };
    let right_values = odrl(node, "rightOperand");
    if right_values.len() == 0 {
        return Err(IngestError::ConstraintWithoutRightOperand);
    }
    let right = strings_of_values(&right_values);
    if right.len() == 0 {
        return Err(IngestError::ConstraintWithoutRightOperand);
    }
    let joined = join_with_commas(&right);
    assert(joined@ == join_commas(strings_in(odrl_vals(node@, "rightOperand"@))));
    let c = Constraint::new(compact(left.as_str()), operator, joined);
    proof { lemma_atom_view(c); }
    Ok(c)
}

/// Maps each of `vs` at nesting `depth`, stopping at the first error.
pub fn constraints_from(vs: &Vec<Expanded>, depth: usize) -> (r: Result<Vec<Constraint>, IngestError>)
    requires
        depth <= MAX_CONSTRAINT_DEPTH + 1,
    ensures
        match constraints_of(vals_view(vs@), depth as int) {
            Ok(cs) => r is Ok && cviews(r->Ok_0@) == cs,
            Err(e) => r is Err && r->Err_0@ == e,
        },
    decreases MAX_CONSTRAINT_DEPTH + 2 - depth, vs@.len() + 1,
{
    let mut out: Vec<Constraint> = Vec::new();
    let mut i: usize = 0;
    assert(cviews(out@) =~= Seq::<ConstraintV>::empty());
    assert(vals_view(vs@.subrange(0, 0)) =~= Seq::<ExpandedV>::empty());
    while i < vs.len()
        invariant
            i <= vs@.len(),
            depth <= MAX_CONSTRAINT_DEPTH + 1,
            constraints_of(vals_view(vs@.subrange(0, i as int)), depth as int) == Ok::<Seq<ConstraintV>, IngestErrorV>(cviews(out@)),
        decreases vs.len() - i,
    {
        proof {
            assert(vals_view(vs@.subrange(0, i + 1)).drop_last() =~= vals_view(vs@.subrange(0, i as int)));
            assert(vals_view(vs@.subrange(0, i + 1)).last() == vs@[i as int]@);
        }
        match constraint_from(&vs[i], depth) {
            Ok(c) => {
                let ghost before = out@;
                out.push(c);
                assert(cviews(out@) =~= cviews(before).push(c@));
            },
            Err(e) => {
                proof {
                    lemma_constraints_err_persists(vals_view(vs@), depth as int, i as int + 1);
                    assert(vals_view(vs@).subrange(0, i + 1) =~= vals_view(vs@.subrange(0, i + 1)));
                }
                return Err(e);
            },
        }
        i = i + 1;
    }
    assert(vs@.subrange(0, vs@.len() as int) =~= vs@);
    Ok(out)
}

pub proof fn lemma_constraints_err_persists(vs: Seq<ExpandedV>, depth: int, k: int)
    requires
        0 <= k <= vs.len(),
        constraints_of(vs.subrange(0, k), depth) is Err,
    ensures
        constraints_of(vs, depth) == constraints_of(vs.subrange(0, k), depth),
    decreases vs.len(),
{
    if k < vs.len() {
        assert(vs.drop_last().subrange(0, k) =~= vs.subrange(0, k));
        lemma_constraints_err_persists(vs.drop_last(), depth, k);
    } else {
        assert(vs.subrange(0, k) =~= vs);
    }
}

/// A rule node that names its own `odrl:target` keeps that target, whatever
/// target the policy carries; only a rule naming none takes the policy's.
/// Whether the rule ingests at all, and everything else about it, does not
/// depend on the policy's target when the rule names its own.
pub proof fn a_rule_keeps_its_own_target(
    n: NodeV,
    local: Seq<char>,
    policy_target: Option<Seq<char>>,
    other_policy_target: Option<Seq<char>>,
    own: Seq<char>,
)
    ensures
        (rule_of(n, local, policy_target) is Ok) == (rule_of(n, local, other_policy_target) is Ok),
        odrl_vals(n, "target"@).len() > 0 && as_string_of(odrl_vals(n, "target"@)[0]) == Some(own) ==> {
            &&& rule_of(n, local, policy_target) == rule_of(n, local, other_policy_target)
            &&& (rule_of(n, local, policy_target) matches Ok((r, _)) ==> r.target == Some(own))
        },
        odrl_vals(n, "target"@).len() == 0 ==> (rule_of(n, local, policy_target) matches Ok((r, _)) ==> r.target == policy_target),
{
}

/// Each rule `rs[i]` is what the rule node `vs[i]` ingests to, under the
/// policy target `pt`.
pub open spec fn rules_read_from(rs: Seq<RuleV>, vs: Seq<ExpandedV>, local: Seq<char>, pt: Option<Seq<char>>) -> bool {
    &&& rs.len() == vs.len()
    &&& forall|i: int| 0 <= i < vs.len() ==> (#[trigger] vs[i]) is Node
        && rule_of(vs[i]->Node_0, local, pt) is Ok && rule_of(vs[i]->Node_0, local, pt)->Ok_0.0 == rs[i]
}

pub proof fn lemma_rules_of_each(vs: Seq<ExpandedV>, local: Seq<char>, pt: Option<Seq<char>>)
    ensures
        rules_of(vs, local, pt) matches Ok((rs, _)) ==> rules_read_from(rs, vs, local, pt),
    decreases vs.len(),
{
    if vs.len() > 0 {
        lemma_rules_of_each(vs.drop_last(), local, pt);
        if let Ok((rs, _)) = rules_of(vs, local, pt) {
            let (rs0, _) = rules_of(vs.drop_last(), local, pt)->Ok_0;
            assert forall|i: int| 0 <= i < vs.len() implies (#[trigger] vs[i]) is Node
                && rule_of(vs[i]->Node_0, local, pt) is Ok && rule_of(vs[i]->Node_0, local, pt)->Ok_0.0 == rs[i] by {
                if i < vs.len() - 1 {
                    assert(vs[i] == vs.drop_last()[i]);
                    assert(rs[i] == rs0[i]);
                }
            }
        }
    }
}

/// The targets of ingested rules: where a rule node names a target of its
/// own, the rule carries it; elsewhere it carries the policy's.
pub open spec fn targets_pushed_down(rs: Seq<RuleV>, vs: Seq<ExpandedV>, policy_target: Option<Seq<char>>) -> bool {
    &&& rs.len() == vs.len()
    &&& forall|i: int| #![trigger vs[i]] 0 <= i < vs.len() ==> {
        let own = odrl_vals(vs[i]->Node_0, "target"@);
        &&& (own.len() > 0 && as_string_of(own[0]) is Some ==> rs[i].target == as_string_of(own[0]))
        &&& (own.len() == 0 ==> rs[i].target == policy_target)
    }
}

/// In an ingested policy, every permission, prohibition and obligation
/// whose node names its own `odrl:target` keeps that target; the policy's
/// own target is pushed down only onto the rules that name none.
pub proof fn an_ingested_policy_pushes_its_target_only_onto_rules_naming_none(n: NodeV)
    ensures
        policy_of(n) matches Ok((p, _)) ==> {
            &&& targets_pushed_down(p.permissions, odrl_vals(n, "permission"@), first_string_of(n, "target"@))
            &&& targets_pushed_down(p.prohibitions, odrl_vals(n, "prohibition"@), first_string_of(n, "target"@))
            &&& targets_pushed_down(p.obligations, odrl_vals(n, "obligation"@), first_string_of(n, "target"@))
        },
{
    let pt = first_string_of(n, "target"@);
    lemma_rules_of_each(odrl_vals(n, "permission"@), "permission"@, pt);
    lemma_rules_of_each(odrl_vals(n, "prohibition"@), "prohibition"@, pt);
    lemma_rules_of_each(odrl_vals(n, "obligation"@), "obligation"@, pt);
    if let Ok((p, _)) = policy_of(n) {
        let (ps, _) = rules_of(odrl_vals(n, "permission"@), "permission"@, pt)->Ok_0;
        let (qs, _) = rules_of(odrl_vals(n, "prohibition"@), "prohibition"@, pt)->Ok_0;
        let (os, _) = rules_of(odrl_vals(n, "obligation"@), "obligation"@, pt)->Ok_0;
        assert(p.permissions == ps);
        assert(p.prohibitions == qs);
        assert(p.obligations == os);
    }
}


// -- rules -------------------------------------------------------------------

pub open spec fn multi_action_warning(local: Seq<char>, n: nat) -> Seq<char> {
    "the odrl:"@ + local + " rule names "@ + decimal(n)
        + " actions; this contract carries one action per rule, so only the first is ingested"@
}

pub open spec fn duty_warning(local: Seq<char>, action: Seq<char>) -> Seq<char> {
    "the odrl:"@ + local + " rule for action "@ + debug_str(action)
        + " carries a per-rule odrl:duty; engine::Rule now models one (engine::Rule::duty, and odrl:consequence/odrl:remedy beside it), but this adapter does not yet ingest any of the three, so it is dropped \u{2014} an adapter limitation now, not an engine one"@
}

/// The refinement several refinements make: their conjunction.
pub open spec fn refinement_of(rs: Seq<ConstraintV>) -> Option<ConstraintV> {
    if rs.len() == 0 {
        None
    } else if rs.len() == 1 {
        Some(rs[0])
    } else {
        Some(logical_v(rs, Seq::empty(), Seq::empty()))
    }
}

/// A rule's action (compacted) and refinement, with the warnings reading
/// it raised.
pub open spec fn action_of(n: NodeV, local: Seq<char>) -> Result<(Seq<char>, Option<ConstraintV>, Seq<Seq<char>>), IngestErrorV> {
    let vs = odrl_vals(n, "action"@);
    let ws = if vs.len() > 1 { seq![multi_action_warning(local, vs.len())] } else { Seq::empty() };
    if vs.len() == 0 {
        Err(IngestErrorV::RuleWithoutAction(local))
    } else {
        match vs[0] {
            ExpandedV::Iri(i) => Ok((compact_of(i), None, ws)),
            ExpandedV::Literal(l) => Ok((compact_of(l), None, ws)),
            ExpandedV::Node(a) => {
                let named = if vget(a, RDF_VALUE@).len() > 0 && as_string_of(vget(a, RDF_VALUE@)[0]) is Some {
                    as_string_of(vget(a, RDF_VALUE@)[0])
                } else {
                    a.id
                };
                match named {
                    None => Err(IngestErrorV::RuleWithoutAction(local)),
                    Some(name) => match constraints_of(odrl_vals(a, "refinement"@), 0) {
                        Err(e) => Err(e),
                        Ok(rs) => Ok((compact_of(name), refinement_of(rs), ws)),
                    },
                }
            },
        }
    }
}

/// A rule node's value, given the policy's own target, with its warnings.
pub open spec fn rule_of(n: NodeV, local: Seq<char>, policy_target: Option<Seq<char>>) -> Result<(RuleV, Seq<Seq<char>>), IngestErrorV> {
    match action_of(n, local) {
        Err(e) => Err(e),
        Ok((action, refinement, ws)) => match constraints_of(odrl_vals(n, "constraint"@), 0) {
            Err(e) => Err(e),
            Ok(cs) => {
                let ws2 = if odrl_vals(n, "duty"@).len() > 0 { ws.push(duty_warning(local, action)) } else { ws };
                let target = match first_string_of(n, "target"@) {
                    Some(t) => Some(t),
                    None => policy_target,
                };
                Ok((plain_rule_v(action, target, cs, refinement), ws2))
            },
        },
    }
}

/// The rules `vs` hold under `odrl:{local}`, in order, with their warnings.
pub open spec fn rules_of(vs: Seq<ExpandedV>, local: Seq<char>, policy_target: Option<Seq<char>>) -> Result<(Seq<RuleV>, Seq<Seq<char>>), IngestErrorV>
    decreases vs.len(),
{
    if vs.len() == 0 {
        Ok((Seq::empty(), Seq::empty()))
    } else {
        match rules_of(vs.drop_last(), local, policy_target) {
            Err(e) => Err(e),
            Ok((rs, ws)) => match vs.last() {
                ExpandedV::Node(n) => match rule_of(n, local, policy_target) {
                    Err(e) => Err(e),
                    Ok((r, w)) => Ok((rs.push(r), ws + w)),
                },
                v => Err(IngestErrorV::RuleIsABareReference(local, match as_string_of(v) {
                    Some(s) => s,
                    None => Seq::empty(),
                })),
            },
        }
    }
}

/// Reads a rule's action in either shape ODRL allows: the plain term, or
/// an Action node with `rdf:value` and `odrl:refinement`s (several are
/// their conjunction).
pub fn action_from(node: &Node, local: &str, warnings: &mut Vec<String>) -> (r: Result<(String, Option<Constraint>), IngestError>)
    ensures
        match action_of(node@, local@) {
            Err(e) => r is Err && r->Err_0@ == e,
            Ok((a, refinement, ws)) => r is Ok && r->Ok_0.0@ == a
                && (match r->Ok_0.1 { Some(c) => refinement == Some(c@), None => refinement is None })
                && strings_view(final(warnings)@) == strings_view(old(warnings)@) + ws,
        },
{
    let values = odrl(node, "action");
    let ghost ws = if vals_view(values@).len() > 1 { seq![multi_action_warning(local@, vals_view(values@).len())] } else { Seq::empty() };
    if values.len() > 1 {
        let n = usize_string(values.len());
        let head = concat3("the odrl:", local, " rule names ");
        let w = concat3(head.as_str(), n.as_str(), " actions; this contract carries one action per rule, so only the first is ingested");
        warnings.push(w);
    }
    assert(strings_view(warnings@) =~= strings_view(old(warnings)@) + ws);
    if values.len() == 0 {
        return Err(IngestError::RuleWithoutAction(owned(local)));
    }
    match &values[0] {
        Expanded::Iri(iri) => Ok((compact(iri.as_str()), None)),
        Expanded::Literal(lit) => Ok((compact(lit.as_str()), None)),
        Expanded::Node(action) => {
            let vs = action.get(RDF_VALUE);
            proof { lemma_get_view(*action, RDF_VALUE@); }
            let from_value = if vs.len() > 0 { as_string(&vs[0]) } else { None };
            let named = match from_value {
                Some(v) => v,
                None => match &action.id {
                    Some(id) => id.clone(),
                    None => return Err(IngestError::RuleWithoutAction(owned(local))),
                },
            };
            let refinement_values = odrl(action, "refinement");
            let mut refinements = match constraints_from(&refinement_values, 0) {
                Ok(rs) => rs,
                Err(e) => return Err(e),
            };
            let refinement = if refinements.len() == 0 {
                None
            } else if refinements.len() == 1 {
                refinements.pop()
            } else {
                let c = Constraint::and(refinements);
                proof { lemma_logical_view(c); }
                Some(c)
            };
            Ok((compact(named.as_str()), refinement))
        },
    }
}


/// Maps one rule node under `odrl:{local}`; a rule naming no target of its
/// own takes the policy's.
pub fn rule_from(node: &Node, local: &str, policy_target: &Option<String>, warnings: &mut Vec<String>) -> (r: Result<Rule, IngestError>)
    ensures
        match rule_of(node@, local@, match policy_target { Some(t) => Some(t@), None => None }) {
            Err(e) => r is Err && r->Err_0@ == e,
            Ok((rule, ws)) => r is Ok && r->Ok_0@ == rule
                && strings_view(final(warnings)@) == strings_view(old(warnings)@) + ws,
        },
{
    let (action, action_refinement) = match action_from(node, local, warnings) {
        Ok(a) => a,
        Err(e) => return Err(e),
    };
    let constraint_values = odrl(node, "constraint");
    let constraints = match constraints_from(&constraint_values, 0) {
        Ok(cs) => cs,
        Err(e) => return Err(e),
    };
    let duties = odrl(node, "duty");
    if duties.len() > 0 {
        let quoted = debug_quoted(action.as_str());
        let head = concat3("the odrl:", local, " rule for action ");
        let w = concat3(head.as_str(), quoted.as_str(), " carries a per-rule odrl:duty; engine::Rule now models one (engine::Rule::duty, and odrl:consequence/odrl:remedy beside it), but this adapter does not yet ingest any of the three, so it is dropped \u{2014} an adapter limitation now, not an engine one");
        let ghost before = warnings@;
        warnings.push(w);
        assert(strings_view(warnings@) =~= strings_view(before).push(w@));
    }
    let target = match first_string(node, "target") {
        Some(t) => Some(t),
        None => match policy_target {
            Some(t) => Some(t.clone()),
            None => None,
        },
    };
    let rule = Rule {
        action,
        target,
        constraints,
        action_refinement: match action_refinement {
            Some(c) => Some(Box::new(c)),
            None => None,
        },
        duty: Vec::new(),
        remedy: Vec::new(),
        consequence: None,
    };
    proof {
        assert(rule@.duty =~= Seq::<RuleV>::empty());
        assert(rule@.remedy =~= Seq::<RuleV>::empty());
    }
    Ok(rule)
}

/// Maps every rule under `odrl:{local}` of the policy node, in order. A
/// rule given as a bare reference is an error.
pub fn rules_from(policy: &Node, local: &str, policy_target: &Option<String>, warnings: &mut Vec<String>) -> (r: Result<Vec<Rule>, IngestError>)
    ensures
        match rules_of(odrl_vals(policy@, local@), local@, match policy_target { Some(t) => Some(t@), None => None }) {
            Err(e) => r is Err && r->Err_0@ == e,
            Ok((rules, ws)) => r is Ok && rviews(r->Ok_0@) == rules
                && strings_view(final(warnings)@) == strings_view(old(warnings)@) + ws,
        },
{
    let values = odrl(policy, local);
    let ghost pt = match policy_target { Some(t) => Some(t@), None => None };
    let ghost vs = vals_view(values@);
    let mut rules: Vec<Rule> = Vec::new();
    let mut i: usize = 0;
    assert(rviews(rules@) =~= Seq::<RuleV>::empty());
    assert(vs.subrange(0, 0) =~= Seq::<ExpandedV>::empty());
    assert(strings_view(warnings@) =~= strings_view(old(warnings)@) + Seq::<Seq<char>>::empty());
    while i < values.len()
        invariant
            i <= values@.len(),
            vs == vals_view(values@),
            vs == odrl_vals(policy@, local@),
            pt == match policy_target { Some(t) => Some(t@), None => None::<Seq<char>> },
            rules_of(vs.subrange(0, i as int), local@, pt) matches Ok((rs, ws))
                && rviews(rules@) == rs && strings_view(warnings@) == strings_view(old(warnings)@) + ws,
        decreases values.len() - i,
    {
        proof {
            assert(vs.subrange(0, i + 1).drop_last() =~= vs.subrange(0, i as int));
            assert(vs.subrange(0, i + 1).last() == values@[i as int]@);
        }
        let ghost (rs0, ws0) = rules_of(vs.subrange(0, i as int), local@, pt)->Ok_0;
        match &values[i] {
            Expanded::Node(n) => {
                let ghost wbefore = warnings@;
                match rule_from(n, local, policy_target, warnings) {
                    Ok(rule) => {
                        let ghost before = rules@;
                        rules.push(rule);
                        proof {
                            assert(rviews(rules@) =~= rviews(before).push(rule@));
                            let (rr, ww) = rule_of(n@, local@, pt)->Ok_0;
                            assert(strings_view(warnings@) =~= strings_view(old(warnings)@) + (ws0 + ww));
                        }
                    },
                    Err(e) => {
                        proof {
                            lemma_rules_err_persists(vs, local@, pt, i as int + 1);
                            assert(vs.subrange(0, vs.len() as int) =~= vs);
                        }
                        return Err(e);
                    },
                }
            },
            other => {
                let s = match as_string(other) {
                    Some(s) => s,
                    None => String::new(),
                };
                proof {
                    lemma_rules_err_persists(vs, local@, pt, i as int + 1);
                    assert(vs.subrange(0, vs.len() as int) =~= vs);
                }
                return Err(IngestError::RuleIsABareReference(owned(local), s));
            },
        }
        i = i + 1;
    }
    assert(vs.subrange(0, vs.len() as int) =~= vs);
    Ok(rules)
}

pub proof fn lemma_rules_err_persists(vs: Seq<ExpandedV>, local: Seq<char>, pt: Option<Seq<char>>, k: int)
    requires
        0 <= k <= vs.len(),
        rules_of(vs.subrange(0, k), local, pt) is Err,
    ensures
        rules_of(vs, local, pt) == rules_of(vs.subrange(0, k), local, pt),
    decreases vs.len(),
{
    if k < vs.len() {
        assert(vs.drop_last().subrange(0, k) =~= vs.subrange(0, k));
        lemma_rules_err_persists(vs.drop_last(), local, pt, k);
    } else {
        assert(vs.subrange(0, k) =~= vs);
    }
}


// -- policy ------------------------------------------------------------------

/// The value of an ingested policy.
pub struct PolicyV {
    pub id: Seq<char>,
    pub kind: Seq<char>,
    pub assigner: Seq<char>,
    pub assignee: Option<Seq<char>>,
    pub permissions: Seq<RuleV>,
    pub prohibitions: Seq<RuleV>,
    pub obligations: Seq<RuleV>,
}

/// The kind of the first of `types` naming a policy class.
pub open spec fn first_policy_kind(types: Seq<Seq<char>>) -> Option<Seq<char>>
    decreases types.len(),
{
    if types.len() == 0 {
        None
    } else {
        match first_policy_kind(types.drop_last()) {
            Some(k) => Some(k),
            None => policy_kind_of(types.last()),
        }
    }
}

/// The warnings a policy node's own header raises, in order.
pub open spec fn header_warnings(n: NodeV) -> Seq<Seq<char>> {
    (if n.id is None { seq!["the policy node carries no @id; WirePolicy.id is the empty string"@] } else { Seq::empty() })
    + (if first_string_of(n, "assigner"@) is None { seq!["the policy names no odrl:assigner; WirePolicy.assigner is the empty string"@] } else { Seq::empty() })
    + (if odrl_vals(n, "profile"@).len() > 0 {
        seq!["the policy declares an odrl:profile; this adapter does not load it, so any term it defines is ingested as an ordinary opaque string"@]
    } else { Seq::empty() })
    + (if odrl_vals(n, "inheritFrom"@).len() > 0 {
        seq!["the policy declares odrl:inheritFrom; policy inheritance is not resolved"@]
    } else { Seq::empty() })
    + (if odrl_vals(n, "conflict"@).len() > 0 {
        seq!["the policy declares odrl:conflict; this adapter ingests no conflict strategy, so the engine's own default applies (invalid: a policy whose permission and prohibition both match is void)"@]
    } else { Seq::empty() })
}

/// A policy node's header raises the `odrl:conflict` warning exactly when
/// the node declares `odrl:conflict`; a policy that declares it is ingested
/// with that warning among its warnings (and, like every ingested policy,
/// under the engine's default strategy: see [`policy_is`]).
pub proof fn a_declared_conflict_is_warned_about_never_silently_dropped(n: NodeV)
    ensures
        header_warnings(n).contains("the policy declares odrl:conflict; this adapter ingests no conflict strategy, so the engine's own default applies (invalid: a policy whose permission and prohibition both match is void)"@) <==> odrl_vals(n, "conflict"@).len() > 0,
        odrl_vals(n, "conflict"@).len() > 0 && policy_of(n) is Ok ==> policy_of(n)->Ok_0.1.contains("the policy declares odrl:conflict; this adapter ingests no conflict strategy, so the engine's own default applies (invalid: a policy whose permission and prohibition both match is void)"@),
{
    let w = "the policy declares odrl:conflict; this adapter ingests no conflict strategy, so the engine's own default applies (invalid: a policy whose permission and prohibition both match is void)"@;
    let h = header_warnings(n);
    reveal_strlit("the policy declares odrl:conflict; this adapter ingests no conflict strategy, so the engine's own default applies (invalid: a policy whose permission and prohibition both match is void)");
    reveal_strlit("the policy node carries no @id; WirePolicy.id is the empty string");
    reveal_strlit("the policy names no odrl:assigner; WirePolicy.assigner is the empty string");
    reveal_strlit("the policy declares an odrl:profile; this adapter does not load it, so any term it defines is ingested as an ordinary opaque string");
    reveal_strlit("the policy declares odrl:inheritFrom; policy inheritance is not resolved");
    let a = if n.id is None { seq!["the policy node carries no @id; WirePolicy.id is the empty string"@] } else { Seq::empty() };
    let b = if first_string_of(n, "assigner"@) is None { seq!["the policy names no odrl:assigner; WirePolicy.assigner is the empty string"@] } else { Seq::empty() };
    let c = if odrl_vals(n, "profile"@).len() > 0 {
        seq!["the policy declares an odrl:profile; this adapter does not load it, so any term it defines is ingested as an ordinary opaque string"@]
    } else { Seq::empty() };
    let d = if odrl_vals(n, "inheritFrom"@).len() > 0 {
        seq!["the policy declares odrl:inheritFrom; policy inheritance is not resolved"@]
    } else { Seq::empty() };
    let e = if odrl_vals(n, "conflict"@).len() > 0 { seq![w] } else { Seq::empty() };
    assert(h == a + b + c + d + e);
    let others = a + b + c + d;
    assert forall|i: int| 0 <= i < others.len() implies others[i] != w by {
        assert(others[i].len() != w.len());
    }
    if odrl_vals(n, "conflict"@).len() > 0 {
        assert(h[h.len() - 1] == w);
        if policy_of(n) is Ok {
            let ws = policy_of(n)->Ok_0.1;
            let pt = first_string_of(n, "target"@);
            let (ps, w1) = rules_of(odrl_vals(n, "permission"@), "permission"@, pt)->Ok_0;
            let (qs, w2) = rules_of(odrl_vals(n, "prohibition"@), "prohibition"@, pt)->Ok_0;
            let (os, w3) = rules_of(odrl_vals(n, "obligation"@), "obligation"@, pt)->Ok_0;
            assert(ws == h + w1 + w2 + w3);
            assert(ws[h.len() - 1] == w);
        }
    } else {
        assert(h =~= others);
        if h.contains(w) {
            let i = choose|i: int| 0 <= i < h.len() && h[i] == w;
            assert(others[i] != w);
        }
    }
}

/// A policy node's value and every warning reading it raised; the policy's
/// own target is pushed down onto each rule naming none.
pub open spec fn policy_of(n: NodeV) -> Result<(PolicyV, Seq<Seq<char>>), IngestErrorV> {
    let pt = first_string_of(n, "target"@);
    match rules_of(odrl_vals(n, "permission"@), "permission"@, pt) {
        Err(e) => Err(e),
        Ok((ps, w1)) => match rules_of(odrl_vals(n, "prohibition"@), "prohibition"@, pt) {
            Err(e) => Err(e),
            Ok((qs, w2)) => match rules_of(odrl_vals(n, "obligation"@), "obligation"@, pt) {
                Err(e) => Err(e),
                Ok((os, w3)) => Ok((PolicyV {
                    id: match n.id { Some(i) => i, None => Seq::empty() },
                    kind: first_policy_kind(n.types)->0,
                    assigner: match first_string_of(n, "assigner"@) { Some(a) => a, None => Seq::empty() },
                    assignee: first_string_of(n, "assignee"@),
                    permissions: ps,
                    prohibitions: qs,
                    obligations: os,
                }, header_warnings(n) + w1 + w2 + w3)),
            },
        },
    }
}

/// `p` is the wire policy whose value is `v`, under the engine's default
/// conflict strategy and with no inheritance.
pub open spec fn policy_is(p: WirePolicy, v: PolicyV) -> bool {
    &&& p.id@ == v.id
    &&& p.kind@ == v.kind
    &&& p.assigner@ == v.assigner
    &&& (match p.assignee { Some(a) => Some(a@), None => None }) == v.assignee
    &&& rviews(p.permissions@) == v.permissions
    &&& rviews(p.prohibitions@) == v.prohibitions
    &&& rviews(p.obligations@) == v.obligations
    &&& p.conflict == ConflictStrategy::Invalid
    &&& p.inherit_from is None
}

fn first_kind(types: &Vec<String>) -> (r: Option<String>)
    ensures
        match r {
            Some(k) => first_policy_kind(strings_view(types@)) == Some(k@),
            None => first_policy_kind(strings_view(types@)) is None,
        },
{
    let ghost tv = strings_view(types@);
    let mut i: usize = 0;
    while i < types.len()
        invariant
            i <= types@.len(),
            tv == strings_view(types@),
            first_policy_kind(tv.subrange(0, i as int)) is None,
        decreases types.len() - i,
    {
        proof {
            assert(tv.subrange(0, i + 1).drop_last() =~= tv.subrange(0, i as int));
            assert(tv.subrange(0, i + 1).last() == types@[i as int]@);
        }
        match policy_kind(types[i].as_str()) {
            Some(k) => {
                proof { lemma_first_kind_prefix(tv, i as int + 1); }
                return Some(k);
            },
            None => {},
        }
        i = i + 1;
    }
    assert(tv.subrange(0, tv.len() as int) =~= tv);
    None
}

pub proof fn lemma_first_kind_prefix(types: Seq<Seq<char>>, k: int)
    requires
        0 <= k <= types.len(),
        first_policy_kind(types.subrange(0, k)) is Some,
    ensures
        first_policy_kind(types) == first_policy_kind(types.subrange(0, k)),
    decreases types.len(),
{
    if k < types.len() {
        assert(types.drop_last().subrange(0, k) =~= types.subrange(0, k));
        lemma_first_kind_prefix(types.drop_last(), k);
    } else {
        assert(types.subrange(0, k) =~= types);
    }
}

fn push_warning(warnings: &mut Vec<String>, w: &str)
    ensures
        strings_view(final(warnings)@) == strings_view(old(warnings)@).push(w@),
{
    warnings.push(owned(w));
    assert(strings_view(warnings@) =~= strings_view(old(warnings)@).push(w@));
}

/// A policy node's id and assigner (empty when absent), with the header
/// warnings.
fn policy_header(node: &Node, warnings: &mut Vec<String>) -> (r: (String, String))
    ensures
        r.0@ == match node@.id { Some(i) => i, None => Seq::empty() },
        r.1@ == match first_string_of(node@, "assigner"@) { Some(a) => a, None => Seq::empty() },
        strings_view(final(warnings)@) == strings_view(old(warnings)@) + header_warnings(node@),
{
    proof { crate::jsonld::lemma_node_view(*node); }
    let ghost w0 = strings_view(warnings@);
    let id = match &node.id {
        Some(i) => i.clone(),
        None => {
            push_warning(warnings, "the policy node carries no @id; WirePolicy.id is the empty string");
            String::new()
        },
    };
    let ghost w1 = strings_view(warnings@);
    let assigner = match first_string(node, "assigner") {
        Some(a) => a,
        None => {
            push_warning(warnings, "the policy names no odrl:assigner; WirePolicy.assigner is the empty string");
            String::new()
        },
    };
    let ghost w2 = strings_view(warnings@);
    if odrl(node, "profile").len() > 0 {
        push_warning(warnings, "the policy declares an odrl:profile; this adapter does not load it, so any term it defines is ingested as an ordinary opaque string");
    }
    let ghost w3 = strings_view(warnings@);
    if odrl(node, "inheritFrom").len() > 0 {
        push_warning(warnings, "the policy declares odrl:inheritFrom; policy inheritance is not resolved");
    }
    let ghost w4 = strings_view(warnings@);
    if odrl(node, "conflict").len() > 0 {
        push_warning(warnings, "the policy declares odrl:conflict; this adapter ingests no conflict strategy, so the engine's own default applies (invalid: a policy whose permission and prohibition both match is void)");
    }
    assert(strings_view(warnings@) =~= w0 + header_warnings(node@));
    (id, assigner)
}

/// Maps a policy node onto a wire policy, recording every header term it
/// could not map.
pub fn policy_from(node: &Node, warnings: &mut Vec<String>) -> (r: Result<WirePolicy, IngestError>)
    requires
        first_policy_kind(node@.types) is Some,
    ensures
        match policy_of(node@) {
            Err(e) => r is Err && r->Err_0@ == e,
            Ok((v, ws)) => r is Ok && policy_is(r->Ok_0, v)
                && strings_view(final(warnings)@) == strings_view(old(warnings)@) + ws,
        },
{
    proof { crate::jsonld::lemma_node_view(*node); }
    let kind = match first_kind(&node.types) {
        Some(k) => k,
        None => String::new(),
    };
    let ghost w0 = strings_view(warnings@);
    let ghost n = node@;
    let (id, assigner) = policy_header(node, warnings);
    let policy_target = first_string(node, "target");
    let assignee = first_string(node, "assignee");
    let ghost wh = strings_view(warnings@);
    let permissions = match rules_from(node, "permission", &policy_target, warnings) {
        Ok(rs) => rs,
        Err(e) => return Err(e),
    };
    let prohibitions = match rules_from(node, "prohibition", &policy_target, warnings) {
        Ok(rs) => rs,
        Err(e) => return Err(e),
    };
    let obligations = match rules_from(node, "obligation", &policy_target, warnings) {
        Ok(rs) => rs,
        Err(e) => return Err(e),
    };
    proof {
        let pt = first_string_of(n, "target"@);
        let (ps, w1) = rules_of(odrl_vals(n, "permission"@), "permission"@, pt)->Ok_0;
        let (qs, w2) = rules_of(odrl_vals(n, "prohibition"@), "prohibition"@, pt)->Ok_0;
        let (os, w3) = rules_of(odrl_vals(n, "obligation"@), "obligation"@, pt)->Ok_0;
        assert(strings_view(warnings@) =~= w0 + (header_warnings(n) + w1 + w2 + w3));
    }
    Ok(WirePolicy {
        id,
        kind,
        assigner,
        assignee,
        permissions,
        prohibitions,
        obligations,
        conflict: ConflictStrategy::Invalid,
        inherit_from: None,
    })
}


// -- finding the policy node -------------------------------------------------

/// Whether a node is typed as an ODRL policy class.
pub open spec fn is_policy_node(n: NodeV) -> bool {
    first_policy_kind(n.types) is Some
}

/// Every node typed as an ODRL policy class, depth first from `n` at
/// `depth`, not looking inside a policy node nor below depth 8.
pub open spec fn policy_nodes(n: NodeV, depth: int) -> Seq<NodeV>
    decreases 10 - depth, 2nat, 0nat,
{
    if depth > 8 || depth < 0 {
        Seq::empty()
    } else if is_policy_node(n) {
        seq![n]
    } else {
        props_policy_nodes(n.props, depth)
    }
}

pub open spec fn props_policy_nodes(ps: Seq<(Seq<char>, Seq<ExpandedV>)>, depth: int) -> Seq<NodeV>
    decreases 10 - depth, 1nat, ps.len(),
{
    if depth > 8 || depth < 0 || ps.len() == 0 {
        Seq::empty()
    } else {
        props_policy_nodes(ps.drop_last(), depth) + vals_policy_nodes(ps.last().1, depth)
    }
}

pub open spec fn vals_policy_nodes(vs: Seq<ExpandedV>, depth: int) -> Seq<NodeV>
    decreases 10 - depth, 0nat, vs.len(),
{
    if depth > 8 || depth < 0 || vs.len() == 0 {
        Seq::empty()
    } else {
        vals_policy_nodes(vs.drop_last(), depth) + match vs.last() {
            ExpandedV::Node(c) => policy_nodes(c, depth + 1),
            _ => Seq::empty(),
        }
    }
}

/// Collects, depth first, copies of every node typed as an ODRL policy
/// class — matched by `@type`, whatever envelope property holds it.
pub fn collect_policy_nodes(node: &Node, depth: usize, out: &mut Vec<Node>)
    ensures
        nodes_view(final(out)@) == nodes_view(old(out)@) + policy_nodes(node@, depth as int),
    decreases 10 - depth,
{
    if depth > 8 {
        assert(nodes_view(out@) =~= nodes_view(old(out)@) + Seq::<NodeV>::empty());
        return;
    }
    match first_kind(&node.types) {
        Some(_) => {
            proof { crate::jsonld::lemma_node_view(*node); }
            let ghost before = out@;
            out.push(copy_node(node));
            assert(nodes_view(out@) =~= nodes_view(before) + seq![node@]);
            return;
        },
        None => {},
    }
    proof { crate::jsonld::lemma_node_view(*node); }
    let ghost ps = node@.props;
    let mut i: usize = 0;
    assert(nodes_view(out@) =~= nodes_view(old(out)@) + props_policy_nodes(ps.subrange(0, 0), depth as int));
    while i < node.props.len()
        invariant
            i <= node.props@.len(),
            depth <= 8,
            ps == node@.props,
            ps.len() == node.props@.len(),
            forall|k: int| 0 <= k < ps.len() ==> #[trigger] ps[k] == (node.props@[k].0@, vals_view(node.props@[k].1@)),
            nodes_view(out@) == nodes_view(old(out)@) + props_policy_nodes(ps.subrange(0, i as int), depth as int),
        decreases node.props.len() - i,
    {
        let values = &node.props[i].1;
        let ghost vs = vals_view(values@);
        assert(ps[i as int].1 == vs);
        let ghost mid = nodes_view(out@);
        let mut j: usize = 0;
        assert(nodes_view(out@) =~= mid + vals_policy_nodes(vs.subrange(0, 0), depth as int));
        while j < values.len()
            invariant
                j <= values@.len(),
                depth <= 8,
                vs == vals_view(values@),
                nodes_view(out@) == mid + vals_policy_nodes(vs.subrange(0, j as int), depth as int),
            decreases values.len() - j,
        {
            proof {
                assert(vs.subrange(0, j + 1).drop_last() =~= vs.subrange(0, j as int));
                assert(vs.subrange(0, j + 1).last() == values@[j as int]@);
            }
            match &values[j] {
                Expanded::Node(child) => {
                    let ghost b = nodes_view(out@);
                    collect_policy_nodes(child, depth + 1, out);
                    assert(nodes_view(out@) =~= mid + vals_policy_nodes(vs.subrange(0, j + 1), depth as int));
                },
                _ => {
                    assert(nodes_view(out@) =~= mid + vals_policy_nodes(vs.subrange(0, j + 1), depth as int));
                },
            }
            j = j + 1;
        }
        proof {
            assert(vs.subrange(0, vs.len() as int) =~= vs);
            assert(ps.subrange(0, i + 1).drop_last() =~= ps.subrange(0, i as int));
            assert(ps.subrange(0, i + 1).last() == ps[i as int]);
            assert(nodes_view(out@) =~= nodes_view(old(out)@) + props_policy_nodes(ps.subrange(0, i + 1), depth as int));
        }
        i = i + 1;
    }
    assert(ps.subrange(0, ps.len() as int) =~= ps);
}


// -- ingestion ---------------------------------------------------------------

/// One ingested policy, plus everything the adapter had to take verbatim,
/// guess, or drop on the way.
#[derive(Debug, PartialEq, Eq)]
pub struct Ingested {
    pub policy: WirePolicy,
    pub warnings: Vec<String>,
}

/// The expanded tree after both normalizations: inverse properties
/// internalized, then compound rules split.
pub open spec fn normalized(n: NodeV) -> NodeV {
    compound_tree(internalized(n), 0)
}

/// The warnings the two normalizations raise, in order.
pub open spec fn normalize_warnings(n: NodeV) -> Seq<Seq<char>> {
    internalized_warnings(n) + compound_warnings(internalized(n), 0)
}

/// The id a listed policy node is named by.
pub open spec fn listed_id(n: NodeV) -> Seq<char> {
    match n.id {
        Some(i) => i,
        None => "<no @id>"@,
    }
}

/// What ingesting an expanded tree `n` with expansion warnings `ws` gives:
/// the single policy node's value and every warning, or why not.
pub open spec fn ingest_of(n: NodeV, ws: Seq<Seq<char>>) -> Result<(PolicyV, Seq<Seq<char>>), IngestErrorV> {
    let found = policy_nodes(normalized(n), 0);
    if found.len() == 0 {
        Err(IngestErrorV::NoPolicyNode)
    } else if found.len() > 1 {
        Err(IngestErrorV::SeveralPolicyNodes(Seq::new(found.len(), |i: int| listed_id(found[i]))))
    } else {
        match policy_of(found[0]) {
            Err(e) => Err(e),
            Ok((p, w)) => Ok((p, ws + normalize_warnings(n) + w)),
        }
    }
}

/// Every policy node found has a policy class.
pub proof fn lemma_policy_nodes_are_policies(n: NodeV, depth: int)
    ensures
        forall|i: int| 0 <= i < policy_nodes(n, depth).len() ==> is_policy_node(#[trigger] policy_nodes(n, depth)[i]),
    decreases 10 - depth, 2nat, 0nat,
{
    if depth <= 8 && depth >= 0 {
        if is_policy_node(n) {
            assert(policy_nodes(n, depth) == seq![n]);
            assert(policy_nodes(n, depth)[0] == n);
        } else {
            lemma_props_policy_nodes(n.props, depth);
            assert(policy_nodes(n, depth) == props_policy_nodes(n.props, depth));
            assert forall|i: int| 0 <= i < policy_nodes(n, depth).len() implies is_policy_node(#[trigger] policy_nodes(n, depth)[i]) by {
                assert(policy_nodes(n, depth)[i] == props_policy_nodes(n.props, depth)[i]);
            }
        }
    }
}

pub proof fn lemma_props_policy_nodes(ps: Seq<(Seq<char>, Seq<ExpandedV>)>, depth: int)
    ensures
        forall|i: int| 0 <= i < props_policy_nodes(ps, depth).len() ==> is_policy_node(#[trigger] props_policy_nodes(ps, depth)[i]),
    decreases 10 - depth, 1nat, ps.len(),
{
    if depth <= 8 && depth >= 0 && ps.len() > 0 {
        lemma_props_policy_nodes(ps.drop_last(), depth);
        lemma_vals_policy_nodes(ps.last().1, depth);
        let a = props_policy_nodes(ps.drop_last(), depth);
        let b = vals_policy_nodes(ps.last().1, depth);
        assert forall|i: int| 0 <= i < (a + b).len() implies is_policy_node(#[trigger] (a + b)[i]) by {
            if i < a.len() {
                assert((a + b)[i] == a[i]);
            } else {
                assert((a + b)[i] == b[i - a.len()]);
            }
        }
    }
}

pub proof fn lemma_vals_policy_nodes(vs: Seq<ExpandedV>, depth: int)
    ensures
        forall|i: int| 0 <= i < vals_policy_nodes(vs, depth).len() ==> is_policy_node(#[trigger] vals_policy_nodes(vs, depth)[i]),
    decreases 10 - depth, 0nat, vs.len(),
{
    if depth <= 8 && depth >= 0 && vs.len() > 0 {
        lemma_vals_policy_nodes(vs.drop_last(), depth);
        let a = vals_policy_nodes(vs.drop_last(), depth);
        let b = match vs.last() {
            ExpandedV::Node(c) => policy_nodes(c, depth + 1),
            _ => Seq::empty(),
        };
        if let ExpandedV::Node(c) = vs.last() {
            lemma_policy_nodes_are_policies(c, depth + 1);
        }
        assert forall|i: int| 0 <= i < (a + b).len() implies is_policy_node(#[trigger] (a + b)[i]) by {
            if i < a.len() {
                assert((a + b)[i] == a[i]);
            } else {
                assert((a + b)[i] == b[i - a.len()]);
            }
        }
    }
}

/// Ingests an expanded document: normalizes it, finds the one node typed
/// as an ODRL policy class, and maps it. No such node, or several, is an
/// error naming them.
pub fn ingest_expansion(expansion: Expansion) -> (r: Result<Ingested, IngestError>)
    ensures
        match ingest_of(expansion.node@, strings_view(expansion.warnings@)) {
            Err(e) => r is Err && r->Err_0@ == e,
            Ok((p, ws)) => r is Ok && policy_is(r->Ok_0.policy, p) && strings_view(r->Ok_0.warnings@) == ws,
        },
{
    let mut node = expansion.node;
    let mut warnings = expansion.warnings;
    let ghost n0 = node@;
    internalize_inverse_properties(&mut node, &mut warnings);
    expand_compound_rules(&mut node, &mut warnings);
    let mut found: Vec<Node> = Vec::new();
    collect_policy_nodes(&node, 0, &mut found);
    assert(nodes_view(found@) =~= policy_nodes(normalized(n0), 0));
    if found.len() == 0 {
        return Err(IngestError::NoPolicyNode);
    }
    if found.len() > 1 {
        let mut ids: Vec<String> = Vec::new();
        let mut i: usize = 0;
        while i < found.len()
            invariant
                i <= found@.len(),
                ids@.len() == i,
                forall|k: int| 0 <= k < i ==> (#[trigger] ids@[k])@ == listed_id(found@[k]@),
            decreases found.len() - i,
        {
            proof { crate::jsonld::lemma_node_view(found@[i as int]); }
            let id = match &found[i].id {
                Some(x) => x.clone(),
                None => owned("<no @id>"),
            };
            ids.push(id);
            i = i + 1;
        }
        let e = IngestError::SeveralPolicyNodes(ids);
        proof {
            let found_v = policy_nodes(normalized(n0), 0);
            assert(e@ == IngestErrorV::SeveralPolicyNodes(Seq::new(ids@.len(), |k: int| ids@[k]@)));
            assert(Seq::new(ids@.len(), |k: int| ids@[k]@) =~= Seq::new(found_v.len(), |k: int| listed_id(found_v[k])));
        }
        return Err(e);
    }
    proof {
        lemma_policy_nodes_are_policies(normalized(n0), 0);
        assert(found@[0]@ == policy_nodes(normalized(n0), 0)[0]);
    }
    match policy_from(&found[0], &mut warnings) {
        Ok(policy) => Ok(Ingested { policy, warnings }),
        Err(e) => Err(e),
    }
}


impl From<JsonLdError> for IngestError {
    fn from(e: JsonLdError) -> (r: IngestError) {
        match e {
            JsonLdError::UnknownContext(url) => IngestError::UnknownContext(url),
            JsonLdError::MalformedContext(what) => IngestError::MalformedContext(what),
            JsonLdError::NotANodeObject => IngestError::NotANodeObject,
        }
    }
}

impl vstd::std_specs::convert::FromSpecImpl<JsonLdError> for IngestError {
    open spec fn obeys_from_spec() -> bool {
        true
    }

    open spec fn from_spec(e: JsonLdError) -> IngestError {
        match e {
            JsonLdError::UnknownContext(url) => IngestError::UnknownContext(url),
            JsonLdError::MalformedContext(what) => IngestError::MalformedContext(what),
            JsonLdError::NotANodeObject => IngestError::NotANodeObject,
        }
    }
}

/// An expansion error, as an ingest error of the same name.
pub open spec fn jsonld_error_of(e: JsonLdErrorV) -> IngestErrorV {
    match e {
        JsonLdErrorV::UnknownContext(url) => IngestErrorV::UnknownContext(url),
        JsonLdErrorV::MalformedContext(what) => IngestErrorV::MalformedContext(what),
        JsonLdErrorV::NotANodeObject => IngestErrorV::NotANodeObject,
    }
}

/// What ingesting a parsed document gives under a context registry.
pub open spec fn ingest_value_of(doc: JsonV, reg: Seq<(Seq<char>, Seq<char>)>) -> Result<(PolicyV, Seq<Seq<char>>), IngestErrorV> {
    match expand_of(doc, reg) {
        Err(e) => Err(jsonld_error_of(e)),
        Ok(x) => ingest_of(x.node, x.warnings),
    }
}

/// What ingesting a document's text gives: the parser's error, or the
/// ingestion of the parsed value.
pub open spec fn ingest_text_of(text: Seq<char>, reg: Seq<(Seq<char>, Seq<char>)>) -> Result<(PolicyV, Seq<Seq<char>>), IngestErrorV> {
    match parsed_json(text) {
        Err(m) => Err(IngestErrorV::Json(m)),
        Ok(doc) => ingest_value_of(doc, reg),
    }
}

/// Ingests a parsed DSP contract offer/agreement document (or a bare ODRL
/// policy document), context references resolving against `reg`.
pub fn ingest_policy_value(doc: &Json, reg: &ContextRegistry) -> (r: Result<Ingested, IngestError>)
    ensures
        match ingest_value_of(doc@, reg_view(*reg)) {
            Err(e) => r is Err && r->Err_0@ == e,
            Ok((p, ws)) => r is Ok && policy_is(r->Ok_0.policy, p) && strings_view(r->Ok_0.warnings@) == ws,
        },
{
    match expand(doc, reg) {
        Ok(x) => ingest_expansion(x),
        Err(e) => {
            let r = IngestError::from(e);
            Err(r)
        },
    }
}

/// Ingests the ODRL policy carried by one DSP contract document given as
/// text into the engine's `WirePolicy`.
pub fn ingest_policy(json: &str, reg: &ContextRegistry) -> (r: Result<Ingested, IngestError>)
    ensures
        match ingest_text_of(json@, reg_view(*reg)) {
            Err(e) => r is Err && r->Err_0@ == e,
            Ok((p, ws)) => r is Ok && policy_is(r->Ok_0.policy, p) && strings_view(r->Ok_0.warnings@) == ws,
        },
{
    match parse_json(json) {
        Ok(doc) => ingest_policy_value(&doc, reg),
        Err(m) => Err(IngestError::Json(m)),
    }
}


// -- configuration and request ------------------------------------------------

/// Lexicographic order of character sequences (by code point), the order
/// a sorted set of strings iterates in.
pub open spec fn lex_lt(a: Seq<char>, b: Seq<char>) -> bool
    decreases a.len(),
{
    if b.len() == 0 {
        false
    } else if a.len() == 0 {
        true
    } else if a[0] != b[0] {
        (a[0] as int) < (b[0] as int)
    } else {
        lex_lt(a.drop_first(), b.drop_first())
    }
}

pub proof fn lemma_lex_lt_irreflexive(a: Seq<char>)
    ensures
        !lex_lt(a, a),
    decreases a.len(),
{
    if a.len() > 0 {
        lemma_lex_lt_irreflexive(a.drop_first());
    }
}

pub proof fn lemma_lex_lt_transitive(a: Seq<char>, b: Seq<char>, c: Seq<char>)
    requires
        lex_lt(a, b),
        lex_lt(b, c),
    ensures
        lex_lt(a, c),
    decreases a.len(),
{
    if a.len() > 0 && b.len() > 0 && c.len() > 0 && a[0] == b[0] && b[0] == c[0] {
        lemma_lex_lt_transitive(a.drop_first(), b.drop_first(), c.drop_first());
    }
}

pub proof fn lemma_lex_lt_total(a: Seq<char>, b: Seq<char>)
    ensures
        a == b || lex_lt(a, b) || lex_lt(b, a),
    decreases a.len(),
{
    if a.len() == 0 && b.len() == 0 {
        assert(a =~= b);
    }
    if a.len() > 0 && b.len() > 0 && a[0] != b[0] {
        assert((a[0] as int) != (b[0] as int));
    }
    if a.len() > 0 && b.len() > 0 && a[0] == b[0] {
        lemma_lex_lt_total(a.drop_first(), b.drop_first());
        if a.drop_first() == b.drop_first() {
            assert(a.drop_first().len() == b.drop_first().len());
            assert(a.len() == b.len());
            assert forall|i: int| 0 <= i < a.len() implies a[i] == b[i] by {
                if i > 0 {
                    assert(a[i] == a.drop_first()[i - 1]);
                    assert(b[i] == b.drop_first()[i - 1]);
                }
            }
            assert(a =~= b);
        }
    }
}

/// `a` sorts strictly before `b`.
pub fn str_lt(a: &str, b: &str) -> (r: bool)
    ensures
        r == lex_lt(a@, b@),
{
    let av = chars_of(a);
    let bv = chars_of(b);
    let mut i: usize = 0;
    assert(a@.subrange(0, a@.len() as int) =~= a@);
    assert(b@.subrange(0, b@.len() as int) =~= b@);
    while i < av.len() && i < bv.len()
        invariant
            av@ == a@,
            bv@ == b@,
            i <= av@.len(),
            i <= bv@.len(),
            lex_lt(a@, b@) == lex_lt(a@.subrange(i as int, a@.len() as int), b@.subrange(i as int, b@.len() as int)),
        decreases av.len() - i,
    {
        let x = av[i];
        let y = bv[i];
        proof {
            let sa = a@.subrange(i as int, a@.len() as int);
            let sb = b@.subrange(i as int, b@.len() as int);
            assert(sa[0] == x);
            assert(sb[0] == y);
            assert(sa.drop_first() =~= a@.subrange(i + 1, a@.len() as int));
            assert(sb.drop_first() =~= b@.subrange(i + 1, b@.len() as int));
        }
        if x != y {
            return x < y;
        }
        i = i + 1;
    }
    i == av.len() && i < bv.len()
}

/// Every action the rules of `p` name, permissions then prohibitions then
/// obligations.
pub open spec fn policy_actions(p: WirePolicy) -> Seq<Seq<char>> {
    rule_actions(p.permissions@) + rule_actions(p.prohibitions@) + rule_actions(p.obligations@)
}

/// Strictly increasing in lexicographic order.
pub open spec fn strictly_sorted(s: Seq<Seq<char>>) -> bool {
    forall|i: int, j: int| 0 <= i < j < s.len() ==> lex_lt(#[trigger] s[i], #[trigger] s[j])
}

/// Inserts `x` into the strictly sorted `v`, unless it is there already.
pub fn insert_sorted(v: &mut Vec<String>, x: &str)
    requires
        strictly_sorted(strings_view(old(v)@)),
    ensures
        strictly_sorted(strings_view(final(v)@)),
        strings_view(final(v)@).to_set() == strings_view(old(v)@).to_set().insert(x@),
{
    let ghost s0 = strings_view(v@);
    let mut i: usize = 0;
    while i < v.len()
        invariant
            i <= v@.len(),
            v@ == old(v)@,
            s0 == strings_view(v@),
            strictly_sorted(s0),
            forall|k: int| 0 <= k < i ==> lex_lt(#[trigger] s0[k], x@),
        ensures
            i <= s0.len(),
            v@ == old(v)@,
            s0 == strings_view(v@),
            forall|k: int| 0 <= k < i ==> lex_lt(#[trigger] s0[k], x@),
            i < s0.len() ==> lex_lt(x@, s0[i as int]),
        decreases v.len() - i,
    {
        if str_eq(v[i].as_str(), x) {
            proof {
                assert(s0[i as int] == x@);
                assert(s0.to_set().insert(x@) =~= s0.to_set());
            }
            return;
        }
        if str_lt(x, v[i].as_str()) {
            break;
        }
        proof {
            lemma_lex_lt_total(s0[i as int], x@);
        }
        i = i + 1;
    }
    v.insert(i, owned(x));
    proof {
        let s1 = strings_view(v@);
        assert(s1 =~= s0.subrange(0, i as int).push(x@) + s0.subrange(i as int, s0.len() as int));
        assert forall|a: int, b: int| 0 <= a < b < s1.len() implies lex_lt(#[trigger] s1[a], #[trigger] s1[b]) by {
            if b < i {
                assert(s1[a] == s0[a] && s1[b] == s0[b]);
            } else if b == i {
                assert(s1[a] == s0[a] && s1[b] == x@);
            } else if a < i {
                assert(s1[a] == s0[a] && s1[b] == s0[b - 1]);
                assert(lex_lt(s0[a], x@));
                assert(lex_lt(x@, s0[i as int]));
                lemma_lex_lt_transitive(s0[a], x@, s0[i as int]);
                if b - 1 > i {
                    lemma_lex_lt_transitive(s0[a], s0[i as int], s0[b - 1]);
                }
            } else if a == i {
                assert(s1[a] == x@ && s1[b] == s0[b - 1]);
                if b - 1 > i {
                    lemma_lex_lt_transitive(x@, s0[i as int], s0[b - 1]);
                }
            } else {
                assert(s1[a] == s0[a - 1] && s1[b] == s0[b - 1]);
            }
        }
        assert forall|y: Seq<char>| s1.to_set().contains(y) == s0.to_set().insert(x@).contains(y) by {
            if s1.to_set().contains(y) {
                let k = choose|k: int| 0 <= k < s1.len() && s1[k] == y;
                if k < i {
                    assert(s0[k] == y);
                } else if k > i {
                    assert(s0[k - 1] == y);
                }
            }
            if s0.to_set().contains(y) {
                let k = choose|k: int| 0 <= k < s0.len() && s0[k] == y;
                if k < i {
                    assert(s1[k] == y);
                } else {
                    assert(s1[k + 1] == y);
                }
            }
            if y == x@ {
                assert(s1[i as int] == y);
            }
        }
        assert(s1.to_set() =~= s0.to_set().insert(x@));
    }
}

/// The actions of a list of rules.
pub open spec fn rule_actions(rs: Seq<Rule>) -> Seq<Seq<char>> {
    Seq::new(rs.len(), |i: int| rs[i].action@)
}

/// Inserts every action of `rules` into the strictly sorted `out`.
fn insert_actions(out: &mut Vec<String>, rules: &Vec<Rule>)
    requires
        strictly_sorted(strings_view(old(out)@)),
    ensures
        strictly_sorted(strings_view(final(out)@)),
        strings_view(final(out)@).to_set() == strings_view(old(out)@).to_set() + rule_actions(rules@).to_set(),
{
    let ghost acts = rule_actions(rules@);
    let mut k: usize = 0;
    assert(strings_view(out@).to_set() =~= strings_view(old(out)@).to_set() + acts.subrange(0, 0).to_set());
    while k < rules.len()
        invariant
            k <= rules@.len(),
            acts == rule_actions(rules@),
            strictly_sorted(strings_view(out@)),
            strings_view(out@).to_set() == strings_view(old(out)@).to_set() + acts.subrange(0, k as int).to_set(),
        decreases rules.len() - k,
    {
        insert_sorted(out, rules[k].action.as_str());
        proof {
            assert(acts.subrange(0, k + 1) =~= acts.subrange(0, k as int).push(acts[k as int]));
            acts.subrange(0, k as int).lemma_push_to_set_commute(acts[k as int]);
            assert(strings_view(out@).to_set() =~= strings_view(old(out)@).to_set() + acts.subrange(0, k + 1).to_set());
        }
        k = k + 1;
    }
    assert(acts.subrange(0, acts.len() as int) =~= acts);
}

pub proof fn lemma_concat_to_set(a: Seq<Seq<char>>, b: Seq<Seq<char>>)
    ensures
        (a + b).to_set() == a.to_set() + b.to_set(),
{
    assert forall|x: Seq<char>| (a + b).to_set().contains(x) == (a.to_set() + b.to_set()).contains(x) by {
        if (a + b).to_set().contains(x) {
            let k = choose|k: int| 0 <= k < (a + b).len() && (a + b)[k] == x;
            if k < a.len() {
                assert(a[k] == x);
            } else {
                assert(b[k - a.len()] == x);
            }
        }
        if a.to_set().contains(x) {
            let k = choose|k: int| 0 <= k < a.len() && a[k] == x;
            assert((a + b)[k] == x);
        }
        if b.to_set().contains(x) {
            let k = choose|k: int| 0 <= k < b.len() && b[k] == x;
            assert((a + b)[a.len() + k] == x);
        }
    }
    assert((a + b).to_set() =~= a.to_set() + b.to_set());
}

/// The distinct actions the rules of `policy` name, in sorted order.
fn sorted_actions(policy: &WirePolicy) -> (r: Vec<String>)
    ensures
        strictly_sorted(strings_view(r@)),
        strings_view(r@).to_set() == policy_actions(*policy).to_set(),
{
    let mut out: Vec<String> = Vec::new();
    assert(strings_view(out@).to_set() =~= Set::<Seq<char>>::empty());
    insert_actions(&mut out, &policy.permissions);
    insert_actions(&mut out, &policy.prohibitions);
    insert_actions(&mut out, &policy.obligations);
    proof {
        let a = rule_actions(policy.permissions@);
        let b = rule_actions(policy.prohibitions@);
        let c = rule_actions(policy.obligations@);
        assert(policy_actions(*policy) == a + b + c);
        lemma_concat_to_set(a, b);
        lemma_concat_to_set(a + b, c);
        assert(strings_view(out@).to_set() =~= policy_actions(*policy).to_set());
    }
    out
}

/// The configuration's declared actions, as ids.
pub open spec fn decl_ids(v: Seq<WireActionDecl>) -> Seq<Seq<char>> {
    Seq::new(v.len(), |i: int| v[i].id@)
}

/// The floor configuration of `policy`: each action its rules name,
/// declared once, sorted, with no `odrl:includedIn`; party-role scoping off.
pub open spec fn is_minimal_config(r: RequestConfig, policy: WirePolicy, duty_mode: DutyMode, behaviour: Behaviour) -> bool {
    &&& r.type_@ == "odrl:Profile"@
    &&& r.id@ == "urn:dsp-odrl-adapter:minimal-config"@
    &&& strictly_sorted(decl_ids(r.actions@))
    &&& decl_ids(r.actions@).to_set() == policy_actions(policy).to_set()
    &&& forall|i: int| 0 <= i < r.actions@.len() ==> (#[trigger] r.actions@[i]).included_in is None
    &&& r.duty_mode == duty_mode
    &&& r.behaviour == behaviour
    &&& r.party_identity_claim is None
    &&& r.agreement_assignee_claim is None
}

/// A floor configuration for an ingested policy: every action its rules
/// name, each declared once in sorted order with no `odrl:includedIn`, so
/// the engine does not answer Error for a vocabulary gap. It is no
/// substitute for a real ODRL profile.
pub fn minimal_config(policy: &WirePolicy, duty_mode: DutyMode, behaviour: Behaviour) -> (r: RequestConfig)
    ensures
        is_minimal_config(r, *policy, duty_mode, behaviour),
{
    let ids = sorted_actions(policy);
    let mut actions: Vec<WireActionDecl> = Vec::new();
    let mut i: usize = 0;
    while i < ids.len()
        invariant
            i <= ids@.len(),
            actions@.len() == i,
            forall|k: int| 0 <= k < i ==> (#[trigger] actions@[k]).id@ == ids@[k]@ && actions@[k].included_in is None,
        decreases ids.len() - i,
    {
        actions.push(WireActionDecl { id: ids[i].clone(), included_in: None });
        i = i + 1;
    }
    assert(decl_ids(actions@) =~= strings_view(ids@));
    RequestConfig {
        type_: owned("odrl:Profile"),
        id: owned("urn:dsp-odrl-adapter:minimal-config"),
        actions,
        duty_mode,
        behaviour,
        party_identity_claim: None,
        agreement_assignee_claim: None,
    }
}


fn copy_constraint_list(owner: &Constraint, which: u8) -> (r: Vec<Constraint>)
    ensures
        cviews(r@) == cviews(if which == 0 { owner.and@ } else if which == 1 { owner.or@ } else if which == 2 { owner.xone@ } else { owner.and_sequence@ }),
    decreases *owner, 0nat,
{
    let v = if which == 0 { &owner.and } else if which == 1 { &owner.or } else if which == 2 { &owner.xone } else { &owner.and_sequence };
    let mut r: Vec<Constraint> = Vec::new();
    let mut j: usize = 0;
    while j < v.len()
        invariant
            *v == if which == 0 { owner.and } else if which == 1 { owner.or } else if which == 2 { owner.xone } else { owner.and_sequence },
            j <= v@.len(),
            r@.len() == j,
            forall|x: int| 0 <= x < j ==> (#[trigger] r@[x])@ == v@[x]@,
        decreases v.len() - j,
    {
        proof {
            if which == 0 {
                assert(decreases_to!(*owner => owner.and@[j as int]));
            } else if which == 1 {
                assert(decreases_to!(*owner => owner.or@[j as int]));
            } else if which == 2 {
                assert(decreases_to!(*owner => owner.xone@[j as int]));
            } else {
                assert(decreases_to!(*owner => owner.and_sequence@[j as int]));
            }
        }
        r.push(copy_constraint(&v[j]));
        j = j + 1;
    }
    assert(cviews(r@) =~= cviews(v@));
    r
}

/// A deep copy of `c`.
pub fn copy_constraint(c: &Constraint) -> (r: Constraint)
    ensures
        r@ == c@,
    decreases *c, 1nat,
{
    let and = copy_constraint_list(c, 0);
    let or = copy_constraint_list(c, 1);
    let xone = copy_constraint_list(c, 2);
    let and_sequence = copy_constraint_list(c, 3);
    let r = Constraint { left_operand: c.left_operand.clone(), operator: c.operator, right_operand: c.right_operand.clone(), and, or, xone, and_sequence };
    proof {
        assert(cviews(r.and@) == cviews(c.and@));
        assert(cviews(r.and@).len() == r.and@.len());
        assert(cviews(c.and@).len() == c.and@.len());
        assert(r@.and =~= c@.and) by {
            assert forall|i: int| 0 <= i < r@.and.len() implies r@.and[i] == c@.and[i] by {
                assert(cviews(r.and@)[i] == cviews(c.and@)[i]);
            }
        }
        assert(cviews(r.or@) == cviews(c.or@));
        assert(cviews(r.or@).len() == r.or@.len());
        assert(cviews(c.or@).len() == c.or@.len());
        assert(r@.or =~= c@.or) by {
            assert forall|i: int| 0 <= i < r@.or.len() implies r@.or[i] == c@.or[i] by {
                assert(cviews(r.or@)[i] == cviews(c.or@)[i]);
            }
        }
        assert(cviews(r.xone@) == cviews(c.xone@));
        assert(cviews(r.xone@).len() == r.xone@.len());
        assert(cviews(c.xone@).len() == c.xone@.len());
        assert(r@.xone =~= c@.xone) by {
            assert forall|i: int| 0 <= i < r@.xone.len() implies r@.xone[i] == c@.xone[i] by {
                assert(cviews(r.xone@)[i] == cviews(c.xone@)[i]);
            }
        }
        assert(cviews(r.and_sequence@) == cviews(c.and_sequence@));
        assert(cviews(r.and_sequence@).len() == r.and_sequence@.len());
        assert(cviews(c.and_sequence@).len() == c.and_sequence@.len());
        assert(r@.and_sequence =~= c@.and_sequence) by {
            assert forall|i: int| 0 <= i < r@.and_sequence.len() implies r@.and_sequence[i] == c@.and_sequence[i] by {
                assert(cviews(r.and_sequence@)[i] == cviews(c.and_sequence@)[i]);
            }
        }
    }
    r
}

fn copy_constraints(v: &Vec<Constraint>) -> (r: Vec<Constraint>)
    ensures
        cviews(r@) == cviews(v@),
{
    let mut r: Vec<Constraint> = Vec::new();
    let mut j: usize = 0;
    while j < v.len()
        invariant
            j <= v@.len(),
            r@.len() == j,
            forall|x: int| 0 <= x < j ==> (#[trigger] r@[x])@ == v@[x]@,
        decreases v.len() - j,
    {
        r.push(copy_constraint(&v[j]));
        j = j + 1;
    }
    assert(cviews(r@) =~= cviews(v@));
    r
}

fn copy_rule_list(owner: &Rule, remedies: bool) -> (r: Vec<Rule>)
    ensures
        rviews(r@) == rviews(if remedies { owner.remedy@ } else { owner.duty@ }),
    decreases *owner, 0nat,
{
    let v = if remedies { &owner.remedy } else { &owner.duty };
    let mut r: Vec<Rule> = Vec::new();
    let mut j: usize = 0;
    while j < v.len()
        invariant
            *v == if remedies { owner.remedy } else { owner.duty },
            j <= v@.len(),
            r@.len() == j,
            forall|x: int| 0 <= x < j ==> (#[trigger] r@[x])@ == v@[x]@,
        decreases v.len() - j,
    {
        proof {
            if remedies {
                assert(decreases_to!(*owner => owner.remedy@[j as int]));
            } else {
                assert(decreases_to!(*owner => owner.duty@[j as int]));
            }
        }
        r.push(copy_rule(&v[j]));
        j = j + 1;
    }
    assert(rviews(r@) =~= rviews(v@));
    r
}

/// A deep copy of `rule`.
pub fn copy_rule(rule: &Rule) -> (r: Rule)
    ensures
        r@ == rule@,
    decreases *rule, 1nat,
{
    let duty = copy_rule_list(rule, false);
    let remedy = copy_rule_list(rule, true);
    let consequence = match &rule.consequence {
        Some(b) => {
            assert(decreases_to!(*rule => **b));
            Some(Box::new(copy_rule(b)))
        },
        None => None,
    };
    let r = Rule {
        action: rule.action.clone(),
        target: match &rule.target {
            Some(t) => Some(t.clone()),
            None => None,
        },
        constraints: copy_constraints(&rule.constraints),
        action_refinement: match &rule.action_refinement {
            Some(c) => Some(Box::new(copy_constraint(c))),
            None => None,
        },
        duty,
        remedy,
        consequence,
    };
    proof {
        assert(rviews(r.duty@) == rviews(rule.duty@));
        assert(rviews(r.duty@).len() == r.duty@.len());
        assert(rviews(rule.duty@).len() == rule.duty@.len());
        assert(r@.duty =~= rule@.duty) by {
            assert forall|i: int| 0 <= i < r@.duty.len() implies r@.duty[i] == rule@.duty[i] by {
                assert(rviews(r.duty@)[i] == rviews(rule.duty@)[i]);
            }
        }
        assert(rviews(r.remedy@) == rviews(rule.remedy@));
        assert(rviews(r.remedy@).len() == r.remedy@.len());
        assert(rviews(rule.remedy@).len() == rule.remedy@.len());
        assert(r@.remedy =~= rule@.remedy) by {
            assert forall|i: int| 0 <= i < r@.remedy.len() implies r@.remedy[i] == rule@.remedy[i] by {
                assert(rviews(r.remedy@)[i] == rviews(rule.remedy@)[i]);
            }
        }
    }
    r
}

fn copy_rules(v: &Vec<Rule>) -> (r: Vec<Rule>)
    ensures
        rviews(r@) == rviews(v@),
{
    let mut r: Vec<Rule> = Vec::new();
    let mut j: usize = 0;
    while j < v.len()
        invariant
            j <= v@.len(),
            r@.len() == j,
            forall|x: int| 0 <= x < j ==> (#[trigger] r@[x])@ == v@[x]@,
        decreases v.len() - j,
    {
        r.push(copy_rule(&v[j]));
        j = j + 1;
    }
    assert(rviews(r@) =~= rviews(v@));
    r
}

/// Two wire policies with the same value.
pub open spec fn same_policy(a: WirePolicy, b: WirePolicy) -> bool {
    &&& a.id@ == b.id@
    &&& a.kind@ == b.kind@
    &&& a.assigner@ == b.assigner@
    &&& (match a.assignee { Some(x) => Some(x@), None => None }) == (match b.assignee { Some(x) => Some(x@), None => None })
    &&& rviews(a.permissions@) == rviews(b.permissions@)
    &&& rviews(a.prohibitions@) == rviews(b.prohibitions@)
    &&& rviews(a.obligations@) == rviews(b.obligations@)
    &&& a.conflict == b.conflict
    &&& (match a.inherit_from { Some(v) => Some(strings_view(v@)), None => None })
        == (match b.inherit_from { Some(v) => Some(strings_view(v@)), None => None })
}

/// A deep copy of `p`.
pub fn copy_policy(p: &WirePolicy) -> (r: WirePolicy)
    ensures
        same_policy(r, *p),
{
    let inherit_from = match &p.inherit_from {
        Some(v) => {
            let mut c: Vec<String> = Vec::new();
            let mut j: usize = 0;
            while j < v.len()
                invariant
                    j <= v@.len(),
                    strings_view(c@) == strings_view(v@.subrange(0, j as int)),
                decreases v.len() - j,
            {
                c.push(v[j].clone());
                assert(strings_view(v@.subrange(0, j + 1)) =~= strings_view(v@.subrange(0, j as int)).push(v@[j as int]@));
                j = j + 1;
            }
            assert(v@.subrange(0, v@.len() as int) =~= v@);
            Some(c)
        },
        None => None,
    };
    WirePolicy {
        id: p.id.clone(),
        kind: p.kind.clone(),
        assigner: p.assigner.clone(),
        assignee: match &p.assignee {
            Some(a) => Some(a.clone()),
            None => None,
        },
        permissions: copy_rules(&p.permissions),
        prohibitions: copy_rules(&p.prohibitions),
        obligations: copy_rules(&p.obligations),
        conflict: p.conflict,
        inherit_from,
    }
}

/// A complete Section 5.2 request around one ingested policy, under its
/// floor configuration. `dataset_id` is what each rule's own target is
/// matched against.
pub fn request_for(policy: &WirePolicy, dataset_id: &str, action: &str, claims: Claims, duty_mode: DutyMode, behaviour: Behaviour) -> (r: Request)
    ensures
        r.dataset_id@ == dataset_id@,
        r.action@ == action@,
        is_minimal_config(r.config, *policy, duty_mode, behaviour),
        r.policies@.len() == 1,
        same_policy(r.policies@[0], *policy),
        r.claims == claims,
        r.asset_collections@.len() == 0,
{
    let config = minimal_config(policy, duty_mode, behaviour);
    let policies = vec![copy_policy(policy)];
    Request {
        dataset_id: owned(dataset_id),
        action: owned(action),
        config,
        policies,
        claims,
        asset_collections: Vec::new(),
    }
}

} // verus!
