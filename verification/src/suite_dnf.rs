//! Disjunctive normal form of a test-suite constraint: an OR of
//! AND-conjunctions of atomic wire constraints. An `and` becomes several
//! constraints on one rule, an `or` several sibling rules; `xone` and any
//! operator outside the supported six are refused with a cited reason.

use vstd::prelude::*;
use vstd::string::*;
use crate::text::{str_eq, concat3, usize_string, decimal};
use crate::wire::{Constraint, Operator, operator_wire_name, lemma_operator_wire_name_chars};
use crate::suite_odrl::ConstraintForm;

verus! {

/// An atomic constraint's value: left operand, operator, right operand.
pub type Atom = (Seq<char>, Operator, Seq<char>);

/// The operator an `odrl:` local name stands for, among the six supported.
pub open spec fn operator_named(s: Seq<char>) -> Option<Operator> {
    if s == "eq"@ {
        Some(Operator::Eq)
    } else if s == "neq"@ {
        Some(Operator::Neq)
    } else if s == "lt"@ {
        Some(Operator::Lt)
    } else if s == "lteq"@ {
        Some(Operator::Lteq)
    } else if s == "gt"@ {
        Some(Operator::Gt)
    } else if s == "gteq"@ {
        Some(Operator::Gteq)
    } else {
        None
    }
}

/// A name selects a supported operator exactly when it is that
/// operator's wire name and the operator is one of the six comparisons
/// (`eq`, `neq`, `lt`, `lteq`, `gt`, `gteq`).
pub proof fn an_operator_name_selects_the_operator_so_named(s: Seq<char>, op: Operator)
    ensures
        operator_named(s) == Some(op) <==> (s == operator_wire_name(op) && (op is Eq || op is Neq || op is Lt
            || op is Lteq || op is Gt || op is Gteq)),
{
    lemma_operator_wire_name_chars();
}

pub open spec fn unsupported_operator_text(op: Seq<char>) -> Seq<char> {
    "constraint operator odrl:"@ + op
        + " has no equivalent in the Default Profile's eq/neq/isAnyOf/lt/lteq/gt/gteq set; Section 7: \"...isPartOf/range-membership beyond isAnyOf remain unimplemented in the Default Profile (Section 4.2)\"."@
}

pub open spec fn xone_unsupported_text(n: nat) -> Seq<char> {
    "constraint is an odrl:LogicalConstraint using odrl:xone over "@ + decimal(n)
        + " branch(es); this engine can express \"at least one\" via sibling permission rules (odrl:or) but not xone's \"exactly one, not more\" exclusivity, and nothing in this vendored corpus exercises it, so it is left genuinely unsupported rather than silently approximated as odrl:or."@
}

/// The skip reason for an unsupported operator.
pub fn unsupported_operator(op: &str) -> (r: String)
    ensures
        r@ == unsupported_operator_text(op@),
{
    concat3(
        "constraint operator odrl:",
        op,
        " has no equivalent in the Default Profile's eq/neq/isAnyOf/lt/lteq/gt/gteq set; Section 7: \"...isPartOf/range-membership beyond isAnyOf remain unimplemented in the Default Profile (Section 4.2)\".",
    )
}

/// The skip reason for an `odrl:xone` over `branch_count` branches.
pub fn xone_unsupported(branch_count: usize) -> (r: String)
    ensures
        r@ == xone_unsupported_text(branch_count as nat),
{
    let n = usize_string(branch_count);
    concat3(
        "constraint is an odrl:LogicalConstraint using odrl:xone over ",
        n.as_str(),
        " branch(es); this engine can express \"at least one\" via sibling permission rules (odrl:or) but not xone's \"exactly one, not more\" exclusivity, and nothing in this vendored corpus exercises it, so it is left genuinely unsupported rather than silently approximated as odrl:or.",
    )
}

/// The operator for a local name, or the skip reason.
pub fn resolve_operator(local: &str) -> (r: Result<Operator, String>)
    ensures
        match operator_named(local@) {
            Some(o) => r == Ok::<Operator, String>(o),
            None => r is Err && r->Err_0@ == unsupported_operator_text(local@),
        },
{
    if str_eq(local, "eq") {
        Ok(Operator::Eq)
    } else if str_eq(local, "neq") {
        Ok(Operator::Neq)
    } else if str_eq(local, "lt") {
        Ok(Operator::Lt)
    } else if str_eq(local, "lteq") {
        Ok(Operator::Lteq)
    } else if str_eq(local, "gt") {
        Ok(Operator::Gt)
    } else if str_eq(local, "gteq") {
        Ok(Operator::Gteq)
    } else {
        Err(unsupported_operator(local))
    }
}

/// The number of children of a logical form.
pub open spec fn width(f: ConstraintForm) -> nat {
    match f {
        ConstraintForm::And(cs) => cs@.len(),
        ConstraintForm::Or(cs) => cs@.len(),
        ConstraintForm::Xone(cs) => cs@.len(),
        _ => 0,
    }
}

/// Each conjunction of `acc` extended by each of `d`, in order.
pub open spec fn cross(acc: Seq<Seq<Atom>>, d: Seq<Seq<Atom>>) -> Seq<Seq<Atom>>
    decreases acc.len(),
{
    if acc.len() == 0 {
        Seq::empty()
    } else {
        cross(acc.drop_last(), d) + row(acc.last(), d)
    }
}

/// `p` extended by each of `d`, in order.
pub open spec fn row(p: Seq<Atom>, d: Seq<Seq<Atom>>) -> Seq<Seq<Atom>> {
    Seq::new(d.len(), |i: int| p + d[i])
}

/// The DNF of `f`, or the first skip reason met in document order.
pub open spec fn dnf_of(f: ConstraintForm) -> Result<Seq<Seq<Atom>>, Seq<char>>
    decreases f, width(f) + 1,
{
    match f {
        ConstraintForm::Atomic { left_operand, operator, right_operand } => match operator_named(operator@) {
            Some(o) => Ok(seq![seq![(left_operand@, o, right_operand@)]]),
            None => Err(unsupported_operator_text(operator@)),
        },
        ConstraintForm::And(cs) => and_dnf(f, cs@.len() as int),
        ConstraintForm::Or(cs) => or_dnf(f, cs@.len() as int),
        ConstraintForm::Xone(cs) => Err(xone_unsupported_text(cs@.len())),
    }
}

/// The DNF of the conjunction of the first `n` children of the `and` `f`.
pub open spec fn and_dnf(f: ConstraintForm, n: int) -> Result<Seq<Seq<Atom>>, Seq<char>>
    decreases f, if n < 0 { 0 } else { n as nat },
{
    match f {
        ConstraintForm::And(cs) => if n <= 0 || n > cs@.len() {
            Ok(seq![Seq::empty()])
        } else {
            match and_dnf(f, n - 1) {
                Err(e) => Err(e),
                Ok(acc) => match dnf_of(cs@[n - 1]) {
                    Err(e) => Err(e),
                    Ok(d) => Ok(cross(acc, d)),
                },
            }
        },
        _ => Ok(seq![Seq::empty()]),
    }
}

/// The DNF of the disjunction of the first `n` children of the `or` `f`.
pub open spec fn or_dnf(f: ConstraintForm, n: int) -> Result<Seq<Seq<Atom>>, Seq<char>>
    decreases f, if n < 0 { 0 } else { n as nat },
{
    match f {
        ConstraintForm::Or(cs) => if n <= 0 || n > cs@.len() {
            Ok(Seq::empty())
        } else {
            match or_dnf(f, n - 1) {
                Err(e) => Err(e),
                Ok(acc) => match dnf_of(cs@[n - 1]) {
                    Err(e) => Err(e),
                    Ok(d) => Ok(acc + d),
                },
            }
        },
        _ => Ok(Seq::empty()),
    }
}

/// Once the conjunction of a prefix of children fails, every longer
/// prefix fails with the same reason.
pub proof fn lemma_and_err_persists(f: ConstraintForm, k: int, m: int)
    requires
        f is And,
        1 <= k <= m <= width(f),
        and_dnf(f, k) is Err,
    ensures
        and_dnf(f, m) == and_dnf(f, k),
    decreases m - k,
{
    if m > k {
        lemma_and_err_persists(f, k, m - 1);
    }
}

/// The same for disjunctions.
pub proof fn lemma_or_err_persists(f: ConstraintForm, k: int, m: int)
    requires
        f is Or,
        1 <= k <= m <= width(f),
        or_dnf(f, k) is Err,
    ensures
        or_dnf(f, m) == or_dnf(f, k),
    decreases m - k,
{
    if m > k {
        lemma_or_err_persists(f, k, m - 1);
    }
}

/// An atomic wire constraint.
pub open spec fn is_atom(c: Constraint) -> bool {
    c.and@.len() == 0 && c.or@.len() == 0 && c.xone@.len() == 0 && c.and_sequence@.len() == 0
}

/// The value of an atomic wire constraint.
pub open spec fn atom_of(c: Constraint) -> Atom {
    (c.left_operand@, c.operator, c.right_operand@)
}

/// The value of one conjunction.
pub open spec fn conj_view(v: Seq<Constraint>) -> Seq<Atom> {
    Seq::new(v.len(), |j: int| atom_of(v[j]))
}

/// The value of a DNF.
pub open spec fn dnf_view(v: Seq<Vec<Constraint>>) -> Seq<Seq<Atom>> {
    Seq::new(v.len(), |i: int| conj_view(v[i]@))
}

/// Every constraint of every conjunction is atomic.
pub open spec fn all_atoms(v: Seq<Vec<Constraint>>) -> bool {
    forall|i: int, j: int| 0 <= i < v.len() && 0 <= j < v[i]@.len() ==> is_atom(#[trigger] v[i]@[j])
}

fn copy_atom(c: &Constraint) -> (r: Constraint)
    requires
        is_atom(*c),
    ensures
        is_atom(r),
        atom_of(r) == atom_of(*c),
{
    Constraint::new(c.left_operand.clone(), c.operator, c.right_operand.clone())
}

/// `p` followed by `q`, copied.
fn join_conj(p: &Vec<Constraint>, q: &Vec<Constraint>) -> (r: Vec<Constraint>)
    requires
        forall|j: int| 0 <= j < p@.len() ==> is_atom(#[trigger] p@[j]),
        forall|j: int| 0 <= j < q@.len() ==> is_atom(#[trigger] q@[j]),
    ensures
        forall|j: int| 0 <= j < r@.len() ==> is_atom(#[trigger] r@[j]),
        conj_view(r@) == conj_view(p@) + conj_view(q@),
{
    let mut r: Vec<Constraint> = Vec::new();
    let mut i: usize = 0;
    while i < p.len()
        invariant
            i <= p@.len(),
            forall|j: int| 0 <= j < p@.len() ==> is_atom(#[trigger] p@[j]),
            r@.len() == i,
            forall|j: int| 0 <= j < i ==> is_atom(#[trigger] r@[j]) && atom_of(r@[j]) == atom_of(p@[j]),
        decreases p.len() - i,
    {
        r.push(copy_atom(&p[i]));
        i = i + 1;
    }
    let mut k: usize = 0;
    while k < q.len()
        invariant
            k <= q@.len(),
            forall|j: int| 0 <= j < q@.len() ==> is_atom(#[trigger] q@[j]),
            r@.len() == p@.len() + k,
            forall|j: int| 0 <= j < p@.len() ==> is_atom(#[trigger] r@[j]) && atom_of(r@[j]) == atom_of(p@[j]),
            forall|j: int| 0 <= j < k ==> is_atom(#[trigger] r@[p@.len() + j]) && atom_of(r@[p@.len() + j]) == atom_of(q@[j]),
        decreases q.len() - k,
    {
        r.push(copy_atom(&q[k]));
        k = k + 1;
    }
    proof {
        assert forall|j: int| 0 <= j < r@.len() implies is_atom(#[trigger] r@[j]) by {
            if j >= p@.len() {
                let x = j - p@.len();
                assert(r@[p@.len() + x] == r@[j]);
            }
        }
        assert forall|j: int| 0 <= j < r@.len() implies #[trigger] conj_view(r@)[j] == (conj_view(p@) + conj_view(q@))[j] by {
            if j >= p@.len() {
                let x = j - p@.len();
                assert(r@[p@.len() + x] == r@[j]);
            }
        }
        assert(conj_view(r@) =~= conj_view(p@) + conj_view(q@));
    }
    r
}

pub proof fn lemma_dnf_view_push(v: Seq<Vec<Constraint>>, x: Vec<Constraint>)
    ensures
        dnf_view(v.push(x)) == dnf_view(v).push(conj_view(x@)),
{
    assert(dnf_view(v.push(x)) =~= dnf_view(v).push(conj_view(x@)));
}

/// Each conjunction of `acc` extended by each of `d`.
fn cross_exec(acc: &Vec<Vec<Constraint>>, d: &Vec<Vec<Constraint>>) -> (r: Vec<Vec<Constraint>>)
    requires
        all_atoms(acc@),
        all_atoms(d@),
    ensures
        all_atoms(r@),
        dnf_view(r@) == cross(dnf_view(acc@), dnf_view(d@)),
{
    let mut r: Vec<Vec<Constraint>> = Vec::new();
    let mut a: usize = 0;
    while a < acc.len()
        invariant
            a <= acc@.len(),
            all_atoms(acc@),
            all_atoms(d@),
            all_atoms(r@),
            dnf_view(r@) == cross(dnf_view(acc@.subrange(0, a as int)), dnf_view(d@)),
        decreases acc.len() - a,
    {
        let ghost base = dnf_view(r@);
        let mut b: usize = 0;
        while b < d.len()
            invariant
                a < acc@.len(),
                b <= d@.len(),
                all_atoms(acc@),
                all_atoms(d@),
                all_atoms(r@),
                dnf_view(r@) == base + row(conj_view(acc@[a as int]@), dnf_view(d@).subrange(0, b as int)),
            decreases d.len() - b,
        {
            let c = join_conj(&acc[a], &d[b]);
            let ghost before = r@;
            r.push(c);
            proof {
                lemma_dnf_view_push(before, c);
                assert(row(conj_view(acc@[a as int]@), dnf_view(d@).subrange(0, b + 1))
                    =~= row(conj_view(acc@[a as int]@), dnf_view(d@).subrange(0, b as int)).push(
                        conj_view(acc@[a as int]@) + conj_view(d@[b as int]@)));
                assert(all_atoms(r@)) by {
                    assert forall|i: int, j: int| 0 <= i < r@.len() && 0 <= j < r@[i]@.len() implies is_atom(#[trigger] r@[i]@[j]) by {
                        if i < before.len() {
                            assert(r@[i] == before[i]);
                        }
                    }
                }
            }
            b = b + 1;
        }
        proof {
            let pre = dnf_view(acc@.subrange(0, a as int));
            let pre1 = dnf_view(acc@.subrange(0, a + 1));
            assert(pre1.drop_last() =~= pre);
            assert(pre1.last() == conj_view(acc@[a as int]@));
            assert(dnf_view(d@).subrange(0, d@.len() as int) =~= dnf_view(d@));
        }
        a = a + 1;
    }
    assert(acc@.subrange(0, acc@.len() as int) =~= acc@);
    r
}

/// Expands a constraint into disjunctive normal form: an OR of
/// AND-conjunctions, each a flat list of atomic constraints ready to
/// attach to one rule. An `and` distributes over its children's
/// disjunctions, an `or` concatenates them; `xone` and an unsupported
/// operator anywhere are the skip reason.
pub fn to_dnf(form: &ConstraintForm) -> (r: Result<Vec<Vec<Constraint>>, String>)
    ensures
        match dnf_of(*form) {
            Ok(d) => r is Ok && all_atoms(r->Ok_0@) && dnf_view(r->Ok_0@) == d,
            Err(e) => r is Err && r->Err_0@ == e,
        },
    decreases *form,
{
    match form {
        ConstraintForm::Atomic { left_operand, operator, right_operand } => {
            let op = match resolve_operator(operator.as_str()) {
                Ok(o) => o,
                Err(e) => return Err(e),
            };
            let c = Constraint::new(left_operand.clone(), op, right_operand.clone());
            let conj = vec![c];
            assert(conj_view(conj@) =~= seq![(left_operand@, op, right_operand@)]);
            let r = vec![conj];
            assert(dnf_view(r@) =~= seq![seq![(left_operand@, op, right_operand@)]]);
            Ok(r)
        },
        ConstraintForm::And(children) => {
            let mut conjunctions: Vec<Vec<Constraint>> = vec![Vec::new()];
            assert(conj_view(conjunctions@[0]@) =~= Seq::<Atom>::empty());
            assert(dnf_view(conjunctions@) =~= seq![Seq::<Atom>::empty()]);
            let mut i: usize = 0;
            while i < children.len()
                invariant
                    i <= children@.len(),
                    *form == ConstraintForm::And(*children),
                    all_atoms(conjunctions@),
                    and_dnf(*form, i as int) == Ok::<Seq<Seq<Atom>>, Seq<char>>(dnf_view(conjunctions@)),
                decreases children.len() - i,
            {
                assert(decreases_to!(*form => children@[i as int]));
                let child = match to_dnf(&children[i]) {
                    Ok(d) => d,
                    Err(e) => {
                        proof {
                            lemma_and_err_persists(*form, i as int + 1, children@.len() as int);
                        }
                        return Err(e);
                    },
                };
                let expanded = cross_exec(&conjunctions, &child);
                conjunctions = expanded;
                i = i + 1;
            }
            Ok(conjunctions)
        },
        ConstraintForm::Or(children) => {
            let mut disjuncts: Vec<Vec<Constraint>> = Vec::new();
            assert(dnf_view(disjuncts@) =~= Seq::<Seq<Atom>>::empty());
            let mut i: usize = 0;
            while i < children.len()
                invariant
                    i <= children@.len(),
                    *form == ConstraintForm::Or(*children),
                    all_atoms(disjuncts@),
                    or_dnf(*form, i as int) == Ok::<Seq<Seq<Atom>>, Seq<char>>(dnf_view(disjuncts@)),
                decreases children.len() - i,
            {
                assert(decreases_to!(*form => children@[i as int]));
                let mut child = match to_dnf(&children[i]) {
                    Ok(d) => d,
                    Err(e) => {
                        proof {
                            lemma_or_err_persists(*form, i as int + 1, children@.len() as int);
                        }
                        return Err(e);
                    },
                };
                let ghost (before, added) = (disjuncts@, child@);
                disjuncts.append(&mut child);
                proof {
                    assert(dnf_view(disjuncts@) =~= dnf_view(before) + dnf_view(added));
                    assert(all_atoms(disjuncts@)) by {
                        assert forall|x: int, j: int| 0 <= x < disjuncts@.len() && 0 <= j < disjuncts@[x]@.len()
                            implies is_atom(#[trigger] disjuncts@[x]@[j]) by {
                            if x < before.len() {
                                assert(disjuncts@[x] == before[x]);
                            } else {
                                assert(disjuncts@[x] == added[x - before.len()]);
                            }
                        }
                    }
                }
                i = i + 1;
            }
            Ok(disjuncts)
        },
        ConstraintForm::Xone(children) => Err(xone_unsupported(children.len())),
    }
}


/// Whether `f` holds when each atom `a` holds exactly when `env(a)`; an
/// unsupported operator never holds.
pub open spec fn holds(f: ConstraintForm, env: spec_fn(Atom) -> bool) -> bool
    decreases f, width(f) + 1,
{
    match f {
        ConstraintForm::Atomic { left_operand, operator, right_operand } => match operator_named(operator@) {
            Some(o) => env((left_operand@, o, right_operand@)),
            None => false,
        },
        ConstraintForm::And(cs) => all_hold(f, cs@.len() as int, env),
        ConstraintForm::Or(cs) => any_holds(f, cs@.len() as int, env),
        ConstraintForm::Xone(cs) => holding_count(f, cs@.len() as int, env) == 1,
    }
}

/// Whether each of the first `n` children of `f` holds.
pub open spec fn all_hold(f: ConstraintForm, n: int, env: spec_fn(Atom) -> bool) -> bool
    decreases f, if n < 0 { 0 } else { n as nat },
{
    match f {
        ConstraintForm::And(cs) => if n <= 0 || n > cs@.len() {
            true
        } else {
            all_hold(f, n - 1, env) && holds(cs@[n - 1], env)
        },
        _ => true,
    }
}

/// Whether one of the first `n` children of `f` holds.
pub open spec fn any_holds(f: ConstraintForm, n: int, env: spec_fn(Atom) -> bool) -> bool
    decreases f, if n < 0 { 0 } else { n as nat },
{
    match f {
        ConstraintForm::Or(cs) => if n <= 0 || n > cs@.len() {
            false
        } else {
            any_holds(f, n - 1, env) || holds(cs@[n - 1], env)
        },
        _ => false,
    }
}

/// How many of the first `n` children of `f` hold.
pub open spec fn holding_count(f: ConstraintForm, n: int, env: spec_fn(Atom) -> bool) -> int
    decreases f, if n < 0 { 0 } else { n as nat },
{
    match f {
        ConstraintForm::Xone(cs) => if n <= 0 || n > cs@.len() {
            0
        } else {
            holding_count(f, n - 1, env) + if holds(cs@[n - 1], env) { 1int } else { 0int }
        },
        _ => 0,
    }
}

/// Every atom of a conjunction holds.
pub open spec fn conj_holds(c: Seq<Atom>, env: spec_fn(Atom) -> bool) -> bool {
    forall|j: int| 0 <= j < c.len() ==> #[trigger] env(c[j])
}

/// Some conjunction of a DNF holds.
pub open spec fn dnf_holds(d: Seq<Seq<Atom>>, env: spec_fn(Atom) -> bool) -> bool {
    exists|i: int| 0 <= i < d.len() && #[trigger] conj_holds(d[i], env)
}

pub proof fn lemma_conj_concat(p: Seq<Atom>, q: Seq<Atom>, env: spec_fn(Atom) -> bool)
    ensures
        conj_holds(p + q, env) == (conj_holds(p, env) && conj_holds(q, env)),
{
    if conj_holds(p + q, env) {
        assert forall|j: int| 0 <= j < p.len() implies #[trigger] env(p[j]) by {
            assert((p + q)[j] == p[j]);
        }
        assert forall|j: int| 0 <= j < q.len() implies #[trigger] env(q[j]) by {
            assert((p + q)[p.len() + j] == q[j]);
        }
    }
    if conj_holds(p, env) && conj_holds(q, env) {
        assert forall|j: int| 0 <= j < (p + q).len() implies #[trigger] env((p + q)[j]) by {
            if j < p.len() {
                assert((p + q)[j] == p[j]);
            } else {
                assert((p + q)[j] == q[j - p.len()]);
            }
        }
    }
}

pub proof fn lemma_dnf_concat(a: Seq<Seq<Atom>>, d: Seq<Seq<Atom>>, env: spec_fn(Atom) -> bool)
    ensures
        dnf_holds(a + d, env) == (dnf_holds(a, env) || dnf_holds(d, env)),
{
    if dnf_holds(a + d, env) {
        let i = choose|i: int| 0 <= i < (a + d).len() && #[trigger] conj_holds((a + d)[i], env);
        if i < a.len() {
            assert((a + d)[i] == a[i]);
        } else {
            assert((a + d)[i] == d[i - a.len()]);
        }
    }
    if dnf_holds(a, env) {
        let i = choose|i: int| 0 <= i < a.len() && #[trigger] conj_holds(a[i], env);
        assert((a + d)[i] == a[i]);
    }
    if dnf_holds(d, env) {
        let i = choose|i: int| 0 <= i < d.len() && #[trigger] conj_holds(d[i], env);
        assert((a + d)[a.len() + i] == d[i]);
    }
}

pub proof fn lemma_row(p: Seq<Atom>, d: Seq<Seq<Atom>>, env: spec_fn(Atom) -> bool)
    ensures
        dnf_holds(row(p, d), env) == (conj_holds(p, env) && dnf_holds(d, env)),
{
    if dnf_holds(row(p, d), env) {
        let i = choose|i: int| 0 <= i < row(p, d).len() && #[trigger] conj_holds(row(p, d)[i], env);
        lemma_conj_concat(p, d[i], env);
        assert(conj_holds(d[i], env));
    }
    if conj_holds(p, env) && dnf_holds(d, env) {
        let i = choose|i: int| 0 <= i < d.len() && #[trigger] conj_holds(d[i], env);
        lemma_conj_concat(p, d[i], env);
        assert(conj_holds(row(p, d)[i], env));
    }
}

pub proof fn lemma_cross(a: Seq<Seq<Atom>>, d: Seq<Seq<Atom>>, env: spec_fn(Atom) -> bool)
    ensures
        dnf_holds(cross(a, d), env) == (dnf_holds(a, env) && dnf_holds(d, env)),
    decreases a.len(),
{
    if a.len() > 0 {
        lemma_cross(a.drop_last(), d, env);
        lemma_dnf_concat(cross(a.drop_last(), d), row(a.last(), d), env);
        lemma_row(a.last(), d, env);
        assert(a =~= a.drop_last().push(a.last()));
        lemma_dnf_concat(a.drop_last(), seq![a.last()], env);
        assert(a.drop_last() + seq![a.last()] =~= a);
        assert(dnf_holds(seq![a.last()], env) == conj_holds(a.last(), env)) by {
            if dnf_holds(seq![a.last()], env) {
                let i = choose|i: int| 0 <= i < 1 && #[trigger] conj_holds(seq![a.last()][i], env);
            }
            if conj_holds(a.last(), env) {
                assert(conj_holds(seq![a.last()][0], env));
            }
        }
    }
}

/// The DNF of a constraint holds exactly when the constraint does, for
/// every interpretation of its atoms: the expansion neither adds nor
/// loses a way of satisfying it.
pub proof fn dnf_is_equivalent(f: ConstraintForm, env: spec_fn(Atom) -> bool)
    requires
        dnf_of(f) is Ok,
    ensures
        holds(f, env) == dnf_holds(dnf_of(f)->Ok_0, env),
    decreases f, width(f) + 1,
{
    match f {
        ConstraintForm::Atomic { left_operand, operator, right_operand } => {
            let a = (left_operand@, operator_named(operator@)->0, right_operand@);
            let d = seq![seq![a]];
            if holds(f, env) {
                assert(conj_holds(d[0], env));
            }
            if dnf_holds(d, env) {
                let i = choose|i: int| 0 <= i < d.len() && #[trigger] conj_holds(d[i], env);
                assert(env(d[0][0]));
            }
        },
        ConstraintForm::And(cs) => {
            lemma_and_equivalent(f, cs@.len() as int, env);
        },
        ConstraintForm::Or(cs) => {
            lemma_or_equivalent(f, cs@.len() as int, env);
        },
        ConstraintForm::Xone(cs) => {},
    }
}

pub proof fn lemma_and_equivalent(f: ConstraintForm, n: int, env: spec_fn(Atom) -> bool)
    requires
        f is And,
        0 <= n <= width(f),
        and_dnf(f, n) is Ok,
    ensures
        all_hold(f, n, env) == dnf_holds(and_dnf(f, n)->Ok_0, env),
    decreases f, n,
{
    if let ConstraintForm::And(cs) = f {
        if n == 0 {
            assert(conj_holds(seq![Seq::<Atom>::empty()][0], env));
        } else {
            lemma_and_equivalent(f, n - 1, env);
            assert(decreases_to!(f => cs@[n - 1]));
            dnf_is_equivalent(cs@[n - 1], env);
            lemma_cross(and_dnf(f, n - 1)->Ok_0, dnf_of(cs@[n - 1])->Ok_0, env);
        }
    }
}

pub proof fn lemma_or_equivalent(f: ConstraintForm, n: int, env: spec_fn(Atom) -> bool)
    requires
        f is Or,
        0 <= n <= width(f),
        or_dnf(f, n) is Ok,
    ensures
        any_holds(f, n, env) == dnf_holds(or_dnf(f, n)->Ok_0, env),
    decreases f, n,
{
    if let ConstraintForm::Or(cs) = f {
        if n > 0 {
            lemma_or_equivalent(f, n - 1, env);
            assert(decreases_to!(f => cs@[n - 1]));
            dnf_is_equivalent(cs@[n - 1], env);
            lemma_dnf_concat(or_dnf(f, n - 1)->Ok_0, dnf_of(cs@[n - 1])->Ok_0, env);
        }
    }
}

} // verus!
