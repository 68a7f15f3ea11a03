//! A minimal RDF graph: the triples of one parsed Turtle document, held as
//! plain values, and the handful of lookups the compliance translators
//! make over them, each a linear scan in document order.

use vstd::prelude::*;
use vstd::string::*;
use crate::text::{str_eq, owned, concat2};
use crate::suite_vocab::{local_name, local_name_of};

verus! {

pub const RDF_TYPE: &'static str = "http://www.w3.org/1999/02/22-rdf-syntax-ns#type";
pub const RDF_FIRST: &'static str = "http://www.w3.org/1999/02/22-rdf-syntax-ns#first";
pub const RDF_REST: &'static str = "http://www.w3.org/1999/02/22-rdf-syntax-ns#rest";
pub const RDF_NIL: &'static str = "http://www.w3.org/1999/02/22-rdf-syntax-ns#nil";

/// A triple's subject: a named node or a blank node label.
#[derive(Debug, PartialEq, Eq)]
pub enum Subject {
    Iri(String),
    Blank(String),
}

/// A triple's object: a named node, a blank node label, or a literal's
/// lexical form (datatype and language tag are not kept).
#[derive(Debug, PartialEq, Eq)]
pub enum Term {
    Iri(String),
    Blank(String),
    Literal(String),
}

#[derive(Debug, PartialEq, Eq)]
pub struct Triple {
    pub subject: Subject,
    pub predicate: String,
    pub object: Term,
}

/// The triples of one document, in document order.
#[derive(Debug, PartialEq, Eq)]
pub struct Graph {
    pub triples: Vec<Triple>,
}

/// The graph-indexable id of a subject: the IRI itself, or `_:` and the
/// blank node label.
pub open spec fn subject_id_of(s: Subject) -> Seq<char> {
    match s {
        Subject::Iri(i) => i@,
        Subject::Blank(b) => "_:"@ + b@,
    }
}

/// The graph-indexable id of a node-valued object; `None` for a literal.
pub open spec fn term_id_of(t: Term) -> Option<Seq<char>> {
    match t {
        Term::Iri(i) => Some(i@),
        Term::Blank(b) => Some("_:"@ + b@),
        Term::Literal(_) => None,
    }
}

/// A literal's lexical form; `None` for a node.
pub open spec fn literal_of(t: Term) -> Option<Seq<char>> {
    match t {
        Term::Literal(l) => Some(l@),
        _ => None,
    }
}

/// Whether `t` has subject id `s` and predicate `p`.
pub open spec fn matches_sp(t: Triple, s: Seq<char>, p: Seq<char>) -> bool {
    subject_id_of(t.subject) == s && t.predicate@ == p
}

/// Every object of `s`/`p`, in document order.
pub open spec fn objects_of(ts: Seq<Triple>, s: Seq<char>, p: Seq<char>) -> Seq<Term>
    decreases ts.len(),
{
    if ts.len() == 0 {
        Seq::empty()
    } else if matches_sp(ts.last(), s, p) {
        objects_of(ts.drop_last(), s, p).push(ts.last().object)
    } else {
        objects_of(ts.drop_last(), s, p)
    }
}

/// The first object of `s`/`p` as a node id.
pub open spec fn object_id_of(ts: Seq<Triple>, s: Seq<char>, p: Seq<char>) -> Option<Seq<char>> {
    match first_of(objects_of(ts, s, p)) {
        Some(t) => term_id_of(t),
        None => None,
    }
}

/// Whether one of `s`'s `rdf:type`s is `ty`.
pub open spec fn has_type_of(ts: Seq<Triple>, s: Seq<char>, ty: Seq<char>) -> bool {
    ids_of(objects_of(ts, s, RDF_TYPE@)).contains(ty)
}

/// The ids of the node-valued terms of `terms`, literals dropped.
pub open spec fn ids_of(terms: Seq<Term>) -> Seq<Seq<char>>
    decreases terms.len(),
{
    if terms.len() == 0 {
        Seq::empty()
    } else {
        match term_id_of(terms.last()) {
            Some(id) => ids_of(terms.drop_last()).push(id),
            None => ids_of(terms.drop_last()),
        }
    }
}

/// The first literal's lexical form among `terms`.
pub open spec fn first_literal(terms: Seq<Term>) -> Option<Seq<char>>
    decreases terms.len(),
{
    if terms.len() == 0 {
        None
    } else {
        match first_literal(terms.drop_last()) {
            Some(l) => Some(l),
            None => literal_of(terms.last()),
        }
    }
}

/// The first element of a sequence, if any.
pub open spec fn first_of<A>(s: Seq<A>) -> Option<A> {
    if s.len() == 0 { None } else { Some(s[0]) }
}

/// A fresh copy of `t`.
pub fn copy_term(t: &Term) -> (r: Term)
    ensures
        r == *t,
{
    match t {
        Term::Iri(i) => Term::Iri(i.clone()),
        Term::Blank(b) => Term::Blank(b.clone()),
        Term::Literal(l) => Term::Literal(l.clone()),
    }
}

/// The graph-indexable id of a subject.
pub fn subject_id(s: &Subject) -> (r: String)
    ensures
        r@ == subject_id_of(*s),
{
    match s {
        Subject::Iri(i) => i.clone(),
        Subject::Blank(b) => concat2("_:", b.as_str()),
    }
}

/// The graph-indexable id of a node-valued object.
pub fn term_id(t: &Term) -> (r: Option<String>)
    ensures
        match r {
            Some(s) => term_id_of(*t) == Some(s@),
            None => term_id_of(*t) is None,
        },
{
    match t {
        Term::Iri(i) => Some(i.clone()),
        Term::Blank(b) => Some(concat2("_:", b.as_str())),
        Term::Literal(_) => None,
    }
}

/// The ids of a list of strings, as views.
pub open spec fn opt_string_view(o: Option<String>) -> Option<Seq<char>> {
    match o {
        Some(s) => Some(s@),
        None => None,
    }
}

/// The views of a list of strings.
pub open spec fn views(v: Seq<String>) -> Seq<Seq<char>> {
    v.map_values(|s: String| s@)
}

impl Graph {
    /// A graph holding exactly `triples`.
    pub fn from_triples(triples: Vec<Triple>) -> (g: Graph)
        ensures
            g.triples == triples,
    {
        Graph { triples }
    }

    /// A graph with no triples.
    pub fn empty() -> (g: Graph)
        ensures
            g.triples@.len() == 0,
    {
        Graph { triples: Vec::new() }
    }

    /// The triples, in document order.
    pub fn triples(&self) -> (r: &[Triple])
        ensures
            r@ == self.triples@,
    {
        self.triples.as_slice()
    }

    /// Every object of `subject`/`predicate`, in document order.
    pub fn objects(&self, subject: &str, predicate: &str) -> (r: Vec<Term>)
        ensures
            r@ == objects_of(self.triples@, subject@, predicate@),
    {
        let mut r: Vec<Term> = Vec::new();
        let mut i: usize = 0;
        while i < self.triples.len()
            invariant
                i <= self.triples@.len(),
                r@ == objects_of(self.triples@.subrange(0, i as int), subject@, predicate@),
            decreases self.triples.len() - i,
        {
            let t = &self.triples[i];
            let sid = subject_id(&t.subject);
            proof {
                assert(self.triples@.subrange(0, i + 1).drop_last() =~= self.triples@.subrange(0, i as int));
            }
            if str_eq(sid.as_str(), subject) && str_eq(t.predicate.as_str(), predicate) {
                r.push(copy_term(&t.object));
            }
            i = i + 1;
        }
        assert(self.triples@.subrange(0, self.triples@.len() as int) =~= self.triples@);
        r
    }

    /// The first object of `subject`/`predicate`.
    pub fn object(&self, subject: &str, predicate: &str) -> (r: Option<Term>)
        ensures
            r == first_of(objects_of(self.triples@, subject@, predicate@)),
    {
        let mut all = self.objects(subject, predicate);
        if all.len() == 0 {
            None
        } else {
            Some(all.swap_remove(0))
        }
    }

    /// The first object of `subject`/`predicate` as a node id; `None` when
    /// there is none or it is a literal.
    pub fn object_id(&self, subject: &str, predicate: &str) -> (r: Option<String>)
        ensures
            opt_string_view(r) == match first_of(objects_of(self.triples@, subject@, predicate@)) {
                Some(t) => term_id_of(t),
                None => None,
            },
    {
        match self.object(subject, predicate) {
            Some(t) => term_id(&t),
            None => None,
        }
    }

    /// The same lookup under the test-suite runner's name.
    pub fn object_node(&self, subject: &str, predicate: &str) -> (r: Option<String>)
        ensures
            opt_string_view(r) == match first_of(objects_of(self.triples@, subject@, predicate@)) {
                Some(t) => term_id_of(t),
                None => None,
            },
    {
        self.object_id(subject, predicate)
    }

    /// Every node-valued object of `subject`/`predicate`, as ids.
    pub fn object_ids(&self, subject: &str, predicate: &str) -> (r: Vec<String>)
        ensures
            views(r@) == ids_of(objects_of(self.triples@, subject@, predicate@)),
    {
        let all = self.objects(subject, predicate);
        ids_of_terms(&all)
    }

    /// The same lookup under the test-suite runner's name.
    pub fn object_nodes(&self, subject: &str, predicate: &str) -> (r: Vec<String>)
        ensures
            views(r@) == ids_of(objects_of(self.triples@, subject@, predicate@)),
    {
        self.object_ids(subject, predicate)
    }

    /// The first literal's lexical form among the objects of
    /// `subject`/`predicate`.
    pub fn literal(&self, subject: &str, predicate: &str) -> (r: Option<String>)
        ensures
            opt_string_view(r) == first_literal(objects_of(self.triples@, subject@, predicate@)),
    {
        let all = self.objects(subject, predicate);
        let mut i: usize = 0;
        while i < all.len()
            invariant
                i <= all@.len(),
                all@ == objects_of(self.triples@, subject@, predicate@),
                first_literal(all@.subrange(0, i as int)) is None,
            decreases all.len() - i,
        {
            proof {
                assert(all@.subrange(0, i + 1).drop_last() =~= all@.subrange(0, i as int));
            }
            match &all[i] {
                Term::Literal(l) => {
                    proof {
                        assert(all@.subrange(0, i + 1).last() == all@[i as int]);
                        assert(first_literal(all@.subrange(0, i + 1)) == Some(l@));
                        lemma_first_literal_prefix(all@, i as int + 1);
                    }
                    return Some(l.clone());
                },
                _ => {},
            }
            i = i + 1;
        }
        assert(all@.subrange(0, all@.len() as int) =~= all@);
        None
    }

    /// Every `rdf:type` of `subject`.
    pub fn type_ids(&self, subject: &str) -> (r: Vec<String>)
        ensures
            views(r@) == ids_of(objects_of(self.triples@, subject@, RDF_TYPE@)),
    {
        self.object_ids(subject, RDF_TYPE)
    }

    /// The first `rdf:type` of `subject`, as a node id.
    pub fn type_of(&self, subject: &str) -> (r: Option<String>)
        ensures
            opt_string_view(r) == match first_of(objects_of(self.triples@, subject@, RDF_TYPE@)) {
                Some(t) => term_id_of(t),
                None => None,
            },
    {
        self.object_node(subject, RDF_TYPE)
    }

    /// Whether one of `subject`'s types is `type_iri`.
    pub fn has_type(&self, subject: &str, type_iri: &str) -> (r: bool)
        ensures
            r == ids_of(objects_of(self.triples@, subject@, RDF_TYPE@)).contains(type_iri@),
    {
        let types = self.type_ids(subject);
        let mut i: usize = 0;
        while i < types.len()
            invariant
                i <= types@.len(),
                views(types@) == ids_of(objects_of(self.triples@, subject@, RDF_TYPE@)),
                forall|j: int| 0 <= j < i ==> types@[j]@ != type_iri@,
            decreases types.len() - i,
        {
            if str_eq(types[i].as_str(), type_iri) {
                assert(views(types@)[i as int] == type_iri@);
                return true;
            }
            i = i + 1;
        }
        proof {
            if views(types@).contains(type_iri@) {
                let j = choose|j: int| 0 <= j < views(types@).len() && views(types@)[j] == type_iri@;
                assert(types@[j]@ == type_iri@);
            }
        }
        false
    }
}

/// A first literal found in a prefix is the first literal of the whole.
pub proof fn lemma_first_literal_prefix(terms: Seq<Term>, n: int)
    requires
        0 <= n <= terms.len(),
        first_literal(terms.subrange(0, n)) is Some,
    ensures
        first_literal(terms) == first_literal(terms.subrange(0, n)),
    decreases terms.len(),
{
    if n < terms.len() {
        assert(terms.drop_last().subrange(0, n) =~= terms.subrange(0, n));
        lemma_first_literal_prefix(terms.drop_last(), n);
    } else {
        assert(terms.subrange(0, n) =~= terms);
    }
}

/// The ids of the node-valued terms of `terms`, in order.
pub fn ids_of_terms(terms: &[Term]) -> (r: Vec<String>)
    ensures
        views(r@) == ids_of(terms@),
{
    let mut r: Vec<String> = Vec::new();
    let mut i: usize = 0;
    while i < terms.len()
        invariant
            i <= terms@.len(),
            views(r@) == ids_of(terms@.subrange(0, i as int)),
        decreases terms.len() - i,
    {
        proof {
            assert(terms@.subrange(0, i + 1).drop_last() =~= terms@.subrange(0, i as int));
        }
        match term_id(&terms[i]) {
            Some(id) => {
                r.push(id);
                assert(views(r@) =~= ids_of(terms@.subrange(0, i + 1)));
            },
            None => {},
        }
        i = i + 1;
    }
    assert(terms@.subrange(0, terms@.len() as int) =~= terms@);
    r
}


/// Whether `t` states `?s rdf:type <ty>` for a type in `tys`.
pub open spec fn is_type_triple(t: Triple, tys: Seq<Seq<char>>) -> bool {
    t.predicate@ == RDF_TYPE@ && match term_id_of(t.object) {
        Some(id) => tys.contains(id),
        None => false,
    }
}

/// The subject of the first triple stating one of the types `tys`.
pub open spec fn first_typed_subject(ts: Seq<Triple>, tys: Seq<Seq<char>>) -> Option<Seq<char>>
    decreases ts.len(),
{
    if ts.len() == 0 {
        None
    } else {
        match first_typed_subject(ts.drop_last(), tys) {
            Some(s) => Some(s),
            None => if is_type_triple(ts.last(), tys) { Some(subject_id_of(ts.last().subject)) } else { None },
        }
    }
}

/// The object ids of every `predicate` triple whose subject's local name
/// is `local`.
pub open spec fn objects_by_local_subject(ts: Seq<Triple>, local: Seq<char>, p: Seq<char>) -> Seq<Seq<char>>
    decreases ts.len(),
{
    if ts.len() == 0 {
        Seq::empty()
    } else {
        let rest = objects_by_local_subject(ts.drop_last(), local, p);
        let t = ts.last();
        if local_name_of(subject_id_of(t.subject)) == local && t.predicate@ == p {
            match term_id_of(t.object) {
                Some(id) => rest.push(id),
                None => rest,
            }
        } else {
            rest
        }
    }
}

/// The subject ids of every `p` triple whose node object's local name is
/// `local`.
pub open spec fn subjects_by_local_object(ts: Seq<Triple>, p: Seq<char>, local: Seq<char>) -> Seq<Seq<char>>
    decreases ts.len(),
{
    if ts.len() == 0 {
        Seq::empty()
    } else {
        let rest = subjects_by_local_object(ts.drop_last(), p, local);
        let t = ts.last();
        if t.predicate@ == p && match term_id_of(t.object) {
            Some(id) => local_name_of(id) == local,
            None => false,
        } {
            rest.push(subject_id_of(t.subject))
        } else {
            rest
        }
    }
}

/// The object of the first `p` triple, whatever its subject.
pub open spec fn first_object_for(ts: Seq<Triple>, p: Seq<char>) -> Option<Term>
    decreases ts.len(),
{
    if ts.len() == 0 {
        None
    } else {
        match first_object_for(ts.drop_last(), p) {
            Some(o) => Some(o),
            None => if ts.last().predicate@ == p { Some(ts.last().object) } else { None },
        }
    }
}

/// A list walk from node `node`, with at most `fuel` more steps: each
/// node's `rdf:first` is collected and its `rdf:rest` followed, until
/// `rdf:nil`, a literal or absent `rdf:rest`, or a node without
/// `rdf:first`.
pub open spec fn list_from(ts: Seq<Triple>, node: Option<Seq<char>>, fuel: nat) -> Seq<Term>
    decreases fuel,
{
    match node {
        None => Seq::empty(),
        Some(n) => if n == RDF_NIL@ || fuel == 0 {
            Seq::empty()
        } else {
            match first_of(objects_of(ts, n, RDF_FIRST@)) {
                None => Seq::empty(),
                Some(first) => seq![first] + list_from(
                    ts,
                    match first_of(objects_of(ts, n, RDF_REST@)) {
                        Some(t) => term_id_of(t),
                        None => None,
                    },
                    (fuel - 1) as nat,
                ),
            }
        },
    }
}

/// The members of the `rdf:List` that is the first `p` object of `s`; a
/// well-formed list has at most as many members as the graph has triples,
/// which bounds the walk.
pub open spec fn list_of(ts: Seq<Triple>, s: Seq<char>, p: Seq<char>) -> Seq<Term> {
    match first_of(objects_of(ts, s, p)) {
        None => Seq::empty(),
        Some(head) => list_from(ts, term_id_of(head), ts.len()),
    }
}

impl Graph {
    /// The subject of the first triple `?s rdf:type <type_iri>`.
    pub fn subject_with_type(&self, type_iri: &str) -> (r: Option<String>)
        ensures
            opt_string_view(r) == first_typed_subject(self.triples@, seq![type_iri@]),
    {
        let tys = vec![owned(type_iri)];
        assert(views(tys@) =~= seq![type_iri@]);
        self.subject_with_any_type(tys.as_slice())
    }

    /// The subject of the first triple stating one of `type_iris`.
    pub fn subject_with_any_type(&self, type_iris: &[String]) -> (r: Option<String>)
        ensures
            opt_string_view(r) == first_typed_subject(self.triples@, views(type_iris@)),
    {
        let mut i: usize = 0;
        while i < self.triples.len()
            invariant
                i <= self.triples@.len(),
                first_typed_subject(self.triples@.subrange(0, i as int), views(type_iris@)) is None,
            decreases self.triples.len() - i,
        {
            let t = &self.triples[i];
            proof {
                assert(self.triples@.subrange(0, i + 1).drop_last() =~= self.triples@.subrange(0, i as int));
                assert(self.triples@.subrange(0, i + 1).last() == self.triples@[i as int]);
            }
            if str_eq(t.predicate.as_str(), RDF_TYPE) {
                match term_id(&t.object) {
                    Some(id) => {
                        if contains_string(type_iris, id.as_str()) {
                            proof {
                                lemma_first_typed_prefix(self.triples@, i as int + 1, views(type_iris@));
                            }
                            return Some(subject_id(&t.subject));
                        }
                    },
                    None => {},
                }
            }
            i = i + 1;
        }
        assert(self.triples@.subrange(0, self.triples@.len() as int) =~= self.triples@);
        None
    }

    /// Node-valued objects of `predicate` across every triple whose
    /// subject's local name is `subject_local`.
    pub fn objects_by_subject_local_name(&self, subject_local: &str, predicate: &str) -> (r: Vec<String>)
        ensures
            views(r@) == objects_by_local_subject(self.triples@, subject_local@, predicate@),
    {
        let mut r: Vec<String> = Vec::new();
        let mut i: usize = 0;
        while i < self.triples.len()
            invariant
                i <= self.triples@.len(),
                views(r@) == objects_by_local_subject(self.triples@.subrange(0, i as int), subject_local@, predicate@),
            decreases self.triples.len() - i,
        {
            let t = &self.triples[i];
            proof {
                assert(self.triples@.subrange(0, i + 1).drop_last() =~= self.triples@.subrange(0, i as int));
                assert(self.triples@.subrange(0, i + 1).last() == self.triples@[i as int]);
            }
            let sid = subject_id(&t.subject);
            if str_eq(local_name(sid.as_str()), subject_local) && str_eq(t.predicate.as_str(), predicate) {
                match term_id(&t.object) {
                    Some(id) => {
                        r.push(id);
                        assert(views(r@) =~= objects_by_local_subject(self.triples@.subrange(0, i + 1), subject_local@, predicate@));
                    },
                    None => {},
                }
            }
            i = i + 1;
        }
        assert(self.triples@.subrange(0, self.triples@.len() as int) =~= self.triples@);
        r
    }

    /// Subjects of every `predicate` triple whose node object's local name
    /// is `object_local`.
    pub fn subjects_by_object_local_name(&self, predicate: &str, object_local: &str) -> (r: Vec<String>)
        ensures
            views(r@) == subjects_by_local_object(self.triples@, predicate@, object_local@),
    {
        let mut r: Vec<String> = Vec::new();
        let mut i: usize = 0;
        while i < self.triples.len()
            invariant
                i <= self.triples@.len(),
                views(r@) == subjects_by_local_object(self.triples@.subrange(0, i as int), predicate@, object_local@),
            decreases self.triples.len() - i,
        {
            let t = &self.triples[i];
            proof {
                assert(self.triples@.subrange(0, i + 1).drop_last() =~= self.triples@.subrange(0, i as int));
                assert(self.triples@.subrange(0, i + 1).last() == self.triples@[i as int]);
            }
            if str_eq(t.predicate.as_str(), predicate) {
                match term_id(&t.object) {
                    Some(id) => {
                        if str_eq(local_name(id.as_str()), object_local) {
                            r.push(subject_id(&t.subject));
                            assert(views(r@) =~= subjects_by_local_object(self.triples@.subrange(0, i + 1), predicate@, object_local@));
                        }
                    },
                    None => {},
                }
            }
            i = i + 1;
        }
        assert(self.triples@.subrange(0, self.triples@.len() as int) =~= self.triples@);
        r
    }

    /// The lexical form of the first `predicate` triple's object, whatever
    /// its subject; `None` when there is no such triple or its object is
    /// not a literal.
    pub fn first_literal_for_predicate(&self, predicate: &str) -> (r: Option<String>)
        ensures
            opt_string_view(r) == match first_object_for(self.triples@, predicate@) {
                Some(o) => literal_of(o),
                None => None,
            },
    {
        let mut i: usize = 0;
        while i < self.triples.len()
            invariant
                i <= self.triples@.len(),
                first_object_for(self.triples@.subrange(0, i as int), predicate@) is None,
            decreases self.triples.len() - i,
        {
            let t = &self.triples[i];
            proof {
                assert(self.triples@.subrange(0, i + 1).drop_last() =~= self.triples@.subrange(0, i as int));
                assert(self.triples@.subrange(0, i + 1).last() == self.triples@[i as int]);
            }
            if str_eq(t.predicate.as_str(), predicate) {
                proof {
                    lemma_first_object_prefix(self.triples@, i as int + 1, predicate@);
                }
                return match &t.object {
                    Term::Literal(l) => Some(l.clone()),
                    _ => None,
                };
            }
            i = i + 1;
        }
        assert(self.triples@.subrange(0, self.triples@.len() as int) =~= self.triples@);
        None
    }

    /// The members of the `rdf:List` that is the first `predicate` object
    /// of `subject`, in order, to `rdf:nil`; empty when there is none. The
    /// walk stops at a node without `rdf:first`, and after as many members
    /// as the graph has triples.
    pub fn rdf_list(&self, subject: &str, predicate: &str) -> (r: Vec<Term>)
        ensures
            r@ == list_of(self.triples@, subject@, predicate@),
    {
        let head = match self.object(subject, predicate) {
            Some(h) => h,
            None => return Vec::new(),
        };
        let mut items: Vec<Term> = Vec::new();
        let mut current = term_id(&head);
        let mut fuel: usize = self.triples.len();
        let ghost start = opt_string_view(current);
        assert(list_of(self.triples@, subject@, predicate@) == list_from(self.triples@, start, self.triples@.len()));
        loop
            invariant
                items@ + list_from(self.triples@, opt_string_view(current), fuel as nat)
                    == list_from(self.triples@, start, self.triples@.len()),
            ensures
                items@ == list_from(self.triples@, start, self.triples@.len()),
            decreases fuel,
        {
            let node = match current {
                Some(n) => n,
                None => {
                    assert(items@ =~= items@ + list_from(self.triples@, opt_string_view(current), fuel as nat));
                    break;
                },
            };
            if str_eq(node.as_str(), RDF_NIL) || fuel == 0 {
                assert(items@ =~= items@ + list_from(self.triples@, Some(node@), fuel as nat));
                break;
            }
            match self.object(node.as_str(), RDF_FIRST) {
                Some(first) => {
                    let next = self.object_id(node.as_str(), RDF_REST);
                    proof {
                        assert(list_from(self.triples@, Some(node@), fuel as nat)
                            == seq![first] + list_from(self.triples@, opt_string_view(next), (fuel - 1) as nat));
                        assert(items@.push(first) + list_from(self.triples@, opt_string_view(next), (fuel - 1) as nat)
                            =~= items@ + (seq![first] + list_from(self.triples@, opt_string_view(next), (fuel - 1) as nat)));
                    }
                    items.push(first);
                    current = next;
                    fuel = fuel - 1;
                },
                None => {
                    assert(items@ =~= items@ + list_from(self.triples@, Some(node@), fuel as nat));
                    break;
                },
            }
        }
        items
    }

    /// Node ids of the members of an `rdf_list`, literals dropped.
    pub fn rdf_list_ids(&self, subject: &str, predicate: &str) -> (r: Vec<String>)
        ensures
            views(r@) == ids_of(list_of(self.triples@, subject@, predicate@)),
    {
        let items = self.rdf_list(subject, predicate);
        ids_of_terms(&items)
    }
}

/// A typed subject found in a prefix is the first of the whole.
pub proof fn lemma_first_typed_prefix(ts: Seq<Triple>, n: int, tys: Seq<Seq<char>>)
    requires
        0 <= n <= ts.len(),
        first_typed_subject(ts.subrange(0, n), tys) is Some,
    ensures
        first_typed_subject(ts, tys) == first_typed_subject(ts.subrange(0, n), tys),
    decreases ts.len(),
{
    if n < ts.len() {
        assert(ts.drop_last().subrange(0, n) =~= ts.subrange(0, n));
        lemma_first_typed_prefix(ts.drop_last(), n, tys);
    } else {
        assert(ts.subrange(0, n) =~= ts);
    }
}

/// A predicate's first object found in a prefix is the first of the whole.
pub proof fn lemma_first_object_prefix(ts: Seq<Triple>, n: int, p: Seq<char>)
    requires
        0 <= n <= ts.len(),
        first_object_for(ts.subrange(0, n), p) is Some,
    ensures
        first_object_for(ts, p) == first_object_for(ts.subrange(0, n), p),
    decreases ts.len(),
{
    if n < ts.len() {
        assert(ts.drop_last().subrange(0, n) =~= ts.subrange(0, n));
        lemma_first_object_prefix(ts.drop_last(), n, p);
    } else {
        assert(ts.subrange(0, n) =~= ts);
    }
}

/// Whether `v` holds a string equal to `s`.
pub fn contains_string(v: &[String], s: &str) -> (r: bool)
    ensures
        r == views(v@).contains(s@),
{
    let mut i: usize = 0;
    while i < v.len()
        invariant
            i <= v@.len(),
            forall|j: int| 0 <= j < i ==> v@[j]@ != s@,
        decreases v.len() - i,
    {
        if str_eq(v[i].as_str(), s) {
            assert(views(v@)[i as int] == s@);
            return true;
        }
        i = i + 1;
    }
    proof {
        if views(v@).contains(s@) {
            let j = choose|j: int| 0 <= j < views(v@).len() && views(v@)[j] == s@;
            assert(v@[j]@ == s@);
        }
    }
    false
}


/// Whether `oxttl`'s Turtle parser reads the whole document without error.
pub uninterp spec fn turtle_accepts(content: Seq<u8>) -> bool;

/// The message (`Display` of `oxttl::TurtleSyntaxError`) of the first syntax
/// error that `oxttl`'s Turtle parser reports in the document.
pub uninterp spec fn turtle_error(content: Seq<u8>) -> Seq<char>;

/// A term with its blank node label replaced by a number: the position
/// of that label among the blank nodes of the graph, in order of first
/// occurrence.
pub enum TermShape {
    Iri(Seq<char>),
    Blank(int),
    Literal(Seq<char>),
}

/// `labels` with `l` added at the end, unless it is already there.
pub open spec fn add_label(labels: Seq<Seq<char>>, l: Seq<char>) -> Seq<Seq<char>> {
    if labels.contains(l) { labels } else { labels.push(l) }
}

/// The blank node labels of a subject, as a list of at most one.
pub open spec fn subject_blanks(s: Subject) -> Seq<Seq<char>> {
    match s {
        Subject::Blank(b) => seq![b@],
        Subject::Iri(_) => Seq::empty(),
    }
}

/// The blank node labels of `ts`, each once, in order of first occurrence
/// (a triple's subject before its object).
pub open spec fn blank_labels(ts: Seq<Triple>) -> Seq<Seq<char>>
    decreases ts.len(),
{
    if ts.len() == 0 {
        Seq::empty()
    } else {
        let t = ts.last();
        let l0 = blank_labels(ts.drop_last());
        let l1 = match t.subject { Subject::Blank(b) => add_label(l0, b@), Subject::Iri(_) => l0 };
        match t.object { Term::Blank(b) => add_label(l1, b@), _ => l1 }
    }
}

/// The shape of a subject among the blank node labels `labels`.
pub open spec fn subject_shape(s: Subject, labels: Seq<Seq<char>>) -> TermShape {
    match s {
        Subject::Iri(i) => TermShape::Iri(i@),
        Subject::Blank(b) => TermShape::Blank(labels.index_of(b@)),
    }
}

/// The shape of an object among the blank node labels `labels`.
pub open spec fn term_shape(t: Term, labels: Seq<Seq<char>>) -> TermShape {
    match t {
        Term::Iri(i) => TermShape::Iri(i@),
        Term::Blank(b) => TermShape::Blank(labels.index_of(b@)),
        Term::Literal(l) => TermShape::Literal(l@),
    }
}

/// The triples `ts` with every blank node label replaced by its number:
/// what two parses of one document agree on, whatever labels they chose.
pub open spec fn triple_shapes(ts: Seq<Triple>) -> Seq<(TermShape, Seq<char>, TermShape)> {
    let labels = blank_labels(ts);
    Seq::new(ts.len(), |i: int| (subject_shape(ts[i].subject, labels), ts[i].predicate@, term_shape(ts[i].object, labels)))
}

/// The [`triple_shapes`] of the triples `oxttl`'s Turtle parser reads from
/// the document, in the order it reads them.
pub uninterp spec fn turtle_shape(content: Seq<u8>) -> Seq<(TermShape, Seq<char>, TermShape)>;

/// Parses Turtle with `oxttl::TurtleParser::for_slice`, converting each
/// `oxrdf::Triple` one for one: named nodes and blank nodes by their
/// string, literals by `Literal::value` (datatype and language dropped).
/// Claimed: whether the document is accepted, the error message when it is
/// not, and the triples up to the naming of blank nodes depend on its bytes
/// alone (`turtle_accepts`, `turtle_error`, `turtle_shape`). The labels
/// themselves are not stated: a labelled blank node keeps its document
/// label, while the parser names each anonymous one with a fresh random id
/// on every run (`BlankNode::default`); the shape assumes such an id never
/// equals a label the document spells out.
#[verifier::external_body]
fn turtle_triples(content: &[u8]) -> (r: Result<Vec<Triple>, String>)
    ensures
        (r is Ok) == turtle_accepts(content@),
        r matches Err(e) ==> e@ == turtle_error(content@),
        r matches Ok(ts) ==> triple_shapes(ts@) == turtle_shape(content@),
{
    let mut out = Vec::new();
    for t in oxttl::TurtleParser::new().for_slice(content) {
        let t = t.map_err(|e| e.to_string())?;
        let subject = match t.subject {
            oxrdf::NamedOrBlankNode::NamedNode(n) => Subject::Iri(n.into_string()),
            oxrdf::NamedOrBlankNode::BlankNode(b) => Subject::Blank(b.into_string()),
        };
        let object = match t.object {
            oxrdf::Term::NamedNode(n) => Term::Iri(n.into_string()),
            oxrdf::Term::BlankNode(b) => Term::Blank(b.into_string()),
            oxrdf::Term::Literal(l) => Term::Literal(l.value().to_string()),
        };
        out.push(Triple { subject, predicate: t.predicate.into_string(), object });
    }
    Ok(out)
}

impl Graph {
    /// The graph of an in-memory Turtle document, or the parser's error:
    /// `Ok` exactly when the parser accepts the bytes, holding the triples it
    /// read in their order (stated up to the labels of blank nodes).
    pub fn from_turtle(content: &[u8]) -> (r: Result<Graph, String>)
        ensures
            (r is Ok) == turtle_accepts(content@),
            r matches Err(e) ==> e@ == turtle_error(content@),
            r matches Ok(g) ==> triple_shapes(g.triples@) == turtle_shape(content@),
    {
        match turtle_triples(content) {
            Ok(triples) => Ok(Graph::from_triples(triples)),
            Err(e) => Err(e),
        }
    }

    /// The graph of a Turtle document given as text (read as its UTF-8 bytes).
    pub fn parse_str(content: &str) -> (r: Result<Graph, String>)
        ensures
            (r is Ok) == turtle_accepts(content.spec_bytes()),
            r matches Err(e) ==> e@ == turtle_error(content.spec_bytes()),
            r matches Ok(g) ==> triple_shapes(g.triples@) == turtle_shape(content.spec_bytes()),
    {
        Graph::from_turtle(content.as_bytes())
    }
}

} // verus!
