//! A deliberately partial, offline JSON-LD 1.1 expansion over the subset a
//! Dataspace Protocol contract policy uses, and the two graph
//! normalizations applied to the expanded tree: internalizing inverse
//! properties and splitting compound rules.

use vstd::prelude::*;
use vstd::string::*;
use vstd::hash_map::StringHashMap;
use crate::text::{str_eq, owned, concat2, debug_quoted, debug_str, strings_view, decimal, usize_string, flat};

verus! {

/// The ODRL 2.2 namespace every term this adapter recognizes expands into.
pub const ODRL_NS: &'static str = "http://www.w3.org/ns/odrl/2/";

/// One expanded value: a nested node object, an IRI, or a literal.
#[derive(Debug, PartialEq, Eq)]
pub enum Expanded {
    Node(Node),
    Iri(String),
    Literal(String),
}

/// An expanded node object. Within one property, the order of values is
/// document order; `props` holds each property IRI at most once.
#[derive(Debug, PartialEq, Eq)]
pub struct Node {
    pub id: Option<String>,
    pub types: Vec<String>,
    pub props: Vec<(String, Vec<Expanded>)>,
}

/// The result of expanding one document: the root node, plus everything
/// the expansion had to take verbatim rather than resolve.
#[derive(Debug, PartialEq, Eq)]
pub struct Expansion {
    pub node: Node,
    pub warnings: Vec<String>,
}

/// The mathematical value of an [`Expanded`].
pub enum ExpandedV {
    Node(NodeV),
    Iri(Seq<char>),
    Literal(Seq<char>),
}

/// The mathematical value of a [`Node`].
pub struct NodeV {
    pub id: Option<Seq<char>>,
    pub types: Seq<Seq<char>>,
    pub props: Seq<(Seq<char>, Seq<ExpandedV>)>,
}

pub open spec fn opt_str_view(o: Option<String>) -> Option<Seq<char>> {
    match o {
        Some(s) => Some(s@),
        None => None,
    }
}

pub open spec fn expanded_view(e: Expanded) -> ExpandedV
    decreases e, 1nat,
{
    match e {
        Expanded::Node(n) => ExpandedV::Node(node_view(n)),
        Expanded::Iri(s) => ExpandedV::Iri(s@),
        Expanded::Literal(s) => ExpandedV::Literal(s@),
    }
}

pub open spec fn node_view(n: Node) -> NodeV
    decreases n, 0nat,
{
    NodeV {
        id: opt_str_view(n.id),
        types: Seq::new(n.types@.len(), |i: int| n.types@[i]@),
        props: Seq::new(
            n.props@.len(),
            |i: int|
                (
                    n.props@[i].0@,
                    Seq::new(
                        n.props@[i].1@.len(),
                        |j: int|
                            if 0 <= i < n.props@.len() && 0 <= j < n.props@[i].1@.len() {
                                expanded_view(n.props@[i].1@[j])
                            } else {
                                ExpandedV::Literal(Seq::empty())
                            },
                    ),
                ),
        ),
    }
}

impl View for Node {
    type V = NodeV;

    open spec fn view(&self) -> NodeV {
        node_view(*self)
    }
}

impl View for Expanded {
    type V = ExpandedV;

    open spec fn view(&self) -> ExpandedV {
        expanded_view(*self)
    }
}

/// The index of the first property keyed `iri` in a node value, or `-1`.
pub open spec fn vkey_index(props: Seq<(Seq<char>, Seq<ExpandedV>)>, iri: Seq<char>) -> int
    decreases props.len(),
{
    if props.len() == 0 {
        -1
    } else if props[0].0 == iri {
        0
    } else {
        let r = vkey_index(props.drop_first(), iri);
        if r < 0 {
            -1
        } else {
            r + 1
        }
    }
}

/// Every value a node value carries for `iri` (empty when absent).
pub open spec fn vget(n: NodeV, iri: Seq<char>) -> Seq<ExpandedV> {
    let i = vkey_index(n.props, iri);
    if i < 0 {
        Seq::empty()
    } else {
        n.props[i].1
    }
}

pub proof fn lemma_vkey_index(props: Seq<(Seq<char>, Seq<ExpandedV>)>, iri: Seq<char>)
    ensures
        -1 <= vkey_index(props, iri) < props.len(),
        vkey_index(props, iri) >= 0 ==> props[vkey_index(props, iri)].0 == iri,
        vkey_index(props, iri) >= 0 ==> forall|j: int| 0 <= j < vkey_index(props, iri) ==> props[j].0 != iri,
        vkey_index(props, iri) < 0 ==> forall|j: int| 0 <= j < props.len() ==> props[j].0 != iri,
    decreases props.len(),
{
    if props.len() > 0 && props[0].0 != iri {
        lemma_vkey_index(props.drop_first(), iri);
        assert forall|j: int| 1 <= j < props.len() implies props[j] == props.drop_first()[j - 1] by {}
    }
}

/// `vkey_index` is fixed by where the first matching key sits.
pub proof fn lemma_vkey_index_char(props: Seq<(Seq<char>, Seq<ExpandedV>)>, iri: Seq<char>, i: int)
    requires
        -1 <= i < props.len(),
        i >= 0 ==> props[i].0 == iri,
        i >= 0 ==> forall|j: int| 0 <= j < i ==> props[j].0 != iri,
        i < 0 ==> forall|j: int| 0 <= j < props.len() ==> props[j].0 != iri,
    ensures
        vkey_index(props, iri) == i,
{
    lemma_vkey_index(props, iri);
}

/// The exec-level and value-level lookups agree.
pub proof fn lemma_get_view(n: Node, iri: Seq<char>)
    ensures
        key_index(n.props@, iri) == vkey_index(n@.props, iri),
        prop_values(n.props@, iri).len() == vget(n@, iri).len(),
        forall|j: int| 0 <= j < vget(n@, iri).len() ==> #[trigger] vget(n@, iri)[j] == prop_values(n.props@, iri)[j]@,
{
    lemma_key_index(n.props@, iri);
    lemma_vkey_index_char(n@.props, iri, key_index(n.props@, iri));
}

/// The `@id` a value names: an IRI reference, or an inline node's own id.
pub open spec fn ref_id(v: ExpandedV) -> Option<Seq<char>> {
    match v {
        ExpandedV::Iri(iri) => Some(iri),
        ExpandedV::Node(n) => n.id,
        ExpandedV::Literal(_) => None,
    }
}

/// `(subject, object)` for every value in `vs` that names an id.
pub open spec fn refs_of_values(subject: Seq<char>, vs: Seq<ExpandedV>) -> Seq<(Seq<char>, Seq<char>)>
    decreases vs.len(),
{
    if vs.len() == 0 {
        Seq::empty()
    } else {
        refs_of_values(subject, vs.drop_last()) + match ref_id(vs.last()) {
            Some(o) => seq![(subject, o)],
            None => Seq::empty(),
        }
    }
}

/// The inverse references a node states itself.
pub open spec fn own_refs(n: NodeV, inv: Seq<char>) -> Seq<(Seq<char>, Seq<char>)> {
    match n.id {
        Some(s) => refs_of_values(s, vget(n, inv)),
        None => Seq::empty(),
    }
}

/// Every `(subject, object)` pair the inverse property `inv` states
/// anywhere in the tree rooted at `n`, in document (pre-)order.
pub open spec fn tree_refs(n: NodeV, inv: Seq<char>) -> Seq<(Seq<char>, Seq<char>)>
    decreases n, 2nat,
{
    own_refs(n, inv) + props_refs(n.props, inv)
}

pub open spec fn props_refs(ps: Seq<(Seq<char>, Seq<ExpandedV>)>, inv: Seq<char>) -> Seq<(Seq<char>, Seq<char>)>
    decreases ps, 1nat,
{
    if ps.len() == 0 {
        Seq::empty()
    } else {
        props_refs(ps.drop_last(), inv) + values_refs(ps[ps.len() - 1].1, inv)
    }
}

pub open spec fn values_refs(vs: Seq<ExpandedV>, inv: Seq<char>) -> Seq<(Seq<char>, Seq<char>)>
    decreases vs, 0nat,
{
    if vs.len() == 0 {
        Seq::empty()
    } else {
        values_refs(vs.drop_last(), inv) + match vs[vs.len() - 1] {
            ExpandedV::Node(c) => tree_refs(c, inv),
            _ => Seq::empty(),
        }
    }
}

/// The view of a list of string pairs.
pub open spec fn pairs_view(v: Seq<(String, String)>) -> Seq<(Seq<char>, Seq<char>)> {
    Seq::new(v.len(), |i: int| (v[i].0@, v[i].1@))
}

/// The values of a list of expanded values.
pub open spec fn vals_view(vs: Seq<Expanded>) -> Seq<ExpandedV> {
    Seq::new(vs.len(), |j: int| vs[j]@)
}

/// Whether no two property entries share a key.
pub open spec fn keys_distinct(props: Seq<(Seq<char>, Seq<ExpandedV>)>) -> bool {
    forall|i: int, j: int| 0 <= i < j < props.len() ==> (#[trigger] props[i]).0 != (#[trigger] props[j]).0
}

/// Adding values to a node whose property keys are distinct keeps them
/// distinct: repeated spellings of one property merge into one entry, so
/// the node gains an entry exactly when values arrive for a key it lacks.
pub proof fn pushing_values_keeps_property_keys_distinct(props: Seq<(Seq<char>, Seq<ExpandedV>)>, key: Seq<char>, vals: Seq<ExpandedV>)
    requires
        keys_distinct(props),
    ensures
        keys_distinct(vpush(props, key, vals)),
        vpush(props, key, vals).len() == props.len() + if vals.len() > 0 && vkey_index(props, key) < 0 { 1int } else { 0int },
        vals.len() == 0 ==> vpush(props, key, vals) == props,
{
    lemma_vkey_index(props, key);
    let r = vpush(props, key, vals);
    if vals.len() > 0 {
        let k = vkey_index(props, key);
        if k < 0 {
            assert forall|i: int, j: int| 0 <= i < j < r.len() implies (#[trigger] r[i]).0 != (#[trigger] r[j]).0 by {
                if j == props.len() {
                    assert(r[i] == props[i]);
                } else {
                    assert(r[i] == props[i] && r[j] == props[j]);
                }
            }
        } else {
            assert forall|i: int, j: int| 0 <= i < j < r.len() implies (#[trigger] r[i]).0 != (#[trigger] r[j]).0 by {
                assert(r[i].0 == props[i].0 && r[j].0 == props[j].0);
            }
        }
    }
}

/// `props` after adding `vals` under `key`: appended to an existing
/// entry, or a new entry at the end; nothing for empty `vals`.
pub open spec fn vpush(props: Seq<(Seq<char>, Seq<ExpandedV>)>, key: Seq<char>, vals: Seq<ExpandedV>) -> Seq<(Seq<char>, Seq<ExpandedV>)> {
    if vals.len() == 0 {
        props
    } else {
        let i = vkey_index(props, key);
        if i < 0 {
            props.push((key, vals))
        } else {
            props.update(i, (key, props[i].1 + vals))
        }
    }
}

/// The value of a node's property entry.
pub proof fn lemma_node_view_entry(n: Node, i: int)
    requires
        0 <= i < n.props@.len(),
    ensures
        n@.props[i].0 == n.props@[i].0@,
        n@.props[i].1 == vals_view(n.props@[i].1@),
        n@.props.len() == n.props@.len(),
{
    assert(n@.props[i].1 =~= vals_view(n.props@[i].1@));
}

/// The subjects of every `(subject, object)` pair naming `x`, in order.
pub open spec fn subjects_of(refs: Seq<(Seq<char>, Seq<char>)>, x: Seq<char>) -> Seq<Seq<char>>
    decreases refs.len(),
{
    if refs.len() == 0 {
        Seq::empty()
    } else {
        subjects_of(refs.drop_last(), x) + if refs.last().1 == x {
            seq![refs.last().0]
        } else {
            Seq::empty()
        }
    }
}

/// Every value `props` carries for `key`.
pub open spec fn pget(props: Seq<(Seq<char>, Seq<ExpandedV>)>, key: Seq<char>) -> Seq<ExpandedV> {
    vget(NodeV { id: None, types: Seq::empty(), props }, key)
}

/// `props` after adding each subject, in order, as an IRI value of `fwd`
/// unless that exact IRI is already there.
pub open spec fn inject_subjects(props: Seq<(Seq<char>, Seq<ExpandedV>)>, fwd: Seq<char>, subjects: Seq<Seq<char>>) -> Seq<(Seq<char>, Seq<ExpandedV>)>
    decreases subjects.len(),
{
    if subjects.len() == 0 {
        props
    } else {
        let p = inject_subjects(props, fwd, subjects.drop_last());
        let v = ExpandedV::Iri(subjects.last());
        if pget(p, fwd).contains(v) {
            p
        } else {
            vpush(p, fwd, seq![v])
        }
    }
}

/// The tree rooted at `n` after every node whose `@id` is the object of a
/// pair in `refs` has gained each such pair's subject under `fwd`.
pub open spec fn inject_tree(n: NodeV, refs: Seq<(Seq<char>, Seq<char>)>, fwd: Seq<char>) -> NodeV
    decreases n, 2nat,
{
    let props1 = inject_children(n, refs, fwd);
    NodeV {
        id: n.id,
        types: n.types,
        props: match n.id {
            Some(x) => inject_subjects(props1, fwd, subjects_of(refs, x)),
            None => props1,
        },
    }
}

/// `n`'s properties with every nested node rewritten by `inject_tree`.
pub open spec fn inject_children(n: NodeV, refs: Seq<(Seq<char>, Seq<char>)>, fwd: Seq<char>) -> Seq<(Seq<char>, Seq<ExpandedV>)>
    decreases n, 1nat,
{
    Seq::new(
        n.props.len(),
        |i: int|
            (
                n.props[i].0,
                Seq::new(
                    n.props[i].1.len(),
                    |j: int|
                        if 0 <= i < n.props.len() && 0 <= j < n.props[i].1.len() {
                            inject_value(n.props[i].1[j], refs, fwd)
                        } else {
                            ExpandedV::Literal(Seq::empty())
                        },
                ),
            ),
    )
}

pub open spec fn inject_value(v: ExpandedV, refs: Seq<(Seq<char>, Seq<char>)>, fwd: Seq<char>) -> ExpandedV
    decreases v, 0nat,
{
    match v {
        ExpandedV::Node(c) => ExpandedV::Node(inject_tree(c, refs, fwd)),
        other => other,
    }
}

/// Every `@id` in the tree rooted at `n`.
pub open spec fn tree_ids(n: NodeV) -> Set<Seq<char>>
    decreases n, 2nat,
{
    (match n.id {
        Some(x) => set![x],
        None => Set::empty(),
    }).union(props_ids(n.props))
}

pub open spec fn props_ids(ps: Seq<(Seq<char>, Seq<ExpandedV>)>) -> Set<Seq<char>>
    decreases ps, 1nat,
{
    if ps.len() == 0 {
        Set::empty()
    } else {
        props_ids(ps.drop_last()).union(values_ids(ps[ps.len() - 1].1))
    }
}

pub open spec fn values_ids(vs: Seq<ExpandedV>) -> Set<Seq<char>>
    decreases vs, 0nat,
{
    if vs.len() == 0 {
        Set::empty()
    } else {
        values_ids(vs.drop_last()).union(match vs[vs.len() - 1] {
            ExpandedV::Node(c) => tree_ids(c),
            _ => Set::empty(),
        })
    }
}

/// Whether `index` maps each object id to exactly the subjects naming it.
pub open spec fn index_matches(index: Map<Seq<char>, Vec<String>>, refs: Seq<(Seq<char>, Seq<char>)>) -> bool {
    forall|x: Seq<char>| #![auto]
        (index.contains_key(x) ==> index[x]@.map_values(|s: String| s@) == subjects_of(refs, x))
        && (!index.contains_key(x) ==> subjects_of(refs, x).len() == 0)
}

/// The index of the first property keyed `iri`, or `-1`.
pub open spec fn key_index(props: Seq<(String, Vec<Expanded>)>, iri: Seq<char>) -> int
    decreases props.len(),
{
    if props.len() == 0 {
        -1
    } else if props[0].0@ == iri {
        0
    } else {
        let r = key_index(props.drop_first(), iri);
        if r < 0 {
            -1
        } else {
            r + 1
        }
    }
}

/// Every value `props` carries for `iri` (empty when absent).
pub open spec fn prop_values(props: Seq<(String, Vec<Expanded>)>, iri: Seq<char>) -> Seq<Expanded> {
    let i = key_index(props, iri);
    if i < 0 {
        Seq::empty()
    } else {
        props[i].1@
    }
}

pub proof fn lemma_key_index(props: Seq<(String, Vec<Expanded>)>, iri: Seq<char>)
    ensures
        -1 <= key_index(props, iri) < props.len(),
        key_index(props, iri) >= 0 ==> props[key_index(props, iri)].0@ == iri,
        key_index(props, iri) >= 0 ==> forall|j: int| 0 <= j < key_index(props, iri) ==> props[j].0@ != iri,
        key_index(props, iri) < 0 ==> forall|j: int| 0 <= j < props.len() ==> props[j].0@ != iri,
    decreases props.len(),
{
    if props.len() > 0 && props[0].0@ != iri {
        lemma_key_index(props.drop_first(), iri);
        assert forall|j: int| 1 <= j < props.len() implies props[j] == props.drop_first()[j - 1] by {}
    }
}

/// `key_index` is determined by the keys alone.
pub proof fn lemma_key_index_same_keys(a: Seq<(String, Vec<Expanded>)>, b: Seq<(String, Vec<Expanded>)>, iri: Seq<char>)
    requires
        a.len() == b.len(),
        forall|j: int| 0 <= j < a.len() ==> a[j].0@ == b[j].0@,
    ensures
        key_index(a, iri) == key_index(b, iri),
    decreases a.len(),
{
    if a.len() > 0 {
        lemma_key_index_same_keys(a.drop_first(), b.drop_first(), iri);
    }
}

/// Appending a new key leaves every earlier lookup alone and makes the new
/// key findable at the end.
pub proof fn lemma_key_index_push(a: Seq<(String, Vec<Expanded>)>, e: (String, Vec<Expanded>), iri: Seq<char>)
    requires
        key_index(a, e.0@) < 0,
    ensures
        key_index(a.push(e), iri) == (if key_index(a, iri) >= 0 { key_index(a, iri) } else if e.0@ == iri { a.len() as int } else { -1 }),
    decreases a.len(),
{
    if a.len() > 0 {
        assert(a.push(e).drop_first() =~= a.drop_first().push(e));
        assert(a.push(e)[0] == a[0]);
        if a[0].0@ != iri {
            assert(a[0].0@ != e.0@);
            assert(key_index(a.drop_first(), e.0@) < 0);
            lemma_key_index_push(a.drop_first(), e, iri);
            assert(key_index(a.push(e), iri) == (if key_index(a.push(e).drop_first(), iri) < 0 { -1 } else { key_index(a.push(e).drop_first(), iri) + 1 }));
            assert(key_index(a, iri) == (if key_index(a.drop_first(), iri) < 0 { -1 } else { key_index(a.drop_first(), iri) + 1 }));
        }
    } else {
        assert(a.push(e)[0] == e);
        assert(a.push(e).len() == 1);
        assert(key_index(a.push(e).drop_first(), iri) == -1);
        assert(a.push(e).drop_first() =~= Seq::<(String, Vec<Expanded>)>::empty());
    }
}

impl Node {
    /// Every value this node carries for one absolute property IRI, in
    /// document order; empty when the property is absent.
    pub fn get(&self, iri: &str) -> (r: &[Expanded])
        ensures
            r@ == prop_values(self.props@, iri@),
    {
        let mut i: usize = 0;
        while i < self.props.len()
            invariant
                i <= self.props@.len(),
                forall|j: int| 0 <= j < i ==> self.props@[j].0@ != iri@,
            decreases self.props.len() - i,
        {
            if str_eq(self.props[i].0.as_str(), iri) {
                proof { lemma_key_index(self.props@, iri@); }
                return self.props[i].1.as_slice();
            }
            i = i + 1;
        }
        proof { lemma_key_index(self.props@, iri@); }
        &[]
    }

    /// Adds `values` under `iri`, after any values already there. Nothing
    /// happens for an empty `values`.
    pub fn push(&mut self, iri: String, values: Vec<Expanded>)
        ensures
            final(self).id == old(self).id,
            final(self).types == old(self).types,
            final(self)@ == (NodeV { id: old(self)@.id, types: old(self)@.types, props: vpush(old(self)@.props, iri@, vals_view(values@)) }),
            forall|k: Seq<char>| #![auto] prop_values(final(self).props@, k) == if k == iri@ {
                prop_values(old(self).props@, k) + values@
            } else {
                prop_values(old(self).props@, k)
            },
            values@.len() == 0 ==> final(self).props@ == old(self).props@,
            forall|k: Seq<char>| #![auto] key_index(old(self).props@, k) >= 0 ==> key_index(final(self).props@, k) >= 0,
            forall|k: Seq<char>| #![auto] key_index(final(self).props@, k) >= 0 ==> (key_index(old(self).props@, k) >= 0 || (k == iri@ && values@.len() > 0)),
    {
        if values.len() == 0 {
            assert forall|k: Seq<char>| #![auto] prop_values(old(self).props@, k) + values@ == prop_values(old(self).props@, k) by {
                assert(prop_values(old(self).props@, k) + values@ =~= prop_values(old(self).props@, k));
            }
            assert(vals_view(values@).len() == 0);
            return;
        }
        let mut vs = values;
        let ghost vals = vs@;
        let mut i: usize = 0;
        while i < self.props.len()
            invariant
                i <= self.props@.len(),
                self.props@ == old(self).props@,
                self.id == old(self).id,
                self.types == old(self).types,
                vs@ == vals,
                vals == values@,
                vals.len() > 0,
                forall|j: int| 0 <= j < i ==> self.props@[j].0@ != iri@,
            decreases self.props.len() - i,
        {
            if str_eq(self.props[i].0.as_str(), iri.as_str()) {
                proof { lemma_key_index(old(self).props@, iri@); }
                let ghost before = self.props@;
                self.props[i].1.append(&mut vs);
                proof {
                    lemma_key_index_same_keys(before, self.props@, iri@);
                    assert forall|k: Seq<char>| #![auto] prop_values(self.props@, k) == if k == iri@ {
                        prop_values(before, k) + vals
                    } else {
                        prop_values(before, k)
                    } by {
                        lemma_key_index_same_keys(before, self.props@, k);
                        lemma_key_index(before, k);
                    }
                    assert forall|k: Seq<char>| #![auto] key_index(before, k) >= 0 ==> key_index(self.props@, k) >= 0 by {
                        lemma_key_index_same_keys(before, self.props@, k);
                    }
                    assert forall|k: Seq<char>| #![auto] key_index(self.props@, k) >= 0 ==> key_index(before, k) >= 0 by {
                        lemma_key_index_same_keys(before, self.props@, k);
                    }
                    let ghost ov = old(self)@;
                    let ghost nv = self@;
                    lemma_get_view(*old(self), iri@);
                    lemma_node_view_entry(*old(self), i as int);
                    lemma_node_view_entry(*self, i as int);
                    let ghost want = vpush(ov.props, iri@, vals_view(values@));
                    assert(want == ov.props.update(i as int, (iri@, ov.props[i as int].1 + vals_view(values@))));
                    assert forall|x: int| 0 <= x < nv.props.len() implies #[trigger] nv.props[x] == want[x] by {
                        lemma_node_view_entry(*old(self), x);
                        lemma_node_view_entry(*self, x);
                        if x == i {
                            assert(nv.props[x].1 =~= ov.props[x].1 + vals_view(values@));
                        }
                    }
                    assert(nv.props =~= want);
                    assert(nv.types =~= ov.types);
                }
                return;
            }
            i = i + 1;
        }
        proof { lemma_key_index(old(self).props@, iri@); }
        let ghost e = (iri, vs);
        self.props.push((iri, vs));
        proof {
            assert forall|k: Seq<char>| #![auto] prop_values(self.props@, k) == if k == iri@ {
                prop_values(old(self).props@, k) + vals
            } else {
                prop_values(old(self).props@, k)
            } by {
                lemma_key_index_push(old(self).props@, e, k);
                lemma_key_index(old(self).props@, k);
                assert(Seq::<Expanded>::empty() + vals =~= vals);
            }
            assert forall|k: Seq<char>| #![auto] key_index(old(self).props@, k) >= 0 ==> key_index(self.props@, k) >= 0 by {
                lemma_key_index_push(old(self).props@, e, k);
            }
            assert forall|k: Seq<char>| #![auto] key_index(self.props@, k) >= 0 ==> (key_index(old(self).props@, k) >= 0 || (k == iri@ && vals.len() > 0)) by {
                lemma_key_index_push(old(self).props@, e, k);
            }
            let ghost ov = old(self)@;
            let ghost nv = self@;
            lemma_get_view(*old(self), iri@);
            let ghost want = vpush(ov.props, iri@, vals_view(values@));
            assert(want == ov.props.push((iri@, vals_view(values@))));
            assert forall|x: int| 0 <= x < nv.props.len() implies #[trigger] nv.props[x] == want[x] by {
                lemma_node_view_entry(*self, x);
                if x < ov.props.len() {
                    lemma_node_view_entry(*old(self), x);
                } else {
                    assert(nv.props[x].1 =~= vals_view(values@));
                }
            }
            assert(nv.props =~= want);
            assert(nv.types =~= ov.types);
        }
    }
}

/// The `@id` a value names, whether a bare IRI reference or an inline node.
fn node_reference_id(value: &Expanded) -> (r: Option<String>)
    ensures
        opt_str_view(r) == ref_id(value@),
{
    match value {
        Expanded::Iri(iri) => Some(iri.clone()),
        Expanded::Node(n) => n.id.clone(),
        Expanded::Literal(_) => None,
    }
}

/// Appends every `(subject_id, object_id)` pair the inverse property
/// states anywhere in the tree to `out`; a subject without an `@id` of its
/// own contributes nothing.
fn collect_inverse_refs(node: &Node, inverse_prop: &str, out: &mut Vec<(String, String)>)
    ensures
        pairs_view(final(out)@) == pairs_view(old(out)@) + tree_refs(node@, inverse_prop@),
    decreases *node,
{
    let ghost start = pairs_view(out@);
    match &node.id {
        Some(subject_id) => {
            let values = node.get(inverse_prop);
            proof { lemma_get_view(*node, inverse_prop@); }
            let mut k: usize = 0;
            while k < values.len()
                invariant
                    k <= values@.len(),
                    values@ == prop_values(node.props@, inverse_prop@),
                    node.id == Some(*subject_id),
                    vget(node@, inverse_prop@).len() == values@.len(),
                    forall|j: int| 0 <= j < values@.len() ==> #[trigger] vget(node@, inverse_prop@)[j] == values@[j]@,
                    pairs_view(out@) == start + refs_of_values(subject_id@, vget(node@, inverse_prop@).take(k as int)),
                decreases values.len() - k,
            {
                let r = node_reference_id(&values[k]);
                proof {
                    let vs = vget(node@, inverse_prop@);
                    assert(vs.take(k + 1).drop_last() =~= vs.take(k as int));
                    assert(vs.take(k + 1).last() == vs[k as int]);
                    assert(vs[k as int] == values@[k as int]@);
                }
                let ghost prev = out@;
                match r {
                    Some(object_id) => {
                        out.push((subject_id.clone(), object_id));
                    }
                    None => {}
                }
                proof {
                    assert(pairs_view(out@) =~= pairs_view(prev) + match ref_id(values@[k as int]@) {
                        Some(o) => seq![(subject_id@, o)],
                        None => Seq::empty(),
                    });
                    assert(pairs_view(out@) =~= start + refs_of_values(subject_id@, vget(node@, inverse_prop@).take(k + 1)));
                }
                k = k + 1;
            }
            proof {
                assert(vget(node@, inverse_prop@).take(k as int) =~= vget(node@, inverse_prop@));
            }
        }
        None => {
            assert(pairs_view(out@) =~= start + own_refs(node@, inverse_prop@));
        }
    }
    let ghost mid = pairs_view(out@);
    assert(mid == start + own_refs(node@, inverse_prop@));
    let mut i: usize = 0;
    while i < node.props.len()
        invariant
            i <= node.props@.len(),
            pairs_view(out@) == mid + props_refs(node@.props.take(i as int), inverse_prop@),
        decreases node.props.len() - i,
    {
        let values = &node.props[i].1;
        let ghost vvs = node@.props[i as int].1;
        assert(vvs.len() == values@.len());
        let ghost before = pairs_view(out@);
        let mut j: usize = 0;
        while j < values.len()
            invariant
                j <= values@.len(),
                i < node.props@.len(),
                *values == node.props@[i as int].1,
                vvs == node@.props[i as int].1,
                vvs.len() == values@.len(),
                pairs_view(out@) == before + values_refs(vvs.take(j as int), inverse_prop@),
            decreases values.len() - j,
        {
            assert(vvs[j as int] == values@[j as int]@);
            assert(vvs.take(j + 1).drop_last() =~= vvs.take(j as int));
            match &values[j] {
                Expanded::Node(child) => {
                    assert(decreases_to!(*node => node.props@[i as int].1@[j as int]));
                    collect_inverse_refs(child, inverse_prop, out);
                }
                _ => {}
            }
            assert(pairs_view(out@) =~= before + values_refs(vvs.take(j + 1), inverse_prop@));
            j = j + 1;
        }
        assert(vvs.take(j as int) =~= vvs);
        assert(node@.props.take(i + 1).drop_last() =~= node@.props.take(i as int));
        assert(pairs_view(out@) =~= mid + props_refs(node@.props.take(i + 1), inverse_prop@));
        i = i + 1;
    }
    assert(node@.props.take(i as int) =~= node@.props);
    assert(pairs_view(out@) =~= start + tree_refs(node@, inverse_prop@));
}


/// A fresh copy of a list of strings.
fn copy_strings(v: &Vec<String>) -> (r: Vec<String>)
    ensures
        r@ == v@,
{
    let mut r: Vec<String> = Vec::new();
    let mut i: usize = 0;
    while i < v.len()
        invariant
            i <= v@.len(),
            r@ == v@.take(i as int),
        decreases v.len() - i,
    {
        r.push(v[i].clone());
        assert(r@ =~= v@.take(i + 1));
        i = i + 1;
    }
    assert(v@.take(i as int) =~= v@);
    r
}

/// Groups the subjects of `refs` by the object id they name.
fn build_index(refs: &Vec<(String, String)>) -> (m: StringHashMap<Vec<String>>)
    ensures
        index_matches(m@, pairs_view(refs@)),
{
    let mut m: StringHashMap<Vec<String>> = StringHashMap::new();
    let mut k: usize = 0;
    while k < refs.len()
        invariant
            k <= refs@.len(),
            index_matches(m@, pairs_view(refs@).take(k as int)),
        decreases refs.len() - k,
    {
        let ghost pre = pairs_view(refs@).take(k as int);
        let ghost post = pairs_view(refs@).take(k + 1);
        assert(post.drop_last() =~= pre);
        let subject = &refs[k].0;
        let object = &refs[k].1;
        assert(post.last() == (subject@, object@));
        let mut subjects: Vec<String> = match m.get(object.as_str()) {
            Some(existing) => copy_strings(existing),
            None => Vec::new(),
        };
        let ghost before = subjects@;
        subjects.push(subject.clone());
        proof {
            assert(subjects@.map_values(|s: String| s@) =~= before.map_values(|s: String| s@).push(subject@));
        }
        let ghost old_m = m@;
        m.insert(object.clone(), subjects);
        proof {
            assert forall|x: Seq<char>| #![auto]
                (m@.contains_key(x) ==> m@[x]@.map_values(|s: String| s@) == subjects_of(post, x))
                && (!m@.contains_key(x) ==> subjects_of(post, x).len() == 0) by {
                if x == object@ {
                    if old_m.contains_key(x) {
                        assert(subjects_of(post, x) =~= subjects_of(pre, x).push(subject@));
                    } else {
                        assert(subjects_of(post, x) =~= subjects_of(pre, x).push(subject@));
                        assert(before.len() == 0);
                        assert(before.map_values(|s: String| s@) =~= Seq::<Seq<char>>::empty());
                        assert(subjects_of(pre, x) =~= Seq::<Seq<char>>::empty());
                    }
                } else {
                    assert(subjects_of(post, x) =~= subjects_of(pre, x));
                }
            }
        }
        k = k + 1;
    }
    assert(pairs_view(refs@).take(k as int) =~= pairs_view(refs@));
    m
}

/// Whether `vals` already holds the IRI value `iri`.
fn contains_iri(vals: &[Expanded], iri: &str) -> (r: bool)
    ensures
        r == vals_view(vals@).contains(ExpandedV::Iri(iri@)),
{
    let mut i: usize = 0;
    while i < vals.len()
        invariant
            i <= vals@.len(),
            forall|j: int| 0 <= j < i ==> vals_view(vals@)[j] != ExpandedV::Iri(iri@),
        decreases vals.len() - i,
    {
        match &vals[i] {
            Expanded::Iri(s) => {
                if str_eq(s.as_str(), iri) {
                    assert(vals_view(vals@)[i as int] == ExpandedV::Iri(iri@));
                    return true;
                }
            }
            _ => {}
        }
        assert(vals_view(vals@)[i as int] == vals@[i as int]@);
        i = i + 1;
    }
    false
}

/// Adds each subject, in order, under `fwd` unless already present.
fn inject_own(node: &mut Node, subjects: &Vec<String>, fwd: &str)
    ensures
        final(node)@ == (NodeV {
            id: old(node)@.id,
            types: old(node)@.types,
            props: inject_subjects(old(node)@.props, fwd@, subjects@.map_values(|s: String| s@)),
        }),
        final(node).id == old(node).id,
{
    let ghost sv = subjects@.map_values(|s: String| s@);
    let mut k: usize = 0;
    while k < subjects.len()
        invariant
            k <= subjects@.len(),
            sv == subjects@.map_values(|s: String| s@),
            node.id == old(node).id,
            node@ == (NodeV {
                id: old(node)@.id,
                types: old(node)@.types,
                props: inject_subjects(old(node)@.props, fwd@, sv.take(k as int)),
            }),
        decreases subjects.len() - k,
    {
        assert(sv.take(k + 1).drop_last() =~= sv.take(k as int));
        assert(sv.take(k + 1).last() == subjects@[k as int]@);
        let present = {
            let vals = node.get(fwd);
            proof { lemma_get_view(*node, fwd@); }
            assert(vals_view(vals@) =~= vget(node@, fwd@));
            contains_iri(vals, subjects[k].as_str())
        };
        assert(pget(node@.props, fwd@) == vget(node@, fwd@));
        if !present {
            let v = Expanded::Iri(subjects[k].clone());
            let mut vs: Vec<Expanded> = Vec::new();
            vs.push(v);
            assert(vals_view(vs@) =~= seq![ExpandedV::Iri(subjects@[k as int]@)]);
            node.push(fwd_owned(fwd), vs);
        }
        k = k + 1;
    }
    assert(sv.take(k as int) =~= sv);
}

fn fwd_owned(s: &str) -> (r: String)
    ensures
        r@ == s@,
{
    owned(s)
}

/// Gives every node in the tree whose `@id` `index` knows each subject
/// naming it under `fwd`, and records every `@id` met in `seen`.
fn inject_by_index(
    node: &mut Node,
    index: &StringHashMap<Vec<String>>,
    fwd: &str,
    Ghost(refs): Ghost<Seq<(Seq<char>, Seq<char>)>>,
    seen: &mut StringHashMap<bool>,
)
    requires
        index_matches(index@, refs),
    ensures
        final(node)@ == inject_tree(old(node)@, refs, fwd@),
        final(seen)@.dom() == old(seen)@.dom().union(tree_ids(old(node)@)),
    decreases *old(node),
{
    let len = node.props.len();
    let ghost on = node_view(*old(node));
    let ghost props1 = inject_children(on, refs, fwd@);
    let ghost seen0 = seen@.dom();
    proof {
        assert forall|a: int| 0 <= a < len implies #[trigger] on.props[a].1.len() == old(node).props@[a].1@.len() by {
            lemma_node_view_entry(*old(node), a);
        }
        assert forall|a: int| 0 <= a < len implies #[trigger] props1[a].1.len() == on.props[a].1.len() by {}
        assert forall|a: int, b: int| 0 <= a < len && 0 <= b < on.props[a].1.len() implies #[trigger] props1[a].1[b] == inject_value(on.props[a].1[b], refs, fwd@) by {}
    }
    let mut i: usize = 0;
    while i < len
        invariant
            len == node.props@.len() == old(node).props@.len() == on.props.len() == props1.len(),
            i <= len,
            on == node_view(*old(node)),
            node.id == old(node).id,
            node.types == old(node).types,
            index_matches(index@, refs),
            forall|a: int| 0 <= a < len ==> node.props@[a].0 == old(node).props@[a].0,
            forall|a: int| 0 <= a < len ==> node.props@[a].1@.len() == old(node).props@[a].1@.len(),
            forall|a: int| 0 <= a < len ==> #[trigger] on.props[a].1.len() == old(node).props@[a].1@.len(),
            forall|a: int| 0 <= a < len ==> #[trigger] props1[a].1.len() == on.props[a].1.len(),
            forall|a: int, b: int| 0 <= a < len && 0 <= b < on.props[a].1.len() ==> #[trigger] props1[a].1[b] == inject_value(on.props[a].1[b], refs, fwd@),
            forall|a: int, b: int| 0 <= a < i && 0 <= b < node.props@[a].1@.len() ==> (#[trigger] node.props@[a].1@[b])@ == props1[a].1[b],
            forall|a: int| i <= a < len ==> node.props@[a] == old(node).props@[a],
            seen@.dom() == seen0.union(props_ids(on.props.take(i as int))),
        decreases len - i,
    {
        let vlen = node.props[i].1.len();
        let ghost seen_i = seen@.dom();
        let mut j: usize = 0;
        while j < vlen
            invariant
                len == node.props@.len() == old(node).props@.len() == on.props.len() == props1.len(),
                i < len,
                on == node_view(*old(node)),
                j <= vlen == node.props@[i as int].1@.len() == old(node).props@[i as int].1@.len(),
                node.id == old(node).id,
                node.types == old(node).types,
                index_matches(index@, refs),
                forall|a: int| 0 <= a < len ==> node.props@[a].0 == old(node).props@[a].0,
                forall|a: int| 0 <= a < len ==> node.props@[a].1@.len() == old(node).props@[a].1@.len(),
                forall|a: int| 0 <= a < len ==> #[trigger] on.props[a].1.len() == old(node).props@[a].1@.len(),
                forall|a: int| 0 <= a < len ==> #[trigger] props1[a].1.len() == on.props[a].1.len(),
                forall|a: int, b: int| 0 <= a < len && 0 <= b < on.props[a].1.len() ==> #[trigger] props1[a].1[b] == inject_value(on.props[a].1[b], refs, fwd@),
            forall|a: int| 0 <= a < len ==> #[trigger] props1[a].1.len() == on.props[a].1.len(),
            forall|a: int, b: int| 0 <= a < len && 0 <= b < on.props[a].1.len() ==> #[trigger] props1[a].1[b] == inject_value(on.props[a].1[b], refs, fwd@),
                forall|a: int, b: int| 0 <= a < i && 0 <= b < node.props@[a].1@.len() ==> (#[trigger] node.props@[a].1@[b])@ == props1[a].1[b],
                forall|b: int| 0 <= b < j ==> (#[trigger] node.props@[i as int].1@[b])@ == props1[i as int].1[b],
                forall|b: int| j <= b < vlen ==> node.props@[i as int].1@[b] == old(node).props@[i as int].1@[b],
                forall|a: int| i < a < len ==> node.props@[a] == old(node).props@[a],
                seen@.dom() == seen_i.union(values_ids(on.props[i as int].1.take(j as int))),
            decreases vlen - j,
        {
            proof {
                lemma_node_view_entry(*old(node), i as int);
                assert(on.props[i as int].1 == vals_view(old(node).props@[i as int].1@));
                assert(vals_view(old(node).props@[i as int].1@)[j as int] == old(node).props@[i as int].1@[j as int]@);
                assert(on.props[i as int].1[j as int] == old(node).props@[i as int].1@[j as int]@);
                assert(on.props[i as int].1.take(j + 1).drop_last() =~= on.props[i as int].1.take(j as int));
            }
            match &mut node.props[i].1[j] {
                Expanded::Node(child) => {
                    assert(decreases_to!(*old(node) => old(node).props@[i as int].1@[j as int]));
                    inject_by_index(child, index, fwd, Ghost(refs), seen);
                }
                _ => {}
            }
            proof {
                assert(seen@.dom() =~= seen_i.union(values_ids(on.props[i as int].1.take(j + 1))));
            }
            j = j + 1;
        }
        proof {
            assert(on.props[i as int].1.take(j as int) =~= on.props[i as int].1);
            assert(on.props.take(i + 1).drop_last() =~= on.props.take(i as int));
            assert(seen@.dom() =~= seen0.union(props_ids(on.props.take(i + 1))));
        }
        i = i + 1;
    }
    proof {
        assert(on.props.take(i as int) =~= on.props);
        assert forall|a: int| 0 <= a < len implies #[trigger] node@.props[a] == props1[a] by {
            lemma_node_view_entry(*node, a);
            assert(node@.props[a].1 =~= props1[a].1);
        }
        assert(node@.props =~= props1);
        assert(node@.types =~= on.types);
    }
    match &node.id {
        Some(id) => {
            let found = match index.get(id.as_str()) {
                Some(_) => true,
                None => false,
            };
            let ghost before = seen@.dom();
            seen.insert(id.clone(), found);
            proof {
                assert(seen@.dom() =~= seen0.union(tree_ids(on)));
            }
            match index.get(id.as_str()) {
                Some(subjects) => {
                    inject_own(node, subjects, fwd);
                }
                None => {
                    assert(subjects_of(refs, id@) =~= Seq::<Seq<char>>::empty());
                }
            }
        }
        None => {
            assert(seen@.dom() =~= seen0.union(tree_ids(on)));
        }
    }
}


/// The warning for an inverse reference naming an `@id` no node carries.
pub open spec fn n1_warning(subject: Seq<char>, inverse: Seq<char>, object: Seq<char>) -> Seq<char> {
    debug_str(subject) + " declares odrl:"@ + inverse + " naming "@ + debug_str(object)
        + ", but no node with that @id exists anywhere in the document; the reference is ignored (N1)"@
}

/// One warning per pair whose object is not among `ids`, in order.
pub open spec fn missing_ref_warnings(refs: Seq<(Seq<char>, Seq<char>)>, ids: Set<Seq<char>>, inverse: Seq<char>) -> Seq<Seq<char>>
    decreases refs.len(),
{
    if refs.len() == 0 {
        Seq::empty()
    } else {
        missing_ref_warnings(refs.drop_last(), ids, inverse) + if ids.contains(refs.last().1) {
            Seq::empty()
        } else {
            seq![n1_warning(refs.last().0, inverse, refs.last().1)]
        }
    }
}

/// The tree after rewriting one inverse property into its forward form.
pub open spec fn internalized_one(n: NodeV, inverse: Seq<char>, forward: Seq<char>) -> NodeV {
    inject_tree(n, tree_refs(n, ODRL_NS@ + inverse), ODRL_NS@ + forward)
}

/// The warnings rewriting one inverse property emits.
pub open spec fn internalized_one_warnings(n: NodeV, inverse: Seq<char>) -> Seq<Seq<char>> {
    missing_ref_warnings(tree_refs(n, ODRL_NS@ + inverse), tree_ids(n), inverse)
}

/// `hasPolicy` into `target`, then `assigneeOf` into `assignee`, then
/// `assignerOf` into `assigner`.
pub open spec fn internalized(n: NodeV) -> NodeV {
    internalized_one(internalized_one(internalized_one(n, "hasPolicy"@, "target"@), "assigneeOf"@, "assignee"@), "assignerOf"@, "assigner"@)
}

pub open spec fn internalized_warnings(n: NodeV) -> Seq<Seq<char>> {
    let n1 = internalized_one(n, "hasPolicy"@, "target"@);
    let n2 = internalized_one(n1, "assigneeOf"@, "assignee"@);
    internalized_one_warnings(n, "hasPolicy"@) + internalized_one_warnings(n1, "assigneeOf"@)
        + internalized_one_warnings(n2, "assignerOf"@)
}

fn internalize_one(root: &mut Node, warnings: &mut Vec<String>, inverse: &str, forward: &str)
    ensures
        final(root)@ == internalized_one(old(root)@, inverse@, forward@),
        strings_view(final(warnings)@) == strings_view(old(warnings)@) + internalized_one_warnings(old(root)@, inverse@),
{
    let inverse_prop = concat2(ODRL_NS, inverse);
    let forward_prop = concat2(ODRL_NS, forward);
    let mut refs: Vec<(String, String)> = Vec::new();
    collect_inverse_refs(root, inverse_prop.as_str(), &mut refs);
    assert(pairs_view(refs@) =~= tree_refs(old(root)@, ODRL_NS@ + inverse@));
    let index = build_index(&refs);
    let mut seen: StringHashMap<bool> = StringHashMap::new();
    inject_by_index(root, &index, forward_prop.as_str(), Ghost(pairs_view(refs@)), &mut seen);
    assert(seen@.dom() =~= tree_ids(old(root)@));
    let ghost ws0 = strings_view(warnings@);
    let ghost rv = pairs_view(refs@);
    let mut k: usize = 0;
    while k < refs.len()
        invariant
            k <= refs@.len(),
            rv == pairs_view(refs@),
            seen@.dom() == tree_ids(old(root)@),
            strings_view(warnings@) == ws0 + missing_ref_warnings(rv.take(k as int), tree_ids(old(root)@), inverse@),
        decreases refs.len() - k,
    {
        assert(rv.take(k + 1).drop_last() =~= rv.take(k as int));
        assert(rv.take(k + 1).last() == (refs@[k as int].0@, refs@[k as int].1@));
        let ghost w_before = warnings@;
        if !seen.contains_key(refs[k].1.as_str()) {
            let mut msg = debug_quoted(refs[k].0.as_str());
            msg.append(" declares odrl:");
            msg.append(inverse);
            msg.append(" naming ");
            let o = debug_quoted(refs[k].1.as_str());
            msg.append(o.as_str());
            msg.append(", but no node with that @id exists anywhere in the document; the reference is ignored (N1)");
            assert(msg@ == n1_warning(refs@[k as int].0@, inverse@, refs@[k as int].1@));
            warnings.push(msg);
            assert(strings_view(warnings@) =~= strings_view(w_before).push(n1_warning(refs@[k as int].0@, inverse@, refs@[k as int].1@)));
        }
        assert(strings_view(warnings@) =~= ws0 + missing_ref_warnings(rv.take(k + 1), tree_ids(old(root)@), inverse@));
        k = k + 1;
    }
    assert(rv.take(k as int) =~= rv);
}

/// Rewrites each inverse property (`odrl:hasPolicy`, `odrl:assigneeOf`,
/// `odrl:assignerOf`, stated on the node the property's subject describes)
/// into its forward counterpart stated on the node it names (`odrl:target`,
/// `odrl:assignee`, `odrl:assigner`), warning about every reference to an
/// `@id` no node in the document carries.
pub fn internalize_inverse_properties(root: &mut Node, warnings: &mut Vec<String>)
    ensures
        final(root)@ == internalized(old(root)@),
        strings_view(final(warnings)@) == strings_view(old(warnings)@) + internalized_warnings(old(root)@),
{
    let ghost w0 = strings_view(warnings@);
    internalize_one(root, warnings, "hasPolicy", "target");
    internalize_one(root, warnings, "assigneeOf", "assignee");
    internalize_one(root, warnings, "assignerOf", "assigner");
    assert(strings_view(warnings@) =~= w0 + internalized_warnings(old(root)@));
}


/// The value of a list of property entries.
pub open spec fn props_view(ps: Seq<(String, Vec<Expanded>)>) -> Seq<(Seq<char>, Seq<ExpandedV>)> {
    Seq::new(ps.len(), |i: int| (ps[i].0@, vals_view(ps[i].1@)))
}

/// The value of a node, field by field.
pub proof fn lemma_node_view(n: Node)
    ensures
        n@ == (NodeV { id: opt_str_view(n.id), types: strings_view(n.types@), props: props_view(n.props@) }),
{
    assert forall|i: int| 0 <= i < n.props@.len() implies #[trigger] n@.props[i] == props_view(n.props@)[i] by {
        lemma_node_view_entry(n, i);
    }
    assert(n@.props =~= props_view(n.props@));
    assert(n@.types =~= strings_view(n.types@));
}

/// The values of a list of nodes.
pub open spec fn nodes_view(v: Seq<Node>) -> Seq<NodeV> {
    Seq::new(v.len(), |i: int| v[i]@)
}

pub fn copy_expanded(e: &Expanded) -> (r: Expanded)
    ensures
        r@ == e@,
    decreases *e, 1nat,
{
    match e {
        Expanded::Node(n) => Expanded::Node(copy_node(n)),
        Expanded::Iri(s) => Expanded::Iri(s.clone()),
        Expanded::Literal(s) => Expanded::Literal(s.clone()),
    }
}

fn copy_values(n: &Node, i: usize) -> (r: Vec<Expanded>)
    requires
        i < n.props@.len(),
    ensures
        vals_view(r@) == vals_view(n.props@[i as int].1@),
    decreases *n, 0nat,
{
    let vs = &n.props[i].1;
    let mut r: Vec<Expanded> = Vec::new();
    let mut j: usize = 0;
    while j < vs.len()
        invariant
            i < n.props@.len(),
            *vs == n.props@[i as int].1,
            j <= vs@.len(),
            r@.len() == j,
            forall|x: int| 0 <= x < j ==> (#[trigger] r@[x])@ == vs@[x]@,
        decreases vs.len() - j,
    {
        assert(decreases_to!(*n => n.props@[i as int].1@[j as int]));
        let e = copy_expanded(&vs[j]);
        r.push(e);
        j = j + 1;
    }
    assert(vals_view(r@) =~= vals_view(vs@));
    r
}

/// Deep copies of `vs`, in order.
pub fn copy_values_of(vs: &[Expanded]) -> (r: Vec<Expanded>)
    ensures
        vals_view(r@) == vals_view(vs@),
{
    let mut r: Vec<Expanded> = Vec::new();
    let mut j: usize = 0;
    while j < vs.len()
        invariant
            j <= vs@.len(),
            r@.len() == j,
            forall|x: int| 0 <= x < j ==> (#[trigger] r@[x])@ == vs@[x]@,
        decreases vs.len() - j,
    {
        r.push(copy_expanded(&vs[j]));
        j = j + 1;
    }
    assert(vals_view(r@) =~= vals_view(vs@));
    r
}

/// A deep copy of `n`.
pub fn copy_node(n: &Node) -> (r: Node)
    ensures
        r@ == n@,
    decreases *n, 2nat,
{
    let mut props: Vec<(String, Vec<Expanded>)> = Vec::new();
    let mut i: usize = 0;
    while i < n.props.len()
        invariant
            i <= n.props@.len(),
            props@.len() == i,
            forall|x: int| 0 <= x < i ==> (#[trigger] props@[x]).0@ == n.props@[x].0@ && vals_view(props@[x].1@) == vals_view(n.props@[x].1@),
        decreases n.props.len() - i,
    {
        let vs = copy_values(n, i);
        props.push((n.props[i].0.clone(), vs));
        i = i + 1;
    }
    assert(props_view(props@) =~= props_view(n.props@));
    let mut types: Vec<String> = Vec::new();
    let mut k: usize = 0;
    while k < n.types.len()
        invariant
            k <= n.types@.len(),
            types@ == n.types@.take(k as int),
        decreases n.types.len() - k,
    {
        types.push(n.types[k].clone());
        assert(types@ =~= n.types@.take(k + 1));
        k = k + 1;
    }
    assert(n.types@.take(k as int) =~= n.types@);
    let r = Node { id: match &n.id { Some(s) => Some(s.clone()), None => None }, types, props };
    proof {
        lemma_node_view(r);
        lemma_node_view(*n);
    }
    r
}


/// `odrl:action`.
pub open spec fn action_iri() -> Seq<char> {
    ODRL_NS@ + "action"@
}

/// `odrl:target`.
pub open spec fn target_iri() -> Seq<char> {
    ODRL_NS@ + "target"@
}

/// `ps` without any entry keyed `a` or `b`.
pub open spec fn strip_props(ps: Seq<(Seq<char>, Seq<ExpandedV>)>, a: Seq<char>, b: Seq<char>) -> Seq<(Seq<char>, Seq<ExpandedV>)>
    decreases ps.len(),
{
    if ps.len() == 0 {
        ps
    } else {
        let r = strip_props(ps.drop_last(), a, b);
        if ps.last().0 == a || ps.last().0 == b {
            r
        } else {
            r.push(ps.last())
        }
    }
}

pub open spec fn opt_seq(o: Option<ExpandedV>) -> Seq<ExpandedV> {
    match o {
        Some(v) => seq![v],
        None => Seq::empty(),
    }
}

/// One atomic clone of rule `n`, naming action `a` and target `t` (or
/// none of its own where `None`), every other property copied verbatim.
pub open spec fn atomic_rule(n: NodeV, a: Option<ExpandedV>, t: Option<ExpandedV>) -> NodeV {
    NodeV {
        id: n.id,
        types: n.types,
        props: vpush(vpush(strip_props(n.props, action_iri(), target_iri()), action_iri(), opt_seq(a)), target_iri(), opt_seq(t)),
    }
}

/// One variant per value, or a single "none of its own" variant.
pub open spec fn variants(vs: Seq<ExpandedV>) -> Seq<Option<ExpandedV>> {
    if vs.len() == 0 {
        seq![None]
    } else {
        Seq::new(vs.len(), |i: int| Some(vs[i]))
    }
}

pub open spec fn rule_row(n: NodeV, a: Option<ExpandedV>, tv: Seq<Option<ExpandedV>>) -> Seq<NodeV> {
    Seq::new(tv.len(), |k: int| atomic_rule(n, a, tv[k]))
}

/// Every `(action, target)` combination, actions outermost.
pub open spec fn rule_grid(n: NodeV, av: Seq<Option<ExpandedV>>, tv: Seq<Option<ExpandedV>>) -> Seq<NodeV>
    decreases av.len(),
{
    if av.len() == 0 {
        Seq::empty()
    } else {
        rule_grid(n, av.drop_last(), tv) + rule_row(n, av.last(), tv)
    }
}

/// Whether a rule names more than one action or more than one target.
pub open spec fn is_compound(n: NodeV) -> bool {
    vget(n, action_iri()).len() > 1 || vget(n, target_iri()).len() > 1
}

/// A rule split into one atomic rule per `(action, target)` combination;
/// an atomic rule is returned unchanged.
pub open spec fn one_rule(n: NodeV) -> Seq<NodeV> {
    if !is_compound(n) {
        seq![n]
    } else {
        rule_grid(n, variants(vget(n, action_iri())), variants(vget(n, target_iri())))
    }
}

pub open spec fn at_least_one(x: nat) -> nat {
    if x == 0 {
        1
    } else {
        x
    }
}

pub open spec fn n5_warning(local: Seq<char>, actions: nat, targets: nat) -> Seq<char> {
    "the odrl:"@ + local + " rule names "@ + decimal(actions) + " action(s) and "@ + decimal(targets)
        + " target(s); expanded into "@ + decimal(actions * targets)
        + " atomic rules (N5 — see docs/spikes/2026-09-24-odrl-policy-validation-atomization-gap-analysis.md in the dataspace repo)"@
}

pub open spec fn one_rule_warnings(n: NodeV, local: Seq<char>) -> Seq<Seq<char>> {
    if !is_compound(n) {
        Seq::empty()
    } else {
        seq![n5_warning(local, at_least_one(vget(n, action_iri()).len()), at_least_one(vget(n, target_iri()).len()))]
    }
}

pub proof fn lemma_rule_grid_len(n: NodeV, av: Seq<Option<ExpandedV>>, tv: Seq<Option<ExpandedV>>)
    ensures
        rule_grid(n, av, tv).len() == av.len() * tv.len(),
    decreases av.len(),
{
    if av.len() > 0 {
        lemma_rule_grid_len(n, av.drop_last(), tv);
        assert(av.len() * tv.len() == (av.len() - 1) * tv.len() + tv.len()) by (nonlinear_arith);
    }
}

/// `props` without the entries keyed `a` or `b`, deep-copied.
fn strip_copy(n: &Node, a: &str, b: &str) -> (r: Vec<(String, Vec<Expanded>)>)
    ensures
        props_view(r@) == strip_props(n@.props, a@, b@),
{
    let mut r: Vec<(String, Vec<Expanded>)> = Vec::new();
    let mut i: usize = 0;
    proof { lemma_node_view(*n); }
    while i < n.props.len()
        invariant
            i <= n.props@.len(),
            n@.props == props_view(n.props@),
            props_view(r@) == strip_props(n@.props.take(i as int), a@, b@),
        decreases n.props.len() - i,
    {
        assert(n@.props.take(i + 1).drop_last() =~= n@.props.take(i as int));
        assert(n@.props.take(i + 1).last() == (n.props@[i as int].0@, vals_view(n.props@[i as int].1@)));
        let key = &n.props[i].0;
        if !str_eq(key.as_str(), a) && !str_eq(key.as_str(), b) {
            let vs = copy_values(n, i);
            let ghost pre = r@;
            r.push((key.clone(), vs));
            assert(props_view(r@) =~= props_view(pre).push((key@, vals_view(n.props@[i as int].1@))));
        }
        i = i + 1;
    }
    assert(n@.props.take(i as int) =~= n@.props);
    r
}

/// Copies of the values `n` carries for `iri`.
fn copy_prop(n: &Node, iri: &str) -> (r: Vec<Expanded>)
    ensures
        vals_view(r@) == vget(n@, iri@),
{
    let vals = n.get(iri);
    proof { lemma_get_view(*n, iri@); }
    let mut r: Vec<Expanded> = Vec::new();
    let mut j: usize = 0;
    while j < vals.len()
        invariant
            j <= vals@.len(),
            vals@ == prop_values(n.props@, iri@),
            vget(n@, iri@).len() == vals@.len(),
            forall|x: int| 0 <= x < vals@.len() ==> #[trigger] vget(n@, iri@)[x] == vals@[x]@,
            r@.len() == j,
            forall|x: int| 0 <= x < j ==> (#[trigger] r@[x])@ == vals@[x]@,
        decreases vals.len() - j,
    {
        r.push(copy_expanded(&vals[j]));
        j = j + 1;
    }
    assert(vals_view(r@) =~= vget(n@, iri@));
    r
}

/// One atomic clone of `node` carrying action `a` and target `t`.
fn atomic_clone(node: &Node, a: Option<&Expanded>, t: Option<&Expanded>) -> (r: Node)
    ensures
        r@ == atomic_rule(node@, match a { Some(x) => Some(x@), None => None }, match t { Some(x) => Some(x@), None => None }),
{
    let action_prop = concat2(ODRL_NS, "action");
    let target_prop = concat2(ODRL_NS, "target");
    let props = strip_copy(node, action_prop.as_str(), target_prop.as_str());
    let id = match &node.id { Some(s) => Some(s.clone()), None => None };
    let mut types: Vec<String> = Vec::new();
    let mut k: usize = 0;
    while k < node.types.len()
        invariant
            k <= node.types@.len(),
            types@ == node.types@.take(k as int),
        decreases node.types.len() - k,
    {
        types.push(node.types[k].clone());
        assert(types@ =~= node.types@.take(k + 1));
        k = k + 1;
    }
    assert(node.types@.take(k as int) =~= node.types@);
    let mut clone = Node { id, types, props };
    proof {
        lemma_node_view(clone);
        lemma_node_view(*node);
    }
    match a {
        Some(x) => {
            let mut v: Vec<Expanded> = Vec::new();
            v.push(copy_expanded(x));
            assert(vals_view(v@) =~= seq![x@]);
            clone.push(action_prop, v);
        }
        None => {}
    }
    match t {
        Some(x) => {
            let mut v: Vec<Expanded> = Vec::new();
            v.push(copy_expanded(x));
            assert(vals_view(v@) =~= seq![x@]);
            clone.push(target_prop, v);
        }
        None => {}
    }
    clone
}

/// Splits one rule into one atomic clone per `(action, target)`
/// combination when it names more than one of either; `local` names the
/// rule's kind in the warning this emits.
fn expand_one_rule(node: &Node, local: &str, warnings: &mut Vec<String>) -> (r: Vec<Node>)
    ensures
        nodes_view(r@) == one_rule(node@),
        strings_view(final(warnings)@) == strings_view(old(warnings)@) + one_rule_warnings(node@, local@),
{
    let action_prop = concat2(ODRL_NS, "action");
    let target_prop = concat2(ODRL_NS, "target");
    let actions = copy_prop(node, action_prop.as_str());
    let targets = copy_prop(node, target_prop.as_str());
    if actions.len() <= 1 && targets.len() <= 1 {
        let mut r: Vec<Node> = Vec::new();
        r.push(copy_node(node));
        assert(nodes_view(r@) =~= one_rule(node@));
        assert(strings_view(warnings@) =~= strings_view(old(warnings)@) + one_rule_warnings(node@, local@));
        return r;
    }
    let ghost av = variants(vget(node@, action_iri()));
    let ghost tv = variants(vget(node@, target_iri()));
    let na: usize = if actions.len() == 0 { 1 } else { actions.len() };
    let nt: usize = if targets.len() == 0 { 1 } else { targets.len() };
    let mut out: Vec<Node> = Vec::new();
    let mut ai: usize = 0;
    while ai < na
        invariant
            ai <= na,
            na == av.len(),
            nt == tv.len(),
            av == variants(vals_view(actions@)),
            tv == variants(vals_view(targets@)),
            nodes_view(out@) == rule_grid(node@, av.take(ai as int), tv),
        decreases na - ai,
    {
        let mut ti: usize = 0;
        let ghost base = nodes_view(out@);
        while ti < nt
            invariant
                ai < na,
                ti <= nt,
                na == av.len(),
                nt == tv.len(),
                av == variants(vals_view(actions@)),
                tv == variants(vals_view(targets@)),
                nodes_view(out@) == base + rule_row(node@, av[ai as int], tv).take(ti as int),
            decreases nt - ti,
        {
            let a = if actions.len() == 0 { None } else { Some(&actions[ai]) };
            let t = if targets.len() == 0 { None } else { Some(&targets[ti]) };
            let c = atomic_clone(node, a, t);
            let ghost pre = nodes_view(out@);
            out.push(c);
            assert(nodes_view(out@) =~= pre.push(c@));
            assert(rule_row(node@, av[ai as int], tv).take(ti + 1) =~= rule_row(node@, av[ai as int], tv).take(ti as int).push(c@));
            ti = ti + 1;
        }
        assert(rule_row(node@, av[ai as int], tv).take(ti as int) =~= rule_row(node@, av[ai as int], tv));
        assert(av.take(ai + 1).drop_last() =~= av.take(ai as int));
        ai = ai + 1;
    }
    assert(av.take(ai as int) =~= av);
    proof { lemma_rule_grid_len(node@, av, tv); }
    let total = out.len();
    assert(total == na * nt);
    let mut msg = concat2("the odrl:", local);
    msg.append(" rule names ");
    let s1 = usize_string(na);
    msg.append(s1.as_str());
    msg.append(" action(s) and ");
    let s2 = usize_string(nt);
    msg.append(s2.as_str());
    msg.append(" target(s); expanded into ");
    let s3 = usize_string(total);
    msg.append(s3.as_str());
    msg.append(" atomic rules (N5 — see docs/spikes/2026-09-24-odrl-policy-validation-atomization-gap-analysis.md in the dataspace repo)");
    let ghost w0 = warnings@;
    warnings.push(msg);
    assert(strings_view(warnings@) =~= strings_view(old(warnings)@) + one_rule_warnings(node@, local@));
    out
}


/// How deep the compound-rule split walks the document tree.
pub const MAX_EXPAND_DEPTH: usize = 8;

/// Node values wrapping each of `ns`.
pub open spec fn node_values(ns: Seq<NodeV>) -> Seq<ExpandedV> {
    Seq::new(ns.len(), |x: int| ExpandedV::Node(ns[x]))
}

/// A rule-list property's values after splitting every compound rule.
pub open spec fn split_values(vs: Seq<ExpandedV>) -> Seq<ExpandedV>
    decreases vs.len(),
{
    if vs.len() == 0 {
        Seq::empty()
    } else {
        split_values(vs.drop_last()) + match vs.last() {
            ExpandedV::Node(r) => node_values(one_rule(r)),
            other => seq![other],
        }
    }
}

pub open spec fn split_values_warnings(vs: Seq<ExpandedV>, local: Seq<char>) -> Seq<Seq<char>>
    decreases vs.len(),
{
    if vs.len() == 0 {
        Seq::empty()
    } else {
        split_values_warnings(vs.drop_last(), local) + match vs.last() {
            ExpandedV::Node(r) => one_rule_warnings(r, local),
            _ => Seq::empty(),
        }
    }
}

/// `ps` with the `odrl:<local>` entry's rules split.
pub open spec fn split_prop(ps: Seq<(Seq<char>, Seq<ExpandedV>)>, local: Seq<char>) -> Seq<(Seq<char>, Seq<ExpandedV>)> {
    let i = vkey_index(ps, ODRL_NS@ + local);
    if i < 0 {
        ps
    } else {
        ps.update(i, (ps[i].0, split_values(ps[i].1)))
    }
}

pub open spec fn split_prop_warnings(ps: Seq<(Seq<char>, Seq<ExpandedV>)>, local: Seq<char>) -> Seq<Seq<char>> {
    let i = vkey_index(ps, ODRL_NS@ + local);
    if i < 0 {
        Seq::empty()
    } else {
        split_values_warnings(ps[i].1, local)
    }
}

/// A node's own permissions, prohibitions and obligations split.
pub open spec fn split_here(ps: Seq<(Seq<char>, Seq<ExpandedV>)>) -> Seq<(Seq<char>, Seq<ExpandedV>)> {
    split_prop(split_prop(split_prop(ps, "permission"@), "prohibition"@), "obligation"@)
}

pub open spec fn split_here_warnings(ps: Seq<(Seq<char>, Seq<ExpandedV>)>) -> Seq<Seq<char>> {
    let p1 = split_prop(ps, "permission"@);
    let p2 = split_prop(p1, "prohibition"@);
    split_prop_warnings(ps, "permission"@) + split_prop_warnings(p1, "prohibition"@) + split_prop_warnings(p2, "obligation"@)
}

/// The tree rooted at `n` (at depth `d`) with every compound rule in
/// every rule list split, down to depth `MAX_EXPAND_DEPTH`.
pub open spec fn compound_tree(n: NodeV, d: int) -> NodeV
    decreases 9 - d, 1nat,
{
    if d > 8 {
        n
    } else {
        NodeV { id: n.id, types: n.types, props: compound_children(split_here(n.props), d) }
    }
}

pub open spec fn compound_children(ps: Seq<(Seq<char>, Seq<ExpandedV>)>, d: int) -> Seq<(Seq<char>, Seq<ExpandedV>)>
    decreases 9 - d, 0nat,
{
    if d > 8 {
        ps
    } else {
        Seq::new(
            ps.len(),
            |i: int|
                (
                    ps[i].0,
                    Seq::new(
                        ps[i].1.len(),
                        |j: int|
                            if 0 <= i < ps.len() && 0 <= j < ps[i].1.len() {
                                match ps[i].1[j] {
                                    ExpandedV::Node(c) => ExpandedV::Node(compound_tree(c, d + 1)),
                                    other => other,
                                }
                            } else {
                                ExpandedV::Literal(Seq::empty())
                            },
                    ),
                ),
        )
    }
}

pub open spec fn compound_warnings(n: NodeV, d: int) -> Seq<Seq<char>>
    decreases 9 - d, 2nat,
{
    if d > 8 {
        Seq::empty()
    } else {
        split_here_warnings(n.props) + flat(child_warning_rows(split_here(n.props), d))
    }
}

pub open spec fn child_warning_rows(ps: Seq<(Seq<char>, Seq<ExpandedV>)>, d: int) -> Seq<Seq<Seq<char>>>
    decreases 9 - d, 1nat,
{
    if d > 8 {
        Seq::empty()
    } else {
        Seq::new(ps.len(), |i: int| flat(child_warning_row(ps, i, d)))
    }
}

pub open spec fn child_warning_row(ps: Seq<(Seq<char>, Seq<ExpandedV>)>, i: int, d: int) -> Seq<Seq<Seq<char>>>
    decreases 9 - d, 0nat,
{
    if d > 8 || !(0 <= i < ps.len()) {
        Seq::empty()
    } else {
        Seq::new(
            ps[i].1.len(),
            |j: int|
                if 0 <= j < ps[i].1.len() {
                    match ps[i].1[j] {
                        ExpandedV::Node(c) => compound_warnings(c, d + 1),
                        _ => Seq::empty(),
                    }
                } else {
                    Seq::empty()
                },
        )
    }
}

/// The position of the first property keyed `key`.
fn find_key(node: &Node, key: &str) -> (r: Option<usize>)
    ensures
        match r {
            Some(i) => i < node.props@.len() && key_index(node.props@, key@) == i,
            None => key_index(node.props@, key@) == -1,
        },
{
    proof { lemma_key_index(node.props@, key@); }
    let mut i: usize = 0;
    while i < node.props.len()
        invariant
            i <= node.props@.len(),
            forall|x: int| 0 <= x < i ==> node.props@[x].0@ != key@,
        decreases node.props.len() - i,
    {
        if str_eq(node.props[i].0.as_str(), key) {
            proof {
                lemma_key_index(node.props@, key@);
                let ki = key_index(node.props@, key@);
                if ki >= 0 && ki < i {
                    assert(node.props@[ki].0@ != key@);
                }
            }
            return Some(i);
        }
        i = i + 1;
    }
    None
}

/// Splits every compound rule in this node's own `odrl:<local>` entry.
fn split_prop_exec(node: &mut Node, local: &str, warnings: &mut Vec<String>)
    ensures
        final(node)@ == (NodeV { id: old(node)@.id, types: old(node)@.types, props: split_prop(old(node)@.props, local@) }),
        strings_view(final(warnings)@) == strings_view(old(warnings)@) + split_prop_warnings(old(node)@.props, local@),
{
    let prop = concat2(ODRL_NS, local);
    proof { lemma_node_view(*node); lemma_get_view(*node, prop@); }
    let found = find_key(node, prop.as_str());
    if found.is_none() {
        assert(strings_view(warnings@) =~= strings_view(old(warnings)@) + split_prop_warnings(old(node)@.props, local@));
        return;
    }
    let i = found.unwrap();
    let ghost vv = node@.props[i as int].1;
    assert(vv == vals_view(node.props@[i as int].1@));
    let mut expanded: Vec<Expanded> = Vec::new();
    let ghost w0 = strings_view(warnings@);
    {
        let vals = &node.props[i].1;
        let mut j: usize = 0;
        while j < vals.len()
            invariant
                j <= vals@.len(),
                vv == vals_view(vals@),
                vals_view(expanded@) == split_values(vv.take(j as int)),
                strings_view(warnings@) == w0 + split_values_warnings(vv.take(j as int), local@),
            decreases vals.len() - j,
        {
            assert(vv.take(j + 1).drop_last() =~= vv.take(j as int));
            assert(vv.take(j + 1).last() == vals@[j as int]@);
            match &vals[j] {
                Expanded::Node(rule) => {
                    let clones = expand_one_rule(rule, local, warnings);
                    let ghost pre = vals_view(expanded@);
                    let mut k: usize = 0;
                    while k < clones.len()
                        invariant
                            k <= clones@.len(),
                            vals_view(expanded@) == pre + node_values(nodes_view(clones@)).take(k as int),
                        decreases clones.len() - k,
                    {
                        let c = copy_node(&clones[k]);
                        assert(nodes_view(clones@)[k as int] == c@);
                        let ghost e_before = expanded@;
                        let e = Expanded::Node(c);
                        assert(e@ == ExpandedV::Node(c@));
                        expanded.push(e);
                        assert(vals_view(expanded@) =~= vals_view(e_before).push(ExpandedV::Node(c@)));
                        assert(node_values(nodes_view(clones@)).take(k + 1) =~= node_values(nodes_view(clones@)).take(k as int).push(ExpandedV::Node(c@)));
                        assert(vals_view(expanded@) =~= pre + node_values(nodes_view(clones@)).take(k + 1));
                        k = k + 1;
                    }
                    assert(node_values(nodes_view(clones@)).take(k as int) =~= node_values(nodes_view(clones@)));
                    assert(vals_view(expanded@) =~= split_values(vv.take(j + 1)));
                }
                other => {
                    let ghost pre = vals_view(expanded@);
                    expanded.push(copy_expanded(other));
                    assert(vals_view(expanded@) =~= pre.push(other@));
                }
            }
            assert(strings_view(warnings@) =~= w0 + split_values_warnings(vv.take(j + 1), local@));
            j = j + 1;
        }
        assert(vv.take(j as int) =~= vv);
    }
    let ghost before = *node;
    node.props[i].1 = expanded;
    proof {
        lemma_node_view(*node);
        lemma_node_view(before);
        assert(node@.props =~= split_prop(old(node)@.props, local@));
        assert(node@.types =~= old(node)@.types);
    }
}

/// Splits every compound rule in every rule list anywhere in the tree
/// rooted at `node`, `depth` levels below the document root.
fn expand_compound_rules_at(node: &mut Node, depth: usize, warnings: &mut Vec<String>)
    ensures
        final(node)@ == compound_tree(old(node)@, depth as int),
        strings_view(final(warnings)@) == strings_view(old(warnings)@) + compound_warnings(old(node)@, depth as int),
    decreases 9 - depth,
{
    if depth > MAX_EXPAND_DEPTH {
        assert(strings_view(warnings@) =~= strings_view(old(warnings)@) + compound_warnings(old(node)@, depth as int));
        return;
    }
    split_prop_exec(node, "permission", warnings);
    split_prop_exec(node, "prohibition", warnings);
    split_prop_exec(node, "obligation", warnings);
    let ghost on = node_view(*node);
    assert(on.props == split_here(old(node)@.props));
    let ghost props1 = compound_children(on.props, depth as int);
    let ghost rows = child_warning_rows(on.props, depth as int);
    let ghost wmid = strings_view(warnings@);
    assert(wmid == strings_view(old(warnings)@) + split_here_warnings(old(node)@.props));
    let ghost start = *node;
    let len = node.props.len();
    proof {
        lemma_node_view(start);
        assert forall|a: int| 0 <= a < len implies #[trigger] props1[a].1.len() == on.props[a].1.len() by {}
        assert forall|a: int, b: int| 0 <= a < len && 0 <= b < on.props[a].1.len() implies #[trigger] props1[a].1[b] == (match on.props[a].1[b] {
            ExpandedV::Node(c) => ExpandedV::Node(compound_tree(c, depth + 1)),
            other => other,
        }) by {}
        assert forall|a: int| 0 <= a < len implies #[trigger] rows[a] == flat(child_warning_row(on.props, a, depth as int)) by {}
    }
    let mut i: usize = 0;
    while i < len
        invariant
            len == node.props@.len() == start.props@.len() == on.props.len() == props1.len() == rows.len(),
            i <= len,
            depth <= 8,
            on == node_view(start),
            on.props == props_view(start.props@),
            node.id == start.id,
            node.types == start.types,
            forall|a: int| 0 <= a < len ==> #[trigger] props1[a].1.len() == on.props[a].1.len(),
            forall|a: int, b: int| 0 <= a < len && 0 <= b < on.props[a].1.len() ==> #[trigger] props1[a].1[b] == (match on.props[a].1[b] {
                ExpandedV::Node(c) => ExpandedV::Node(compound_tree(c, depth + 1)),
                other => other,
            }),
            forall|a: int| 0 <= a < len ==> #[trigger] rows[a] == flat(child_warning_row(on.props, a, depth as int)),
            forall|a: int| 0 <= a < len ==> node.props@[a].0 == start.props@[a].0,
            forall|a: int| 0 <= a < len ==> node.props@[a].1@.len() == start.props@[a].1@.len(),
            forall|a: int, b: int| 0 <= a < i && 0 <= b < node.props@[a].1@.len() ==> (#[trigger] node.props@[a].1@[b])@ == props1[a].1[b],
            forall|a: int| i <= a < len ==> node.props@[a] == start.props@[a],
            strings_view(warnings@) == wmid + flat(rows.take(i as int)),
        decreases len - i,
    {
        let vlen = node.props[i].1.len();
        let ghost row = child_warning_row(on.props, i as int, depth as int);
        let ghost wi = strings_view(warnings@);
        assert(row.len() == vlen);
        let mut j: usize = 0;
        while j < vlen
            invariant
                len == node.props@.len() == start.props@.len() == on.props.len() == props1.len() == rows.len(),
                i < len,
                depth <= 8,
                j <= vlen == node.props@[i as int].1@.len() == start.props@[i as int].1@.len() == row.len(),
                on == node_view(start),
                on.props == props_view(start.props@),
                row == child_warning_row(on.props, i as int, depth as int),
                node.id == start.id,
                node.types == start.types,
                forall|a: int| 0 <= a < len ==> #[trigger] props1[a].1.len() == on.props[a].1.len(),
                forall|a: int, b: int| 0 <= a < len && 0 <= b < on.props[a].1.len() ==> #[trigger] props1[a].1[b] == (match on.props[a].1[b] {
                    ExpandedV::Node(c) => ExpandedV::Node(compound_tree(c, depth + 1)),
                    other => other,
                }),
                forall|a: int| 0 <= a < len ==> node.props@[a].0 == start.props@[a].0,
                forall|a: int| 0 <= a < len ==> node.props@[a].1@.len() == start.props@[a].1@.len(),
                forall|a: int, b: int| 0 <= a < i && 0 <= b < node.props@[a].1@.len() ==> (#[trigger] node.props@[a].1@[b])@ == props1[a].1[b],
                forall|b: int| 0 <= b < j ==> (#[trigger] node.props@[i as int].1@[b])@ == props1[i as int].1[b],
                forall|b: int| j <= b < vlen ==> node.props@[i as int].1@[b] == start.props@[i as int].1@[b],
                forall|a: int| i < a < len ==> node.props@[a] == start.props@[a],
                strings_view(warnings@) == wi + flat(row.take(j as int)),
            decreases vlen - j,
        {
            proof {
                assert(on.props[i as int].1 == vals_view(start.props@[i as int].1@));
                assert(on.props[i as int].1[j as int] == start.props@[i as int].1@[j as int]@);
                assert(row.take(j + 1).drop_last() =~= row.take(j as int));
            }
            match &mut node.props[i].1[j] {
                Expanded::Node(child) => {
                    expand_compound_rules_at(child, depth + 1, warnings);
                }
                _ => {}
            }
            assert(strings_view(warnings@) =~= wi + flat(row.take(j + 1)));
            j = j + 1;
        }
        proof {
            assert(row.take(j as int) =~= row);
            assert(rows.take(i + 1).drop_last() =~= rows.take(i as int));
            assert(strings_view(warnings@) =~= wmid + flat(rows.take(i + 1)));
        }
        i = i + 1;
    }
    proof {
        assert(rows.take(i as int) =~= rows);
        assert forall|a: int| 0 <= a < len implies #[trigger] node@.props[a] == props1[a] by {
            lemma_node_view_entry(*node, a);
            assert(node@.props[a].1 =~= props1[a].1);
        }
        assert(node@.props =~= props1);
        assert(node@.types =~= on.types);
        assert(strings_view(warnings@) =~= strings_view(old(warnings)@) + compound_warnings(old(node)@, depth as int));
    }
}

/// Splits every compound rule anywhere in the document tree.
pub fn expand_compound_rules(node: &mut Node, warnings: &mut Vec<String>)
    ensures
        final(node)@ == compound_tree(old(node)@, 0),
        strings_view(final(warnings)@) == strings_view(old(warnings)@) + compound_warnings(old(node)@, 0),
{
    expand_compound_rules_at(node, 0, warnings);
}

} // verus!
