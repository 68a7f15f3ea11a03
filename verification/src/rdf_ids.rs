//! The RDF-id shadow of translated rules and policies, and the
//! `dsc:inheritsFrom` merge order over it: a policy's own rules first,
//! then each parent's already-merged rules, in list order.

use vstd::prelude::*;
use vstd::string::*;
use vstd::set_lib::*;
use crate::text::{str_eq, owned, concat2, concat3};
use crate::rdf::views;

verus! {

/// The source ids of one translated rule and, recursively, of its nested
/// duties, remedies and consequence, at the positions the engine reports
/// them by.
#[derive(Debug, PartialEq, Eq)]
pub struct RuleIds {
    pub rule_id: String,
    /// The rule's translated action string.
    pub action: String,
    pub duty: Vec<RuleIds>,
    pub remedy: Vec<RuleIds>,
    pub consequence: Option<Box<RuleIds>>,
}

/// The source ids of one translated policy's directly declared rules.
#[derive(Debug, PartialEq, Eq)]
pub struct PolicyIds {
    pub id: String,
    pub permissions: Vec<RuleIds>,
    pub prohibitions: Vec<RuleIds>,
    pub obligations: Vec<RuleIds>,
    pub inherit_from: Option<Vec<String>>,
}

/// The mathematical value of a [`RuleIds`].
pub struct RuleIdsV {
    pub rule_id: Seq<char>,
    pub action: Seq<char>,
    pub duty: Seq<RuleIdsV>,
    pub remedy: Seq<RuleIdsV>,
    pub consequence: Option<Box<RuleIdsV>>,
}

pub open spec fn rule_ids_view(r: RuleIds) -> RuleIdsV
    decreases r,
{
    RuleIdsV {
        rule_id: r.rule_id@,
        action: r.action@,
        duty: Seq::new(r.duty@.len(), |i: int| if 0 <= i < r.duty@.len() { rule_ids_view(r.duty@[i]) } else { empty_ids() }),
        remedy: Seq::new(r.remedy@.len(), |i: int| if 0 <= i < r.remedy@.len() { rule_ids_view(r.remedy@[i]) } else { empty_ids() }),
        consequence: match r.consequence {
            Some(b) => Some(Box::new(rule_ids_view(*b))),
            None => None,
        },
    }
}

/// A placeholder value.
pub open spec fn empty_ids() -> RuleIdsV {
    RuleIdsV { rule_id: Seq::empty(), action: Seq::empty(), duty: Seq::empty(), remedy: Seq::empty(), consequence: None }
}

impl View for RuleIds {
    type V = RuleIdsV;

    open spec fn view(&self) -> RuleIdsV {
        rule_ids_view(*self)
    }
}

/// The views of a list of rule ids.
pub open spec fn rids_view(s: Seq<RuleIds>) -> Seq<RuleIdsV> {
    Seq::new(s.len(), |i: int| s[i]@)
}

fn copy_rule_list(owner: &RuleIds, remedies: bool) -> (r: Vec<RuleIds>)
    ensures
        rids_view(r@) == rids_view(if remedies { owner.remedy@ } else { owner.duty@ }),
    decreases *owner, 0nat,
{
    let v = if remedies { &owner.remedy } else { &owner.duty };
    let mut r: Vec<RuleIds> = Vec::new();
    let mut j: usize = 0;
    while j < v.len()
        invariant
            *v == if remedies { owner.remedy } else { owner.duty },
            j <= v@.len(),
            r@.len() == j,
            forall|x: int| 0 <= x < j ==> (#[trigger] r@[x])@ == v@[x]@,
        decreases v.len() - j,
    {
        proof {
            if remedies {
                assert(decreases_to!(*owner => owner.remedy@[j as int]));
            } else {
                assert(decreases_to!(*owner => owner.duty@[j as int]));
            }
        }
        let c = copy_rule_ids(&v[j]);
        r.push(c);
        j = j + 1;
    }
    assert(rids_view(r@) =~= rids_view(v@));
    r
}

/// A deep copy of `r`.
pub fn copy_rule_ids(r: &RuleIds) -> (c: RuleIds)
    ensures
        c@ == r@,
    decreases *r, 1nat,
{
    let duty = copy_rule_list(r, false);
    let remedy = copy_rule_list(r, true);
    let consequence = match &r.consequence {
        Some(b) => {
            assert(decreases_to!(*r => **b));
            Some(Box::new(copy_rule_ids(b)))
        },
        None => None,
    };
    let c = RuleIds { rule_id: r.rule_id.clone(), action: r.action.clone(), duty, remedy, consequence };
    proof {
        assert(rids_view(c.duty@) == rids_view(r.duty@));
        assert(c@.duty =~= r@.duty) by {
            assert forall|i: int| 0 <= i < c.duty@.len() implies c@.duty[i] == r@.duty[i] by {
                assert(rids_view(c.duty@)[i] == rids_view(r.duty@)[i]);
            }
        }
        assert(rids_view(c.remedy@) == rids_view(r.remedy@));
        assert(c@.remedy =~= r@.remedy) by {
            assert forall|i: int| 0 <= i < c.remedy@.len() implies c@.remedy[i] == r@.remedy[i] by {
                assert(rids_view(c.remedy@)[i] == rids_view(r.remedy@)[i]);
            }
        }
    }
    c
}

/// Deep copies of `v`, in order.
pub fn copy_rule_ids_vec(v: &Vec<RuleIds>) -> (r: Vec<RuleIds>)
    ensures
        rids_view(r@) == rids_view(v@),
{
    let mut r: Vec<RuleIds> = Vec::new();
    let mut j: usize = 0;
    while j < v.len()
        invariant
            j <= v@.len(),
            r@.len() == j,
            forall|x: int| 0 <= x < j ==> (#[trigger] r@[x])@ == v@[x]@,
        decreases v.len() - j,
    {
        r.push(copy_rule_ids(&v[j]));
        j = j + 1;
    }
    assert(rids_view(r@) =~= rids_view(v@));
    r
}

fn copy_strings(v: &Vec<String>) -> (r: Vec<String>)
    ensures
        r@ == v@,
{
    let mut r: Vec<String> = Vec::new();
    let mut j: usize = 0;
    while j < v.len()
        invariant
            j <= v@.len(),
            r@ == v@.subrange(0, j as int),
        decreases v.len() - j,
    {
        r.push(v[j].clone());
        assert(r@ =~= v@.subrange(0, j + 1));
        j = j + 1;
    }
    assert(v@.subrange(0, v@.len() as int) =~= v@);
    r
}

/// The view of an optional list of strings.
pub open spec fn opt_views(o: Option<Vec<String>>) -> Option<Seq<Seq<char>>> {
    match o {
        Some(v) => Some(views(v@)),
        None => None,
    }
}

/// A deep copy of `p`.
pub fn copy_policy_ids(p: &PolicyIds) -> (c: PolicyIds)
    ensures
        c.id == p.id,
        rids_view(c.permissions@) == rids_view(p.permissions@),
        rids_view(c.prohibitions@) == rids_view(p.prohibitions@),
        rids_view(c.obligations@) == rids_view(p.obligations@),
        opt_views(c.inherit_from) == opt_views(p.inherit_from),
{
    PolicyIds {
        id: p.id.clone(),
        permissions: copy_rule_ids_vec(&p.permissions),
        prohibitions: copy_rule_ids_vec(&p.prohibitions),
        obligations: copy_rule_ids_vec(&p.obligations),
        inherit_from: match &p.inherit_from {
            Some(v) => Some(copy_strings(v)),
            None => None,
        },
    }
}

/// The index of the last policy with id `id`, or `-1`.
pub open spec fn last_index_of(all: Seq<PolicyIds>, id: Seq<char>) -> int
    decreases all.len(),
{
    if all.len() == 0 {
        -1
    } else if all.last().id@ == id {
        all.len() - 1
    } else {
        last_index_of(all.drop_last(), id)
    }
}

/// A policy's `dsc:inheritsFrom` parents, in order.
pub open spec fn parents_of(p: PolicyIds) -> Seq<Seq<char>> {
    match p.inherit_from {
        Some(v) => views(v@),
        None => Seq::empty(),
    }
}

/// `s` joined with ` -> `.
pub open spec fn join_arrows(s: Seq<Seq<char>>) -> Seq<char>
    decreases s.len(),
{
    if s.len() == 0 {
        Seq::empty()
    } else if s.len() == 1 {
        s[0]
    } else {
        join_arrows(s.drop_last()) + " -> "@ + s.last()
    }
}

/// The error for an id no policy carries.
pub open spec fn missing_policy(id: Seq<char>) -> Seq<char> {
    "no policy '"@ + id + "' in this request's dsc:policy list"@
}

/// The error for an inheritance cycle reaching `id` again.
pub open spec fn cycle_error(stack: Seq<Seq<char>>, id: Seq<char>) -> Seq<char> {
    "circular dsc:inheritsFrom chain: "@ + join_arrows(stack) + " -> "@ + id
}

/// The merge of policy `id`, reached through the chain `stack`: the index
/// of the policy itself and its merged permissions, prohibitions and
/// obligations, or the first error.
pub open spec fn merge_of(all: Seq<PolicyIds>, id: Seq<char>, stack: Seq<Seq<char>>)
    -> Result<(int, Seq<RuleIdsV>, Seq<RuleIdsV>, Seq<RuleIdsV>), Seq<char>>
    decreases all.len() + 1 - stack.len(), 0nat,
{
    let k = last_index_of(all, id);
    if k < 0 {
        Err(missing_policy(id))
    } else {
        let p = all[k];
        let parents = parents_of(p);
        if parents.len() == 0 {
            Ok((k, rids_view(p.permissions@), rids_view(p.prohibitions@), rids_view(p.obligations@)))
        } else if stack.contains(id) {
            Err(cycle_error(stack, id))
        } else if stack.len() >= all.len() {
            Err(Seq::empty())
        } else {
            match merge_parents_of(all, parents, stack.push(id)) {
                Ok((a, b, c)) => Ok((k, rids_view(p.permissions@) + a, rids_view(p.prohibitions@) + b, rids_view(p.obligations@) + c)),
                Err(e) => Err(e),
            }
        }
    }
}

/// The merged rules of each of `parents` in turn, concatenated, or the
/// first error.
pub open spec fn merge_parents_of(all: Seq<PolicyIds>, parents: Seq<Seq<char>>, stack: Seq<Seq<char>>)
    -> Result<(Seq<RuleIdsV>, Seq<RuleIdsV>, Seq<RuleIdsV>), Seq<char>>
    decreases all.len() + 1 - stack.len(), parents.len() + 1,
{
    if parents.len() == 0 {
        Ok((Seq::empty(), Seq::empty(), Seq::empty()))
    } else {
        match merge_of(all, parents[0], stack) {
            Err(e) => Err(e),
            Ok((_, a, b, c)) => match merge_parents_of(all, parents.drop_first(), stack) {
                Err(e) => Err(e),
                Ok((a2, b2, c2)) => Ok((a + a2, b + b2, c + c2)),
            },
        }
    }
}

pub proof fn lemma_rids_view_add(a: Seq<RuleIds>, b: Seq<RuleIds>)
    ensures
        rids_view(a + b) == rids_view(a) + rids_view(b),
{
    assert(rids_view(a + b) =~= rids_view(a) + rids_view(b));
}

/// Every id on the chain is distinct and names a policy.
pub open spec fn chain_ok(all: Seq<PolicyIds>, stack: Seq<Seq<char>>) -> bool {
    stack.no_duplicates() && forall|i: int| 0 <= i < stack.len() ==> last_index_of(all, #[trigger] stack[i]) >= 0
}

pub proof fn lemma_last_index_of(all: Seq<PolicyIds>, id: Seq<char>)
    ensures
        -1 <= last_index_of(all, id) < all.len(),
        last_index_of(all, id) >= 0 ==> all[last_index_of(all, id)].id@ == id,
        last_index_of(all, id) < 0 ==> forall|j: int| 0 <= j < all.len() ==> (#[trigger] all[j]).id@ != id,
    decreases all.len(),
{
    if all.len() > 0 && all.last().id@ != id {
        lemma_last_index_of(all.drop_last(), id);
        assert forall|j: int| 0 <= j < all.len() - 1 implies #[trigger] all[j] == all.drop_last()[j] by {}
    }
}

/// A valid chain is no longer than the list of policies.
pub proof fn lemma_chain_bound(all: Seq<PolicyIds>, stack: Seq<Seq<char>>)
    requires
        chain_ok(all, stack),
    ensures
        stack.len() <= all.len(),
{
    let f = |x: Seq<char>| last_index_of(all, x);
    let idx = stack.map_values(f);
    assert forall|i: int, j: int| 0 <= i < idx.len() && 0 <= j < idx.len() && i != j implies idx[i] != idx[j] by {
        lemma_last_index_of(all, stack[i]);
        lemma_last_index_of(all, stack[j]);
        assert(last_index_of(all, stack[i]) >= 0);
    }
    assert(idx.no_duplicates());
    idx.unique_seq_to_set();
    lemma_int_range(0, all.len() as int);
    assert forall|x: int| idx.to_set().contains(x) implies set_int_range(0, all.len() as int).contains(x) by {
        let i = choose|i: int| 0 <= i < idx.len() && idx[i] == x;
        lemma_last_index_of(all, stack[i]);
    }
    lemma_len_subset(idx.to_set(), set_int_range(0, all.len() as int));
}

/// Index of the last policy with id `id`.
fn find_policy(all: &[PolicyIds], id: &str) -> (r: Option<usize>)
    ensures
        match r {
            Some(k) => k as int == last_index_of(all@, id@),
            None => last_index_of(all@, id@) < 0,
        },
{
    let mut i: usize = all.len();
    assert(all@.subrange(0, i as int) =~= all@);
    while i > 0
        invariant
            i <= all@.len(),
            last_index_of(all@, id@) == last_index_of(all@.subrange(0, i as int), id@),
        decreases i,
    {
        proof {
            assert(all@.subrange(0, i as int).drop_last() =~= all@.subrange(0, i - 1));
        }
        if str_eq(all[i - 1].id.as_str(), id) {
            return Some(i - 1);
        }
        i = i - 1;
    }
    None
}

/// `v` joined with ` -> `.
fn join_arrow_strings(v: &Vec<String>) -> (r: String)
    ensures
        r@ == join_arrows(views(v@)),
{
    let mut r = String::new();
    let mut i: usize = 0;
    while i < v.len()
        invariant
            i <= v@.len(),
            r@ == join_arrows(views(v@.subrange(0, i as int))),
        decreases v.len() - i,
    {
        proof {
            assert(views(v@.subrange(0, i + 1)).drop_last() =~= views(v@.subrange(0, i as int)));
        }
        if i == 0 {
            r = v[0].clone();
        } else {
            let next = concat3(r.as_str(), " -> ", v[i].as_str());
            r = next;
        }
        i = i + 1;
    }
    assert(v@.subrange(0, v@.len() as int) =~= v@);
    r
}

fn merge_one(all: &[PolicyIds], id: &str, stack: &mut Vec<String>) -> (r: Result<PolicyIds, String>)
    requires
        chain_ok(all@, views(old(stack)@)),
    ensures
        match merge_of(all@, id@, views(old(stack)@)) {
            Ok((k, a, b, c)) => r is Ok && r->Ok_0.id == all@[k].id && opt_views(r->Ok_0.inherit_from) == opt_views(all@[k].inherit_from)
                && rids_view(r->Ok_0.permissions@) == a && rids_view(r->Ok_0.prohibitions@) == b && rids_view(r->Ok_0.obligations@) == c
                && final(stack)@ == old(stack)@,
            Err(e) => r is Err && r->Err_0@ == e,
        },
    decreases all@.len() + 1 - old(stack)@.len(), 0nat,
{
    let ghost st = views(stack@);
    proof {
        lemma_last_index_of(all@, id@);
        lemma_chain_bound(all@, st);
    }
    let k = match find_policy(all, id) {
        Some(k) => k,
        None => return Err(concat3("no policy '", id, "' in this request's dsc:policy list")),
    };
    let policy = &all[k];
    let parents: &Vec<String> = match &policy.inherit_from {
        Some(ids) => {
            if ids.len() == 0 {
                assert(parents_of(all@[k as int]).len() == 0);
                return Ok(copy_policy_ids(policy));
            }
            ids
        },
        None => {
            return Ok(copy_policy_ids(policy));
        },
    };
    let ghost ps = views(parents@);
    assert(ps == parents_of(all@[k as int]));
    let id_owned = owned(id);
    let mut j: usize = 0;
    #[verifier::loop_isolation(false)]
    while j < stack.len()
        invariant
            j <= stack@.len(),
            forall|x: int| 0 <= x < j ==> stack@[x]@ != id@,
        decreases stack.len() - j,
    {
        if str_eq(stack[j].as_str(), id) {
            assert(views(stack@)[j as int] == id@);
            assert(st.contains(id@));
            let chain = join_arrow_strings(stack);
            let head = concat2("circular dsc:inheritsFrom chain: ", chain.as_str());
            return Err(concat3(head.as_str(), " -> ", id));
        }
        j = j + 1;
    }
    assert(!st.contains(id@)) by {
        if st.contains(id@) {
            let x = choose|x: int| 0 <= x < st.len() && st[x] == id@;
            assert(stack@[x]@ == id@);
        }
    }
    stack.push(id_owned);
    proof {
        assert(views(stack@) =~= st.push(id@));
        assert(last_index_of(all@, id@) >= 0);
        assert(st.push(id@).no_duplicates()) by {
            assert forall|a: int, b: int| 0 <= a < st.push(id@).len() && 0 <= b < st.push(id@).len() && a != b
                implies st.push(id@)[a] != st.push(id@)[b] by {
                if a == st.len() {
                    assert(st[b] != id@) by { assert(!st.contains(id@)); }
                } else if b == st.len() {
                    assert(st[a] != id@) by { assert(!st.contains(id@)); }
                }
            }
        }
        assert(chain_ok(all@, st.push(id@)));
        lemma_chain_bound(all@, st.push(id@));
        assert(st.len() < all@.len());
        assert(views(parents@).subrange(0, parents@.len() as int) =~= ps);
    }
    let merged = merge_parents(all, parents, 0, stack);
    match merged {
        Ok((a, b, c)) => {
            let _ = stack.pop();
            assert(views(stack@) =~= st);
            proof {
                assert(stack@ =~= old(stack)@) by {
                    assert forall|x: int| 0 <= x < stack@.len() implies stack@[x] == old(stack)@[x] by {}
                }
            }
            let mut permissions = copy_rule_ids_vec(&policy.permissions);
            let mut prohibitions = copy_rule_ids_vec(&policy.prohibitions);
            let mut obligations = copy_rule_ids_vec(&policy.obligations);
            let mut a = a;
            let mut b = b;
            let mut c = c;
            let ghost (pa, pb, pc) = (permissions@, prohibitions@, obligations@);
            let ghost (sa, sb, sc) = (a@, b@, c@);
            permissions.append(&mut a);
            prohibitions.append(&mut b);
            obligations.append(&mut c);
            proof {
                lemma_rids_view_add(pa, sa);
                lemma_rids_view_add(pb, sb);
                lemma_rids_view_add(pc, sc);
            }
            let inherit_from = match &policy.inherit_from {
                Some(v) => Some(copy_strings(v)),
                None => None,
            };
            Ok(PolicyIds { id: policy.id.clone(), permissions, prohibitions, obligations, inherit_from })
        },
        Err(e) => Err(e),
    }
}

fn merge_parents(all: &[PolicyIds], parents: &Vec<String>, i: usize, stack: &mut Vec<String>)
    -> (r: Result<(Vec<RuleIds>, Vec<RuleIds>, Vec<RuleIds>), String>)
    requires
        i <= parents@.len(),
        chain_ok(all@, views(old(stack)@)),
        old(stack)@.len() >= 1,
    ensures
        match merge_parents_of(all@, views(parents@).subrange(i as int, parents@.len() as int), views(old(stack)@)) {
            Ok((a, b, c)) => r is Ok && rids_view(r->Ok_0.0@) == a && rids_view(r->Ok_0.1@) == b && rids_view(r->Ok_0.2@) == c
                && final(stack)@ == old(stack)@,
            Err(e) => r is Err && r->Err_0@ == e,
        },
    decreases all@.len() + 1 - old(stack)@.len(), parents@.len() - i + 1,
{
    let ghost rest = views(parents@).subrange(i as int, parents@.len() as int);
    if i == parents.len() {
        assert(rest.len() == 0);
        return Ok((Vec::new(), Vec::new(), Vec::new()));
    }
    assert(rest[0] == parents@[i as int]@);
    assert(rest.drop_first() =~= views(parents@).subrange(i + 1, parents@.len() as int));
    let first = merge_one(all, parents[i].as_str(), stack);
    match first {
        Ok(p) => {
            let more = merge_parents(all, parents, i + 1, stack);
            match more {
                Ok((a2, b2, c2)) => {
                    let mut a = p.permissions;
                    let mut b = p.prohibitions;
                    let mut c = p.obligations;
                    let mut a2 = a2;
                    let mut b2 = b2;
                    let mut c2 = c2;
                    let ghost (pa, pb, pc) = (a@, b@, c@);
                    let ghost (sa, sb, sc) = (a2@, b2@, c2@);
                    a.append(&mut a2);
                    b.append(&mut b2);
                    c.append(&mut c2);
                    proof {
                        lemma_rids_view_add(pa, sa);
                        lemma_rids_view_add(pb, sb);
                        lemma_rids_view_add(pc, sc);
                    }
                    Ok((a, b, c))
                },
                Err(e) => Err(e),
            }
        },
        Err(e) => Err(e),
    }
}

/// The ids of policy `id` with its `dsc:inheritsFrom` ancestry merged in:
/// its own rules first, then each parent's own merged rules, in list order.
/// A policy is looked up as the last of `all` with its id. An unknown id
/// and an inheritance cycle are errors naming what went wrong.
pub fn merged_policy_ids(all: &[PolicyIds], id: &str) -> (r: Result<PolicyIds, String>)
    ensures
        match merge_of(all@, id@, Seq::empty()) {
            Ok((k, a, b, c)) => r is Ok && r->Ok_0.id == all@[k].id && opt_views(r->Ok_0.inherit_from) == opt_views(all@[k].inherit_from)
                && rids_view(r->Ok_0.permissions@) == a && rids_view(r->Ok_0.prohibitions@) == b && rids_view(r->Ok_0.obligations@) == c,
            Err(e) => r is Err && r->Err_0@ == e,
        },
        r is Ok ==> ({
            let p = all@[last_index_of(all@, id@)];
            let parents = merge_parents_of(all@, parents_of(p), Seq::empty());
            &&& parents is Ok
            &&& rids_view(r->Ok_0.permissions@) == rids_view(p.permissions@) + parents->Ok_0.0
            &&& rids_view(r->Ok_0.prohibitions@) == rids_view(p.prohibitions@) + parents->Ok_0.1
            &&& rids_view(r->Ok_0.obligations@) == rids_view(p.obligations@) + parents->Ok_0.2
        }),
{
    proof {
        if merge_of(all@, id@, Seq::empty()) is Ok {
            merged_policy_is_own_rules_then_each_parents(all@, id@);
        }
    }
    let mut stack: Vec<String> = Vec::new();
    assert(views(stack@) =~= Seq::<Seq<char>>::empty());
    merge_one(all, id, &mut stack)
}


/// Merging does not depend on the chain it was reached through, beyond
/// that chain's policies: where a merge through `s1` succeeds, a merge of
/// the same policy through a chain `s2` that is no longer and holds no
/// policy `s1` does not gives the same result.
pub proof fn lemma_merge_chain_independent(all: Seq<PolicyIds>, id: Seq<char>, s1: Seq<Seq<char>>, s2: Seq<Seq<char>>)
    requires
        merge_of(all, id, s1) is Ok,
        s2.len() <= s1.len(),
        forall|x: Seq<char>| s2.contains(x) ==> s1.contains(x),
    ensures
        merge_of(all, id, s2) == merge_of(all, id, s1),
    decreases all.len() + 1 - s1.len(), 0nat,
{
    let k = last_index_of(all, id);
    if k >= 0 {
        let p = all[k];
        let parents = parents_of(p);
        if parents.len() > 0 {
            assert(!s1.contains(id));
            assert(!s2.contains(id));
            assert forall|x: Seq<char>| s2.push(id).contains(x) implies s1.push(id).contains(x) by {
                if x != id {
                    let j = choose|j: int| 0 <= j < s2.push(id).len() && s2.push(id)[j] == x;
                    assert(s2.contains(x)) by {
                        assert(s2[j] == x);
                    }
                    let j1 = choose|j1: int| 0 <= j1 < s1.len() && s1[j1] == x;
                    assert(s1.push(id)[j1] == x);
                } else {
                    assert(s1.push(id)[s1.len() as int] == x);
                }
            }
            lemma_merge_parents_chain_independent(all, parents, s1.push(id), s2.push(id));
        }
    }
}

/// [`lemma_merge_chain_independent`], for each of `parents` in turn.
pub proof fn lemma_merge_parents_chain_independent(all: Seq<PolicyIds>, parents: Seq<Seq<char>>, s1: Seq<Seq<char>>, s2: Seq<Seq<char>>)
    requires
        merge_parents_of(all, parents, s1) is Ok,
        s2.len() <= s1.len(),
        forall|x: Seq<char>| s2.contains(x) ==> s1.contains(x),
    ensures
        merge_parents_of(all, parents, s2) == merge_parents_of(all, parents, s1),
    decreases all.len() + 1 - s1.len(), parents.len() + 1,
{
    if parents.len() > 0 {
        lemma_merge_chain_independent(all, parents[0], s1, s2);
        lemma_merge_parents_chain_independent(all, parents.drop_first(), s1, s2);
    }
}

/// A merged policy keeps its own id and parents, and its permissions,
/// prohibitions and obligations are its own, in order, followed by those
/// each parent merges to on its own, parent after parent in list order.
pub proof fn merged_policy_is_own_rules_then_each_parents(all: Seq<PolicyIds>, id: Seq<char>)
    requires
        merge_of(all, id, Seq::empty()) is Ok,
    ensures
        ({
            let (k, a, b, c) = merge_of(all, id, Seq::empty())->Ok_0;
            &&& 0 <= k < all.len()
            &&& all[k].id@ == id
            &&& merge_parents_of(all, parents_of(all[k]), Seq::empty()) is Ok
            &&& ({
                let (a2, b2, c2) = merge_parents_of(all, parents_of(all[k]), Seq::empty())->Ok_0;
                &&& a == rids_view(all[k].permissions@) + a2
                &&& b == rids_view(all[k].prohibitions@) + b2
                &&& c == rids_view(all[k].obligations@) + c2
            })
        }),
{
    lemma_last_index_of(all, id);
    let k = last_index_of(all, id);
    let p = all[k];
    let parents = parents_of(p);
    if parents.len() == 0 {
        assert(rids_view(p.permissions@) + Seq::<RuleIdsV>::empty() =~= rids_view(p.permissions@));
        assert(rids_view(p.prohibitions@) + Seq::<RuleIdsV>::empty() =~= rids_view(p.prohibitions@));
        assert(rids_view(p.obligations@) + Seq::<RuleIdsV>::empty() =~= rids_view(p.obligations@));
    } else {
        let st = Seq::<Seq<char>>::empty().push(id);
        assert forall|x: Seq<char>| Seq::<Seq<char>>::empty().contains(x) implies st.contains(x) by {}
        lemma_merge_parents_chain_independent(all, parents, st, Seq::empty());
    }
}

/// A merged policy's rules begin with its own rules, in order; a policy
/// with no parents merges to exactly its own rules.
pub proof fn merged_rules_begin_with_own_rules(all: Seq<PolicyIds>, id: Seq<char>)
    requires
        merge_of(all, id, Seq::empty()) is Ok,
    ensures
        ({
            let (k, a, b, c) = merge_of(all, id, Seq::empty())->Ok_0;
            &&& 0 <= k < all.len()
            &&& all[k].id@ == id
            &&& a.subrange(0, all[k].permissions@.len() as int) == rids_view(all[k].permissions@)
            &&& b.subrange(0, all[k].prohibitions@.len() as int) == rids_view(all[k].prohibitions@)
            &&& c.subrange(0, all[k].obligations@.len() as int) == rids_view(all[k].obligations@)
            &&& parents_of(all[k]).len() == 0 ==> a == rids_view(all[k].permissions@)
                && b == rids_view(all[k].prohibitions@) && c == rids_view(all[k].obligations@)
        }),
{
    lemma_last_index_of(all, id);
    let k = last_index_of(all, id);
    let p = all[k];
    let (k2, a, b, c) = merge_of(all, id, Seq::empty())->Ok_0;
    assert(rids_view(p.permissions@).len() == p.permissions@.len());
    assert(rids_view(p.prohibitions@).len() == p.prohibitions@.len());
    assert(rids_view(p.obligations@).len() == p.obligations@.len());
    if parents_of(p).len() == 0 {
        assert(a.subrange(0, p.permissions@.len() as int) =~= a);
        assert(b.subrange(0, p.prohibitions@.len() as int) =~= b);
        assert(c.subrange(0, p.obligations@.len() as int) =~= c);
    } else {
        let (a2, b2, c2) = merge_parents_of(all, parents_of(p), seq![id])->Ok_0;
        assert(Seq::<Seq<char>>::empty().push(id) =~= seq![id]);
        assert((rids_view(p.permissions@) + a2).subrange(0, p.permissions@.len() as int) =~= rids_view(p.permissions@));
        assert((rids_view(p.prohibitions@) + b2).subrange(0, p.prohibitions@.len() as int) =~= rids_view(p.prohibitions@));
        assert((rids_view(p.obligations@) + c2).subrange(0, p.obligations@.len() as int) =~= rids_view(p.obligations@));
    }
}

} // verus!
