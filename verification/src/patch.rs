//! Patches to a JSON request: insert-or-replace one key of the object a
//! JSON Pointer names, or remove one. Strict: a pointer that does not
//! resolve, one that resolves to something other than an object, or the
//! removal of an absent key is an error, never a silent no-op.
//!
//! Pointers follow RFC 6901 as `serde_json::Value::pointer_mut` reads
//! them: `""` is the whole value; otherwise `/`-separated tokens with
//! `~1` read as `/` and `~0` as `~`, an array index written in decimal
//! without a sign or leading zero. An object keeps its members ordered by
//! key, so an inserted key takes its place in that order.

use vstd::prelude::*;
use vstd::string::*;
use crate::text::{chars_of, string_of, str_eq, owned, concat2, concat3};
use crate::json::{Json, JsonV, copy_json, members_view, items_view, member_of, lemma_members_view, lemma_items_view};
use crate::ingest::{lex_lt, str_lt};
use crate::suite_index::{digits_value, all_digits, is_digit};

verus! {

/// One patch.
#[derive(Debug, PartialEq, Eq)]
pub enum Patch {
    SetKey { pointer: String, key: String, value: Json },
    Remove { pointer: String, key: String },
}

/// The value of a [`Patch`].
pub enum PatchV {
    SetKey(Seq<char>, Seq<char>, JsonV),
    Remove(Seq<char>, Seq<char>),
}

impl View for Patch {
    type V = PatchV;

    open spec fn view(&self) -> PatchV {
        match *self {
            Patch::SetKey { pointer, key, value } => PatchV::SetKey(pointer@, key@, value@),
            Patch::Remove { pointer, key } => PatchV::Remove(pointer@, key@),
        }
    }
}

impl Patch {
    /// Insert or replace `key` on the object at `pointer`.
    pub fn set(pointer: &str, key: &str, value: Json) -> (r: Patch)
        ensures
            r@ == PatchV::SetKey(pointer@, key@, value@),
    {
        Patch::SetKey { pointer: owned(pointer), key: owned(key), value }
    }

    /// Remove `key` from the object at `pointer`.
    pub fn remove(pointer: &str, key: &str) -> (r: Patch)
        ensures
            r@ == PatchV::Remove(pointer@, key@),
    {
        Patch::Remove { pointer: owned(pointer), key: owned(key) }
    }
}

/// The pointer of a patch value.
pub open spec fn pointer_of(p: PatchV) -> Seq<char> {
    match p {
        PatchV::SetKey(ptr, _, _) => ptr,
        PatchV::Remove(ptr, _) => ptr,
    }
}

/// The key of a patch value.
pub open spec fn key_of(p: PatchV) -> Seq<char> {
    match p {
        PatchV::SetKey(_, k, _) => k,
        PatchV::Remove(_, k) => k,
    }
}

/// `s` split at every `c`, as `str::split` does (always one piece more
/// than there are separators).
pub open spec fn split_on(s: Seq<char>, c: char) -> Seq<Seq<char>>
    decreases s.len(),
{
    if s.len() == 0 {
        seq![Seq::empty()]
    } else {
        let rest = split_on(s.drop_last(), c);
        if s.last() == c {
            rest.push(Seq::empty())
        } else {
            rest.update(rest.len() - 1, rest.last().push(s.last()))
        }
    }
}

/// `s` with every non-overlapping occurrence of the two characters `a`,
/// `b` (read left to right) replaced by `rep`.
pub open spec fn replace_pair(s: Seq<char>, a: char, b: char, rep: char) -> Seq<char>
    decreases s.len(),
{
    if s.len() < 2 {
        s
    } else if s[0] == a && s[1] == b {
        seq![rep] + replace_pair(s.subrange(2, s.len() as int), a, b, rep)
    } else {
        seq![s[0]] + replace_pair(s.drop_first(), a, b, rep)
    }
}

/// A pointer token with `~1` read as `/`, then `~0` as `~`.
pub open spec fn unescape(t: Seq<char>) -> Seq<char> {
    replace_pair(replace_pair(t, '~', '1', '/'), '~', '0', '~')
}

/// The tokens of a pointer: none for `""`; `None` when it does not start
/// with `/`.
pub open spec fn pointer_tokens(p: Seq<char>) -> Option<Seq<Seq<char>>> {
    if p.len() == 0 {
        Some(Seq::empty())
    } else if p[0] != '/' {
        None
    } else {
        Some(split_on(p.drop_first(), '/').map_values(|t: Seq<char>| unescape(t)))
    }
}

/// The array position a token names in an array of `len` items: decimal
/// digits, no sign, no leading zero, in range.
pub open spec fn array_index(t: Seq<char>, len: nat) -> Option<nat> {
    if t.len() == 0 || !all_digits(t) || (t[0] == '0' && t.len() > 1) || digits_value(t) >= len {
        None
    } else {
        Some(digits_value(t))
    }
}

/// The index of the member keyed `k`, or `-1`.
pub open spec fn member_index(ms: Seq<(Seq<char>, JsonV)>, k: Seq<char>) -> int
    decreases ms.len(),
{
    if ms.len() == 0 {
        -1
    } else if ms[0].0 == k {
        0
    } else if member_index(ms.drop_first(), k) < 0 {
        -1
    } else {
        member_index(ms.drop_first(), k) + 1
    }
}

/// Where a new key `k` goes: before the first member whose key is not
/// below it.
pub open spec fn insert_pos(ms: Seq<(Seq<char>, JsonV)>, k: Seq<char>) -> int
    decreases ms.len(),
{
    if ms.len() == 0 {
        0
    } else if !lex_lt(ms[0].0, k) {
        0
    } else {
        insert_pos(ms.drop_first(), k) + 1
    }
}

/// Why one patch failed.
pub enum PatchFailure {
    Unresolved,
    NotAnObject(Seq<char>),
    NoKey,
}

/// The kind of a JSON value, as named in an error.
pub open spec fn kind_of(v: JsonV) -> Seq<char> {
    match v {
        JsonV::Null => "null"@,
        JsonV::Bool(_) => "boolean"@,
        JsonV::Number(_) => "number"@,
        JsonV::Str(_) => "string"@,
        JsonV::Array(_) => "array"@,
        JsonV::Object(_) => "object"@,
    }
}

/// The object `v` after the patch's operation on it.
pub open spec fn operate_of(v: JsonV, p: PatchV) -> Result<JsonV, PatchFailure> {
    match v {
        JsonV::Object(ms) => match p {
            PatchV::SetKey(_, k, val) => {
                let i = member_index(ms, k);
                if i >= 0 {
                    Ok(JsonV::Object(ms.update(i, (k, val))))
                } else {
                    Ok(JsonV::Object(ms.insert(insert_pos(ms, k), (k, val))))
                }
            },
            PatchV::Remove(_, k) => {
                let i = member_index(ms, k);
                if i >= 0 {
                    Ok(JsonV::Object(ms.remove(i)))
                } else {
                    Err(PatchFailure::NoKey)
                }
            },
        },
        other => Err(PatchFailure::NotAnObject(kind_of(other))),
    }
}

/// `v` with the patch applied at the position the tokens `toks[i..]`
/// name.
pub open spec fn patched_of(v: JsonV, toks: Seq<Seq<char>>, i: int, p: PatchV) -> Result<JsonV, PatchFailure>
    decreases toks.len() - i,
{
    if i >= toks.len() || i < 0 {
        operate_of(v, p)
    } else {
        match v {
            JsonV::Object(ms) => {
                let j = member_index(ms, toks[i]);
                if j < 0 {
                    Err(PatchFailure::Unresolved)
                } else {
                    match patched_of(ms[j].1, toks, i + 1, p) {
                        Err(e) => Err(e),
                        Ok(c) => Ok(JsonV::Object(ms.update(j, (ms[j].0, c)))),
                    }
                }
            },
            JsonV::Array(items) => match array_index(toks[i], items.len()) {
                None => Err(PatchFailure::Unresolved),
                Some(n) => match patched_of(items[n as int], toks, i + 1, p) {
                    Err(e) => Err(e),
                    Ok(c) => Ok(JsonV::Array(items.update(n as int, c))),
                },
            },
            _ => Err(PatchFailure::Unresolved),
        }
    }
}

/// The message for a failed patch.
pub open spec fn failure_text(p: PatchV, f: PatchFailure) -> Seq<char> {
    match f {
        PatchFailure::Unresolved => "patch pointer `"@ + pointer_of(p) + "` does not resolve in this request"@,
        PatchFailure::NotAnObject(kind) => "patch pointer `"@ + pointer_of(p) + "` resolves to a "@ + kind + ", not an object"@,
        PatchFailure::NoKey => "patch pointer `"@ + pointer_of(p) + "` carries no key `"@ + key_of(p) + "` to remove"@,
    }
}

/// One patch applied to `v`, or its error message.
pub open spec fn patch_of(v: JsonV, p: PatchV) -> Result<JsonV, Seq<char>> {
    match pointer_tokens(pointer_of(p)) {
        None => Err(failure_text(p, PatchFailure::Unresolved)),
        Some(toks) => match patched_of(v, toks, 0, p) {
            Ok(w) => Ok(w),
            Err(f) => Err(failure_text(p, f)),
        },
    }
}

/// The first `n` patches applied in order: the value they leave, and the
/// first error, after which nothing more is applied.
pub open spec fn patches_of(v: JsonV, ps: Seq<PatchV>, n: int) -> (JsonV, Option<Seq<char>>)
    decreases if n < 0 { 0 } else { n as nat },
{
    if n <= 0 || n > ps.len() {
        (v, None)
    } else {
        let (w, e) = patches_of(v, ps, n - 1);
        match e {
            Some(m) => (w, Some(m)),
            None => match patch_of(w, ps[n - 1]) {
                Ok(w2) => (w2, None),
                Err(m) => (w, Some(m)),
            },
        }
    }
}


// -- executable ------------------------------------------------------------------

/// Why one patch failed.
#[derive(Debug)]
pub enum PatchError {
    Unresolved,
    NotAnObject(&'static str),
    NoKey,
}

pub open spec fn patch_error_view(e: PatchError) -> PatchFailure {
    match e {
        PatchError::Unresolved => PatchFailure::Unresolved,
        PatchError::NotAnObject(k) => PatchFailure::NotAnObject(k@),
        PatchError::NoKey => PatchFailure::NoKey,
    }
}

/// The views of a list of character vectors.
pub open spec fn pieces_view(v: Seq<Vec<char>>) -> Seq<Seq<char>> {
    Seq::new(v.len(), |i: int| v[i]@)
}

/// `s` with the pair `a`,`b` replaced by `rep`, left to right.
fn replace_pair_chars(s: &Vec<char>, a: char, b: char, rep: char) -> (r: Vec<char>)
    ensures
        r@ == replace_pair(s@, a, b, rep),
{
    let mut out: Vec<char> = Vec::new();
    let mut k: usize = 0;
    assert(s@.subrange(0, s@.len() as int) =~= s@);
    while k < s.len()
        invariant
            k <= s@.len(),
            out@ + replace_pair(s@.subrange(k as int, s@.len() as int), a, b, rep) == replace_pair(s@, a, b, rep),
        decreases s.len() - k,
    {
        let ghost rest = s@.subrange(k as int, s@.len() as int);
        if k + 1 < s.len() && s[k] == a && s[k + 1] == b {
            proof {
                assert(rest[0] == a && rest[1] == b);
                assert(rest.subrange(2, rest.len() as int) =~= s@.subrange(k + 2, s@.len() as int));
                assert(out@.push(rep) + replace_pair(s@.subrange(k + 2, s@.len() as int), a, b, rep)
                    =~= out@ + (seq![rep] + replace_pair(rest.subrange(2, rest.len() as int), a, b, rep)));
            }
            out.push(rep);
            k = k + 2;
        } else {
            proof {
                assert(rest[0] == s@[k as int]);
                assert(rest.drop_first() =~= s@.subrange(k + 1, s@.len() as int));
                if rest.len() >= 2 {
                    assert(!(rest[0] == a && rest[1] == b));
                    assert(out@.push(s@[k as int]) + replace_pair(s@.subrange(k + 1, s@.len() as int), a, b, rep)
                        =~= out@ + (seq![rest[0]] + replace_pair(rest.drop_first(), a, b, rep)));
                } else {
                    assert(rest.drop_first().len() == 0);
                    assert(replace_pair(rest.drop_first(), a, b, rep) == rest.drop_first());
                    assert(out@.push(s@[k as int]) + replace_pair(s@.subrange(k + 1, s@.len() as int), a, b, rep)
                        =~= out@ + rest);
                }
            }
            out.push(s[k]);
            k = k + 1;
        }
    }
    assert(out@ + replace_pair(s@.subrange(k as int, s@.len() as int), a, b, rep) =~= out@);
    out
}

/// One pointer token, unescaped.
fn unescape_token(t: &Vec<char>) -> (r: String)
    ensures
        r@ == unescape(t@),
{
    let once = replace_pair_chars(t, '~', '1', '/');
    let twice = replace_pair_chars(&once, '~', '0', '~');
    string_of(twice.as_slice())
}

/// The tokens of a pointer.
pub fn pointer_tokens_of(p: &str) -> (r: Option<Vec<String>>)
    ensures
        match pointer_tokens(p@) {
            Some(ts) => r is Some && Seq::new(r->Some_0@.len(), |i: int| r->Some_0@[i]@) == ts,
            None => r is None,
        },
{
    let cs = chars_of(p);
    if cs.len() == 0 {
        let r: Vec<String> = Vec::new();
        assert(Seq::new(r@.len(), |i: int| r@[i]@) =~= Seq::<Seq<char>>::empty());
        return Some(r);
    }
    if cs[0] != '/' {
        return None;
    }
    let ghost body = p@.drop_first();
    let mut pieces: Vec<Vec<char>> = Vec::new();
    let mut cur: Vec<char> = Vec::new();
    let mut i: usize = 1;
    assert(p@.subrange(1, 1) =~= Seq::<char>::empty());
    assert(pieces_view(pieces@) + seq![cur@] =~= split_on(p@.subrange(1, 1), '/'));
    while i < cs.len()
        invariant
            cs@ == p@,
            1 <= i <= cs@.len(),
            pieces_view(pieces@) + seq![cur@] == split_on(p@.subrange(1, i as int), '/'),
        decreases cs.len() - i,
    {
        let ghost before = pieces_view(pieces@) + seq![cur@];
        proof {
            assert(p@.subrange(1, i + 1).drop_last() =~= p@.subrange(1, i as int));
            assert(p@.subrange(1, i + 1).last() == cs@[i as int]);
        }
        if cs[i] == '/' {
            let done = cur;
            pieces.push(done);
            cur = Vec::new();
            assert(pieces_view(pieces@) + seq![cur@] =~= before.push(Seq::empty()));
        } else {
            cur.push(cs[i]);
            assert(pieces_view(pieces@) + seq![cur@] =~= before.update(before.len() - 1, before.last().push(cs@[i as int])));
        }
        i = i + 1;
    }
    pieces.push(cur);
    assert(p@.subrange(1, p@.len() as int) =~= p@.drop_first());
    let ghost raw = pieces_view(pieces@);
    assert(raw == split_on(p@.drop_first(), '/'));
    let mut out: Vec<String> = Vec::new();
    let mut k: usize = 0;
    while k < pieces.len()
        invariant
            k <= pieces@.len(),
            raw == pieces_view(pieces@),
            out@.len() == k,
            forall|j: int| 0 <= j < k ==> (#[trigger] out@[j])@ == unescape(raw[j]),
        decreases pieces.len() - k,
    {
        out.push(unescape_token(&pieces[k]));
        k = k + 1;
    }
    assert(Seq::new(out@.len(), |i: int| out@[i]@) =~= raw.map_values(|t: Seq<char>| unescape(t)));
    Some(out)
}

/// A digit string's value never falls below that of a prefix.
pub proof fn lemma_digits_prefix(d: Seq<char>, k: int)
    requires
        0 <= k <= d.len(),
        all_digits(d),
    ensures
        digits_value(d) >= digits_value(d.subrange(0, k)),
    decreases d.len() - k,
{
    if k < d.len() {
        lemma_digits_prefix(d, k + 1);
        let pre = d.subrange(0, k + 1);
        assert(pre.drop_last() =~= d.subrange(0, k));
        assert(pre.last() == d[k]);
        assert(is_digit(d[k]));
        assert(digits_value(pre) == digits_value(d.subrange(0, k)) * 10 + ((d[k] as int) - ('0' as int)) as nat);
    } else {
        assert(d.subrange(0, k) =~= d);
    }
}

/// The array position a token names, if any.
fn array_position(t: &str, len: usize) -> (r: Option<usize>)
    ensures
        match array_index(t@, len as nat) {
            Some(n) => r == Some(n as usize),
            None => r is None,
        },
{
    let cs = chars_of(t);
    if cs.len() == 0 {
        return None;
    }
    let mut k: usize = 0;
    while k < cs.len()
        invariant
            cs@ == t@,
            k <= cs@.len(),
            forall|j: int| 0 <= j < k ==> is_digit(#[trigger] cs@[j]),
        decreases cs.len() - k,
    {
        if !(cs[k] >= '0' && cs[k] <= '9') {
            assert(!is_digit(t@[k as int]));
            return None;
        }
        k = k + 1;
    }
    assert(all_digits(t@));
    if cs[0] == '0' && cs.len() > 1 {
        return None;
    }
    if len == 0 {
        return None;
    }
    let mut acc: u128 = 0;
    let mut k: usize = 0;
    assert(t@.subrange(0, 0) =~= Seq::<char>::empty());
    while k < cs.len()
        invariant
            cs@ == t@,
            all_digits(t@),
            k <= cs@.len(),
            acc as nat == digits_value(t@.subrange(0, k as int)),
            acc < len as u128,
        decreases cs.len() - k,
    {
        assert(t@.subrange(0, k + 1).drop_last() =~= t@.subrange(0, k as int));
        assert(is_digit(t@[k as int]));
        let d: u128 = ((cs[k] as u32) - ('0' as u32)) as u128;
        let next = acc * 10 + d;
        assert(next as nat == digits_value(t@.subrange(0, k + 1)));
        if next >= len as u128 {
            proof { lemma_digits_prefix(t@, k + 1); }
            return None;
        }
        acc = next;
        k = k + 1;
    }
    assert(t@.subrange(0, cs@.len() as int) =~= t@);
    Some(acc as usize)
}

/// The position of the member keyed `k`, if any.
fn member_position(ms: &Vec<(String, Json)>, k: &str) -> (r: Option<usize>)
    ensures
        match r {
            Some(i) => i as int == member_index(members_view(ms@), k@),
            None => member_index(members_view(ms@), k@) < 0,
        },
        member_index(members_view(ms@), k@) < ms@.len(),
{
    let ghost mv = members_view(ms@);
    let mut i: usize = 0;
    assert(mv.subrange(0, mv.len() as int) =~= mv);
    proof { lemma_member_index_bound(mv, k@); }
    while i < ms.len()
        invariant
            i <= ms@.len(),
            mv == members_view(ms@),
            member_index(mv, k@) == if member_index(mv.subrange(i as int, mv.len() as int), k@) < 0 { -1 } else { member_index(mv.subrange(i as int, mv.len() as int), k@) + i },
            member_index(mv.subrange(i as int, mv.len() as int), k@) < mv.len() - i,
        decreases ms.len() - i,
    {
        let ghost rest = mv.subrange(i as int, mv.len() as int);
        assert(rest[0] == mv[i as int]);
        assert(rest.drop_first() =~= mv.subrange(i + 1, mv.len() as int));
        proof { lemma_member_index_bound(rest.drop_first(), k@); }
        if str_eq(ms[i].0.as_str(), k) {
            return Some(i);
        }
        i = i + 1;
    }
    None
}

/// A member index is `-1` or in range.
pub proof fn lemma_member_index_bound(ms: Seq<(Seq<char>, JsonV)>, k: Seq<char>)
    ensures
        -1 <= member_index(ms, k) < ms.len(),
        member_index(ms, k) >= 0 ==> ms[member_index(ms, k)].0 == k,
    decreases ms.len(),
{
    if ms.len() > 0 {
        lemma_member_index_bound(ms.drop_first(), k);
    }
}

/// Where a new key goes among `ms`.
fn insert_position(ms: &Vec<(String, Json)>, k: &str) -> (r: usize)
    ensures
        r as int == insert_pos(members_view(ms@), k@),
        r <= ms@.len(),
{
    let ghost mv = members_view(ms@);
    let mut i: usize = 0;
    assert(mv.subrange(0, mv.len() as int) =~= mv);
    while i < ms.len()
        invariant
            i <= ms@.len(),
            mv == members_view(ms@),
            insert_pos(mv, k@) == insert_pos(mv.subrange(i as int, mv.len() as int), k@) + i,
        decreases ms.len() - i,
    {
        let ghost rest = mv.subrange(i as int, mv.len() as int);
        assert(rest[0] == mv[i as int]);
        assert(rest.drop_first() =~= mv.subrange(i + 1, mv.len() as int));
        if !str_lt(ms[i].0.as_str(), k) {
            return i;
        }
        i = i + 1;
    }
    assert(mv.subrange(i as int, mv.len() as int) =~= Seq::<(Seq<char>, JsonV)>::empty());
    i
}

fn kind_name(v: &Json) -> (r: &'static str)
    ensures
        r@ == kind_of(v@),
{
    match v {
        Json::Null => "null",
        Json::Bool(_) => "boolean",
        Json::Number(_) => "number",
        Json::String(_) => "string",
        Json::Array(_) => "array",
        Json::Object(_) => "object",
    }
}

/// A copy of an object's members.
fn members_copy(v: &Json) -> (r: Vec<(String, Json)>)
    requires
        v is Object,
    ensures
        members_view(r@) == members_view(v->Object_0@),
{
    let c = copy_json(v);
    proof {
        lemma_members_view(*v);
    }
    match c {
        Json::Object(ms) => {
            proof { lemma_members_view(Json::Object(ms)); }
            ms
        },
        _ => {
            assert(false);
            Vec::new()
        },
    }
}

/// A copy of an array's items.
fn items_copy(v: &Json) -> (r: Vec<Json>)
    requires
        v is Array,
    ensures
        items_view(r@) == items_view(v->Array_0@),
{
    let c = copy_json(v);
    proof {
        lemma_items_view(*v);
    }
    match c {
        Json::Array(items) => {
            proof { lemma_items_view(Json::Array(items)); }
            items
        },
        _ => {
            assert(false);
            Vec::new()
        },
    }
}

/// The patch's operation on the object `v`.
fn operate(v: &Json, p: &Patch) -> (r: Result<Json, PatchError>)
    ensures
        match operate_of(v@, p@) {
            Ok(w) => r is Ok && r->Ok_0@ == w,
            Err(f) => r is Err && patch_error_view(r->Err_0) == f,
        },
{
    match v {
        Json::Object(_) => {},
        _ => return Err(PatchError::NotAnObject(kind_name(v))),
    }
    proof { lemma_members_view(*v); }
    let mut ms = members_copy(v);
    let ghost mv = members_view(ms@);
    match p {
        Patch::SetKey { key, value, .. } => {
            match member_position(&ms, key.as_str()) {
                Some(i) => {
                    ms.set(i, (key.clone(), copy_json(value)));
                    assert(members_view(ms@) =~= mv.update(i as int, (key@, value@)));
                },
                None => {
                    let pos = insert_position(&ms, key.as_str());
                    ms.insert(pos, (key.clone(), copy_json(value)));
                    assert(members_view(ms@) =~= mv.insert(pos as int, (key@, value@)));
                },
            }
            let r = Json::Object(ms);
            proof { lemma_members_view(r); }
            Ok(r)
        },
        Patch::Remove { key, .. } => {
            match member_position(&ms, key.as_str()) {
                Some(i) => {
                    ms.remove(i);
                    assert(members_view(ms@) =~= mv.remove(i as int));
                    let r = Json::Object(ms);
                    proof { lemma_members_view(r); }
                    Ok(r)
                },
                None => Err(PatchError::NoKey),
            }
        },
    }
}

/// `v` with the patch applied where `toks[i..]` points.
fn patch_value(v: &Json, toks: &Vec<String>, i: usize, p: &Patch) -> (r: Result<Json, PatchError>)
    requires
        i <= toks@.len(),
    ensures
        match patched_of(v@, Seq::new(toks@.len(), |j: int| toks@[j]@), i as int, p@) {
            Ok(w) => r is Ok && r->Ok_0@ == w,
            Err(f) => r is Err && patch_error_view(r->Err_0) == f,
        },
    decreases toks.len() - i,
{
    let ghost tv = Seq::new(toks@.len(), |j: int| toks@[j]@);
    if i == toks.len() {
        return operate(v, p);
    }
    assert(tv[i as int] == toks@[i as int]@);
    match v {
        Json::Object(ms) => {
            proof { lemma_members_view(*v); }
            match member_position(ms, toks[i].as_str()) {
                None => Err(PatchError::Unresolved),
                Some(j) => {
                    match patch_value(&ms[j].1, toks, i + 1, p) {
                        Err(e) => Err(e),
                        Ok(c) => {
                            let mut nms = members_copy(v);
                            let ghost mv = members_view(nms@);
                            nms.set(j, (ms[j].0.clone(), c));
                            assert(members_view(nms@) =~= mv.update(j as int, (mv[j as int].0, c@)));
                            let r = Json::Object(nms);
                            proof { lemma_members_view(r); }
                            Ok(r)
                        },
                    }
                },
            }
        },
        Json::Array(items) => {
            proof { lemma_items_view(*v); }
            match array_position(toks[i].as_str(), items.len()) {
                None => Err(PatchError::Unresolved),
                Some(n) => {
                    match patch_value(&items[n], toks, i + 1, p) {
                        Err(e) => Err(e),
                        Ok(c) => {
                            let mut nitems = items_copy(v);
                            let ghost iv = items_view(nitems@);
                            nitems.set(n, c);
                            assert(items_view(nitems@) =~= iv.update(n as int, c@));
                            let r = Json::Array(nitems);
                            proof { lemma_items_view(r); }
                            Ok(r)
                        },
                    }
                },
            }
        },
        _ => Err(PatchError::Unresolved),
    }
}

fn failure_message(p: &Patch, f: &PatchError) -> (r: String)
    ensures
        r@ == failure_text(p@, patch_error_view(*f)),
{
    let (pointer, key) = match p {
        Patch::SetKey { pointer, key, .. } => (pointer, key),
        Patch::Remove { pointer, key } => (pointer, key),
    };
    match f {
        PatchError::Unresolved => concat3("patch pointer `", pointer.as_str(), "` does not resolve in this request"),
        PatchError::NotAnObject(kind) => {
            let head = concat3("patch pointer `", pointer.as_str(), "` resolves to a ");
            concat3(head.as_str(), kind, ", not an object")
        },
        PatchError::NoKey => {
            let head = concat3("patch pointer `", pointer.as_str(), "` carries no key `");
            concat3(head.as_str(), key.as_str(), "` to remove")
        },
    }
}

/// The views of a list of patches.
pub open spec fn patches_view(ps: Seq<Patch>) -> Seq<PatchV> {
    Seq::new(ps.len(), |i: int| ps[i]@)
}

/// Applies every patch in order, in place. The first patch that fails
/// stops the run with its error, the value keeping the earlier patches.
pub fn apply_patches(value: &mut Json, patches: &[Patch]) -> (r: Result<(), String>)
    ensures
        final(value)@ == patches_of(old(value)@, patches_view(patches@), patches@.len() as int).0,
        match patches_of(old(value)@, patches_view(patches@), patches@.len() as int).1 {
            None => r is Ok,
            Some(m) => r is Err && r->Err_0@ == m,
        },
{
    let ghost pv = patches_view(patches@);
    let mut k: usize = 0;
    while k < patches.len()
        invariant
            k <= patches@.len(),
            pv == patches_view(patches@),
            patches_of(old(value)@, pv, k as int) == (value@, None::<Seq<char>>),
        decreases patches.len() - k,
    {
        let p = &patches[k];
        assert(pv[k as int] == p@);
        let toks = match pointer_tokens_of(match p {
            Patch::SetKey { pointer, .. } => pointer.as_str(),
            Patch::Remove { pointer, .. } => pointer.as_str(),
        }) {
            Some(t) => t,
            None => {
                let m = failure_message(p, &PatchError::Unresolved);
                proof { lemma_patches_stop(old(value)@, pv, k as int + 1, pv.len() as int); }
                return Err(m);
            },
        };
        match patch_value(value, &toks, 0, p) {
            Ok(w) => {
                *value = w;
            },
            Err(f) => {
                let m = failure_message(p, &f);
                proof { lemma_patches_stop(old(value)@, pv, k as int + 1, pv.len() as int); }
                return Err(m);
            },
        }
        k = k + 1;
    }
    Ok(())
}

/// Once a patch has failed, later ones change nothing.
pub proof fn lemma_patches_stop(v: JsonV, ps: Seq<PatchV>, k: int, m: int)
    requires
        1 <= k <= m <= ps.len(),
        patches_of(v, ps, k).1 is Some,
    ensures
        patches_of(v, ps, m) == patches_of(v, ps, k),
    decreases m - k,
{
    if m > k {
        lemma_patches_stop(v, ps, k, m - 1);
    }
}


// -- laws ------------------------------------------------------------------------

/// The value the tokens `toks[i..]` point at in `v`, if they resolve.
pub open spec fn value_at(v: JsonV, toks: Seq<Seq<char>>, i: int) -> Option<JsonV>
    decreases toks.len() - i,
{
    if i >= toks.len() || i < 0 {
        Some(v)
    } else {
        match v {
            JsonV::Object(ms) => {
                let j = member_index(ms, toks[i]);
                if j < 0 { None } else { value_at(ms[j].1, toks, i + 1) }
            },
            JsonV::Array(items) => match array_index(toks[i], items.len()) {
                Some(n) => value_at(items[n as int], toks, i + 1),
                None => None,
            },
            _ => None,
        }
    }
}

pub proof fn lemma_member_index_first(ms: Seq<(Seq<char>, JsonV)>, k: Seq<char>)
    ensures
        member_index(ms, k) >= 0 ==> forall|j: int| 0 <= j < member_index(ms, k) ==> (#[trigger] ms[j]).0 != k,
        member_index(ms, k) < 0 ==> forall|j: int| 0 <= j < ms.len() ==> (#[trigger] ms[j]).0 != k,
    decreases ms.len(),
{
    lemma_member_index_bound(ms, k);
    if ms.len() > 0 {
        lemma_member_index_first(ms.drop_first(), k);
        lemma_member_index_bound(ms.drop_first(), k);
        assert forall|j: int| 1 <= j < ms.len() implies (#[trigger] ms[j]) == ms.drop_first()[j - 1] by {}
    }
}

/// `member_of` finds the member `member_index` names.
pub proof fn lemma_member_of_index(ms: Seq<(Seq<char>, JsonV)>, k: Seq<char>)
    ensures
        member_index(ms, k) >= 0 ==> member_of(ms, k) == Some(ms[member_index(ms, k)].1),
        member_index(ms, k) < 0 ==> member_of(ms, k) is None,
    decreases ms.len(),
{
    lemma_member_index_bound(ms, k);
    if ms.len() > 0 {
        lemma_member_of_index(ms.drop_first(), k);
        lemma_member_index_bound(ms.drop_first(), k);
        if member_index(ms, k) > 0 {
            assert(ms[member_index(ms, k)] == ms.drop_first()[member_index(ms.drop_first(), k)]);
        }
    }
}

/// Replacing a member's value keeps every key where it was.
pub proof fn lemma_member_index_update(ms: Seq<(Seq<char>, JsonV)>, j: int, val: JsonV, k: Seq<char>)
    requires
        0 <= j < ms.len(),
    ensures
        member_index(ms.update(j, (ms[j].0, val)), k) == member_index(ms, k),
    decreases ms.len(),
{
    if j > 0 {
        assert(ms.update(j, (ms[j].0, val)).drop_first() =~= ms.drop_first().update(j - 1, (ms[j].0, val)));
        lemma_member_index_update(ms.drop_first(), j - 1, val, k);
    } else {
        assert(ms.update(j, (ms[j].0, val)).drop_first() =~= ms.drop_first());
    }
}

/// Inserting a key no member carries makes it findable.
pub proof fn lemma_member_of_insert(ms: Seq<(Seq<char>, JsonV)>, pos: int, k: Seq<char>, val: JsonV)
    requires
        0 <= pos <= ms.len(),
        forall|j: int| 0 <= j < ms.len() ==> (#[trigger] ms[j]).0 != k,
    ensures
        member_of(ms.insert(pos, (k, val)), k) == Some(val),
    decreases ms.len(),
{
    if pos > 0 {
        assert(ms.insert(pos, (k, val)).drop_first() =~= ms.drop_first().insert(pos - 1, (k, val)));
        assert(ms.insert(pos, (k, val))[0] == ms[0]);
        assert forall|j: int| 0 <= j < ms.drop_first().len() implies (#[trigger] ms.drop_first()[j]).0 != k by {
            assert(ms.drop_first()[j] == ms[j + 1]);
        }
        lemma_member_of_insert(ms.drop_first(), pos - 1, k, val);
    }
}

/// Replacing the first member keyed `k` makes `member_of` find the new
/// value.
pub proof fn lemma_member_of_replace(ms: Seq<(Seq<char>, JsonV)>, k: Seq<char>, val: JsonV)
    requires
        member_index(ms, k) >= 0,
    ensures
        member_of(ms.update(member_index(ms, k), (k, val)), k) == Some(val),
    decreases ms.len(),
{
    let i = member_index(ms, k);
    lemma_member_index_bound(ms, k);
    if i > 0 {
        lemma_member_index_bound(ms.drop_first(), k);
        assert(member_index(ms.drop_first(), k) == i - 1);
        assert(ms.update(i, (k, val)).drop_first() =~= ms.drop_first().update(i - 1, (k, val)));
        assert(ms.update(i, (k, val))[0] == ms[0]);
        lemma_member_of_replace(ms.drop_first(), k, val);
    }
}

/// Setting a key and reading it back: once a `SetKey` patch applies at
/// the position `toks[i..]` names, that position holds an object whose
/// member `k` is the value set.
pub proof fn set_then_read_gives_the_value(v: JsonV, toks: Seq<Seq<char>>, i: int, ptr: Seq<char>, k: Seq<char>, val: JsonV)
    requires
        0 <= i <= toks.len(),
        patched_of(v, toks, i, PatchV::SetKey(ptr, k, val)) is Ok,
    ensures
        value_at(patched_of(v, toks, i, PatchV::SetKey(ptr, k, val))->Ok_0, toks, i) matches Some(JsonV::Object(ms))
            && member_of(ms, k) == Some(val),
    decreases toks.len() - i,
{
    let p = PatchV::SetKey(ptr, k, val);
    if i == toks.len() {
        match v {
            JsonV::Object(ms) => {
                lemma_member_index_bound(ms, k);
                if member_index(ms, k) >= 0 {
                    lemma_member_of_replace(ms, k, val);
                } else {
                    lemma_member_index_first(ms, k);
                    lemma_insert_pos_bound(ms, k);
                    lemma_member_of_insert(ms, insert_pos(ms, k), k, val);
                }
            },
            _ => {},
        }
    } else {
        match v {
            JsonV::Object(ms) => {
                let j = member_index(ms, toks[i]);
                lemma_member_index_bound(ms, toks[i]);
                set_then_read_gives_the_value(ms[j].1, toks, i + 1, ptr, k, val);
                let c = patched_of(ms[j].1, toks, i + 1, p)->Ok_0;
                lemma_member_index_update(ms, j, c, toks[i]);
                assert(ms.update(j, (ms[j].0, c))[j].1 == c);
            },
            JsonV::Array(items) => {
                let n = array_index(toks[i], items.len())->Some_0;
                set_then_read_gives_the_value(items[n as int], toks, i + 1, ptr, k, val);
                let c = patched_of(items[n as int], toks, i + 1, p)->Ok_0;
                assert(items.update(n as int, c).len() == items.len());
                assert(items.update(n as int, c)[n as int] == c);
            },
            _ => {},
        }
    }
}

pub proof fn lemma_insert_pos_bound(ms: Seq<(Seq<char>, JsonV)>, k: Seq<char>)
    ensures
        0 <= insert_pos(ms, k) <= ms.len(),
    decreases ms.len(),
{
    if ms.len() > 0 {
        lemma_insert_pos_bound(ms.drop_first(), k);
    }
}

/// The same law for a whole patch: a `SetKey` patch that succeeds leaves
/// the value set under its key in the object its pointer names.
pub proof fn a_successful_set_can_be_read_back(v: JsonV, ptr: Seq<char>, k: Seq<char>, val: JsonV)
    requires
        patch_of(v, PatchV::SetKey(ptr, k, val)) is Ok,
    ensures
        pointer_tokens(ptr) is Some,
        value_at(patch_of(v, PatchV::SetKey(ptr, k, val))->Ok_0, pointer_tokens(ptr)->Some_0, 0) matches Some(JsonV::Object(ms))
            && member_of(ms, k) == Some(val),
{
    let toks = pointer_tokens(ptr)->Some_0;
    set_then_read_gives_the_value(v, toks, 0, ptr, k, val);
}

} // verus!
