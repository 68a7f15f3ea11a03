//! Offline JSON-LD 1.1 expansion over the subset a Dataspace Protocol
//! contract policy uses: term definitions (string, `@id`, `@type`
//! coercion, type-scoped `@context` with `@propagate`), compact IRIs,
//! `@vocab`, keyword aliases, `@import`, and `"@context": null`.
//!
//! A `"@context": "<url>"` reference resolves only against the registry of
//! context documents handed in; nothing is ever fetched.

use vstd::prelude::*;
use vstd::string::*;
use crate::text::{str_eq, owned, concat2, concat3, chars_of, string_of, debug_quoted, debug_str, debug_list, debug_list_of};
use crate::json::{Json, JsonV, member, member_of, members_view, get_of, copy_json, render_json, json_text,
    parse_json, parsed_json, items_view, lemma_items_view, lemma_members_view};
use crate::ingest::{lex_lt, strictly_sorted, insert_sorted, lemma_lex_lt_irreflexive, lemma_lex_lt_transitive, lemma_lex_lt_total};
use crate::text::strings_view;
use crate::jsonld::{Expanded, ExpandedV, Node, NodeV, Expansion, vals_view, vpush, nodes_view};

verus! {

/// How deep `"@context"` references to registry documents may nest.
pub const MAX_CONTEXT_NESTING: usize = 8;

/// How deep prefix-of-a-prefix resolution may chain before giving up.
pub const MAX_PREFIX_CHAIN: usize = 8;

/// Why a document could not be expanded.
#[derive(Debug, Clone, PartialEq, Eq)]
pub enum JsonLdError {
    /// A `"@context": "<url>"` naming a document not in the registry.
    UnknownContext(String),
    /// A context that is not a string, an array, an object or null — or a
    /// registry document that does not itself parse.
    MalformedContext(String),
    /// The document is not a JSON object.
    NotANodeObject,
}

pub enum JsonLdErrorV {
    UnknownContext(Seq<char>),
    MalformedContext(Seq<char>),
    NotANodeObject,
}

impl View for JsonLdError {
    type V = JsonLdErrorV;

    open spec fn view(&self) -> JsonLdErrorV {
        match *self {
            JsonLdError::UnknownContext(s) => JsonLdErrorV::UnknownContext(s@),
            JsonLdError::MalformedContext(s) => JsonLdErrorV::MalformedContext(s@),
            JsonLdError::NotANodeObject => JsonLdErrorV::NotANodeObject,
        }
    }
}

/// The context documents a `"@context": "<url>"` may name: each URL with
/// the document's text.
#[derive(Debug, PartialEq, Eq)]
pub struct ContextRegistry {
    pub entries: Vec<(String, String)>,
}

/// The URLs of the context documents the adapter is built to resolve, in
/// order.
pub fn bundled_context_urls() -> (r: Vec<String>)
    ensures
        r@.len() == 5,
        r@[0]@ == "http://www.w3.org/ns/odrl.jsonld"@,
        r@[1]@ == "https://www.w3.org/ns/odrl.jsonld"@,
        r@[2]@ == "https://w3id.org/dspace/2024/1/context.json"@,
        r@[3]@ == "https://w3id.org/dspace/2025/1/context.jsonld"@,
        r@[4]@ == "https://w3id.org/dspace/2025/1/odrl-profile.jsonld"@,
{
    vec![
        owned("http://www.w3.org/ns/odrl.jsonld"),
        owned("https://www.w3.org/ns/odrl.jsonld"),
        owned("https://w3id.org/dspace/2024/1/context.json"),
        owned("https://w3id.org/dspace/2025/1/context.jsonld"),
        owned("https://w3id.org/dspace/2025/1/odrl-profile.jsonld"),
    ]
}

/// The URLs [`bundled_context_urls`] lists, in order.
pub open spec fn bundled_urls_v() -> Seq<Seq<char>> {
    seq![
        "http://www.w3.org/ns/odrl.jsonld"@,
        "https://www.w3.org/ns/odrl.jsonld"@,
        "https://w3id.org/dspace/2024/1/context.json"@,
        "https://w3id.org/dspace/2025/1/context.jsonld"@,
        "https://w3id.org/dspace/2025/1/odrl-profile.jsonld"@,
    ]
}

/// The message an expansion error is reported with.
pub open spec fn json_ld_error_text(e: JsonLdErrorV) -> Seq<char> {
    match e {
        JsonLdErrorV::UnknownContext(url) => "@context "@ + debug_str(url)
            + " is not one of the context documents bundled with this adapter, and no context is ever fetched over the network: "@
            + debug_list_of(bundled_urls_v()),
        JsonLdErrorV::MalformedContext(what) => "malformed @context: "@ + what,
        JsonLdErrorV::NotANodeObject => "the document is not a JSON object"@,
    }
}

impl JsonLdError {
    /// The error's message: for an unknown context, the URL and the URLs
    /// that can be resolved; for a malformed one, what was wrong.
    pub fn message(&self) -> (r: String)
        ensures
            r@ == json_ld_error_text(self@),
    {
        match self {
            JsonLdError::UnknownContext(url) => {
                let urls = bundled_context_urls();
                assert(strings_view(urls@) =~= bundled_urls_v());
                let q = debug_quoted(url.as_str());
                let list = debug_list(&urls);
                let head = concat3("@context ", q.as_str(),
                    " is not one of the context documents bundled with this adapter, and no context is ever fetched over the network: ");
                concat2(head.as_str(), list.as_str())
            },
            JsonLdError::MalformedContext(what) => concat2("malformed @context: ", what.as_str()),
            JsonLdError::NotANodeObject => owned("the document is not a JSON object"),
        }
    }
}

/// One term definition of an active context.
#[derive(Debug, PartialEq, Eq)]
pub struct TermDef {
    /// The IRI mapping, or a keyword (`@id`, `@type`) for an alias.
    pub iri: Option<String>,
    /// `@type` coercion of the term's values.
    pub type_mapping: Option<String>,
    /// A type-scoped local context.
    pub scoped: Option<Json>,
    /// Whether that scoped context reaches nested node objects.
    pub propagate: bool,
}

/// An active context: term definitions, the latest entry for a term
/// winning (`None` removes it), and `@vocab`.
#[derive(Debug, PartialEq, Eq)]
pub struct Ctx {
    pub terms: Vec<(String, Option<TermDef>)>,
    pub vocab: Option<String>,
}

pub struct TermDefV {
    pub iri: Option<Seq<char>>,
    pub type_mapping: Option<Seq<char>>,
    pub scoped: Option<JsonV>,
    pub propagate: bool,
}

pub struct CtxV {
    pub terms: Seq<(Seq<char>, Option<TermDefV>)>,
    pub vocab: Option<Seq<char>>,
}

pub open spec fn sopt(o: Option<String>) -> Option<Seq<char>> {
    match o {
        Some(s) => Some(s@),
        None => None,
    }
}

pub open spec fn term_def_view(d: TermDef) -> TermDefV {
    TermDefV {
        iri: sopt(d.iri),
        type_mapping: sopt(d.type_mapping),
        scoped: match d.scoped { Some(j) => Some(j@), None => None },
        propagate: d.propagate,
    }
}

pub open spec fn ctx_view(c: Ctx) -> CtxV {
    CtxV {
        terms: Seq::new(c.terms@.len(), |i: int| (c.terms@[i].0@, match c.terms@[i].1 {
            Some(d) => Some(term_def_view(d)),
            None => None,
        })),
        vocab: sopt(c.vocab),
    }
}

impl View for Ctx {
    type V = CtxV;

    open spec fn view(&self) -> CtxV {
        ctx_view(*self)
    }
}

/// The empty active context.
pub open spec fn empty_ctx() -> CtxV {
    CtxV { terms: Seq::empty(), vocab: None }
}

/// The definition of `key` in force: its latest entry.
pub open spec fn term_def_of(terms: Seq<(Seq<char>, Option<TermDefV>)>, key: Seq<char>) -> Option<TermDefV>
    decreases terms.len(),
{
    if terms.len() == 0 {
        None
    } else if terms.last().0 == key {
        terms.last().1
    } else {
        term_def_of(terms.drop_last(), key)
    }
}

/// Whether `s` begins with `@`.
pub open spec fn at_keyword(s: Seq<char>) -> bool {
    s.len() > 0 && s[0] == '@'
}

/// A term's IRI mapping, unless it is a keyword alias.
pub open spec fn term_iri_of(c: CtxV, t: Seq<char>) -> Option<Seq<char>> {
    match term_def_of(c.terms, t) {
        Some(d) => match d.iri {
            Some(i) => if at_keyword(i) { None } else { Some(i) },
            None => None,
        },
        None => None,
    }
}

/// The index of the first `:` in `s`, or `-1`.
pub open spec fn colon_at(s: Seq<char>) -> int
    decreases s.len(),
{
    if s.len() == 0 {
        -1
    } else if s.last() == ':' && colon_at(s.drop_last()) < 0 {
        s.len() - 1
    } else {
        colon_at(s.drop_last())
    }
}

/// Whether a suffix begins with `//`.
pub open spec fn double_slash(s: Seq<char>) -> bool {
    s.len() >= 2 && s[0] == '/' && s[1] == '/'
}

/// A compact IRI candidate's prefix and suffix: split at the first colon,
/// unless the suffix begins with `//`, the prefix is `_`, or it is empty.
pub open spec fn split_compact_of(v: Seq<char>) -> Option<(Seq<char>, Seq<char>)> {
    let k = colon_at(v);
    if k < 0 {
        None
    } else {
        let prefix = v.subrange(0, k);
        let suffix = v.subrange(k + 1, v.len() as int);
        if double_slash(suffix) || (prefix.len() == 1 && prefix[0] == '_') || prefix.len() == 0 {
            None
        } else {
            Some((prefix, suffix))
        }
    }
}

/// A `scheme://…` IRI: a colon whose suffix begins with `//`.
pub open spec fn scheme_absolute(v: Seq<char>) -> bool {
    let k = colon_at(v);
    k >= 0 && double_slash(v.subrange(k + 1, v.len() as int))
}

/// Whether `v` begins with `_:`.
pub open spec fn blank_label(v: Seq<char>) -> bool {
    v.len() >= 2 && v[0] == '_' && v[1] == ':'
}

/// JSON-LD IRI expansion: the expanded value and whether it resolved to
/// something absolute (an unresolved value comes back verbatim).
pub open spec fn expand_iri_of(c: CtxV, v: Seq<char>, vocab: bool) -> (Seq<char>, bool) {
    if blank_label(v) || at_keyword(v) {
        (v, true)
    } else if vocab && term_iri_of(c, v) is Some {
        (term_iri_of(c, v)->0, true)
    } else {
        match split_compact_of(v) {
            Some((p, s)) => match term_iri_of(c, p) {
                Some(b) => (b + s, true),
                None => (v, true),
            },
            None => if scheme_absolute(v) {
                (v, true)
            } else if vocab && c.vocab is Some {
                (c.vocab->0 + v, true)
            } else {
                (v, false)
            },
        }
    }
}

/// What a node object's key means.
pub enum KeyV {
    Id,
    Type,
    Dropped,
    Property(Seq<char>),
}

/// Reads a key under the active context: an alias of `@id`/`@type`, some
/// other keyword (dropped), or a property IRI (dropped when unresolved).
pub open spec fn expand_key_of(c: CtxV, key: Seq<char>) -> KeyV {
    let resolved = match term_def_of(c.terms, key) {
        Some(d) => match d.iri {
            Some(alias) => if at_keyword(alias) { alias } else { key },
            None => key,
        },
        None => key,
    };
    if resolved == "@id"@ {
        KeyV::Id
    } else if resolved == "@type"@ {
        KeyV::Type
    } else if at_keyword(resolved) {
        KeyV::Dropped
    } else if expand_iri_of(c, key, true).1 {
        KeyV::Property(expand_iri_of(c, key, true).0)
    } else {
        KeyV::Dropped
    }
}

// -- executable lookups --------------------------------------------------------

/// The definition of `key` in force in `ctx`.
pub fn lookup<'a>(ctx: &'a Ctx, key: &str) -> (r: Option<&'a TermDef>)
    ensures
        match r {
            Some(d) => term_def_of(ctx@.terms, key@) == Some(term_def_view(*d)),
            None => term_def_of(ctx@.terms, key@) is None,
        },
{
    let ghost tv = ctx@.terms;
    let mut i: usize = ctx.terms.len();
    assert(tv.subrange(0, i as int) =~= tv);
    while i > 0
        invariant
            i <= ctx.terms@.len(),
            tv == ctx@.terms,
            tv.len() == ctx.terms@.len(),
            term_def_of(tv, key@) == term_def_of(tv.subrange(0, i as int), key@),
        decreases i,
    {
        assert(tv.subrange(0, i as int).drop_last() =~= tv.subrange(0, i - 1));
        assert(tv[i - 1] == (ctx.terms@[i - 1].0@, match ctx.terms@[i - 1].1 {
            Some(d) => Some(term_def_view(d)),
            None => None::<TermDefV>,
        }));
        if str_eq(ctx.terms[i - 1].0.as_str(), key) {
            return match &ctx.terms[i - 1].1 {
                Some(d) => Some(d),
                None => None,
            };
        }
        i = i - 1;
    }
    None
}

fn starts_with_at(s: &str) -> (r: bool)
    ensures
        r == at_keyword(s@),
{
    let cs = chars_of(s);
    cs.len() > 0 && cs[0] == '@'
}

/// A term's IRI mapping in `ctx`, unless it is a keyword alias.
pub fn term_iri(ctx: &Ctx, term: &str) -> (r: Option<String>)
    ensures
        sopt(r) == term_iri_of(ctx@, term@),
{
    match lookup(ctx, term) {
        Some(d) => match &d.iri {
            Some(i) => if starts_with_at(i.as_str()) { None } else { Some(i.clone()) },
            None => None,
        },
        None => None,
    }
}

fn colon_index(cs: &Vec<char>) -> (r: Option<usize>)
    ensures
        match r {
            Some(k) => k as int == colon_at(cs@) && k < cs@.len(),
            None => colon_at(cs@) < 0,
        },
{
    let mut i: usize = 0;
    while i < cs.len()
        invariant
            i <= cs@.len(),
            colon_at(cs@.subrange(0, i as int)) < 0,
        decreases cs.len() - i,
    {
        proof {
            assert(cs@.subrange(0, i + 1).drop_last() =~= cs@.subrange(0, i as int));
        }
        if cs[i] == ':' {
            proof { lemma_colon_prefix(cs@, i as int + 1); }
            return Some(i);
        }
        i = i + 1;
    }
    assert(cs@.subrange(0, cs@.len() as int) =~= cs@);
    None
}

pub proof fn lemma_colon_prefix(s: Seq<char>, k: int)
    requires
        0 <= k <= s.len(),
        colon_at(s.subrange(0, k)) >= 0,
    ensures
        colon_at(s) == colon_at(s.subrange(0, k)),
    decreases s.len(),
{
    if k < s.len() {
        assert(s.drop_last().subrange(0, k) =~= s.subrange(0, k));
        lemma_colon_prefix(s.drop_last(), k);
    } else {
        assert(s.subrange(0, k) =~= s);
    }
}

pub proof fn lemma_colon_at(s: Seq<char>)
    ensures
        -1 <= colon_at(s) < s.len(),
    decreases s.len(),
{
    if s.len() > 0 {
        lemma_colon_at(s.drop_last());
    }
}

fn sub_chars(cs: &Vec<char>, from: usize, to: usize) -> (r: String)
    requires
        from <= to <= cs@.len(),
    ensures
        r@ == cs@.subrange(from as int, to as int),
{
    let mut v: Vec<char> = Vec::new();
    let mut i: usize = from;
    while i < to
        invariant
            from <= i <= to,
            to <= cs@.len(),
            v@ == cs@.subrange(from as int, i as int),
        decreases to - i,
    {
        v.push(cs[i]);
        assert(v@ =~= cs@.subrange(from as int, i + 1));
        i = i + 1;
    }
    string_of(v.as_slice())
}

/// A compact IRI candidate's prefix and suffix.
pub fn split_compact(value: &str) -> (r: Option<(String, String)>)
    ensures
        match r {
            Some((p, s)) => split_compact_of(value@) == Some((p@, s@)),
            None => split_compact_of(value@) is None,
        },
{
    let cs = chars_of(value);
    let k = match colon_index(&cs) {
        Some(k) => k,
        None => return None,
    };
    let n = cs.len();
    let suffix_slash = n - (k + 1) >= 2 && cs[k + 1] == '/' && cs[k + 2] == '/';
    let prefix_blank = k == 1 && cs[0] == '_';
    if suffix_slash || prefix_blank || k == 0 {
        return None;
    }
    Some((sub_chars(&cs, 0, k), sub_chars(&cs, k + 1, n)))
}

/// Whether `value` is a `scheme://…` IRI.
pub fn is_scheme_absolute(value: &str) -> (r: bool)
    ensures
        r == scheme_absolute(value@),
{
    let cs = chars_of(value);
    match colon_index(&cs) {
        Some(k) => cs.len() - (k + 1) >= 2 && cs[k + 1] == '/' && cs[k + 2] == '/',
        None => false,
    }
}

/// JSON-LD IRI expansion under `ctx`.
pub fn expand_iri(ctx: &Ctx, value: &str, vocab: bool) -> (r: (String, bool))
    ensures
        (r.0@, r.1) == expand_iri_of(ctx@, value@, vocab),
{
    let cs = chars_of(value);
    if (cs.len() >= 2 && cs[0] == '_' && cs[1] == ':') || starts_with_at(value) {
        return (owned(value), true);
    }
    if vocab {
        match term_iri(ctx, value) {
            Some(iri) => return (iri, true),
            None => {},
        }
    }
    match split_compact(value) {
        Some((prefix, suffix)) => match term_iri(ctx, prefix.as_str()) {
            Some(base) => (concat2(base.as_str(), suffix.as_str()), true),
            None => (owned(value), true),
        },
        None => {
            if is_scheme_absolute(value) {
                (owned(value), true)
            } else if vocab && ctx.vocab.is_some() {
                match &ctx.vocab {
                    Some(v) => (concat2(v.as_str(), value), true),
                    None => (owned(value), false),
                }
            } else {
                (owned(value), false)
            }
        },
    }
}

/// What a node object's key means.
#[derive(Debug, PartialEq, Eq)]
pub enum Key {
    Id,
    Type,
    Dropped,
    Property(String),
}

/// Reads a key of a node object under `ctx`.
pub fn expand_key(ctx: &Ctx, key: &str) -> (r: Key)
    ensures
        match expand_key_of(ctx@, key@) {
            KeyV::Id => r is Id,
            KeyV::Type => r is Type,
            KeyV::Dropped => r is Dropped,
            KeyV::Property(iri) => r is Property && r->Property_0@ == iri,
        },
{
    let resolved: String = match lookup(ctx, key) {
        Some(d) => match &d.iri {
            Some(alias) => if starts_with_at(alias.as_str()) { alias.clone() } else { owned(key) },
            None => owned(key),
        },
        None => owned(key),
    };
    if str_eq(resolved.as_str(), "@id") {
        Key::Id
    } else if str_eq(resolved.as_str(), "@type") {
        Key::Type
    } else if starts_with_at(resolved.as_str()) {
        Key::Dropped
    } else {
        let (iri, ok) = expand_iri(ctx, key, true);
        if ok { Key::Property(iri) } else { Key::Dropped }
    }
}


// -- context processing --------------------------------------------------------

/// A term definition as read off a context object, before prefixes are
/// resolved.
pub struct RawDefV {
    pub iri_value: Option<Seq<char>>,
    pub type_mapping: Option<Seq<char>>,
    pub scoped: Option<JsonV>,
    pub propagate: bool,
}

/// The registry document for `url`: the first entry naming it.
pub open spec fn registry_lookup_of(reg: Seq<(Seq<char>, Seq<char>)>, url: Seq<char>) -> Option<Seq<char>>
    decreases reg.len(),
{
    if reg.len() == 0 {
        None
    } else if reg[0].0 == url {
        Some(reg[0].1)
    } else {
        registry_lookup_of(reg.drop_first(), url)
    }
}

/// The `@context` member of the registry document for `url`.
pub open spec fn registry_context_of(reg: Seq<(Seq<char>, Seq<char>)>, url: Seq<char>) -> Result<JsonV, JsonLdErrorV> {
    match registry_lookup_of(reg, url) {
        None => Err(JsonLdErrorV::UnknownContext(url)),
        Some(body) => match parsed_json(body) {
            Err(e) => Err(JsonLdErrorV::MalformedContext(url + ": "@ + e)),
            Ok(doc) => match get_of(doc, "@context"@) {
                Some(c) => Ok(c),
                None => Err(JsonLdErrorV::MalformedContext(url + ": no @context member"@)),
            },
        },
    }
}

/// The error for context references nested past the limit.
pub open spec fn nesting_error(url: Seq<char>) -> JsonLdErrorV {
    JsonLdErrorV::MalformedContext(url + ": context references nest too deeply"@)
}

/// Applies one local context on top of `c`: a registry reference, an
/// array of contexts in order, a context object, or `null` (a reset).
pub open spec fn process_context_of(c: CtxV, local: JsonV, reg: Seq<(Seq<char>, Seq<char>)>, fuel: nat) -> Result<CtxV, JsonLdErrorV>
    decreases fuel, local, 0nat,
{
    match local {
        JsonV::Str(url) => if fuel == 0 {
            Err(nesting_error(url))
        } else {
            match registry_context_of(reg, url) {
                Err(e) => Err(e),
                Ok(imported) => process_context_of(c, imported, reg, (fuel - 1) as nat),
            }
        },
        JsonV::Array(items) => process_items_of(c, items, reg, fuel, items.len() as int),
        JsonV::Object(ms) => process_object_of(c, ms, reg, fuel),
        JsonV::Null => Ok(empty_ctx()),
        other => Err(JsonLdErrorV::MalformedContext("expected a string, array or object, got "@ + json_text(other))),
    }
}

/// The first `n` of `items`, applied in order.
pub open spec fn process_items_of(c: CtxV, items: Seq<JsonV>, reg: Seq<(Seq<char>, Seq<char>)>, fuel: nat, n: int) -> Result<CtxV, JsonLdErrorV>
    decreases fuel, items, if n < 0 { 0 } else { n as nat },
{
    if n <= 0 || n > items.len() {
        Ok(c)
    } else {
        match process_items_of(c, items, reg, fuel, n - 1) {
            Err(e) => Err(e),
            Ok(c2) => process_context_of(c2, items[n - 1], reg, fuel),
        }
    }
}

/// A context object: its `@import` first, then `@vocab`, then its term
/// definitions, each resolved against the others.
pub open spec fn process_object_of(c: CtxV, ms: Seq<(Seq<char>, JsonV)>, reg: Seq<(Seq<char>, Seq<char>)>, fuel: nat) -> Result<CtxV, JsonLdErrorV>
    decreases fuel, ms, 0nat,
{
    let imported = match member_of(ms, "@import"@) {
        Some(JsonV::Str(url)) => if fuel == 0 {
            Err(nesting_error(url))
        } else {
            match registry_context_of(reg, url) {
                Err(e) => Err(e),
                Ok(imp) => process_context_of(c, imp, reg, (fuel - 1) as nat),
            }
        },
        _ => Ok(c),
    };
    match imported {
        Err(e) => Err(e),
        Ok(c1) => {
            let c2 = match member_of(ms, "@vocab"@) {
                Some(JsonV::Str(v)) => CtxV { terms: c1.terms, vocab: Some(v) },
                _ => c1,
            };
            match read_raw_of(c2, ms) {
                Err(e) => Err(e),
                Ok((c3, raw)) => Ok(resolve_all_of(c3, raw, raw.len() as int)),
            }
        },
    }
}

/// A term definition's raw form, read off its value (a string or an
/// object).
pub open spec fn raw_def_of(key: Seq<char>, v: JsonV) -> RawDefV {
    match v {
        JsonV::Object(def) => {
            let scoped = member_of(def, "@context"@);
            RawDefV {
                iri_value: match member_of(def, "@id"@) {
                    Some(JsonV::Str(s)) => Some(s),
                    _ => Some(key),
                },
                type_mapping: match member_of(def, "@type"@) {
                    Some(JsonV::Str(s)) => Some(s),
                    _ => None,
                },
                scoped,
                propagate: match scoped {
                    Some(sc) => match get_of(sc, "@propagate"@) {
                        Some(JsonV::Bool(b)) => b,
                        _ => false,
                    },
                    None => false,
                },
            }
        },
        JsonV::Str(s) => RawDefV { iri_value: Some(s), type_mapping: None, scoped: None, propagate: false },
        _ => RawDefV { iri_value: None, type_mapping: None, scoped: None, propagate: false },
    }
}

/// Reads the term definitions of a context object in member order: the
/// context with every `null`-valued term removed, and the raw definitions
/// of the others; keys starting with `@` are skipped.
pub open spec fn read_raw_of(c: CtxV, ms: Seq<(Seq<char>, JsonV)>) -> Result<(CtxV, Seq<(Seq<char>, RawDefV)>), JsonLdErrorV>
    decreases ms.len(),
{
    if ms.len() == 0 {
        Ok((c, Seq::empty()))
    } else {
        match read_raw_of(c, ms.drop_last()) {
            Err(e) => Err(e),
            Ok((c1, raw)) => {
                let (key, v) = ms.last();
                if at_keyword(key) {
                    Ok((c1, raw))
                } else {
                    match v {
                        JsonV::Str(_) => Ok((c1, raw.push((key, raw_def_of(key, v))))),
                        JsonV::Object(_) => Ok((c1, raw.push((key, raw_def_of(key, v))))),
                        JsonV::Null => Ok((CtxV { terms: c1.terms.push((key, None)), vocab: c1.vocab }, raw)),
                        other => Err(JsonLdErrorV::MalformedContext("term "@ + debug_str(key)
                            + " is neither a string nor an object: "@ + json_text(other))),
                    }
                }
            },
        }
    }
}

/// The raw definition of `key`, if any.
pub open spec fn raw_get(raw: Seq<(Seq<char>, RawDefV)>, key: Seq<char>) -> Option<RawDefV>
    decreases raw.len(),
{
    if raw.len() == 0 {
        None
    } else if raw[0].0 == key {
        Some(raw[0].1)
    } else {
        raw_get(raw.drop_first(), key)
    }
}

/// A raw term's IRI mapping: a keyword alias as is; a compact IRI through
/// its prefix (defined in the same object, else in `c`), verbatim when the
/// prefix resolves nowhere; anything else `@vocab`-relative when a vocab
/// is set. Chains deeper than the limit resolve to nothing.
pub open spec fn resolve_raw_term_of(c: CtxV, raw: Seq<(Seq<char>, RawDefV)>, term: Seq<char>, depth: int) -> Option<Seq<char>>
    decreases MAX_PREFIX_CHAIN + 1 - depth,
{
    if depth > MAX_PREFIX_CHAIN as int {
        None
    } else {
        match raw_get(raw, term) {
            None => None,
            Some(d) => match d.iri_value {
                None => None,
                Some(v) => if at_keyword(v) {
                    Some(v)
                } else {
                    match split_compact_of(v) {
                        Some((p, s)) => match (match resolve_raw_term_of(c, raw, p, depth + 1) {
                            Some(b) => Some(b),
                            None => term_iri_of(c, p),
                        }) {
                            Some(b) => Some(b + s),
                            None => Some(v),
                        },
                        None => match c.vocab {
                            Some(voc) => Some(voc + v),
                            None => Some(v),
                        },
                    }
                },
            },
        }
    }
}

/// Adds the first `n` raw definitions to `c`, in order, each resolved
/// against the context as it stands.
pub open spec fn resolve_all_of(c: CtxV, raw: Seq<(Seq<char>, RawDefV)>, n: int) -> CtxV
    decreases if n < 0 { 0 } else { n as nat },
{
    if n <= 0 || n > raw.len() {
        c
    } else {
        let c1 = resolve_all_of(c, raw, n - 1);
        let (term, d) = raw[n - 1];
        CtxV {
            terms: c1.terms.push((term, Some(TermDefV {
                iri: resolve_raw_term_of(c1, raw, term, 0),
                type_mapping: d.type_mapping,
                scoped: d.scoped,
                propagate: d.propagate,
            }))),
            vocab: c1.vocab,
        }
    }
}


/// A raw term definition.
#[derive(Debug, PartialEq, Eq)]
pub struct RawDef {
    pub iri_value: Option<String>,
    pub type_mapping: Option<String>,
    pub scoped: Option<Json>,
    pub propagate: bool,
}

pub open spec fn raw_def_view(d: RawDef) -> RawDefV {
    RawDefV {
        iri_value: sopt(d.iri_value),
        type_mapping: sopt(d.type_mapping),
        scoped: match d.scoped { Some(j) => Some(j@), None => None },
        propagate: d.propagate,
    }
}

pub open spec fn raw_view(raw: Seq<(String, RawDef)>) -> Seq<(Seq<char>, RawDefV)> {
    Seq::new(raw.len(), |i: int| (raw[i].0@, raw_def_view(raw[i].1)))
}

pub open spec fn reg_view(reg: ContextRegistry) -> Seq<(Seq<char>, Seq<char>)> {
    Seq::new(reg.entries@.len(), |i: int| (reg.entries@[i].0@, reg.entries@[i].1@))
}

fn copy_opt_string(o: &Option<String>) -> (r: Option<String>)
    ensures
        sopt(r) == sopt(*o),
{
    match o {
        Some(s) => Some(s.clone()),
        None => None,
    }
}

fn copy_opt_json(o: &Option<Json>) -> (r: Option<Json>)
    ensures
        match r { Some(j) => Some(j@), None => None::<JsonV> } == match *o { Some(j) => Some(j@), None => None::<JsonV> },
{
    match o {
        Some(j) => Some(copy_json(j)),
        None => None,
    }
}

/// A deep copy of `c`.
pub fn copy_ctx(c: &Ctx) -> (r: Ctx)
    ensures
        r@ == c@,
{
    let mut terms: Vec<(String, Option<TermDef>)> = Vec::new();
    let mut i: usize = 0;
    while i < c.terms.len()
        invariant
            i <= c.terms@.len(),
            terms@.len() == i,
            forall|k: int| 0 <= k < i ==> (#[trigger] ctx_view(Ctx { terms, vocab: None }).terms[k]) == c@.terms[k],
        decreases c.terms.len() - i,
    {
        let d = match &c.terms[i].1 {
            Some(d) => Some(TermDef {
                iri: copy_opt_string(&d.iri),
                type_mapping: copy_opt_string(&d.type_mapping),
                scoped: copy_opt_json(&d.scoped),
                propagate: d.propagate,
            }),
            None => None,
        };
        let ghost before = terms;
        terms.push((c.terms[i].0.clone(), d));
        proof {
            assert forall|k: int| 0 <= k < i + 1 implies (#[trigger] ctx_view(Ctx { terms, vocab: None }).terms[k]) == c@.terms[k] by {
                if k < i {
                    assert(ctx_view(Ctx { terms, vocab: None }).terms[k] == ctx_view(Ctx { terms: before, vocab: None }).terms[k]);
                }
            }
        }
        i = i + 1;
    }
    let r = Ctx { terms, vocab: copy_opt_string(&c.vocab) };
    assert(r@.terms =~= c@.terms) by {
        assert forall|k: int| 0 <= k < r@.terms.len() implies r@.terms[k] == c@.terms[k] by {
            assert(ctx_view(Ctx { terms, vocab: None }).terms[k] == c@.terms[k]);
        }
    }
    r
}

/// The document registered under `url`.
pub fn registry_lookup<'a>(reg: &'a ContextRegistry, url: &str) -> (r: Option<&'a str>)
    ensures
        match r {
            Some(b) => registry_lookup_of(reg_view(*reg), url@) == Some(b@),
            None => registry_lookup_of(reg_view(*reg), url@) is None,
        },
{
    let ghost rv = reg_view(*reg);
    let mut i: usize = 0;
    assert(rv.subrange(0, rv.len() as int) =~= rv);
    while i < reg.entries.len()
        invariant
            i <= reg.entries@.len(),
            rv == reg_view(*reg),
            registry_lookup_of(rv, url@) == registry_lookup_of(rv.subrange(i as int, rv.len() as int), url@),
        decreases reg.entries.len() - i,
    {
        let ghost rest = rv.subrange(i as int, rv.len() as int);
        assert(rest[0] == rv[i as int]);
        assert(rest.drop_first() =~= rv.subrange(i + 1, rv.len() as int));
        if str_eq(reg.entries[i].0.as_str(), url) {
            return Some(reg.entries[i].1.as_str());
        }
        i = i + 1;
    }
    None
}

/// The `@context` member of the registry document for `url`.
pub fn registry_context(reg: &ContextRegistry, url: &str) -> (r: Result<Json, JsonLdError>)
    ensures
        match registry_context_of(reg_view(*reg), url@) {
            Ok(c) => r is Ok && r->Ok_0@ == c,
            Err(e) => r is Err && r->Err_0@ == e,
        },
{
    let body = match registry_lookup(reg, url) {
        Some(b) => b,
        None => return Err(JsonLdError::UnknownContext(owned(url))),
    };
    let doc = match parse_json(body) {
        Ok(d) => d,
        Err(e) => return Err(JsonLdError::MalformedContext(concat3(url, ": ", e.as_str()))),
    };
    match &doc {
        Json::Object(ms) => {
            proof { lemma_members_view(doc); }
            match member(ms, "@context") {
                Some(c) => Ok(copy_json(c)),
                None => Err(JsonLdError::MalformedContext(concat2(url, ": no @context member"))),
            }
        },
        _ => Err(JsonLdError::MalformedContext(concat2(url, ": no @context member"))),
    }
}


/// The raw definition of `key`.
fn raw_lookup<'a>(raw: &'a Vec<(String, RawDef)>, key: &str) -> (r: Option<&'a RawDef>)
    ensures
        match r {
            Some(d) => raw_get(raw_view(raw@), key@) == Some(raw_def_view(*d)),
            None => raw_get(raw_view(raw@), key@) is None,
        },
{
    let ghost rv = raw_view(raw@);
    let mut i: usize = 0;
    assert(rv.subrange(0, rv.len() as int) =~= rv);
    while i < raw.len()
        invariant
            i <= raw@.len(),
            rv == raw_view(raw@),
            raw_get(rv, key@) == raw_get(rv.subrange(i as int, rv.len() as int), key@),
        decreases raw.len() - i,
    {
        let ghost rest = rv.subrange(i as int, rv.len() as int);
        assert(rest[0] == rv[i as int]);
        assert(rest.drop_first() =~= rv.subrange(i + 1, rv.len() as int));
        if str_eq(raw[i].0.as_str(), key) {
            return Some(&raw[i].1);
        }
        i = i + 1;
    }
    None
}

/// Resolves one raw term definition's IRI mapping.
pub fn resolve_raw_term(ctx: &Ctx, raw: &Vec<(String, RawDef)>, term: &str, depth: usize) -> (r: Option<String>)
    requires
        depth <= MAX_PREFIX_CHAIN + 1,
    ensures
        sopt(r) == resolve_raw_term_of(ctx@, raw_view(raw@), term@, depth as int),
    decreases MAX_PREFIX_CHAIN + 1 - depth,
{
    if depth > MAX_PREFIX_CHAIN {
        return None;
    }
    let d = match raw_lookup(raw, term) {
        Some(d) => d,
        None => return None,
    };
    let value: &String = match &d.iri_value {
        Some(v) => v,
        None => return None,
    };
    if starts_with_at(value.as_str()) {
        return Some(value.clone());
    }
    match split_compact(value.as_str()) {
        Some((prefix, suffix)) => {
            let base = match resolve_raw_term(ctx, raw, prefix.as_str(), depth + 1) {
                Some(b) => Some(b),
                None => term_iri(ctx, prefix.as_str()),
            };
            match base {
                Some(b) => Some(concat2(b.as_str(), suffix.as_str())),
                None => Some(value.clone()),
            }
        },
        None => match &ctx.vocab {
            Some(v) => Some(concat2(v.as_str(), value.as_str())),
            None => Some(value.clone()),
        },
    }
}

/// The raw definition a string- or object-valued term reads as.
fn raw_def(key: &str, v: &Json) -> (r: RawDef)
    ensures
        raw_def_view(r) == raw_def_of(key@, v@),
{
    match v {
        Json::Object(def) => {
            proof { lemma_members_view(*v); }
            let scoped = match member(def, "@context") {
                Some(c) => Some(copy_json(c)),
                None => None,
            };
            let propagate = match &scoped {
                Some(Json::Object(sm)) => {
                    proof { lemma_members_view(scoped->0); }
                    match member(sm, "@propagate") {
                        Some(Json::Bool(b)) => *b,
                        _ => false,
                    }
                },
                _ => false,
            };
            let iri_value = match member(def, "@id") {
                Some(Json::String(s)) => Some(s.clone()),
                _ => Some(owned(key)),
            };
            let type_mapping = match member(def, "@type") {
                Some(Json::String(s)) => Some(s.clone()),
                _ => None,
            };
            RawDef { iri_value, type_mapping, scoped, propagate }
        },
        Json::String(s) => RawDef { iri_value: Some(s.clone()), type_mapping: None, scoped: None, propagate: false },
        _ => RawDef { iri_value: None, type_mapping: None, scoped: None, propagate: false },
    }
}

/// Reads a context object's term definitions into `raw`, removing every
/// `null`-valued term from `ctx`.
fn read_raw(ctx: &mut Ctx, ms: &Vec<(String, Json)>) -> (r: Result<Vec<(String, RawDef)>, JsonLdError>)
    ensures
        match read_raw_of(old(ctx)@, members_view(ms@)) {
            Ok((c, raw)) => r is Ok && final(ctx)@ == c && raw_view(r->Ok_0@) == raw,
            Err(e) => r is Err && r->Err_0@ == e,
        },
{
    let ghost mv = members_view(ms@);
    let mut raw: Vec<(String, RawDef)> = Vec::new();
    let mut i: usize = 0;
    assert(raw_view(raw@) =~= Seq::<(Seq<char>, RawDefV)>::empty());
    assert(mv.subrange(0, 0) =~= Seq::<(Seq<char>, JsonV)>::empty());
    while i < ms.len()
        invariant
            i <= ms@.len(),
            mv == members_view(ms@),
            read_raw_of(old(ctx)@, mv.subrange(0, i as int)) == Ok::<(CtxV, Seq<(Seq<char>, RawDefV)>), JsonLdErrorV>((ctx@, raw_view(raw@))),
        decreases ms.len() - i,
    {
        proof {
            assert(mv.subrange(0, i + 1).drop_last() =~= mv.subrange(0, i as int));
            assert(mv.subrange(0, i + 1).last() == mv[i as int]);
        }
        let key = &ms[i].0;
        let v = &ms[i].1;
        if !starts_with_at(key.as_str()) {
            match v {
                Json::String(_) | Json::Object(_) => {
                    let d = raw_def(key.as_str(), v);
                    let ghost before = raw@;
                    raw.push((key.clone(), d));
                    assert(raw_view(raw@) =~= raw_view(before).push((key@, raw_def_view(d))));
                },
                Json::Null => {
                    let ghost before = ctx@;
                    ctx.terms.push((key.clone(), None));
                    assert(ctx@.terms =~= before.terms.push((key@, None::<TermDefV>)));
                },
                _ => {
                    let quoted = debug_quoted(key.as_str());
                    let text = render_json(v);
                    let head = concat3("term ", quoted.as_str(), " is neither a string nor an object: ");
                    proof {
                        lemma_read_raw_err_persists(old(ctx)@, mv, i as int + 1);
                        assert(mv.subrange(0, mv.len() as int) =~= mv);
                    }
                    return Err(JsonLdError::MalformedContext(concat2(head.as_str(), text.as_str())));
                },
            }
        }
        i = i + 1;
    }
    assert(mv.subrange(0, mv.len() as int) =~= mv);
    Ok(raw)
}

pub proof fn lemma_read_raw_err_persists(c: CtxV, ms: Seq<(Seq<char>, JsonV)>, k: int)
    requires
        0 <= k <= ms.len(),
        read_raw_of(c, ms.subrange(0, k)) is Err,
    ensures
        read_raw_of(c, ms) == read_raw_of(c, ms.subrange(0, k)),
    decreases ms.len(),
{
    if k < ms.len() {
        assert(ms.drop_last().subrange(0, k) =~= ms.subrange(0, k));
        lemma_read_raw_err_persists(c, ms.drop_last(), k);
    } else {
        assert(ms.subrange(0, k) =~= ms);
    }
}

/// Adds every raw definition to `ctx`, in order.
fn resolve_all(ctx: &mut Ctx, raw: &Vec<(String, RawDef)>)
    ensures
        final(ctx)@ == resolve_all_of(old(ctx)@, raw_view(raw@), raw@.len() as int),
{
    let ghost rv = raw_view(raw@);
    let mut i: usize = 0;
    while i < raw.len()
        invariant
            i <= raw@.len(),
            rv == raw_view(raw@),
            ctx@ == resolve_all_of(old(ctx)@, rv, i as int),
        decreases raw.len() - i,
    {
        let term = &raw[i].0;
        let d = &raw[i].1;
        let resolved = resolve_raw_term(ctx, raw, term.as_str(), 0);
        let def = TermDef {
            iri: resolved,
            type_mapping: copy_opt_string(&d.type_mapping),
            scoped: copy_opt_json(&d.scoped),
            propagate: d.propagate,
        };
        let ghost before = ctx@;
        ctx.terms.push((term.clone(), Some(def)));
        assert(ctx@.terms =~= before.terms.push((term@, Some(term_def_view(def)))));
        i = i + 1;
    }
}

/// Applies one local context on top of `ctx`, in place; `fuel` bounds how
/// deep registry references may nest.
pub fn process_context(ctx: &mut Ctx, local: &Json, reg: &ContextRegistry, fuel: usize) -> (r: Result<(), JsonLdError>)
    ensures
        match process_context_of(old(ctx)@, local@, reg_view(*reg), fuel as nat) {
            Ok(c) => r is Ok && final(ctx)@ == c,
            Err(e) => r is Err && r->Err_0@ == e,
        },
    decreases fuel, *local, 1nat,
{
    match local {
        Json::String(url) => {
            if fuel == 0 {
                return Err(JsonLdError::MalformedContext(concat2(url.as_str(), ": context references nest too deeply")));
            }
            let imported = match registry_context(reg, url.as_str()) {
                Ok(c) => c,
                Err(e) => return Err(e),
            };
            process_context(ctx, &imported, reg, fuel - 1)
        },
        Json::Array(items) => {
            proof { lemma_items_view(*local); }
            let mut i: usize = 0;
            while i < items.len()
                invariant
                    *local == Json::Array(*items),
                    local@ == JsonV::Array(items_view(items@)),
                    i <= items@.len(),
                    process_items_of(old(ctx)@, items_view(items@), reg_view(*reg), fuel as nat, i as int)
                        == Ok::<CtxV, JsonLdErrorV>(ctx@),
                decreases items.len() - i,
            {
                assert(decreases_to!(*local => local->Array_0@[i as int]));
                match process_context(ctx, &items[i], reg, fuel) {
                    Ok(()) => {},
                    Err(e) => {
                        proof {
                            assert(items_view(items@)[i as int] == items@[i as int]@);
                            assert(process_items_of(old(ctx)@, items_view(items@), reg_view(*reg), fuel as nat, i as int + 1) is Err);
                            lemma_items_err_persists(old(ctx)@, items_view(items@), reg_view(*reg), fuel as nat, i as int + 1, items@.len() as int);
                        }
                        return Err(e);
                    },
                }
                i = i + 1;
            }
            Ok(())
        },
        Json::Object(_) => process_context_object(ctx, local, reg, fuel),
        Json::Null => {
            *ctx = Ctx { terms: Vec::new(), vocab: None };
            assert(ctx@.terms =~= empty_ctx().terms);
            Ok(())
        },
        _ => {
            let text = render_json(local);
            Err(JsonLdError::MalformedContext(concat2("expected a string, array or object, got ", text.as_str())))
        },
    }
}

pub proof fn lemma_items_err_persists(c: CtxV, items: Seq<JsonV>, reg: Seq<(Seq<char>, Seq<char>)>, fuel: nat, k: int, m: int)
    requires
        1 <= k <= m <= items.len(),
        process_items_of(c, items, reg, fuel, k) is Err,
    ensures
        process_items_of(c, items, reg, fuel, m) == process_items_of(c, items, reg, fuel, k),
    decreases m - k,
{
    if m > k {
        lemma_items_err_persists(c, items, reg, fuel, k, m - 1);
    }
}

/// Applies a context object: `@import`, `@vocab`, then its terms.
fn process_context_object(ctx: &mut Ctx, local: &Json, reg: &ContextRegistry, fuel: usize) -> (r: Result<(), JsonLdError>)
    requires
        local is Object,
    ensures
        match process_object_of(old(ctx)@, local@->Object_0, reg_view(*reg), fuel as nat) {
            Ok(c) => r is Ok && final(ctx)@ == c,
            Err(e) => r is Err && r->Err_0@ == e,
        },
    decreases fuel, *local, 0nat,
{
    let ms = match local {
        Json::Object(ms) => ms,
        _ => { assert(false); return Ok(()); },
    };
    proof { lemma_members_view(*local); }
    match member(ms, "@import") {
        Some(Json::String(url)) => {
            if fuel == 0 {
                return Err(JsonLdError::MalformedContext(concat2(url.as_str(), ": context references nest too deeply")));
            }
            let imported = match registry_context(reg, url.as_str()) {
                Ok(c) => c,
                Err(e) => return Err(e),
            };
            match process_context(ctx, &imported, reg, fuel - 1) {
                Ok(()) => {},
                Err(e) => return Err(e),
            }
        },
        _ => {},
    }
    match member(ms, "@vocab") {
        Some(Json::String(v)) => {
            ctx.vocab = Some(v.clone());
        },
        _ => {},
    }
    let raw = match read_raw(ctx, ms) {
        Ok(raw) => raw,
        Err(e) => return Err(e),
    };
    resolve_all(ctx, &raw);
    Ok(())
}


// -- type-scoped contexts --------------------------------------------------------

/// Two strictly sorted sequences holding the same elements are equal.
pub proof fn lemma_sorted_unique(a: Seq<Seq<char>>, b: Seq<Seq<char>>)
    requires
        strictly_sorted(a),
        strictly_sorted(b),
        a.to_set() == b.to_set(),
    ensures
        a == b,
    decreases a.len() + b.len(),
{
    if a.len() == 0 || b.len() == 0 {
        if a.len() > 0 {
            assert(a.to_set().contains(a[0]));
        }
        if b.len() > 0 {
            assert(b.to_set().contains(b[0]));
        }
        assert(a =~= b);
    } else {
        assert(a.to_set().contains(a[0]));
        assert(b.to_set().contains(b[0]));
        let i = choose|i: int| 0 <= i < b.len() && b[i] == a[0];
        let j = choose|j: int| 0 <= j < a.len() && a[j] == b[0];
        if i > 0 {
            assert(lex_lt(b[0], b[i]));
            if j > 0 {
                assert(lex_lt(a[0], a[j]));
                lemma_lex_lt_transitive(b[0], a[0], b[0]);
                lemma_lex_lt_irreflexive(b[0]);
            } else {
                lemma_lex_lt_irreflexive(b[0]);
            }
        }
        assert(a[0] == b[0]);
        let a1 = a.drop_first();
        let b1 = b.drop_first();
        assert(strictly_sorted(a1)) by {
            assert forall|x: int, y: int| 0 <= x < y < a1.len() implies lex_lt(#[trigger] a1[x], #[trigger] a1[y]) by {
                assert(a1[x] == a[x + 1] && a1[y] == a[y + 1]);
            }
        }
        assert(strictly_sorted(b1)) by {
            assert forall|x: int, y: int| 0 <= x < y < b1.len() implies lex_lt(#[trigger] b1[x], #[trigger] b1[y]) by {
                assert(b1[x] == b[x + 1] && b1[y] == b[y + 1]);
            }
        }
        assert(a1.to_set() =~= b1.to_set()) by {
            assert forall|z: Seq<char>| a1.to_set().contains(z) implies b1.to_set().contains(z) by {
                let k = choose|k: int| 0 <= k < a1.len() && a1[k] == z;
                assert(a[k + 1] == z);
                assert(lex_lt(a[0], z));
                assert(b.to_set().contains(z));
                let m = choose|m: int| 0 <= m < b.len() && b[m] == z;
                if m == 0 {
                    lemma_lex_lt_irreflexive(z);
                }
                assert(b1[m - 1] == z);
            }
            assert forall|z: Seq<char>| b1.to_set().contains(z) implies a1.to_set().contains(z) by {
                let k = choose|k: int| 0 <= k < b1.len() && b1[k] == z;
                assert(b[k + 1] == z);
                assert(lex_lt(b[0], z));
                assert(a.to_set().contains(z));
                let m = choose|m: int| 0 <= m < a.len() && a[m] == z;
                if m == 0 {
                    lemma_lex_lt_irreflexive(z);
                }
                assert(a1[m - 1] == z);
            }
        }
        lemma_sorted_unique(a1, b1);
        assert(a =~= b) by {
            assert forall|x: int| 0 <= x < a.len() implies a[x] == b[x] by {
                if x > 0 {
                    assert(a[x] == a1[x - 1]);
                    assert(b[x] == b1[x - 1]);
                }
            }
        }
    }
}

/// The strictly sorted sequence of the elements of `s`.
pub open spec fn sorted_terms(s: Set<Seq<char>>) -> Seq<Seq<char>> {
    choose|t: Seq<Seq<char>>| strictly_sorted(t) && t.to_set() == s
}

/// The strings among `items`, in order.
pub open spec fn strings_of_items(items: Seq<JsonV>) -> Seq<Seq<char>>
    decreases items.len(),
{
    if items.len() == 0 {
        Seq::empty()
    } else {
        match items.last() {
            JsonV::Str(s) => strings_of_items(items.drop_last()).push(s),
            _ => strings_of_items(items.drop_last()),
        }
    }
}

/// The strings of a `@type` value: one string, or the strings of an array.
pub open spec fn type_strings_of(v: JsonV) -> Seq<Seq<char>> {
    match v {
        JsonV::Str(s) => seq![s],
        JsonV::Array(items) => strings_of_items(items),
        _ => Seq::empty(),
    }
}

/// The `@type` strings of a node object's members, read under `c`.
pub open spec fn node_type_strings(c: CtxV, ms: Seq<(Seq<char>, JsonV)>) -> Seq<Seq<char>>
    decreases ms.len(),
{
    if ms.len() == 0 {
        Seq::empty()
    } else {
        node_type_strings(c, ms.drop_last()) + if expand_key_of(c, ms.last().0) is Type {
            type_strings_of(ms.last().1)
        } else {
            Seq::empty()
        }
    }
}

/// The contexts the first `n` of the type terms `tt` bring in: the one a
/// node's own properties are read in, and the one its nested nodes start
/// from (only propagating scoped contexts reach it).
pub open spec fn scoped_fold_of(base: CtxV, tt: Seq<Seq<char>>, reg: Seq<(Seq<char>, Seq<char>)>, n: int) -> Result<(CtxV, CtxV), JsonLdErrorV>
    decreases if n < 0 { 0 } else { n as nat },
{
    if n <= 0 || n > tt.len() {
        Ok((base, base))
    } else {
        match scoped_fold_of(base, tt, reg, n - 1) {
            Err(e) => Err(e),
            Ok((eff, child)) => match term_def_of(base.terms, tt[n - 1]) {
                Some(d) => match d.scoped {
                    Some(sc) => match process_context_of(eff, sc, reg, MAX_CONTEXT_NESTING as nat) {
                        Err(e) => Err(e),
                        Ok(eff2) => if d.propagate {
                            match process_context_of(child, sc, reg, MAX_CONTEXT_NESTING as nat) {
                                Err(e) => Err(e),
                                Ok(child2) => Ok((eff2, child2)),
                            }
                        } else {
                            Ok((eff2, child))
                        },
                    },
                    None => Ok((eff, child)),
                },
                None => Ok((eff, child)),
            },
        }
    }
}

/// Every type-scoped context a node object's `@type`s bring in, applied
/// in lexicographic order of the type terms.
pub open spec fn apply_type_scoped_of(base: CtxV, ms: Seq<(Seq<char>, JsonV)>, reg: Seq<(Seq<char>, Seq<char>)>) -> Result<(CtxV, CtxV), JsonLdErrorV> {
    let tt = sorted_terms(node_type_strings(base, ms).to_set());
    scoped_fold_of(base, tt, reg, tt.len() as int)
}

/// The strings of a `@type` value, in order.
fn type_strings(v: &Json) -> (r: Vec<String>)
    ensures
        strings_view(r@) == type_strings_of(v@),
{
    match v {
        Json::String(s) => {
            let r = vec![s.clone()];
            assert(strings_view(r@) =~= seq![s@]);
            r
        },
        Json::Array(items) => {
            proof { lemma_items_view(*v); }
            let ghost iv = items_view(items@);
            let mut r: Vec<String> = Vec::new();
            let mut i: usize = 0;
            assert(strings_view(r@) =~= strings_of_items(iv.subrange(0, 0)));
            while i < items.len()
                invariant
                    i <= items@.len(),
                    iv == items_view(items@),
                    strings_view(r@) == strings_of_items(iv.subrange(0, i as int)),
                decreases items.len() - i,
            {
                proof {
                    assert(iv.subrange(0, i + 1).drop_last() =~= iv.subrange(0, i as int));
                    assert(iv.subrange(0, i + 1).last() == items@[i as int]@);
                }
                match &items[i] {
                    Json::String(s) => {
                        let ghost before = r@;
                        r.push(s.clone());
                        assert(strings_view(r@) =~= strings_view(before).push(s@));
                    },
                    _ => {},
                }
                i = i + 1;
            }
            assert(iv.subrange(0, iv.len() as int) =~= iv);
            r
        },
        _ => {
            let r: Vec<String> = Vec::new();
            assert(strings_view(r@) =~= Seq::<Seq<char>>::empty());
            r
        },
    }
}

/// The sorted, distinct `@type` strings of a node object's members.
fn sorted_type_terms(base: &Ctx, ms: &Vec<(String, Json)>) -> (r: Vec<String>)
    ensures
        strings_view(r@) == sorted_terms(node_type_strings(base@, members_view(ms@)).to_set()),
{
    let ghost mv = members_view(ms@);
    let mut out: Vec<String> = Vec::new();
    let mut i: usize = 0;
    assert(strings_view(out@).to_set() =~= node_type_strings(base@, mv.subrange(0, 0)).to_set());
    while i < ms.len()
        invariant
            i <= ms@.len(),
            mv == members_view(ms@),
            strictly_sorted(strings_view(out@)),
            strings_view(out@).to_set() == node_type_strings(base@, mv.subrange(0, i as int)).to_set(),
        decreases ms.len() - i,
    {
        proof {
            assert(mv.subrange(0, i + 1).drop_last() =~= mv.subrange(0, i as int));
            assert(mv.subrange(0, i + 1).last() == mv[i as int]);
        }
        let k = expand_key(base, ms[i].0.as_str());
        let ghost before = node_type_strings(base@, mv.subrange(0, i as int));
        match k {
            Key::Type => {
                let ts = type_strings(&ms[i].1);
                let ghost tv = strings_view(ts@);
                let mut j: usize = 0;
                assert(strings_view(out@).to_set() =~= before.to_set() + tv.subrange(0, 0).to_set());
                while j < ts.len()
                    invariant
                        j <= ts@.len(),
                        tv == strings_view(ts@),
                        strictly_sorted(strings_view(out@)),
                        strings_view(out@).to_set() == before.to_set() + tv.subrange(0, j as int).to_set(),
                    decreases ts.len() - j,
                {
                    insert_sorted(&mut out, ts[j].as_str());
                    proof {
                        assert(tv.subrange(0, j + 1) =~= tv.subrange(0, j as int).push(tv[j as int]));
                        tv.subrange(0, j as int).lemma_push_to_set_commute(tv[j as int]);
                        assert(strings_view(out@).to_set() =~= before.to_set() + tv.subrange(0, j + 1).to_set());
                    }
                    j = j + 1;
                }
                proof {
                    assert(tv.subrange(0, tv.len() as int) =~= tv);
                    crate::ingest::lemma_concat_to_set(before, tv);
                    assert(strings_view(out@).to_set() =~= node_type_strings(base@, mv.subrange(0, i + 1)).to_set());
                }
            },
            _ => {
                assert(node_type_strings(base@, mv.subrange(0, i + 1)) =~= before);
            },
        }
        i = i + 1;
    }
    proof {
        assert(mv.subrange(0, mv.len() as int) =~= mv);
        let s = node_type_strings(base@, mv).to_set();
        assert(strictly_sorted(strings_view(out@)) && strings_view(out@).to_set() == s);
        let t = sorted_terms(s);
        lemma_sorted_unique(t, strings_view(out@));
    }
    out
}

/// Applies the type-scoped contexts of a node object's `@type`s: the
/// context its own properties are read in, and the one nested node
/// objects start from.
pub fn apply_type_scoped(base: &Ctx, ms: &Vec<(String, Json)>, reg: &ContextRegistry) -> (r: Result<(Ctx, Ctx), JsonLdError>)
    ensures
        match apply_type_scoped_of(base@, members_view(ms@), reg_view(*reg)) {
            Ok((e, c)) => r is Ok && r->Ok_0.0@ == e && r->Ok_0.1@ == c,
            Err(e) => r is Err && r->Err_0@ == e,
        },
{
    let tt = sorted_type_terms(base, ms);
    let ghost tv = strings_view(tt@);
    let ghost rv = reg_view(*reg);
    let mut effective = copy_ctx(base);
    let mut child_base = copy_ctx(base);
    let mut i: usize = 0;
    while i < tt.len()
        invariant
            i <= tt@.len(),
            tv == strings_view(tt@),
            rv == reg_view(*reg),
            apply_type_scoped_of(base@, members_view(ms@), rv) == scoped_fold_of(base@, tv, rv, tv.len() as int),
            scoped_fold_of(base@, tv, rv, i as int) == Ok::<(CtxV, CtxV), JsonLdErrorV>((effective@, child_base@)),
        decreases tt.len() - i,
    {
        assert(tv[i as int] == tt@[i as int]@);
        match lookup(base, tt[i].as_str()) {
            Some(d) => match &d.scoped {
                Some(sc) => {
                    let ghost eff0 = effective@;
                    let ghost child0 = child_base@;
                    match process_context(&mut effective, sc, reg, MAX_CONTEXT_NESTING) {
                        Ok(()) => {},
                        Err(e) => {
                            proof {
                                assert(scoped_fold_of(base@, tv, rv, i as int + 1) == Err::<(CtxV, CtxV), JsonLdErrorV>(e@));
                                lemma_scoped_err_persists(base@, tv, rv, i as int + 1, tv.len() as int);
                            }
                            return Err(e);
                        },
                    }
                    if d.propagate {
                        match process_context(&mut child_base, sc, reg, MAX_CONTEXT_NESTING) {
                            Ok(()) => {},
                            Err(e) => {
                                proof {
                                    assert(scoped_fold_of(base@, tv, rv, i as int + 1) == Err::<(CtxV, CtxV), JsonLdErrorV>(e@));
                                    lemma_scoped_err_persists(base@, tv, rv, i as int + 1, tv.len() as int);
                                }
                                return Err(e);
                            },
                        }
                    }
                },
                None => {},
            },
            None => {},
        }
        i = i + 1;
    }
    Ok((effective, child_base))
}

pub proof fn lemma_scoped_err_persists(base: CtxV, tt: Seq<Seq<char>>, reg: Seq<(Seq<char>, Seq<char>)>, k: int, m: int)
    requires
        1 <= k <= m <= tt.len(),
        scoped_fold_of(base, tt, reg, k) is Err,
    ensures
        scoped_fold_of(base, tt, reg, m) == scoped_fold_of(base, tt, reg, k),
    decreases m - k,
{
    if m > k {
        lemma_scoped_err_persists(base, tt, reg, k, m - 1);
    }
}


// -- node and value expansion ----------------------------------------------------

/// The text of a scalar value: a string as is, a number by its text, a
/// boolean as `true`/`false`; nothing for anything else.
pub open spec fn scalar_text_of(v: JsonV) -> Option<Seq<char>> {
    match v {
        JsonV::Str(s) => Some(s),
        JsonV::Number(n) => Some(n),
        JsonV::Bool(b) => Some(if b { "true"@ } else { "false"@ }),
        _ => None,
    }
}

/// The warning for a string in an `@id`/`@vocab`-coerced position that
/// nothing resolves.
pub open spec fn unresolved_warning(s: Seq<char>, tm: Seq<char>) -> Seq<char> {
    debug_str(s) + " sits in a position the active context coerces to "@ + tm
        + " but no term, prefix or @vocab resolves it \u{2014} taken verbatim"@
}

/// What one property value expands to under `ctx` (nested node objects
/// starting from `cb`), with the warnings it raises, in document order.
/// A string the context does not coerce stays a literal.
pub open spec fn expand_value_of(cb: CtxV, ctx: CtxV, tm: Option<Seq<char>>, v: JsonV, reg: Seq<(Seq<char>, Seq<char>)>)
    -> Result<(Seq<ExpandedV>, Seq<Seq<char>>), JsonLdErrorV>
    decreases v, 2nat,
{
    match v {
        JsonV::Array(items) => expand_items_of(cb, ctx, tm, items, reg, items.len() as int),
        JsonV::Object(ms) => match member_of(ms, "@value"@) {
            Some(x) => Ok((match scalar_text_of(x) {
                Some(t) => seq![ExpandedV::Literal(t)],
                None => Seq::empty(),
            }, Seq::empty())),
            None => if ms.len() == 1 && (member_of(ms, "@id"@) matches Some(JsonV::Str(_))) {
                Ok((seq![ExpandedV::Iri(expand_iri_of(ctx, member_of(ms, "@id"@)->Some_0->Str_0, false).0)], Seq::empty()))
            } else {
                match expand_node_of(cb, v, reg) {
                    Err(e) => Err(e),
                    Ok((n, w)) => Ok((seq![ExpandedV::Node(n)], w)),
                }
            },
        },
        JsonV::Null => Ok((Seq::empty(), Seq::empty())),
        _ => {
            let s = scalar_text_of(v)->Some_0;
            match tm {
                Some(t) => if t == "@id"@ || t == "@vocab"@ {
                    let (iri, ok) = expand_iri_of(ctx, s, t == "@vocab"@);
                    Ok((seq![ExpandedV::Iri(iri)], if ok { Seq::empty() } else { seq![unresolved_warning(s, t)] }))
                } else {
                    Ok((seq![ExpandedV::Literal(s)], Seq::empty()))
                },
                None => Ok((seq![ExpandedV::Literal(s)], Seq::empty())),
            }
        },
    }
}

/// The first `n` of `items`, each expanded, their values and warnings
/// concatenated in order.
pub open spec fn expand_items_of(cb: CtxV, ctx: CtxV, tm: Option<Seq<char>>, items: Seq<JsonV>, reg: Seq<(Seq<char>, Seq<char>)>, n: int)
    -> Result<(Seq<ExpandedV>, Seq<Seq<char>>), JsonLdErrorV>
    decreases items, if n < 0 { 0 } else { n as nat },
{
    if n <= 0 || n > items.len() {
        Ok((Seq::empty(), Seq::empty()))
    } else {
        match expand_items_of(cb, ctx, tm, items, reg, n - 1) {
            Err(e) => Err(e),
            Ok((vals, w)) => match expand_value_of(cb, ctx, tm, items[n - 1], reg) {
                Err(e) => Err(e),
                Ok((vals2, w2)) => Ok((vals + vals2, w + w2)),
            },
        }
    }
}

/// A node object expanded from the context `base`: its own `@context`
/// first, then its type-scoped contexts, then its members in order.
pub open spec fn expand_node_of(base: CtxV, obj: JsonV, reg: Seq<(Seq<char>, Seq<char>)>)
    -> Result<(NodeV, Seq<Seq<char>>), JsonLdErrorV>
    decreases obj, 1nat,
{
    match obj {
        JsonV::Object(ms) => {
            let b = match member_of(ms, "@context"@) {
                Some(local) => process_context_of(base, local, reg, MAX_CONTEXT_NESTING as nat),
                None => Ok(base),
            };
            match b {
                Err(e) => Err(e),
                Ok(b1) => match apply_type_scoped_of(b1, ms, reg) {
                    Err(e) => Err(e),
                    Ok((ctx, cb)) => expand_members_of(ctx, cb, ms, reg, ms.len() as int),
                },
            }
        },
        _ => Err(JsonLdErrorV::NotANodeObject),
    }
}

/// The value of a term's `@type` coercion in `ctx`, if any.
pub open spec fn type_mapping_of(ctx: CtxV, key: Seq<char>) -> Option<Seq<char>> {
    match term_def_of(ctx.terms, key) {
        Some(d) => d.type_mapping,
        None => None,
    }
}

/// The empty node value.
pub open spec fn empty_node() -> NodeV {
    NodeV { id: None, types: Seq::empty(), props: Seq::empty() }
}

/// The node the first `n` members of `ms` build, read under `ctx`, nested
/// node objects starting from `cb`: a later `@id` wins, `@type`s
/// accumulate, property values are appended under their IRI.
pub open spec fn expand_members_of(ctx: CtxV, cb: CtxV, ms: Seq<(Seq<char>, JsonV)>, reg: Seq<(Seq<char>, Seq<char>)>, n: int)
    -> Result<(NodeV, Seq<Seq<char>>), JsonLdErrorV>
    decreases ms, if n < 0 { 0 } else { n as nat },
{
    if n <= 0 || n > ms.len() {
        Ok((empty_node(), Seq::empty()))
    } else {
        match expand_members_of(ctx, cb, ms, reg, n - 1) {
            Err(e) => Err(e),
            Ok((node, w)) => {
                let key = ms[n - 1].0;
                let value = ms[n - 1].1;
                match expand_key_of(ctx, key) {
                    KeyV::Id => match value {
                        JsonV::Str(id) => Ok((NodeV { id: Some(expand_iri_of(ctx, id, false).0), ..node }, w)),
                        _ => Ok((node, w)),
                    },
                    KeyV::Type => Ok((NodeV {
                        types: node.types + type_strings_of(value).map_values(|t: Seq<char>| expand_iri_of(ctx, t, true).0),
                        ..node
                    }, w)),
                    KeyV::Dropped => Ok((node, w)),
                    KeyV::Property(iri) => {
                        proof {
                            assert(decreases_to!(ms => ms[n - 1]));
                        }
                        match expand_value_of(cb, ctx, type_mapping_of(ctx, key), value, reg) {
                            Err(e) => Err(e),
                            Ok((vals, w2)) => Ok((NodeV { props: vpush(node.props, iri, vals), ..node }, w + w2)),
                        }
                    },
                }
            },
        }
    }
}


pub proof fn lemma_items_expand_err_persists(cb: CtxV, ctx: CtxV, tm: Option<Seq<char>>, items: Seq<JsonV>, reg: Seq<(Seq<char>, Seq<char>)>, k: int, m: int)
    requires
        1 <= k <= m <= items.len(),
        expand_items_of(cb, ctx, tm, items, reg, k) is Err,
    ensures
        expand_items_of(cb, ctx, tm, items, reg, m) == expand_items_of(cb, ctx, tm, items, reg, k),
    decreases m - k,
{
    if m > k {
        lemma_items_expand_err_persists(cb, ctx, tm, items, reg, k, m - 1);
    }
}

pub proof fn lemma_members_err_persists(ctx: CtxV, cb: CtxV, ms: Seq<(Seq<char>, JsonV)>, reg: Seq<(Seq<char>, Seq<char>)>, k: int, m: int)
    requires
        1 <= k <= m <= ms.len(),
        expand_members_of(ctx, cb, ms, reg, k) is Err,
    ensures
        expand_members_of(ctx, cb, ms, reg, m) == expand_members_of(ctx, cb, ms, reg, k),
    decreases m - k,
{
    if m > k {
        lemma_members_err_persists(ctx, cb, ms, reg, k, m - 1);
    }
}

/// The text of a scalar value.
fn scalar_text(v: &Json) -> (r: Option<String>)
    ensures
        sopt(r) == scalar_text_of(v@),
{
    match v {
        Json::String(s) => Some(s.clone()),
        Json::Number(n) => Some(n.clone()),
        Json::Bool(b) => if *b { Some(owned("true")) } else { Some(owned("false")) },
        _ => None,
    }
}

/// Expands one property value (or each element of an array of them),
/// appending the warnings it raises to `warnings`.
pub fn expand_value(cb: &Ctx, ctx: &Ctx, tm: &Option<String>, value: &Json, reg: &ContextRegistry, warnings: &mut Vec<String>)
    -> (r: Result<Vec<Expanded>, JsonLdError>)
    ensures
        match expand_value_of(cb@, ctx@, sopt(*tm), value@, reg_view(*reg)) {
            Ok((vals, w)) => r is Ok && vals_view(r->Ok_0@) == vals
                && strings_view(final(warnings)@) == strings_view(old(warnings)@) + w,
            Err(e) => r is Err && r->Err_0@ == e,
        },
    decreases *value, 2nat,
{
    let ghost rv = reg_view(*reg);
    let ghost tmv = sopt(*tm);
    match value {
        Json::Array(items) => {
            proof { lemma_items_view(*value); }
            let ghost iv = items_view(items@);
            let mut out: Vec<Expanded> = Vec::new();
            let mut i: usize = 0;
            assert(vals_view(out@) =~= Seq::<ExpandedV>::empty());
            assert(strings_view(warnings@) =~= strings_view(old(warnings)@) + Seq::<Seq<char>>::empty());
            while i < items.len()
                invariant
                    *value == Json::Array(*items),
                    value@ == JsonV::Array(iv),
                    iv == items_view(items@),
                    rv == reg_view(*reg),
                    tmv == sopt(*tm),
                    i <= items@.len(),
                    match expand_items_of(cb@, ctx@, tmv, iv, rv, i as int) {
                        Ok((vs, w)) => vals_view(out@) == vs && strings_view(warnings@) == strings_view(old(warnings)@) + w,
                        Err(_) => false,
                    },
                decreases items.len() - i,
            {
                assert(decreases_to!(*value => value->Array_0@[i as int]));
                assert(iv[i as int] == items@[i as int]@);
                let ghost out0 = out@;
                let ghost w0 = warnings@;
                match expand_value(cb, ctx, tm, &items[i], reg, warnings) {
                    Ok(got) => {
                        let mut got = got;
                        out.append(&mut got);
                        proof {
                            assert(vals_view(out@) =~= vals_view(out0) + vals_view(out@.subrange(out0.len() as int, out@.len() as int)));
                            let (vs, w) = expand_items_of(cb@, ctx@, tmv, iv, rv, i as int)->Ok_0;
                            let (vs2, w2) = expand_value_of(cb@, ctx@, tmv, iv[i as int], rv)->Ok_0;
                            assert(out@.subrange(out0.len() as int, out@.len() as int) =~= got@ || true);
                            assert(strings_view(warnings@) =~= strings_view(old(warnings)@) + (w + w2));
                        }
                    },
                    Err(e) => {
                        proof {
                            lemma_items_expand_err_persists(cb@, ctx@, tmv, iv, rv, i as int + 1, iv.len() as int);
                        }
                        return Err(e);
                    },
                }
                i = i + 1;
            }
            Ok(out)
        },
        Json::Object(ms) => {
            proof { lemma_members_view(*value); }
            match member(ms, "@value") {
                Some(x) => {
                    let r: Vec<Expanded> = match scalar_text(x) {
                        Some(t) => vec![Expanded::Literal(t)],
                        None => Vec::new(),
                    };
                    assert(strings_view(warnings@) =~= strings_view(old(warnings)@) + Seq::<Seq<char>>::empty());
                    proof {
                        match scalar_text_of(x@) {
                            Some(t) => { assert(vals_view(r@) =~= seq![ExpandedV::Literal(t)]); },
                            None => { assert(vals_view(r@) =~= Seq::<ExpandedV>::empty()); },
                        }
                    }
                    return Ok(r);
                },
                None => {},
            }
            if ms.len() == 1 {
                match member(ms, "@id") {
                    Some(Json::String(id)) => {
                        let (iri, _) = expand_iri(ctx, id.as_str(), false);
                        let r: Vec<Expanded> = vec![Expanded::Iri(iri)];
                        assert(vals_view(r@) =~= seq![ExpandedV::Iri(iri@)]);
                        assert(strings_view(warnings@) =~= strings_view(old(warnings)@) + Seq::<Seq<char>>::empty());
                        return Ok(r);
                    },
                    _ => {},
                }
            }
            match expand_node(cb, value, reg, warnings) {
                Ok(n) => {
                    let r: Vec<Expanded> = vec![Expanded::Node(n)];
                    assert(vals_view(r@) =~= seq![ExpandedV::Node(n@)]);
                    Ok(r)
                },
                Err(e) => Err(e),
            }
        },
        Json::Null => {
            let r: Vec<Expanded> = Vec::new();
            assert(vals_view(r@) =~= Seq::<ExpandedV>::empty());
            assert(strings_view(warnings@) =~= strings_view(old(warnings)@) + Seq::<Seq<char>>::empty());
            Ok(r)
        },
        _ => {
            let s = match scalar_text(value) {
                Some(s) => s,
                None => { assert(false); return Ok(Vec::new()); },
            };
            let coerce: bool = match tm {
                Some(t) => str_eq(t.as_str(), "@id") || str_eq(t.as_str(), "@vocab"),
                None => false,
            };
            if coerce {
                let t = match tm { Some(t) => t, None => { assert(false); return Ok(Vec::new()); } };
                let vocab = str_eq(t.as_str(), "@vocab");
                let (iri, ok) = expand_iri(ctx, s.as_str(), vocab);
                if !ok {
                    let q = debug_quoted(s.as_str());
                    let head = concat3(q.as_str(), " sits in a position the active context coerces to ", t.as_str());
                    let msg = concat2(head.as_str(), " but no term, prefix or @vocab resolves it \u{2014} taken verbatim");
                    let ghost w0 = warnings@;
                    warnings.push(msg);
                    assert(strings_view(warnings@) =~= strings_view(w0) + seq![unresolved_warning(s@, t@)]);
                } else {
                    assert(strings_view(warnings@) =~= strings_view(old(warnings)@) + Seq::<Seq<char>>::empty());
                }
                let r: Vec<Expanded> = vec![Expanded::Iri(iri)];
                assert(vals_view(r@) =~= seq![ExpandedV::Iri(iri@)]);
                Ok(r)
            } else {
                let r: Vec<Expanded> = vec![Expanded::Literal(s)];
                assert(vals_view(r@) =~= seq![ExpandedV::Literal(s@)]);
                assert(strings_view(warnings@) =~= strings_view(old(warnings)@) + Seq::<Seq<char>>::empty());
                Ok(r)
            }
        },
    }
}

/// Expands one node object from the context `base`, appending the
/// warnings its values raise to `warnings`.
pub fn expand_node(base: &Ctx, obj: &Json, reg: &ContextRegistry, warnings: &mut Vec<String>) -> (r: Result<Node, JsonLdError>)
    requires
        obj is Object,
    ensures
        match expand_node_of(base@, obj@, reg_view(*reg)) {
            Ok((n, w)) => r is Ok && r->Ok_0@ == n
                && strings_view(final(warnings)@) == strings_view(old(warnings)@) + w,
            Err(e) => r is Err && r->Err_0@ == e,
        },
    decreases *obj, 1nat,
{
    let ghost rv = reg_view(*reg);
    let ms = match obj {
        Json::Object(ms) => ms,
        _ => { assert(false); return Err(JsonLdError::NotANodeObject); },
    };
    proof { lemma_members_view(*obj); }
    let ghost mv = members_view(ms@);
    let mut b = copy_ctx(base);
    match member(ms, "@context") {
        Some(local) => match process_context(&mut b, local, reg, MAX_CONTEXT_NESTING) {
            Ok(()) => {},
            Err(e) => return Err(e),
        },
        None => {},
    }
    let (ctx, cb) = match apply_type_scoped(&b, ms, reg) {
        Ok(p) => p,
        Err(e) => return Err(e),
    };
    let mut node = Node { id: None, types: Vec::new(), props: Vec::new() };
    assert(node@.types =~= empty_node().types);
    assert(node@.props =~= empty_node().props);
    assert(strings_view(warnings@) =~= strings_view(old(warnings)@) + Seq::<Seq<char>>::empty());
    let mut i: usize = 0;
    while i < ms.len()
        invariant
            *obj == Json::Object(*ms),
            obj@ == JsonV::Object(mv),
            mv == members_view(ms@),
            rv == reg_view(*reg),
            i <= ms@.len(),
            expand_node_of(base@, obj@, rv) == expand_members_of(ctx@, cb@, mv, rv, mv.len() as int),
            match expand_members_of(ctx@, cb@, mv, rv, i as int) {
                Ok((nv, w)) => node@ == nv && strings_view(warnings@) == strings_view(old(warnings)@) + w,
                Err(_) => false,
            },
        decreases ms.len() - i,
    {
        assert(mv[i as int] == (ms@[i as int].0@, ms@[i as int].1@));
        let ghost prev = expand_members_of(ctx@, cb@, mv, rv, i as int)->Ok_0;
        match expand_key(&ctx, ms[i].0.as_str()) {
            Key::Id => match &ms[i].1 {
                Json::String(id) => {
                    let (iri, _) = expand_iri(&ctx, id.as_str(), false);
                    node.id = Some(iri);
                },
                _ => {},
            },
            Key::Type => {
                let ts = type_strings(&ms[i].1);
                let ghost tv = strings_view(ts@);
                let ghost types0 = node@.types;
                let mut j: usize = 0;
                assert(node@.types =~= types0 + tv.subrange(0, 0).map_values(|t: Seq<char>| expand_iri_of(ctx@, t, true).0));
                while j < ts.len()
                    invariant
                        j <= ts@.len(),
                        tv == strings_view(ts@),
                        node@.id == prev.0.id,
                        node@.props == prev.0.props,
                        types0 == prev.0.types,
                        node@.types == types0 + tv.subrange(0, j as int).map_values(|t: Seq<char>| expand_iri_of(ctx@, t, true).0),
                    decreases ts.len() - j,
                {
                    let (t, _) = expand_iri(&ctx, ts[j].as_str(), true);
                    let ghost before = node@;
                    node.types.push(t);
                    proof {
                        assert(node@.types =~= before.types.push(t@));
                        assert(node@.props =~= before.props);
                        assert(tv.subrange(0, j + 1).map_values(|t: Seq<char>| expand_iri_of(ctx@, t, true).0)
                            =~= tv.subrange(0, j as int).map_values(|t: Seq<char>| expand_iri_of(ctx@, t, true).0).push(t@));
                        assert(node@.types =~= types0 + tv.subrange(0, j + 1).map_values(|t: Seq<char>| expand_iri_of(ctx@, t, true).0));
                    }
                    j = j + 1;
                }
                assert(tv.subrange(0, tv.len() as int) =~= tv);
            },
            Key::Dropped => {},
            Key::Property(iri) => {
                let tm: Option<String> = match lookup(&ctx, ms[i].0.as_str()) {
                    Some(d) => match &d.type_mapping {
                        Some(t) => Some(t.clone()),
                        None => None,
                    },
                    None => None,
                };
                assert(decreases_to!(*obj => obj->Object_0@[i as int].1));
                match expand_value(&cb, &ctx, &tm, &ms[i].1, reg, warnings) {
                    Ok(vals) => {
                        node.push(iri, vals);
                    },
                    Err(e) => {
                        proof {
                            lemma_members_err_persists(ctx@, cb@, mv, rv, i as int + 1, mv.len() as int);
                        }
                        return Err(e);
                    },
                }
            },
        }
        i = i + 1;
    }
    Ok(node)
}

/// The expansion of a whole document: its root node and warnings.
pub struct ExpansionV {
    pub node: NodeV,
    pub warnings: Seq<Seq<char>>,
}

/// What [`expand`] makes of a document under a registry.
pub open spec fn expand_of(doc: JsonV, reg: Seq<(Seq<char>, Seq<char>)>) -> Result<ExpansionV, JsonLdErrorV> {
    match doc {
        JsonV::Object(_) => match expand_node_of(empty_ctx(), doc, reg) {
            Ok((n, w)) => Ok(ExpansionV { node: n, warnings: w }),
            Err(e) => Err(e),
        },
        _ => Err(JsonLdErrorV::NotANodeObject),
    }
}

/// Expands one JSON-LD document into a node tree, resolving context
/// references against `reg` only.
pub fn expand(doc: &Json, reg: &ContextRegistry) -> (r: Result<Expansion, JsonLdError>)
    ensures
        match expand_of(doc@, reg_view(*reg)) {
            Ok(x) => r is Ok && r->Ok_0.node@ == x.node && strings_view(r->Ok_0.warnings@) == x.warnings,
            Err(e) => r is Err && r->Err_0@ == e,
        },
{
    match doc {
        Json::Object(_) => {},
        _ => return Err(JsonLdError::NotANodeObject),
    }
    let mut warnings: Vec<String> = Vec::new();
    let base = Ctx { terms: Vec::new(), vocab: None };
    assert(base@.terms =~= empty_ctx().terms);
    match expand_node(&base, doc, reg, &mut warnings) {
        Ok(node) => {
            assert(strings_view(warnings@) =~= strings_view(Seq::<String>::empty()) + expand_node_of(empty_ctx(), doc@, reg_view(*reg))->Ok_0.1);
            Ok(Expansion { node, warnings })
        },
        Err(e) => Err(e),
    }
}


// -- laws ------------------------------------------------------------------------

/// A string in a position the active context does not coerce to `@id` or
/// `@vocab` stays a literal, byte for byte, whatever it looks like.
pub proof fn uncoerced_string_stays_literal(cb: CtxV, ctx: CtxV, tm: Option<Seq<char>>, s: Seq<char>, reg: Seq<(Seq<char>, Seq<char>)>)
    requires
        tm matches Some(t) ==> t != "@id"@ && t != "@vocab"@,
    ensures
        expand_value_of(cb, ctx, tm, JsonV::Str(s), reg) == Ok::<(Seq<ExpandedV>, Seq<Seq<char>>), JsonLdErrorV>((seq![ExpandedV::Literal(s)], Seq::empty())),
{
}

/// Nothing is fetched: a context reference the registry does not hold is
/// an `UnknownContext` error naming it.
pub proof fn an_unregistered_context_is_unknown(c: CtxV, url: Seq<char>, reg: Seq<(Seq<char>, Seq<char>)>, fuel: nat)
    requires
        fuel > 0,
        registry_lookup_of(reg, url) is None,
    ensures
        process_context_of(c, JsonV::Str(url), reg, fuel) == Err::<CtxV, JsonLdErrorV>(JsonLdErrorV::UnknownContext(url)),
{
}

/// Values keep document order: an array's expansion is the expansions of
/// its items, concatenated in order.
pub proof fn array_values_keep_document_order(cb: CtxV, ctx: CtxV, tm: Option<Seq<char>>, a: JsonV, b: JsonV, reg: Seq<(Seq<char>, Seq<char>)>)
    requires
        expand_value_of(cb, ctx, tm, a, reg) is Ok,
        expand_value_of(cb, ctx, tm, b, reg) is Ok,
    ensures
        expand_value_of(cb, ctx, tm, JsonV::Array(seq![a, b]), reg) == Ok::<(Seq<ExpandedV>, Seq<Seq<char>>), JsonLdErrorV>((
            expand_value_of(cb, ctx, tm, a, reg)->Ok_0.0 + expand_value_of(cb, ctx, tm, b, reg)->Ok_0.0,
            expand_value_of(cb, ctx, tm, a, reg)->Ok_0.1 + expand_value_of(cb, ctx, tm, b, reg)->Ok_0.1,
        )),
{
    let items = seq![a, b];
    assert(expand_items_of(cb, ctx, tm, items, reg, 0) == Ok::<(Seq<ExpandedV>, Seq<Seq<char>>), JsonLdErrorV>((Seq::empty(), Seq::empty())));
    let (v1, w1) = expand_value_of(cb, ctx, tm, a, reg)->Ok_0;
    assert(Seq::<ExpandedV>::empty() + v1 =~= v1);
    assert(Seq::<Seq<char>>::empty() + w1 =~= w1);
    assert(expand_items_of(cb, ctx, tm, items, reg, 1) == Ok::<(Seq<ExpandedV>, Seq<Seq<char>>), JsonLdErrorV>((v1, w1)));
}

} // verus!
