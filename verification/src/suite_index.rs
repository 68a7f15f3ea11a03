//! The test suite's case index: one subject per case, with its title and
//! the raw-source URLs of its policy, request and expected report,
//! rewritten to paths under a local checkout and ordered by each case's
//! sequence number.
//!
//! Paths are `/`-separated strings. A file name is what follows the last
//! `/` (none when that is empty or `..`); its stem is what precedes its
//! last `.`, unless that dot is its first character.

use vstd::prelude::*;
use vstd::string::*;
use crate::text::{chars_of, string_of, concat2, concat3, owned, debug_quoted, debug_str, str_eq};
use crate::rdf::{Graph, Term, Triple, subject_id, subject_id_of, objects_of, first_of, object_id_of, views, literal_of, contains_string};

verus! {

/// One test case: its subject id, title, and local fixture paths.
#[derive(Debug, PartialEq, Eq)]
pub struct TestCaseEntry {
    pub id: String,
    pub title: String,
    pub policy_path: String,
    pub request_path: String,
    pub expected_report_path: String,
}

/// The index of the first occurrence of `pat` in `s`, or `-1`.
pub open spec fn find_at(s: Seq<char>, pat: Seq<char>, from: int) -> int
    decreases s.len() - from,
{
    if from < 0 || from + pat.len() > s.len() {
        -1
    } else if s.subrange(from, from + pat.len()) == pat {
        from
    } else if from >= s.len() {
        -1
    } else {
        find_at(s, pat, from + 1)
    }
}

pub proof fn lemma_find_at(s: Seq<char>, pat: Seq<char>, from: int)
    ensures
        find_at(s, pat, from) >= 0 ==> find_at(s, pat, from) + pat.len() <= s.len() && find_at(s, pat, from) >= from,
    decreases s.len() - from,
{
    if from >= 0 && from + pat.len() <= s.len() && s.subrange(from, from + pat.len()) != pat && from < s.len() {
        lemma_find_at(s, pat, from + 1);
    }
}

/// `rel` (relative) joined under `root`.
pub open spec fn join_path(root: Seq<char>, rel: Seq<char>) -> Seq<char> {
    if root.len() == 0 {
        rel
    } else if root.last() == '/' {
        root + rel
    } else {
        root + "/"@ + rel
    }
}

/// Where a raw-source URL's file lives under the local checkout `root`:
/// everything from its first `/data/` on (without the leading `/`), or
/// the error naming the URL.
pub open spec fn local_path_of(root: Seq<char>, url: Seq<char>) -> Result<Seq<char>, Seq<char>> {
    let k = find_at(url, "/data/"@, 0);
    if k < 0 {
        Err("source URL does not contain "@ + debug_str("/data/"@) + ": "@ + url)
    } else {
        Ok(join_path(root, url.subrange(k + 1, url.len() as int)))
    }
}

fn find_data_marker(url: &str) -> (r: Option<usize>)
    ensures
        match r {
            Some(k) => k as int == find_at(url@, "/data/"@, 0) && k >= 0,
            None => find_at(url@, "/data/"@, 0) < 0,
        },
{
    let cs = chars_of(url);
    let pat = chars_of("/data/");
    let mut i: usize = 0;
    while i <= cs.len() && cs.len() - i >= pat.len()
        invariant
            cs@ == url@,
            pat@ == "/data/"@,
            i <= cs@.len() + 1,
            find_at(url@, "/data/"@, 0) == find_at(url@, "/data/"@, i as int),
        decreases cs.len() + 1 - i,
    {
        let mut j: usize = 0;
        let mut same = true;
        while j < pat.len()
            invariant
                j <= pat@.len(),
                i + pat@.len() <= cs@.len(),
                cs.len() - i >= pat.len(),
                same == forall|x: int| 0 <= x < j ==> cs@[i + x] == pat@[x],
            decreases pat.len() - j,
        {
            if cs[i + j] != pat[j] {
                same = false;
            }
            j = j + 1;
        }
        proof {
            if same {
                assert(url@.subrange(i as int, i + pat@.len()) =~= pat@);
            } else {
                let x = choose|x: int| 0 <= x < pat@.len() && cs@[i + x] != pat@[x];
                assert(url@.subrange(i as int, i + pat@.len())[x] != pat@[x]);
            }
        }
        if same {
            return Some(i);
        }
        proof {
            reveal_strlit("/data/");
        }
        i = i + 1;
    }
    proof {
        reveal_strlit("/data/");
    }
    None
}

/// Rewrites a raw-source URL to the file under the local checkout `root`.
pub fn rewrite_to_local_path(vendor_root: &str, url: &str) -> (r: Result<String, String>)
    ensures
        match local_path_of(vendor_root@, url@) {
            Ok(p) => r is Ok && r->Ok_0@ == p,
            Err(e) => r is Err && r->Err_0@ == e,
        },
{
    match find_data_marker(url) {
        None => {
            let quoted = debug_quoted("/data/");
            let head = concat3("source URL does not contain ", quoted.as_str(), ": ");
            Err(concat2(head.as_str(), url))
        },
        Some(k) => {
            proof { lemma_find_at(url@, "/data/"@, 0); reveal_strlit("/data/"); }
            let n = url.unicode_len();
            let rest = url.substring_char(k + 1, n);
            let rl = vendor_root.unicode_len();
            if rl == 0 {
                Ok(owned(rest))
            } else if vendor_root.get_char(rl - 1) == '/' {
                Ok(concat2(vendor_root, rest))
            } else {
                Ok(concat3(vendor_root, "/", rest))
            }
        },
    }
}

/// The index of the last `c` in `s`, or `-1`.
pub open spec fn last_index(s: Seq<char>, c: char) -> int
    decreases s.len(),
{
    if s.len() == 0 {
        -1
    } else if s.last() == c {
        s.len() - 1
    } else {
        last_index(s.drop_last(), c)
    }
}

/// A path's last component: what follows its last `/`, skipping trailing
/// separators and `.` components.
pub open spec fn last_component(p: Seq<char>) -> Seq<char>
    decreases p.len(),
{
    let k = last_index(p, '/');
    let name = p.subrange(k + 1, p.len() as int);
    if (name.len() == 0 || name == "."@) && 0 <= k < p.len() {
        last_component(p.subrange(0, k))
    } else {
        name
    }
}

/// A path's file name: its last component, unless that is empty, `.` or
/// `..`.
pub open spec fn file_name_of(p: Seq<char>) -> Option<Seq<char>> {
    let name = last_component(p);
    if name.len() == 0 || name == "."@ || name == ".."@ { None } else { Some(name) }
}

/// A file name's stem: before its last `.`, unless that dot leads.
pub open spec fn stem_of_name(name: Seq<char>) -> Seq<char> {
    let d = last_index(name, '.');
    if d <= 0 { name } else { name.subrange(0, d) }
}

/// A path's file stem.
pub open spec fn file_stem_of(p: Seq<char>) -> Option<Seq<char>> {
    match file_name_of(p) {
        Some(n) => Some(stem_of_name(n)),
        None => None,
    }
}

pub proof fn lemma_last_index(s: Seq<char>, c: char)
    ensures
        -1 <= last_index(s, c) < s.len(),
        last_index(s, c) >= 0 ==> s[last_index(s, c)] == c,
        forall|j: int| last_index(s, c) < j < s.len() ==> s[j] != c,
    decreases s.len(),
{
    if s.len() > 0 && s.last() != c {
        lemma_last_index(s.drop_last(), c);
        assert forall|j: int| last_index(s, c) < j < s.len() implies s[j] != c by {
            if j < s.len() - 1 {
                assert(s[j] == s.drop_last()[j]);
            }
        }
    }
}

fn last_index_exec(s: &Vec<char>, c: char) -> (r: Option<usize>)
    ensures
        match r {
            Some(k) => k as int == last_index(s@, c),
            None => last_index(s@, c) < 0,
        },
{
    let mut i: usize = s.len();
    assert(s@.subrange(0, i as int) =~= s@);
    while i > 0
        invariant
            i <= s@.len(),
            last_index(s@, c) == last_index(s@.subrange(0, i as int), c),
        decreases i,
    {
        assert(s@.subrange(0, i as int).drop_last() =~= s@.subrange(0, i - 1));
        if s[i - 1] == c {
            return Some(i - 1);
        }
        i = i - 1;
    }
    None
}

/// A path's file stem.
pub fn file_stem(path: &str) -> (r: Option<String>)
    ensures
        match r {
            Some(s) => file_stem_of(path@) == Some(s@),
            None => file_stem_of(path@) is None,
        },
{
    let mut cs = chars_of(path);
    let ghost whole = cs@;
    proof { assert(cs@ == path@); }
    let mut name: Vec<char> = Vec::new();
    loop
        invariant
            whole == path@,
            last_component(cs@) == last_component(whole),
        ensures
            name@ == last_component(whole),
        decreases cs.len(),
    {
        proof { lemma_last_index(cs@, '/'); }
        let start = match last_index_exec(&cs, '/') {
            Some(k) => { assert((k as int) < cs@.len()); k + 1 },
            None => 0,
        };
        let mut part: Vec<char> = Vec::new();
        let mut i: usize = start;
        while i < cs.len()
            invariant
                start <= i <= cs@.len(),
                part@ == cs@.subrange(start as int, i as int),
            decreases cs.len() - i,
        {
            part.push(cs[i]);
            assert(part@ =~= cs@.subrange(start as int, i + 1));
            i = i + 1;
        }
        proof { reveal_strlit("."); }
        let is_dot = part.len() == 1 && part[0] == '.';
        proof {
            if part@.len() == 1 && part@[0] == '.' { assert(part@ =~= "."@); }
            if part@ == "."@ { assert(part@[0] == '.'); }
        }
        if (part.len() == 0 || is_dot) && start > 0 {
            let ghost before = cs@;
            cs.truncate(start - 1);
            assert(cs@ =~= before.subrange(0, start - 1));
        } else {
            name = part;
            break;
        }
    }
    if name.len() == 0 || (name.len() == 1 && name[0] == '.') || (name.len() == 2 && name[0] == '.' && name[1] == '.') {
        proof {
            reveal_strlit(".");
            reveal_strlit("..");
            if name.len() == 1 { assert(name@ =~= "."@); }
            if name.len() == 2 { assert(name@ =~= ".."@); }
        }
        return None;
    }
    proof {
        reveal_strlit(".");
        reveal_strlit("..");
        if name@ == ".."@ {
            assert(name@[0] == '.' && name@[1] == '.');
        }
        if name@ == "."@ {
            assert(name@[0] == '.');
        }
    }
    proof { lemma_last_index(name@, '.'); }
    match last_index_exec(&name, '.') {
        Some(d) => {
            if d > 0 {
                let mut stem: Vec<char> = Vec::new();
                let mut k: usize = 0;
                while k < d
                    invariant
                        k <= d,
                        d < name@.len(),
                        stem@ == name@.subrange(0, k as int),
                    decreases d - k,
                {
                    stem.push(name[k]);
                    assert(stem@ =~= name@.subrange(0, k + 1));
                    k = k + 1;
                }
                Some(string_of(stem.as_slice()))
            } else {
                Some(string_of(name.as_slice()))
            }
        },
        None => Some(string_of(name.as_slice())),
    }
}


/// The index of the first `c` in `s`, or `-1`.
pub open spec fn first_index(s: Seq<char>, c: char) -> int
    decreases s.len(),
{
    if s.len() == 0 {
        -1
    } else if s[0] == c {
        0
    } else if first_index(s.drop_first(), c) < 0 {
        -1
    } else {
        first_index(s.drop_first(), c) + 1
    }
}

/// The second `-`-separated field of `s`, if it has one.
pub open spec fn second_field(s: Seq<char>) -> Option<Seq<char>> {
    let a = first_index(s, '-');
    if a < 0 {
        None
    } else {
        let rest = s.subrange(a + 1, s.len() as int);
        let b = first_index(rest, '-');
        Some(if b < 0 { rest } else { rest.subrange(0, b) })
    }
}

/// Whether `c` is an ASCII decimal digit.
pub open spec fn is_digit(c: char) -> bool {
    '0' <= c && c <= '9'
}

/// The value of a string of decimal digits.
pub open spec fn digits_value(d: Seq<char>) -> nat
    decreases d.len(),
{
    if d.len() == 0 {
        0
    } else {
        digits_value(d.drop_last()) * 10 + ((d.last() as int) - ('0' as int)) as nat
    }
}

/// What `u32::from_str` accepts: an optional `+`, then one or more decimal
/// digits whose value fits in 32 bits.
pub open spec fn parse_u32_of(s: Seq<char>) -> Option<nat> {
    let d = unsigned_digits(s);
    if d.len() == 0 || !all_digits(d) || digits_value(d) > u32::MAX {
        None
    } else {
        Some(digits_value(d))
    }
}

/// `s` without a leading `+`.
pub open spec fn unsigned_digits(s: Seq<char>) -> Seq<char> {
    if s.len() > 0 && s[0] == '+' { s.drop_first() } else { s }
}

/// Every character is a decimal digit.
pub open spec fn all_digits(d: Seq<char>) -> bool {
    forall|i: int| 0 <= i < d.len() ==> is_digit(#[trigger] d[i])
}

/// The sequence number a case's expected-report path encodes: the second
/// `-`-separated field of its file stem, or 0 when there is none or it is
/// not a number.
pub open spec fn sequence_of(p: Seq<char>) -> nat {
    let stem = match file_stem_of(p) { Some(s) => s, None => Seq::empty() };
    match second_field(stem) {
        Some(f) => match parse_u32_of(f) { Some(n) => n, None => 0 },
        None => 0,
    }
}

/// Parses like `u32::from_str`.
pub fn parse_u32(s: &Vec<char>) -> (r: Option<u32>)
    ensures
        match r {
            Some(n) => parse_u32_of(s@) == Some(n as nat),
            None => parse_u32_of(s@) is None,
        },
{
    let start: usize = if s.len() > 0 && s[0] == '+' { 1 } else { 0 };
    let ghost d = unsigned_digits(s@);
    assert(d =~= s@.subrange(start as int, s@.len() as int));
    if start >= s.len() {
        return None;
    }
    let mut acc: u64 = 0;
    let mut i: usize = start;
    while i < s.len()
        invariant
            start <= i <= s@.len(),
            d == s@.subrange(start as int, s@.len() as int),
            d == unsigned_digits(s@),
            forall|k: int| start <= k < i ==> is_digit(#[trigger] s@[k]),
            acc as nat == digits_value(s@.subrange(start as int, i as int)),
            acc <= u32::MAX,
        decreases s.len() - i,
    {
        let c = s[i];
        if !('0' <= c && c <= '9') {
            proof {
                assert(d[i - start] == c);
                assert(!is_digit(d[i - start]));
            }
            return None;
        }
        let digit: u64 = (c as u64) - ('0' as u64);
        proof {
            assert(s@.subrange(start as int, i + 1).drop_last() =~= s@.subrange(start as int, i as int));
            assert(s@.subrange(start as int, i + 1).last() == c);
        }
        acc = acc * 10 + digit;
        if acc > 4294967295 {
            proof {
                if all_digits(d) {
                    lemma_digits_monotone(d, (i + 1 - start) as int);
                    assert(d.subrange(0, (i + 1 - start) as int) =~= s@.subrange(start as int, i + 1));
                }
            }
            return None;
        }
        i = i + 1;
    }
    assert(s@.subrange(start as int, s@.len() as int) == d);
    Some(acc as u32)
}

/// Digits values only grow as digits are appended.
pub proof fn lemma_digits_monotone(d: Seq<char>, k: int)
    requires
        0 <= k <= d.len(),
        forall|i: int| 0 <= i < d.len() ==> is_digit(#[trigger] d[i]),
    ensures
        digits_value(d) >= digits_value(d.subrange(0, k)),
    decreases d.len() - k,
{
    if k < d.len() {
        lemma_digits_monotone(d, k + 1);
        let p = d.subrange(0, k + 1);
        assert(p.drop_last() =~= d.subrange(0, k));
        assert(is_digit(p.last()));
    } else {
        assert(d.subrange(0, k) =~= d);
    }
}

pub(crate) fn first_index_from(s: &Vec<char>, c: char, from: usize) -> (r: Option<usize>)
    requires
        from <= s@.len(),
    ensures
        match r {
            Some(k) => from <= k < s@.len() && s@[k as int] == c
                && k - from == first_index(s@.subrange(from as int, s@.len() as int), c),
            None => first_index(s@.subrange(from as int, s@.len() as int), c) < 0,
        },
{
    let mut i: usize = from;
    while i < s.len()
        invariant
            from <= i <= s@.len(),
            forall|k: int| from <= k < i ==> s@[k] != c,
        decreases s.len() - i,
    {
        if s[i] == c {
            proof { lemma_first_index_at(s@.subrange(from as int, s@.len() as int), c, i - from); }
            return Some(i);
        }
        i = i + 1;
    }
    proof { lemma_first_index_none(s@.subrange(from as int, s@.len() as int), c); }
    None
}

pub proof fn lemma_first_index_at(s: Seq<char>, c: char, k: int)
    requires
        0 <= k < s.len(),
        s[k] == c,
        forall|j: int| 0 <= j < k ==> s[j] != c,
    ensures
        first_index(s, c) == k,
    decreases k,
{
    if k > 0 {
        lemma_first_index_at(s.drop_first(), c, k - 1);
    }
}

pub proof fn lemma_first_index_none(s: Seq<char>, c: char)
    requires
        forall|j: int| 0 <= j < s.len() ==> s[j] != c,
    ensures
        first_index(s, c) < 0,
    decreases s.len(),
{
    if s.len() > 0 {
        lemma_first_index_none(s.drop_first(), c);
    }
}

/// The sequence number of a case's expected-report path.
pub fn sequence_number(path: &str) -> (r: u32)
    ensures
        r as nat == sequence_of(path@),
{
    let stem = match file_stem(path) {
        Some(s) => s,
        None => String::new(),
    };
    let cs = chars_of(stem.as_str());
    let a = match first_index_from(&cs, '-', 0) {
        Some(a) => a,
        None => {
            assert(cs@.subrange(0, cs@.len() as int) =~= cs@);
            return 0;
        },
    };
    assert(cs@.subrange(0, cs@.len() as int) =~= cs@);
    assert(a < cs.len());
    let end = match first_index_from(&cs, '-', a + 1) {
        Some(b) => b,
        None => cs.len(),
    };
    let mut field: Vec<char> = Vec::new();
    let mut i: usize = a + 1;
    while i < end
        invariant
            a + 1 <= i <= end,
            end <= cs@.len(),
            field@ == cs@.subrange(a + 1, i as int),
        decreases end - i,
    {
        field.push(cs[i]);
        assert(field@ =~= cs@.subrange(a + 1, i + 1));
        i = i + 1;
    }
    proof {
        let rest = cs@.subrange(a + 1, cs@.len() as int);
        let b = first_index(rest, '-');
        if b >= 0 {
            assert(field@ =~= rest.subrange(0, b));
        } else {
            assert(field@ =~= rest);
        }
    }
    match parse_u32(&field) {
        Some(n) => n,
        None => 0,
    }
}

/// A case's slug: the file stem of its expected-report path, or its id.
pub fn case_slug(entry: &TestCaseEntry) -> (r: String)
    ensures
        r@ == match file_stem_of(entry.expected_report_path@) {
            Some(s) => s,
            None => entry.id@,
        },
{
    match file_stem(entry.expected_report_path.as_str()) {
        Some(s) => s,
        None => entry.id.clone(),
    }
}


// -- the index graph ------------------------------------------------------------------

pub const TITLE_PREDICATE: &'static str = "http://purl.org/dc/terms/title";
pub const POLICY_SOURCE: &'static str = "http://example.org/policySource";
pub const REQUEST_SOURCE: &'static str = "http://example.org/requestSource";
pub const EXPECTED_SOURCE: &'static str = "http://example.org/expectedReportSource";

/// The value of a [`TestCaseEntry`].
pub struct EntryV {
    pub id: Seq<char>,
    pub title: Seq<char>,
    pub policy_path: Seq<char>,
    pub request_path: Seq<char>,
    pub expected_report_path: Seq<char>,
}

/// `e` is the entry whose value is `v`.
pub open spec fn entry_is(e: TestCaseEntry, v: EntryV) -> bool {
    &&& e.id@ == v.id
    &&& e.title@ == v.title
    &&& e.policy_path@ == v.policy_path
    &&& e.request_path@ == v.request_path
    &&& e.expected_report_path@ == v.expected_report_path
}

/// The distinct subject ids of the first `n` triples, in order of first
/// occurrence.
pub open spec fn subjects_of(ts: Seq<Triple>, n: int) -> Seq<Seq<char>>
    decreases if n < 0 { 0 } else { n as nat },
{
    if n <= 0 || n > ts.len() {
        Seq::empty()
    } else {
        let acc = subjects_of(ts, n - 1);
        let s = subject_id_of(ts[n - 1].subject);
        if acc.contains(s) { acc } else { acc.push(s) }
    }
}

/// One case subject's entry: its title literal and its three sources,
/// each rewritten under `root`.
pub open spec fn entry_of(ts: Seq<Triple>, root: Seq<char>, id: Seq<char>) -> Result<EntryV, Seq<char>> {
    let title = match first_of(objects_of(ts, id, TITLE_PREDICATE@)) {
        Some(t) => literal_of(t),
        None => None,
    };
    match title {
        None => Err(id + ": no dct:title"@),
        Some(title) => match object_id_of(ts, id, POLICY_SOURCE@) {
            None => Err(id + ": no policySource"@),
            Some(pu) => match object_id_of(ts, id, REQUEST_SOURCE@) {
                None => Err(id + ": no requestSource"@),
                Some(ru) => match object_id_of(ts, id, EXPECTED_SOURCE@) {
                    None => Err(id + ": no expectedReportSource"@),
                    Some(eu) => match local_path_of(root, pu) {
                        Err(e) => Err(e),
                        Ok(pp) => match local_path_of(root, ru) {
                            Err(e) => Err(e),
                            Ok(rp) => match local_path_of(root, eu) {
                                Err(e) => Err(e),
                                Ok(ep) => Ok(EntryV { id, title, policy_path: pp, request_path: rp, expected_report_path: ep }),
                            },
                        },
                    },
                },
            },
        },
    }
}

/// The entries of the first `n` of `ids`, in order.
pub open spec fn entries_of(ts: Seq<Triple>, root: Seq<char>, ids: Seq<Seq<char>>, n: int) -> Result<Seq<EntryV>, Seq<char>>
    decreases if n < 0 { 0 } else { n as nat },
{
    if n <= 0 || n > ids.len() {
        Ok(Seq::empty())
    } else {
        match entries_of(ts, root, ids, n - 1) {
            Err(e) => Err(e),
            Ok(es) => match entry_of(ts, root, ids[n - 1]) {
                Err(e) => Err(e),
                Ok(x) => Ok(es.push(x)),
            },
        }
    }
}

/// The position `e` takes in `acc`, ordered by sequence number: the
/// first index whose number is not below `e`'s.
pub open spec fn slot_of(acc: Seq<EntryV>, n: nat) -> int
    decreases acc.len(),
{
    if acc.len() == 0 {
        0
    } else if sequence_of(acc.last().expected_report_path) < n {
        acc.len() as int
    } else {
        slot_of(acc.drop_last(), n)
    }
}

/// `acc` (ordered by sequence number) with `e` filed under its number: an
/// entry with the same number is replaced.
pub open spec fn file_entry(acc: Seq<EntryV>, e: EntryV) -> Seq<EntryV> {
    let n = sequence_of(e.expected_report_path);
    let i = slot_of(acc, n);
    if i < acc.len() && sequence_of(acc[i].expected_report_path) == n {
        acc.update(i, e)
    } else {
        acc.insert(i, e)
    }
}

/// The first `n` entries filed by sequence number.
pub open spec fn filed(es: Seq<EntryV>, n: int) -> Seq<EntryV>
    decreases if n < 0 { 0 } else { n as nat },
{
    if n <= 0 || n > es.len() {
        Seq::empty()
    } else {
        file_entry(filed(es, n - 1), es[n - 1])
    }
}

/// The cases of an index graph: one per distinct subject, ordered by
/// sequence number, a later case with the same number replacing an
/// earlier one.
pub open spec fn index_of(ts: Seq<Triple>, root: Seq<char>) -> Result<Seq<EntryV>, Seq<char>> {
    let ids = subjects_of(ts, ts.len() as int);
    match entries_of(ts, root, ids, ids.len() as int) {
        Err(e) => Err(e),
        Ok(es) => Ok(filed(es, es.len() as int)),
    }
}

/// Sequence numbers strictly increase along `acc`.
pub open spec fn numbered_in_order(acc: Seq<EntryV>) -> bool {
    forall|i: int, j: int| 0 <= i < j < acc.len() ==>
        sequence_of(#[trigger] acc[i].expected_report_path) < sequence_of(#[trigger] acc[j].expected_report_path)
}

pub proof fn lemma_slot_of(acc: Seq<EntryV>, n: nat)
    requires
        numbered_in_order(acc),
    ensures
        0 <= slot_of(acc, n) <= acc.len(),
        forall|j: int| 0 <= j < slot_of(acc, n) ==> sequence_of(#[trigger] acc[j].expected_report_path) < n,
        forall|j: int| slot_of(acc, n) <= j < acc.len() ==> sequence_of(#[trigger] acc[j].expected_report_path) >= n,
    decreases acc.len(),
{
    if acc.len() > 0 && sequence_of(acc.last().expected_report_path) >= n {
        let d = acc.drop_last();
        assert(numbered_in_order(d)) by {
            assert forall|i: int, j: int| 0 <= i < j < d.len() implies
                sequence_of(#[trigger] d[i].expected_report_path) < sequence_of(#[trigger] d[j].expected_report_path) by {
                assert(d[i] == acc[i] && d[j] == acc[j]);
            }
        }
        lemma_slot_of(d, n);
        assert forall|j: int| 0 <= j < slot_of(acc, n) implies sequence_of(#[trigger] acc[j].expected_report_path) < n by {
            assert(acc[j] == d[j]);
        }
        assert forall|j: int| slot_of(acc, n) <= j < acc.len() implies sequence_of(#[trigger] acc[j].expected_report_path) >= n by {
            if j < acc.len() - 1 {
                assert(acc[j] == d[j]);
            }
        }
    }
}

/// Filing keeps the numbers strictly increasing.
pub proof fn lemma_file_entry_in_order(acc: Seq<EntryV>, e: EntryV)
    requires
        numbered_in_order(acc),
    ensures
        numbered_in_order(file_entry(acc, e)),
{
    let n = sequence_of(e.expected_report_path);
    lemma_slot_of(acc, n);
    let i = slot_of(acc, n);
    let r = file_entry(acc, e);
    if i < acc.len() && sequence_of(acc[i].expected_report_path) == n {
        assert forall|a: int, b: int| 0 <= a < b < r.len() implies
            sequence_of(#[trigger] r[a].expected_report_path) < sequence_of(#[trigger] r[b].expected_report_path) by {
            if a != i && b != i {
                assert(r[a] == acc[a] && r[b] == acc[b]);
            } else if a == i {
                assert(r[b] == acc[b]);
                assert(sequence_of(acc[i].expected_report_path) < sequence_of(acc[b].expected_report_path));
            } else {
                assert(r[a] == acc[a]);
                assert(sequence_of(acc[a].expected_report_path) < sequence_of(acc[i].expected_report_path));
            }
        }
    } else {
        assert forall|a: int, b: int| 0 <= a < b < r.len() implies
            sequence_of(#[trigger] r[a].expected_report_path) < sequence_of(#[trigger] r[b].expected_report_path) by {
            if b < i {
                assert(r[a] == acc[a] && r[b] == acc[b]);
            } else if a > i {
                assert(r[a] == acc[a - 1] && r[b] == acc[b - 1]);
            } else if a == i {
                assert(r[b] == acc[b - 1]);
            } else if b == i {
                assert(r[a] == acc[a]);
            } else {
                assert(r[a] == acc[a] && r[b] == acc[b - 1]);
            }
        }
    }
}

/// Every prefix of entries files into strictly increasing numbers.
pub proof fn lemma_filed_in_order(es: Seq<EntryV>, n: int)
    ensures
        numbered_in_order(filed(es, n)),
    decreases if n < 0 { 0 } else { n as nat },
{
    if n > 0 && n <= es.len() {
        lemma_filed_in_order(es, n - 1);
        lemma_file_entry_in_order(filed(es, n - 1), es[n - 1]);
    }
}

pub proof fn lemma_entries_err_persists(ts: Seq<Triple>, root: Seq<char>, ids: Seq<Seq<char>>, k: int, m: int)
    requires
        1 <= k <= m <= ids.len(),
        entries_of(ts, root, ids, k) is Err,
    ensures
        entries_of(ts, root, ids, m) == entries_of(ts, root, ids, k),
    decreases m - k,
{
    if m > k {
        lemma_entries_err_persists(ts, root, ids, k, m - 1);
    }
}

/// The distinct subject ids of the graph, in order of first occurrence.
fn subject_ids(g: &Graph) -> (r: Vec<String>)
    ensures
        views(r@) == subjects_of(g.triples@, g.triples@.len() as int),
{
    let mut r: Vec<String> = Vec::new();
    let mut i: usize = 0;
    while i < g.triples.len()
        invariant
            i <= g.triples@.len(),
            views(r@) == subjects_of(g.triples@, i as int),
        decreases g.triples.len() - i,
    {
        let sid = subject_id(&g.triples[i].subject);
        if !contains_string(r.as_slice(), sid.as_str()) {
            let ghost before = r@;
            r.push(sid);
            assert(views(r@) =~= views(before).push(sid@));
        }
        i = i + 1;
    }
    r
}

/// One case subject's entry.
fn index_entry(g: &Graph, vendor_root: &str, id: &str) -> (r: Result<TestCaseEntry, String>)
    ensures
        match entry_of(g.triples@, vendor_root@, id@) {
            Ok(v) => r is Ok && entry_is(r->Ok_0, v),
            Err(e) => r is Err && r->Err_0@ == e,
        },
{
    let title = match g.object(id, TITLE_PREDICATE) {
        Some(Term::Literal(l)) => l,
        _ => return Err(concat2(id, ": no dct:title")),
    };
    let policy_url = match g.object_node(id, POLICY_SOURCE) {
        Some(u) => u,
        None => return Err(concat2(id, ": no policySource")),
    };
    let request_url = match g.object_node(id, REQUEST_SOURCE) {
        Some(u) => u,
        None => return Err(concat2(id, ": no requestSource")),
    };
    let expected_url = match g.object_node(id, EXPECTED_SOURCE) {
        Some(u) => u,
        None => return Err(concat2(id, ": no expectedReportSource")),
    };
    let policy_path = match rewrite_to_local_path(vendor_root, policy_url.as_str()) {
        Ok(p) => p,
        Err(e) => return Err(e),
    };
    let request_path = match rewrite_to_local_path(vendor_root, request_url.as_str()) {
        Ok(p) => p,
        Err(e) => return Err(e),
    };
    let expected_report_path = match rewrite_to_local_path(vendor_root, expected_url.as_str()) {
        Ok(p) => p,
        Err(e) => return Err(e),
    };
    Ok(TestCaseEntry { id: owned(id), title, policy_path, request_path, expected_report_path })
}

/// Files `e` into `acc`, which is ordered by sequence number.
fn file_into(acc: &mut Vec<TestCaseEntry>, e: TestCaseEntry, Ghost(av): Ghost<Seq<EntryV>>, Ghost(ev): Ghost<EntryV>)
    requires
        old(acc)@.len() == av.len(),
        forall|k: int| 0 <= k < av.len() ==> #[trigger] entry_is(old(acc)@[k], av[k]),
        entry_is(e, ev),
    ensures
        final(acc)@.len() == file_entry(av, ev).len(),
        forall|k: int| 0 <= k < file_entry(av, ev).len() ==> #[trigger] entry_is(final(acc)@[k], file_entry(av, ev)[k]),
{
    let n = sequence_number(e.expected_report_path.as_str());
    let mut i: usize = acc.len();
    proof {
        assert(av.subrange(0, i as int) =~= av);
    }
    loop
        invariant
            i <= acc@.len(),
            acc@ == old(acc)@,
            av.len() == acc@.len(),
            forall|k: int| 0 <= k < av.len() ==> #[trigger] entry_is(acc@[k], av[k]),
            slot_of(av, n as nat) == slot_of(av.subrange(0, i as int), n as nat),
        ensures
            i <= acc@.len(),
            slot_of(av, n as nat) == i as int,
        decreases i,
    {
        if i == 0 {
            assert(av.subrange(0, 0) =~= Seq::<EntryV>::empty());
            break;
        }
        let m = sequence_number(acc[i - 1].expected_report_path.as_str());
        assert(av.subrange(0, i as int).last() == av[i - 1]);
        assert(entry_is(acc@[i - 1], av[i - 1]));
        if m < n {
            break;
        }
        assert(av.subrange(0, i as int).drop_last() =~= av.subrange(0, i - 1));
        i = i - 1;
    }
    assert(slot_of(av, n as nat) == i as int);
    let same = if i < acc.len() {
        assert(entry_is(acc@[i as int], av[i as int]));
        sequence_number(acc[i].expected_report_path.as_str()) == n
    } else {
        false
    };
    let ghost before = acc@;
    if same {
        acc.set(i, e);
        proof {
            let r = file_entry(av, ev);
            assert forall|k: int| 0 <= k < r.len() implies #[trigger] entry_is(acc@[k], r[k]) by {
                if k != i as int {
                    assert(acc@[k] == before[k]);
                }
            }
        }
    } else {
        acc.insert(i, e);
        proof {
            let r = file_entry(av, ev);
            assert forall|k: int| 0 <= k < r.len() implies #[trigger] entry_is(acc@[k], r[k]) by {
                if k < i as int {
                    assert(acc@[k] == before[k]);
                } else if k > i as int {
                    assert(acc@[k] == before[k - 1]);
                    assert(r[k] == av[k - 1]);
                }
            }
        }
    }
}

/// The cases of an already parsed index graph, their sources rewritten
/// under `vendor_root`, ordered by sequence number.
pub fn parse_index(g: &Graph, vendor_root: &str) -> (r: Result<Vec<TestCaseEntry>, String>)
    ensures
        match index_of(g.triples@, vendor_root@) {
            Ok(vs) => r is Ok && r->Ok_0@.len() == vs.len()
                && forall|k: int| 0 <= k < vs.len() ==> #[trigger] entry_is(r->Ok_0@[k], vs[k]),
            Err(e) => r is Err && r->Err_0@ == e,
        },
        r is Ok ==> forall|a: int, b: int| 0 <= a < b < r->Ok_0@.len() ==>
            sequence_of((#[trigger] r->Ok_0@[a]).expected_report_path@) < sequence_of((#[trigger] r->Ok_0@[b]).expected_report_path@),
{
    let ids = subject_ids(g);
    let ghost iv = views(ids@);
    let mut entries: Vec<TestCaseEntry> = Vec::new();
    let mut i: usize = 0;
    while i < ids.len()
        invariant
            i <= ids@.len(),
            iv == views(ids@),
            iv == subjects_of(g.triples@, g.triples@.len() as int),
            entries_of(g.triples@, vendor_root@, iv, i as int) is Ok,
            entries@.len() == i,
            entries_of(g.triples@, vendor_root@, iv, i as int)->Ok_0.len() == i,
            forall|k: int| 0 <= k < i ==> #[trigger] entry_is(entries@[k], entries_of(g.triples@, vendor_root@, iv, i as int)->Ok_0[k]),
        decreases ids.len() - i,
    {
        assert(iv[i as int] == ids@[i as int]@);
        match index_entry(g, vendor_root, ids[i].as_str()) {
            Ok(e) => {
                let ghost before = entries@;
                let ghost prev = entries_of(g.triples@, vendor_root@, iv, i as int)->Ok_0;
                entries.push(e);
                proof {
                    let now = entries_of(g.triples@, vendor_root@, iv, i as int + 1)->Ok_0;
                    assert forall|k: int| 0 <= k < i + 1 implies #[trigger] entry_is(entries@[k], now[k]) by {
                        if k < i {
                            assert(entries@[k] == before[k]);
                            assert(now[k] == prev[k]);
                        }
                    }
                }
            },
            Err(e) => {
                proof { lemma_entries_err_persists(g.triples@, vendor_root@, iv, i as int + 1, iv.len() as int); }
                return Err(e);
            },
        }
        i = i + 1;
    }
    let ghost es = entries_of(g.triples@, vendor_root@, iv, iv.len() as int)->Ok_0;
    let mut numbered: Vec<TestCaseEntry> = Vec::new();
    let mut remaining = entries;
    let mut j: usize = 0;
    let total = remaining.len();
    let mut queue: Vec<TestCaseEntry> = Vec::new();
    // Take the entries out in order: reverse once, then pop.
    while remaining.len() > 0
        invariant
            remaining@.len() + queue@.len() == total,
            total == es.len(),
            forall|k: int| 0 <= k < remaining@.len() ==> #[trigger] entry_is(remaining@[k], es[k]),
            forall|k: int| 0 <= k < queue@.len() ==> #[trigger] entry_is(queue@[k], es[total - 1 - k]),
        decreases remaining.len(),
    {
        let ghost r0 = remaining@;
        let ghost q0 = queue@;
        let e = remaining.pop().unwrap();
        assert(entry_is(r0[r0.len() - 1], es[r0.len() - 1]));
        queue.push(e);
        proof {
            assert forall|k: int| 0 <= k < remaining@.len() implies #[trigger] entry_is(remaining@[k], es[k]) by {
                assert(remaining@[k] == r0[k]);
            }
            assert forall|k: int| 0 <= k < queue@.len() implies #[trigger] entry_is(queue@[k], es[total - 1 - k]) by {
                if k < q0.len() {
                    assert(queue@[k] == q0[k]);
                }
            }
        }
    }
    while j < total
        invariant
            j <= total,
            total == es.len(),
            queue@.len() == total - j,
            forall|k: int| 0 <= k < queue@.len() ==> #[trigger] entry_is(queue@[k], es[total - 1 - k]),
            numbered@.len() == filed(es, j as int).len(),
            forall|k: int| 0 <= k < numbered@.len() ==> #[trigger] entry_is(numbered@[k], filed(es, j as int)[k]),
        decreases total - j,
    {
        let ghost q0 = queue@;
        let e = queue.pop().unwrap();
        assert(entry_is(q0[q0.len() - 1], es[total - 1 - (q0.len() - 1)]));
        proof {
            assert forall|k: int| 0 <= k < queue@.len() implies #[trigger] entry_is(queue@[k], es[total - 1 - k]) by {
                assert(queue@[k] == q0[k]);
            }
        }
        file_into(&mut numbered, e, Ghost(filed(es, j as int)), Ghost(es[j as int]));
        j = j + 1;
    }
    proof {
        lemma_filed_in_order(es, total as int);
        let f = filed(es, total as int);
        assert forall|a: int, b: int| 0 <= a < b < numbered@.len() implies
            sequence_of((#[trigger] numbered@[a]).expected_report_path@) < sequence_of((#[trigger] numbered@[b]).expected_report_path@) by {
            assert(entry_is(numbered@[a], f[a]) && entry_is(numbered@[b], f[b]));
        }
    }
    Ok(numbered)
}

} // verus!
