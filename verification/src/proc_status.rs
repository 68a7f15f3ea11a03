//! Resource readings out of the text of `/proc/self/status`: the value in
//! kilobytes a field line carries, and the resident-set figures a bench
//! samples at its phase boundaries. Reading the file is the caller's part.

use vstd::prelude::*;
use crate::text::{chars_of, is_prefix};
use crate::suite_index::{all_digits, digits_value, unsigned_digits, is_digit};

verus! {

/// The index of the first `'\n'` at or after `pos`, or the length of `s`.
pub open spec fn next_newline(s: Seq<char>, pos: int) -> int
    decreases s.len() - pos,
{
    if pos >= s.len() {
        s.len() as int
    } else if s[pos] == '\n' {
        pos
    } else {
        next_newline(s, pos + 1)
    }
}

/// The lines of `s` from `pos` on, as `str::lines` yields them: split
/// after each `'\n'`, the `'\n'` and a `'\r'` just before it dropped, and
/// no empty line after a final line ending.
pub open spec fn lines_from(s: Seq<char>, pos: int) -> Seq<Seq<char>>
    decreases s.len() - pos,
{
    if pos < 0 || pos >= s.len() {
        Seq::empty()
    } else {
        let e = next_newline(s, pos);
        let raw = s.subrange(pos, e);
        let line = if e < s.len() && raw.len() > 0 && raw.last() == '\r' { raw.drop_last() } else { raw };
        if e < pos {
            Seq::empty()
        } else if e < s.len() {
            seq![line] + lines_from(s, e + 1)
        } else {
            seq![line]
        }
    }
}

/// Whether `c` has the Unicode `White_Space` property, as
/// `char::is_whitespace` tests it.
pub open spec fn is_ws(c: char) -> bool {
    ('\u{9}' <= c && c <= '\u{d}') || c == ' ' || c == '\u{85}' || c == '\u{a0}' || c == '\u{1680}'
        || ('\u{2000}' <= c && c <= '\u{200a}') || c == '\u{2028}' || c == '\u{2029}' || c == '\u{202f}'
        || c == '\u{205f}' || c == '\u{3000}'
}

/// The index of the first non-whitespace character at or after `i`, or
/// the length of `s`.
pub open spec fn skip_ws(s: Seq<char>, i: int) -> int
    decreases s.len() - i,
{
    if i >= s.len() {
        s.len() as int
    } else if !is_ws(s[i]) {
        i
    } else {
        skip_ws(s, i + 1)
    }
}

/// The index of the first whitespace character at or after `i`, or the
/// length of `s`.
pub open spec fn token_end(s: Seq<char>, i: int) -> int
    decreases s.len() - i,
{
    if i >= s.len() {
        s.len() as int
    } else if is_ws(s[i]) {
        i
    } else {
        token_end(s, i + 1)
    }
}

/// The first whitespace-separated word of `s`, as
/// `split_whitespace().next()` gives it.
pub open spec fn first_word(s: Seq<char>) -> Option<Seq<char>> {
    let a = skip_ws(s, 0);
    if a >= s.len() {
        None
    } else {
        Some(s.subrange(a, token_end(s, a)))
    }
}

/// What `u64::from_str` accepts: an optional `+`, then one or more decimal
/// digits whose value fits in 64 bits.
pub open spec fn parse_u64_of(s: Seq<char>) -> Option<nat> {
    let d = unsigned_digits(s);
    if d.len() == 0 || !all_digits(d) || digits_value(d) > u64::MAX {
        None
    } else {
        Some(digits_value(d))
    }
}

/// The value the first of `lines` that starts with `field` carries: its
/// first word after the field, as a `u64`. The first such line decides,
/// even when it carries no number; `None` when no line starts with
/// `field`.
pub open spec fn field_value(lines: Seq<Seq<char>>, field: Seq<char>) -> Option<nat>
    decreases lines.len(),
{
    if lines.len() == 0 {
        None
    } else if is_prefix(field, lines[0]) {
        match first_word(lines[0].subrange(field.len() as int, lines[0].len() as int)) {
            Some(w) => parse_u64_of(w),
            None => None,
        }
    } else {
        field_value(lines.drop_first(), field)
    }
}

/// The kilobyte figure `status` records under `field` (such as `VmRSS:`).
pub open spec fn status_kb_of(status: Seq<char>, field: Seq<char>) -> Option<nat> {
    field_value(lines_from(status, 0), field)
}

proof fn lemma_next_newline(s: Seq<char>, pos: int)
    requires
        0 <= pos <= s.len(),
    ensures
        pos <= next_newline(s, pos) <= s.len(),
        next_newline(s, pos) < s.len() ==> s[next_newline(s, pos)] == '\n',
        forall|k: int| pos <= k < next_newline(s, pos) ==> s[k] != '\n',
    decreases s.len() - pos,
{
    if pos < s.len() && s[pos] != '\n' {
        lemma_next_newline(s, pos + 1);
    }
}

proof fn lemma_skip_ws(s: Seq<char>, i: int)
    requires
        0 <= i <= s.len(),
    ensures
        i <= skip_ws(s, i) <= s.len(),
        skip_ws(s, i) < s.len() ==> !is_ws(s[skip_ws(s, i)]),
        forall|k: int| i <= k < skip_ws(s, i) ==> is_ws(s[k]),
    decreases s.len() - i,
{
    if i < s.len() && is_ws(s[i]) {
        lemma_skip_ws(s, i + 1);
    }
}

proof fn lemma_token_end(s: Seq<char>, i: int)
    requires
        0 <= i <= s.len(),
    ensures
        i <= token_end(s, i) <= s.len(),
        token_end(s, i) < s.len() ==> is_ws(s[token_end(s, i)]),
        forall|k: int| i <= k < token_end(s, i) ==> !is_ws(s[k]),
    decreases s.len() - i,
{
    if i < s.len() && !is_ws(s[i]) {
        lemma_token_end(s, i + 1);
    }
}

fn is_ws_char(c: char) -> (r: bool)
    ensures
        r == is_ws(c),
{
    ('\u{9}' <= c && c <= '\u{d}') || c == ' ' || c == '\u{85}' || c == '\u{a0}' || c == '\u{1680}'
        || ('\u{2000}' <= c && c <= '\u{200a}') || c == '\u{2028}' || c == '\u{2029}' || c == '\u{202f}'
        || c == '\u{205f}' || c == '\u{3000}'
}

/// Parses `cs[a..b]` like `u64::from_str`.
fn parse_u64_range(cs: &Vec<char>, a: usize, b: usize) -> (r: Option<u64>)
    requires
        a <= b <= cs@.len(),
    ensures
        match r {
            Some(n) => parse_u64_of(cs@.subrange(a as int, b as int)) == Some(n as nat),
            None => parse_u64_of(cs@.subrange(a as int, b as int)) is None,
        },
{
    let ghost s = cs@.subrange(a as int, b as int);
    let start: usize = if a < b && cs[a] == '+' { a + 1 } else { a };
    let ghost d = unsigned_digits(s);
    assert(d =~= cs@.subrange(start as int, b as int));
    if start >= b {
        return None;
    }
    let mut acc: u128 = 0;
    let mut i: usize = start;
    while i < b
        invariant
            a <= start <= i <= b <= cs@.len(),
            d == cs@.subrange(start as int, b as int),
            d == unsigned_digits(cs@.subrange(a as int, b as int)),
            forall|k: int| start <= k < i ==> is_digit(#[trigger] cs@[k]),
            acc as nat == digits_value(cs@.subrange(start as int, i as int)),
            acc <= u64::MAX,
        decreases b - i,
    {
        let c = cs[i];
        if !('0' <= c && c <= '9') {
            proof {
                assert(d[i - start] == c);
                assert(!is_digit(d[i - start]));
                assert(!all_digits(d));
            }
            return None;
        }
        let digit: u128 = ((c as u32) - 48) as u128;
        let next: u128 = acc * 10 + digit;
        proof {
            assert(cs@.subrange(start as int, i + 1).drop_last() =~= cs@.subrange(start as int, i as int));
        }
        if next > 0xFFFF_FFFF_FFFF_FFFFu128 {
            proof {
                lemma_digits_prefix_bound(d, i + 1 - start);
                assert(d.subrange(0, i + 1 - start) =~= cs@.subrange(start as int, i + 1));
                assert(is_digit(c));
                assert(digits_value(cs@.subrange(start as int, i + 1)) == next);
            }
            return None;
        }
        acc = next;
        i = i + 1;
    }
    proof {
        assert forall|k: int| 0 <= k < d.len() implies is_digit(#[trigger] d[k]) by {
            assert(d[k] == cs@[start + k]);
        }
        assert(cs@.subrange(start as int, i as int) =~= d);
    }
    Some(acc as u64)
}

/// The value of a digit string is at least that of any of its prefixes.
proof fn lemma_digits_prefix_bound(d: Seq<char>, n: int)
    requires
        0 <= n <= d.len(),
    ensures
        all_digits(d) ==> digits_value(d) >= digits_value(d.subrange(0, n)),
    decreases d.len() - n,
{
    if n == d.len() {
        assert(d.subrange(0, n) =~= d);
    } else if all_digits(d) {
        lemma_digits_prefix_bound(d, n + 1);
        assert(d.subrange(0, n + 1).drop_last() =~= d.subrange(0, n));
        assert(is_digit(d[n]));
        assert(d.subrange(0, n + 1).last() == d[n]);
    }
}

/// The kilobyte figure `status` (the text of `/proc/self/status`) records
/// under `field`: the first whitespace-separated word after the field on
/// the first line that starts with it, as a `u64`.
pub fn proc_status_kb(status: &str, field: &str) -> (r: Option<u64>)
    ensures
        match r {
            Some(n) => status_kb_of(status@, field@) == Some(n as nat),
            None => status_kb_of(status@, field@) is None,
        },
{
    let cs = chars_of(status);
    let fs = chars_of(field);
    let ghost s = cs@;
    let n = cs.len();
    let mut pos: usize = 0;
    while pos < n
        invariant
            n == s.len(),
            s == cs@,
            fs@ == field@,
            s == status@,
            pos <= n,
            status_kb_of(s, field@) == field_value(lines_from(s, pos as int), field@),
        decreases n - pos,
    {
        let mut e: usize = pos;
        while e < n && cs[e] != '\n'
            invariant
                pos <= e <= n,
                n == s.len(),
                s == cs@,
                next_newline(s, pos as int) == next_newline(s, e as int),
            decreases n - e,
        {
            e = e + 1;
        }
        let mut end: usize = e;
        if e < n && e > pos && cs[e - 1] == '\r' {
            end = e - 1;
        }
        let ghost line = s.subrange(pos as int, end as int);
        proof {
            let raw = s.subrange(pos as int, e as int);
            if e < n && raw.len() > 0 && raw.last() == '\r' {
                assert(raw.drop_last() =~= line);
            } else {
                assert(raw =~= line);
            }
            assert((seq![line] + lines_from(s, e as int + 1)).drop_first() =~= lines_from(s, e as int + 1));
            assert((seq![line] + lines_from(s, e as int + 1))[0] == line);
        }
        // Does the line start with the field?
        let fl = fs.len();
        let mut matches = fl <= end - pos;
        if matches {
            let mut k: usize = 0;
            while k < fl && cs[pos + k] == fs[k]
                invariant
                    k <= fl,
                    fl == fs@.len(),
                    pos + fl <= end <= n,
                    n == s.len(),
                    s == cs@,
                    forall|j: int| 0 <= j < k ==> s[pos + j] == fs@[j],
                decreases fl - k,
            {
                k = k + 1;
            }
            matches = k == fl;
            proof {
                if matches {
                    assert(line.subrange(0, fl as int) =~= fs@);
                } else {
                    assert(line.subrange(0, fl as int)[k as int] == s[pos + k]);
                    assert(line.subrange(0, fl as int)[k as int] != fs@[k as int]);
                }
            }
        }
        if matches {
            let ghost rest = line.subrange(fl as int, line.len() as int);
            let mut a: usize = pos + fl;
            while a < end && is_ws_char(cs[a])
                invariant
                    pos + fl <= a <= end <= n,
                    n == s.len(),
                    s == cs@,
                    rest == s.subrange(pos + fl, end as int),
                    skip_ws(rest, 0) == skip_ws(rest, a - pos - fl),
                decreases end - a,
            {
                proof { assert(rest[a - pos - fl] == s[a as int]); }
                a = a + 1;
            }
            proof {
                if a < end {
                    assert(rest[a - pos - fl] == s[a as int]);
                }
            }
            if a >= end {
                return None;
            }
            let mut b: usize = a;
            while b < end && !is_ws_char(cs[b])
                invariant
                    a <= b <= end <= n,
                    pos + fl <= a,
                    n == s.len(),
                    s == cs@,
                    rest == s.subrange(pos + fl, end as int),
                    token_end(rest, a - pos - fl) == token_end(rest, b - pos - fl),
                decreases end - b,
            {
                proof { assert(rest[b - pos - fl] == s[b as int]); }
                b = b + 1;
            }
            proof {
                if b < end {
                    assert(rest[b - pos - fl] == s[b as int]);
                }
                assert(rest.subrange(a - pos - fl, b - pos - fl) =~= s.subrange(a as int, b as int));
            }
            return parse_u64_range(&cs, a, b);
        }
        if e >= n {
            pos = n;
        } else {
            pos = e + 1;
        }
    }
    proof {
        assert(lines_from(s, pos as int) =~= Seq::<Seq<char>>::empty());
    }
    None
}

/// The resident set `status` records (`VmRSS:`), in bytes; 0 when it
/// records none. The multiplication wraps as the release build's does.
pub fn rss_bytes(status: &str) -> (r: u64)
    ensures
        r == match status_kb_of(status@, "VmRSS:"@) {
            Some(k) => (k as u64).wrapping_mul(1024),
            None => 0u64.wrapping_mul(1024),
        },
{
    let kb = match proc_status_kb(status, "VmRSS:") {
        Some(k) => k,
        None => 0,
    };
    kb.wrapping_mul(1024)
}

/// The high-water mark `status` records (`VmHWM:`), in bytes; 0 when it
/// records none. The multiplication wraps as the release build's does.
pub fn peak_rss_bytes(status: &str) -> (r: u64)
    ensures
        r == match status_kb_of(status@, "VmHWM:"@) {
            Some(k) => (k as u64).wrapping_mul(1024),
            None => 0u64.wrapping_mul(1024),
        },
{
    let kb = match proc_status_kb(status, "VmHWM:") {
        Some(k) => k,
        None => 0,
    };
    kb.wrapping_mul(1024)
}

} // verus!
