//! IRI helpers for the SolidLab ODRL test-suite corpus: namespace
//! builders and the local-name convention the suite's fixtures use.

use vstd::prelude::*;
use vstd::string::*;
use crate::text::{chars_of, concat2};

verus! {

/// The ODRL 2.2 namespace.
pub const SUITE_ODRL_NS: &'static str = "http://www.w3.org/ns/odrl/2/";

/// The compliance-report namespace.
pub const SUITE_REPORT_NS: &'static str = "https://w3id.org/force/compliance-report#";

/// The Dublin Core terms namespace.
pub const SUITE_DCT_NS: &'static str = "http://purl.org/dc/terms/";

/// `/` and `#` end the namespace part of an IRI.
pub open spec fn is_iri_separator(c: char) -> bool {
    c == '/' || c == '#'
}

/// Index of the last separator in `s`, or `-1` when it holds none.
pub open spec fn last_separator(s: Seq<char>) -> int
    decreases s.len(),
{
    if s.len() == 0 {
        -1
    } else if is_iri_separator(s.last()) {
        s.len() - 1
    } else {
        last_separator(s.drop_last())
    }
}

/// Everything after the last `/` or `#`, or the whole string without one.
pub open spec fn local_name_of(s: Seq<char>) -> Seq<char> {
    s.subrange(last_separator(s) + 1, s.len() as int)
}

/// The last separator index is in range and nothing after it separates.
pub proof fn lemma_last_separator(s: Seq<char>)
    ensures
        -1 <= last_separator(s) < s.len(),
        last_separator(s) >= 0 ==> is_iri_separator(s[last_separator(s)]),
        forall|j: int| last_separator(s) < j < s.len() ==> !is_iri_separator(#[trigger] s[j]),
    decreases s.len(),
{
    if s.len() > 0 && !is_iri_separator(s.last()) {
        lemma_last_separator(s.drop_last());
        assert forall|j: int| last_separator(s) < j < s.len() implies !is_iri_separator(#[trigger] s[j]) by {
            if j < s.len() - 1 {
                assert(s[j] == s.drop_last()[j]);
            }
        }
    }
}

/// `http://www.w3.org/ns/odrl/2/{local}`.
pub fn odrl(local: &str) -> (r: String)
    ensures
        r@ == SUITE_ODRL_NS@ + local@,
{
    concat2(SUITE_ODRL_NS, local)
}

/// `https://w3id.org/force/compliance-report#{local}`.
pub fn report_ns(local: &str) -> (r: String)
    ensures
        r@ == SUITE_REPORT_NS@ + local@,
{
    concat2(SUITE_REPORT_NS, local)
}

/// `http://purl.org/dc/terms/{local}`.
pub fn dct(local: &str) -> (r: String)
    ensures
        r@ == SUITE_DCT_NS@ + local@,
{
    concat2(SUITE_DCT_NS, local)
}

/// Position just past the last `/` or `#` of `iri`, or 0.
pub fn local_name_start(iri: &str) -> (k: usize)
    ensures
        k == last_separator(iri@) + 1,
{
    let cs = chars_of(iri);
    let mut i: usize = cs.len();
    assert(iri@.subrange(0, i as int) =~= iri@);
    while i > 0
        invariant
            cs@ == iri@,
            i <= cs@.len(),
            last_separator(iri@) == last_separator(iri@.subrange(0, i as int)),
        decreases i,
    {
        assert(iri@.subrange(0, i as int).drop_last() =~= iri@.subrange(0, i - 1));
        if cs[i - 1] == '/' || cs[i - 1] == '#' {
            return i;
        }
        i = i - 1;
    }
    0
}

/// The local-name half of an IRI: what follows its last `/` or `#`, or the
/// whole string when it has neither.
pub fn local_name(iri: &str) -> (r: &str)
    ensures
        r@ == local_name_of(iri@),
{
    proof {
        lemma_last_separator(iri@);
    }
    let start = local_name_start(iri);
    let n = iri.unicode_len();
    iri.substring_char(start, n)
}

/// A local name is a suffix of its IRI and holds no separator.
pub proof fn local_name_is_a_separator_free_suffix(iri: Seq<char>)
    ensures
        local_name_of(iri).len() <= iri.len(),
        local_name_of(iri) == iri.subrange(iri.len() - local_name_of(iri).len(), iri.len() as int),
        forall|j: int| 0 <= j < local_name_of(iri).len() ==> !is_iri_separator(#[trigger] local_name_of(iri)[j]),
{
    lemma_last_separator(iri);
    let k = last_separator(iri) + 1;
    assert forall|j: int| 0 <= j < local_name_of(iri).len() implies !is_iri_separator(#[trigger] local_name_of(iri)[j]) by {
        assert(local_name_of(iri)[j] == iri[k + j]);
    }
}

/// An IRI with no separator is its own local name.
pub proof fn local_name_without_separator_is_identity(iri: Seq<char>)
    requires
        forall|j: int| 0 <= j < iri.len() ==> !is_iri_separator(#[trigger] iri[j]),
    ensures
        local_name_of(iri) == iri,
{
    lemma_last_separator(iri);
    if last_separator(iri) >= 0 {
        assert(!is_iri_separator(iri[last_separator(iri)]));
    }
    assert(local_name_of(iri) =~= iri);
}

} // verus!
