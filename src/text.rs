//! Characters of strings: counting, lowercasing and substring search.

use vstd::prelude::*;
use vstd::std_specs::iter::IteratorSpec;

verus! {

/// What `str::to_lowercase` makes of a string.
pub uninterp spec fn lower_of(s: Seq<char>) -> Seq<char>;

/// Relies on `str::to_lowercase`: the lowercase form of a string, which
/// depends on its characters alone.
#[verifier::external_body]
pub(crate) fn lowercase(s: &str) -> (r: String)
    ensures
        r@ == lower_of(s@),
{
    s.to_lowercase()
}

/// The characters of `s`, in order.
pub fn chars_of(s: &str) -> (r: Vec<char>)
    ensures
        r@ == s@,
{
    broadcast use vstd::string::axiom_spec_iter, vstd::string::next_postcondition;
    let mut it = s.chars();
    let mut out: Vec<char> = Vec::new();
    loop
        invariant
            it.obeys_prophetic_iter_laws(),
            out@.len() <= s@.len(),
            out@ == s@.take(out@.len() as int),
            it.remaining() == s@.skip(out@.len() as int),
        decreases s@.len() - out@.len(),
    {
        match it.next() {
            None => {
                assert(s@.take(out@.len() as int) =~= s@);
                return out;
            },
            Some(c) => {
                let ghost n = out@.len() as int;
                assert(s@.skip(n).drop_first() =~= s@.skip(n + 1));
                out.push(c);
                assert(out@ =~= s@.take(n + 1));
            },
        }
    }
}

/// `needle` occurs in `hay` at position `i`.
pub open spec fn occurs_at(hay: Seq<char>, needle: Seq<char>, i: int) -> bool {
    0 <= i && i + needle.len() <= hay.len() && hay.subrange(i, i + needle.len()) == needle
}

/// `needle` occurs somewhere in `hay`; the empty string occurs everywhere.
pub open spec fn contains_sub(hay: Seq<char>, needle: Seq<char>) -> bool {
    exists|i: int| occurs_at(hay, needle, i)
}

/// Whether `needle` occurs in `hay` at position `i`.
fn occurs_at_exec(hay: &Vec<char>, needle: &Vec<char>, i: usize) -> (r: bool)
    requires
        i + needle@.len() <= hay@.len(),
    ensures
        r == occurs_at(hay@, needle@, i as int),
{
    let n = needle.len();
    let mut k: usize = 0;
    while k < n
        invariant
            n == needle@.len(),
            hay@.len() == hay.len(),
            k <= needle@.len(),
            i + needle@.len() <= hay@.len(),
            forall|j: int| 0 <= j < k ==> hay@[i + j] == needle@[j],
        decreases needle@.len() - k,
    {
        if hay[i + k] != needle[k] {
            assert(hay@.subrange(i as int, i + needle@.len())[k as int] != needle@[k as int]);
            return false;
        }
        k += 1;
    }
    assert(hay@.subrange(i as int, i + needle@.len()) =~= needle@);
    true
}

/// Whether `needle` occurs in `hay`.
pub fn contains_substring(hay: &str, needle: &str) -> (r: bool)
    ensures
        r == contains_sub(hay@, needle@),
{
    let h = chars_of(hay);
    let n = chars_of(needle);
    if n.len() > h.len() {
        proof {
            assert forall|i: int| !occurs_at(hay@, needle@, i) by {}
        }
        return false;
    }
    if n.len() == 0 {
        assert(hay@.subrange(0, 0) =~= needle@);
        assert(occurs_at(hay@, needle@, 0));
        return true;
    }
    let positions = h.len() - n.len() + 1;
    let mut i: usize = 0;
    while i < positions
        invariant
            positions == h@.len() - n@.len() + 1,
            h@ == hay@,
            n@ == needle@,
            i <= positions,
            forall|j: int| 0 <= j < i ==> !occurs_at(hay@, needle@, j),
        decreases positions - i,
    {
        if occurs_at_exec(&h, &n, i) {
            return true;
        }
        i += 1;
    }
    false
}

/// Whether `needle` occurs in `hay`, ignoring letter case as
/// `str::to_lowercase` does.
pub fn contains_ignoring_case(hay: &str, needle: &str) -> (r: bool)
    ensures
        r == contains_sub(lower_of(hay@), lower_of(needle@)),
{
    let h = lowercase(hay);
    let n = lowercase(needle);
    contains_substring(h.as_str(), n.as_str())
}

/// Whether `s` has exactly `k` characters.
pub fn has_char_count(s: &str, k: usize) -> (r: bool)
    requires
        k < usize::MAX,
    ensures
        r == (s@.len() == k),
{
    broadcast use vstd::string::axiom_spec_iter, vstd::string::next_postcondition;
    let mut it = s.chars();
    let mut n: usize = 0;
    loop
        invariant
            it.obeys_prophetic_iter_laws(),
            n + it.remaining().len() == s@.len(),
            n <= k,
        decreases s@.len() - n,
    {
        match it.next() {
            Some(_) => {
                if n == k {
                    return false;
                }
                n += 1;
            },
            None => {
                return n == k;
            },
        }
    }
}

/// Whether `s` has at least `k` characters.
pub fn has_char_count_at_least(s: &str, k: usize) -> (r: bool)
    ensures
        r == (s@.len() >= k),
{
    broadcast use vstd::string::axiom_spec_iter, vstd::string::next_postcondition;
    let mut it = s.chars();
    let mut n: usize = 0;
    loop
        invariant
            it.obeys_prophetic_iter_laws(),
            n + it.remaining().len() == s@.len(),
            n <= k,
        decreases s@.len() - n,
    {
        if n == k {
            return true;
        }
        match it.next() {
            Some(_) => {
                n += 1;
            },
            None => {
                return false;
            },
        }
    }
}

} // verus!
