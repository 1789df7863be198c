//! Records keyed by a unique 128-bit identifier: positions, uniqueness,
//! and lists of identifiers.

use vstd::prelude::*;

verus! {

/// No key occurs twice.
pub open spec fn unique_keys(keys: Seq<u128>) -> bool {
    forall|i: int, j: int| 0 <= i < j < keys.len() ==> keys[i] != keys[j]
}

/// Some record has key `k`.
pub open spec fn has_key(keys: Seq<u128>, k: u128) -> bool {
    exists|i: int| 0 <= i < keys.len() && keys[i] == k
}

/// The position of the record with key `k`, or -1 where there is none.
pub open spec fn key_pos(keys: Seq<u128>, k: u128) -> int {
    if has_key(keys, k) {
        choose|i: int| 0 <= i < keys.len() && keys[i] == k
    } else {
        -1
    }
}

/// Where keys are unique, the record found at `i` is the one `key_pos` names.
pub proof fn lemma_key_pos(keys: Seq<u128>, k: u128, i: int)
    requires
        unique_keys(keys),
        0 <= i < keys.len(),
        keys[i] == k,
    ensures
        has_key(keys, k),
        key_pos(keys, k) == i,
{
    assert(has_key(keys, k));
    let j = key_pos(keys, k);
    if j != i {
        if j < i {
            assert(keys[j] != keys[i]);
        } else {
            assert(keys[i] != keys[j]);
        }
    }
}


/// Appending a key that is not there keeps keys unique.
pub proof fn lemma_unique_push(keys: Seq<u128>, k: u128)
    requires
        unique_keys(keys),
        !has_key(keys, k),
    ensures
        unique_keys(keys.push(k)),
{
    let s = keys.push(k);
    assert forall|i: int, j: int| 0 <= i < j < s.len() implies s[i] != s[j] by {
        if j == keys.len() {
            assert(keys[i] != k);
        } else {
            assert(keys[i] != keys[j]);
        }
    }
}

/// Removing a key keeps keys unique.
pub proof fn lemma_unique_remove(keys: Seq<u128>, at: int)
    requires
        unique_keys(keys),
        0 <= at < keys.len(),
    ensures
        unique_keys(keys.remove(at)),
{
    let s = keys.remove(at);
    assert forall|i: int, j: int| 0 <= i < j < s.len() implies s[i] != s[j] by {
        let a = if i < at { i } else { i + 1 };
        let b = if j < at { j } else { j + 1 };
        assert(keys[a] != keys[b]);
    }
}


/// Whether `k` occurs among the keys.
pub fn contains_key(keys: &Vec<u128>, k: u128) -> (r: bool)
    ensures
        r == keys@.contains(k),
        r == has_key(keys@, k),
{
    let mut i: usize = 0;
    while i < keys.len()
        invariant
            i <= keys@.len(),
            forall|j: int| 0 <= j < i ==> keys@[j] != k,
        decreases keys@.len() - i,
    {
        if keys[i] == k {
            assert(keys@[i as int] == k);
            return true;
        }
        i += 1;
    }
    false
}

/// The position of `k` among the keys.
pub fn find_key(keys: &Vec<u128>, k: u128) -> (r: Option<usize>)
    requires
        unique_keys(keys@),
    ensures
        match r {
            Some(i) => i < keys@.len() && has_key(keys@, k) && key_pos(keys@, k) == i,
            None => !has_key(keys@, k),
        },
{
    let mut i: usize = 0;
    while i < keys.len()
        invariant
            i <= keys@.len(),
            unique_keys(keys@),
            forall|j: int| 0 <= j < i ==> keys@[j] != k,
        decreases keys@.len() - i,
    {
        if keys[i] == k {
            proof {
                lemma_key_pos(keys@, k, i as int);
            }
            return Some(i);
        }
        i += 1;
    }
    None
}


/// Copies a list of identifiers.
pub fn copy_ids(v: &Vec<u128>) -> (r: Vec<u128>)
    ensures
        r@ == v@,
{
    let mut out: Vec<u128> = Vec::new();
    let mut i: usize = 0;
    while i < v.len()
        invariant
            i <= v@.len(),
            out@ == v@.take(i as int),
        decreases v@.len() - i,
    {
        out.push(v[i]);
        i += 1;
        assert(out@ =~= v@.take(i as int));
    }
    assert(v@.take(i as int) =~= v@);
    out
}

/// A key that does not occur among `keys`: `candidate` where it is free,
/// else the least free key. Among the keys 0 to `keys.len()` one is always
/// free, as there are more of them than keys.
pub fn fresh_key(keys: &Vec<u128>, candidate: u128) -> (r: u128)
    ensures
        !keys@.contains(r),
        !keys@.contains(candidate) ==> r == candidate,
{
    if !contains_key(keys, candidate) {
        return candidate;
    }
    let n = keys.len();
    let mut v: u128 = 0;
    while v <= n as u128
        invariant
            n == keys@.len(),
            keys@.contains(candidate),
            v <= n + 1,
            forall|w: int| 0 <= w < v ==> keys@.contains(#[trigger] (w as u128)),
        decreases n + 1 - v,
    {
        if !contains_key(keys, v) {
            return v;
        }
        v += 1;
    }
    proof {
        lemma_free_key_exists(keys@);
    }
    0
}

/// Some key from 0 to the number of keys does not occur among them.
proof fn lemma_free_key_exists(keys: Seq<u128>)
    requires
        keys.len() < u128::MAX,
    ensures
        exists|w: int| 0 <= w < keys.len() + 1 && !keys.contains(#[trigger] (w as u128)),
{
    if forall|w: int| 0 <= w < keys.len() + 1 ==> keys.contains(#[trigger] (w as u128)) {
        lemma_all_taken_is_impossible(keys);
    }
}

/// Were every key from 0 to the number of keys taken, there would be more
/// distinct keys than keys.
proof fn lemma_all_taken_is_impossible(keys: Seq<u128>)
    requires
        keys.len() < u128::MAX,
        forall|w: int| 0 <= w < keys.len() + 1 ==> keys.contains(#[trigger] (w as u128)),
    ensures
        keys.len() + 1 <= keys.len(),
{
    let ks = keys.map_values(|k: u128| k as int);
    let n = keys.len() as int;
    vstd::set_lib::lemma_int_range(0, n + 1);
    assert forall|w: int| vstd::set_lib::set_int_range(0, n + 1).contains(w) implies ks.to_set().contains(w) by {
        assert(keys.contains(w as u128));
        let j = choose|j: int| 0 <= j < keys.len() && keys[j] == w as u128;
        assert(ks[j] == w);
        assert(ks.contains(w));
    }
    ks.lemma_cardinality_of_set();
    vstd::seq_lib::seq_to_set_is_finite(ks);
    vstd::set_lib::lemma_len_subset(vstd::set_lib::set_int_range(0, n + 1), ks.to_set());
}

} // verus!
