//! What holds of the model: the index that halving reaches always holds the
//! value searched for, and on a sorted sequence halving misses no value that
//! is there.

use vstd::prelude::*;
use crate::model::{is_sorted, occurs_at, probe, search_index};

verus! {

/// Halving a range inside `s` ends at `-1` or at an index of that range whose
/// element is `target`. This needs no order on `s`.
pub proof fn lemma_probe_sound(s: Seq<i32>, target: i32, lo: int, hi: int)
    requires
        0 <= lo,
        hi < s.len(),
    ensures
        ({
            let r = probe(s, target, lo, hi);
            r == -1 || (lo <= r <= hi && s[r] == target)
        }),
    decreases hi - lo + 1,
{
    if lo <= hi {
        let mid = lo + (hi - lo) / 2;
        if s[mid] > target {
            lemma_probe_sound(s, target, lo, mid - 1);
        } else if s[mid] < target {
            lemma_probe_sound(s, target, mid + 1, hi);
        }
    }
}

/// On a sorted sequence, halving a range that holds `target` at index `k`
/// ends at an index of that range whose element is `target`. That index need
/// not be `k` when `target` occurs more than once.
pub proof fn lemma_probe_complete(s: Seq<i32>, target: i32, lo: int, hi: int, k: int)
    requires
        is_sorted(s),
        0 <= lo <= k <= hi < s.len(),
        s[k] == target,
    ensures
        ({
            let r = probe(s, target, lo, hi);
            lo <= r <= hi && s[r] == target
        }),
    decreases hi - lo + 1,
{
    let mid = lo + (hi - lo) / 2;
    if s[mid] > target {
        lemma_probe_complete(s, target, lo, mid - 1, k);
    } else if s[mid] < target {
        lemma_probe_complete(s, target, mid + 1, hi, k);
    }
}

/// A search ends at `-1` or at an index of `s` whose element is `target`,
/// whether `s` is sorted or not.
pub proof fn lemma_search_sound(s: Seq<i32>, target: i32)
    ensures
        search_index(s, target) == -1 || occurs_at(s, target, search_index(s, target)),
{
    lemma_probe_sound(s, target, 0, s.len() - 1);
}

/// Searching a sorted sequence for its element at index `i` ends at an index
/// that holds the same value. It need not be `i` itself when the value occurs
/// more than once.
pub proof fn lemma_search_finds_element(s: Seq<i32>, i: int)
    requires
        is_sorted(s),
        0 <= i < s.len(),
    ensures
        occurs_at(s, s[i], search_index(s, s[i])),
{
    lemma_probe_complete(s, s[i], 0, s.len() - 1, i);
}

/// Searching for a value that `s` does not hold ends at `-1`, whether `s` is
/// sorted or not.
pub proof fn lemma_search_absent(s: Seq<i32>, v: i32)
    requires
        !s.contains(v),
    ensures
        search_index(s, v) == -1,
{
    lemma_search_sound(s, v);
}

/// Searching the empty sequence ends at `-1`, whatever the value.
pub proof fn lemma_search_empty(s: Seq<i32>, v: i32)
    requires
        s.len() == 0,
    ensures
        search_index(s, v) == -1,
{
}

/// On a sorted sequence a search ends at `-1` exactly when the value is not
/// there: it agrees with a scan of every element.
pub proof fn lemma_search_decides_membership(s: Seq<i32>, v: i32)
    requires
        is_sorted(s),
    ensures
        search_index(s, v) != -1 <==> s.contains(v),
{
    lemma_search_sound(s, v);
    if s.contains(v) {
        let i = choose|i: int| 0 <= i < s.len() && s[i] == v;
        lemma_search_finds_element(s, i);
    }
}

/// The index reached depends on nothing but the elements and the value: two
/// sequences that agree element by element, searched for the same value, give
/// the same index.
pub proof fn lemma_search_deterministic(a: Seq<i32>, b: Seq<i32>, v: i32)
    requires
        a.len() == b.len(),
        forall|i: int| 0 <= i < a.len() ==> a[i] == b[i],
    ensures
        search_index(a, v) == search_index(b, v),
{
    assert(a =~= b);
}

} // verus!
