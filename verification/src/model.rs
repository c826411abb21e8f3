//! The mathematical model of the search: sortedness, occurrence, and the
//! index reached by halving a closed range of a sequence around its midpoint.

use vstd::prelude::*;

verus! {

/// `s` is in non-decreasing order: no element is greater than a later one.
/// Equal neighbours are allowed.
pub open spec fn is_sorted(s: Seq<i32>) -> bool {
    forall|i: int, j: int| 0 <= i <= j < s.len() ==> s[i] <= s[j]
}

/// `i` is an index of `s`, and the element there is `target`.
pub open spec fn occurs_at(s: Seq<i32>, target: i32, i: int) -> bool {
    0 <= i < s.len() && s[i] == target
}

/// The index that halving reaches for `target` in the closed range
/// `[lo, hi]` of `s`, or `-1` once the range is empty.
///
/// The midpoint is `lo + (hi - lo) / 2`, which leans towards `lo` when the
/// range holds an even number of elements. A midpoint element above `target`
/// leaves the part below the midpoint, one below `target` leaves the part
/// above it, and an equal one is the answer.
pub open spec fn probe(s: Seq<i32>, target: i32, lo: int, hi: int) -> int
    decreases hi - lo + 1,
{
    if lo > hi {
        -1
    } else {
        let mid = lo + (hi - lo) / 2;
        if s[mid] > target {
            probe(s, target, lo, mid - 1)
        } else if s[mid] < target {
            probe(s, target, mid + 1, hi)
        } else {
            mid
        }
    }
}

/// The result of searching the whole of `s` for `target`: what halving
/// reaches from the range of all its indices.
pub open spec fn search_index(s: Seq<i32>, target: i32) -> int {
    probe(s, target, 0, s.len() - 1)
}

} // verus!
