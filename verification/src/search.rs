//! The executable search.

use vstd::prelude::*;
use crate::laws::{lemma_search_decides_membership, lemma_search_sound};
use crate::model::{is_sorted, occurs_at, probe, search_index};

verus! {

/// Searches `array` for `find` and returns the index of an occurrence, or
/// `-1` when it reaches none.
///
/// The search halves the closed range of indices that may still hold `find`,
/// and so expects `array` in non-decreasing order. On such a slice it returns
/// `-1` exactly when `find` is absent. Where `find` occurs more than once the
/// index returned is the one that halving reaches first, as
/// [`search_index`] spells out. On a slice that is not sorted the search
/// still ends, and still returns `-1` or an index that holds `find`, but it
/// may miss a value that is there.
///
/// The length of `array` has to fit the signed result. Every slice of `i32`
/// that Rust can hand out meets this, since no allocation spans more than
/// `isize::MAX` bytes.
#[verifier::loop_isolation(false)]
pub fn binary_search(array: &[i32], find: i32) -> (r: isize)
    requires
        array@.len() <= isize::MAX,
    ensures
        r == search_index(array@, find),
        r == -1 || occurs_at(array@, find, r as int),
        !array@.contains(find) ==> r == -1,
        is_sorted(array@) && array@.contains(find) ==> occurs_at(array@, find, r as int),
{
    proof {
        lemma_search_sound(array@, find);
        if is_sorted(array@) {
            lemma_search_decides_membership(array@, find);
        }
    }
    let mut left: isize = 0;
    let mut right: isize = array.len() as isize - 1;
    while left <= right
        invariant
            0 <= left <= array@.len(),
            -1 <= right < array@.len(),
            probe(array@, find, left as int, right as int) == search_index(array@, find),
        decreases right - left + 1,
    {
        let mid: isize = left + (right - left) / 2;
        if array[mid as usize] > find {
            right = mid - 1;
        } else if array[mid as usize] < find {
            left = mid + 1;
        } else {
            return mid;
        }
    }
    -1
}

} // verus!
