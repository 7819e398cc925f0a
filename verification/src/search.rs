//! First-match search over a sequence, the rule every hit test in the crate
//! follows: the earliest element that satisfies the test wins.

use vstd::prelude::*;

verus! {

/// The index of the first element at or after `start` that satisfies `test`.
pub open spec fn first_from<T>(items: Seq<T>, test: spec_fn(T) -> bool, start: int) -> Option<usize>
    decreases items.len() - start,
{
    if start < 0 || start >= items.len() {
        None
    } else if test(items[start]) {
        Some(start as usize)
    } else {
        first_from(items, test, start + 1)
    }
}

/// The index of the first element that satisfies `test`.
pub open spec fn first<T>(items: Seq<T>, test: spec_fn(T) -> bool) -> Option<usize> {
    first_from(items, test, 0)
}

/// `first_from` finds the earliest match and misses none.
pub proof fn lemma_first_from<T>(items: Seq<T>, test: spec_fn(T) -> bool, start: int)
    requires
        0 <= start <= items.len() <= usize::MAX,
    ensures
        match first_from(items, test, start) {
            Some(found) => {
                &&& start <= found < items.len()
                &&& test(items[found as int])
                &&& forall|i: int| start <= i < found ==> !#[trigger] test(items[i])
            },
            None => forall|i: int| start <= i < items.len() ==> !#[trigger] test(items[i]),
        },
    decreases items.len() - start,
{
    if start < items.len() && !test(items[start]) {
        lemma_first_from(items, test, start + 1);
    }
}

} // verus!
