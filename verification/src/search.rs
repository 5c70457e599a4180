//! The least index at which a predicate holds.

use vstd::prelude::*;

verus! {

/// The least `i` with `from <= i < to` and `p(i)`, or `to` if there is none.
pub open spec fn least(from: int, to: int, p: spec_fn(int) -> bool) -> int
    decreases to - from,
{
    if from >= to {
        to
    } else if p(from) {
        from
    } else {
        least(from + 1, to, p)
    }
}

/// `k` is the first index from `from` at which `p` holds, or `to` where it
/// holds nowhere.
pub open spec fn is_least(k: int, from: int, to: int, p: spec_fn(int) -> bool) -> bool {
    &&& from <= k <= to
    &&& k < to ==> p(k)
    &&& forall|j: int| from <= j < k ==> !#[trigger] p(j)
}

/// `least` is the one index that `is_least` describes.
pub proof fn lemma_least(k: int, from: int, to: int, p: spec_fn(int) -> bool)
    requires
        from <= to,
    ensures
        is_least(least(from, to, p), from, to, p),
        is_least(k, from, to, p) ==> k == least(from, to, p),
    decreases to - from,
{
    if from < to && !p(from) {
        lemma_least(k, from + 1, to, p);
    }
}

} // verus!
