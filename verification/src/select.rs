//! Picking the items of a list that satisfy a condition, by their indices.

use vstd::prelude::*;

verus! {

/// The indices below `count` that `keep` holds of, in order.
pub open spec fn picked(count: int, keep: spec_fn(int) -> bool) -> Seq<usize>
    decreases count,
{
    if count <= 0 {
        Seq::empty()
    } else if keep(count - 1) {
        picked(count - 1, keep).push((count - 1) as usize)
    } else {
        picked(count - 1, keep)
    }
}

/// An index is picked exactly when the condition holds of it.
pub proof fn picking_is_exact(count: int, keep: spec_fn(int) -> bool, index: int)
    requires
        0 <= count <= usize::MAX + 1,
        0 <= index <= usize::MAX,
    ensures
        picked(count, keep).contains(index as usize) <==> index < count && keep(index),
    decreases count,
{
    if count > 0 {
        picking_is_exact(count - 1, keep, index);
        let before = picked(count - 1, keep);
        let last = (count - 1) as usize;
        if before.contains(index as usize) {
            let at = choose|at: int| 0 <= at < before.len() && before[at] == index as usize;
            assert(before.push(last)[at] == index as usize);
        }
        if keep(count - 1) {
            assert(before.push(last)[before.len() as int] == last);
            if before.push(last).contains(index as usize) && last != index as usize {
                let at = choose|at: int|
                    0 <= at < before.push(last).len() && before.push(last)[at] == index as usize;
                assert(before[at] == index as usize);
            }
        }
    }
}

/// What is picked comes in order, each index once.
pub proof fn picking_keeps_order(count: int, keep: spec_fn(int) -> bool)
    requires
        0 <= count <= usize::MAX + 1,
    ensures
        forall|i: int| 0 <= i < picked(count, keep).len() ==> (#[trigger] picked(count, keep)[i])
            < count,
        forall|i: int, j: int|
            0 <= i < j < picked(count, keep).len() ==> (#[trigger] picked(count, keep)[i]) < (
            #[trigger] picked(count, keep)[j]),
    decreases count,
{
    if count > 0 {
        picking_keeps_order(count - 1, keep);
        let before = picked(count - 1, keep);
        let all = picked(count, keep);
        if keep(count - 1) {
            assert forall|i: int| 0 <= i < all.len() implies (#[trigger] all[i]) < count by {
                if i < before.len() {
                    assert(all[i] == before[i]);
                }
            }
            assert forall|i: int, j: int| 0 <= i < j < all.len() implies (#[trigger] all[i]) < (
            #[trigger] all[j]) by {
                assert(all[i] == before[i]);
                if j < before.len() {
                    assert(all[j] == before[j]);
                }
            }
        }
    }
}

} // verus!
