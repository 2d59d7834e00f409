//! Keeping the entries of a sequence that satisfy a condition.

use vstd::prelude::*;

verus! {

/// The entries of `items` for which `keep` holds, in order.
pub open spec fn filtered<T>(items: Seq<T>, keep: spec_fn(T) -> bool) -> Seq<T>
    decreases items.len(),
{
    if items.len() == 0 {
        Seq::empty()
    } else {
        let rest = filtered(items.drop_last(), keep);
        if keep(items.last()) {
            rest.push(items.last())
        } else {
            rest
        }
    }
}

/// Filtering one more entry adds that entry exactly when it is kept.
pub proof fn lemma_filtered_step<T>(items: Seq<T>, keep: spec_fn(T) -> bool, i: int)
    requires
        0 <= i < items.len(),
    ensures
        filtered(items.take(i + 1), keep) == if keep(items[i]) {
            filtered(items.take(i), keep).push(items[i])
        } else {
            filtered(items.take(i), keep)
        },
{
    assert(items.take(i + 1).drop_last() =~= items.take(i));
}

/// Everything filtering keeps satisfies the condition.
pub proof fn lemma_filtered_kept<T>(items: Seq<T>, keep: spec_fn(T) -> bool)
    ensures
        forall|i: int| 0 <= i < filtered(items, keep).len() ==> keep(#[trigger] filtered(items, keep)[i]),
        filtered(items, keep).len() <= items.len(),
    decreases items.len(),
{
    if items.len() > 0 {
        lemma_filtered_kept(items.drop_last(), keep);
    }
}

/// Filtering keeps every entry that satisfies the condition.
pub proof fn lemma_filtered_keeps<T>(items: Seq<T>, keep: spec_fn(T) -> bool, x: T)
    requires
        items.contains(x),
        keep(x),
    ensures
        filtered(items, keep).contains(x),
    decreases items.len(),
{
    if items.last() == x {
        assert(filtered(items, keep).last() == x);
    } else {
        let i = choose|i: int| 0 <= i < items.len() && items[i] == x;
        assert(items.drop_last()[i] == x);
        lemma_filtered_keeps(items.drop_last(), keep, x);
        let rest = filtered(items.drop_last(), keep);
        let j = choose|j: int| 0 <= j < rest.len() && rest[j] == x;
        if keep(items.last()) {
            assert(rest.push(items.last())[j] == x);
        }
    }
}


} // verus!
