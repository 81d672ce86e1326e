//! Facts about filtered sequences that the store and the text functions
//! share.

use vstd::prelude::*;

verus! {

/// Filtering one element more: the element at `i` is appended where it is
/// wanted.
pub proof fn lemma_filter_step<A>(items: Seq<A>, wanted: spec_fn(A) -> bool, i: int)
    requires
        0 <= i < items.len(),
    ensures
        items.take(i + 1).filter(wanted) == if wanted(items[i]) {
            items.take(i).filter(wanted).push(items[i])
        } else {
            items.take(i).filter(wanted)
        },
{
    assert(items.take(i + 1) == items.take(i).push(items[i]));
    items.take(i).lemma_filter_push(items[i], wanted);
}

/// What a filter keeps of a prefix, it keeps of the whole sequence, at the
/// front.
pub proof fn lemma_filter_keeps_prefix<A>(items: Seq<A>, wanted: spec_fn(A) -> bool, upto: int)
    requires
        0 <= upto <= items.len(),
    ensures
        items.take(upto).filter(wanted).len() <= items.filter(wanted).len(),
        forall|k: int|
            0 <= k < items.take(upto).filter(wanted).len() ==> items.filter(wanted)[k]
                == #[trigger] items.take(upto).filter(wanted)[k],
{
    assert(items == items.take(upto) + items.skip(upto));
    Seq::filter_distributes_over_add(items.take(upto), items.skip(upto), wanted);
}

/// Every element that a filter keeps satisfies it and stands in the
/// sequence.
pub proof fn lemma_kept_items_are_held<A>(items: Seq<A>, wanted: spec_fn(A) -> bool)
    ensures
        forall|k: int|
            0 <= k < items.filter(wanted).len() ==> wanted(#[trigger] items.filter(wanted)[k])
                && items.contains(items.filter(wanted)[k]),
{
    assert forall|k: int| 0 <= k < items.filter(wanted).len() implies wanted(
        #[trigger] items.filter(wanted)[k],
    ) && items.contains(items.filter(wanted)[k]) by {
        let kept = items.filter(wanted)[k];
        items.lemma_filter_pred(wanted, k);
        assert(items.filter(wanted).contains(kept));
        items.lemma_filter_contains_rev(wanted, kept);
    }
}

/// An element that is not wanted makes no difference to what a filter
/// keeps: with it or without it between two parts, the result is the same.
pub proof fn lemma_filter_skips_unwanted<A>(
    front: Seq<A>,
    item: A,
    back: Seq<A>,
    wanted: spec_fn(A) -> bool,
)
    requires
        !wanted(item),
    ensures
        (front.push(item) + back).filter(wanted) == (front + back).filter(wanted),
{
    front.lemma_filter_push(item, wanted);
    Seq::filter_distributes_over_add(front.push(item), back, wanted);
    Seq::filter_distributes_over_add(front, back, wanted);
}

} // verus!
