//! Facts about filtered sequences that the filters and the laws share.

use vstd::prelude::*;

verus! {

/// One step of a filter over a growing prefix: the item at `i` joins what the
/// prefix before it gave exactly when the predicate holds of it.
pub proof fn lemma_filter_prefix_step<T>(items: Seq<T>, i: int, pred: spec_fn(T) -> bool)
    requires
        0 <= i < items.len(),
    ensures
        items.take(i + 1).filter(pred) == if pred(items[i]) {
            items.take(i).filter(pred).push(items[i])
        } else {
            items.take(i).filter(pred)
        },
{
    reveal(Seq::filter);
    assert(items.take(i + 1).drop_last() =~= items.take(i));
}

/// `short` can be had from `long` by leaving items out, without reordering.
pub open spec fn is_subsequence<T>(short: Seq<T>, long: Seq<T>) -> bool
    decreases long.len(),
{
    if short.len() == 0 {
        true
    } else if long.len() == 0 {
        false
    } else {
        (short.last() == long.last() && is_subsequence(short.drop_last(), long.drop_last()))
            || is_subsequence(short, long.drop_last())
    }
}

/// What a filter keeps is a subsequence of what it was given.
pub proof fn lemma_filter_is_subsequence<T>(items: Seq<T>, pred: spec_fn(T) -> bool)
    ensures
        is_subsequence(items.filter(pred), items),
    decreases items.len(),
{
    reveal(Seq::filter);
    if items.len() > 0 {
        let rest = items.drop_last().filter(pred);
        lemma_filter_is_subsequence(items.drop_last(), pred);
        if pred(items.last()) {
            assert(items.filter(pred).drop_last() =~= rest);
        }
    }
}

/// Two predicates that agree on every item of a sequence keep the same items.
pub proof fn lemma_filter_agree<T>(items: Seq<T>, p: spec_fn(T) -> bool, q: spec_fn(T) -> bool)
    requires
        forall|i: int| 0 <= i < items.len() ==> p(#[trigger] items[i]) == q(items[i]),
    ensures
        items.filter(p) == items.filter(q),
    decreases items.len(),
{
    reveal(Seq::filter);
    if items.len() > 0 {
        assert forall|i: int| 0 <= i < items.drop_last().len() implies p(
            #[trigger] items.drop_last()[i],
        ) == q(items.drop_last()[i]) by {
            assert(items.drop_last()[i] == items[i]);
        }
        lemma_filter_agree(items.drop_last(), p, q);
    }
}

} // verus!
