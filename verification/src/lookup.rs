//! Finding the first item of a sequence that satisfies a condition.

use vstd::prelude::*;

verus! {

/// The position of the first item that satisfies `pred`, if there is one.
pub open spec fn first_where<T>(items: Seq<T>, pred: spec_fn(T) -> bool) -> Option<int>
    decreases items.len(),
{
    if items.len() == 0 {
        None
    } else {
        match first_where(items.drop_last(), pred) {
            Some(i) => Some(i),
            None => if pred(items.last()) {
                Some(items.len() - 1)
            } else {
                None
            },
        }
    }
}

/// `first_where` returns a position that satisfies the condition and has none
/// before it that does, or nothing when no item satisfies it.
pub proof fn lemma_first_where<T>(items: Seq<T>, pred: spec_fn(T) -> bool)
    ensures
        match first_where(items, pred) {
            Some(i) => 0 <= i < items.len() && pred(items[i]) && forall|j: int|
                0 <= j < i ==> !pred(#[trigger] items[j]),
            None => forall|j: int| 0 <= j < items.len() ==> !pred(#[trigger] items[j]),
        },
    decreases items.len(),
{
    if items.len() > 0 {
        let front = items.drop_last();
        lemma_first_where(front, pred);
        assert(forall|j: int| 0 <= j < front.len() ==> front[j] == items[j]);
    }
}

/// A position that satisfies the condition, with none before it that does, is
/// the one that `first_where` returns.
pub proof fn lemma_first_where_is<T>(items: Seq<T>, pred: spec_fn(T) -> bool, i: int)
    requires
        0 <= i < items.len(),
        pred(items[i]),
        forall|j: int| 0 <= j < i ==> !pred(#[trigger] items[j]),
    ensures
        first_where(items, pred) == Some(i),
{
    lemma_first_where(items, pred);
}

/// Where no item satisfies the condition, `first_where` returns nothing.
pub proof fn lemma_first_where_none<T>(items: Seq<T>, pred: spec_fn(T) -> bool)
    requires
        forall|j: int| 0 <= j < items.len() ==> !pred(#[trigger] items[j]),
    ensures
        first_where(items, pred) is None,
{
    lemma_first_where(items, pred);
}

} // verus!
