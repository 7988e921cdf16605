//! Views of sequences of values that have a view of their own.

use vstd::prelude::*;

verus! {

/// The views of the items of a sequence.
pub open spec fn views<T: View>(items: Seq<T>) -> Seq<T::V> {
    items.map_values(|x: T| x@)
}

/// The views of a sequence with one more item are the views of the sequence
/// with the view of that item.
pub proof fn lemma_views_push<T: View>(items: Seq<T>, item: T)
    ensures
        views(items.push(item)) == views(items).push(item@),
{
    assert(views(items.push(item)) =~= views(items).push(item@));
}

/// The views of a sequence in which one item is replaced.
pub proof fn lemma_views_update<T: View>(items: Seq<T>, at: int, item: T)
    requires
        0 <= at < items.len(),
    ensures
        views(items.update(at, item)) == views(items).update(at, item@),
{
    assert(views(items.update(at, item)) =~= views(items).update(at, item@));
}

/// The index of the first of `items` of which `pred` holds, or the length of
/// `items` where it holds of none.
pub open spec fn first_where<T>(items: Seq<T>, pred: spec_fn(T) -> bool) -> int
    decreases items.len(),
{
    if items.len() == 0 {
        0
    } else if pred(items[0]) {
        0
    } else {
        1 + first_where(items.drop_first(), pred)
    }
}

/// Where `pred` holds of none of the first `i` items, the first index at
/// which it holds is `i` or later, and is `i` where it holds there.
pub proof fn lemma_first_where_from<T>(items: Seq<T>, pred: spec_fn(T) -> bool, i: int)
    requires
        0 <= i <= items.len(),
        forall|j: int| 0 <= j < i ==> !pred(#[trigger] items[j]),
    ensures
        i <= first_where(items, pred) <= items.len(),
        i < items.len() && pred(items[i]) ==> first_where(items, pred) == i,
    decreases items.len(),
{
    if items.len() > 0 {
        let rest = items.drop_first();
        if i > 0 {
            assert(!pred(items[0]));
            assert forall|j: int| 0 <= j < i - 1 implies !pred(#[trigger] rest[j]) by {
                assert(rest[j] == items[j + 1]);
            }
            lemma_first_where_from(rest, pred, i - 1);
        } else if !pred(items[0]) {
            lemma_first_where_from(rest, pred, 0);
        }
    }
}

/// `first_where` gives an index at which `pred` holds, where it is an index,
/// and `pred` holds at no index before it.
pub proof fn lemma_first_where<T>(items: Seq<T>, pred: spec_fn(T) -> bool)
    ensures
        0 <= first_where(items, pred) <= items.len(),
        first_where(items, pred) < items.len() ==> pred(items[first_where(items, pred)]),
        forall|j: int| 0 <= j < first_where(items, pred) ==> !pred(#[trigger] items[j]),
    decreases items.len(),
{
    if items.len() > 0 && !pred(items[0]) {
        let rest = items.drop_first();
        lemma_first_where(rest, pred);
        assert forall|j: int| 0 <= j < first_where(items, pred) implies !pred(
            #[trigger] items[j],
        ) by {
            if j > 0 {
                assert(items[j] == rest[j - 1]);
            }
        }
    }
}

/// One more item at the end leaves the first index at which `pred` holds as
/// it is, where `pred` held somewhere before, and else makes it the new
/// item's index where `pred` holds of the new item.
pub proof fn lemma_first_where_push<T>(items: Seq<T>, pred: spec_fn(T) -> bool, item: T)
    ensures
        first_where(items, pred) < items.len() ==> first_where(items.push(item), pred)
            == first_where(items, pred),
        first_where(items, pred) >= items.len() && pred(item) ==> first_where(
            items.push(item),
            pred,
        ) == items.len(),
        first_where(items, pred) >= items.len() && !pred(item) ==> first_where(
            items.push(item),
            pred,
        ) == items.len() + 1,
{
    let at = first_where(items, pred);
    let next = items.push(item);
    lemma_first_where(items, pred);
    if at < items.len() {
        assert forall|j: int| 0 <= j < at implies !pred(#[trigger] next[j]) by {
            assert(next[j] == items[j]);
        }
        assert(next[at] == items[at]);
        lemma_first_where_from(next, pred, at);
    } else {
        assert forall|j: int| 0 <= j < items.len() implies !pred(#[trigger] next[j]) by {
            assert(next[j] == items[j]);
        }
        if pred(item) {
            lemma_first_where_from(next, pred, items.len() as int);
        } else {
            assert forall|j: int| 0 <= j < next.len() implies !pred(#[trigger] next[j]) by {
                if j < items.len() {
                    assert(next[j] == items[j]);
                }
            }
            lemma_first_where_from(next, pred, next.len() as int);
        }
    }
}

/// The first index at which `pred` holds is the same in two sequences of
/// whose items `pred` holds at the same indices.
pub proof fn lemma_first_where_alike<T>(a: Seq<T>, b: Seq<T>, pred: spec_fn(T) -> bool)
    requires
        a.len() == b.len(),
        forall|i: int| 0 <= i < a.len() ==> pred(#[trigger] a[i]) == pred(b[i]),
    ensures
        first_where(a, pred) == first_where(b, pred),
{
    lemma_first_where(a, pred);
    let at = first_where(a, pred);
    assert forall|j: int| 0 <= j < at implies !pred(#[trigger] b[j]) by {
        assert(pred(a[j]) == pred(b[j]));
    }
    if at < a.len() {
        assert(pred(a[at]) == pred(b[at]));
    }
    lemma_first_where_from(b, pred, at);
}

/// The first index at which `pred` holds is no later than any index at
/// which it holds.
pub proof fn lemma_first_where_first<T>(items: Seq<T>, pred: spec_fn(T) -> bool, at: int)
    requires
        0 <= at < items.len(),
        pred(items[at]),
    ensures
        first_where(items, pred) <= at,
{
    lemma_first_where(items, pred);
}

/// Filtering a second time by the same predicate changes nothing.
pub proof fn lemma_filter_twice<T>(items: Seq<T>, pred: spec_fn(T) -> bool)
    ensures
        items.filter(pred).filter(pred) == items.filter(pred),
    decreases items.len(),
{
    if items.len() == 0 {
        assert(items.filter(pred) =~= Seq::<T>::empty()) by {
            items.lemma_filter_len(pred);
        }
        assert(items.filter(pred).filter(pred) =~= Seq::<T>::empty()) by {
            items.filter(pred).lemma_filter_len(pred);
        }
    } else {
        let front = items.drop_last();
        assert(items =~= front.push(items.last()));
        front.lemma_filter_push(items.last(), pred);
        lemma_filter_twice(front, pred);
        if pred(items.last()) {
            front.filter(pred).lemma_filter_push(items.last(), pred);
        }
    }
}

/// A sequence of one item, filtered, is that item where the predicate holds
/// of it, and empty where it does not.
pub proof fn lemma_filter_one<T>(item: T, pred: spec_fn(T) -> bool)
    ensures
        seq![item].filter(pred) == if pred(item) {
            seq![item]
        } else {
            Seq::<T>::empty()
        },
{
    let none = Seq::<T>::empty();
    none.lemma_filter_len(pred);
    assert(none.filter(pred) =~= none);
    none.lemma_filter_push(item, pred);
    assert(seq![item] =~= none.push(item));
}

} // verus!
