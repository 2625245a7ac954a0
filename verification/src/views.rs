//! Facts about the deep views of vectors.

use vstd::prelude::*;

verus! {

/// Pushing onto a vector pushes onto its deep view.
pub proof fn lemma_deep_view_push<T: DeepView>(before: Vec<T>, after: Vec<T>, last: T)
    requires
        after@ == before@.push(last),
    ensures
        after.deep_view() == before.deep_view().push(last.deep_view()),
{
    assert(after.deep_view() =~= before.deep_view().push(last.deep_view()));
}

/// Replacing an element of a vector replaces it in the deep view.
pub proof fn lemma_deep_view_update<T: DeepView>(before: Vec<T>, after: Vec<T>, i: int, row: T)
    requires
        0 <= i < before@.len(),
        after@ == before@.update(i, row),
    ensures
        after.deep_view() == before.deep_view().update(i, row.deep_view()),
{
    assert(after.deep_view() =~= before.deep_view().update(i, row.deep_view()));
}

/// The deep view of the empty vector is empty.
pub proof fn lemma_deep_view_empty<T: DeepView>(v: Vec<T>)
    requires
        v@.len() == 0,
    ensures
        v.deep_view() == Seq::<T::V>::empty(),
{
    assert(v.deep_view() =~= Seq::<T::V>::empty());
}

/// One more element of a sequence: the prefix up to and with index `i` is
/// the prefix before it with the element at `i` pushed.
pub proof fn lemma_take_next<T>(s: Seq<T>, i: int)
    requires
        0 <= i < s.len(),
    ensures
        s.take(i + 1) == s.take(i).push(s[i]),
        s.take(i + 1).drop_last() == s.take(i),
        s.take(i + 1).last() == s[i],
{
    assert(s.take(i + 1) =~= s.take(i).push(s[i]));
    assert(s.take(i + 1).drop_last() =~= s.take(i));
}

/// The prefix of full length is the sequence.
pub proof fn lemma_take_all<T>(s: Seq<T>)
    ensures
        s.take(s.len() as int) == s,
{
    assert(s.take(s.len() as int) =~= s);
}

/// The rows that pass a test, one row further: the row at `i` is added
/// where it passes.
pub proof fn lemma_filter_next<T>(s: Seq<T>, pred: spec_fn(T) -> bool, i: int)
    requires
        0 <= i < s.len(),
    ensures
        s.take(i + 1).filter(pred) == (if pred(s[i]) {
            s.take(i).filter(pred).push(s[i])
        } else {
            s.take(i).filter(pred)
        }),
{
    lemma_take_next(s, i);
    s.take(i).lemma_filter_push(s[i], pred);
}

/// Mapping after a push is a push after mapping.
pub proof fn lemma_map_push<A, B>(s: Seq<A>, last: A, f: spec_fn(A) -> B)
    ensures
        s.push(last).map_values(f) == s.map_values(f).push(f(last)),
{
    assert(s.push(last).map_values(f) =~= s.map_values(f).push(f(last)));
}

/// Nothing passes a test among no rows.
pub proof fn lemma_filter_none<T>(pred: spec_fn(T) -> bool)
    ensures
        Seq::<T>::empty().filter(pred) == Seq::<T>::empty(),
        Seq::<T>::empty().take(0) == Seq::<T>::empty(),
{
    reveal(Seq::filter);
    assert(Seq::<T>::empty().take(0) =~= Seq::<T>::empty());
}

/// A row among those that pass a test passes it, and is one of the rows.
pub proof fn lemma_filtered_row<T>(s: Seq<T>, pred: spec_fn(T) -> bool, k: int)
    requires
        0 <= k < s.filter(pred).len(),
    ensures
        pred(s.filter(pred)[k]),
        exists|j: int| 0 <= j < s.len() && s[j] == s.filter(pred)[k],
{
    s.lemma_filter_pred(pred, k);
    let row = s.filter(pred)[k];
    assert(s.filter(pred).contains(row));
    s.lemma_filter_contains_rev(pred, row);
    let j = choose|j: int| 0 <= j < s.len() && s[j] == row;
    assert(0 <= j < s.len() && s[j] == s.filter(pred)[k]);
}

/// The first row that passes a test: where no row before the one at `i`
/// passes and that one does, it is the first of the rows that pass.
pub proof fn lemma_first_match<T>(s: Seq<T>, pred: spec_fn(T) -> bool, i: int)
    requires
        0 <= i < s.len(),
        s.take(i).filter(pred).len() == 0,
        pred(s[i]),
    ensures
        s.filter(pred).len() > 0,
        s.filter(pred)[0] == s[i],
{
    lemma_filter_next(s, pred, i);
    assert(s =~= s.take(i + 1) + s.skip(i + 1));
    Seq::filter_distributes_over_add(s.take(i + 1), s.skip(i + 1), pred);
}

} // verus!
