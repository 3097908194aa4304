//! Sorting by a number, with items of the same number left in their order.
use crate::seqs::{vec_empty, vec_insert};
use crate::seqs;
use vstd::prelude::*;

verus! {

/// Where an item with the given key goes among sorted items: behind all whose
/// key is not larger.
pub open spec fn place<T>(sorted: Seq<(u64, T)>, key: u64) -> int
    decreases sorted.len(),
{
    if sorted.len() == 0 || sorted.last().0 <= key {
        sorted.len() as int
    } else {
        place(sorted.drop_last(), key)
    }
}

/// Items sorted by their keys, smallest first.
pub open spec fn sort_by_key<T>(items: Seq<(u64, T)>) -> Seq<(u64, T)>
    decreases items.len(),
{
    if items.len() == 0 {
        items
    } else {
        let sorted = sort_by_key(items.drop_last());
        sorted.insert(place(sorted, items.last().0), items.last())
    }
}

/// Puts an item in its place among sorted items.
pub(crate) fn insert_sorted<T: DeepView>(sorted: &mut Vec<(u64, T)>, key: u64, item: T)
    ensures
        final(sorted).deep_view() == old(sorted).deep_view().insert(
            place(old(sorted).deep_view(), key),
            (key, item.deep_view()),
        ),
{
    let ghost all = sorted.deep_view();
    assert(all.take(all.len() as int) == all);
    let mut i: usize = sorted.len();
    while i > 0 && sorted[i - 1].0 > key
        invariant
            i <= all.len(),
            all == sorted.deep_view(),
            place(all, key) == place(all.take(i as int), key),
        decreases i,
    {
        assert(all.take(i as int).drop_last() == all.take(i - 1));
        assert(all.take(i as int).last() == sorted@[i - 1].deep_view());
        i = i - 1;
    }
    assert(i > 0 ==> all.take(i as int).last() == sorted@[i - 1].deep_view());
    vec_insert(sorted, i, (key, item));
}

/// The items of pairs, without their keys.
pub(crate) fn without_keys<T: DeepView>(pairs: Vec<(u64, T)>) -> (r: Vec<T>)
    ensures
        r.deep_view() == pairs.deep_view().map_values(|pair: (u64, T::V)| pair.1),
{
    let ghost all = pairs.deep_view();
    let ghost items = all.map_values(|pair: (u64, T::V)| pair.1);
    let mut rest = pairs;
    let mut out: Vec<T> = vec_empty();
    while rest.len() > 0
        invariant
            all == rest.deep_view() + all.skip(rest@.len() as int),
            rest@.len() <= all.len(),
            items == all.map_values(|pair: (u64, T::V)| pair.1),
            out.deep_view() == items.skip(rest@.len() as int),
        decreases rest@.len(),
    {
        let ghost before = rest.deep_view();
        assert(before.last() == all[rest@.len() - 1]);
        let pair = rest.pop().unwrap();
        assert(pair.deep_view() == before.last());
        assert(rest.deep_view() =~= before.drop_last());
        assert(all =~= rest.deep_view() + all.skip(rest@.len() as int));
        let ghost tail = out.deep_view();
        vec_insert(&mut out, 0, pair.1);
        assert(tail.insert(0, pair.1.deep_view()) =~= items.skip(rest@.len() as int));
    }
    assert(items.skip(0) =~= items);
    out
}

/// Whether items stand in the order of their keys.
pub open spec fn is_sorted<T>(items: Seq<(u64, T)>) -> bool {
    forall|i: int, j: int|
        0 <= i <= j < items.len() ==> (#[trigger] items[i]).0 <= (#[trigger] items[j]).0
}

/// The place of a key: all from there on are larger, and the one before is not.
pub proof fn lemma_place<T>(sorted: Seq<(u64, T)>, key: u64)
    ensures
        0 <= place(sorted, key) <= sorted.len(),
        forall|i: int| place(sorted, key) <= i < sorted.len() ==> (#[trigger] sorted[i]).0 > key,
        place(sorted, key) > 0 ==> sorted[place(sorted, key) - 1].0 <= key,
    decreases sorted.len(),
{
    if sorted.len() == 0 || sorted.last().0 <= key {
    } else {
        let rest = sorted.drop_last();
        lemma_place(rest, key);
        let at = place(sorted, key);
        assert forall|i: int| at <= i < sorted.len() implies (#[trigger] sorted[i]).0 > key by {
            if i < rest.len() {
                assert(rest[i].0 > key);
            }
        }
    }
}

/// Sorting puts items in the order of their keys.
pub proof fn law_sorting_orders<T>(items: Seq<(u64, T)>)
    ensures
        is_sorted(sort_by_key(items)),
    decreases items.len(),
{
    if items.len() > 0 {
        let sorted = sort_by_key(items.drop_last());
        let key = items.last().0;
        law_sorting_orders(items.drop_last());
        lemma_place(sorted, key);
        let after = sort_by_key(items);
        let at = place(sorted, key);
        assert forall|i: int, j: int| 0 <= i <= j < after.len() implies (#[trigger] after[i]).0 <= (
        #[trigger] after[j]).0 by {
            let a = if i < at {
                i
            } else {
                i - 1
            };
            let b = if j < at {
                j
            } else {
                j - 1
            };
            if i != at {
                assert(after[i] == sorted[a]);
            }
            if j != at {
                assert(after[j] == sorted[b]);
            }
            if i < at {
                assert(sorted[i].0 <= sorted[at - 1].0);
            }
        }
    }
}

/// Sorting neither loses nor adds an item.
pub proof fn law_sorting_keeps_the_items<T>(items: Seq<(u64, T)>)
    ensures
        sort_by_key(items).to_multiset() == items.to_multiset(),
    decreases items.len(),
{
    broadcast use vstd::seq_lib::group_to_multiset_ensures;

    if items.len() > 0 {
        let sorted = sort_by_key(items.drop_last());
        law_sorting_keeps_the_items(items.drop_last());
        lemma_place(sorted, items.last().0);
        assert(items =~= items.drop_last().push(items.last()));
        assert(sort_by_key(items).to_multiset() =~= items.to_multiset());
    }
}

/// Sorting leaves items of the same key in the order in which they came.
pub proof fn law_sorting_is_stable<T>(items: Seq<(u64, T)>, key: u64)
    ensures
        sort_by_key(items).filter(|pair: (u64, T)| pair.0 == key) == items.filter(
            |pair: (u64, T)| pair.0 == key,
        ),
    decreases items.len(),
{
    let with_key = |pair: (u64, T)| pair.0 == key;
    reveal(Seq::filter);
    if items.len() > 0 {
        let sorted = sort_by_key(items.drop_last());
        let item = items.last();
        law_sorting_is_stable(items.drop_last(), key);
        lemma_place(sorted, item.0);
        let at = place(sorted, item.0);
        let front = sorted.take(at);
        let back = sorted.skip(at);
        assert(sorted =~= front + back);
        assert(sort_by_key(items) =~= front.push(item) + back);
        seqs::lemma_filter_concat(front, back, with_key);
        seqs::lemma_filter_concat(front.push(item), back, with_key);
        assert(front.push(item).drop_last() =~= front);
        if item.0 == key {
            assert forall|i: int| 0 <= i < back.len() implies !with_key(#[trigger] back[i]) by {
                assert(back[i] == sorted[at + i]);
            }
            seqs::lemma_filter_none(back, with_key);
            assert(front.push(item).filter(with_key) + back.filter(with_key) =~= items.filter(
                with_key,
            ));
        }
    }
}

} // verus!
