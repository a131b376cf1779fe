//! Descending order by a key, where items of equal key keep the order in
//! which they came.

use vstd::prelude::*;

verus! {

/// `sorted` with `item` put behind every item whose key is at least its own.
pub open spec fn insert_descending<A>(sorted: Seq<A>, item: A, key: spec_fn(A) -> int) -> Seq<A>
    decreases sorted.len(),
{
    if sorted.len() == 0 {
        seq![item]
    } else if key(sorted.last()) >= key(item) {
        sorted.push(item)
    } else {
        insert_descending(sorted.drop_last(), item, key).push(sorted.last())
    }
}

/// The items of `items` by descending key. Items of equal key stay in the
/// order in which `items` has them.
pub open spec fn sort_descending<A>(items: Seq<A>, key: spec_fn(A) -> int) -> Seq<A>
    decreases items.len(),
{
    if items.len() == 0 {
        Seq::empty()
    } else {
        insert_descending(sort_descending(items.drop_last(), key), items.last(), key)
    }
}

/// No item has a larger key than an item before it.
pub open spec fn is_descending<A>(items: Seq<A>, key: spec_fn(A) -> int) -> bool {
    forall|i: int, j: int| 0 <= i < j < items.len() ==> key(items[i]) >= key(items[j])
}

/// Where the items from `at` on all have a smaller key than `item`, and
/// the item before `at`, if any, has not, inserting puts `item` at `at`.
pub proof fn lemma_insert_position<A>(sorted: Seq<A>, item: A, key: spec_fn(A) -> int, at: int)
    requires
        0 <= at <= sorted.len(),
        forall|j: int| at <= j < sorted.len() ==> key(#[trigger] sorted[j]) < key(item),
        at > 0 ==> key(sorted[at - 1]) >= key(item),
    ensures
        insert_descending(sorted, item, key) == sorted.insert(at, item),
    decreases sorted.len(),
{
    if sorted.len() == 0 {
        assert(insert_descending(sorted, item, key) =~= sorted.insert(at, item));
    } else if at == sorted.len() {
        assert(key(sorted.last()) >= key(item));
        assert(insert_descending(sorted, item, key) =~= sorted.insert(at, item));
    } else {
        assert(key(sorted[sorted.len() - 1]) < key(item));
        let front = sorted.drop_last();
        assert forall|j: int| at <= j < front.len() implies key(#[trigger] front[j]) < key(
            item,
        ) by {
            assert(front[j] == sorted[j]);
        }
        if at > 0 {
            assert(front[at - 1] == sorted[at - 1]);
        }
        lemma_insert_position(front, item, key, at);
        assert(front.insert(at, item).push(sorted.last()) =~= sorted.insert(at, item));
    }
}

/// Inserting keeps the length, the items and the descending order.
pub proof fn lemma_insert_descending<A>(sorted: Seq<A>, item: A, key: spec_fn(A) -> int)
    requires
        is_descending(sorted, key),
    ensures
        is_descending(insert_descending(sorted, item, key), key),
        insert_descending(sorted, item, key).len() == sorted.len() + 1,
        insert_descending(sorted, item, key).to_multiset() == sorted.to_multiset().insert(item),
    decreases sorted.len(),
{
    broadcast use vstd::seq_lib::group_to_multiset_ensures;

    let result = insert_descending(sorted, item, key);
    if sorted.len() == 0 {
    } else if key(sorted.last()) >= key(item) {
        assert forall|i: int, j: int| 0 <= i < j < result.len() implies key(result[i]) >= key(
            result[j],
        ) by {
            if j == sorted.len() {
                if i < sorted.len() - 1 {
                    assert(key(sorted[i]) >= key(sorted[sorted.len() - 1]));
                }
            } else {
                assert(key(sorted[i]) >= key(sorted[j]));
            }
        }
    } else {
        let front = sorted.drop_last();
        assert forall|i: int, j: int| 0 <= i < j < front.len() implies key(front[i]) >= key(
            front[j],
        ) by {
            assert(key(sorted[i]) >= key(sorted[j]));
        }
        lemma_insert_descending(front, item, key);
        let inner = insert_descending(front, item, key);
        // Every item of `inner` is `item` or an item of `front`, and each
        // of these has a key at least that of the last item of `sorted`.
        assert forall|i: int| 0 <= i < inner.len() implies key(#[trigger] inner[i]) >= key(
            sorted.last(),
        ) by {
            assert(inner.to_multiset().count(inner[i]) > 0);
            if inner[i] != item {
                assert(front.to_multiset().count(inner[i]) > 0);
                assert(front.contains(inner[i]));
                let k = choose|k: int| 0 <= k < front.len() && front[k] == inner[i];
                assert(key(sorted[k]) >= key(sorted[sorted.len() - 1]));
            }
        }
        assert forall|i: int, j: int| 0 <= i < j < result.len() implies key(result[i]) >= key(
            result[j],
        ) by {
            if j < inner.len() {
                assert(key(inner[i]) >= key(inner[j]));
            }
        }
        assert(sorted =~= front.push(sorted.last()));
        assert(result.to_multiset() =~= sorted.to_multiset().insert(item));
    }
}

/// Sorting keeps the length and the items, each as often as it was there,
/// and what comes out is in descending order.
pub proof fn lemma_sort_descending<A>(items: Seq<A>, key: spec_fn(A) -> int)
    ensures
        is_descending(sort_descending(items, key), key),
        sort_descending(items, key).len() == items.len(),
        sort_descending(items, key).to_multiset() == items.to_multiset(),
    decreases items.len(),
{
    broadcast use vstd::seq_lib::group_to_multiset_ensures;

    if items.len() > 0 {
        let front = items.drop_last();
        lemma_sort_descending(front, key);
        lemma_insert_descending(sort_descending(front, key), items.last(), key);
        assert(items =~= front.push(items.last()));
    }
}

} // verus!
