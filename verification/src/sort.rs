//! Sorting the pairs of cell key and particle id by key, and finding where
//! each key's run starts in the sorted order.
use vstd::prelude::*;
use vstd::seq_lib::*;
use crate::grid::EMPTY_CELL;

verus! {

/// Whether the keys never decrease along the sequence.
pub open spec fn keys_ascend(keys: Seq<u32>) -> bool {
    forall|i: int, j: int| 0 <= i <= j < keys.len() ==> keys[i] <= keys[j]
}

/// Whether the pairs are in order of their keys.
pub open spec fn sorted_by_key(pairs: Seq<(u32, u32)>) -> bool {
    forall|i: int, j: int| 0 <= i <= j < pairs.len() ==> pairs[i].0 <= pairs[j].0
}

/// Whether `start` is what the cell-start table holds for `key`: the index of
/// the first of `keys` that equals `key`, or `EMPTY_CELL` where none does.
pub open spec fn is_cell_start(keys: Seq<u32>, key: u32, start: u32) -> bool {
    if start == EMPTY_CELL {
        forall|i: int| 0 <= i < keys.len() ==> keys[i] != key
    } else {
        &&& start < keys.len()
        &&& keys[start as int] == key
        &&& forall|i: int| 0 <= i < start ==> keys[i] != key
    }
}

/// The pairs whose key is `key`.
pub open spec fn with_key(key: u32) -> spec_fn((u32, u32)) -> bool {
    |pair: (u32, u32)| pair.0 == key
}

/// The pairs of a sequence that have the key `key`, in their order.
pub open spec fn run_of(pairs: Seq<(u32, u32)>, key: u32) -> Seq<(u32, u32)> {
    pairs.filter(with_key(key))
}

/// A sequence without a pair of the key `key` has an empty run of it.
proof fn lemma_no_run(pairs: Seq<(u32, u32)>, key: u32)
    requires
        forall|i: int| 0 <= i < pairs.len() ==> pairs[i].0 != key,
    ensures
        run_of(pairs, key) =~= Seq::<(u32, u32)>::empty(),
    decreases pairs.len(),
{
    reveal(Seq::filter);
    if pairs.len() > 0 {
        lemma_no_run(pairs.drop_last(), key);
    }
}

/// Merges two sorted vectors into one. Of pairs with equal keys, those of
/// `a` come first.
fn merge(a: &Vec<(u32, u32)>, b: &Vec<(u32, u32)>) -> (r: Vec<(u32, u32)>)
    requires
        sorted_by_key(a@),
        sorted_by_key(b@),
        a.len() + b.len() <= usize::MAX,
    ensures
        sorted_by_key(r@),
        r@.to_multiset() == a@.to_multiset().add(b@.to_multiset()),
        r.len() == a.len() + b.len(),
        forall|key: u32| #[trigger] run_of(r@, key) == run_of(a@, key) + run_of(b@, key),
{
    broadcast use {group_seq_properties, vstd::multiset::group_multiset_axioms};

    let mut r: Vec<(u32, u32)> = Vec::new();
    let mut i: usize = 0;
    let mut j: usize = 0;
    proof {
        reveal(Seq::filter);
    }
    while i < a.len() || j < b.len()
        invariant
            i <= a.len(),
            j <= b.len(),
            a.len() + b.len() <= usize::MAX,
            r.len() == i + j,
            sorted_by_key(a@),
            sorted_by_key(b@),
            sorted_by_key(r@),
            r@.to_multiset() == a@.take(i as int).to_multiset().add(
                b@.take(j as int).to_multiset(),
            ),
            forall|k: int| 0 <= k < r.len() && i < a.len() ==> r[k].0 <= a[i as int].0,
            forall|k: int| 0 <= k < r.len() && j < b.len() ==> r[k].0 <= b[j as int].0,
            forall|k: int| 0 <= k < j && i < a.len() ==> b[k].0 < a[i as int].0,
            forall|key: u32|
                #[trigger] run_of(r@, key) == run_of(a@.take(i as int), key) + run_of(
                    b@.take(j as int),
                    key,
                ),
        decreases a.len() - i + (b.len() - j),
    {
        let take_left = if i >= a.len() {
            false
        } else if j >= b.len() {
            true
        } else {
            a[i].0 <= b[j].0
        };
        let ghost before = r@;
        if take_left {
            let item = a[i];
            proof {
                assert(a@.take(i + 1) =~= a@.take(i as int).push(item));
                to_multiset_build(a@.take(i as int), item);
                to_multiset_build(r@, item);
                lemma_no_run(b@.take(j as int), item.0);
                assert forall|key: u32| #[trigger]
                    run_of(before.push(item), key) == run_of(a@.take(i + 1), key) + run_of(
                        b@.take(j as int),
                        key,
                    ) by {
                    before.lemma_filter_push(item, with_key(key));
                    a@.take(i as int).lemma_filter_push(item, with_key(key));
                    assert(run_of(before, key) == run_of(a@.take(i as int), key) + run_of(
                        b@.take(j as int),
                        key,
                    ));
                }
            }
            r.push(item);
            i = i + 1;
        } else {
            let item = b[j];
            proof {
                assert(b@.take(j + 1) =~= b@.take(j as int).push(item));
                to_multiset_build(b@.take(j as int), item);
                to_multiset_build(r@, item);
                assert forall|key: u32| #[trigger]
                    run_of(before.push(item), key) == run_of(a@.take(i as int), key) + run_of(
                        b@.take(j + 1),
                        key,
                    ) by {
                    before.lemma_filter_push(item, with_key(key));
                    b@.take(j as int).lemma_filter_push(item, with_key(key));
                    assert(run_of(before, key) == run_of(a@.take(i as int), key) + run_of(
                        b@.take(j as int),
                        key,
                    ));
                }
            }
            r.push(item);
            j = j + 1;
        }
    }
    r
}

/// Sorts the pairs from `lo` up to `hi`.
fn sort_range(pairs: &Vec<(u32, u32)>, lo: usize, hi: usize) -> (r: Vec<(u32, u32)>)
    requires
        lo <= hi <= pairs.len(),
    ensures
        sorted_by_key(r@),
        r@.to_multiset() == pairs@.subrange(lo as int, hi as int).to_multiset(),
        r.len() == hi - lo,
        forall|key: u32|
            #[trigger] run_of(r@, key) == run_of(pairs@.subrange(lo as int, hi as int), key),
    decreases hi - lo,
{
    broadcast use {group_seq_properties, vstd::multiset::group_multiset_axioms};

    if hi - lo == 0 {
        let r: Vec<(u32, u32)> = Vec::new();
        r
    } else if hi - lo == 1 {
        let mut r: Vec<(u32, u32)> = Vec::new();
        r.push(pairs[lo]);
        assert(pairs@.subrange(lo as int, hi as int) =~= r@);
        r
    } else {
        let mid = lo + (hi - lo) / 2;
        let left = sort_range(pairs, lo, mid);
        let right = sort_range(pairs, mid, hi);
        proof {
            let whole = pairs@.subrange(lo as int, hi as int);
            let first = pairs@.subrange(lo as int, mid as int);
            let second = pairs@.subrange(mid as int, hi as int);
            assert(whole =~= first + second);
            lemma_multiset_commutative(first, second);
            assert forall|key: u32| #[trigger]
                run_of(whole, key) == run_of(first, key) + run_of(second, key) by {
                Seq::filter_distributes_over_add(first, second, with_key(key));
            }
        }
        merge(&left, &right)
    }
}

/// Sorts pairs of cell key and particle id by key, stably. The result holds
/// the same pairs as the input, each as often, with keys that never decrease;
/// the pairs of each key stand in the order in which the input has them.
pub fn sort(pairs: &Vec<(u32, u32)>) -> (sorted_pairs: Vec<(u32, u32)>)
    ensures
        sorted_by_key(sorted_pairs@),
        sorted_pairs@.to_multiset() == pairs@.to_multiset(),
        sorted_pairs.len() == pairs.len(),
        forall|key: u32| #[trigger] run_of(sorted_pairs@, key) == run_of(pairs@, key),
{
    let r = sort_range(pairs, 0, pairs.len());
    assert(pairs@.subrange(0, pairs.len() as int) =~= pairs@);
    r
}

/// Builds the cell-start table of `table` entries for keys in sorted order:
/// the entry of a key is the index at which its run begins, and `EMPTY_CELL`
/// for a key that does not occur.
pub fn find_cell_starts(keys: &Vec<u32>, table: usize) -> (cell_start: Vec<u32>)
    requires
        keys_ascend(keys@),
        keys.len() <= u32::MAX,
        forall|i: int| 0 <= i < keys.len() ==> keys[i] < table,
    ensures
        cell_start.len() == table,
        forall|key: u32|
            key < table ==> is_cell_start(keys@, key, #[trigger] cell_start[key as int]),
{
    let mut cell_start: Vec<u32> = vec![EMPTY_CELL; table];
    let mut i: usize = 0;
    while i < keys.len()
        invariant
            i <= keys.len(),
            keys.len() <= u32::MAX,
            keys_ascend(keys@),
            forall|k: int| 0 <= k < keys.len() ==> keys[k] < table,
            cell_start.len() == table,
            forall|key: u32|
                key < table ==> is_cell_start(
                    keys@.take(i as int),
                    key,
                    #[trigger] cell_start[key as int],
                ),
        decreases keys.len() - i,
    {
        let key = keys[i];
        if i == 0 || keys[i - 1] != key {
            cell_start[key as usize] = i as u32;
        }
        proof {
            let shorter = keys@.take(i as int);
            let longer = keys@.take(i + 1);
            assert forall|other: u32| other < table implies is_cell_start(
                longer,
                other,
                #[trigger] cell_start[other as int],
            ) by {
                if other == key && i > 0 && keys[i - 1] == key {
                    assert(shorter[i - 1] == key);
                }
            }
        }
        i = i + 1;
    }
    assert(keys@.take(i as int) =~= keys@);
    cell_start
}

} // verus!
