//! Insertion sorts, used to keep the broad-phase roster ordered from one
//! frame to the next (the roster is nearly sorted, so insertion sort is cheap).
use vstd::prelude::*;

verus! {

broadcast use vstd::seq_lib::group_to_multiset_ensures;

/// `a` may stand before `b`: either the comparator said `a < b`, or it said
/// that `b < a` does not hold.
pub open spec fn ordered_by<T, F: Fn(&T, &T) -> bool>(is_less: F, a: T, b: T) -> bool {
    is_less.ensures((&a, &b), true) || is_less.ensures((&b, &a), false)
}

/// Every two neighbours of `s` are ordered by the comparator.
pub open spec fn neighbours_ordered<T, F: Fn(&T, &T) -> bool>(is_less: F, s: Seq<T>) -> bool {
    forall|k: int| 0 <= k && k + 1 < s.len() ==> #[trigger] ordered_by(is_less, s[k], s[k + 1])
}

/// `s` is in ascending order.
pub open spec fn sorted_i64(s: Seq<i64>) -> bool {
    forall|a: int, b: int| 0 <= a <= b < s.len() ==> s[a] <= s[b]
}

/// Exchanges the elements at `j - 1` and `j`.
fn swap_with_previous<T>(list: &mut [T], j: usize)
    requires
        0 < j < old(list)@.len(),
    ensures
        final(list)@ == old(list)@.update(j - 1, old(list)@[j as int]).update(
            j as int,
            old(list)@[j - 1],
        ),
{
    let ghost s = list@;
    let (left, right) = list.split_at_mut(j);
    let a = left.last_mut().unwrap();
    let b = right.first_mut().unwrap();
    core::mem::swap(a, b);
    proof {
        assert(final(list)@ =~= s.update(j - 1, s[j as int]).update(j as int, s[j - 1]));
    }
}

/// Sorts `list` in place with the comparator `is_less`. An element moves in
/// front of its left neighbour whenever the neighbour is not less than it.
pub fn insertion_sort_by<T, F: Fn(&T, &T) -> bool>(list: &mut [T], is_less: F)
    requires
        forall|a: &T, b: &T| is_less.requires((a, b)),
    ensures
        final(list)@.to_multiset() == old(list)@.to_multiset(),
        neighbours_ordered(is_less, final(list)@),
{
    let n = list.len();
    if n == 0 {
        return;
    }
    let mut i: usize = 1;
    while i < n
        invariant
            1 <= i <= n,
            n == list@.len(),
            forall|a: &T, b: &T| is_less.requires((a, b)),
            list@.to_multiset() == old(list)@.to_multiset(),
            forall|k: int|
                0 <= k && k + 1 < i ==> #[trigger] ordered_by(is_less, list@[k], list@[k + 1]),
        decreases n - i,
    {
        let mut j: usize = i;
        let mut placed = false;
        while j > 0 && !placed
            invariant
                placed ==> 0 < j && ordered_by(is_less, list@[j - 1], list@[j as int]),
                1 <= i < n,
                0 <= j <= i,
                n == list@.len(),
                forall|a: &T, b: &T| is_less.requires((a, b)),
                list@.to_multiset() == old(list)@.to_multiset(),
                forall|k: int|
                    0 <= k && k + 1 < j ==> #[trigger] ordered_by(is_less, list@[k], list@[k + 1]),
                forall|k: int|
                    j < k && k + 1 <= i ==> #[trigger] ordered_by(is_less, list@[k], list@[k + 1]),
                j < i ==> ordered_by(is_less, list@[j as int], list@[j + 1]),
                0 < j < i ==> ordered_by(is_less, list@[j - 1], list@[j + 1]),
            decreases j + if placed { 0int } else { 1int },
        {
            if is_less(&list[j - 1], &list[j]) {
                placed = true;
            } else {
                let ghost s = list@;
                swap_with_previous(list, j);
                proof {
                    vstd::seq_lib::to_multiset_update(s, j - 1, s[j as int]);
                    let moved = s.update(j - 1, s[j as int]);
                    vstd::seq_lib::to_multiset_update(moved, j as int, s[j - 1]);
                    assert(list@.to_multiset() =~= s.to_multiset());
                    assert(ordered_by(is_less, list@[j - 1], list@[j as int]));
                    if j >= 2 {
                        let k = j - 2;
                        assert(ordered_by(is_less, s[k], s[k + 1]));
                    }
                    assert forall|k: int| j - 1 < k && k + 1 <= i implies #[trigger] ordered_by(
                        is_less,
                        list@[k],
                        list@[k + 1],
                    ) by {
                        if k == j as int {
                            assert(ordered_by(is_less, s[j - 1], s[j + 1]));
                        } else {
                            assert(ordered_by(is_less, s[k], s[k + 1]));
                        }
                    }
                }
                j = j - 1;
            }
        }
        assert forall|k: int| 0 <= k && k + 1 < i + 1 implies #[trigger] ordered_by(
            is_less,
            list@[k],
            list@[k + 1],
        ) by {
            if k + 1 > j && k > j {
                assert(ordered_by(is_less, list@[k], list@[k + 1]));
            }
        }
        i = i + 1;
    }
}

/// `a` may stand before `b` when they are ordered by the keys that `key`
/// gives them.
pub open spec fn keys_ordered<T, F: Fn(&T) -> i64>(key: F, a: T, b: T) -> bool {
    exists|ka: i64, kb: i64| key.ensures((&a,), ka) && key.ensures((&b,), kb) && ka <= kb
}

/// Neighbours ordered by `<` on integers make the whole sequence ascending.
pub proof fn lemma_neighbours_sorted(s: Seq<i64>)
    requires
        forall|k: int| 0 <= k && k + 1 < s.len() ==> #[trigger] s[k] <= s[k + 1],
    ensures
        sorted_i64(s),
    decreases s.len(),
{
    if s.len() > 1 {
        let t = s.drop_last();
        assert forall|k: int| 0 <= k && k + 1 < t.len() implies #[trigger] t[k] <= t[k + 1] by {
            assert(s[k] <= s[k + 1]);
        }
        lemma_neighbours_sorted(t);
        assert forall|a: int, b: int| 0 <= a <= b < s.len() implies s[a] <= s[b] by {
            if b < s.len() - 1 {
                assert(t[a] <= t[b]);
            } else if a < b {
                assert(t[a] <= t[b - 1]);
                assert(s[b - 1] <= s[b]);
            }
        }
    }
}

/// Sorts integers in ascending order.
pub fn insertion_sort(list: &mut [i64])
    ensures
        final(list)@.to_multiset() == old(list)@.to_multiset(),
        sorted_i64(final(list)@),
{
    let less = |a: &i64, b: &i64| -> (r: bool)
        ensures
            r == (*a < *b),
        { *a < *b };
    insertion_sort_by(list, less);
    proof {
        let s = list@;
        assert forall|k: int| 0 <= k && k + 1 < s.len() implies #[trigger] s[k] <= s[k + 1] by {
            assert(ordered_by(less, s[k], s[k + 1]));
        }
        lemma_neighbours_sorted(s);
    }
}

/// Sorts `list` by the integer key that `key` gives each element.
pub fn insertion_sort_by_key<T, F: Fn(&T) -> i64>(list: &mut [T], key: F)
    requires
        forall|a: &T| key.requires((a,)),
    ensures
        final(list)@.to_multiset() == old(list)@.to_multiset(),
        forall|k: int|
            0 <= k && k + 1 < final(list)@.len() ==> #[trigger] keys_ordered(
                key,
                final(list)@[k],
                final(list)@[k + 1],
            ),
{
    let key_of = &key;
    let less = |a: &T, b: &T| -> (r: bool)
        requires
            key_of.requires((a,)),
            key_of.requires((b,)),
        ensures
            exists|ka: i64, kb: i64|
                key_of.ensures((a,), ka) && key_of.ensures((b,), kb) && r == (ka < kb),
        {
            let ka = key_of(a);
            let kb = key_of(b);
            ka < kb
        };
    insertion_sort_by(list, less);
    proof {
        let s = list@;
        assert forall|k: int| 0 <= k && k + 1 < s.len() implies #[trigger] keys_ordered(
            key,
            s[k],
            s[k + 1],
        ) by {
            assert(ordered_by(less, s[k], s[k + 1]));
        }
    }
}

} // verus!
