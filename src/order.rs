use vstd::prelude::*;
use vstd::set_lib::{lemma_int_range, lemma_len_subset, lemma_subset_equality, set_int_range};

verus! {

/// Position `i` goes before position `j` in newest-first order: it has the
/// later key, or the same key and the later position.
pub open spec fn goes_before(keys: Seq<i128>, i: int, j: int) -> bool {
    keys[i] > keys[j] || (keys[i] == keys[j] && i > j)
}

/// `order` lists every position of `keys` once, newest first: by key from
/// the largest down, equal keys from the last position back to the first
/// (an ascending stable sort, reversed).
pub open spec fn is_newest_first(keys: Seq<i128>, order: Seq<usize>) -> bool {
    &&& order.len() == keys.len()
    &&& forall|k: int| 0 <= k < order.len() ==> order[k] < keys.len()
    &&& forall|a: int, b: int|
        0 <= a < b < order.len() ==> goes_before(keys, order[a] as int, order[b] as int)
}

/// The positions of `keys` in newest-first order.
pub fn newest_first_order(keys: &Vec<i128>) -> (order: Vec<usize>)
    ensures
        is_newest_first(keys@, order@),
{
    let n = keys.len();
    let mut order: Vec<usize> = Vec::new();
    let mut k: usize = 0;
    while k < n
        invariant
            k <= n,
            n == keys@.len(),
            order@.len() == k,
            forall|i: int| 0 <= i < order@.len() ==> order@[i] < k,
            forall|a: int, b: int|
                0 <= a < b < order@.len() ==> goes_before(keys@, order@[a] as int, order@[b] as int),
        decreases n - k,
    {
        let mut pos: usize = 0;
        while pos < order.len() && keys[order[pos]] > keys[k]
            invariant
                pos <= order@.len(),
                k < n,
                n == keys@.len(),
                forall|i: int| 0 <= i < order@.len() ==> order@[i] < k,
                forall|i: int| 0 <= i < pos ==> keys@[order@[i] as int] > keys@[k as int],
            decreases order@.len() - pos,
        {
            pos = pos + 1;
        }
        let ghost before = order@;
        proof {
            assert forall|i: int| pos <= i < before.len() implies keys@[before[i] as int] <= keys@[k as int] by {
                if i > pos {
                    assert(goes_before(keys@, before[pos as int] as int, before[i] as int));
                }
            }
        }
        order.insert(pos, k);
        proof {
            let after = order@;
            assert(after == before.insert(pos as int, k));
            assert forall|a: int, b: int| 0 <= a < b < after.len() implies goes_before(
                keys@,
                after[a] as int,
                after[b] as int,
            ) by {
                if b < pos {
                    assert(after[a] == before[a] && after[b] == before[b]);
                } else if b == pos {
                    assert(after[a] == before[a]);
                } else if a < pos {
                    assert(after[a] == before[a] && after[b] == before[b - 1]);
                    assert(goes_before(keys@, before[a] as int, before[b - 1] as int));
                } else if a == pos {
                    assert(after[b] == before[b - 1]);
                } else {
                    assert(after[a] == before[a - 1] && after[b] == before[b - 1]);
                    assert(goes_before(keys@, before[a - 1] as int, before[b - 1] as int));
                }
            }
        }
        k = k + 1;
    }
    order
}

/// Position `i` appears somewhere in `order`.
pub open spec fn lists_position(order: Seq<usize>, i: int) -> bool {
    exists|k: int| 0 <= k < order.len() && order[k] == i
}

/// A newest-first order lists each position exactly once: it is a
/// permutation of the positions.
pub proof fn lemma_newest_first_is_permutation(keys: Seq<i128>, order: Seq<usize>)
    requires
        is_newest_first(keys, order),
    ensures
        forall|a: int, b: int| 0 <= a < b < order.len() ==> order[a] != order[b],
        forall|i: int| 0 <= i < keys.len() ==> #[trigger] lists_position(order, i),
{
    let n = keys.len() as int;
    let s = order.map_values(|x: usize| x as int);
    assert forall|a: int, b: int| 0 <= a < b < order.len() implies order[a] != order[b] by {
        assert(goes_before(keys, order[a] as int, order[b] as int));
    }
    assert(s.no_duplicates()) by {
        assert forall|a: int, b: int| 0 <= a < s.len() && 0 <= b < s.len() && a != b implies s[a] != s[b] by {
            if a < b {
                assert(order[a] != order[b]);
            } else {
                assert(order[b] != order[a]);
            }
        }
    }
    s.unique_seq_to_set();
    lemma_int_range(0, n);
    assert(s.to_set().subset_of(set_int_range(0, n)));
    lemma_len_subset(s.to_set(), set_int_range(0, n));
    lemma_subset_equality(s.to_set(), set_int_range(0, n));
    assert forall|i: int| 0 <= i < keys.len() implies #[trigger] lists_position(order, i) by {
        assert(set_int_range(0, n).contains(i));
        assert(s.to_set().contains(i));
        let k = choose|k: int| 0 <= k < s.len() && s[k] == i;
        assert(order[k] == i);
    }
}

} // verus!
