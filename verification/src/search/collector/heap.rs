//! A binary heap laid out in a vector, with the entry that ranks last at the
//! root, and the in-place sort built on it.
//!
//! The bounded collector keeps its best `K` entries in such a heap, so that the
//! entry to give up next is found at once; merging sorts with it.

use crate::records::hits_of;
use crate::records::RowIdWithScore;
use crate::search::collector::ranking::comes_before;
use crate::search::collector::ranking::precedes;
use crate::search::collector::ranking::ranked;
use crate::search::collector::ranking::ranking;
use vstd::prelude::*;
use vstd::seq_lib::to_multiset_contains;
use vstd::seq_lib::to_multiset_update;

verus! {

/// Exchanges two entries of a vector: afterwards each of the two positions
/// holds what the other held, and no other position changed.
pub(crate) fn swap_entries(entries: &mut Vec<RowIdWithScore>, i: usize, j: usize)
    requires
        i < old(entries)@.len(),
        j < old(entries)@.len(),
    ensures
        final(entries)@ == swapped(old(entries)@, i as int, j as int),
{
    if i != j {
        let mut held = RowIdWithScore {
            row_id: 0,
            score_bits: 0,
            seg_id: 0,
            doc_id: 0,
            docs: Vec::new(),
        };
        entries.set_and_swap(i, &mut held);
        entries.set_and_swap(j, &mut held);
        entries.set_and_swap(i, &mut held);
    }
    proof {
        assert(entries@ =~= swapped(old(entries)@, i as int, j as int));
    }
}

/// `s` with the entries at `i` and `j` exchanged.
pub open spec fn swapped<T>(s: Seq<T>, i: int, j: int) -> Seq<T> {
    s.update(i, s[j]).update(j, s[i])
}

/// The index of the parent of node `j`.
pub open spec fn parent(j: int) -> int {
    (j - 1) / 2
}

/// Whether the entry at `a` may stand before the entry at `b`.
pub open spec fn ahead(s: Seq<RowIdWithScore>, a: int, b: int) -> bool {
    precedes(s[a].hit(), s[b].hit())
}

/// Whether node `j` may stand before its parent, as the heap asks.
pub open spec fn node_ok(s: Seq<RowIdWithScore>, j: int) -> bool {
    ahead(s, j, parent(j))
}

/// Whether, among the first `n` entries, every node whose parent is at index
/// `from` or later may stand before its parent. With `from == 0` the first `n`
/// entries form a heap whose root ranks last.
pub open spec fn heap_from(s: Seq<RowIdWithScore>, from: int, n: int) -> bool {
    forall|j: int| 1 <= j < n && parent(j) >= from ==> #[trigger] node_ok(s, j)
}

/// Exchanging two entries keeps the entries as a multiset.
proof fn lemma_swapped_multiset<T>(s: Seq<T>, i: int, j: int)
    requires
        0 <= i < s.len(),
        0 <= j < s.len(),
    ensures
        swapped(s, i, j).to_multiset() == s.to_multiset(),
        swapped(s, i, j).len() == s.len(),
{
    broadcast use vstd::multiset::group_multiset_axioms;

    let s1 = s.update(i, s[j]);
    to_multiset_update(s, i, s[j]);
    to_multiset_update(s1, j, s[i]);
    to_multiset_contains(s, s[i]);
    to_multiset_contains(s, s[j]);
    assert(s.contains(s[i]));
    assert(s.contains(s[j]));
    assert(swapped(s, i, j).to_multiset() =~= s.to_multiset());
}

/// Exchanging two entries keeps their hits as a multiset.
proof fn lemma_swapped_hits(s: Seq<RowIdWithScore>, i: int, j: int)
    requires
        0 <= i < s.len(),
        0 <= j < s.len(),
    ensures
        hits_of(swapped(s, i, j)).to_multiset() == hits_of(s).to_multiset(),
{
    lemma_swapped_multiset(hits_of(s), i, j);
    assert(hits_of(swapped(s, i, j)) =~= swapped(hits_of(s), i, j));
}

/// Exchanging two entries among the first `n` keeps the first `n` entries as a
/// multiset.
proof fn lemma_swapped_prefix(s: Seq<RowIdWithScore>, i: int, j: int, n: int)
    requires
        0 <= i < n <= s.len(),
        0 <= j < n,
    ensures
        swapped(s, i, j).subrange(0, n).to_multiset() == s.subrange(0, n).to_multiset(),
{
    let p = s.subrange(0, n);
    lemma_swapped_multiset(p, i, j);
    assert(swapped(s, i, j).subrange(0, n) =~= swapped(p, i, j));
}

/// Every entry of a sequence occurs in each sequence with the same multiset.
pub(crate) proof fn lemma_member_of_same_multiset<T>(a: Seq<T>, b: Seq<T>, i: int) -> (j: int)
    requires
        a.to_multiset() == b.to_multiset(),
        0 <= i < a.len(),
    ensures
        0 <= j < b.len(),
        b[j] == a[i],
{
    to_multiset_contains(a, a[i]);
    to_multiset_contains(b, a[i]);
    assert(a.contains(a[i]));
    assert(b.contains(a[i]));
    choose|j: int| 0 <= j < b.len() && b[j] == a[i]
}

/// In a heap every entry may stand before the root.
pub(crate) proof fn lemma_root_ranks_last(s: Seq<RowIdWithScore>, n: int, k: int)
    requires
        heap_from(s, 0, n),
        0 <= k < n <= s.len(),
    ensures
        ahead(s, k, 0),
    decreases k,
{
    if k > 0 {
        assert(node_ok(s, k));
        lemma_root_ranks_last(s, n, parent(k));
    }
}

/// Restores the heap below `start`: the entry at `start` sinks until it may
/// stand after both of its children.
pub(crate) fn sift_down(entries: &mut Vec<RowIdWithScore>, start: usize, n: usize)
    requires
        start < n <= old(entries)@.len(),
        heap_from(old(entries)@, start + 1, n as int),
    ensures
        final(entries)@.len() == old(entries)@.len(),
        heap_from(final(entries)@, start as int, n as int),
        final(entries)@.to_multiset() == old(entries)@.to_multiset(),
        hits_of(final(entries)@).to_multiset() == hits_of(old(entries)@).to_multiset(),
        final(entries)@.subrange(0, n as int).to_multiset() == old(entries)@.subrange(
            0,
            n as int,
        ).to_multiset(),
        forall|k: int|
            (0 <= k < start || n <= k < old(entries)@.len()) ==> final(entries)@[k] == old(
                entries,
            )@[k],
{
    let mut i: usize = start;
    while i < n / 2
        invariant
            start <= i < n <= entries@.len(),
            entries@.len() == old(entries)@.len(),
            entries@.to_multiset() == old(entries)@.to_multiset(),
            hits_of(entries@).to_multiset() == hits_of(old(entries)@).to_multiset(),
            entries@.subrange(0, n as int).to_multiset() == old(entries)@.subrange(
                0,
                n as int,
            ).to_multiset(),
            forall|k: int|
                (0 <= k < start || n <= k < old(entries)@.len()) ==> entries@[k] == old(
                    entries,
                )@[k],
            forall|j: int|
                1 <= j < n && parent(j) >= start && parent(j) != i ==> #[trigger] node_ok(
                    entries@,
                    j,
                ),
            i > start ==> parent(i as int) >= start,
            i > start && 2 * i + 1 < n ==> ahead(entries@, 2 * i + 1, parent(i as int)),
            i > start && 2 * i + 2 < n ==> ahead(entries@, 2 * i + 2, parent(i as int)),
        ensures
            entries@.len() == old(entries)@.len(),
            heap_from(entries@, start as int, n as int),
            entries@.to_multiset() == old(entries)@.to_multiset(),
            hits_of(entries@).to_multiset() == hits_of(old(entries)@).to_multiset(),
            entries@.subrange(0, n as int).to_multiset() == old(entries)@.subrange(
                0,
                n as int,
            ).to_multiset(),
            forall|k: int|
                (0 <= k < start || n <= k < old(entries)@.len()) ==> entries@[k] == old(
                    entries,
                )@[k],
        decreases n - i,
    {
        let left: usize = 2 * i + 1;
        let right: usize = left + 1;
        let mut worst: usize = left;
        if right < n && !comes_before(&entries[right], &entries[left]) {
            worst = right;
        }
        let ghost other = if worst == left {
            right as int
        } else {
            left as int
        };
        assert(other < n ==> ahead(entries@, other, worst as int));
        if comes_before(&entries[worst], &entries[i]) {
            proof {
                let s = entries@;
                assert forall|j: int| 1 <= j < n && parent(j) >= start implies #[trigger] node_ok(
                    s,
                    j,
                ) by {
                    if parent(j) == i {
                        assert(j == left || j == right);
                    }
                }
            }
            break;
        }
        let ghost before = entries@;
        swap_entries(entries, i, worst);
        proof {
            let s = entries@;
            lemma_swapped_multiset(before, i as int, worst as int);
            lemma_swapped_hits(before, i as int, worst as int);
            lemma_swapped_prefix(before, i as int, worst as int, n as int);
            assert forall|j: int|
                1 <= j < n && parent(j) >= start && parent(j) != worst implies #[trigger] node_ok(
                s,
                j,
            ) by {
                if parent(j) == i {
                    assert(j == left || j == right);
                } else if j == i {
                    assert(ahead(before, worst as int, parent(i as int)));
                } else {
                    assert(node_ok(before, j));
                }
            }
            if 2 * worst + 1 < n {
                assert(node_ok(before, 2 * worst + 1));
            }
            if 2 * worst + 2 < n {
                assert(node_ok(before, 2 * worst + 2));
            }
        }
        i = worst;
    }
}

/// Arranges the entries as a heap whose root ranks last.
pub(crate) fn heapify(entries: &mut Vec<RowIdWithScore>)
    ensures
        final(entries)@.len() == old(entries)@.len(),
        heap_from(final(entries)@, 0, final(entries)@.len() as int),
        final(entries)@.to_multiset() == old(entries)@.to_multiset(),
        hits_of(final(entries)@).to_multiset() == hits_of(old(entries)@).to_multiset(),
{
    let n: usize = entries.len();
    let mut k: usize = n / 2;
    while k > 0
        invariant
            k <= n / 2,
            n == entries@.len(),
            entries@.len() == old(entries)@.len(),
            heap_from(entries@, k as int, n as int),
            entries@.to_multiset() == old(entries)@.to_multiset(),
            hits_of(entries@).to_multiset() == hits_of(old(entries)@).to_multiset(),
        decreases k,
    {
        k -= 1;
        sift_down(entries, k, n);
    }
}

/// Replaces the root of a heap, the entry that ranks last, by `entry`, and
/// restores the heap.
pub(crate) fn replace_root(entries: &mut Vec<RowIdWithScore>, entry: RowIdWithScore)
    requires
        old(entries)@.len() > 0,
        heap_from(old(entries)@, 0, old(entries)@.len() as int),
    ensures
        final(entries)@.len() == old(entries)@.len(),
        heap_from(final(entries)@, 0, final(entries)@.len() as int),
        final(entries)@.to_multiset() == old(entries)@.update(0, entry).to_multiset(),
        hits_of(final(entries)@).to_multiset() == hits_of(
            old(entries)@.update(0, entry),
        ).to_multiset(),
{
    let n: usize = entries.len();
    let ghost before = entries@;
    entries.push(entry);
    swap_entries(entries, 0, n);
    let _ = entries.pop();
    proof {
        assert(entries@ =~= before.update(0, entry));
        assert forall|j: int| 1 <= j < n && parent(j) >= 1 implies #[trigger] node_ok(
            entries@,
            j,
        ) by {
            assert(node_ok(before, j));
        }
    }
    sift_down(entries, 0, n);
}

/// Sorts the entries into ranked order, best first.
pub fn sort_entries(entries: &mut Vec<RowIdWithScore>)
    ensures
        ranked(hits_of(final(entries)@)),
        final(entries)@.to_multiset() == old(entries)@.to_multiset(),
        hits_of(final(entries)@).to_multiset() == hits_of(old(entries)@).to_multiset(),
        final(entries)@.len() == old(entries)@.len(),
{
    heapify(entries);
    let n: usize = entries.len();
    let mut m: usize = n;
    while m > 1
        invariant
            m <= n,
            n == entries@.len(),
            entries@.len() == old(entries)@.len(),
            entries@.to_multiset() == old(entries)@.to_multiset(),
            hits_of(entries@).to_multiset() == hits_of(old(entries)@).to_multiset(),
            heap_from(entries@, 0, m as int),
            forall|a: int, b: int| m <= a <= b < n ==> #[trigger] ahead(entries@, a, b),
            forall|a: int, b: int| 0 <= a < m <= b < n ==> #[trigger] ahead(entries@, a, b),
        decreases m,
    {
        let ghost s0 = entries@;
        m -= 1;
        swap_entries(entries, 0, m);
        let ghost s1 = entries@;
        proof {
            lemma_swapped_multiset(s0, 0, m as int);
            lemma_swapped_hits(s0, 0, m as int);
            assert forall|j: int| 1 <= j < m && parent(j) >= 1 implies #[trigger] node_ok(s1, j) by {
                assert(node_ok(s0, j));
            }
        }
        sift_down(entries, 0, m);
        proof {
            let s2 = entries@;
            assert forall|a: int, b: int| m <= a <= b < n implies #[trigger] ahead(s2, a, b) by {
                if a == m {
                    if b > m {
                        assert(ahead(s0, 0, b));
                    }
                } else {
                    assert(ahead(s0, a, b));
                }
            }
            assert forall|a: int, b: int| 0 <= a < m <= b < n implies #[trigger] ahead(
                s2,
                a,
                b,
            ) by {
                let sifted = s2.subrange(0, m as int);
                let exchanged = s1.subrange(0, m as int);
                let a1 = lemma_member_of_same_multiset(sifted, exchanged, a);
                let a0 = if a1 == 0 { m as int } else { a1 };
                assert(s2[a] == sifted[a]);
                assert(exchanged[a1] == s1[a1]);
                assert(s1[a1] == s0[a0]);
                if b == m {
                    lemma_root_ranks_last(s0, m + 1, a0);
                } else {
                    assert(ahead(s0, a0, b));
                }
            }
        }
    }
    proof {
        let s = entries@;
        let h = hits_of(s);
        assert forall|i: int, j: int| 0 <= i < j < h.len() implies #[trigger] ranking()(
            h[i],
            h[j],
        ) by {
            assert(ahead(s, i, j));
        }
    }
}

} // verus!
