//! What a collector keeps of the documents that a query matched in one
//! segment.
//!
//! A matched document survives if its segment does not mark it as deleted and
//! the row filter admits its row id. The unbounded collectors keep every
//! survivor; the bounded collectors keep the `K` survivors that rank first.

use crate::records::Hit;
use crate::records::hits_of;
use crate::records::RowIdWithScore;
use crate::search::collector::heap::heap_from;
use crate::search::collector::heap::heapify;
use crate::search::collector::heap::lemma_member_of_same_multiset;
use crate::search::collector::heap::lemma_root_ranks_last;
use crate::search::collector::heap::replace_root;
use crate::search::collector::ranking::comes_before;
use crate::search::collector::ranking::lemma_score_rank_injective;
use crate::search::collector::ranking::lemma_ranked_unique;
use crate::search::collector::ranking::precedes;
use crate::search::collector::ranking::ranked;
use crate::search::collector::ranking::ranking;
use crate::search::collector::ranking::score_rank;
use crate::search::collector::row_filter::RowFilter;
use crate::search::index_access::Candidate;
use vstd::prelude::*;
use vstd::seq_lib::to_multiset_build;
use vstd::seq_lib::to_multiset_contains;
use vstd::seq_lib::to_multiset_len;
use vstd::seq_lib::to_multiset_update;

verus! {

/// Whether a matched document survives: it is not deleted, and the filter
/// admits its row.
pub open spec fn survives(filter: RowFilter, candidate: Candidate) -> bool {
    !candidate.deleted && filter.admits(candidate.row_id)
}

/// The hit that a matched document of segment `segment_ord` stands for.
pub open spec fn hit_of(candidate: Candidate, segment_ord: u32) -> Hit {
    Hit {
        row_id: candidate.row_id,
        score_bits: candidate.score_bits,
        seg_id: segment_ord,
        doc_id: candidate.doc_id,
    }
}

/// The hits of the matched documents that survive, in the order of the scan.
pub open spec fn survivors(filter: RowFilter, candidates: Seq<Candidate>, segment_ord: u32) -> Seq<
    Hit,
> {
    candidates.filter(|candidate: Candidate| survives(filter, candidate)).map_values(
        |candidate: Candidate| hit_of(candidate, segment_ord),
    )
}

/// Whether `kept` is a choice of the `limit` best of `all`: it holds `limit`
/// hits, or all of them if there are fewer; it holds no hit more often than
/// `all` does; and each hit that it holds may stand before each hit of `all`
/// that it leaves out.
pub open spec fn best_of(kept: Seq<Hit>, all: Seq<Hit>, limit: nat) -> bool {
    &&& kept.len() == if all.len() <= limit {
        all.len()
    } else {
        limit
    }
    &&& forall|h: Hit| #[trigger] kept.to_multiset().count(h) <= all.to_multiset().count(h)
    &&& forall|k: Hit, d: Hit|
        kept.to_multiset().count(k) > 0 && kept.to_multiset().count(d) < all.to_multiset().count(d)
            ==> #[trigger] precedes(k, d)
}

/// Whether every entry names `segment_ord` as the segment it comes from.
pub open spec fn from_segment(entries: Seq<RowIdWithScore>, segment_ord: u32) -> bool {
    forall|i: int| 0 <= i < entries.len() ==> (#[trigger] entries[i]).seg_id == segment_ord
}

/// Whether every entry names a segment whose ordinal is below `segments`.
pub open spec fn segments_below(entries: Seq<RowIdWithScore>, segments: nat) -> bool {
    forall|i: int| 0 <= i < entries.len() ==> (#[trigger] entries[i]).seg_id < segments
}

/// Whether none of the entries carries stored text.
pub open spec fn without_text(entries: Seq<RowIdWithScore>) -> bool {
    forall|i: int| 0 <= i < entries.len() ==> (#[trigger] entries[i]).docs@.len() == 0
}

/// The survivors of a scan are those of the scan without its last document,
/// and the hit of the last document if it survives.
proof fn lemma_survivors_last(filter: RowFilter, candidates: Seq<Candidate>, seg: u32)
    ensures
        candidates.len() == 0 ==> survivors(filter, candidates, seg) == Seq::<Hit>::empty(),
        candidates.len() > 0 ==> survivors(filter, candidates, seg) == if survives(
            filter,
            candidates.last(),
        ) {
            survivors(filter, candidates.drop_last(), seg).push(hit_of(candidates.last(), seg))
        } else {
            survivors(filter, candidates.drop_last(), seg)
        },
{
    reveal(Seq::filter);
    let passes = |candidate: Candidate| survives(filter, candidate);
    let as_hit = |candidate: Candidate| hit_of(candidate, seg);
    if candidates.len() == 0 {
        assert(survivors(filter, candidates, seg) =~= Seq::<Hit>::empty());
    } else if survives(filter, candidates.last()) {
        let earlier = candidates.drop_last().filter(passes);
        assert(earlier.push(candidates.last()).map_values(as_hit) =~= earlier.map_values(
            as_hit,
        ).push(hit_of(candidates.last(), seg)));
    }
}

/// Extending the scan by one document extends the survivors by its hit, if it
/// survives.
proof fn lemma_survivors_step(filter: RowFilter, candidates: Seq<Candidate>, i: int, seg: u32)
    requires
        0 <= i < candidates.len(),
    ensures
        survivors(filter, candidates.take(i + 1), seg) == if survives(filter, candidates[i]) {
            survivors(filter, candidates.take(i), seg).push(hit_of(candidates[i], seg))
        } else {
            survivors(filter, candidates.take(i), seg)
        },
{
    assert(candidates.take(i + 1).drop_last() == candidates.take(i));
    lemma_survivors_last(filter, candidates.take(i + 1), seg);
}

/// Keeps every survivor of a segment, in the order of the scan and without
/// stored text.
pub fn keep_all(filter: &RowFilter, candidates: &Vec<Candidate>, segment_ord: u32) -> (kept: Vec<
    RowIdWithScore,
>)
    ensures
        hits_of(kept@) == survivors(*filter, candidates@, segment_ord),
        without_text(kept@),
{
    let mut kept: Vec<RowIdWithScore> = Vec::new();
    let mut i: usize = 0;
    proof {
        lemma_survivors_last(*filter, candidates@.take(0), segment_ord);
        assert(hits_of(kept@) =~= Seq::<Hit>::empty());
    }
    while i < candidates.len()
        invariant
            i <= candidates.len(),
            hits_of(kept@) == survivors(*filter, candidates@.take(i as int), segment_ord),
            without_text(kept@),
        decreases candidates.len() - i,
    {
        let candidate: Candidate = candidates[i];
        proof {
            lemma_survivors_step(*filter, candidates@, i as int, segment_ord);
        }
        if !candidate.deleted && filter.is_alive(candidate.row_id) {
            let ghost before = kept@;
            kept.push(
                RowIdWithScore {
                    row_id: candidate.row_id,
                    score_bits: candidate.score_bits,
                    seg_id: segment_ord,
                    doc_id: candidate.doc_id,
                    docs: Vec::new(),
                },
            );
            assert(hits_of(kept@) =~= hits_of(before).push(hit_of(candidate, segment_ord)));
        }
        i += 1;
    }
    proof {
        assert(candidates@.take(candidates.len() as int) == candidates@);
    }
    kept
}

/// Whether each hit of `kept` may stand before each hit of `dropped`.
spec fn all_precede(kept: Seq<Hit>, dropped: Seq<Hit>) -> bool {
    forall|a: int, b: int|
        0 <= a < kept.len() && 0 <= b < dropped.len() ==> precedes(
            #[trigger] kept[a],
            #[trigger] dropped[b],
        )
}

/// Rearranging the kept hits does not change that each may stand before each
/// dropped hit.
proof fn lemma_precede_rearranged(kept: Seq<Hit>, was: Seq<Hit>, dropped: Seq<Hit>)
    requires
        kept.to_multiset() == was.to_multiset(),
        all_precede(was, dropped),
    ensures
        all_precede(kept, dropped),
{
    assert forall|a: int, b: int|
        0 <= a < kept.len() && 0 <= b < dropped.len() implies precedes(
        #[trigger] kept[a],
        #[trigger] dropped[b],
    ) by {
        let at = lemma_member_of_same_multiset(kept, was, a);
    }
}

/// Rearranging entries without stored text leaves them without stored text.
proof fn lemma_without_text_rearranged(entries: Seq<RowIdWithScore>, was: Seq<RowIdWithScore>)
    requires
        entries.to_multiset() == was.to_multiset(),
        without_text(was),
    ensures
        without_text(entries),
{
    assert forall|i: int| 0 <= i < entries.len() implies (#[trigger] entries[i]).docs@.len()
        == 0 by {
        let at = lemma_member_of_same_multiset(entries, was, i);
    }
}

/// In a heap of hits that may each stand before each dropped hit, the root
/// may be dropped too: every hit may stand before the root.
proof fn lemma_drop_root(kept: Seq<RowIdWithScore>, dropped: Seq<Hit>)
    requires
        kept.len() > 0,
        heap_from(kept, 0, kept.len() as int),
        all_precede(hits_of(kept), dropped),
    ensures
        all_precede(hits_of(kept), dropped.push(kept[0].hit())),
{
    let more = dropped.push(kept[0].hit());
    assert forall|a: int, b: int|
        0 <= a < kept.len() && 0 <= b < more.len() implies precedes(
        #[trigger] hits_of(kept)[a],
        #[trigger] more[b],
    ) by {
        if b == dropped.len() {
            lemma_root_ranks_last(kept, kept.len() as int, a);
        } else {
            assert(more[b] == dropped[b]);
        }
    }
}

/// Keeps the `limit` survivors of a segment that rank first, without stored
/// text and in no particular order.
///
/// The survivors kept so far lie in a heap whose root ranks last among them.
/// Once the heap holds `limit` entries, a new survivor replaces the root if
/// the root may not stand before it, and is dropped otherwise.
pub fn keep_best(filter: &RowFilter, limit: usize, candidates: &Vec<Candidate>, segment_ord: u32)
    -> (kept: Vec<RowIdWithScore>)
    ensures
        best_of(hits_of(kept@), survivors(*filter, candidates@, segment_ord), limit as nat),
        without_text(kept@),
{
    let mut kept: Vec<RowIdWithScore> = Vec::new();
    let ghost mut dropped: Seq<Hit> = Seq::empty();
    let mut i: usize = 0;
    proof {
        broadcast use vstd::multiset::group_multiset_axioms;

        lemma_survivors_last(*filter, candidates@.take(0), segment_ord);
        assert(hits_of(kept@) =~= dropped);
        to_multiset_len(dropped);
        vstd::multiset::lemma_multiset_empty_len(dropped.to_multiset());
        assert(hits_of(kept@).to_multiset().add(dropped.to_multiset()) =~= dropped.to_multiset());
    }
    while i < candidates.len()
        invariant
            i <= candidates.len(),
            kept@.len() <= limit,
            hits_of(kept@).to_multiset().add(dropped.to_multiset()) == survivors(
                *filter,
                candidates@.take(i as int),
                segment_ord,
            ).to_multiset(),
            kept@.len() < limit ==> dropped.len() == 0,
            kept@.len() == limit ==> heap_from(kept@, 0, limit as int),
            all_precede(hits_of(kept@), dropped),
            without_text(kept@),
        decreases candidates.len() - i,
    {
        let candidate: Candidate = candidates[i];
        proof {
            lemma_survivors_step(*filter, candidates@, i as int, segment_ord);
        }
        if !candidate.deleted && filter.is_alive(candidate.row_id) {
            let entry = RowIdWithScore {
                row_id: candidate.row_id,
                score_bits: candidate.score_bits,
                seg_id: segment_ord,
                doc_id: candidate.doc_id,
                docs: Vec::new(),
            };
            let ghost hit = hit_of(candidate, segment_ord);
            let ghost before = kept@;
            let ghost seen = survivors(*filter, candidates@.take(i as int), segment_ord);
            proof {
                broadcast use vstd::multiset::group_multiset_axioms;

                assert(entry.hit() == hit);
                to_multiset_build(seen, hit);
            }
            if kept.len() < limit {
                kept.push(entry);
                let ghost pushed = kept@;
                proof {
                    broadcast use vstd::multiset::group_multiset_axioms;

                    assert(hits_of(pushed) =~= hits_of(before).push(hit));
                    to_multiset_build(hits_of(before), hit);
                    assert(hits_of(pushed).to_multiset().add(dropped.to_multiset())
                        =~= seen.to_multiset().insert(hit));
                }
                if kept.len() == limit {
                    heapify(&mut kept);
                    proof {
                        lemma_without_text_rearranged(kept@, pushed);
                    }
                }
            } else if limit > 0 && !comes_before(&kept[0], &entry) {
                replace_root(&mut kept, entry);
                proof {
                    broadcast use vstd::multiset::group_multiset_axioms;

                    let root = before[0].hit();
                    let replaced = before.update(0, entry);
                    assert(hits_of(replaced) =~= hits_of(before).update(0, hit));
                    to_multiset_update(hits_of(before), 0, hit);
                    to_multiset_contains(hits_of(before), root);
                    assert(hits_of(before)[0] == root);
                    to_multiset_build(dropped, root);
                    assert(hits_of(kept@).to_multiset().add(dropped.push(root).to_multiset())
                        =~= seen.to_multiset().insert(hit));
                    lemma_drop_root(before, dropped);
                    assert forall|a: int, b: int|
                        0 <= a < replaced.len() && 0 <= b < dropped.len() + 1 implies precedes(
                        #[trigger] hits_of(replaced)[a],
                        #[trigger] dropped.push(root)[b],
                    ) by {
                        if a == 0 {
                            assert(precedes(hit, root));
                            assert(precedes(hits_of(before)[0], dropped.push(root)[b]));
                        } else {
                            assert(hits_of(replaced)[a] == hits_of(before)[a]);
                        }
                    }
                    lemma_precede_rearranged(hits_of(kept@), hits_of(replaced), dropped.push(root));
                    lemma_without_text_rearranged(kept@, replaced);
                    dropped = dropped.push(root);
                }
            } else {
                proof {
                    broadcast use vstd::multiset::group_multiset_axioms;

                    to_multiset_build(dropped, hit);
                    assert(hits_of(kept@).to_multiset().add(dropped.push(hit).to_multiset())
                        =~= seen.to_multiset().insert(hit));
                    if limit > 0 {
                        lemma_drop_root(kept@, dropped);
                        assert forall|a: int, b: int|
                            0 <= a < kept@.len() && 0 <= b < dropped.len() + 1 implies precedes(
                            #[trigger] hits_of(kept@)[a],
                            #[trigger] dropped.push(hit)[b],
                        ) by {
                            if b == dropped.len() {
                                assert(precedes(hits_of(kept@)[a], dropped.push(kept@[0].hit())[b]));
                            } else {
                                assert(dropped.push(hit)[b] == dropped[b]);
                            }
                        }
                    }
                    dropped = dropped.push(hit);
                }
            }
        }
        i += 1;
    }
    proof {
        assert(candidates@.take(candidates.len() as int) == candidates@);
        lemma_split_is_best(
            hits_of(kept@),
            dropped,
            survivors(*filter, candidates@, segment_ord),
            limit as nat,
        );
    }
    kept
}

/// If `all` splits into `kept` and `dropped`, each kept hit may stand before
/// each dropped one, and nothing was dropped while there was room, then `kept`
/// is a choice of the `limit` best of `all`.
proof fn lemma_split_is_best(kept: Seq<Hit>, dropped: Seq<Hit>, all: Seq<Hit>, limit: nat)
    requires
        kept.to_multiset().add(dropped.to_multiset()) == all.to_multiset(),
        kept.len() <= limit,
        kept.len() < limit ==> dropped.len() == 0,
        all_precede(kept, dropped),
    ensures
        best_of(kept, all, limit),
{
    broadcast use vstd::multiset::group_multiset_axioms;

    to_multiset_len(kept);
    to_multiset_len(dropped);
    to_multiset_len(all);
    assert forall|k: Hit, d: Hit|
        kept.to_multiset().count(k) > 0 && kept.to_multiset().count(d) < all.to_multiset().count(
            d,
        ) implies #[trigger] precedes(k, d) by {
        to_multiset_contains(kept, k);
        to_multiset_contains(dropped, d);
        let a = choose|a: int| 0 <= a < kept.len() && kept[a] == k;
        let b = choose|b: int| 0 <= b < dropped.len() && dropped[b] == d;
        assert(precedes(kept[a], dropped[b]));
    }
}

/// Every survivor is the hit of a matched document that survives: nothing is
/// returned that did not match, is deleted, or is refused by the filter.
pub proof fn lemma_survivor_origin(
    filter: RowFilter,
    candidates: Seq<Candidate>,
    segment_ord: u32,
    k: int,
) -> (j: int)
    requires
        0 <= k < survivors(filter, candidates, segment_ord).len(),
    ensures
        0 <= j < candidates.len(),
        survives(filter, candidates[j]),
        survivors(filter, candidates, segment_ord)[k] == hit_of(candidates[j], segment_ord),
    decreases candidates.len(),
{
    lemma_survivors_last(filter, candidates, segment_ord);
    let earlier = survivors(filter, candidates.drop_last(), segment_ord);
    if k < earlier.len() {
        lemma_survivor_origin(filter, candidates.drop_last(), segment_ord, k)
    } else {
        candidates.len() - 1
    }
}

/// The hit of every matched document that survives is among the survivors:
/// nothing that passes is left out, however many pass.
pub proof fn lemma_surviving_candidate_kept(
    filter: RowFilter,
    candidates: Seq<Candidate>,
    segment_ord: u32,
    j: int,
) -> (k: int)
    requires
        0 <= j < candidates.len(),
        survives(filter, candidates[j]),
    ensures
        0 <= k < survivors(filter, candidates, segment_ord).len(),
        survivors(filter, candidates, segment_ord)[k] == hit_of(candidates[j], segment_ord),
    decreases candidates.len(),
{
    lemma_survivors_last(filter, candidates, segment_ord);
    let earlier = survivors(filter, candidates.drop_last(), segment_ord);
    if j < candidates.len() - 1 {
        lemma_surviving_candidate_kept(filter, candidates.drop_last(), segment_ord, j)
    } else {
        earlier.len() as int
    }
}

/// There are no more survivors than matched documents.
pub proof fn lemma_survivors_count(filter: RowFilter, candidates: Seq<Candidate>, segment_ord: u32)
    ensures
        survivors(filter, candidates, segment_ord).len() <= candidates.len(),
{
    candidates.lemma_filter_len(|candidate: Candidate| survives(filter, candidate));
}

/// A choice of the best holds no more than `limit` hits, and no more than
/// there are.
pub proof fn lemma_best_is_bounded(kept: Seq<Hit>, all: Seq<Hit>, limit: nat)
    requires
        best_of(kept, all, limit),
    ensures
        kept.len() <= limit,
        kept.len() <= all.len(),
{
}

/// Every hit of a choice of the best is one of the hits it was chosen from.
pub proof fn lemma_best_is_chosen_from(kept: Seq<Hit>, all: Seq<Hit>, limit: nat, a: int) -> (k:
    int)
    requires
        best_of(kept, all, limit),
        0 <= a < kept.len(),
    ensures
        0 <= k < all.len(),
        all[k] == kept[a],
{
    to_multiset_contains(kept, kept[a]);
    to_multiset_contains(all, kept[a]);
    assert(kept.contains(kept[a]));
    assert(kept.to_multiset().count(kept[a]) <= all.to_multiset().count(kept[a]));
    choose|k: int| 0 <= k < all.len() && all[k] == kept[a]
}

/// No hit that a choice of the best leaves out has a higher score than a hit
/// that it holds.
pub proof fn lemma_best_scores_dominate(kept: Seq<Hit>, all: Seq<Hit>, limit: nat, k: Hit, d: Hit)
    requires
        best_of(kept, all, limit),
        kept.to_multiset().count(k) > 0,
        kept.to_multiset().count(d) < all.to_multiset().count(d),
    ensures
        score_rank(k.score_bits) >= score_rank(d.score_bits),
{
    assert(precedes(k, d));
}

/// With a limit that is not below the number of hits, a choice of the best
/// leaves nothing out: the bounded collector then keeps what the unbounded
/// collector keeps.
pub proof fn lemma_best_keeps_all_within_limit(kept: Seq<Hit>, all: Seq<Hit>, limit: nat)
    requires
        best_of(kept, all, limit),
        all.len() <= limit,
    ensures
        kept.to_multiset() == all.to_multiset(),
{
    lemma_within_same_size(kept, all);
}

/// A multiset that lies within another of the same size is that multiset.
proof fn lemma_within_same_size<T>(inner: Seq<T>, outer: Seq<T>)
    requires
        forall|x: T| #[trigger] inner.to_multiset().count(x) <= outer.to_multiset().count(x),
        inner.len() == outer.len(),
    ensures
        inner.to_multiset() == outer.to_multiset(),
{
    broadcast use vstd::multiset::group_multiset_axioms;

    to_multiset_len(inner);
    to_multiset_len(outer);
    let rest = outer.to_multiset().sub(inner.to_multiset());
    assert(inner.to_multiset().subset_of(outer.to_multiset()));
    assert(rest.len() == 0);
    vstd::multiset::lemma_multiset_empty_len(rest);
    assert forall|x: T| inner.to_multiset().count(x) == outer.to_multiset().count(x) by {
        assert(rest.count(x) == 0);
        assert(inner.to_multiset().count(x) <= outer.to_multiset().count(x));
    }
    assert(inner.to_multiset() =~= outer.to_multiset());
}

/// There is one choice of the best: two choices of the `limit` best of the
/// same hits hold the same hits, each as often as the other does.
pub proof fn lemma_best_unique(first: Seq<Hit>, second: Seq<Hit>, all: Seq<Hit>, limit: nat)
    requires
        best_of(first, all, limit),
        best_of(second, all, limit),
    ensures
        first.to_multiset() == second.to_multiset(),
{
    let one = first.to_multiset();
    let two = second.to_multiset();
    if exists|h: Hit| one.count(h) > two.count(h) {
        let h = choose|h: Hit| one.count(h) > two.count(h);
        if exists|g: Hit| two.count(g) > one.count(g) {
            let g = choose|g: Hit| two.count(g) > one.count(g);
            assert(one.count(h) <= all.to_multiset().count(h));
            assert(two.count(g) <= all.to_multiset().count(g));
            assert(precedes(g, h));
            assert(precedes(h, g));
            lemma_score_rank_injective(g.score_bits, h.score_bits);
            assert(g == h);
        } else {
            assert forall|x: Hit| #[trigger] two.count(x) <= one.count(x) by {}
            lemma_within_same_size(second, first);
        }
    } else {
        assert forall|x: Hit| #[trigger] one.count(x) <= two.count(x) by {}
        lemma_within_same_size(first, second);
    }
}

/// The ranked choice of the best is the beginning of the ranked whole: if
/// `whole` is all hits in ranked order and `best` a choice of the `limit` best
/// of them in ranked order, then `best` is the first `limit` hits of `whole`,
/// or all of them if there are fewer. The bounded collector drops nothing
/// that ranks within the first `limit` of what the unbounded collector keeps.
pub proof fn lemma_best_are_first_of_ranked(
    whole: Seq<Hit>,
    best: Seq<Hit>,
    all: Seq<Hit>,
    limit: nat,
)
    requires
        ranked(whole),
        whole.to_multiset() == all.to_multiset(),
        ranked(best),
        best_of(best, all, limit),
    ensures
        best == whole.take(best.len() as int),
        best.len() == if whole.len() <= limit {
            whole.len()
        } else {
            limit
        },
{
    broadcast use vstd::multiset::group_multiset_axioms;

    to_multiset_len(whole);
    to_multiset_len(all);
    let m = best.len() as int;
    let first = whole.take(m);
    let rest = whole.skip(m);
    assert(first + rest =~= whole);
    vstd::seq_lib::lemma_multiset_commutative(first, rest);
    assert forall|i: int, j: int| 0 <= i < j < first.len() implies #[trigger] ranking()(
        first[i],
        first[j],
    ) by {
        assert(ranking()(whole[i], whole[j]));
    }
    assert forall|h: Hit| #[trigger] first.to_multiset().count(h) <= all.to_multiset().count(
        h,
    ) by {}
    assert forall|k: Hit, d: Hit|
        first.to_multiset().count(k) > 0 && first.to_multiset().count(d) < all.to_multiset().count(
            d,
        ) implies #[trigger] precedes(k, d) by {
        to_multiset_contains(first, k);
        to_multiset_contains(rest, d);
        let i = choose|i: int| 0 <= i < first.len() && first[i] == k;
        let j = choose|j: int| 0 <= j < rest.len() && rest[j] == d;
        assert(ranking()(whole[i], whole[m + j]));
    }
    assert(best_of(first, all, limit));
    lemma_best_unique(first, best, all, limit);
    lemma_ranked_unique(first, best);
}

} // verus!
