//! The order in which results are ranked.
//!
//! Entries are ordered by score, best first. Entries with the same score are
//! ordered by ascending row id, then segment ordinal, then document id, so
//! that the order of a merged result does not depend on how it was computed.

use crate::records::Hit;
use crate::records::RowIdWithScore;
use vstd::prelude::*;
use vstd::relations::sorted_by;
use vstd::relations::total_ordering;
use vstd::seq_lib::lemma_sorted_unique;

verus! {

/// The position of a score among all scores, as a number that grows with the
/// score.
///
/// `bits` is the IEEE-754 bit pattern of a single-precision number. Patterns
/// with a clear sign bit grow with the number they encode, so they keep their
/// order and are moved above all patterns with the sign bit set; those encode
/// negative numbers and shrink as the pattern grows, so their order is
/// reversed. The two zeros are two patterns, and the negative zero ranks
/// directly below the positive one.
pub open spec fn score_rank(bits: u32) -> int {
    if bits < 0x8000_0000 {
        bits + 0x8000_0000
    } else {
        0xFFFF_FFFF - bits
    }
}

/// Computes [`score_rank`].
pub fn rank_of_score(bits: u32) -> (rank: u32)
    ensures
        rank == score_rank(bits),
{
    if bits < 0x8000_0000 {
        bits + 0x8000_0000
    } else {
        0xFFFF_FFFF - bits
    }
}

/// Whether `a` may stand before `b` in a ranked result: `a` has the higher
/// score, or the scores are equal and `a` does not come after `b` by row id,
/// segment ordinal and document id.
pub open spec fn precedes(a: Hit, b: Hit) -> bool {
    let ra = score_rank(a.score_bits);
    let rb = score_rank(b.score_bits);
    ||| ra > rb
    ||| (ra == rb && a.row_id < b.row_id)
    ||| (ra == rb && a.row_id == b.row_id && a.seg_id < b.seg_id)
    ||| (ra == rb && a.row_id == b.row_id && a.seg_id == b.seg_id && a.doc_id <= b.doc_id)
}

/// The ranking as a relation: [`precedes`].
pub open spec fn ranking() -> spec_fn(Hit, Hit) -> bool {
    |a: Hit, b: Hit| precedes(a, b)
}

/// Whether `hits` is in ranked order: every hit may stand before all that
/// follow it.
pub open spec fn ranked(hits: Seq<Hit>) -> bool {
    sorted_by(hits, ranking())
}

/// Decides [`precedes`] for two entries.
pub fn comes_before(a: &RowIdWithScore, b: &RowIdWithScore) -> (before: bool)
    ensures
        before == precedes(a.hit(), b.hit()),
{
    let ra: u32 = rank_of_score(a.score_bits);
    let rb: u32 = rank_of_score(b.score_bits);
    if ra != rb {
        ra > rb
    } else if a.row_id != b.row_id {
        a.row_id < b.row_id
    } else if a.seg_id != b.seg_id {
        a.seg_id < b.seg_id
    } else {
        a.doc_id <= b.doc_id
    }
}

/// Scores of different bit patterns have different ranks.
pub proof fn lemma_score_rank_injective(a: u32, b: u32)
    ensures
        score_rank(a) == score_rank(b) ==> a == b,
{
}

/// The ranking is a total order: it relates every two hits, in one direction
/// only unless they are the same hit, and it is transitive.
pub proof fn lemma_ranking_is_total_order()
    ensures
        total_ordering(ranking()),
{
    let r = ranking();
    assert forall|a: Hit, b: Hit| #[trigger] r(a, b) && #[trigger] r(b, a) implies a == b by {
        lemma_score_rank_injective(a.score_bits, b.score_bits);
    }
    assert forall|a: Hit, b: Hit| #[trigger] r(a, b) || #[trigger] r(b, a) by {}
    assert forall|a: Hit, b: Hit, c: Hit| #[trigger] r(a, b) && #[trigger] r(b, c) implies r(
        a,
        c,
    ) by {}
    assert forall|a: Hit| #[trigger] r(a, a) by {}
}

/// There is one ranked order of given hits: two ranked sequences that hold
/// the same hits, each as often as the other does, are the same sequence.
pub proof fn lemma_ranked_unique(first: Seq<Hit>, second: Seq<Hit>)
    requires
        ranked(first),
        ranked(second),
        first.to_multiset() == second.to_multiset(),
    ensures
        first == second,
{
    lemma_ranking_is_total_order();
    lemma_sorted_unique(first, second, ranking());
}

/// In a ranked sequence the scores do not rise.
pub proof fn lemma_ranked_scores_descend(hits: Seq<Hit>, i: int, j: int)
    requires
        ranked(hits),
        0 <= i <= j < hits.len(),
    ensures
        score_rank(hits[i].score_bits) >= score_rank(hits[j].score_bits),
{
    if i < j {
        assert(ranking()(hits[i], hits[j]));
    }
}

/// Scores that are not negative rank in the order of their bit patterns, and
/// above every negative score.
pub proof fn lemma_score_rank_order(a: u32, b: u32)
    ensures
        a < b < 0x8000_0000 ==> score_rank(a) < score_rank(b),
        0x8000_0000 <= a < b ==> score_rank(a) > score_rank(b),
        a < 0x8000_0000 <= b ==> score_rank(a) > score_rank(b),
        0 <= score_rank(a) <= 0xFFFF_FFFF,
{
}

} // verus!
