//! Merging the results of the segments into one ranked result.

use crate::records::hits_of;
use crate::records::RowIdWithScore;
use crate::search::collector::heap::lemma_member_of_same_multiset;
use crate::search::collector::heap::sort_entries;
use crate::search::collector::ranking::lemma_ranked_unique;
use crate::search::collector::ranking::ranked;
use crate::search::collector::row_filter::RowFilter;
use crate::search::collector::segment_collect::segments_below;
use crate::search::collector::stored_text::TextSource;
use vstd::prelude::*;
use vstd::seq_lib::lemma_multiset_commutative;

verus! {

/// The results of all segments, one after the other.
pub open spec fn concatenation(fruits: Seq<Vec<RowIdWithScore>>) -> Seq<RowIdWithScore> {
    fruits.map_values(|fruit: Vec<RowIdWithScore>| fruit@).flatten()
}

/// The concatenation of no results is empty; that of some results is the
/// concatenation of all but the last, and then the last.
proof fn lemma_concatenation_last(fruits: Seq<Vec<RowIdWithScore>>)
    ensures
        fruits.len() == 0 ==> concatenation(fruits) == Seq::<RowIdWithScore>::empty(),
        fruits.len() > 0 ==> concatenation(fruits) == concatenation(fruits.drop_last())
            + fruits.last()@,
{
    let views = fruits.map_values(|fruit: Vec<RowIdWithScore>| fruit@);
    if fruits.len() > 0 {
        let earlier = fruits.drop_last().map_values(|fruit: Vec<RowIdWithScore>| fruit@);
        assert(views.drop_last() =~= earlier);
        views.lemma_flatten_and_flatten_alt_are_equivalent();
        earlier.lemma_flatten_and_flatten_alt_are_equivalent();
    }
}

/// The concatenation of one result is that result.
pub proof fn lemma_concatenation_of_one(fruits: Seq<Vec<RowIdWithScore>>)
    requires
        fruits.len() == 1,
    ensures
        concatenation(fruits) == fruits[0]@,
{
    lemma_concatenation_last(fruits);
    lemma_concatenation_last(fruits.drop_last());
    assert(concatenation(fruits) =~= fruits[0]@);
}

/// The concatenation of no results is empty; each further result adds its
/// length.
pub(crate) proof fn lemma_concatenation_length(fruits: Seq<Vec<RowIdWithScore>>)
    ensures
        fruits.len() == 0 ==> concatenation(fruits).len() == 0,
        fruits.len() > 0 ==> concatenation(fruits).len() == concatenation(
            fruits.drop_last(),
        ).len() + fruits.last()@.len(),
{
    lemma_concatenation_last(fruits);
}

/// Whether the filter admits the row of every entry.
pub open spec fn all_admitted(filter: RowFilter, entries: Seq<RowIdWithScore>) -> bool {
    forall|i: int| 0 <= i < entries.len() ==> filter.admits((#[trigger] entries[i]).row_id)
}

/// Every entry of a concatenation is an entry of one of the results.
pub proof fn lemma_concatenation_member(fruits: Seq<Vec<RowIdWithScore>>, k: int) -> (at: (
    int,
    int,
))
    requires
        0 <= k < concatenation(fruits).len(),
    ensures
        0 <= at.0 < fruits.len(),
        0 <= at.1 < fruits[at.0]@.len(),
        fruits[at.0]@[at.1] == concatenation(fruits)[k],
    decreases fruits.len(),
{
    lemma_concatenation_last(fruits);
    let earlier = concatenation(fruits.drop_last());
    if k < earlier.len() {
        lemma_concatenation_member(fruits.drop_last(), k)
    } else {
        (fruits.len() - 1, k - earlier.len())
    }
}

/// Every entry of one of the results is an entry of the concatenation.
pub proof fn lemma_member_of_concatenation(fruits: Seq<Vec<RowIdWithScore>>, a: int, b: int) -> (k:
    int)
    requires
        0 <= a < fruits.len(),
        0 <= b < fruits[a]@.len(),
    ensures
        0 <= k < concatenation(fruits).len(),
        concatenation(fruits)[k] == fruits[a]@[b],
    decreases fruits.len(),
{
    lemma_concatenation_last(fruits);
    let earlier = concatenation(fruits.drop_last());
    if a < fruits.len() - 1 {
        lemma_member_of_concatenation(fruits.drop_last(), a, b)
    } else {
        earlier.len() + b
    }
}

/// Whether `rest` and `taken` together hold the entries of `all`, and their
/// hits the hits of `all`, each as often as `all` does.
spec fn gathered(
    rest: Seq<RowIdWithScore>,
    taken: Seq<RowIdWithScore>,
    all: Seq<RowIdWithScore>,
) -> bool {
    &&& rest.to_multiset().add(taken.to_multiset()) == all.to_multiset()
    &&& hits_of(rest).to_multiset().add(hits_of(taken).to_multiset()) == hits_of(
        all,
    ).to_multiset()
}

/// Two sequences together hold what they hold one after the other.
proof fn lemma_gathered(rest: Seq<RowIdWithScore>, taken: Seq<RowIdWithScore>)
    ensures
        gathered(rest, taken, rest + taken),
{
    lemma_multiset_commutative(rest, taken);
    lemma_multiset_commutative(hits_of(rest), hits_of(taken));
    assert(hits_of(rest + taken) =~= hits_of(rest) + hits_of(taken));
}

/// Moving the end of the rest to the end of what was taken changes nothing
/// in what both hold together.
proof fn lemma_gathered_moves(
    rest: Seq<RowIdWithScore>,
    moved: Seq<RowIdWithScore>,
    taken: Seq<RowIdWithScore>,
)
    ensures
        forall|all: Seq<RowIdWithScore>|
            gathered(rest + moved, taken, all) ==> #[trigger] gathered(rest, taken + moved, all),
{
    broadcast use vstd::multiset::group_multiset_axioms;

    lemma_multiset_commutative(rest, moved);
    lemma_multiset_commutative(taken, moved);
    lemma_multiset_commutative(hits_of(rest), hits_of(moved));
    lemma_multiset_commutative(hits_of(taken), hits_of(moved));
    assert(hits_of(rest + moved) =~= hits_of(rest) + hits_of(moved));
    assert(hits_of(taken + moved) =~= hits_of(taken) + hits_of(moved));
    assert forall|all: Seq<RowIdWithScore>| gathered(rest + moved, taken, all) implies #[trigger] gathered(
        rest,
        taken + moved,
        all,
    ) by {
        assert(rest.to_multiset().add((taken + moved).to_multiset()) =~= (rest
            + moved).to_multiset().add(taken.to_multiset()));
        assert(hits_of(rest).to_multiset().add(hits_of(taken + moved).to_multiset()) =~= hits_of(
            rest + moved,
        ).to_multiset().add(hits_of(taken).to_multiset()));
    }
}

/// Merges the results of the segments: all their entries, ranked. No entry is
/// dropped, whatever limit the segments were collected with.
pub fn merge_ranked(children: Vec<Vec<RowIdWithScore>>) -> (merged: Vec<RowIdWithScore>)
    ensures
        ranked(hits_of(merged@)),
        merged@.to_multiset() == concatenation(children@).to_multiset(),
        hits_of(merged@).to_multiset() == hits_of(concatenation(children@)).to_multiset(),
        merged@.len() == concatenation(children@).len(),
{
    let mut children = children;
    let ghost all_children = children@;
    let mut merged: Vec<RowIdWithScore> = Vec::new();
    proof {
        lemma_gathered(concatenation(children@), merged@);
    }
    while children.len() > 0
        invariant
            gathered(concatenation(children@), merged@, concatenation(all_children)),
        decreases children.len(),
    {
        let ghost before = children@;
        let ghost merged_before = merged@;
        let mut child = children.pop().unwrap();
        proof {
            assert(children@ == before.drop_last());
            lemma_concatenation_last(before);
            lemma_gathered_moves(concatenation(children@), child@, merged_before);
        }
        merged.append(&mut child);
    }
    proof {
        lemma_concatenation_last(children@);
        lemma_gathered(concatenation(children@), merged@);
    }
    sort_entries(&mut merged);
    proof {
        vstd::seq_lib::to_multiset_len(merged@);
        vstd::seq_lib::to_multiset_len(concatenation(all_children));
    }
    merged
}

/// Merging drops nothing: every entry of every result is an entry of what
/// they merge to.
pub proof fn lemma_merge_drops_nothing(
    fruits: Seq<Vec<RowIdWithScore>>,
    merged: Seq<RowIdWithScore>,
    a: int,
    b: int,
) -> (k: int)
    requires
        merged.to_multiset() == concatenation(fruits).to_multiset(),
        0 <= a < fruits.len(),
        0 <= b < fruits[a]@.len(),
    ensures
        0 <= k < merged.len(),
        merged[k] == fruits[a]@[b],
{
    let at = lemma_member_of_concatenation(fruits, a, b);
    lemma_member_of_same_multiset(concatenation(fruits), merged, at)
}

/// Merging adds nothing: every entry of what the results merge to is an
/// entry of one of them.
pub proof fn lemma_merge_adds_nothing(
    fruits: Seq<Vec<RowIdWithScore>>,
    merged: Seq<RowIdWithScore>,
    k: int,
) -> (at: (int, int))
    requires
        merged.to_multiset() == concatenation(fruits).to_multiset(),
        0 <= k < merged.len(),
    ensures
        0 <= at.0 < fruits.len(),
        0 <= at.1 < fruits[at.0]@.len(),
        fruits[at.0]@[at.1] == merged[k],
{
    let j = lemma_member_of_same_multiset(merged, concatenation(fruits), k);
    lemma_concatenation_member(fruits, j)
}

/// Sequences that hold the same entries, each as often as the other does,
/// hold the same hits, each as often as the other does.
pub proof fn lemma_same_entries_same_hits(first: Seq<RowIdWithScore>, second: Seq<RowIdWithScore>)
    requires
        first.to_multiset() == second.to_multiset(),
    ensures
        hits_of(first).to_multiset() == hits_of(second).to_multiset(),
    decreases first.len(),
{
    broadcast use vstd::multiset::group_multiset_axioms;

    vstd::seq_lib::to_multiset_len(first);
    vstd::seq_lib::to_multiset_len(second);
    if first.len() == 0 {
        assert(hits_of(first) =~= hits_of(second));
    } else {
        let last = first.last();
        let at = lemma_member_of_same_multiset(first, second, first.len() - 1);
        let shorter = first.drop_last();
        let without = second.remove(at);
        assert(shorter.push(last) =~= first);
        vstd::seq_lib::to_multiset_build(shorter, last);
        vstd::seq_lib::to_multiset_remove(second, at);
        assert(shorter.to_multiset() =~= first.to_multiset().remove(last));
        assert(shorter.to_multiset() == without.to_multiset());
        lemma_same_entries_same_hits(shorter, without);
        assert(hits_of(first) =~= hits_of(shorter).push(last.hit()));
        vstd::seq_lib::to_multiset_build(hits_of(shorter), last.hit());
        assert(hits_of(second) =~= hits_of(without).insert(at, last.hit()));
        vstd::seq_lib::to_multiset_insert(hits_of(without), at, last.hit());
    }
}

/// What the results of the segments merge to depends on the entries alone,
/// not on the segments that gave them: if two merges hold the same entries,
/// each as often as the other does, and no two entries are the same hit, then
/// the merges are the same sequence.
pub proof fn lemma_merge_depends_on_entries_alone(
    first_fruits: Seq<Vec<RowIdWithScore>>,
    second_fruits: Seq<Vec<RowIdWithScore>>,
    first: Seq<RowIdWithScore>,
    second: Seq<RowIdWithScore>,
)
    requires
        ranked(hits_of(first)),
        ranked(hits_of(second)),
        first.to_multiset() == concatenation(first_fruits).to_multiset(),
        second.to_multiset() == concatenation(second_fruits).to_multiset(),
        concatenation(first_fruits).to_multiset() == concatenation(second_fruits).to_multiset(),
        forall|i: int, j: int|
            0 <= i < j < first.len() ==> (#[trigger] first[i]).hit() != (#[trigger] first[j]).hit(),
    ensures
        first == second,
{
    lemma_same_entries_same_hits(first, second);
    lemma_ranked_unique(hits_of(first), hits_of(second));
    assert(first.len() == hits_of(first).len());
    assert(second.len() == hits_of(second).len());
    assert forall|i: int| 0 <= i < first.len() implies first[i] == second[i] by {
        let k = lemma_member_of_same_multiset(second, first, i);
        assert(first[k].hit() == second[i].hit());
        assert(hits_of(second)[i] == second[i].hit());
        assert(hits_of(first)[i] == first[i].hit());
        if k < i {
            assert(first[k].hit() != first[i].hit());
        } else if i < k {
            assert(first[i].hit() != first[k].hit());
        }
    }
    assert(first =~= second);
}

/// However the results of the segments are merged, the hits come out in the
/// same order: what is merged is ranked, and there is one ranked order.
pub proof fn lemma_merged_order_is_unique(
    fruits: Seq<Vec<RowIdWithScore>>,
    first: Seq<RowIdWithScore>,
    second: Seq<RowIdWithScore>,
)
    requires
        ranked(hits_of(first)),
        ranked(hits_of(second)),
        hits_of(first).to_multiset() == hits_of(concatenation(fruits)).to_multiset(),
        hits_of(second).to_multiset() == hits_of(concatenation(fruits)).to_multiset(),
    ensures
        hits_of(first) == hits_of(second),
{
    lemma_ranked_unique(hits_of(first), hits_of(second));
}

/// If every entry of every result names a segment below `segments`, so does
/// every entry of what they merge to.
pub proof fn lemma_merge_keeps_segments(
    fruits: Seq<Vec<RowIdWithScore>>,
    merged: Seq<RowIdWithScore>,
    segments: nat,
)
    requires
        merged.to_multiset() == concatenation(fruits).to_multiset(),
        forall|a: int| 0 <= a < fruits.len() ==> segments_below((#[trigger] fruits[a])@, segments),
    ensures
        segments_below(merged, segments),
{
    assert forall|i: int| 0 <= i < merged.len() implies (#[trigger] merged[i]).seg_id
        < segments by {
        let at = lemma_merge_adds_nothing(fruits, merged, i);
        assert(segments_below(fruits[at.0]@, segments));
    }
}

/// If every entry of every result carries text that may be the stored text of
/// its document, so does every entry of what they merge to.
pub proof fn lemma_merge_keeps_text(
    text: TextSource,
    fruits: Seq<Vec<RowIdWithScore>>,
    merged: Seq<RowIdWithScore>,
)
    requires
        merged.to_multiset() == concatenation(fruits).to_multiset(),
        forall|a: int| 0 <= a < fruits.len() ==> text.may_hold((#[trigger] fruits[a])@),
    ensures
        text.may_hold(merged),
{
    assert forall|i: int| 0 <= i < merged.len() implies text.may_read(
        (#[trigger] merged[i]).seg_id,
        merged[i].docs@,
    ) by {
        let at = lemma_merge_adds_nothing(fruits, merged, i);
        assert(text.may_hold(fruits[at.0]@));
    }
}

/// If the filter admits every entry of every result, it admits every entry
/// of what they merge to.
pub proof fn lemma_merge_keeps_admitted(
    filter: RowFilter,
    fruits: Seq<Vec<RowIdWithScore>>,
    merged: Seq<RowIdWithScore>,
)
    requires
        merged.to_multiset() == concatenation(fruits).to_multiset(),
        forall|a: int| 0 <= a < fruits.len() ==> all_admitted(filter, (#[trigger] fruits[a])@),
    ensures
        all_admitted(filter, merged),
{
    assert forall|i: int| 0 <= i < merged.len() implies filter.admits(
        (#[trigger] merged[i]).row_id,
    ) by {
        let at = lemma_merge_adds_nothing(fruits, merged, i);
        assert(all_admitted(filter, fruits[at.0]@));
    }
}

} // verus!
