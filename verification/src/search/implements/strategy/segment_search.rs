//! Running a query over all segments of a searcher.

use crate::common::errors::IndexSearcherError;
use crate::records::hits_of;
use crate::records::RowIdWithScore;
use crate::search::collector::merge::all_admitted;
use crate::search::collector::merge::concatenation;
use crate::search::collector::merge::lemma_concatenation_length;
use crate::search::collector::merge::lemma_merge_keeps_admitted;
use crate::search::collector::merge::lemma_merge_keeps_segments;
use crate::search::collector::merge::lemma_merge_keeps_text;
use crate::search::collector::ranking::ranked;
use crate::search::collector::row_filter::RowFilter;
use crate::search::collector::row_id_bitmap_collector::RowIdRoaringCollector;
use crate::search::collector::row_id_bitmap_collector::union_of;
use crate::search::collector::row_id_sets::bitmap_members;
use crate::search::collector::segment_collect::from_segment;
use crate::search::collector::segment_collect::segments_below;
use crate::search::collector::stored_text::TextSource;
use crate::search::collector::top_docs_with_bitmap_collector::TopDocsWithFilter;
use crate::search::collector::top_docs_with_treemap_collector::TopDocsWithFilter64;
use crate::search::collector::unlimited_docs_with_treemap_collector::UnlimitedDocsWithFilter64;
use crate::search::index_access::bound_segments;
use crate::search::index_access::BoundQuery;
use crate::search::index_access::Candidate;
use roaring::RoaringBitmap;
use std::sync::Arc;
use tantivy::TantivyError;
use vstd::prelude::*;

verus! {

/// Whether `entries` may be what a collector with the given filter, limit and
/// text source returns of the segment `segment_ord`, whatever matched there:
/// every row has passed the filter, every entry names the segment, there are
/// no more entries than the limit allows, and the text of each may be the
/// stored text of its document.
pub open spec fn may_collect(
    filter: RowFilter,
    limit: Option<nat>,
    text: TextSource,
    segment_ord: u32,
    entries: Seq<RowIdWithScore>,
) -> bool {
    &&& all_admitted(filter, entries)
    &&& from_segment(entries, segment_ord)
    &&& limit matches Some(most) ==> entries.len() <= most
    &&& text.may_hold(entries)
}

/// A collector of scored rows: it collects each segment by itself and merges
/// what the segments gave.
pub trait RankedCollector {
    /// The filter that every row which the collector returns has passed.
    spec fn row_filter(&self) -> RowFilter;

    /// How many rows the collector returns of one segment at most, if it is
    /// bounded.
    spec fn segment_limit(&self) -> Option<nat>;

    /// Where the collector reads the stored text that it attaches.
    spec fn text_source(&self) -> TextSource;

    /// Whether `fruit` may be the outcome of collecting the segment
    /// `segment_ord` for the query.
    spec fn collects(
        &self,
        query: &BoundQuery,
        segment_ord: u32,
        fruit: Result<Vec<RowIdWithScore>, TantivyError>,
    ) -> bool;

    /// Collects one segment. Whether it succeeds is up to the scan of the
    /// segment. Whatever matched there, every row that is returned has passed
    /// the filter, every entry names the segment, there are no more entries
    /// than the limit allows, and the text of each may be the stored text of
    /// its document.
    fn segment_fruit(&self, query: &BoundQuery, segment_ord: u32) -> (fruit: Result<
        Vec<RowIdWithScore>,
        TantivyError,
    >)
        requires
            segment_ord < bound_segments(*query),
        ensures
            self.collects(query, segment_ord, fruit),
            fruit matches Ok(entries) ==> may_collect(
                self.row_filter(),
                self.segment_limit(),
                self.text_source(),
                segment_ord,
                entries@,
            ),
    ;

    /// Merges what the segments gave into one ranked result that holds all
    /// their entries. Merging never fails.
    fn merged(&self, children: Vec<Vec<RowIdWithScore>>) -> (merged: Result<
        Vec<RowIdWithScore>,
        TantivyError,
    >)
        ensures
            merged matches Ok(entries) && ranked(hits_of(entries@)) && entries@.to_multiset()
                == concatenation(children@).to_multiset() && hits_of(entries@).to_multiset()
                == hits_of(concatenation(children@)).to_multiset() && entries@.len()
                == concatenation(children@).len(),
    ;
}

impl RankedCollector for UnlimitedDocsWithFilter64 {
    open spec fn row_filter(&self) -> RowFilter {
        self.filter
    }

    open spec fn segment_limit(&self) -> Option<nat> {
        None
    }

    open spec fn text_source(&self) -> TextSource {
        self.text
    }

    /// Whether the scan of the segment succeeds is up to the index; if it
    /// does, the fruit is what the collector keeps of some documents.
    open spec fn collects(
        &self,
        query: &BoundQuery,
        segment_ord: u32,
        fruit: Result<Vec<RowIdWithScore>, TantivyError>,
    ) -> bool {
        fruit matches Ok(entries) ==> exists|candidates: Seq<Candidate>| #[trigger]
            self.keeps(candidates, segment_ord, entries@)
    }

    fn segment_fruit(&self, query: &BoundQuery, segment_ord: u32) -> (fruit: Result<
        Vec<RowIdWithScore>,
        TantivyError,
    >) {
        self.collect_segment(query, segment_ord)
    }

    fn merged(&self, children: Vec<Vec<RowIdWithScore>>) -> (merged: Result<
        Vec<RowIdWithScore>,
        TantivyError,
    >) {
        self.merge_fruits(children)
    }
}

impl RankedCollector for TopDocsWithFilter64 {
    open spec fn row_filter(&self) -> RowFilter {
        self.filter
    }

    open spec fn segment_limit(&self) -> Option<nat> {
        Some(self.limit as nat)
    }

    open spec fn text_source(&self) -> TextSource {
        self.text
    }

    /// Whether the scan of the segment succeeds is up to the index; if it
    /// does, the fruit is what the collector keeps of some documents.
    open spec fn collects(
        &self,
        query: &BoundQuery,
        segment_ord: u32,
        fruit: Result<Vec<RowIdWithScore>, TantivyError>,
    ) -> bool {
        fruit matches Ok(entries) ==> exists|candidates: Seq<Candidate>| #[trigger]
            self.keeps(candidates, segment_ord, entries@)
    }

    fn segment_fruit(&self, query: &BoundQuery, segment_ord: u32) -> (fruit: Result<
        Vec<RowIdWithScore>,
        TantivyError,
    >) {
        self.collect_segment(query, segment_ord)
    }

    fn merged(&self, children: Vec<Vec<RowIdWithScore>>) -> (merged: Result<
        Vec<RowIdWithScore>,
        TantivyError,
    >) {
        self.merge_fruits(children)
    }
}

impl RankedCollector for TopDocsWithFilter {
    open spec fn row_filter(&self) -> RowFilter {
        self.filter
    }

    open spec fn segment_limit(&self) -> Option<nat> {
        Some(self.limit as nat)
    }

    open spec fn text_source(&self) -> TextSource {
        self.text
    }

    /// Whether the scan of the segment succeeds is up to the index; if it
    /// does, the fruit is what the collector keeps of some documents.
    open spec fn collects(
        &self,
        query: &BoundQuery,
        segment_ord: u32,
        fruit: Result<Vec<RowIdWithScore>, TantivyError>,
    ) -> bool {
        fruit matches Ok(entries) ==> exists|candidates: Seq<Candidate>| #[trigger]
            self.keeps(candidates, segment_ord, entries@)
    }

    fn segment_fruit(&self, query: &BoundQuery, segment_ord: u32) -> (fruit: Result<
        Vec<RowIdWithScore>,
        TantivyError,
    >) {
        self.collect_segment(query, segment_ord)
    }

    fn merged(&self, children: Vec<Vec<RowIdWithScore>>) -> (merged: Result<
        Vec<RowIdWithScore>,
        TantivyError,
    >) {
        self.merge_fruits(children)
    }
}

/// The number of segments that a search runs over: all of them, up to the
/// number that 32 bits can count.
pub open spec fn searched_segments(segments: nat) -> nat {
    if segments <= 0x1_0000_0000 {
        segments
    } else {
        0x1_0000_0000
    }
}

/// Whether `fruits` may be what the collector collected of the first
/// segments of the query, one after the other.
pub open spec fn collected<C: RankedCollector>(
    collector: &C,
    query: &BoundQuery,
    fruits: Seq<Vec<RowIdWithScore>>,
) -> bool {
    forall|a: int|
        0 <= a < fruits.len() ==> a <= u32::MAX && collector.collects(
            query,
            a as u32,
            Ok(#[trigger] fruits[a]),
        )
}

/// Whether `found` may be the outcome of searching all segments of the query
/// with the collector. A result is the merge of what the collector collected
/// of each segment. A failure is the failure of the collector on the first
/// segment that it could not collect.
pub open spec fn found_by<C: RankedCollector>(
    collector: &C,
    query: &BoundQuery,
    found: Result<Vec<RowIdWithScore>, IndexSearcherError>,
) -> bool {
    match found {
        Ok(entries) => exists|fruits: Seq<Vec<RowIdWithScore>>|
            {
                &&& #[trigger] collected(collector, query, fruits)
                &&& fruits.len() == searched_segments(bound_segments(*query))
                &&& ranked(hits_of(entries@))
                &&& entries@.to_multiset() == concatenation(fruits).to_multiset()
            },
        Err(e) => exists|fruits: Seq<Vec<RowIdWithScore>>|
            {
                &&& #[trigger] collected(collector, query, fruits)
                &&& fruits.len() < searched_segments(bound_segments(*query))
                &&& e matches IndexSearcherError::TantivyError(cause) && collector.collects(
                    query,
                    fruits.len() as u32,
                    Err(cause),
                )
            },
    }
}

/// Whether `entries` may be what a search with the collector over `segments`
/// segments returns, whatever matched: the entries are ranked, every row has
/// passed the filter, every entry names one of the segments, the text of each
/// may be the stored text of its document, and if the collector is bounded
/// there are no more entries than its limit allows for each segment.
pub open spec fn may_find<C: RankedCollector>(
    collector: &C,
    segments: nat,
    entries: Seq<RowIdWithScore>,
) -> bool {
    &&& ranked(hits_of(entries))
    &&& all_admitted(collector.row_filter(), entries)
    &&& segments_below(entries, segments)
    &&& collector.text_source().may_hold(entries)
    &&& collector.segment_limit() matches Some(limit) ==> entries.len() <= limit * segments
}

/// Runs a query over all segments of the searcher it was built for: each
/// segment is collected by itself, in the order of the segment ordinals, and
/// the results are merged. Fails with the first failure of the index library;
/// over no segments there is nothing to fail, and nothing is found.
///
/// The outcome is what [`found_by`] says of the collector. What matches is
/// up to the index; whatever it is, a result is what [`may_find`] says. The
/// limit is not applied to the merged result.
///
/// The index library numbers segments with 32 bits; segments beyond that
/// number are not searched.
pub fn search_ranked<C: RankedCollector>(query: &BoundQuery, collector: &C) -> (found: Result<
    Vec<RowIdWithScore>,
    IndexSearcherError,
>)
    ensures
        found_by(collector, query, found),
        found matches Ok(entries) ==> may_find(collector, bound_segments(*query), entries@),
        found is Err ==> found->Err_0 is TantivyError,
        bound_segments(*query) == 0 ==> found is Ok && found->Ok_0@.len() == 0,
{
    let total: usize = query.segments();
    let mut fruits: Vec<Vec<RowIdWithScore>> = Vec::new();
    let mut i: usize = 0;
    proof {
        lemma_concatenation_length(fruits@);
    }
    while i < total && i <= 0xFFFF_FFFF
        invariant
            total == bound_segments(*query),
            i <= total,
            i as int <= 0x1_0000_0000,
            fruits@.len() == i,
            collected(collector, query, fruits@),
            forall|a: int|
                0 <= a < fruits@.len() ==> may_collect(
                    collector.row_filter(),
                    collector.segment_limit(),
                    collector.text_source(),
                    a as u32,
                    (#[trigger] fruits@[a])@,
                ),
            collector.segment_limit() matches Some(limit) ==> concatenation(fruits@).len() <= limit
                * i,
        decreases total - i,
    {
        match collector.segment_fruit(query, i as u32) {
            Ok(fruit) => {
                proof {
                    lemma_concatenation_length(fruits@.push(fruit));
                    assert(fruits@.push(fruit).drop_last() == fruits@);
                    if let Some(limit) = collector.segment_limit() {
                        assert(limit * i + limit == limit * (i + 1)) by (nonlinear_arith);
                    }
                }
                fruits.push(fruit);
            },
            Err(e) => {
                proof {
                    assert(collected(collector, query, fruits@));
                    assert(fruits@.len() < searched_segments(bound_segments(*query)));
                }
                return Err(IndexSearcherError::TantivyError(e));
            },
        }
        i += 1;
    }
    let ghost all_fruits = fruits@;
    match collector.merged(fruits) {
        Ok(entries) => {
            proof {
                assert(collected(collector, query, all_fruits));
                assert(all_fruits.len() == searched_segments(bound_segments(*query)));
                assert forall|a: int| 0 <= a < all_fruits.len() implies all_admitted(
                    collector.row_filter(),
                    (#[trigger] all_fruits[a])@,
                ) && segments_below(all_fruits[a]@, total as nat)
                    && collector.text_source().may_hold(all_fruits[a]@) by {
                    assert(may_collect(
                        collector.row_filter(),
                        collector.segment_limit(),
                        collector.text_source(),
                        a as u32,
                        all_fruits[a]@,
                    ));
                }
                lemma_merge_keeps_admitted(collector.row_filter(), all_fruits, entries@);
                lemma_merge_keeps_segments(all_fruits, entries@, total as nat);
                lemma_merge_keeps_text(collector.text_source(), all_fruits, entries@);
                if let Some(limit) = collector.segment_limit() {
                    assert(limit * i <= limit * total) by (nonlinear_arith)
                        requires
                            i <= total,
                    ;
                }
            }
            Ok(entries)
        },
        Err(e) => Err(IndexSearcherError::TantivyError(e)),
    }
}

/// Runs a query over all segments of the searcher it was built for and gathers
/// with the collector the row ids of the rows that match: the result holds the row ids that were
/// collected of any of the segments. Fails with the first failure of the
/// index library; over no segments there is nothing to fail, and the set of
/// row ids is empty.
///
/// The index library numbers segments with 32 bits; segments beyond that
/// number are not searched.
pub fn search_row_ids(collector: &RowIdRoaringCollector, query: &BoundQuery) -> (found: Result<
    Arc<RoaringBitmap>,
    IndexSearcherError,
>)
    ensures
        found is Err ==> found->Err_0 is TantivyError,
        found matches Ok(row_ids) ==> exists|fruits: Seq<RoaringBitmap>|
            fruits.len() == searched_segments(bound_segments(*query)) && bitmap_members(*row_ids)
                == #[trigger] union_of(fruits),
        bound_segments(*query) == 0 ==> found is Ok && bitmap_members(*found->Ok_0)
            == Set::<u32>::empty(),
{
    let total: usize = query.segments();
    let mut fruits: Vec<RoaringBitmap> = Vec::new();
    let mut i: usize = 0;
    while i < total && i <= 0xFFFF_FFFF
        invariant
            total == bound_segments(*query),
            i <= total,
            i as int <= 0x1_0000_0000,
            fruits@.len() == i,
        decreases total - i,
    {
        match collector.collect_segment(query, i as u32) {
            Ok(fruit) => {
                fruits.push(fruit);
            },
            Err(e) => {
                return Err(IndexSearcherError::TantivyError(e));
            },
        }
        i += 1;
    }
    let ghost all_fruits = fruits@;
    match collector.merge_fruits(fruits) {
        Ok(row_ids) => {
            proof {
                assert(all_fruits.len() == searched_segments(bound_segments(*query)));
                assert(bitmap_members(*row_ids) == union_of(all_fruits));
                if total == 0 {
                    assert forall|id: u32| !union_of(all_fruits).contains(id) by {}
                    assert(union_of(all_fruits) =~= Set::<u32>::empty());
                }
            }
            Ok(row_ids)
        },
        Err(e) => Err(IndexSearcherError::TantivyError(e)),
    }
}

} // verus!
