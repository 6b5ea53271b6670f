//! The collector that a ranked query over 64-bit row ids runs with: the one
//! that keeps all rows, or the one that keeps the best of each segment.

use crate::records::RowIdWithScore;
use crate::search::collector::row_filter::AliveSet;
use crate::search::collector::row_filter::RowFilter;
use crate::search::collector::row_id_sets::bitmap_members;
use crate::search::collector::row_id_sets::treemap_members;
use crate::search::collector::stored_text::TextSource;
use crate::search::collector::top_docs_with_treemap_collector::TopDocsWithFilter64;
use crate::search::collector::unlimited_docs_with_treemap_collector::UnlimitedDocsWithFilter64;
use crate::search::implements::strategy::segment_search::RankedCollector;
use crate::search::index_access::BoundQuery;
use tantivy::schema::Field;
use tantivy::TantivyError;
use vstd::prelude::*;

verus! {

/// Whether the filter is the one that was asked for: it filters by the alive
/// rows `alive_ids`, as a set of 64-bit ids, exactly if `with_filter` is set,
/// and by the range from `start` up to, but not including, `end` exactly if
/// `with_range` is set.
pub open spec fn filters_as_asked(
    filter: RowFilter,
    with_filter: bool,
    alive_ids: Seq<u64>,
    with_range: bool,
    start: u64,
    end: u64,
) -> bool {
    &&& with_range ==> filter.range == Some((start, end))
    &&& !with_range ==> filter.range is None
    &&& with_filter ==> (filter.alive matches Some(AliveSet::Ids64(ids)) && treemap_members(*ids)
        == alive_ids.to_set())
    &&& !with_filter ==> filter.alive is None
}

/// Whether the filter is the one that was asked for: it filters by the alive
/// rows `alive_ids`, as a set of 32-bit ids, exactly if `with_filter` is set,
/// and by no range.
pub open spec fn filters_as_asked_32(filter: RowFilter, with_filter: bool, alive_ids: Seq<u32>) -> bool {
    &&& filter.range is None
    &&& with_filter ==> (filter.alive matches Some(AliveSet::Ids32(ids)) && bitmap_members(*ids)
        == alive_ids.to_set())
    &&& !with_filter ==> filter.alive is None
}

/// Whether the text source is the one that was asked for: it has a searcher,
/// reads the columns `fields`, and reads text exactly if `need_doc` is set.
pub open spec fn reads_as_asked(text: TextSource, need_doc: bool, fields: Vec<Field>) -> bool {
    &&& text.need_text == need_doc
    &&& text.searcher is Some
    &&& text.text_fields == Some(fields)
}

/// The collector of a ranked query over 64-bit row ids.
pub enum ChosenCollector {
    /// Every matching row is kept.
    Unlimited(UnlimitedDocsWithFilter64),
    /// The best rows of each segment are kept.
    Bounded(TopDocsWithFilter64),
}

impl ChosenCollector {
    /// The filter of the collector.
    pub open spec fn filter(self) -> RowFilter {
        match self {
            ChosenCollector::Unlimited(collector) => collector.filter,
            ChosenCollector::Bounded(collector) => collector.filter,
        }
    }

    /// The text source of the collector.
    pub open spec fn text(self) -> TextSource {
        match self {
            ChosenCollector::Unlimited(collector) => collector.text,
            ChosenCollector::Bounded(collector) => collector.text,
        }
    }

    /// How many rows the collector keeps of one segment at most, if it is
    /// bounded.
    pub open spec fn limit(self) -> Option<nat> {
        match self {
            ChosenCollector::Unlimited(_) => None,
            ChosenCollector::Bounded(collector) => Some(collector.limit as nat),
        }
    }
}

impl RankedCollector for ChosenCollector {
    open spec fn row_filter(&self) -> RowFilter {
        self.filter()
    }

    open spec fn segment_limit(&self) -> Option<nat> {
        self.limit()
    }

    open spec fn text_source(&self) -> TextSource {
        self.text()
    }

    /// What the collector that was chosen collects.
    open spec fn collects(
        &self,
        query: &BoundQuery,
        segment_ord: u32,
        fruit: Result<Vec<RowIdWithScore>, TantivyError>,
    ) -> bool {
        match *self {
            ChosenCollector::Unlimited(collector) => collector.collects(query, segment_ord, fruit),
            ChosenCollector::Bounded(collector) => collector.collects(query, segment_ord, fruit),
        }
    }

    fn segment_fruit(&self, query: &BoundQuery, segment_ord: u32) -> (fruit: Result<
        Vec<RowIdWithScore>,
        TantivyError,
    >) {
        match self {
            ChosenCollector::Unlimited(collector) => collector.collect_segment(query, segment_ord),
            ChosenCollector::Bounded(collector) => collector.collect_segment(query, segment_ord),
        }
    }

    fn merged(&self, children: Vec<Vec<RowIdWithScore>>) -> (merged: Result<
        Vec<RowIdWithScore>,
        TantivyError,
    >) {
        match self {
            ChosenCollector::Unlimited(collector) => collector.merge_fruits(children),
            ChosenCollector::Bounded(collector) => collector.merge_fruits(children),
        }
    }
}

} // verus!
