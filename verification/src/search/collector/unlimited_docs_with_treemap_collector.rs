//! The collector that keeps every matching row of a segment.

use crate::records::hits_of;
use crate::records::RowIdWithScore;
use crate::search::collector::merge::all_admitted;
use crate::search::collector::merge::concatenation;
use crate::search::collector::merge::merge_ranked;
use crate::search::collector::ranking::ranked;
use crate::search::collector::row_filter::AliveSet;
use crate::search::collector::row_filter::RowFilter;
use crate::search::collector::segment_collect::from_segment;
use crate::search::collector::segment_collect::keep_all;
use crate::search::collector::segment_collect::lemma_survivor_origin;
use crate::search::collector::segment_collect::survivors;
use crate::search::collector::segment_collect::without_text;
use crate::search::collector::stored_text::TextSource;
use crate::search::index_access::bound_segments;
use crate::search::index_access::BoundQuery;
use crate::search::index_access::Candidate;
use crate::search::index_access::scan_segment;
use crate::records::DEFAULT_ROW_ID;
use roaring::RoaringTreemap;
use std::sync::Arc;
use tantivy::schema::Field;
use tantivy::Searcher;
use tantivy::SegmentReader;
use tantivy::TantivyError;
use vstd::prelude::*;

verus! {

/// Collects, without any limit, the rows of 64-bit row ids that match a query
/// and pass the row filter.
///
/// Stored text is attached to the entries only if it is asked for with
/// [`with_stored_text`](Self::with_stored_text) and both a searcher and the
/// text columns were given.
pub struct UnlimitedDocsWithFilter64 {
    /// Which rows may be returned.
    pub filter: RowFilter,
    /// Where stored text comes from.
    pub text: TextSource,
}

impl UnlimitedDocsWithFilter64 {
    /// A collector without filter that attaches no stored text.
    pub fn with_default() -> (collector: UnlimitedDocsWithFilter64)
        ensures
            collector.filter.alive is None,
            collector.filter.range is None,
            collector.text.searcher is None,
            collector.text.text_fields is None,
            !collector.text.need_text,
    {
        UnlimitedDocsWithFilter64 { filter: RowFilter::unfiltered(), text: TextSource::none() }
    }

    /// Restricts the collector to the rows of `row_id_bitmap`.
    pub fn with_alive(self, row_id_bitmap: Arc<RoaringTreemap>) -> (collector:
        UnlimitedDocsWithFilter64)
        ensures
            collector.filter.alive == Some(AliveSet::Ids64(row_id_bitmap)),
            collector.filter.range == self.filter.range,
            collector.text == self.text,
    {
        let mut built = self;
        built.filter.alive = Some(AliveSet::Ids64(row_id_bitmap));
        built
    }

    /// Restricts the collector to the rows whose id is at least
    /// `row_id_range.0` and below `row_id_range.1`.
    pub fn with_range(self, row_id_range: (u64, u64)) -> (collector: UnlimitedDocsWithFilter64)
        ensures
            collector.filter.range == Some(row_id_range),
            collector.filter.alive == self.filter.alive,
            collector.text == self.text,
    {
        let mut built = self;
        built.filter.range = Some(row_id_range);
        built
    }

    /// Sets the searcher that stored text is read with.
    pub fn with_searcher(self, searcher: Searcher) -> (collector: UnlimitedDocsWithFilter64)
        ensures
            collector.text.searcher == Some(searcher),
            collector.text.text_fields == self.text.text_fields,
            collector.text.need_text == self.text.need_text,
            collector.filter == self.filter,
    {
        let mut built = self;
        built.text.searcher = Some(searcher);
        built
    }

    /// Sets the columns whose stored text is attached.
    pub fn with_text_fields(self, fields: Vec<Field>) -> (collector: UnlimitedDocsWithFilter64)
        ensures
            collector.text.text_fields == Some(fields),
            collector.text.searcher == self.text.searcher,
            collector.text.need_text == self.text.need_text,
            collector.filter == self.filter,
    {
        let mut built = self;
        built.text.text_fields = Some(fields);
        built
    }

    /// Sets whether stored text is attached.
    pub fn with_stored_text(self, need_text: bool) -> (collector: UnlimitedDocsWithFilter64)
        ensures
            collector.text.need_text == need_text,
            collector.text.searcher == self.text.searcher,
            collector.text.text_fields == self.text.text_fields,
            collector.filter == self.filter,
    {
        let mut built = self;
        built.text.need_text = need_text;
        built
    }

    /// Decides whether a row may be returned.
    pub fn is_alive(&self, row_id: u64) -> (alive: bool)
        ensures
            alive == self.filter.admits(row_id),
    {
        self.filter.is_alive(row_id)
    }

    /// Scores are read by this collector.
    pub fn requires_scoring(&self) -> (scoring: bool)
        ensures
            scoring,
    {
        true
    }

    /// The collector that would take the documents of one segment one by one.
    /// This collector takes them all at once, in
    /// [`collect_segment`](Self::collect_segment), so the one returned here
    /// collects nothing.
    pub fn for_segment(&self, _segment_local_id: u32, _reader: &SegmentReader) -> (child: Result<
        UnlimitedDocsWithFilter64SegmentCollector,
        TantivyError,
    >)
        ensures
            child is Ok,
    {
        Ok(UnlimitedDocsWithFilter64SegmentCollector())
    }

    /// The stored text of one document; see [`TextSource::extract_doc_text`].
    pub fn extract_doc_text(&self, doc: u32, segment_ord: u32) -> (texts: Vec<String>)
        ensures
            self.text.may_read(segment_ord, texts@),
    {
        self.text.extract_doc_text(doc, segment_ord)
    }

    /// Merges the results of the segments: all their entries, ranked. Never
    /// fails.
    pub fn merge_fruits(&self, children: Vec<Vec<RowIdWithScore>>) -> (merged: Result<
        Vec<RowIdWithScore>,
        TantivyError,
    >)
        ensures
            merged is Ok,
            ranked(hits_of(merged->Ok_0@)),
            merged->Ok_0@.to_multiset() == concatenation(children@).to_multiset(),
            hits_of(merged->Ok_0@).to_multiset() == hits_of(
                concatenation(children@),
            ).to_multiset(),
            merged->Ok_0@.len() == concatenation(children@).len(),
    {
        Ok(merge_ranked(children))
    }

    /// Whether `fruit` may be what the collector keeps of the documents
    /// `candidates` that matched in the segment `segment_ord`.
    pub open spec fn keeps(
        &self,
        candidates: Seq<Candidate>,
        segment_ord: u32,
        fruit: Seq<RowIdWithScore>,
    ) -> bool {
        &&& hits_of(fruit) == survivors(self.filter, candidates, segment_ord)
        &&& all_admitted(self.filter, fruit)
        &&& from_segment(fruit, segment_ord)
        &&& !self.text.reads_text() ==> without_text(fruit)
        &&& self.text.may_hold(fruit)
    }

    /// What the collector keeps of the documents that matched in one segment:
    /// every one that is not deleted and whose row the filter admits, in the
    /// order of the scan.
    pub fn collect_candidates(&self, candidates: &Vec<Candidate>, segment_ord: u32) -> (fruit: Vec<
        RowIdWithScore,
    >)
        ensures
            self.keeps(candidates@, segment_ord, fruit@),
    {
        let kept = keep_all(&self.filter, candidates, segment_ord);
        let fruit = self.text.attach(kept);
        proof {
            assert forall|i: int| 0 <= i < fruit@.len() implies self.filter.admits(
                (#[trigger] fruit@[i]).row_id,
            ) && fruit@[i].seg_id == segment_ord by {
                assert(hits_of(fruit@)[i] == fruit@[i].hit());
                let j = lemma_survivor_origin(self.filter, candidates@, segment_ord, i);
            }
        }
        fruit
    }

    /// What becomes of the outcome of scanning the segment `segment_ord`: a
    /// failure of the scan is handed on as it is, and of the documents that
    /// matched the collector keeps what
    /// [`collect_candidates`](Self::collect_candidates) keeps.
    pub fn collect_scanned(
        &self,
        scanned: Result<Vec<Candidate>, TantivyError>,
        segment_ord: u32,
    ) -> (fruit: Result<Vec<RowIdWithScore>, TantivyError>)
        ensures
            scanned matches Err(e) ==> fruit == Err::<Vec<RowIdWithScore>, TantivyError>(e),
            scanned matches Ok(candidates) ==> fruit is Ok && self.keeps(
                candidates@,
                segment_ord,
                fruit->Ok_0@,
            ),
    {
        match scanned {
            Ok(candidates) => Ok(self.collect_candidates(&candidates, segment_ord)),
            Err(e) => Err(e),
        }
    }

    /// Scans one segment for the documents that match `query` and makes of
    /// the outcome what [`collect_scanned`](Self::collect_scanned) makes of
    /// it. Whether the scan fails and what matches is up to the index; a
    /// fruit is what the collector keeps of some documents.
    pub fn collect_segment(&self, query: &BoundQuery, segment_ord: u32) -> (fruit: Result<
        Vec<RowIdWithScore>,
        TantivyError,
    >)
        requires
            segment_ord < bound_segments(*query),
        ensures
            fruit matches Ok(entries) ==> all_admitted(self.filter, entries@) && from_segment(
                entries@,
                segment_ord,
            ) && self.text.may_hold(entries@),
            fruit matches Ok(entries) ==> exists|candidates: Seq<Candidate>| #[trigger]
                self.keeps(candidates, segment_ord, entries@),
    {
        let scanned = scan_segment(query, segment_ord, "row_id", DEFAULT_ROW_ID);
        let ghost outcome = scanned;
        let fruit = self.collect_scanned(scanned, segment_ord);
        proof {
            if outcome is Ok {
                assert(self.keeps(outcome->Ok_0@, segment_ord, fruit->Ok_0@));
            }
        }
        fruit
    }
}

impl Default for UnlimitedDocsWithFilter64 {
    fn default() -> (collector: UnlimitedDocsWithFilter64)
        ensures
            collector.filter.alive is None,
            collector.filter.range is None,
            collector.text.searcher is None,
            collector.text.text_fields is None,
            !collector.text.need_text,
    {
        UnlimitedDocsWithFilter64::with_default()
    }
}

/// The per-document collector of a segment. It is never fed: the segments are
/// collected as a whole.
pub struct UnlimitedDocsWithFilter64SegmentCollector();

impl UnlimitedDocsWithFilter64SegmentCollector {
    /// Takes a document and keeps nothing of it.
    pub fn collect(&mut self, _doc: u32, _score_bits: u32)
        ensures
            *final(self) == *old(self),
    {
    }

    /// Returns what was collected: nothing.
    pub fn harvest(self) -> (fruit: Vec<RowIdWithScore>)
        ensures
            fruit@.len() == 0,
    {
        Vec::new()
    }
}

} // verus!
