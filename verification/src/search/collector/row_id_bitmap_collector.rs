//! The collector that gathers the row ids of all matching rows into one set.

use crate::search::collector::row_id_sets::bitmap_members;
use crate::search::collector::row_id_sets::unite;
use crate::search::index_access::bound_segments;
use crate::search::index_access::BoundQuery;
use crate::search::index_access::Candidate;
use crate::search::index_access::scan_segment;
use crate::records::DEFAULT_ROW_ID;
use roaring::RoaringBitmap;
use std::sync::Arc;
use tantivy::TantivyError;
use vstd::prelude::*;

verus! {

/// The row ids of the matched documents that are not deleted. The set holds
/// ids of 32 bits: a document whose row id does not fit in 32 bits is left
/// out, as no id of the set stands for it.
pub open spec fn matched_row_ids(candidates: Seq<Candidate>) -> Set<u32> {
    Set::new(
        |id: u32|
            exists|i: int|
                0 <= i < candidates.len() && !(#[trigger] candidates[i]).deleted
                    && candidates[i].row_id == id,
    )
}

/// The ids that any of the sets holds.
pub open spec fn union_of(sets: Seq<RoaringBitmap>) -> Set<u32> {
    Set::new(
        |id: u32| exists|i: int| 0 <= i < sets.len() && bitmap_members(#[trigger] sets[i]).contains(id),
    )
}

/// Collects the row ids of the rows that match a query.
pub struct RowIdRoaringCollector {
    /// The name of the column that holds the row ids.
    pub row_id_field: String,
}

impl RowIdRoaringCollector {
    /// A collector that reads the row ids from the column `row_id_field`.
    pub fn with_field(row_id_field: String) -> (collector: RowIdRoaringCollector)
        ensures
            collector.row_id_field == row_id_field,
    {
        RowIdRoaringCollector { row_id_field }
    }

    /// Scores are not read by this collector.
    pub fn requires_scoring(&self) -> (scoring: bool)
        ensures
            !scoring,
    {
        false
    }

    /// The row ids of the documents that matched in one segment and are not
    /// deleted, as far as they fit in 32 bits.
    pub fn collect_candidates(&self, candidates: &Vec<Candidate>) -> (row_ids: RoaringBitmap)
        ensures
            bitmap_members(row_ids) == matched_row_ids(candidates@),
    {
        let mut row_ids = RoaringBitmap::new();
        let mut i: usize = 0;
        proof {
            assert(bitmap_members(row_ids) =~= matched_row_ids(candidates@.take(0)));
        }
        while i < candidates.len()
            invariant
                i <= candidates.len(),
                bitmap_members(row_ids) == matched_row_ids(candidates@.take(i as int)),
            decreases candidates.len() - i,
        {
            let candidate: Candidate = candidates[i];
            let ghost before = bitmap_members(row_ids);
            if !candidate.deleted && candidate.row_id <= 0xFFFF_FFFF {
                let _ = row_ids.insert(candidate.row_id as u32);
            }
            proof {
                let shorter = candidates@.take(i as int);
                let longer = candidates@.take(i + 1);
                assert forall|id: u32|
                    bitmap_members(row_ids).contains(id) <==> matched_row_ids(longer).contains(
                        id,
                    ) by {
                    if matched_row_ids(longer).contains(id) {
                        let k = choose|k: int|
                            0 <= k < longer.len() && !(#[trigger] longer[k]).deleted
                                && longer[k].row_id == id;
                        if k < i {
                            assert(!shorter[k].deleted && shorter[k].row_id == id);
                            assert(matched_row_ids(shorter).contains(id));
                        }
                    }
                    if bitmap_members(row_ids).contains(id) {
                        if before.contains(id) {
                            let k = choose|k: int|
                                0 <= k < shorter.len() && !(#[trigger] shorter[k]).deleted
                                    && shorter[k].row_id == id;
                            assert(!longer[k].deleted && longer[k].row_id == id);
                        } else {
                            assert(!longer[i as int].deleted && longer[i as int].row_id == id);
                        }
                    }
                }
                assert(bitmap_members(row_ids) =~= matched_row_ids(longer));
            }
            i += 1;
        }
        proof {
            assert(candidates@.take(candidates.len() as int) == candidates@);
        }
        row_ids
    }

    /// What becomes of the outcome of scanning a segment: a failure of the
    /// scan is handed on as it is, and of the documents that matched the
    /// collector returns the row ids of those that are not deleted.
    pub fn collect_scanned(&self, scanned: Result<Vec<Candidate>, TantivyError>) -> (fruit: Result<
        RoaringBitmap,
        TantivyError,
    >)
        ensures
            scanned matches Err(e) ==> fruit == Err::<RoaringBitmap, TantivyError>(e),
            scanned matches Ok(candidates) ==> fruit is Ok && bitmap_members(fruit->Ok_0)
                == matched_row_ids(candidates@),
    {
        match scanned {
            Ok(candidates) => Ok(self.collect_candidates(&candidates)),
            Err(e) => Err(e),
        }
    }

    /// Scans one segment for the documents that match `query` and makes of
    /// the outcome what [`collect_scanned`](Self::collect_scanned) makes of
    /// it. Whether the scan fails and what matches is up to the index, and
    /// any set of row ids may come of it.
    pub fn collect_segment(&self, query: &BoundQuery, segment_ord: u32) -> (fruit: Result<
        RoaringBitmap,
        TantivyError,
    >)
        requires
            segment_ord < bound_segments(*query),
    {
        self.collect_scanned(
            scan_segment(query, segment_ord, self.row_id_field.as_str(), DEFAULT_ROW_ID),
        )
    }

    /// Merges the row ids of the segments into one set. Never fails.
    pub fn merge_fruits(&self, segment_fruits: Vec<RoaringBitmap>) -> (merged: Result<
        Arc<RoaringBitmap>,
        TantivyError,
    >)
        ensures
            merged is Ok,
            bitmap_members(*merged->Ok_0) == union_of(segment_fruits@),
    {
        let mut merged = RoaringBitmap::new();
        let mut i: usize = 0;
        proof {
            assert(bitmap_members(merged) =~= union_of(segment_fruits@.take(0)));
        }
        while i < segment_fruits.len()
            invariant
                i <= segment_fruits.len(),
                bitmap_members(merged) == union_of(segment_fruits@.take(i as int)),
            decreases segment_fruits.len() - i,
        {
            let ghost before = bitmap_members(merged);
            unite(&mut merged, &segment_fruits[i]);
            proof {
                let shorter = segment_fruits@.take(i as int);
                let longer = segment_fruits@.take(i + 1);
                assert forall|id: u32|
                    bitmap_members(merged).contains(id) <==> union_of(longer).contains(id) by {
                    if union_of(longer).contains(id) {
                        let k = choose|k: int|
                            0 <= k < longer.len() && bitmap_members(#[trigger] longer[k]).contains(
                                id,
                            );
                        if k < i {
                            assert(bitmap_members(shorter[k]).contains(id));
                            assert(union_of(shorter).contains(id));
                        }
                    }
                    if bitmap_members(merged).contains(id) {
                        if before.contains(id) {
                            let k = choose|k: int|
                                0 <= k < shorter.len() && bitmap_members(
                                    #[trigger] shorter[k],
                                ).contains(id);
                            assert(bitmap_members(longer[k]).contains(id));
                        } else {
                            assert(bitmap_members(longer[i as int]).contains(id));
                        }
                    }
                }
                assert(bitmap_members(merged) =~= union_of(longer));
            }
            i += 1;
        }
        proof {
            assert(segment_fruits@.take(segment_fruits.len() as int) == segment_fruits@);
        }
        Ok(Arc::new(merged))
    }
}

} // verus!
