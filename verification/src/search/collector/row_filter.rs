//! The alive-set and id-range test that every collector applies to a row id.
//!
//! A filter holds at most one alive set and at most one range. A row passes
//! if it passes every test that is configured; a filter with neither lets
//! every row through.

use crate::search::collector::row_id_sets::bitmap_members;
use crate::search::collector::row_id_sets::treemap_members;
use roaring::RoaringBitmap;
use roaring::RoaringTreemap;
use std::sync::Arc;
use vstd::prelude::*;

verus! {

/// The rows that are alive, as a shared compressed set of 32-bit or of 64-bit
/// row ids.
pub enum AliveSet {
    Ids32(Arc<RoaringBitmap>),
    Ids64(Arc<RoaringTreemap>),
}

impl AliveSet {
    /// Whether `row_id` is a member of the set. A row id that does not fit in
    /// 32 bits is no member of a set of 32-bit ids.
    pub open spec fn holds(self, row_id: u64) -> bool {
        match self {
            AliveSet::Ids32(set) => row_id <= u32::MAX && bitmap_members(*set).contains(
                row_id as u32,
            ),
            AliveSet::Ids64(set) => treemap_members(*set).contains(row_id),
        }
    }

    /// Tests membership of `row_id`.
    pub fn has(&self, row_id: u64) -> (found: bool)
        ensures
            found == self.holds(row_id),
    {
        match self {
            AliveSet::Ids32(set) => {
                if row_id <= 0xFFFF_FFFF {
                    set.contains(row_id as u32)
                } else {
                    false
                }
            },
            AliveSet::Ids64(set) => set.contains(row_id),
        }
    }
}

/// Whether `row_id` lies in the half-open range from `range.0` up to, but not
/// including, `range.1`.
pub open spec fn in_range(range: (u64, u64), row_id: u64) -> bool {
    range.0 <= row_id < range.1
}

/// The predicate that decides which rows a collector may return.
pub struct RowFilter {
    /// The set of alive rows, if rows are filtered by one.
    pub alive: Option<AliveSet>,
    /// The range `[start, end)` of admitted row ids, if rows are filtered by
    /// one.
    pub range: Option<(u64, u64)>,
}

impl RowFilter {
    /// Whether the filter lets `row_id` through: the row is a member of the
    /// alive set, if there is one, and lies in the range, if there is one.
    pub open spec fn admits(self, row_id: u64) -> bool {
        &&& self.alive matches Some(ids) ==> ids.holds(row_id)
        &&& self.range matches Some(bounds) ==> in_range(bounds, row_id)
    }

    /// The filter that lets every row through.
    pub fn unfiltered() -> (filter: RowFilter)
        ensures
            filter.alive is None,
            filter.range is None,
    {
        RowFilter { alive: None, range: None }
    }

    /// Decides whether the filter lets `row_id` through.
    pub fn is_alive(&self, row_id: u64) -> (alive: bool)
        ensures
            alive == self.admits(row_id),
    {
        if let Some(set) = &self.alive {
            if !set.has(row_id) {
                return false;
            }
        }
        if let Some(range) = &self.range {
            if !(range.0 <= row_id && row_id < range.1) {
                return false;
            }
        }
        true
    }
}

/// A filter without alive set and without range admits every row.
pub proof fn lemma_unfiltered_admits_all(filter: RowFilter, row_id: u64)
    requires
        filter.alive is None,
        filter.range is None,
    ensures
        filter.admits(row_id),
{
}

/// What a filter admits, by what is configured: with only an alive set, the
/// set's members; with only a range, the rows from its start up to, but not
/// including, its end; with both, the rows for which both hold.
pub proof fn lemma_filter_cases(filter: RowFilter, row_id: u64)
    ensures
        filter.alive is Some && filter.range is None ==> (filter.admits(row_id)
            <==> filter.alive->0.holds(row_id)),
        filter.alive is None && filter.range is Some ==> (filter.admits(row_id) <==> in_range(
            filter.range->0,
            row_id,
        )),
        filter.alive is Some && filter.range is Some ==> (filter.admits(row_id) <==> (
            filter.alive->0.holds(row_id) && in_range(filter.range->0, row_id))),
{
}

/// The end of a range is never admitted; its start is, if the range is not
/// empty and the alive set, if there is one, holds it.
pub proof fn lemma_range_boundaries(filter: RowFilter, start: u64, end: u64)
    requires
        filter.range == Some((start, end)),
    ensures
        !filter.admits(end),
        start < end && (filter.alive is Some ==> filter.alive->0.holds(start)) ==> filter.admits(
            start,
        ),
{
}

} // verus!
