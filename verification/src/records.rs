//! The records that cross the boundary to the host: scored rows and the
//! envelopes that carry a result or an error code.

use vstd::prelude::*;

verus! {

/// The row id of a document that holds no value in the row-id column.
pub const DEFAULT_ROW_ID: u64 = 0;

/// One matching document of one segment.
///
/// The relevance score is held as the bit pattern of the single-precision
/// number that the scorer produced; [`crate::search::collector::ranking`]
/// orders entries by it.
#[derive(Debug, Clone)]
pub struct RowIdWithScore {
    /// The host's identifier of the row.
    pub row_id: u64,
    /// IEEE-754 bit pattern of the relevance score.
    pub score_bits: u32,
    /// Ordinal of the segment that produced the entry.
    pub seg_id: u32,
    /// The document's id inside that segment.
    pub doc_id: u32,
    /// Stored text of the requested columns; empty unless text was requested.
    pub docs: Vec<String>,
}

/// What identifies and ranks an entry: everything but its stored text.
pub struct Hit {
    pub row_id: u64,
    pub score_bits: u32,
    pub seg_id: u32,
    pub doc_id: u32,
}

impl RowIdWithScore {
    /// The entry without its stored text.
    pub open spec fn hit(self) -> Hit {
        Hit {
            row_id: self.row_id,
            score_bits: self.score_bits,
            seg_id: self.seg_id,
            doc_id: self.doc_id,
        }
    }
}

/// The outcome of a ranked search as the host receives it.
#[derive(Debug)]
pub struct BM25Result {
    /// The rows that were found; empty if the search failed.
    pub result: Vec<RowIdWithScore>,
    /// `0` if the search succeeded, `-1` if it failed.
    pub error_code: i32,
    /// Why the search failed; empty if it succeeded.
    pub error_msg: String,
}

/// The outcome of an operation without result, as the host receives it.
#[derive(Debug)]
pub struct BoolResult {
    /// Whether the operation succeeded.
    pub result: bool,
    /// `0` if the operation succeeded, `-1` if it failed.
    pub error_code: i32,
    /// Why the operation failed; empty if it succeeded.
    pub error_msg: String,
}

/// How many documents hold a term.
#[derive(Debug)]
pub struct DocWithFreq {
    /// The term.
    pub term_str: String,
    /// The column in which the term was counted.
    pub field_id: u32,
    /// The number of documents that hold the term in that column.
    pub doc_freq: u64,
}

/// The hits of a sequence of entries, in the same order.
pub open spec fn hits_of(entries: Seq<RowIdWithScore>) -> Seq<Hit> {
    entries.map_values(|e: RowIdWithScore| e.hit())
}

} // verus!
