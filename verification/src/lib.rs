//! Ranked, filterable retrieval over a segmented full-text index whose rows are
//! identified by an external integer row id.
//!
//! The crate scans every segment of an index for the documents that match a
//! query, filters them against an alive set of row ids and an id range, keeps
//! either the best `K` or all of them per segment, and merges the per-segment
//! results into one sequence ordered by relevance.

pub mod common;
pub mod records;
pub mod search;
pub mod tokenizer;

pub use records::BM25Result;
pub use records::BoolResult;
pub use records::DocWithFreq;
pub use records::RowIdWithScore;
