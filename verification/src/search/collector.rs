//! Segment collectors and the row filter they share.

pub mod heap;
pub mod merge;
pub mod ranking;
pub mod row_filter;
pub mod row_id_bitmap_collector;
pub mod row_id_sets;
pub mod segment_collect;
pub mod stored_text;
pub mod top_docs_with_bitmap_collector;
pub mod top_docs_with_treemap_collector;
pub mod unlimited_docs_with_treemap_collector;
