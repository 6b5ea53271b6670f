//! Query execution: row filtering, per-segment collection and merging.

pub mod api;
pub mod collector;
pub mod implements;
pub mod index_access;
pub mod utils;
