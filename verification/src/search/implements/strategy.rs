//! One strategy per kind of query.

pub mod bound_query;
pub mod collector_choice;
pub mod query_plan;
pub mod query_strategy;
pub mod segment_search;
