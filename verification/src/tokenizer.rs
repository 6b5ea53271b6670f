//! How the columns of an index are tokenized.

pub mod vo;
