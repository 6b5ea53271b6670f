//! The records that describe a column's tokenizer.

pub mod tokenizer_types;
pub mod tokenizers_vo;
