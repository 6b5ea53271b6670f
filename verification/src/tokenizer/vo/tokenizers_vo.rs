//! How one column is tokenized, stored and indexed.

use crate::tokenizer::vo::tokenizer_types::TokenizerType;
use tantivy::tokenizer::TextAnalyzer;
use vstd::prelude::*;

verus! {

/// `TextAnalyzer::default` gives the analyzer that a column gets when none is
/// asked for.
pub assume_specification[ <TextAnalyzer as Default>::default ]() -> (analyzer: TextAnalyzer)
;

/// The configuration of one column.
pub struct TokenizerConfig {
    /// The kind of tokenizer.
    pub tokenizer_type: TokenizerType,
    /// The analyzer that splits the column's text.
    pub text_analyzer: TextAnalyzer,
    /// Whether the column's values are stored.
    pub doc_store: bool,
    /// Whether the column is indexed.
    pub doc_index: bool,
    /// Whether the column is a text column.
    pub is_text_field: bool,
    /// Whether the column is a fast field.
    pub doc_fast: bool,
    /// Whether values of another type are coerced to the column's type.
    pub doc_coerce: bool,
}

impl TokenizerConfig {
    /// The configuration of a text column: indexed, neither fast nor coerced.
    pub fn new(tokenizer_type: TokenizerType, analyzer: TextAnalyzer, stored: bool) -> (config: Self)
        ensures
            config.tokenizer_type == tokenizer_type,
            config.text_analyzer == analyzer,
            config.doc_store == stored,
            config.doc_index,
            config.is_text_field,
            !config.doc_fast,
            !config.doc_coerce,
    {
        TokenizerConfig {
            tokenizer_type,
            text_analyzer: analyzer,
            doc_store: stored,
            doc_index: true,
            is_text_field: true,
            doc_fast: false,
            doc_coerce: false,
        }
    }

    /// The configuration of a column that is no text column, with the default
    /// analyzer.
    pub fn new_non_text(
        tokenizer_type: TokenizerType,
        stored: bool,
        indexed: bool,
        fast: bool,
        coerce: bool,
    ) -> (config: Self)
        ensures
            config.tokenizer_type == tokenizer_type,
            config.doc_store == stored,
            config.doc_index == indexed,
            !config.is_text_field,
            config.doc_fast == fast,
            config.doc_coerce == coerce,
    {
        TokenizerConfig {
            tokenizer_type,
            text_analyzer: TextAnalyzer::default(),
            doc_store: stored,
            doc_index: indexed,
            is_text_field: false,
            doc_fast: fast,
            doc_coerce: coerce,
        }
    }
}

} // verus!
