//! The kinds of tokenizer that a column can be indexed with.

use vstd::prelude::*;

verus! {

/// The kind of tokenizer of a column, with the name under which the column's
/// analyzer is registered.
#[derive(Clone, Debug)]
pub enum TokenizerType {
    Default(String),
    Raw(String),
    Simple(String),
    Stem(String),
    Whitespace(String),
    Ngram(String),
    Chinese(String),
    Icu(String),
}

impl TokenizerType {
    /// The name under which the column's analyzer is registered.
    pub open spec fn registered_name(self) -> String {
        match self {
            TokenizerType::Default(name) => name,
            TokenizerType::Raw(name) => name,
            TokenizerType::Simple(name) => name,
            TokenizerType::Stem(name) => name,
            TokenizerType::Whitespace(name) => name,
            TokenizerType::Ngram(name) => name,
            TokenizerType::Chinese(name) => name,
            TokenizerType::Icu(name) => name,
        }
    }

    /// Returns [`registered_name`](Self::registered_name).
    pub fn name(&self) -> (name: &str)
        ensures
            name@ == self.registered_name()@,
    {
        match self {
            TokenizerType::Default(name) => name.as_str(),
            TokenizerType::Raw(name) => name.as_str(),
            TokenizerType::Simple(name) => name.as_str(),
            TokenizerType::Stem(name) => name.as_str(),
            TokenizerType::Whitespace(name) => name.as_str(),
            TokenizerType::Ngram(name) => name.as_str(),
            TokenizerType::Chinese(name) => name.as_str(),
            TokenizerType::Icu(name) => name.as_str(),
        }
    }
}

} // verus!
