//! The errors that a search can end in.

use std::str::Utf8Error;
use tantivy::TantivyError;
use vstd::prelude::*;
use vstd::string::StringExecFns;

verus! {

/// The error of `tantivy`, opaque to the verifier.
#[verifier::external_type_specification]
#[verifier::external_body]
pub struct ExTantivyError(TantivyError);

/// The error of the UTF-8 decoder of the standard library, opaque to the
/// verifier.
#[verifier::external_type_specification]
#[verifier::external_body]
pub struct ExUtf8Error(Utf8Error);

/// Why a value that came from the host could not be converted.
#[derive(Debug)]
pub enum CxxConvertError {
    /// An element of a vector could not be converted; the text says why.
    CxxVectorConvertError(String),
    /// A string of the host is not valid UTF-8.
    Utf8Error(Utf8Error),
    /// An element of a vector is not a date and time; the text says why.
    CxxDateVectorConvertError(String),
}

impl CxxConvertError {
    /// Whether `text` is the text of the error: what could not be converted,
    /// and the cause, which for a string that is not valid UTF-8 is what the
    /// decoder shows for its error.
    pub open spec fn says(self, text: Seq<char>) -> bool {
        match self {
            CxxConvertError::CxxVectorConvertError(message) => text
                == "Failed to convert cxx vector variable. '"@ + message@ + "'"@,
            CxxConvertError::Utf8Error(e) => exists|shown: String| #[trigger]
                vstd::string::to_string_from_display_ensures::<Utf8Error>(&e, shown) && text
                    == "Failed to convert CxxString to Rust String: "@ + shown@,
            CxxConvertError::CxxDateVectorConvertError(message) => text
                == "Failed to convert cxx vector of dates. '"@ + message@ + "'"@,
        }
    }

    /// The text of the error.
    pub fn message(&self) -> (text: String)
        ensures
            self.says(text@),
    {
        match self {
            CxxConvertError::CxxVectorConvertError(message) => {
                let mut text = String::from_str("Failed to convert cxx vector variable. '");
                text.append(message.as_str());
                text.append("'");
                text
            },
            CxxConvertError::Utf8Error(e) => {
                let shown = e.to_string();
                let mut text = String::from_str("Failed to convert CxxString to Rust String: ");
                text.append(shown.as_str());
                text
            },
            CxxConvertError::CxxDateVectorConvertError(message) => {
                let mut text = String::from_str("Failed to convert cxx vector of dates. '");
                text.append(message.as_str());
                text.append("'");
                text
            },
        }
    }
}

/// Why a query could not be built or run.
#[derive(Debug)]
pub enum IndexSearcherError {
    /// The query expression could not be parsed; the text is the parser's
    /// message.
    QueryParserError(String),
    /// The index library failed while resolving a column, building a query or
    /// scanning a segment.
    TantivyError(TantivyError),
    /// The schema does not offer what it promised for the column.
    InternalError(String),
}

impl IndexSearcherError {
    /// Whether `text` is the text of the error: the message it carries, or
    /// what the index library shows for its failure.
    pub open spec fn says(self, text: String) -> bool {
        match self {
            IndexSearcherError::QueryParserError(message) => text == message,
            IndexSearcherError::TantivyError(e) => vstd::string::to_string_from_display_ensures::<
                TantivyError,
            >(&e, text),
            IndexSearcherError::InternalError(message) => text == message,
        }
    }

    /// The text of the error: the message it carries, or what the index
    /// library shows for its failure.
    pub fn message(&self) -> (text: String)
        ensures
            self.says(text),
    {
        match self {
            IndexSearcherError::QueryParserError(message) => message.clone(),
            IndexSearcherError::TantivyError(e) => e.to_string(),
            IndexSearcherError::InternalError(message) => message.clone(),
        }
    }

    /// Whether this is the internal error with the given message.
    pub open spec fn is_internal(self, message: Seq<char>) -> bool {
        self matches IndexSearcherError::InternalError(text) && text@ == message
    }
}

} // verus!
