//! What a strategy decides once it knows the column it is to search.

use crate::common::errors::IndexSearcherError;
use crate::search::index_access::Column;
use crate::search::index_access::ColumnKind;
use crate::search::index_access::schema_column;
use crate::search::index_access::schema_names;
use tantivy::schema::Field;
use tantivy::Searcher;
use tantivy::tokenizer::TextAnalyzer;
use vstd::prelude::*;
use vstd::string::StringExecFns;

verus! {

/// How the terms of a query are brought into the form in which the column
/// was indexed.
pub enum TermPlan {
    /// The column is a text column: each term is run through the analyzer of
    /// this name.
    Tokenize(String),
    /// The column is no text column: each term is taken as it is.
    Literal,
}

/// The message for a column that is not indexed.
pub open spec fn not_indexed_message(column_name: Seq<char>) -> Seq<char> {
    "column field:"@ + column_name + " not indexed."@
}

/// The message for a text column that counts as indexed and yet carries no
/// indexing options.
pub open spec fn missing_options_message(column_name: Seq<char>) -> Seq<char> {
    "column field:"@ + column_name + " not indexed, but this error msg shouldn't display"@
}

/// The message for a column that must be a text column and is not.
pub open spec fn not_text_message() -> Seq<char> {
    "Not expected, column field type must be str type."@
}

/// The message for a column that was named as a text column to rank by and
/// is none.
pub open spec fn not_text_column_message(column_name: Seq<char>) -> Seq<char> {
    "column field:"@ + column_name + " is not a text column."@
}

/// The message for a text column whose analyzer the index does not know.
pub open spec fn unknown_tokenizer_message(tokenizer: Seq<char>) -> Seq<char> {
    "tokenizer:"@ + tokenizer + " not registered."@
}

/// Whether the schema of the searcher holds a text column under the name.
pub open spec fn is_text_column(searcher: Searcher, name: Seq<char>) -> bool {
    schema_column(searcher, name) matches Some(column) && column.kind is Text
}

/// Whether the schema of the searcher holds a text column under each of the
/// first `n` names.
pub open spec fn text_columns_up_to(searcher: Searcher, names: Seq<String>, n: int) -> bool {
    forall|i: int| 0 <= i < n ==> is_text_column(searcher, (#[trigger] names[i])@)
}

/// Whether the column under the name is one that a ranked query searches
/// when no column is named: an indexed text column that is not the row-id
/// column.
pub open spec fn is_ranked_by_default(searcher: Searcher, name: Seq<char>) -> bool {
    &&& name != "row_id"@
    &&& schema_column(searcher, name) matches Some(column) && column.kind is Text
        && column.indexed
}

/// [`is_ranked_by_default`] as a test on names.
pub open spec fn ranked_by_default(searcher: Searcher) -> spec_fn(Seq<char>) -> bool {
    |name: Seq<char>| is_ranked_by_default(searcher, name)
}

/// The names of the columns that a ranked query searches when no column is
/// named, in the order of the schema.
pub open spec fn default_ranked_names(searcher: Searcher) -> Seq<Seq<char>> {
    schema_names(searcher).filter(ranked_by_default(searcher))
}

/// Whether each of the names is that of a column of the schema, and `fields`
/// holds these columns in the same order.
pub open spec fn fields_of_names(searcher: Searcher, names: Seq<String>, fields: Seq<Field>) -> bool {
    &&& names.len() == fields.len()
    &&& forall|i: int|
        0 <= i < names.len() ==> (schema_column(searcher, (#[trigger] names[i])@) matches Some(
            column,
        ) && column.field == fields[i])
}

/// Whether the name at `i` is the first that is no text column of the schema.
pub open spec fn first_refused(searcher: Searcher, names: Seq<String>, i: int) -> bool {
    &&& 0 <= i < names.len()
    &&& text_columns_up_to(searcher, names, i)
    &&& !is_text_column(searcher, names[i]@)
}

/// Whether `error` is the error for the named column at `i`, which is no
/// text column: the error of the index library if the schema lacks the
/// column, and else the internal error that says that it is no text column.
pub open spec fn refused_with(
    searcher: Searcher,
    names: Seq<String>,
    i: int,
    error: IndexSearcherError,
) -> bool {
    &&& first_refused(searcher, names, i)
    &&& schema_column(searcher, names[i]@) is None ==> error is TantivyError
    &&& schema_column(searcher, names[i]@) is Some ==> error.is_internal(
        not_text_column_message(names[i]@),
    )
}

/// What a strategy for terms owes for the column it is to search: the error
/// for a column that is not indexed, and the error for a text column that
/// carries no indexing options.
pub open spec fn owed_for_terms<T>(
    column: Column,
    column_name: Seq<char>,
    found: Result<T, IndexSearcherError>,
) -> bool {
    &&& !column.indexed ==> found is Err && found->Err_0.is_internal(
        not_indexed_message(column_name),
    )
    &&& column.indexed && column.kind == (ColumnKind::Text { tokenizer: None }) ==> found is Err
        && found->Err_0.is_internal(missing_options_message(column_name))
}

/// What the strategy for a sentence owes for the column it is to search:
/// what a strategy for terms owes, and the error for a column that is no text
/// column.
pub open spec fn owed_for_sentence<T>(
    column: Column,
    column_name: Seq<char>,
    found: Result<T, IndexSearcherError>,
) -> bool {
    &&& owed_for_terms(column, column_name, found)
    &&& column.indexed && column.kind is Other ==> found is Err && found->Err_0.is_internal(
        not_text_message(),
    )
}

/// Whether a strategy for terms may refuse the column with an internal error
/// of this message: the column is not indexed, or it is a text column without
/// indexing options, or the analyzer of the text column is not registered
/// with the index. The message says which.
pub open spec fn refusal_for_terms(
    column: Column,
    column_name: Seq<char>,
    message: Seq<char>,
) -> bool {
    ||| !column.indexed && message == not_indexed_message(column_name)
    ||| column.indexed && column.kind == (ColumnKind::Text { tokenizer: None }) && message
        == missing_options_message(column_name)
    ||| column.indexed && (column.kind matches ColumnKind::Text { tokenizer: Some(tokenizer) }
        && message == unknown_tokenizer_message(tokenizer@))
}

/// Whether the strategy for a sentence may refuse the column with an internal
/// error of this message: as a strategy for terms may, or because the column
/// is no text column.
pub open spec fn refusal_for_sentence(
    column: Column,
    column_name: Seq<char>,
    message: Seq<char>,
) -> bool {
    ||| refusal_for_terms(column, column_name, message)
    ||| column.indexed && column.kind is Other && message == not_text_message()
}

/// Builds `prefix`, `name` and `suffix` into one string.
fn framed(prefix: &str, name: &str, suffix: &str) -> (text: String)
    ensures
        text@ == prefix@ + name@ + suffix@,
{
    let mut text = String::from_str(prefix);
    text.append(name);
    text.append(suffix);
    text
}

/// The error for a column that is not indexed.
pub fn not_indexed(column_name: &str) -> (error: IndexSearcherError)
    ensures
        error.is_internal(not_indexed_message(column_name@)),
{
    IndexSearcherError::InternalError(framed("column field:", column_name, " not indexed."))
}

/// The error for a text column without indexing options.
pub fn missing_options(column_name: &str) -> (error: IndexSearcherError)
    ensures
        error.is_internal(missing_options_message(column_name@)),
{
    IndexSearcherError::InternalError(
        framed(
            "column field:",
            column_name,
            " not indexed, but this error msg shouldn't display",
        ),
    )
}

/// The error for a text column whose analyzer the index does not know.
pub fn unknown_tokenizer(tokenizer: &str) -> (error: IndexSearcherError)
    ensures
        error.is_internal(unknown_tokenizer_message(tokenizer@)),
{
    IndexSearcherError::InternalError(framed("tokenizer:", tokenizer, " not registered."))
}

/// The analyzer that the index gave for a name, or the error for a text
/// column whose analyzer the index does not know.
pub fn analyzer_or_error(found: Option<TextAnalyzer>, tokenizer: &str) -> (analyzer: Result<
    TextAnalyzer,
    IndexSearcherError,
>)
    ensures
        found matches Some(registered) ==> analyzer == Ok::<TextAnalyzer, IndexSearcherError>(
            registered,
        ),
        found is None ==> analyzer is Err && analyzer->Err_0.is_internal(
            unknown_tokenizer_message(tokenizer@),
        ),
{
    match found {
        Some(registered) => Ok(registered),
        None => Err(unknown_tokenizer(tokenizer)),
    }
}

/// The tokens of all terms, as a term-set query looks for them: the tokens
/// that the analyzer gave for the first term, then those for the second, and
/// so on.
pub open spec fn joined(per_term: Seq<Vec<String>>) -> Seq<String> {
    per_term.map_values(|tokens: Vec<String>| tokens@).flatten()
}

/// No terms give no tokens; with terms the tokens are those of all terms but
/// the last, and then those of the last.
pub proof fn lemma_joined_last(per_term: Seq<Vec<String>>)
    ensures
        per_term.len() == 0 ==> joined(per_term) == Seq::<String>::empty(),
        per_term.len() > 0 ==> joined(per_term) == joined(per_term.drop_last())
            + per_term.last()@,
{
    let views = per_term.map_values(|tokens: Vec<String>| tokens@);
    if per_term.len() > 0 {
        let earlier = per_term.drop_last().map_values(|tokens: Vec<String>| tokens@);
        assert(views.drop_last() =~= earlier);
        views.lemma_flatten_and_flatten_alt_are_equivalent();
        earlier.lemma_flatten_and_flatten_alt_are_equivalent();
    }
}

/// Every token of every term is one of the tokens that the query looks for.
pub proof fn lemma_token_of_term_is_joined(per_term: Seq<Vec<String>>, term: int, at: int) -> (k:
    int)
    requires
        0 <= term < per_term.len(),
        0 <= at < per_term[term]@.len(),
    ensures
        0 <= k < joined(per_term).len(),
        joined(per_term)[k] == per_term[term]@[at],
    decreases per_term.len(),
{
    lemma_joined_last(per_term);
    let earlier = joined(per_term.drop_last());
    if term < per_term.len() - 1 {
        lemma_token_of_term_is_joined(per_term.drop_last(), term, at)
    } else {
        earlier.len() + at
    }
}

/// Every token that the query looks for is a token of one of the terms.
pub proof fn lemma_joined_token_is_of_term(per_term: Seq<Vec<String>>, k: int) -> (found: (
    int,
    int,
))
    requires
        0 <= k < joined(per_term).len(),
    ensures
        0 <= found.0 < per_term.len(),
        0 <= found.1 < per_term[found.0]@.len(),
        per_term[found.0]@[found.1] == joined(per_term)[k],
    decreases per_term.len(),
{
    lemma_joined_last(per_term);
    let earlier = joined(per_term.drop_last());
    if k < earlier.len() {
        lemma_joined_token_is_of_term(per_term.drop_last(), k)
    } else {
        (per_term.len() - 1, k - earlier.len())
    }
}

/// Joins the tokens that the analyzer gave for each term into the tokens that
/// the query looks for: every token of every term, in the order of the terms.
pub fn join_tokens(per_term: Vec<Vec<String>>) -> (tokens: Vec<String>)
    ensures
        tokens@ == joined(per_term@),
{
    let ghost given = per_term@;
    let mut per_term = per_term;
    let mut tokens: Vec<String> = Vec::new();
    let mut i: usize = 0;
    proof {
        lemma_joined_last(given.take(0));
    }
    while i < per_term.len()
        invariant
            i <= per_term.len(),
            per_term@.len() == given.len(),
            forall|k: int| i <= k < given.len() ==> per_term@[k] == given[k],
            tokens@ == joined(given.take(i as int)),
        decreases per_term.len() - i,
    {
        let mut of_term: Vec<String> = Vec::new();
        per_term.set_and_swap(i, &mut of_term);
        proof {
            lemma_joined_last(given.take(i + 1));
            assert(given.take(i + 1).drop_last() == given.take(i as int));
        }
        tokens.append(&mut of_term);
        i += 1;
    }
    proof {
        assert(given.take(given.len() as int) == given);
    }
    tokens
}

/// Decides how the terms of a term query or term-set query are prepared.
///
/// A column that is not indexed cannot be searched. A text column is searched
/// with its terms run through the analyzer it was indexed with; if it carries
/// no indexing options, the schema has broken its promise. Any other column is
/// searched with the terms as they are.
pub fn term_plan(column: &Column, column_name: &str) -> (plan: Result<TermPlan, IndexSearcherError>)
    ensures
        owed_for_terms(*column, column_name@, plan),
        column.indexed && column.kind is Other ==> plan == Ok::<TermPlan, IndexSearcherError>(
            TermPlan::Literal,
        ),
        column.indexed ==> (column.kind matches ColumnKind::Text { tokenizer: Some(name) }
            ==> plan == Ok::<TermPlan, IndexSearcherError>(TermPlan::Tokenize(name))),
{
    if !column.indexed {
        return Err(not_indexed(column_name));
    }
    match &column.kind {
        ColumnKind::Text { tokenizer: Some(name) } => Ok(TermPlan::Tokenize(name.clone())),
        ColumnKind::Text { tokenizer: None } => Err(missing_options(column_name)),
        ColumnKind::Other => Ok(TermPlan::Literal),
    }
}

/// Decides with which analyzer a sentence is split into terms.
///
/// A sentence can only be searched in an indexed text column.
pub fn sentence_plan(column: &Column, column_name: &str) -> (plan: Result<
    String,
    IndexSearcherError,
>)
    ensures
        owed_for_sentence(*column, column_name@, plan),
        column.indexed ==> (column.kind matches ColumnKind::Text { tokenizer: Some(name) }
            ==> plan == Ok::<String, IndexSearcherError>(name)),
{
    if !column.indexed {
        return Err(not_indexed(column_name));
    }
    match &column.kind {
        ColumnKind::Text { tokenizer: Some(name) } => Ok(name.clone()),
        ColumnKind::Text { tokenizer: None } => Err(missing_options(column_name)),
        ColumnKind::Other => Err(
            IndexSearcherError::InternalError(
                String::from_str("Not expected, column field type must be str type."),
            ),
        ),
    }
}

/// Decides whether a column is ranked by.
///
/// Only text columns are. A column that the caller named must be one. Of the
/// columns of the schema, those are ranked by that are indexed text columns;
/// the others are passed over.
pub fn ranked_field(column: &Column, column_name: &str, named: bool) -> (choice: Result<
    Option<Field>,
    IndexSearcherError,
>)
    ensures
        column.kind is Text && (named || column.indexed) ==> choice == Ok::<
            Option<Field>,
            IndexSearcherError,
        >(Some(column.field)),
        column.kind is Text && !named && !column.indexed ==> choice == Ok::<
            Option<Field>,
            IndexSearcherError,
        >(None),
        column.kind is Other && !named ==> choice == Ok::<Option<Field>, IndexSearcherError>(None),
        column.kind is Other && named ==> (choice is Err && choice->Err_0.is_internal(
            not_text_column_message(column_name@),
        )),
{
    match &column.kind {
        ColumnKind::Text { .. } => {
            if named || column.indexed {
                Ok(Some(column.field))
            } else {
                Ok(None)
            }
        },
        ColumnKind::Other => {
            if named {
                Err(
                    IndexSearcherError::InternalError(
                        framed("column field:", column_name, " is not a text column."),
                    ),
                )
            } else {
                Ok(None)
            }
        },
    }
}

} // verus!
