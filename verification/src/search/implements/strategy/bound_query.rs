//! Making queries ready to run.

use crate::common::errors::IndexSearcherError;
use crate::search::index_access::bound_segments;
use crate::search::index_access::BoundQuery;
use crate::search::index_access::parsed_query;
use crate::search::index_access::QueryFailure;
use crate::search::index_access::RecordOption;
use crate::search::index_access::Scoring;
use crate::search::index_access::regex_query;
use crate::search::index_access::schema_column;
use crate::search::index_access::schema_has_all;
use crate::search::index_access::segment_count;
use crate::search::index_access::segment_total;
use crate::search::index_access::term_query;
use crate::search::index_access::term_set_query;
use tantivy::Searcher;
use tantivy::TantivyError;
use vstd::prelude::*;

verus! {

/// The error that a failure to make a query ready stands for: a parse error
/// for an expression that is no valid query, and the error of the index
/// library for its failure.
pub fn query_error(failure: QueryFailure) -> (error: IndexSearcherError)
    ensures
        failure matches QueryFailure::Syntax(message) ==> error
            == IndexSearcherError::QueryParserError(message),
        failure matches QueryFailure::Index(e) ==> error == IndexSearcherError::TantivyError(e),
{
    match failure {
        QueryFailure::Syntax(message) => IndexSearcherError::QueryParserError(message),
        QueryFailure::Index(e) => IndexSearcherError::TantivyError(e),
    }
}

/// What the index library gave for a query, with its failure as an error of
/// this crate.
fn bound(query: Result<BoundQuery, TantivyError>) -> (ready: Result<BoundQuery, IndexSearcherError>)
    ensures
        query matches Ok(q) ==> ready == Ok::<BoundQuery, IndexSearcherError>(q),
        query matches Err(e) ==> ready == Err::<BoundQuery, IndexSearcherError>(
            IndexSearcherError::TantivyError(e),
        ),
{
    match query {
        Ok(query) => Ok(query),
        Err(e) => Err(IndexSearcherError::TantivyError(e)),
    }
}

/// How a query is bound: with scores if `scoring` is set, and without if not.
pub fn scoring_of(scoring: bool) -> (choice: Scoring)
    ensures
        choice is Enabled <==> scoring,
{
    if scoring {
        Scoring::Enabled
    } else {
        Scoring::Disabled
    }
}

impl BoundQuery {
    /// The number of segments that the query runs over.
    pub fn segments(&self) -> (total: usize)
        ensures
            total == bound_segments(*self),
    {
        segment_total(self)
    }

    /// The query for the rows in which the column holds any of the terms,
    /// taken as they are, with scores if `scoring` is set. Fails, with the
    /// error of the index library, if the schema has no such column or the
    /// index library fails.
    pub fn for_terms(searcher: &Searcher, column: &str, terms: &Vec<String>, scoring: bool) -> (ready:
        Result<BoundQuery, IndexSearcherError>)
        ensures
            ready matches Ok(query) ==> bound_segments(query) == segment_count(*searcher),
            ready is Err ==> ready->Err_0 is TantivyError,
            schema_column(*searcher, column@) is None ==> ready is Err,
    {
        bound(term_set_query(searcher, column, terms, scoring_of(scoring)))
    }

    /// The query for the rows in which the column holds the term, taken as it
    /// is, with scores if `scoring` is set; where scores are computed, they
    /// rest on how often a document holds the term. Fails, with the error of
    /// the index library, if the schema has no such column or the index
    /// library fails.
    pub fn for_term(searcher: &Searcher, column: &str, term: &str, scoring: bool) -> (ready: Result<
        BoundQuery,
        IndexSearcherError,
    >)
        ensures
            ready matches Ok(query) ==> bound_segments(query) == segment_count(*searcher),
            ready is Err ==> ready->Err_0 is TantivyError,
            schema_column(*searcher, column@) is None ==> ready is Err,
    {
        bound(term_query(searcher, column, term, RecordOption::WithFreqs, scoring_of(scoring)))
    }

    /// The query for the rows in which a term of the column matches the
    /// regular expression, with scores if `scoring` is set. Fails, with the
    /// error of the index library, if the schema has no such column, if the
    /// pattern is no valid regular expression, or if the index library fails.
    pub fn for_regex(searcher: &Searcher, column: &str, pattern: &str, scoring: bool) -> (ready:
        Result<BoundQuery, IndexSearcherError>)
        ensures
            ready matches Ok(query) ==> bound_segments(query) == segment_count(*searcher),
            ready is Err ==> ready->Err_0 is TantivyError,
            schema_column(*searcher, column@) is None ==> ready is Err,
    {
        bound(regex_query(searcher, column, pattern, scoring_of(scoring)))
    }

    /// The query for the rows that match an expression of the query
    /// language, with `columns` as the columns that are searched where the
    /// expression names none, and with scores if `scoring` is set. Fails with
    /// a parse error if the expression is no valid query, and with the error
    /// of the index library if the schema lacks one of the columns or the
    /// index library fails.
    pub fn for_expression(
        searcher: &Searcher,
        columns: &Vec<String>,
        sentence: &str,
        scoring: bool,
    ) -> (ready: Result<BoundQuery, IndexSearcherError>)
        ensures
            ready matches Ok(query) ==> bound_segments(query) == segment_count(*searcher),
            ready is Err ==> !(ready->Err_0 is InternalError),
            !schema_has_all(*searcher, columns@) ==> ready is Err && ready->Err_0 is TantivyError,
    {
        match parsed_query(searcher, columns, sentence, scoring_of(scoring)) {
            Ok(query) => Ok(query),
            Err(failure) => Err(query_error(failure)),
        }
    }
}

} // verus!
