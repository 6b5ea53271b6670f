//! The strategies: how each kind of query is built and run.
//!
//! Every strategy resolves the columns it searches, builds the query of the
//! index library, and runs it over all segments with the collector that fits
//! the kind of result. What the index matches is not in the hands of this
//! crate; what is decided here is stated at each function.

use crate::common::errors::IndexSearcherError;
use crate::records::hits_of;
use crate::records::RowIdWithScore;
use crate::search::collector::merge::concatenation;
use crate::search::collector::merge::lemma_concatenation_of_one;
use crate::search::collector::merge::lemma_same_entries_same_hits;
use crate::search::collector::segment_collect::best_of;
use crate::search::collector::segment_collect::lemma_best_are_first_of_ranked;
use crate::search::collector::segment_collect::survivors;
use crate::search::implements::strategy::segment_search::collected;
use crate::search::implements::strategy::segment_search::searched_segments;
use crate::search::implements::strategy::segment_search::RankedCollector;
use crate::search::index_access::Candidate;
use crate::search::collector::ranking::ranked;
use crate::search::collector::segment_collect::segments_below;
use crate::search::collector::segment_collect::without_text;
use crate::search::collector::stored_text::TextSource;
use crate::search::collector::row_filter::AliveSet;
use crate::search::collector::row_filter::in_range;
use crate::search::collector::row_filter::RowFilter;
use crate::search::collector::row_id_sets::bitmap_from_ids;
use crate::search::collector::row_id_sets::treemap_from_ids;
use crate::search::collector::top_docs_with_bitmap_collector::TopDocsWithFilter;
use crate::search::collector::top_docs_with_treemap_collector::TopDocsWithFilter64;
use crate::search::collector::unlimited_docs_with_treemap_collector::UnlimitedDocsWithFilter64;
use crate::search::implements::strategy::query_plan::default_ranked_names;
use crate::search::implements::strategy::query_plan::fields_of_names;
use crate::search::implements::strategy::query_plan::ranked_by_default;
use crate::search::implements::strategy::query_plan::refused_with;
use crate::search::implements::strategy::query_plan::owed_for_sentence;
use crate::search::implements::strategy::query_plan::owed_for_terms;
use crate::search::implements::strategy::query_plan::ranked_field;
use crate::search::implements::strategy::query_plan::sentence_plan;
use crate::search::implements::strategy::query_plan::term_plan;
use crate::search::implements::strategy::query_plan::TermPlan;
use crate::search::implements::strategy::query_plan::text_columns_up_to;
use crate::search::implements::strategy::collector_choice::filters_as_asked;
use crate::search::implements::strategy::collector_choice::filters_as_asked_32;
use crate::search::implements::strategy::collector_choice::reads_as_asked;
use crate::search::implements::strategy::collector_choice::ChosenCollector;
use crate::search::implements::strategy::query_plan::analyzer_or_error;
use crate::search::implements::strategy::query_plan::join_tokens;
use crate::search::collector::row_id_bitmap_collector::union_of;
use crate::search::collector::row_id_bitmap_collector::RowIdRoaringCollector;
use crate::search::collector::row_id_sets::bitmap_members;
use crate::search::implements::strategy::query_plan::refusal_for_sentence;
use crate::search::implements::strategy::query_plan::refusal_for_terms;
use crate::search::implements::strategy::segment_search::found_by;
use crate::search::implements::strategy::segment_search::search_ranked;
use crate::search::implements::strategy::segment_search::search_row_ids;
use crate::search::index_access::bound_segments;
use crate::search::index_access::BoundQuery;
use crate::search::index_access::registered_tokenizer;
use crate::search::index_access::resolve_column;
use crate::search::index_access::schema_column;
use crate::search::index_access::names_view;
use crate::search::index_access::schema_column_names;
use crate::search::index_access::schema_names;
use crate::search::index_access::schema_has_all;
use crate::search::index_access::segment_count;
use crate::search::index_access::tokenize;
use crate::search::utils::convert_utils::ConvertUtils;
use roaring::RoaringBitmap;
use std::sync::Arc;
use tantivy::schema::Field;
use tantivy::Searcher;
use tantivy::tokenizer::TextAnalyzer;
use vstd::prelude::*;
use vstd::string::StringExecFns;

verus! {

/// A way to answer one query over a searcher.
pub trait QueryStrategy<T> {
    /// What the strategy promises of its outcome, whatever the index holds.
    spec fn promises(&self, searcher: &Searcher, found: Result<T, IndexSearcherError>) -> bool;

    /// Builds the query and runs it.
    fn execute(&self, searcher: &Searcher) -> (found: Result<T, IndexSearcherError>)
        ensures
            self.promises(searcher, found),
    ;
}

/// The collector of the strategies that return row ids: it reads them from
/// the row-id column.
fn row_id_collector() -> (collector: RowIdRoaringCollector) {
    RowIdRoaringCollector::with_field(String::from_str("row_id"))
}

/// Whether `row_ids` may be what a query over the searcher gathered: the row
/// ids that were collected of any of its segments. Over no segments these
/// are none.
pub open spec fn gathers(searcher: Searcher, row_ids: RoaringBitmap) -> bool {
    exists|fruits: Seq<RoaringBitmap>|
        fruits.len() == searched_segments(segment_count(searcher)) && bitmap_members(row_ids)
            == #[trigger] union_of(fruits)
}

/// What every strategy that returns row ids promises of a success: the set
/// holds the row ids that were collected of any of the segments, and is empty
/// if the searcher has no segments.
pub open spec fn gathered_if_found(
    searcher: Searcher,
    found: Result<Arc<RoaringBitmap>, IndexSearcherError>,
) -> bool {
    found matches Ok(row_ids) ==> gathers(searcher, *row_ids) && (segment_count(searcher) == 0
        ==> bitmap_members(*row_ids) == Set::<u32>::empty())
}

/// Runs a query that was made ready for the searcher, or hands on why it was
/// not.
fn run_row_ids(
    searcher: &Searcher,
    collector: &RowIdRoaringCollector,
    query: Result<BoundQuery, IndexSearcherError>,
) -> (found: Result<Arc<RoaringBitmap>, IndexSearcherError>)
    requires
        query matches Ok(bound) ==> bound_segments(bound) == segment_count(*searcher),
    ensures
        query matches Err(e) ==> found == Err::<Arc<RoaringBitmap>, IndexSearcherError>(e),
        query is Ok && found is Err ==> found->Err_0 is TantivyError,
        gathered_if_found(*searcher, found),
{
    match query {
        Ok(query) => search_row_ids(collector, &query),
        Err(e) => Err(e),
    }
}

/// Runs each term through the analyzer and returns the tokens of each, in
/// the order of the terms. What the tokens of a term are is up to the
/// analyzer.
fn tokens_per_term(analyzer: &mut TextAnalyzer, terms: &Vec<String>) -> (per_term: Vec<Vec<String>>)
    ensures
        per_term@.len() == terms@.len(),
{
    let mut per_term: Vec<Vec<String>> = Vec::new();
    let mut i: usize = 0;
    while i < terms.len()
        invariant
            i <= terms.len(),
            per_term@.len() == i,
        decreases terms.len() - i,
    {
        per_term.push(tokenize(analyzer, terms[i].as_str()));
        i += 1;
    }
    per_term
}

/// The rows in which a column holds at least one of a group of terms.
pub struct TermSetQueryStrategy<'a> {
    /// The column that is searched.
    pub column_name: &'a str,
    /// The terms that are looked for.
    pub terms: &'a Vec<String>,
}

impl<'a> QueryStrategy<Arc<RoaringBitmap>> for TermSetQueryStrategy<'a> {
    /// If the schema has no such column, the query fails with the error of
    /// the index library. If the column is not indexed, or is a text column
    /// without indexing options, the query fails with the internal error that
    /// says so. An internal error comes only for one of these two reasons or
    /// because the analyzer of the text column is not registered, and its
    /// message says which. A failure is never a parse error. A success holds
    /// the row ids that were collected of any of the segments, and none if
    /// the searcher has no segments.
    open spec fn promises(
        &self,
        searcher: &Searcher,
        found: Result<Arc<RoaringBitmap>, IndexSearcherError>,
    ) -> bool {
        &&& found is Err ==> !(found->Err_0 is QueryParserError)
        &&& schema_column(*searcher, self.column_name@) is None ==> found is Err
            && found->Err_0 is TantivyError
        &&& schema_column(*searcher, self.column_name@) matches Some(column) ==> owed_for_terms(
            column,
            self.column_name@,
            found,
        )
        &&& found matches Err(IndexSearcherError::InternalError(message)) ==> (schema_column(
            *searcher,
            self.column_name@,
        ) matches Some(column) && refusal_for_terms(column, self.column_name@, message@))
        &&& gathered_if_found(*searcher, found)
    }

    /// Fails if the schema has no such column, if the column is not indexed,
    /// if it is a text column whose analyzer is not to be had, or if the index
    /// library fails. In a text column every term is run through the
    /// column's analyzer, and the query looks for the tokens of all terms,
    /// joined by [`join_tokens`]; in any other column it looks for the terms
    /// as they are.
    fn execute(&self, searcher: &Searcher) -> (found: Result<Arc<RoaringBitmap>, IndexSearcherError>) {
        let column = match resolve_column(searcher, self.column_name) {
            Ok(column) => column,
            Err(e) => {
                return Err(IndexSearcherError::TantivyError(e));
            },
        };
        let collector = row_id_collector();
        let scoring = collector.requires_scoring();
        let query = match term_plan(&column, self.column_name) {
            Err(e) => {
                return Err(e);
            },
            Ok(TermPlan::Tokenize(tokenizer)) => {
                let registered = registered_tokenizer(searcher, tokenizer.as_str());
                match analyzer_or_error(registered, tokenizer.as_str()) {
                    Err(e) => {
                        return Err(e);
                    },
                    Ok(analyzer) => {
                        let mut analyzer = analyzer;
                        let tokens = join_tokens(tokens_per_term(&mut analyzer, self.terms));
                        BoundQuery::for_terms(searcher, self.column_name, &tokens, scoring)
                    },
                }
            },
            Ok(TermPlan::Literal) => BoundQuery::for_terms(
                searcher,
                self.column_name,
                self.terms,
                scoring,
            ),
        };
        run_row_ids(searcher, &collector, query)
    }
}

/// The rows in which a column holds one term.
pub struct SingleTermQueryStrategy<'a> {
    /// The column that is searched.
    pub column_name: &'a str,
    /// The term that is looked for.
    pub term: &'a str,
}

impl<'a> QueryStrategy<Arc<RoaringBitmap>> for SingleTermQueryStrategy<'a> {
    /// If the schema has no such column, the query fails with the error of
    /// the index library. If the column is not indexed, or is a text column
    /// without indexing options, the query fails with the internal error that
    /// says so. An internal error comes only for one of these two reasons or
    /// because the analyzer of the text column is not registered, and its
    /// message says which. A failure is never a parse error. A success holds
    /// the row ids that were collected of any of the segments, and none if
    /// the searcher has no segments.
    open spec fn promises(
        &self,
        searcher: &Searcher,
        found: Result<Arc<RoaringBitmap>, IndexSearcherError>,
    ) -> bool {
        &&& found is Err ==> !(found->Err_0 is QueryParserError)
        &&& schema_column(*searcher, self.column_name@) is None ==> found is Err
            && found->Err_0 is TantivyError
        &&& schema_column(*searcher, self.column_name@) matches Some(column) ==> owed_for_terms(
            column,
            self.column_name@,
            found,
        )
        &&& found matches Err(IndexSearcherError::InternalError(message)) ==> (schema_column(
            *searcher,
            self.column_name@,
        ) matches Some(column) && refusal_for_terms(column, self.column_name@, message@))
        &&& gathered_if_found(*searcher, found)
    }

    /// Fails as [`TermSetQueryStrategy`] does. In a text column the term is
    /// looked for as the column's analyzer splits it, and a row matches if it
    /// holds any of the parts; in any other column the term is looked for as
    /// it is.
    fn execute(&self, searcher: &Searcher) -> (found: Result<Arc<RoaringBitmap>, IndexSearcherError>) {
        let column = match resolve_column(searcher, self.column_name) {
            Ok(column) => column,
            Err(e) => {
                return Err(IndexSearcherError::TantivyError(e));
            },
        };
        let collector = row_id_collector();
        let scoring = collector.requires_scoring();
        let query = match term_plan(&column, self.column_name) {
            Err(e) => {
                return Err(e);
            },
            Ok(TermPlan::Tokenize(tokenizer)) => {
                let registered = registered_tokenizer(searcher, tokenizer.as_str());
                match analyzer_or_error(registered, tokenizer.as_str()) {
                    Err(e) => {
                        return Err(e);
                    },
                    Ok(analyzer) => {
                        let mut analyzer = analyzer;
                        let tokens = tokenize(&mut analyzer, self.term);
                        BoundQuery::for_terms(searcher, self.column_name, &tokens, scoring)
                    },
                }
            },
            Ok(TermPlan::Literal) => BoundQuery::for_term(
                searcher,
                self.column_name,
                self.term,
                scoring,
            ),
        };
        run_row_ids(searcher, &collector, query)
    }
}

/// The rows in which a term of a column matches a `LIKE` pattern.
pub struct RegexQueryStrategy<'a> {
    /// The column that is searched.
    pub column_name: &'a str,
    /// The `LIKE` pattern.
    pub pattern: &'a str,
}

impl<'a> QueryStrategy<Arc<RoaringBitmap>> for RegexQueryStrategy<'a> {
    /// If the schema has no such column, the query fails. A failure is
    /// always a failure of the index library. A success holds the row ids
    /// that were collected of any of the segments, and none if the searcher
    /// has no segments.
    open spec fn promises(
        &self,
        searcher: &Searcher,
        found: Result<Arc<RoaringBitmap>, IndexSearcherError>,
    ) -> bool {
        &&& found is Err ==> found->Err_0 is TantivyError
        &&& schema_column(*searcher, self.column_name@) is None ==> found is Err
        &&& gathered_if_found(*searcher, found)
    }

    /// Fails if the schema has no such column, if the pattern does not give
    /// a valid regular expression, or if the index library fails. The regular
    /// expression is that of [`ConvertUtils::like_to_regex`].
    fn execute(&self, searcher: &Searcher) -> (found: Result<Arc<RoaringBitmap>, IndexSearcherError>) {
        let collector = row_id_collector();
        let regex = ConvertUtils::like_to_regex(self.pattern);
        let query = BoundQuery::for_regex(
            searcher,
            self.column_name,
            regex.as_str(),
            collector.requires_scoring(),
        );
        run_row_ids(searcher, &collector, query)
    }
}

/// The rows in which a text column holds at least one word of a sentence.
pub struct SentenceQueryStrategy<'a> {
    /// The column that is searched.
    pub column_name: &'a str,
    /// The sentence whose words are looked for.
    pub sentence: &'a str,
}

impl<'a> QueryStrategy<Arc<RoaringBitmap>> for SentenceQueryStrategy<'a> {
    /// If the schema has no such column, the query fails with the error of
    /// the index library. If the column is not indexed, is no text column, or
    /// is a text column without indexing options, the query fails with the
    /// internal error that says so. An internal error comes only for one of
    /// these reasons or because the analyzer of the column is not registered,
    /// and its message says which. A failure is never a parse error. A
    /// success holds the row ids that were collected of any of the segments,
    /// and none if the searcher has no segments.
    open spec fn promises(
        &self,
        searcher: &Searcher,
        found: Result<Arc<RoaringBitmap>, IndexSearcherError>,
    ) -> bool {
        &&& found is Err ==> !(found->Err_0 is QueryParserError)
        &&& schema_column(*searcher, self.column_name@) is None ==> found is Err
            && found->Err_0 is TantivyError
        &&& schema_column(*searcher, self.column_name@) matches Some(column)
            ==> owed_for_sentence(column, self.column_name@, found)
        &&& found matches Err(IndexSearcherError::InternalError(message)) ==> (schema_column(
            *searcher,
            self.column_name@,
        ) matches Some(column) && refusal_for_sentence(column, self.column_name@, message@))
        &&& gathered_if_found(*searcher, found)
    }

    /// Fails if the schema has no such column, if the column is not an
    /// indexed text column, if its analyzer is not to be had, or if the index
    /// library fails. The sentence is split by the column's analyzer.
    fn execute(&self, searcher: &Searcher) -> (found: Result<Arc<RoaringBitmap>, IndexSearcherError>) {
        let column = match resolve_column(searcher, self.column_name) {
            Ok(column) => column,
            Err(e) => {
                return Err(IndexSearcherError::TantivyError(e));
            },
        };
        let tokenizer = match sentence_plan(&column, self.column_name) {
            Ok(tokenizer) => tokenizer,
            Err(e) => {
                return Err(e);
            },
        };
        let registered = registered_tokenizer(searcher, tokenizer.as_str());
        let tokens = match analyzer_or_error(registered, tokenizer.as_str()) {
            Err(e) => {
                return Err(e);
            },
            Ok(analyzer) => {
                let mut analyzer = analyzer;
                tokenize(&mut analyzer, self.sentence)
            },
        };
        let collector = row_id_collector();
        let query = BoundQuery::for_terms(
            searcher,
            self.column_name,
            &tokens,
            collector.requires_scoring(),
        );
        run_row_ids(searcher, &collector, query)
    }
}

/// The rows that match an expression of the query language, with one column
/// as the one that is searched where the expression names none.
pub struct ParserQueryStrategy<'a> {
    /// The column that is searched by default.
    pub column_name: &'a str,
    /// The query expression.
    pub sentence: &'a str,
}

impl<'a> QueryStrategy<Arc<RoaringBitmap>> for ParserQueryStrategy<'a> {
    /// If the schema has no such column, the query fails with the error of
    /// the index library. A parse error comes only if the schema has the
    /// column. A failure is never an internal error. A success holds the
    /// row ids that were collected of any of the segments, and none if the
    /// searcher has no segments.
    open spec fn promises(
        &self,
        searcher: &Searcher,
        found: Result<Arc<RoaringBitmap>, IndexSearcherError>,
    ) -> bool {
        &&& found is Err ==> !(found->Err_0 is InternalError)
        &&& schema_column(*searcher, self.column_name@) is None ==> found is Err
            && found->Err_0 is TantivyError
        &&& found matches Err(IndexSearcherError::QueryParserError(_)) ==> schema_column(
            *searcher,
            self.column_name@,
        ) is Some
        &&& gathered_if_found(*searcher, found)
    }

    /// Fails if the schema has no such column, with a parse error if the
    /// expression is not a valid query, or if the index library fails.
    fn execute(&self, searcher: &Searcher) -> (found: Result<Arc<RoaringBitmap>, IndexSearcherError>) {
        let mut columns: Vec<String> = Vec::new();
        columns.push(String::from_str(self.column_name));
        proof {
            if schema_column(*searcher, self.column_name@) is None {
                assert(columns@[0]@ == self.column_name@);
                assert(!schema_has_all(*searcher, columns@));
            }
        }
        let collector = row_id_collector();
        let query = BoundQuery::for_expression(
            searcher,
            &columns,
            self.sentence,
            collector.requires_scoring(),
        );
        run_row_ids(searcher, &collector, query)
    }
}

/// The text columns that a ranked query searches.
pub struct RankedColumns {
    /// The names of the columns.
    pub names: Vec<String>,
    /// The columns themselves, in the same order.
    pub fields: Vec<Field>,
}

/// Whether every named column is a text column of the schema. Without
/// named columns this holds.
pub open spec fn names_text_columns(searcher: Searcher, column_names: Seq<String>) -> bool {
    text_columns_up_to(searcher, column_names, column_names.len() as int)
}

/// Taking one more element into a sequence adds it to the filtered sequence
/// if it passes the test.
proof fn lemma_filter_take_step<T>(s: Seq<T>, test: spec_fn(T) -> bool, i: int)
    requires
        0 <= i < s.len(),
    ensures
        s.take(i + 1).filter(test) == if test(s[i]) {
            s.take(i).filter(test).push(s[i])
        } else {
            s.take(i).filter(test)
        },
{
    reveal(Seq::filter);
    assert(s.take(i + 1).drop_last() == s.take(i));
}

/// Resolves the text columns that a ranked query searches: the named columns,
/// or, if none is named, every indexed text column of the schema but the
/// row-id column, in the order of the schema.
///
/// Succeeds if no column is named. With named columns it succeeds if each of
/// them is a text column of the schema, and then returns them in the order in
/// which they were named; else it fails for the first that is none, with the
/// error of the index library if the schema lacks it and with an internal
/// error if it is no text column.
pub fn ranked_fields(searcher: &Searcher, column_names: &Vec<String>) -> (columns: Result<
    RankedColumns,
    IndexSearcherError,
>)
    ensures
        columns is Ok <==> names_text_columns(*searcher, column_names@),
        columns matches Ok(found) ==> fields_of_names(*searcher, found.names@, found.fields@),
        columns matches Ok(found) ==> names_view(found.names@) == if column_names@.len() > 0 {
            names_view(column_names@)
        } else {
            default_ranked_names(*searcher)
        },
        columns matches Err(e) ==> exists|i: int|
            #[trigger] refused_with(*searcher, column_names@, i, e),
{
    let named: bool = column_names.len() > 0;
    let all_names = if named {
        Vec::new()
    } else {
        schema_column_names(searcher)
    };
    let candidates = if named {
        column_names
    } else {
        &all_names
    };
    let row_id = String::from_str("row_id");
    let mut names: Vec<String> = Vec::new();
    let mut fields: Vec<Field> = Vec::new();
    let mut i: usize = 0;
    proof {
        reveal(Seq::filter);
        assert(names_view(names@) =~= names_view(candidates@).take(0));
        assert(names_view(candidates@).take(0).filter(ranked_by_default(*searcher))
            =~= names_view(names@));
    }
    while i < candidates.len()
        invariant
            i <= candidates.len(),
            row_id@ == "row_id"@,
            named == (column_names@.len() > 0),
            named ==> candidates@ == column_names@,
            named ==> text_columns_up_to(*searcher, candidates@, i as int),
            named ==> names_view(names@) == names_view(candidates@).take(i as int),
            !named ==> schema_has_all(*searcher, candidates@),
            !named ==> names_view(candidates@) == schema_names(*searcher),
            !named ==> names_view(names@) == names_view(candidates@).take(i as int).filter(
                ranked_by_default(*searcher),
            ),
            fields_of_names(*searcher, names@, fields@),
        decreases candidates.len() - i,
    {
        let name = &candidates[i];
        let ghost names_before = names@;
        let ghost fields_before = fields@;
        proof {
            lemma_filter_take_step(
                names_view(candidates@),
                ranked_by_default(*searcher),
                i as int,
            );
            assert(names_view(candidates@)[i as int] == name@);
            assert(names_view(candidates@).take(i + 1) =~= names_view(candidates@).take(
                i as int,
            ).push(name@));
        }
        if named || !(*name == row_id) {
            match resolve_column(searcher, name.as_str()) {
                Err(e) => {
                    let error = IndexSearcherError::TantivyError(e);
                    assert(refused_with(*searcher, column_names@, i as int, error));
                    return Err(error);
                },
                Ok(column) => match ranked_field(&column, name.as_str(), named) {
                    Err(e) => {
                        assert(refused_with(*searcher, column_names@, i as int, e));
                        return Err(e);
                    },
                    Ok(Some(field)) => {
                        names.push(name.clone());
                        fields.push(field);
                        proof {
                            assert(names_view(names@) =~= names_view(names_before).push(name@));
                            assert forall|k: int| 0 <= k < names@.len() implies (schema_column(
                                *searcher,
                                (#[trigger] names@[k])@,
                            ) matches Some(c) && c.field == fields@[k]) by {
                                if k < names_before.len() {
                                    assert(names@[k] == names_before[k]);
                                    assert(fields@[k] == fields_before[k]);
                                }
                            }
                        }
                    },
                    Ok(None) => {},
                },
            }
        }
        i += 1;
    }
    proof {
        assert(names_view(candidates@).take(candidates@.len() as int) =~= names_view(
            candidates@,
        ));
    }
    Ok(RankedColumns { names, fields })
}

/// Whether the entries carry stored text as it was asked for: none if none
/// was asked for, and, if columns were named, no more than one text for each
/// of them.
pub open spec fn texts_as_asked(
    need_doc: bool,
    column_names: Seq<String>,
    entries: Seq<RowIdWithScore>,
) -> bool {
    &&& !need_doc ==> without_text(entries)
    &&& need_doc && column_names.len() > 0 ==> forall|i: int|
        0 <= i < entries.len() ==> (#[trigger] entries[i]).docs@.len() <= column_names.len()
}

/// Whether the entries carry stored text as a text source that reads `fields`
/// gives it: none if none is asked for, and else no more than one text for
/// each of the columns.
pub open spec fn texts_of_fields(
    need_doc: bool,
    fields: Vec<Field>,
    entries: Seq<RowIdWithScore>,
) -> bool {
    &&& !need_doc ==> without_text(entries)
    &&& need_doc ==> forall|i: int|
        0 <= i < entries.len() ==> (#[trigger] entries[i]).docs@.len() <= fields@.len()
}

/// Entries whose text may be the stored text of their documents carry text
/// as a text source that reads `fields` gives it.
proof fn lemma_texts_of_fields(
    text: TextSource,
    need_doc: bool,
    fields: Vec<Field>,
    entries: Seq<RowIdWithScore>,
)
    requires
        text.may_hold(entries),
        reads_as_asked(text, need_doc, fields),
    ensures
        texts_of_fields(need_doc, fields, entries),
{
    assert forall|i: int| 0 <= i < entries.len() implies (!need_doc ==> (
    #[trigger] entries[i]).docs@.len() == 0) && (need_doc ==> entries[i].docs@.len()
        <= fields@.len()) by {
        assert(text.may_read(entries[i].seg_id, entries[i].docs@));
    }
}

/// The best rows for a sentence, ranked by relevance, for 32-bit row ids.
pub struct BM25QueryStrategy<'a> {
    /// The query expression.
    pub sentence: &'a str,
    /// How many rows are kept per segment.
    pub topk: &'a u32,
    /// The rows that are alive.
    pub alived_ids: &'a Vec<u32>,
    /// Whether only alive rows are returned.
    pub query_with_filter: &'a bool,
    /// Whether stored text is attached to the rows.
    pub need_doc: &'a bool,
    /// The text columns that are searched; all of them if empty.
    pub column_names: &'a Vec<String>,
}

impl<'a> BM25QueryStrategy<'a> {
    /// Whether the strategy may return the row: it is alive, if rows are
    /// filtered by the alive rows.
    pub open spec fn returns_row(&self, row_id: u64) -> bool {
        *self.query_with_filter ==> row_id <= u32::MAX && self.alived_ids@.contains(row_id as u32)
    }

    /// Whether `collector` is the collector that the strategy runs with, if
    /// stored text is read from the columns `fields`: it keeps `topk` rows of
    /// each segment, and filters and reads text as the strategy asks.
    pub open spec fn chooses(&self, fields: Vec<Field>, collector: TopDocsWithFilter) -> bool {
        &&& collector.limit == *self.topk
        &&& filters_as_asked_32(collector.filter, *self.query_with_filter, self.alived_ids@)
        &&& reads_as_asked(collector.text, *self.need_doc, fields)
    }

    /// Whether `found` is the outcome of searching the query `query`, bound to
    /// the searcher, with the collector `collector` that the strategy chose.
    pub open spec fn searched(
        &self,
        searcher: Searcher,
        query: BoundQuery,
        fields: Vec<Field>,
        collector: TopDocsWithFilter,
        found: Result<Vec<RowIdWithScore>, IndexSearcherError>,
    ) -> bool {
        &&& bound_segments(query) == segment_count(searcher)
        &&& self.chooses(fields, collector)
        &&& found_by(&collector, &query, found)
    }

    /// What a result of a search over `segments` segments is like, whatever
    /// matched: ranked, of rows that the strategy may return, no more than
    /// `topk` for each segment, each from one of the segments, and with
    /// stored text as `fields` gives it.
    pub open spec fn finds(
        &self,
        segments: nat,
        fields: Vec<Field>,
        entries: Seq<RowIdWithScore>,
    ) -> bool {
        &&& ranked(hits_of(entries))
        &&& entries.len() <= *self.topk * segments
        &&& forall|i: int| 0 <= i < entries.len() ==> self.returns_row((#[trigger] entries[i]).row_id)
        &&& segments_below(entries, segments)
        &&& texts_of_fields(*self.need_doc, fields, entries)
    }

    /// The collector that the strategy runs with.
    pub fn collector_for(&self, searcher: &Searcher, fields: Vec<Field>) -> (collector:
        TopDocsWithFilter)
        ensures
            self.chooses(fields, collector),
    {
        let collector = TopDocsWithFilter::with_limit(*self.topk as usize).with_searcher(
            searcher.clone(),
        ).with_text_fields(fields).with_stored_text(*self.need_doc);
        if *self.query_with_filter {
            collector.with_alive(Arc::new(bitmap_from_ids(self.alived_ids)))
        } else {
            collector
        }
    }

    /// Searches a query that is bound to the searcher, with the collector
    /// that the strategy chooses. The outcome is that of the search with this
    /// collector; it fails only if the index library fails.
    pub fn search_bound(&self, searcher: &Searcher, query: &BoundQuery, fields: Vec<Field>) -> (found:
        Result<Vec<RowIdWithScore>, IndexSearcherError>)
        ensures
            exists|collector: TopDocsWithFilter| #[trigger]
                self.chooses(fields, collector) && found_by(&collector, query, found),
            found matches Ok(entries) ==> self.finds(bound_segments(*query), fields, entries@),
            found is Err ==> found->Err_0 is TantivyError,
    {
        let collector = self.collector_for(searcher, fields);
        let found = search_ranked(query, &collector);
        proof {
            if found is Ok {
                let entries = found->Ok_0;
                lemma_texts_of_fields(collector.text, *self.need_doc, fields, entries@);
                assert forall|i: int| 0 <= i < entries@.len() implies self.returns_row(
                    (#[trigger] entries@[i]).row_id,
                ) by {
                    assert(collector.filter.admits(entries@[i].row_id));
                }
            }
        }
        found
    }
}

/// What the outcome of a ranked query is like by the columns that were
/// named, whatever the index holds: if one of them is no text column of the
/// schema, the query fails, for the first of them, with the error of the
/// index library if the schema lacks the column and with the internal error
/// that says that it is no text column else. An internal error comes for no
/// other reason, and a parse error only if all named columns are text
/// columns.
pub open spec fn refuses_names<T>(
    searcher: Searcher,
    column_names: Seq<String>,
    found: Result<T, IndexSearcherError>,
) -> bool {
    &&& !names_text_columns(searcher, column_names) ==> found is Err && exists|i: int| #[trigger]
        refused_with(searcher, column_names, i, found->Err_0)
    &&& found matches Err(IndexSearcherError::InternalError(_)) ==> exists|i: int| #[trigger]
        refused_with(searcher, column_names, i, found->Err_0)
    &&& found matches Err(IndexSearcherError::QueryParserError(_)) ==> names_text_columns(
        searcher,
        column_names,
    )
}

/// Named columns that resolved are as many as were named.
proof fn lemma_resolved_names(searcher: Searcher, column_names: Seq<String>, found: RankedColumns)
    requires
        fields_of_names(searcher, found.names@, found.fields@),
        column_names.len() > 0,
        names_view(found.names@) == names_view(column_names),
    ensures
        found.fields@.len() == column_names.len(),
{
    assert(names_view(found.names@).len() == found.names@.len());
    assert(names_view(column_names).len() == column_names.len());
}

impl<'a> QueryStrategy<Vec<RowIdWithScore>> for BM25QueryStrategy<'a> {
    /// A result is the outcome of searching a query that is bound to the
    /// searcher with the collector that the strategy chooses. It is ranked,
    /// holds no more rows than `topk` for each segment of the searcher, and,
    /// if rows are filtered, only alive rows. Every entry names a segment of
    /// the searcher and carries stored text as it was asked for. When the
    /// query fails for the columns that were named is said by
    /// [`refuses_names`].
    open spec fn promises(
        &self,
        searcher: &Searcher,
        found: Result<Vec<RowIdWithScore>, IndexSearcherError>,
    ) -> bool {
        &&& found matches Ok(entries) ==> exists|
            query: BoundQuery,
            fields: Vec<Field>,
            collector: TopDocsWithFilter,
        | #[trigger]
            self.searched(*searcher, query, fields, collector, found) && self.finds(
                segment_count(*searcher),
                fields,
                entries@,
            )
        &&& found matches Ok(entries) ==> texts_as_asked(
            *self.need_doc,
            self.column_names@,
            entries@,
        )
        &&& refuses_names(*searcher, self.column_names@, found)
    }

    /// Fails if a named column is missing or is no text column, with a parse
    /// error if the sentence is not a valid query, or if the index library
    /// fails.
    fn execute(&self, searcher: &Searcher) -> (found: Result<Vec<RowIdWithScore>, IndexSearcherError>) {
        let columns = match ranked_fields(searcher, self.column_names) {
            Ok(columns) => columns,
            Err(e) => {
                return Err(e);
            },
        };
        let query = match BoundQuery::for_expression(
            searcher,
            &columns.names,
            self.sentence,
            true,
        ) {
            Ok(query) => query,
            Err(e) => {
                return Err(e);
            },
        };
        proof {
            if self.column_names@.len() > 0 {
                lemma_resolved_names(*searcher, self.column_names@, columns);
            }
        }
        let ghost fields = columns.fields;
        let found = self.search_bound(searcher, &query, columns.fields);
        proof {
            if found is Ok {
                let collector = choose|collector: TopDocsWithFilter| #[trigger]
                    self.chooses(fields, collector) && found_by(&collector, &query, found);
                assert(self.searched(*searcher, query, fields, collector, found));
            }
        }
        found
    }
}

/// The rows for a sentence, ranked by relevance, for 64-bit row ids: the best
/// of each segment, or all of them.
pub struct BM25QueryStrategy64<'a> {
    /// The query expression.
    pub sentence: &'a str,
    /// How many rows are kept per segment, unless all are asked for.
    pub topk: &'a u32,
    /// The rows that are alive.
    pub alived_ids: &'a Vec<u64>,
    /// Whether only alive rows are returned.
    pub query_with_filter: &'a bool,
    /// Whether only rows of the id range are returned.
    pub query_with_id_range: &'a bool,
    /// The first row id of the range.
    pub start_id: &'a u64,
    /// The row id that ends the range and is not part of it.
    pub end_id: &'a u64,
    /// Whether stored text is attached to the rows.
    pub need_doc: &'a bool,
    /// The text columns that are searched; all of them if empty.
    pub column_names: &'a Vec<String>,
    /// Whether all matching rows are returned, not only the best.
    pub query_unlimited: &'a bool,
}

impl<'a> BM25QueryStrategy64<'a> {
    /// Whether the strategy may return the row: it is alive, if rows are
    /// filtered by the alive rows, and lies in the id range, if rows are
    /// filtered by it.
    pub open spec fn returns_row(&self, row_id: u64) -> bool {
        &&& *self.query_with_filter ==> self.alived_ids@.contains(row_id)
        &&& *self.query_with_id_range ==> in_range((*self.start_id, *self.end_id), row_id)
    }

    /// Whether `collector` is the collector that the strategy runs with, if
    /// stored text is read from the columns `fields`: the one that keeps all
    /// rows exactly if all rows are asked for, and else the one that keeps
    /// `topk` rows of each segment; and it filters and reads text as the
    /// strategy asks.
    pub open spec fn chooses(&self, fields: Vec<Field>, collector: ChosenCollector) -> bool {
        &&& collector is Unlimited <==> *self.query_unlimited
        &&& collector matches ChosenCollector::Bounded(bounded) ==> bounded.limit == *self.topk
        &&& filters_as_asked(
            collector.filter(),
            *self.query_with_filter,
            self.alived_ids@,
            *self.query_with_id_range,
            *self.start_id,
            *self.end_id,
        )
        &&& reads_as_asked(collector.text(), *self.need_doc, fields)
    }

    /// Whether `found` is the outcome of searching the query `query`, bound to
    /// the searcher, with the collector `collector` that the strategy chose.
    pub open spec fn searched(
        &self,
        searcher: Searcher,
        query: BoundQuery,
        fields: Vec<Field>,
        collector: ChosenCollector,
        found: Result<Vec<RowIdWithScore>, IndexSearcherError>,
    ) -> bool {
        &&& bound_segments(query) == segment_count(searcher)
        &&& self.chooses(fields, collector)
        &&& found_by(&collector, &query, found)
    }

    /// What a result of a search over `segments` segments is like, whatever
    /// matched: ranked, of rows that the strategy may return, no more than
    /// `topk` for each segment unless all rows are asked for, each from one of
    /// the segments, and with stored text as `fields` gives it.
    pub open spec fn finds(
        &self,
        segments: nat,
        fields: Vec<Field>,
        entries: Seq<RowIdWithScore>,
    ) -> bool {
        &&& ranked(hits_of(entries))
        &&& !*self.query_unlimited ==> entries.len() <= *self.topk * segments
        &&& forall|i: int| 0 <= i < entries.len() ==> self.returns_row((#[trigger] entries[i]).row_id)
        &&& segments_below(entries, segments)
        &&& texts_of_fields(*self.need_doc, fields, entries)
    }

    /// The filter that the strategy asks for.
    pub fn filter_for(&self) -> (filter: RowFilter)
        ensures
            filters_as_asked(
                filter,
                *self.query_with_filter,
                self.alived_ids@,
                *self.query_with_id_range,
                *self.start_id,
                *self.end_id,
            ),
    {
        let alive = if *self.query_with_filter {
            Some(AliveSet::Ids64(Arc::new(treemap_from_ids(self.alived_ids))))
        } else {
            None
        };
        let range = if *self.query_with_id_range {
            Some((*self.start_id, *self.end_id))
        } else {
            None
        };
        RowFilter { alive, range }
    }

    /// The collector that the strategy runs with.
    pub fn collector_for(&self, searcher: &Searcher, fields: Vec<Field>) -> (collector:
        ChosenCollector)
        ensures
            self.chooses(fields, collector),
    {
        let filter = self.filter_for();
        let text = TextSource {
            searcher: Some(searcher.clone()),
            text_fields: Some(fields),
            need_text: *self.need_doc,
        };
        if *self.query_unlimited {
            ChosenCollector::Unlimited(UnlimitedDocsWithFilter64 { filter, text })
        } else {
            ChosenCollector::Bounded(
                TopDocsWithFilter64 { filter, limit: *self.topk as usize, text },
            )
        }
    }

    /// Searches a query that is bound to the searcher, with the collector
    /// that the strategy chooses. The outcome is that of the search with this
    /// collector; it fails only if the index library fails.
    pub fn search_bound(&self, searcher: &Searcher, query: &BoundQuery, fields: Vec<Field>) -> (found:
        Result<Vec<RowIdWithScore>, IndexSearcherError>)
        ensures
            exists|collector: ChosenCollector| #[trigger]
                self.chooses(fields, collector) && found_by(&collector, query, found),
            found matches Ok(entries) ==> self.finds(bound_segments(*query), fields, entries@),
            found is Err ==> found->Err_0 is TantivyError,
    {
        let collector = self.collector_for(searcher, fields);
        let found = search_ranked(query, &collector);
        proof {
            if found is Ok {
                let entries = found->Ok_0;
                lemma_texts_of_fields(collector.text(), *self.need_doc, fields, entries@);
                assert forall|i: int| 0 <= i < entries@.len() implies self.returns_row(
                    (#[trigger] entries@[i]).row_id,
                ) by {
                    assert(collector.filter().admits(entries@[i].row_id));
                }
            }
        }
        found
    }
}

/// Whether `entries` is what a ranked query for the best `limit` rows finds in
/// an index of one segment in which the documents `candidates` match: the
/// best `limit` of those that are not deleted and pass the filter, ranked.
pub open spec fn best_of_one_segment(
    filter: RowFilter,
    limit: nat,
    candidates: Seq<Candidate>,
    entries: Seq<RowIdWithScore>,
) -> bool {
    &&& ranked(hits_of(entries))
    &&& best_of(hits_of(entries), survivors(filter, candidates, 0), limit)
}

/// Whether `entries` is what a ranked query for all rows finds in an index
/// of one segment in which the documents `candidates` match: all of those
/// that are not deleted and pass the filter, each once, ranked.
pub open spec fn all_of_one_segment(
    filter: RowFilter,
    candidates: Seq<Candidate>,
    entries: Seq<RowIdWithScore>,
) -> bool {
    &&& ranked(hits_of(entries))
    &&& hits_of(entries).to_multiset() == survivors(filter, candidates, 0).to_multiset()
}

/// Over an index of one segment, a ranked query that succeeds finds the rows
/// of some documents that matched: all of those that are not deleted and pass
/// the filter that the strategy asks for, if all rows are asked for, and else
/// the best `topk` of them. So a query for all rows is not capped by `topk`,
/// and a query for the best rows returns as many as `topk` allows and drops
/// no row for one that ranks after it.
pub proof fn lemma_ranked_query_over_one_segment(
    strategy: BM25QueryStrategy64,
    searcher: Searcher,
    found: Vec<RowIdWithScore>,
) -> (scan: (RowFilter, Seq<Candidate>))
    requires
        strategy.promises(&searcher, Ok(found)),
        segment_count(searcher) == 1,
    ensures
        filters_as_asked(
            scan.0,
            *strategy.query_with_filter,
            strategy.alived_ids@,
            *strategy.query_with_id_range,
            *strategy.start_id,
            *strategy.end_id,
        ),
        *strategy.query_unlimited ==> all_of_one_segment(scan.0, scan.1, found@),
        !*strategy.query_unlimited ==> best_of_one_segment(
            scan.0,
            *strategy.topk as nat,
            scan.1,
            found@,
        ),
{
    let outcome = Ok::<Vec<RowIdWithScore>, IndexSearcherError>(found);
    let (query, fields, collector) = choose|
        query: BoundQuery,
        fields: Vec<Field>,
        collector: ChosenCollector,
    | #[trigger]
        strategy.searched(searcher, query, fields, collector, outcome) && strategy.finds(
            segment_count(searcher),
            fields,
            found@,
        );
    assert(found_by(&collector, &query, outcome));
    let fruits = choose|fruits: Seq<Vec<RowIdWithScore>>|
        {
            &&& #[trigger] collected(&collector, &query, fruits)
            &&& fruits.len() == searched_segments(bound_segments(query))
            &&& ranked(hits_of(found@))
            &&& found@.to_multiset() == concatenation(fruits).to_multiset()
        };
    lemma_concatenation_of_one(fruits);
    let fruit = fruits[0]@;
    lemma_same_entries_same_hits(found@, fruit);
    vstd::seq_lib::to_multiset_len(found@);
    vstd::seq_lib::to_multiset_len(fruit);
    assert(collector.collects(&query, 0u32, Ok(fruits[0])));
    match collector {
        ChosenCollector::Unlimited(unlimited) => {
            let candidates = choose|candidates: Seq<Candidate>| #[trigger]
                unlimited.keeps(candidates, 0u32, fruit);
            (unlimited.filter, candidates)
        },
        ChosenCollector::Bounded(bounded) => {
            let candidates = choose|candidates: Seq<Candidate>| #[trigger]
                bounded.keeps(candidates, 0u32, fruit);
            (bounded.filter, candidates)
        },
    }
}

/// Over the same documents of one segment and with the same filter, a query
/// for the best `limit` rows finds the first `limit` rows of what a query for
/// all rows finds, or all of them if there are fewer.
pub proof fn lemma_best_rows_are_first_of_all_rows(
    filter: RowFilter,
    limit: nat,
    candidates: Seq<Candidate>,
    best: Seq<RowIdWithScore>,
    all: Seq<RowIdWithScore>,
)
    requires
        best_of_one_segment(filter, limit, candidates, best),
        all_of_one_segment(filter, candidates, all),
    ensures
        hits_of(best) == hits_of(all).take(best.len() as int),
        best.len() == if all.len() <= limit {
            all.len()
        } else {
            limit
        },
{
    lemma_best_are_first_of_ranked(
        hits_of(all),
        hits_of(best),
        survivors(filter, candidates, 0),
        limit,
    );
}

impl<'a> QueryStrategy<Vec<RowIdWithScore>> for BM25QueryStrategy64<'a> {
    /// A result is the outcome of searching a query that is bound to the
    /// searcher with the collector that the strategy chooses: the one that
    /// keeps all rows if all rows are asked for. It is ranked and holds only
    /// rows that the strategy may return; unless all rows are asked for, it
    /// holds no more rows than `topk` for each segment of the searcher. Every
    /// entry names a segment of the searcher and carries stored text as it was
    /// asked for. When the query fails for the columns that were named is
    /// said by [`refuses_names`].
    open spec fn promises(
        &self,
        searcher: &Searcher,
        found: Result<Vec<RowIdWithScore>, IndexSearcherError>,
    ) -> bool {
        &&& found matches Ok(entries) ==> exists|
            query: BoundQuery,
            fields: Vec<Field>,
            collector: ChosenCollector,
        | #[trigger]
            self.searched(*searcher, query, fields, collector, found) && self.finds(
                segment_count(*searcher),
                fields,
                entries@,
            )
        &&& found matches Ok(entries) ==> texts_as_asked(
            *self.need_doc,
            self.column_names@,
            entries@,
        )
        &&& refuses_names(*searcher, self.column_names@, found)
    }

    /// Fails if a named column is missing or is no text column, with a parse
    /// error if the sentence is not a valid query, or if the index library
    /// fails.
    fn execute(&self, searcher: &Searcher) -> (found: Result<Vec<RowIdWithScore>, IndexSearcherError>) {
        let columns = match ranked_fields(searcher, self.column_names) {
            Ok(columns) => columns,
            Err(e) => {
                return Err(e);
            },
        };
        let query = match BoundQuery::for_expression(
            searcher,
            &columns.names,
            self.sentence,
            true,
        ) {
            Ok(query) => query,
            Err(e) => {
                return Err(e);
            },
        };
        proof {
            if self.column_names@.len() > 0 {
                lemma_resolved_names(*searcher, self.column_names@, columns);
            }
        }
        let ghost fields = columns.fields;
        let found = self.search_bound(searcher, &query, columns.fields);
        proof {
            if found is Ok {
                let collector = choose|collector: ChosenCollector| #[trigger]
                    self.chooses(fields, collector) && found_by(&collector, &query, found);
                assert(self.searched(*searcher, query, fields, collector, found));
            }
        }
        found
    }
}

/// Runs the strategy it was made with.
pub struct QueryExecutor<'a, T, S: QueryStrategy<T> + ?Sized> {
    strategy: &'a S,
    _marker: std::marker::PhantomData<T>,
}

impl<'a, T, S: QueryStrategy<T> + ?Sized> QueryExecutor<'a, T, S> {
    /// The strategy that the executor runs.
    pub closed spec fn strategy(&self) -> &'a S {
        self.strategy
    }

    /// An executor for `strategy`.
    pub fn new(strategy: &'a S) -> (executor: Self)
        ensures
            executor.strategy() == strategy,
    {
        QueryExecutor { strategy, _marker: std::marker::PhantomData }
    }

    /// Runs the strategy over the searcher: the outcome is that of the
    /// strategy.
    pub fn execute(&self, searcher: &Searcher) -> (found: Result<T, IndexSearcherError>)
        ensures
            self.strategy().promises(searcher, found),
    {
        self.strategy.execute(searcher)
    }
}

} // verus!
