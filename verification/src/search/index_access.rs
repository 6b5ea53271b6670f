//! What this crate asks of the index library, `tantivy`.
//!
//! The searcher, its segments, its schema and its queries are opaque to the
//! verifier. Every function of this module hands a question to `tantivy` and
//! brings the answer back as plain values. None of them is proved, and since
//! every answer depends on the index that the searcher was opened on, nothing
//! is promised of the answers beyond what is written at each function.

use tantivy::DocAddress;
use tantivy::query::EnableScoring;
use tantivy::query::Query;
use tantivy::query::QueryParser;
use tantivy::query::RegexQuery;
use tantivy::query::TermQuery;
use tantivy::query::TermSetQuery;
use tantivy::query::Weight;
use tantivy::schema::Field;
use tantivy::schema::FieldType;
use tantivy::schema::IndexRecordOption;
use tantivy::schema::Value;
use tantivy::Searcher;
use tantivy::SegmentReader;
use tantivy::TantivyDocument;
use tantivy::TantivyError;
use tantivy::Term;
use tantivy::tokenizer::TextAnalyzer;
use vstd::prelude::*;

verus! {

/// The searcher of `tantivy`: a fixed set of segments of an index, opaque to
/// the verifier.
#[verifier::external_type_specification]
#[verifier::external_body]
pub struct ExSearcher(Searcher);

/// The reader of one segment, opaque to the verifier.
#[verifier::external_type_specification]
#[verifier::external_body]
pub struct ExSegmentReader(SegmentReader);

/// The handle of a column in a schema, opaque to the verifier.
#[verifier::external_type_specification]
#[verifier::external_body]
pub struct ExField(Field);

/// The analyzer that splits text into tokens, opaque to the verifier.
#[verifier::external_type_specification]
#[verifier::external_body]
pub struct ExTextAnalyzer(TextAnalyzer);

/// A query that is ready to run: the searcher it was built for, and the query
/// bound to the statistics of that searcher, which is a boxed `Weight` trait
/// object of `tantivy` and has no structure to describe to the verifier.
#[verifier::external_body]
pub struct BoundQuery {
    searcher: Searcher,
    weight: Box<dyn Weight>,
}

/// Why a query expression could not be made ready to run.
pub enum QueryFailure {
    /// The expression is not a valid query; the text is the parser's message.
    Syntax(String),
    /// The index library failed.
    Index(TantivyError),
}

/// How a column of the schema is typed and indexed.
pub enum ColumnKind {
    /// A text column. `tokenizer` names the analyzer that its text was indexed
    /// with, and is `None` if the column carries no indexing options.
    Text { tokenizer: Option<String> },
    /// A column of any other type.
    Other,
}

/// A column of the schema, as far as the query strategies read it.
pub struct Column {
    pub field: Field,
    pub indexed: bool,
    pub kind: ColumnKind,
}

/// A document that a query matched in one segment, before any filtering.
#[derive(Clone, Copy, Debug)]
pub struct Candidate {
    /// The document's id inside its segment.
    pub doc_id: u32,
    /// IEEE-754 bit pattern of the score that the query gave the document.
    pub score_bits: u32,
    /// The document's value in the row-id column.
    pub row_id: u64,
    /// Whether the segment marks the document as deleted.
    pub deleted: bool,
}

/// What a stored document holds for one requested column.
pub enum StoredValue {
    /// The first stored value is text.
    Text(String),
    /// The first stored value is not text.
    NotText,
    /// The document stores no value for the column.
    Absent,
}

/// The number of segments that a searcher holds.
pub uninterp spec fn segment_count(searcher: Searcher) -> nat;

/// `Searcher::segment_readers` returns the readers of the searcher's segments,
/// one per segment, in the order of the segment ordinals.
pub assume_specification[ Searcher::segment_readers ](searcher: &Searcher) -> (readers:
    &[SegmentReader])
    ensures
        readers@.len() == segment_count(*searcher),
;

/// Cloning a searcher gives another handle on the same searcher.
pub assume_specification[ <Searcher as Clone>::clone ](searcher: &Searcher) -> (cloned: Searcher)
;

/// The column that the schema of a searcher holds under a name, if it holds
/// one. The schema of a searcher never changes.
pub uninterp spec fn schema_column(searcher: Searcher, name: Seq<char>) -> Option<Column>;

/// The column that a lookup found, if it found one.
pub open spec fn found_column(found: Result<Column, TantivyError>) -> Option<Column> {
    match found {
        Ok(column) => Some(column),
        Err(_) => None,
    }
}

/// Whether the schema of the searcher holds a column under each of the names.
pub open spec fn schema_has_all(searcher: Searcher, names: Seq<String>) -> bool {
    forall|i: int| 0 <= i < names.len() ==> schema_column(searcher, (#[trigger] names[i])@) is Some
}

/// Looks a column up by name with `Schema::get_field` and reads its entry:
/// whether it is indexed, whether it is a text column, and the name of the
/// tokenizer of its indexing options. Fails as `get_field` does when the schema
/// has no column of that name.
#[verifier::external_body]
pub(crate) fn resolve_column(searcher: &Searcher, name: &str) -> (found: Result<
    Column,
    TantivyError,
>)
    ensures
        found_column(found) == schema_column(*searcher, name@),
{
    let field = searcher.schema().get_field(name)?;
    let entry = searcher.schema().get_field_entry(field);
    let kind = match entry.field_type() {
        FieldType::Str(options) => ColumnKind::Text {
            tokenizer: options.get_indexing_options().map(|o| o.tokenizer().to_string()),
        },
        _ => ColumnKind::Other,
    };
    Ok(Column { field, indexed: entry.is_indexed(), kind })
}

/// The names of the columns of the schema of a searcher, in the order of the
/// schema. The schema of a searcher never changes.
pub uninterp spec fn schema_names(searcher: Searcher) -> Seq<Seq<char>>;

/// The characters of each of the names.
pub open spec fn names_view(names: Seq<String>) -> Seq<Seq<char>> {
    names.map_values(|name: String| name@)
}

/// The names of all columns of the schema, from `Schema::fields`. The schema
/// holds a column under each of them.
#[verifier::external_body]
pub(crate) fn schema_column_names(searcher: &Searcher) -> (names: Vec<String>)
    ensures
        names_view(names@) == schema_names(*searcher),
        schema_has_all(*searcher, names@),
{
    searcher.schema().fields().map(|(_, entry)| entry.name().to_string()).collect()
}

/// Looks an analyzer up by name with `TokenizerManager::get`; `None` if the
/// index has none registered under that name.
#[verifier::external_body]
pub(crate) fn registered_tokenizer(searcher: &Searcher, name: &str) -> (analyzer: Option<
    TextAnalyzer,
>) {
    searcher.index().tokenizers().get(name)
}

/// Runs `text` through the analyzer with `TextAnalyzer::token_stream` and
/// returns the text of each token, in the order in which they come.
#[verifier::external_body]
pub(crate) fn tokenize(analyzer: &mut TextAnalyzer, text: &str) -> (tokens: Vec<String>) {
    let mut tokens = Vec::new();
    analyzer.token_stream(text).process(&mut |token| tokens.push(token.text.clone()));
    tokens
}

/// The number of segments of the searcher that a query was built for. Every
/// function that builds a query keeps a handle on the searcher it was given,
/// so this is the number of segments of that searcher.
pub uninterp spec fn bound_segments(query: BoundQuery) -> nat;

/// Counts the segments of the searcher that the query was built for, with
/// `Searcher::segment_readers`.
#[verifier::external_body]
pub(crate) fn segment_total(query: &BoundQuery) -> (total: usize)
    ensures
        total == bound_segments(*query),
{
    query.searcher.segment_readers().len()
}

/// Whether a query is bound with scores, as `EnableScoring` of `tantivy`
/// has it.
#[derive(Clone, Copy, Debug)]
pub enum Scoring {
    /// Every matching document gets its relevance score.
    Enabled,
    /// Scores are not computed.
    Disabled,
}

/// How much of its postings a term query reads, as `IndexRecordOption` of
/// `tantivy` has it.
#[derive(Clone, Copy, Debug)]
pub enum RecordOption {
    /// The documents alone.
    Basic,
    /// The documents and how often each holds the term.
    WithFreqs,
    /// The documents, the frequencies and the positions of the term.
    WithFreqsAndPositions,
}

/// Builds with `TermSetQuery::new` the query that matches a document if the
/// column holds any of the terms, and binds it to the searcher with
/// `Query::weight`, with or without scores. Fails if the schema has no such
/// column, which `Schema::get_field` decides, or the query cannot be bound.
#[verifier::external_body]
pub(crate) fn term_set_query(
    searcher: &Searcher,
    column: &str,
    terms: &Vec<String>,
    scoring: Scoring,
) -> (query: Result<BoundQuery, TantivyError>)
    ensures
        query matches Ok(bound) ==> bound_segments(bound) == segment_count(*searcher),
        query is Ok ==> schema_column(*searcher, column@) is Some,
{
    let field = searcher.schema().get_field(column)?;
    let query = TermSetQuery::new(terms.iter().map(|text| Term::from_field_text(field, text)));
    let scores = match scoring {
        Scoring::Enabled => EnableScoring::enabled_from_searcher(searcher),
        Scoring::Disabled => EnableScoring::disabled_from_searcher(searcher),
    };
    Ok(BoundQuery { searcher: searcher.clone(), weight: query.weight(scores)? })
}

/// Builds with `TermQuery::new` the query that matches a document if the
/// column holds the term, reading of the postings what `record` says, and
/// binds it to the searcher with `Query::weight`, with or without scores.
/// Fails if the schema has no such column or the query cannot be bound.
#[verifier::external_body]
pub(crate) fn term_query(
    searcher: &Searcher,
    column: &str,
    term: &str,
    record: RecordOption,
    scoring: Scoring,
) -> (query: Result<BoundQuery, TantivyError>)
    ensures
        query matches Ok(bound) ==> bound_segments(bound) == segment_count(*searcher),
        query is Ok ==> schema_column(*searcher, column@) is Some,
{
    let field = searcher.schema().get_field(column)?;
    let record = match record {
        RecordOption::Basic => IndexRecordOption::Basic,
        RecordOption::WithFreqs => IndexRecordOption::WithFreqs,
        RecordOption::WithFreqsAndPositions => IndexRecordOption::WithFreqsAndPositions,
    };
    let scores = match scoring {
        Scoring::Enabled => EnableScoring::enabled_from_searcher(searcher),
        Scoring::Disabled => EnableScoring::disabled_from_searcher(searcher),
    };
    let weight = TermQuery::new(Term::from_field_text(field, term), record).weight(scores)?;
    Ok(BoundQuery { searcher: searcher.clone(), weight })
}

/// Builds with `RegexQuery::from_pattern` the query that matches a document
/// if a term of the column matches the regular expression, and binds it to the
/// searcher with `Query::weight`, with or without scores. Fails if the schema
/// has no such column, if the pattern is not a valid regular expression, or if
/// the query cannot be bound.
#[verifier::external_body]
pub(crate) fn regex_query(searcher: &Searcher, column: &str, pattern: &str, scoring: Scoring) -> (
query: Result<BoundQuery, TantivyError>)
    ensures
        query matches Ok(bound) ==> bound_segments(bound) == segment_count(*searcher),
        query is Ok ==> schema_column(*searcher, column@) is Some,
{
    let field = searcher.schema().get_field(column)?;
    let query = RegexQuery::from_pattern(pattern, field)?;
    let scores = match scoring {
        Scoring::Enabled => EnableScoring::enabled_from_searcher(searcher),
        Scoring::Disabled => EnableScoring::disabled_from_searcher(searcher),
    };
    Ok(BoundQuery { searcher: searcher.clone(), weight: query.weight(scores)? })
}

/// Parses a query expression with `QueryParser::parse_query`, with the given
/// columns as those that are searched where the expression names none, and
/// binds the query to the searcher with `Query::weight`, with or without
/// scores. The columns are looked up first, with `Schema::get_field`: if the
/// schema lacks one of them, that is the failure, and the expression is not
/// parsed.
#[verifier::external_body]
pub(crate) fn parsed_query(
    searcher: &Searcher,
    columns: &Vec<String>,
    sentence: &str,
    scoring: Scoring,
) -> (query: Result<BoundQuery, QueryFailure>)
    ensures
        query matches Ok(bound) ==> bound_segments(bound) == segment_count(*searcher),
        query is Ok ==> schema_has_all(*searcher, columns@),
        query matches Err(QueryFailure::Syntax(_)) ==> schema_has_all(*searcher, columns@),
{
    let fields: Result<Vec<Field>, TantivyError> =
        columns.iter().map(|name| searcher.schema().get_field(name)).collect();
    let parser = QueryParser::for_index(searcher.index(), fields.map_err(QueryFailure::Index)?);
    let query = parser.parse_query(sentence).map_err(|e| QueryFailure::Syntax(e.to_string()))?;
    let scores = match scoring {
        Scoring::Enabled => EnableScoring::enabled_from_searcher(searcher),
        Scoring::Disabled => EnableScoring::disabled_from_searcher(searcher),
    };
    let weight = query.weight(scores).map_err(QueryFailure::Index)?;
    Ok(BoundQuery { searcher: searcher.clone(), weight })
}

/// Walks with `Weight::for_each` through the documents of one segment that
/// match the query, and returns for each its id, its score, its value in the
/// row-id column and whether the segment marks it as deleted. A document
/// without a value in that column gets `default_row_id`. Fails if the segment
/// has no such column of unsigned integers, or if the scan fails.
#[verifier::external_body]
pub(crate) fn scan_segment(
    query: &BoundQuery,
    segment_ord: u32,
    row_id_column: &str,
    default_row_id: u64,
) -> (matched: Result<Vec<Candidate>, TantivyError>)
    requires
        segment_ord < bound_segments(*query),
{
    let reader = query.searcher.segment_reader(segment_ord);
    let row_ids = reader.fast_fields().u64(row_id_column)?.first_or_default_col(default_row_id);
    let mut matched = Vec::new();
    query.weight.for_each(reader, &mut |doc_id, score| matched.push(Candidate {
        doc_id,
        score_bits: score.to_bits(),
        row_id: row_ids.get_val(doc_id),
        deleted: reader.is_deleted(doc_id),
    }))?;
    Ok(matched)
}

/// Reads a stored document with `Searcher::doc` and returns, for each
/// requested column in turn, what the document stores first for it: one
/// value for each requested column. `None` if the document cannot be read.
#[verifier::external_body]
pub(crate) fn stored_values(
    searcher: &Searcher,
    segment_ord: u32,
    doc_id: u32,
    fields: &Vec<Field>,
) -> (values: Option<Vec<StoredValue>>)
    requires
        segment_ord < segment_count(*searcher),
    ensures
        values matches Some(read) ==> read@.len() == fields@.len(),
{
    let document: TantivyDocument = searcher.doc(DocAddress::new(segment_ord, doc_id)).ok()?;
    Some(fields.iter().map(|field| match document.get_first(*field) {
        None => StoredValue::Absent,
        Some(value) => match value.as_str() {
            Some(text) => StoredValue::Text(text.to_string()),
            None => StoredValue::NotText,
        },
    }).collect())
}

} // verus!
