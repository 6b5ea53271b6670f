//! The queries as the host calls them, and the records it gets back.
//!
//! The host hands over plain values and the searcher of the index it means.
//! A ranked search answers with a record that carries either the rows or an
//! error code and a message; it never fails otherwise.

use crate::common::converter::all_valid_utf8;
use crate::common::converter::ConvertStrategy;
use crate::common::converter::CxxElementStrategy;
use crate::common::converter::CxxVectorStringStrategy;
use crate::common::errors::CxxConvertError;
use crate::common::errors::IndexSearcherError;
use crate::records::BM25Result;
use crate::records::BoolResult;
use crate::records::hits_of;
use crate::records::RowIdWithScore;
use crate::search::collector::ranking::ranked;
use crate::search::collector::row_filter::in_range;
use crate::search::collector::segment_collect::segments_below;
use crate::search::collector::segment_collect::without_text;
use crate::search::implements::strategy::query_strategy::BM25QueryStrategy64;
use crate::search::implements::strategy::query_strategy::names_text_columns;
use crate::search::implements::strategy::query_strategy::texts_as_asked;
use crate::search::implements::strategy::query_strategy::ParserQueryStrategy;
use crate::search::implements::strategy::query_strategy::QueryExecutor;
use crate::search::implements::strategy::query_strategy::QueryStrategy;
use crate::search::implements::strategy::query_strategy::RegexQueryStrategy;
use crate::search::implements::strategy::query_strategy::SentenceQueryStrategy;
use crate::search::implements::strategy::query_strategy::SingleTermQueryStrategy;
use crate::search::implements::strategy::query_strategy::TermSetQueryStrategy;
use crate::search::index_access::segment_count;
use crate::search::utils::convert_utils::ConvertUtils;
use crate::search::utils::convert_utils::lists_marked_rows;
use crate::search::utils::convert_utils::marked_rows_bound;
use crate::search::utils::convert_utils::marks_row;
use roaring::RoaringBitmap;
use std::sync::Arc;
use tantivy::Searcher;
use vstd::prelude::*;
use vstd::string::StringExecFns;
use vstd::utf8::decode_utf8;
use vstd::utf8::valid_utf8;

verus! {

/// The message of a failed ranked search.
pub open spec fn search_failure_message(cause: Seq<char>) -> Seq<char> {
    "Error performing BM25 search with statistics: "@ + cause
}

/// The message of a failed reload.
pub open spec fn reload_failure_message(cause: Seq<char>) -> Seq<char> {
    "Error reloading index reader: "@ + cause
}

/// The message for an argument of the host that could not be converted.
pub open spec fn conversion_failure_message(argument: Seq<char>, cause: Seq<char>) -> Seq<char> {
    "Can't convert "@ + argument + ", message: "@ + cause
}

/// The record for the outcome of a ranked search: the rows with code `0` and
/// no message, or no rows with code `-1` and the message of the failure.
pub fn bm25_result(outcome: Result<Vec<RowIdWithScore>, String>) -> (record: BM25Result)
    ensures
        outcome matches Ok(rows) ==> record.result == rows && record.error_code == 0
            && record.error_msg@ == Seq::<char>::empty(),
        outcome matches Err(cause) ==> record.result@.len() == 0 && record.error_code == -1
            && record.error_msg@ == search_failure_message(cause@),
{
    match outcome {
        Ok(rows) => BM25Result { result: rows, error_code: 0, error_msg: String::new() },
        Err(cause) => {
            let mut message = String::from_str("Error performing BM25 search with statistics: ");
            message.append(cause.as_str());
            BM25Result { result: Vec::new(), error_code: -1, error_msg: message }
        },
    }
}

/// The record for a ranked search that was not run because an argument of
/// the host could not be converted. `argument` names the argument as the
/// message shows it.
pub fn conversion_failure(argument: &str, cause: &str) -> (record: BM25Result)
    ensures
        record.result@.len() == 0,
        record.error_code == -1,
        record.error_msg@ == conversion_failure_message(argument@, cause@),
{
    let mut message = String::from_str("Can't convert ");
    message.append(argument);
    message.append(", message: ");
    message.append(cause);
    BM25Result { result: Vec::new(), error_code: -1, error_msg: message }
}

/// Whether `record` is the record of a search that was not run because the
/// string `argument` of the host is not valid UTF-8: no rows, the code `-1`,
/// and the message that names the argument and carries the text of the
/// conversion error.
pub open spec fn refuses_argument(argument: Seq<char>, record: BM25Result) -> bool {
    &&& record.result@.len() == 0
    &&& record.error_code == -1
    &&& exists|error: CxxConvertError, cause: Seq<char>|
        error is Utf8Error && #[trigger] error.says(cause) && record.error_msg@
            == conversion_failure_message(argument, cause)
}

/// What becomes of the strings that the host hands to a ranked search. They
/// are decoded in the order path, sentence, column names, and the first that
/// is not valid UTF-8 ends it with the record that names it. If all are
/// valid, the outcome holds the texts they encode.
pub open spec fn decodes_arguments(
    index_path: Seq<u8>,
    sentence: Seq<u8>,
    column_names: Seq<Vec<u8>>,
    decoded: Result<(String, String, Vec<String>), BM25Result>,
) -> bool {
    if !valid_utf8(index_path) {
        decoded matches Err(record) && refuses_argument("'index_path'"@, record)
    } else if !valid_utf8(sentence) {
        decoded matches Err(record) && refuses_argument("'sentence'"@, record)
    } else if !all_valid_utf8(column_names, column_names.len() as int) {
        decoded matches Err(record) && refuses_argument("vector 'column_names'"@, record)
    } else {
        decoded matches Ok((path, text, names)) && path@ == decode_utf8(index_path) && text@
            == decode_utf8(sentence) && names@.len() == column_names.len() && forall|i: int|
            0 <= i < column_names.len() ==> (#[trigger] names@[i])@ == decode_utf8(
                column_names[i]@,
            )
    }
}

/// The record for a string of the host that could not be decoded.
fn undecoded(argument: &str, error: CxxConvertError) -> (record: BM25Result)
    requires
        error is Utf8Error,
    ensures
        refuses_argument(argument@, record),
{
    let cause = error.message();
    let record = conversion_failure(argument, cause.as_str());
    assert(error.says(cause@));
    record
}

/// Decodes the strings that the host hands to a ranked search: the path of
/// the index, the sentence, and the names of the columns, each given as its
/// bytes. A search without named columns hands over no names.
pub fn search_arguments(
    index_path: &Vec<u8>,
    sentence: &Vec<u8>,
    column_names: &Vec<Vec<u8>>,
) -> (decoded: Result<(String, String, Vec<String>), BM25Result>)
    ensures
        decodes_arguments(index_path@, sentence@, column_names@, decoded),
{
    let path: Result<String, CxxConvertError> = CxxElementStrategy.convert(index_path);
    let path = match path {
        Ok(path) => path,
        Err(e) => {
            return Err(undecoded("'index_path'", e));
        },
    };
    let text: Result<String, CxxConvertError> = CxxElementStrategy.convert(sentence);
    let text = match text {
        Ok(text) => text,
        Err(e) => {
            return Err(undecoded("'sentence'", e));
        },
    };
    let names = match CxxVectorStringStrategy.convert(column_names) {
        Ok(names) => names,
        Err(e) => {
            return Err(undecoded("vector 'column_names'", e));
        },
    };
    Ok((path, text, names))
}

/// The record for the outcome of reloading an index reader.
pub fn reload_result(outcome: Result<(), String>) -> (record: BoolResult)
    ensures
        outcome is Ok ==> record.result && record.error_code == 0 && record.error_msg@
            == Seq::<char>::empty(),
        outcome matches Err(cause) ==> !record.result && record.error_code == -1
            && record.error_msg@ == reload_failure_message(cause@),
{
    match outcome {
        Ok(_) => BoolResult { result: true, error_code: 0, error_msg: String::new() },
        Err(cause) => {
            let mut message = String::from_str("Error reloading index reader: ");
            message.append(cause.as_str());
            BoolResult { result: false, error_code: -1, error_msg: message }
        },
    }
}

/// What [`BM25QueryStrategy64`] promises of the outcome of the ranked search
/// with these settings.
pub open spec fn search_promises(
    searcher: &Searcher,
    sentence: &str,
    top_k: u32,
    alive_row_ids: &Vec<u64>,
    query_with_filter: bool,
    query_with_id_range: bool,
    start_id: u64,
    end_id: u64,
    need_doc: bool,
    column_names: &Vec<String>,
    query_unlimited: bool,
    found: Result<Vec<RowIdWithScore>, IndexSearcherError>,
) -> bool {
    (BM25QueryStrategy64 {
        sentence,
        topk: &top_k,
        alived_ids: alive_row_ids,
        query_with_filter: &query_with_filter,
        query_with_id_range: &query_with_id_range,
        start_id: &start_id,
        end_id: &end_id,
        need_doc: &need_doc,
        column_names,
        query_unlimited: &query_unlimited,
    }).promises(searcher, found)
}

/// The rows that match a sentence, ranked by relevance.
///
/// The sentence is searched in the named text columns, or in all indexed
/// text columns but the row-id column if none is named. With `query_unlimited` all
/// matching rows are returned, else the `top_k` best of each segment. With
/// `query_with_filter` only rows of `alive_row_ids` are returned, and with
/// `query_with_id_range` only rows from `start_id` up to, but not including,
/// `end_id`. The search fails if a named column is no text column of the
/// schema, if the sentence is no valid query, or if the index library fails.
pub fn bm25_search_with_column_names(
    searcher: &Searcher,
    sentence: &str,
    top_k: u32,
    alive_row_ids: &Vec<u64>,
    query_with_filter: bool,
    query_with_id_range: bool,
    start_id: u64,
    end_id: u64,
    need_doc: bool,
    column_names: &Vec<String>,
    query_unlimited: bool,
) -> (found: Result<Vec<RowIdWithScore>, IndexSearcherError>)
    ensures
        search_promises(
            searcher,
            sentence,
            top_k,
            alive_row_ids,
            query_with_filter,
            query_with_id_range,
            start_id,
            end_id,
            need_doc,
            column_names,
            query_unlimited,
            found,
        ),
        found matches Ok(rows) ==> ranked(hits_of(rows@)) && forall|i: int|
            0 <= i < rows@.len() ==> (query_with_filter ==> alive_row_ids@.contains(
                (#[trigger] rows@[i]).row_id,
            )) && (query_with_id_range ==> in_range((start_id, end_id), rows@[i].row_id)),
        found matches Ok(rows) ==> !query_unlimited ==> rows@.len() <= top_k * segment_count(
            *searcher,
        ),
        found matches Ok(rows) ==> segments_below(rows@, segment_count(*searcher))
            && texts_as_asked(need_doc, column_names@, rows@),
        !names_text_columns(*searcher, column_names@) ==> found is Err,
{
    let strategy = BM25QueryStrategy64 {
        sentence,
        topk: &top_k,
        alived_ids: alive_row_ids,
        query_with_filter: &query_with_filter,
        query_with_id_range: &query_with_id_range,
        start_id: &start_id,
        end_id: &end_id,
        need_doc: &need_doc,
        column_names,
        query_unlimited: &query_unlimited,
    };
    let found = strategy.execute(searcher);
    proof {
        if found is Ok {
            let rows = found->Ok_0;
            assert forall|i: int| 0 <= i < rows@.len() implies (query_with_filter
                ==> alive_row_ids@.contains((#[trigger] rows@[i]).row_id)) && (query_with_id_range
                ==> in_range((start_id, end_id), rows@[i].row_id)) by {
                assert(strategy.returns_row(rows@[i].row_id));
            }
        }
    }
    found
}

/// Whether the record is that of a search that succeeded with ranked rows.
pub open spec fn is_success(record: BM25Result) -> bool {
    record.error_code == 0 && record.error_msg@.len() == 0 && ranked(hits_of(record.result@))
}

/// Whether the record is that of a search that failed: it carries no rows,
/// the code `-1`, and a message that says that the search failed and why.
pub open spec fn is_failure(record: BM25Result) -> bool {
    &&& record.error_code == -1
    &&& record.result@.len() == 0
    &&& exists|cause: Seq<char>| record.error_msg@ == #[trigger] search_failure_message(cause)
}

/// Whether the record is that of a search over the searcher for rows without
/// stored text: either that of a failure, or that of a success whose rows
/// name segments of the searcher and carry no text.
pub open spec fn is_search_record(searcher: Searcher, record: BM25Result) -> bool {
    ||| is_failure(record)
    ||| is_success(record) && segments_below(record.result@, segment_count(searcher))
        && without_text(record.result@)
}

/// Whether `record` is the record for the outcome `found` of a ranked search:
/// the rows with code `0` and no message, or no rows with code `-1` and a
/// message that says that the search failed and why: the cause is the text
/// of the error. For a parse error and for an internal error that is the
/// message of the error; for an error of the index library it is what the
/// library shows for it.
pub open spec fn records(
    found: Result<Vec<RowIdWithScore>, IndexSearcherError>,
    record: BM25Result,
) -> bool {
    match found {
        Ok(rows) => record.result == rows && record.error_code == 0 && record.error_msg@
            == Seq::<char>::empty(),
        Err(e) => {
            &&& record.error_code == -1
            &&& record.result@.len() == 0
            &&& exists|cause: String| #[trigger]
                e.says(cause) && record.error_msg@ == search_failure_message(cause@)
            &&& e matches IndexSearcherError::QueryParserError(message) ==> record.error_msg@
                == search_failure_message(message@)
            &&& e matches IndexSearcherError::InternalError(message) ==> record.error_msg@
                == search_failure_message(message@)
        },
    }
}

/// The record for the outcome of a ranked search, with the text of the error
/// as the cause of a failure.
pub fn search_record(found: Result<Vec<RowIdWithScore>, IndexSearcherError>) -> (record: BM25Result)
    ensures
        records(found, record),
{
    match found {
        Ok(rows) => bm25_result(Ok(rows)),
        Err(e) => {
            let cause = e.message();
            let ghost said = cause;
            let record = bm25_result(Err(cause));
            assert(e.says(said) && record.error_msg@ == search_failure_message(said@));
            record
        },
    }
}

/// Whether `record` answers a ranked search with these settings, for rows
/// without stored text: it is the record for an outcome `found` of which
/// holds what the search promises.
pub open spec fn answers(
    searcher: &Searcher,
    sentence: &str,
    topk: u32,
    alived_ids: &Vec<u64>,
    query_with_filter: bool,
    query_with_id_range: bool,
    start_id: u64,
    end_id: u64,
    column_names: &Vec<String>,
    query_unlimited: bool,
    found: Result<Vec<RowIdWithScore>, IndexSearcherError>,
    record: BM25Result,
) -> bool {
    &&& records(found, record)
    &&& search_promises(
        searcher,
        sentence,
        topk,
        alived_ids,
        query_with_filter,
        query_with_id_range,
        start_id,
        end_id,
        false,
        column_names,
        query_unlimited,
        found,
    )
}

/// A ranked search over all text columns, with the alive rows given as a
/// bitmap of one bit per row. The record answers the search for the rows that
/// the bitmap marks.
pub fn ffi_bm25_search(
    searcher: &Searcher,
    sentence: &str,
    topk: u32,
    u8_aived_bitmap: &Vec<u8>,
    query_with_filter: bool,
    query_unlimited: bool,
) -> (record: BM25Result)
    ensures
        exists|
            found: Result<Vec<RowIdWithScore>, IndexSearcherError>,
            alived_ids: Vec<u64>,
            column_names: Vec<String>,
        | #[trigger]
            answers(
                searcher,
                sentence,
                topk,
                &alived_ids,
                query_with_filter,
                false,
                0,
                0,
                &column_names,
                query_unlimited,
                found,
                record,
            ) && column_names@.len() == 0 && lists_marked_rows(
                alived_ids@,
                u8_aived_bitmap@,
                marked_rows_bound(u8_aived_bitmap@.len()),
            ),
        is_search_record(*searcher, record),
        is_success(record) && query_with_filter ==> forall|i: int|
            0 <= i < record.result@.len() ==> marks_row(
                u8_aived_bitmap@,
                (#[trigger] record.result@[i]).row_id as int,
            ),
{
    let alived_ids = ConvertUtils::u8_bitmap_to_row_ids64(u8_aived_bitmap);
    let column_names: Vec<String> = Vec::new();
    let found = bm25_search_with_column_names(
        searcher,
        sentence,
        topk,
        &alived_ids,
        query_with_filter,
        false,
        0,
        0,
        false,
        &column_names,
        query_unlimited,
    );
    proof {
        if found is Ok && query_with_filter {
            let rows = found->Ok_0;
            assert forall|i: int| 0 <= i < rows@.len() implies marks_row(
                u8_aived_bitmap@,
                (#[trigger] rows@[i]).row_id as int,
            ) by {
                assert(alived_ids@.contains(rows@[i].row_id));
            }
        }
    }
    let ghost outcome = found;
    let record = search_record(found);
    proof {
        assert(answers(
            searcher,
            sentence,
            topk,
            &alived_ids,
            query_with_filter,
            false,
            0,
            0,
            &column_names,
            query_unlimited,
            outcome,
            record,
        ));
    }
    record
}

/// A ranked search over all text columns, with the alive rows given as a
/// list of row ids and with an optional range of row ids. The record answers
/// the search.
pub fn ffi_bm25_search_filter_ids(
    searcher: &Searcher,
    sentence: &str,
    topk: u32,
    alived_ids: &Vec<u64>,
    query_with_filter: bool,
    query_with_id_range: bool,
    start_id: u64,
    end_id: u64,
    query_unlimited: bool,
) -> (record: BM25Result)
    ensures
        exists|found: Result<Vec<RowIdWithScore>, IndexSearcherError>, column_names: Vec<String>|
            #[trigger] answers(
                searcher,
                sentence,
                topk,
                alived_ids,
                query_with_filter,
                query_with_id_range,
                start_id,
                end_id,
                &column_names,
                query_unlimited,
                found,
                record,
            ) && column_names@.len() == 0,
        is_search_record(*searcher, record),
        is_success(record) ==> forall|i: int|
            0 <= i < record.result@.len() ==> (query_with_filter ==> alived_ids@.contains(
                (#[trigger] record.result@[i]).row_id,
            )) && (query_with_id_range ==> in_range((start_id, end_id), record.result@[i].row_id)),
{
    let column_names: Vec<String> = Vec::new();
    let found = bm25_search_with_column_names(
        searcher,
        sentence,
        topk,
        alived_ids,
        query_with_filter,
        query_with_id_range,
        start_id,
        end_id,
        false,
        &column_names,
        query_unlimited,
    );
    let ghost outcome = found;
    let record = search_record(found);
    proof {
        assert(answers(
            searcher,
            sentence,
            topk,
            alived_ids,
            query_with_filter,
            query_with_id_range,
            start_id,
            end_id,
            &column_names,
            query_unlimited,
            outcome,
            record,
        ));
    }
    record
}

/// A ranked search over the named text columns, with the alive rows given as
/// a list of row ids and with an optional range of row ids. The record
/// answers the search.
pub fn ffi_bm25_search_with_column_names(
    searcher: &Searcher,
    sentence: &str,
    topk: u32,
    alived_ids: &Vec<u64>,
    query_with_filter: bool,
    query_with_id_range: bool,
    start_id: u64,
    end_id: u64,
    column_names: &Vec<String>,
    query_unlimited: bool,
) -> (record: BM25Result)
    ensures
        exists|found: Result<Vec<RowIdWithScore>, IndexSearcherError>| #[trigger]
            answers(
                searcher,
                sentence,
                topk,
                alived_ids,
                query_with_filter,
                query_with_id_range,
                start_id,
                end_id,
                column_names,
                query_unlimited,
                found,
                record,
            ),
        is_search_record(*searcher, record),
        !names_text_columns(*searcher, column_names@) ==> is_failure(record),
        is_success(record) ==> forall|i: int|
            0 <= i < record.result@.len() ==> (query_with_filter ==> alived_ids@.contains(
                (#[trigger] record.result@[i]).row_id,
            )) && (query_with_id_range ==> in_range((start_id, end_id), record.result@[i].row_id)),
{
    let found = bm25_search_with_column_names(
        searcher,
        sentence,
        topk,
        alived_ids,
        query_with_filter,
        query_with_id_range,
        start_id,
        end_id,
        false,
        column_names,
        query_unlimited,
    );
    let ghost outcome = found;
    let record = search_record(found);
    proof {
        assert(answers(
            searcher,
            sentence,
            topk,
            alived_ids,
            query_with_filter,
            query_with_id_range,
            start_id,
            end_id,
            column_names,
            query_unlimited,
            outcome,
            record,
        ));
    }
    record
}

/// The rows in which the column holds the term; see
/// [`SingleTermQueryStrategy`] for what is promised of the outcome.
pub fn term_query(searcher: &Searcher, column: &str, term: &str) -> (found: Result<
    Arc<RoaringBitmap>,
    IndexSearcherError,
>)
    ensures
        (SingleTermQueryStrategy { column_name: column, term }).promises(searcher, found),
{
    let strategy = SingleTermQueryStrategy { column_name: column, term };
    QueryExecutor::new(&strategy).execute(searcher)
}

/// The rows in which the column holds at least one of the terms; see
/// [`TermSetQueryStrategy`] for what is promised of the outcome.
pub fn term_set_query(searcher: &Searcher, column: &str, terms: &Vec<String>) -> (found: Result<
    Arc<RoaringBitmap>,
    IndexSearcherError,
>)
    ensures
        (TermSetQueryStrategy { column_name: column, terms }).promises(searcher, found),
{
    let strategy = TermSetQueryStrategy { column_name: column, terms };
    QueryExecutor::new(&strategy).execute(searcher)
}

/// The rows in which a term of the column matches the `LIKE` pattern; see
/// [`RegexQueryStrategy`] for what is promised of the outcome.
pub fn regex_query(searcher: &Searcher, column: &str, like_pattern: &str) -> (found: Result<
    Arc<RoaringBitmap>,
    IndexSearcherError,
>)
    ensures
        (RegexQueryStrategy { column_name: column, pattern: like_pattern }).promises(
            searcher,
            found,
        ),
{
    let strategy = RegexQueryStrategy { column_name: column, pattern: like_pattern };
    QueryExecutor::new(&strategy).execute(searcher)
}

/// The rows in which the text column holds at least one word of the
/// sentence; see [`SentenceQueryStrategy`] for what is promised of the
/// outcome.
pub fn sentence_query(searcher: &Searcher, column: &str, sentence: &str) -> (found: Result<
    Arc<RoaringBitmap>,
    IndexSearcherError,
>)
    ensures
        (SentenceQueryStrategy { column_name: column, sentence }).promises(searcher, found),
{
    let strategy = SentenceQueryStrategy { column_name: column, sentence };
    QueryExecutor::new(&strategy).execute(searcher)
}

/// The rows that match the query expression, with the column as the one that
/// is searched where the expression names none; see [`ParserQueryStrategy`]
/// for what is promised of the outcome.
pub fn parsed_query(searcher: &Searcher, column: &str, sentence: &str) -> (found: Result<
    Arc<RoaringBitmap>,
    IndexSearcherError,
>)
    ensures
        (ParserQueryStrategy { column_name: column, sentence }).promises(searcher, found),
{
    let strategy = ParserQueryStrategy { column_name: column, sentence };
    QueryExecutor::new(&strategy).execute(searcher)
}

} // verus!
