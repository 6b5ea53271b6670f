use tantivy::schema::Field;
use tantivy_search::common::errors::IndexSearcherError;
use tantivy_search::records::BM25Result;
use tantivy_search::search::api::api_dingo::bm25_result;
use tantivy_search::search::api::api_dingo::conversion_failure;
use tantivy_search::search::api::api_dingo::reload_result;
use tantivy_search::search::api::api_dingo::search_record;
use tantivy_search::search::implements::strategy::query_plan::analyzer_or_error;
use tantivy_search::search::implements::strategy::query_plan::join_tokens;
use tantivy_search::search::api::api_dingo::search_arguments;
use tantivy_search::search::implements::strategy::bound_query::scoring_of;
use tantivy_search::search::index_access::Scoring;
use tantivy_search::search::implements::strategy::query_plan::missing_options;
use tantivy_search::search::implements::strategy::query_plan::not_indexed;
use tantivy_search::search::implements::strategy::query_plan::ranked_field;
use tantivy_search::search::implements::strategy::query_plan::sentence_plan;
use tantivy_search::search::implements::strategy::query_plan::term_plan;
use tantivy_search::search::implements::strategy::query_plan::unknown_tokenizer;
use tantivy_search::search::implements::strategy::query_plan::TermPlan;
use tantivy_search::search::implements::strategy::bound_query::query_error;
use tantivy_search::search::index_access::Column;
use tantivy_search::search::index_access::ColumnKind;
use tantivy_search::search::index_access::QueryFailure;
use tantivy_search::tokenizer::vo::tokenizer_types::TokenizerType;
use tantivy_search::tokenizer::vo::tokenizers_vo::TokenizerConfig;
use tantivy_search::RowIdWithScore;

fn text_column(indexed: bool, tokenizer: Option<&str>) -> Column {
    Column {
        field: Field::from_field_id(1),
        indexed,
        kind: ColumnKind::Text { tokenizer: tokenizer.map(|t| t.to_string()) },
    }
}

fn other_column(indexed: bool) -> Column {
    Column { field: Field::from_field_id(2), indexed, kind: ColumnKind::Other }
}

fn internal(error: IndexSearcherError) -> String {
    match error {
        IndexSearcherError::InternalError(message) => message,
        other => panic!("{:?}", other),
    }
}

#[test]
fn error_messages_name_the_column() {
    assert_eq!(internal(not_indexed("title")), "column field:title not indexed.");
    assert_eq!(
        internal(missing_options("title")),
        "column field:title not indexed, but this error msg shouldn't display"
    );
    assert_eq!(internal(unknown_tokenizer("icu")), "tokenizer:icu not registered.");
    assert_eq!(internal(not_indexed("")), "column field: not indexed.");
}

#[test]
fn error_text_is_the_message_it_carries() {
    assert_eq!(IndexSearcherError::InternalError("broken".to_string()).message(), "broken");
    assert_eq!(IndexSearcherError::QueryParserError("syntax".to_string()).message(), "syntax");
    let missing = tantivy::TantivyError::FieldNotFound("nowhere".to_string());
    let said = missing.to_string();
    assert_eq!(IndexSearcherError::TantivyError(missing).message(), said);
}

#[test]
fn terms_of_a_text_column_are_tokenized() {
    match term_plan(&text_column(true, Some("default")), "title") {
        Ok(TermPlan::Tokenize(name)) => assert_eq!(name, "default"),
        _ => panic!("no tokenizer"),
    }
}

#[test]
fn terms_of_another_column_are_taken_literally() {
    assert!(matches!(term_plan(&other_column(true), "views"), Ok(TermPlan::Literal)));
}

#[test]
fn terms_of_a_column_that_is_not_indexed_are_refused() {
    for column in [text_column(false, Some("default")), text_column(false, None), other_column(false)] {
        match term_plan(&column, "title") {
            Err(e) => assert_eq!(internal(e), "column field:title not indexed."),
            Ok(_) => panic!("a plan"),
        }
    }
}

#[test]
fn terms_of_a_text_column_without_indexing_options_are_refused() {
    match term_plan(&text_column(true, None), "body") {
        Err(e) => assert_eq!(
            internal(e),
            "column field:body not indexed, but this error msg shouldn't display"
        ),
        Ok(_) => panic!("a plan"),
    }
}

#[test]
fn sentence_is_split_by_the_analyzer_of_a_text_column() {
    assert_eq!(sentence_plan(&text_column(true, Some("raw")), "title").unwrap(), "raw");
}

#[test]
fn sentence_is_refused_for_other_columns() {
    assert_eq!(
        internal(sentence_plan(&other_column(true), "views").unwrap_err()),
        "Not expected, column field type must be str type."
    );
    assert_eq!(
        internal(sentence_plan(&other_column(false), "views").unwrap_err()),
        "column field:views not indexed."
    );
    assert_eq!(
        internal(sentence_plan(&text_column(true, None), "body").unwrap_err()),
        "column field:body not indexed, but this error msg shouldn't display"
    );
}

#[test]
fn ranked_field_is_a_text_column() {
    assert_eq!(
        ranked_field(&text_column(true, Some("default")), "title", true).unwrap(),
        Some(Field::from_field_id(1))
    );
    assert_eq!(
        ranked_field(&text_column(true, Some("default")), "title", false).unwrap(),
        Some(Field::from_field_id(1))
    );
    assert_eq!(
        ranked_field(&text_column(false, None), "title", true).unwrap(),
        Some(Field::from_field_id(1))
    );
    assert_eq!(ranked_field(&text_column(false, None), "title", false).unwrap(), None);
    assert_eq!(ranked_field(&other_column(true), "views", false).unwrap(), None);
    assert_eq!(
        internal(ranked_field(&other_column(true), "views", true).unwrap_err()),
        "column field:views is not a text column."
    );
}

#[test]
fn query_failure_becomes_the_error_of_its_kind() {
    match query_error(QueryFailure::Syntax("bad".to_string())) {
        IndexSearcherError::QueryParserError(message) => assert_eq!(message, "bad"),
        other => panic!("{:?}", other),
    }
    let failure = QueryFailure::Index(tantivy::TantivyError::FieldNotFound("x".to_string()));
    assert!(matches!(
        query_error(failure),
        IndexSearcherError::TantivyError(tantivy::TantivyError::FieldNotFound(_))
    ));
}

#[test]
fn record_of_a_search_that_succeeded() {
    let rows = vec![RowIdWithScore {
        row_id: 4,
        score_bits: 1.5f32.to_bits(),
        seg_id: 1,
        doc_id: 2,
        docs: vec!["text".to_string()],
    }];
    let record: BM25Result = bm25_result(Ok(rows));
    assert_eq!(record.error_code, 0);
    assert_eq!(record.error_msg, "");
    assert_eq!(record.result.len(), 1);
    assert_eq!(record.result[0].row_id, 4);
    assert_eq!(record.result[0].docs, vec!["text".to_string()]);
}

#[test]
fn record_of_a_search_that_failed() {
    let record = bm25_result(Err("index is gone".to_string()));
    assert_eq!(record.error_code, -1);
    assert!(record.result.is_empty());
    assert_eq!(record.error_msg, "Error performing BM25 search with statistics: index is gone");
}

#[test]
fn record_of_an_argument_that_could_not_be_converted() {
    let record = conversion_failure("'index_path'", "invalid utf-8");
    assert_eq!(record.error_code, -1);
    assert!(record.result.is_empty());
    assert_eq!(record.error_msg, "Can't convert 'index_path', message: invalid utf-8");
    let record = conversion_failure("vector 'alived_ids'", "too long");
    assert_eq!(record.error_msg, "Can't convert vector 'alived_ids', message: too long");
}

#[test]
fn record_of_a_reload() {
    let fine = reload_result(Ok(()));
    assert!(fine.result);
    assert_eq!(fine.error_code, 0);
    assert_eq!(fine.error_msg, "");
    let failed = reload_result(Err("no such index".to_string()));
    assert!(!failed.result);
    assert_eq!(failed.error_code, -1);
    assert_eq!(failed.error_msg, "Error reloading index reader: no such index");
}

#[test]
fn configuration_of_a_text_column() {
    let analyzer = tantivy::tokenizer::TextAnalyzer::default();
    let config = TokenizerConfig::new(TokenizerType::Simple("simple".to_string()), analyzer, true);
    assert_eq!(config.tokenizer_type.name(), "simple");
    assert!(config.doc_store);
    assert!(config.doc_index);
    assert!(config.is_text_field);
    assert!(!config.doc_fast);
    assert!(!config.doc_coerce);
}

#[test]
fn configuration_of_another_column() {
    let config =
        TokenizerConfig::new_non_text(TokenizerType::Raw("raw".to_string()), false, true, true, false);
    assert_eq!(config.tokenizer_type.name(), "raw");
    assert!(!config.doc_store);
    assert!(config.doc_index);
    assert!(!config.is_text_field);
    assert!(config.doc_fast);
    assert!(!config.doc_coerce);
    let none = TokenizerConfig::new_non_text(TokenizerType::Default("d".to_string()), true, false, false, true);
    assert!(none.doc_store && !none.doc_index && !none.doc_fast && none.doc_coerce);
}

#[test]
fn registered_analyzer_is_handed_on() {
    let analyzer = tantivy::tokenizer::TextAnalyzer::default();
    assert!(analyzer_or_error(Some(analyzer), "default").is_ok());
}

#[test]
fn analyzer_that_is_not_registered_is_an_internal_error() {
    match analyzer_or_error(None, "icu") {
        Err(e) => assert_eq!(internal(e), "tokenizer:icu not registered."),
        Ok(_) => panic!("an analyzer"),
    }
}

#[test]
fn record_of_a_search_carries_the_rows_or_the_text_of_the_error() {
    let rows = vec![RowIdWithScore {
        row_id: 4,
        score_bits: 1.5f32.to_bits(),
        seg_id: 1,
        doc_id: 2,
        docs: Vec::new(),
    }];
    let fine = search_record(Ok(rows));
    assert_eq!((fine.error_code, fine.error_msg.as_str(), fine.result.len()), (0, "", 1));
    assert_eq!(fine.result[0].row_id, 4);

    let parse = search_record(Err(IndexSearcherError::QueryParserError("no query".to_string())));
    assert_eq!(parse.error_code, -1);
    assert!(parse.result.is_empty());
    assert_eq!(parse.error_msg, "Error performing BM25 search with statistics: no query");

    let internal = search_record(Err(IndexSearcherError::InternalError(
        "column field:views is not a text column.".to_string(),
    )));
    assert_eq!(internal.error_code, -1);
    assert_eq!(
        internal.error_msg,
        "Error performing BM25 search with statistics: column field:views is not a text column."
    );

    let missing = tantivy::TantivyError::FieldNotFound("nowhere".to_string());
    let said = missing.to_string();
    let library = search_record(Err(IndexSearcherError::TantivyError(missing)));
    assert_eq!(library.error_code, -1);
    assert!(library.result.is_empty());
    assert_eq!(
        library.error_msg,
        format!("Error performing BM25 search with statistics: {}", said)
    );
}

fn tokens(texts: &[&str]) -> Vec<String> {
    texts.iter().map(|t| t.to_string()).collect()
}

#[test]
fn tokens_of_all_terms_are_joined_in_the_order_of_the_terms() {
    assert!(join_tokens(Vec::new()).is_empty());
    assert!(join_tokens(vec![Vec::new(), Vec::new()]).is_empty());
    assert_eq!(join_tokens(vec![tokens(&["red", "fox"])]), tokens(&["red", "fox"]));
    assert_eq!(
        join_tokens(vec![tokens(&["red", "fox"]), Vec::new(), tokens(&["dog"]), tokens(&["red"])]),
        tokens(&["red", "fox", "dog", "red"])
    );
}

#[test]
fn scores_are_enabled_exactly_if_asked() {
    assert!(matches!(scoring_of(true), Scoring::Enabled));
    assert!(matches!(scoring_of(false), Scoring::Disabled));
}

fn bytes_of(texts: &[&str]) -> Vec<Vec<u8>> {
    texts.iter().map(|t| t.as_bytes().to_vec()).collect()
}

#[test]
fn strings_of_a_search_are_decoded() {
    let decoded = search_arguments(
        &"/data/index".as_bytes().to_vec(),
        &"r\u{e9}d fox".as_bytes().to_vec(),
        &bytes_of(&["title", "body"]),
    );
    let (path, sentence, columns) = decoded.unwrap();
    assert_eq!(path, "/data/index");
    assert_eq!(sentence, "r\u{e9}d fox");
    assert_eq!(columns, tokens(&["title", "body"]));
    let (path, sentence, columns) = search_arguments(&Vec::new(), &Vec::new(), &Vec::new()).unwrap();
    assert_eq!((path.as_str(), sentence.as_str(), columns.len()), ("", "", 0));
}

fn refusal(decoded: Result<(String, String, Vec<String>), BM25Result>) -> String {
    let record = decoded.unwrap_err();
    assert_eq!(record.error_code, -1);
    assert!(record.result.is_empty());
    record.error_msg
}

#[test]
fn first_string_that_is_not_utf8_ends_the_search() {
    let broken: Vec<u8> = vec![0x66, 0xff, 0x6f];
    let cause = format!(
        "Failed to convert CxxString to Rust String: {}",
        std::str::from_utf8(&broken).unwrap_err()
    );
    let fine = "fox".as_bytes().to_vec();
    assert_eq!(
        refusal(search_arguments(&broken, &fine, &bytes_of(&["title"]))),
        format!("Can't convert 'index_path', message: {}", cause)
    );
    assert_eq!(
        refusal(search_arguments(&broken, &broken, &vec![broken.clone()])),
        format!("Can't convert 'index_path', message: {}", cause)
    );
    assert_eq!(
        refusal(search_arguments(&fine, &broken, &vec![broken.clone()])),
        format!("Can't convert 'sentence', message: {}", cause)
    );
    assert_eq!(
        refusal(search_arguments(&fine, &fine, &vec![fine.clone(), broken.clone()])),
        format!("Can't convert vector 'column_names', message: {}", cause)
    );
}
