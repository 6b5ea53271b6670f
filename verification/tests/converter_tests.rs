use tantivy_search::common::converter::instant_from_parse;
use tantivy_search::common::converter::ConvertStrategy;
use tantivy_search::common::converter::Converter;
use tantivy_search::common::converter::CxxElementStrategy;
use tantivy_search::common::converter::CxxVectorStrategy;
use tantivy_search::common::converter::CxxVectorStringStrategy;
use tantivy_search::common::converter::CxxVectorStringToBytesStrategy;
use tantivy_search::common::converter::CxxVectorStringToDateTimeStrategy;
use tantivy_search::common::errors::CxxConvertError;

fn bytes(texts: &[&str]) -> Vec<Vec<u8>> {
    texts.iter().map(|t| t.as_bytes().to_vec()).collect()
}

#[test]
fn element_converts_to_itself() {
    let converter: Converter<u32, u32, CxxElementStrategy> = Converter::new(CxxElementStrategy);
    assert_eq!(converter.convert(&7).unwrap(), 7);
    let strategy = CxxElementStrategy;
    let converted: u8 = strategy.convert(&200u8).unwrap();
    assert_eq!(converted, 200);
}

#[test]
fn string_converts_to_the_text_it_encodes() {
    let converter: Converter<Vec<u8>, String, CxxElementStrategy> =
        Converter::new(CxxElementStrategy);
    assert_eq!(converter.convert(&"/tmp/index".as_bytes().to_vec()).unwrap(), "/tmp/index");
    assert_eq!(converter.convert(&"日本語 né".as_bytes().to_vec()).unwrap(), "日本語 né");
    assert_eq!(converter.convert(&Vec::new()).unwrap(), "");
}

#[test]
fn string_that_is_not_utf8_fails() {
    let converter: Converter<Vec<u8>, String, CxxElementStrategy> =
        Converter::new(CxxElementStrategy);
    assert!(matches!(converter.convert(&vec![0x66, 0xFF, 0x6F]), Err(CxxConvertError::Utf8Error(_))));
    assert!(matches!(converter.convert(&vec![0xC3]), Err(CxxConvertError::Utf8Error(_))));
}

#[test]
fn vector_converts_to_its_elements() {
    let converter = Converter::new(CxxVectorStrategy::<u64>::new());
    assert_eq!(converter.convert(&vec![3, 1, 2]).unwrap(), vec![3, 1, 2]);
    assert!(converter.convert(&Vec::new()).unwrap().is_empty());
    let of_bytes = Converter::new(CxxVectorStrategy::<u8>::new());
    assert_eq!(of_bytes.convert(&vec![0, 255]).unwrap(), vec![0, 255]);
}

#[test]
fn vector_of_strings_converts_to_texts() {
    let converter = Converter::new(CxxVectorStringStrategy);
    assert_eq!(
        converter.convert(&bytes(&["title", "body", ""])).unwrap(),
        vec!["title".to_string(), "body".to_string(), "".to_string()]
    );
    assert!(converter.convert(&Vec::new()).unwrap().is_empty());
}

#[test]
fn vector_with_a_string_that_is_not_utf8_fails() {
    let converter = Converter::new(CxxVectorStringStrategy);
    let items = vec![b"title".to_vec(), vec![0x80], b"body".to_vec()];
    assert!(matches!(converter.convert(&items), Err(CxxConvertError::Utf8Error(_))));
}

#[test]
fn vector_of_strings_converts_to_bytes() {
    let converter = Converter::new(CxxVectorStringToBytesStrategy);
    let items = vec![b"ab".to_vec(), vec![0xFF, 0x00], Vec::new()];
    assert_eq!(converter.convert(&items).unwrap(), items);
}

#[test]
fn vector_of_dates_converts_to_instants() {
    let converter = Converter::new(CxxVectorStringToDateTimeStrategy);
    let instants = converter
        .convert(&bytes(&[
            "1970-01-01T00:00:00Z",
            "2021-01-01T00:00:00Z",
            "2021-01-01T01:00:00+01:00",
            "1969-12-31T23:59:59.5Z",
            "2000-02-29T12:30:15.123456789-05:00",
        ]))
        .unwrap();
    assert_eq!(
        instants,
        vec![
            0,
            1_609_459_200_000_000_000,
            1_609_459_200_000_000_000,
            -500_000_000,
            951_845_415_123_456_789
        ]
    );
    assert!(converter.convert(&Vec::new()).unwrap().is_empty());
}

#[test]
fn vector_with_a_string_that_is_no_date_fails() {
    let converter = Converter::new(CxxVectorStringToDateTimeStrategy);
    for wrong in ["2021-01-01", "yesterday", "", "2021-13-01T00:00:00Z", "2021-01-01T00:00:00"] {
        let outcome = converter.convert(&bytes(&["2021-01-01T00:00:00Z", wrong]));
        match outcome {
            Err(CxxConvertError::CxxDateVectorConvertError(message)) => {
                assert!(!message.is_empty())
            },
            other => panic!("{:?} for {:?}", other, wrong),
        }
    }
}

#[test]
fn vector_with_a_date_that_is_not_utf8_fails() {
    let converter = Converter::new(CxxVectorStringToDateTimeStrategy);
    let items = vec![b"2021-01-01T00:00:00Z".to_vec(), vec![0xFF]];
    assert!(matches!(
        converter.convert(&items),
        Err(CxxConvertError::CxxVectorConvertError(_))
    ));
    let first_wrong = vec![b"no date".to_vec(), vec![0xFF]];
    assert!(matches!(
        converter.convert(&first_wrong),
        Err(CxxConvertError::CxxDateVectorConvertError(_))
    ));
}

#[test]
fn parser_outcome_becomes_the_conversion_outcome() {
    assert_eq!(instant_from_parse(Ok(42)).unwrap(), 42);
    assert_eq!(instant_from_parse(Ok(-1)).unwrap(), -1);
    match instant_from_parse(Err("no date".to_string())) {
        Err(CxxConvertError::CxxDateVectorConvertError(message)) => assert_eq!(message, "no date"),
        other => panic!("{:?}", other),
    }
}

#[test]
fn conversion_error_says_what_failed_and_why() {
    assert_eq!(
        CxxConvertError::CxxVectorConvertError("bad element".to_string()).message(),
        "Failed to convert cxx vector variable. 'bad element'"
    );
    assert_eq!(
        CxxConvertError::CxxDateVectorConvertError("no date".to_string()).message(),
        "Failed to convert cxx vector of dates. 'no date'"
    );
    let broken: Vec<u8> = vec![0xc3, 0x28];
    let cause = std::str::from_utf8(&broken).unwrap_err();
    assert_eq!(
        CxxConvertError::Utf8Error(cause).message(),
        format!("Failed to convert CxxString to Rust String: {}", cause)
    );
}
