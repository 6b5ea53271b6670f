use tantivy_search::search::utils::convert_utils::ConvertUtils;

#[test]
fn like_pattern_with_both_wildcards() {
    assert_eq!(ConvertUtils::like_to_regex("ab%c_d"), "ab.*c.d");
}

#[test]
fn like_pattern_without_wildcards_is_unchanged() {
    assert_eq!(ConvertUtils::like_to_regex("hello"), "hello");
    assert_eq!(ConvertUtils::like_to_regex(""), "");
}

#[test]
fn like_pattern_of_wildcards_only() {
    assert_eq!(ConvertUtils::like_to_regex("%"), ".*");
    assert_eq!(ConvertUtils::like_to_regex("_"), ".");
    assert_eq!(ConvertUtils::like_to_regex("%_%"), ".*..*");
    assert_eq!(ConvertUtils::like_to_regex("__"), "..");
}

#[test]
fn like_pattern_with_escaped_wildcards() {
    assert_eq!(ConvertUtils::like_to_regex("a\\%b"), "a%b");
    assert_eq!(ConvertUtils::like_to_regex("a\\_b"), "a_b");
    assert_eq!(ConvertUtils::like_to_regex("100\\%%"), "100%.*");
}

#[test]
fn like_pattern_with_other_escapes() {
    assert_eq!(ConvertUtils::like_to_regex("a\\\\b"), "a\\\\b");
    assert_eq!(ConvertUtils::like_to_regex("a\\xb"), "a\\xb");
    assert_eq!(ConvertUtils::like_to_regex("a\\\\%"), "a\\\\.*");
}

#[test]
fn like_pattern_ending_in_a_backslash_drops_it() {
    assert_eq!(ConvertUtils::like_to_regex("abc\\"), "abc");
    assert_eq!(ConvertUtils::like_to_regex("\\"), "");
}

#[test]
fn like_pattern_with_characters_beyond_ascii() {
    assert_eq!(ConvertUtils::like_to_regex("né%_日本"), "né.*.日本");
}

#[test]
fn bitmap_lists_marked_rows_in_ascending_order() {
    assert_eq!(ConvertUtils::u8_bitmap_to_row_ids64(&vec![0b0000_0101, 0b1000_0000]), vec![0, 2, 15]);
    assert_eq!(ConvertUtils::u8_bitmap_to_row_ids64(&vec![0, 0, 1]), vec![16]);
    assert_eq!(
        ConvertUtils::u8_bitmap_to_row_ids64(&vec![0xFF]),
        vec![0, 1, 2, 3, 4, 5, 6, 7]
    );
}

#[test]
fn bitmap_without_marks_lists_nothing() {
    assert!(ConvertUtils::u8_bitmap_to_row_ids64(&Vec::new()).is_empty());
    assert!(ConvertUtils::u8_bitmap_to_row_ids64(&vec![0, 0, 0]).is_empty());
}
