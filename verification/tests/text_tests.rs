use extractous_ffi::text::{
    append_bytes, append_decimal, contains_bytes, contains_nul, join_strings, to_c_string,
};

#[test]
fn c_string_appends_the_terminator() {
    assert_eq!(to_c_string(b"abc"), Some(b"abc\0".to_vec()));
}

#[test]
fn c_string_of_empty_text_is_the_terminator_alone() {
    assert_eq!(to_c_string(b""), Some(vec![0u8]));
}

#[test]
fn c_string_refuses_an_embedded_zero_byte() {
    assert_eq!(to_c_string(b"a\0b"), None);
    assert_eq!(to_c_string(b"\0"), None);
    assert_eq!(to_c_string(b"ab\0"), None);
}

#[test]
fn contains_nul_finds_the_zero_byte_anywhere() {
    assert!(!contains_nul(b""));
    assert!(!contains_nul(b"plain"));
    assert!(contains_nul(b"\0plain"));
    assert!(contains_nul(b"pla\0in"));
    assert!(contains_nul(b"plain\0"));
}

#[test]
fn append_bytes_keeps_what_was_there() {
    let mut dst = b"ab".to_vec();
    append_bytes(&mut dst, b"cd");
    assert_eq!(dst, b"abcd".to_vec());
    append_bytes(&mut dst, b"");
    assert_eq!(dst, b"abcd".to_vec());
}

#[test]
fn contains_bytes_matches_a_contiguous_run() {
    assert!(contains_bytes(b"the ocr engine", b"ocr"));
    assert!(contains_bytes(b"ocr", b"ocr"));
    assert!(contains_bytes(b"xxocr", b"ocr"));
    assert!(contains_bytes(b"ocrxx", b"ocr"));
    assert!(!contains_bytes(b"o c r", b"ocr"));
    assert!(!contains_bytes(b"oc", b"ocr"));
    assert!(!contains_bytes(b"", b"ocr"));
    assert!(!contains_bytes(b"ococ", b"ocr"));
    assert!(contains_bytes(b"ocococr", b"ocr"));
}

#[test]
fn contains_bytes_finds_the_empty_needle_everywhere() {
    assert!(contains_bytes(b"", b""));
    assert!(contains_bytes(b"abc", b""));
}

#[test]
fn join_strings_puts_the_separator_between_neighbours() {
    let none: Vec<String> = vec![];
    assert_eq!(join_strings(&none, b','), b"".to_vec());
    assert_eq!(join_strings(&vec!["a".to_string()], b','), b"a".to_vec());
    assert_eq!(
        join_strings(&vec!["a".to_string(), "b".to_string(), "c".to_string()], b','),
        b"a,b,c".to_vec()
    );
    assert_eq!(
        join_strings(&vec!["".to_string(), "".to_string()], b','),
        b",".to_vec()
    );
}

#[test]
fn join_strings_carries_text_as_utf8() {
    let parts = vec!["é".to_string(), "日本".to_string()];
    assert_eq!(join_strings(&parts, b';'), "é;日本".as_bytes().to_vec());
}

#[test]
fn append_decimal_writes_the_digits_most_significant_first() {
    let mut dst: Vec<u8> = vec![];
    append_decimal(&mut dst, 0);
    assert_eq!(dst, b"0".to_vec());
    append_decimal(&mut dst, 7);
    assert_eq!(dst, b"07".to_vec());
    let mut dst: Vec<u8> = b"n=".to_vec();
    append_decimal(&mut dst, 10);
    assert_eq!(dst, b"n=10".to_vec());
    let mut dst: Vec<u8> = vec![];
    append_decimal(&mut dst, 4096);
    assert_eq!(dst, b"4096".to_vec());
    let mut dst: Vec<u8> = vec![];
    append_decimal(&mut dst, usize::MAX);
    assert_eq!(dst, format!("{}", usize::MAX).into_bytes());
}
