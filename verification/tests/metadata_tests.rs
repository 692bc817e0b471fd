use extractous_ffi::metadata::{extractous_metadata_free, metadata_to_c};
use extractous_ffi::types::{CMetadata, MetadataEntry, VALUE_SEPARATOR};

fn entry(key: &str, values: &[&str]) -> MetadataEntry {
    MetadataEntry {
        key: key.to_string(),
        values: values.iter().map(|v| v.to_string()).collect(),
    }
}

#[test]
fn the_separator_is_a_comma() {
    assert_eq!(VALUE_SEPARATOR, b',');
}

#[test]
fn empty_metadata_flattens_to_empty_arrays() {
    let m = metadata_to_c(vec![]);
    assert_eq!(m.len, 0);
    assert!(m.keys.is_empty());
    assert!(m.values.is_empty());
    extractous_metadata_free(Some(m));
}

#[test]
fn releasing_the_null_handle_does_nothing() {
    extractous_metadata_free(None);
}

#[test]
fn one_entry_becomes_one_pair_of_c_strings() {
    let m = metadata_to_c(vec![entry("Content-Type", &["text/plain"])]);
    assert_eq!(m.len, 1);
    assert_eq!(m.keys, vec![b"Content-Type\0".to_vec()]);
    assert_eq!(m.values, vec![b"text/plain\0".to_vec()]);
    extractous_metadata_free(Some(m));
}

#[test]
fn values_of_one_key_are_joined_by_a_comma() {
    let m = metadata_to_c(vec![entry("dc:creator", &["Ann", "Bob", "Cy"])]);
    assert_eq!(m.values, vec![b"Ann,Bob,Cy\0".to_vec()]);
}

#[test]
fn a_key_without_values_has_an_empty_value() {
    let m = metadata_to_c(vec![entry("empty", &[])]);
    assert_eq!(m.len, 1);
    assert_eq!(m.keys, vec![b"empty\0".to_vec()]);
    assert_eq!(m.values, vec![vec![0u8]]);
}

#[test]
fn entries_keep_their_order() {
    let m = metadata_to_c(vec![
        entry("b", &["2"]),
        entry("a", &["1"]),
        entry("c", &["3", "4"]),
    ]);
    assert_eq!(m.len, 3);
    assert_eq!(m.keys, vec![b"b\0".to_vec(), b"a\0".to_vec(), b"c\0".to_vec()]);
    assert_eq!(m.values, vec![b"2\0".to_vec(), b"1\0".to_vec(), b"3,4\0".to_vec()]);
}

#[test]
fn an_entry_with_a_zero_byte_in_its_key_is_skipped() {
    let m = metadata_to_c(vec![
        entry("first", &["1"]),
        entry("ba\0d", &["x"]),
        entry("last", &["2"]),
    ]);
    assert_eq!(m.len, 2);
    assert_eq!(m.keys, vec![b"first\0".to_vec(), b"last\0".to_vec()]);
    assert_eq!(m.values, vec![b"1\0".to_vec(), b"2\0".to_vec()]);
}

#[test]
fn an_entry_with_a_zero_byte_in_a_value_is_skipped() {
    let m = metadata_to_c(vec![
        entry("first", &["1"]),
        entry("bad", &["fine", "not\0fine"]),
        entry("last", &["2"]),
    ]);
    assert_eq!(m.len, 2);
    assert_eq!(m.keys, vec![b"first\0".to_vec(), b"last\0".to_vec()]);
    assert_eq!(m.values, vec![b"1\0".to_vec(), b"2\0".to_vec()]);
}

#[test]
fn metadata_of_unrepresentable_entries_only_is_empty() {
    let m = metadata_to_c(vec![entry("\0", &["x"]), entry("k", &["\0"])]);
    assert_eq!(
        *m,
        CMetadata {
            keys: vec![],
            values: vec![],
            len: 0
        }
    );
    extractous_metadata_free(Some(m));
}

#[test]
fn every_flattened_string_ends_in_its_only_zero_byte() {
    let m = metadata_to_c(vec![
        entry("Content-Type", &["application/pdf"]),
        entry("pdf:docinfo:title", &["Un été", "夏"]),
    ]);
    assert_eq!(m.keys.len(), m.len);
    assert_eq!(m.values.len(), m.len);
    for s in m.keys.iter().chain(m.values.iter()) {
        assert_eq!(s.last(), Some(&0u8));
        assert!(!s[..s.len() - 1].contains(&0u8));
    }
    assert_eq!(m.values[1], "Un été,夏\0".as_bytes().to_vec());
}

#[test]
fn distinct_keys_stay_distinct() {
    let m = metadata_to_c(vec![
        entry("a", &["1"]),
        entry("A", &["2"]),
        entry("a\0", &["3"]),
        entry("ab", &["4"]),
        entry("", &["5"]),
    ]);
    assert_eq!(m.len, 4);
    for i in 0..m.keys.len() {
        for j in (i + 1)..m.keys.len() {
            assert_ne!(m.keys[i], m.keys[j]);
        }
    }
    assert_eq!(
        m.keys,
        vec![b"a\0".to_vec(), b"A\0".to_vec(), b"ab\0".to_vec(), b"\0".to_vec()]
    );
}
