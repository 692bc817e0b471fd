use extractous_ffi::config::{
    extractous_ocr_config_free, extractous_ocr_config_new, extractous_office_config_free,
    extractous_office_config_new, extractous_pdf_config_free, extractous_pdf_config_new,
};
use extractous_ffi::errors::extractous_error_message;
use extractous_ffi::extractor::{
    extractous_extractor_free, extractous_extractor_new, extractous_extractor_set_ocr_config_mut,
    extractous_extractor_set_office_config_mut, extractous_extractor_set_pdf_config_mut,
    extractous_string_free,
};
use extractous_ffi::metadata::{extractous_metadata_free, metadata_to_c};
use extractous_ffi::types::MetadataEntry;
use extractous_ffi::{extractous_core_version, extractous_ffi_version};

// A release consumes its handle, so a handle can be released once and
// cannot be used afterwards: a second release of the same handle, or a use
// after release, is refused when the caller is compiled. These tests
// release each kind of handle exactly once.

#[test]
fn every_kind_of_handle_is_released_once() {
    extractous_pdf_config_free(Some(extractous_pdf_config_new()));
    extractous_office_config_free(Some(extractous_office_config_new()));
    extractous_ocr_config_free(Some(extractous_ocr_config_new()));
    extractous_extractor_free(Some(extractous_extractor_new()));
    extractous_string_free(Some(extractous_error_message(0)));
    extractous_metadata_free(Some(metadata_to_c(vec![MetadataEntry {
        key: "k".to_string(),
        values: vec!["v".to_string()],
    }])));
}

#[test]
fn every_release_accepts_the_null_handle() {
    extractous_pdf_config_free(None);
    extractous_office_config_free(None);
    extractous_ocr_config_free(None);
    extractous_extractor_free(None);
    extractous_string_free(None);
    extractous_metadata_free(None);
}

#[test]
fn attached_configurations_are_released_with_their_extractor() {
    let mut e = extractous_extractor_new();
    let pdf = extractous_pdf_config_new();
    let office = extractous_office_config_new();
    let ocr = extractous_ocr_config_new();
    assert!(extractous_extractor_set_pdf_config_mut(Some(&mut *e), Some(pdf)).is_none());
    assert!(extractous_extractor_set_office_config_mut(Some(&mut *e), Some(office)).is_none());
    assert!(extractous_extractor_set_ocr_config_mut(Some(&mut *e), Some(ocr)).is_none());
    assert!(e.pdf_config.is_some() && e.office_config.is_some() && e.ocr_config.is_some());
    extractous_extractor_free(Some(e));
}

#[test]
fn the_versions_are_static_text() {
    assert_eq!(extractous_ffi_version(), "0.1.0");
    assert_eq!(extractous_core_version(), "0.3.0");
}
