//! The extractor handle: its settings, the configurations attached to it,
//! and the six extractions.
//!
//! An extraction is the engine's work, which happens outside this library:
//! each of the six operations takes the engine as a function value. What
//! stands here is what comes before the engine and after it. Before: the
//! arguments are checked, and the engine is only asked when they are in
//! order. After: the engine's answer is turned into what the caller's
//! output slots receive and into the code that the operation returns. On
//! any failure both slots stay as they were.
//!
//! Text that the engine extracted is handed out as a C string. Text with a
//! zero byte in it cannot be: the extraction then fails with
//! `ERR_INVALID_STRING`, and nothing is cut off in silence.
//!
//! A failure of the engine is kept as the thread's last failure. A refused
//! argument touches nothing, the last failure included. Text that cannot be
//! handed out empties the last failure, since it has no error value of its
//! own.
//!
//! An empty byte buffer holds no document. Its extraction is a success
//! with empty content and empty metadata, and the engine is not asked.
use vstd::prelude::*;
use vstd::string::*;
use vstd::utf8::*;

use crate::errors::{
    code_for_error, extractous_error_clear_last, extractous_error_to_code,
    lemma_failure_code_is_negative, set_last_error, ErrorSlot, ErrorSummary,
    ERR_INVALID_STRING, ERR_INVALID_UTF8, ERR_NULL_POINTER, ERR_OK,
};
use crate::metadata::{carries, flattened, lemma_flattened_fits, metadata_to_c};
use crate::text::{c_string_of, lowercase_of, opt_bytes, to_c_string, utf8_text};
use crate::types::{
    CExtractor, CMetadata, COfficeParserConfig, CPdfParserConfig, CStreamReader,
    CTesseractOcrConfig, CharSet, MetadataEntry, StreamState, CHARSET_US_ASCII, CHARSET_UTF_16BE,
    CHARSET_UTF_8, NO_LENGTH_LIMIT,
};

verus! {

/// The encoding that an integer selector names, if it names one.
pub open spec fn charset_of(selector: int) -> Option<CharSet> {
    if selector == CHARSET_UTF_8 {
        Some(CharSet::Utf8)
    } else if selector == CHARSET_US_ASCII {
        Some(CharSet::UsAscii)
    } else if selector == CHARSET_UTF_16BE {
        Some(CharSet::Utf16Be)
    } else {
        None
    }
}

/// `max_length` is a bound on the length of extracted text, or the
/// sentinel for no bound.
pub open spec fn is_length_setting(max_length: int) -> bool {
    max_length >= 0 || max_length == NO_LENGTH_LIMIT
}

/// `extractor` holds the settings that a new handle starts with: UTF-8,
/// no bound on the length, plain text, and nothing attached.
pub open spec fn is_default_extractor(extractor: CExtractor) -> bool {
    &&& extractor.extract_string_max_length == NO_LENGTH_LIMIT
    &&& extractor.encoding == CharSet::Utf8
    &&& !extractor.xml_output
    &&& extractor.pdf_config is None
    &&& extractor.office_config is None
    &&& extractor.ocr_config is None
}

/// The encoding that an integer selector names, if it names one.
pub fn charset_from_selector(selector: i32) -> (r: Option<CharSet>)
    ensures
        r == charset_of(selector as int),
{
    if selector == CHARSET_UTF_8 {
        Some(CharSet::Utf8)
    } else if selector == CHARSET_US_ASCII {
        Some(CharSet::UsAscii)
    } else if selector == CHARSET_UTF_16BE {
        Some(CharSet::Utf16Be)
    } else {
        None
    }
}

/// A new extractor with the default settings. It is released with
/// `extractous_extractor_free`.
pub fn extractous_extractor_new() -> (r: Box<CExtractor>)
    ensures
        is_default_extractor(*r),
{
    Box::new(
        CExtractor {
            extract_string_max_length: NO_LENGTH_LIMIT,
            encoding: CharSet::Utf8,
            xml_output: false,
            pdf_config: None,
            office_config: None,
            ocr_config: None,
        },
    )
}

/// Releases an extractor together with every configuration attached to
/// it. Nothing happens for the null handle.
pub fn extractous_extractor_free(handle: Option<Box<CExtractor>>) {
}

/// Releases a C string that this library handed out. Nothing happens for
/// the null pointer.
pub fn extractous_string_free(s: Option<Vec<u8>>) {
}

/// Sets the longest text that an extraction to a string returns. Zero is a
/// bound of zero; `NO_LENGTH_LIMIT` lifts the bound. Any other negative
/// number changes nothing.
pub fn extractous_extractor_set_extract_string_max_length_mut(
    handle: Option<&mut CExtractor>,
    max_length: i32,
)
    ensures
        match handle {
            Some(h) => *final(h) == (if is_length_setting(max_length as int) {
                (CExtractor { extract_string_max_length: max_length, ..*h })
            } else {
                *h
            }),
            None => true,
        },
{
    match handle {
        Some(h) => {
            if max_length >= 0 || max_length == NO_LENGTH_LIMIT {
                h.extract_string_max_length = max_length;
            }
        },
        None => {},
    }
}

/// Sets the encoding of streamed text to the one that `encoding` selects.
/// A selector that names none changes nothing.
pub fn extractous_extractor_set_encoding_mut(handle: Option<&mut CExtractor>, encoding: i32)
    ensures
        match handle {
            Some(h) => *final(h) == (match charset_of(encoding as int) {
                Some(c) => (CExtractor { encoding: c, ..*h }),
                None => *h,
            }),
            None => true,
        },
{
    match handle {
        Some(h) => {
            match charset_from_selector(encoding) {
                Some(c) => {
                    h.encoding = c;
                },
                None => {},
            }
        },
        None => {},
    }
}

/// Sets whether the engine returns structured markup in place of plain
/// text.
pub fn extractous_extractor_set_xml_output_mut(handle: Option<&mut CExtractor>, xml_output: bool)
    ensures
        match handle {
            Some(h) => *final(h) == (CExtractor { xml_output: xml_output, ..*h }),
            None => true,
        },
{
    match handle {
        Some(h) => {
            h.xml_output = xml_output;
        },
        None => {},
    }
}

/// Attaches a PDF configuration. The extractor owns it from then on, and
/// the one attached before, if any, is released. A null configuration
/// changes nothing. Where the extractor is null nothing is attached, and
/// the configuration comes back to the caller, who still owns it.
pub fn extractous_extractor_set_pdf_config_mut(
    handle: Option<&mut CExtractor>,
    config: Option<Box<CPdfParserConfig>>,
) -> (unattached: Option<Box<CPdfParserConfig>>)
    ensures
        match handle {
            Some(h) => unattached is None && *final(h) == (match config {
                Some(c) => (CExtractor { pdf_config: Some(*c), ..*h }),
                None => *h,
            }),
            None => unattached == config,
        },
{
    match handle {
        Some(h) => {
            match config {
                Some(c) => {
                    h.pdf_config = Some(*c);
                },
                None => {},
            }
            None
        },
        None => config,
    }
}

/// Attaches an office configuration, under the rules of
/// `extractous_extractor_set_pdf_config_mut`.
pub fn extractous_extractor_set_office_config_mut(
    handle: Option<&mut CExtractor>,
    config: Option<Box<COfficeParserConfig>>,
) -> (unattached: Option<Box<COfficeParserConfig>>)
    ensures
        match handle {
            Some(h) => unattached is None && *final(h) == (match config {
                Some(c) => (CExtractor { office_config: Some(*c), ..*h }),
                None => *h,
            }),
            None => unattached == config,
        },
{
    match handle {
        Some(h) => {
            match config {
                Some(c) => {
                    h.office_config = Some(*c);
                },
                None => {},
            }
            None
        },
        None => config,
    }
}

/// Attaches a recognition configuration, under the rules of
/// `extractous_extractor_set_pdf_config_mut`.
pub fn extractous_extractor_set_ocr_config_mut(
    handle: Option<&mut CExtractor>,
    config: Option<Box<CTesseractOcrConfig>>,
) -> (unattached: Option<Box<CTesseractOcrConfig>>)
    ensures
        match handle {
            Some(h) => unattached is None && *final(h) == (match config {
                Some(c) => (CExtractor { ocr_config: Some(*c), ..*h }),
                None => *h,
            }),
            None => unattached == config,
        },
{
    match handle {
        Some(h) => {
            match config {
                Some(c) => {
                    h.ocr_config = Some(*c);
                },
                None => {},
            }
            None
        },
        None => config,
    }
}

/// The code that the arguments of an extraction from a path or a URL
/// deserve: `ERR_OK` where the engine may be asked. The source is looked at
/// first, the handle and the two output slots after it.
pub open spec fn text_source_code(
    handle_given: bool,
    source: Option<Seq<u8>>,
    first_slot_given: bool,
    metadata_slot_given: bool,
) -> int {
    match source {
        None => ERR_NULL_POINTER as int,
        Some(bytes) => if !valid_utf8(bytes) {
            ERR_INVALID_UTF8 as int
        } else if !handle_given || !first_slot_given || !metadata_slot_given {
            ERR_NULL_POINTER as int
        } else {
            ERR_OK as int
        },
    }
}

/// The code that the arguments of an extraction from a byte buffer
/// deserve: `ERR_OK` where the engine may be asked.
pub open spec fn byte_source_code(
    handle_given: bool,
    data_given: bool,
    first_slot_given: bool,
    metadata_slot_given: bool,
) -> int {
    if !data_given || !handle_given || !first_slot_given || !metadata_slot_given {
        ERR_NULL_POINTER as int
    } else {
        ERR_OK as int
    }
}

/// The view of an optional byte slice.
pub open spec fn opt_slice(s: Option<&[u8]>) -> Option<Seq<u8>> {
    match s {
        Some(b) => Some(b@),
        None => None,
    }
}

/// Checks the arguments of an extraction from a file path or from a URL.
/// `source` is the bytes of the C string without its terminator, and the
/// two flags say whether each output slot was given. The result is the
/// text to hand to the engine, or the code to return without asking it.
pub fn accept_text_source<'a>(
    handle: Option<&CExtractor>,
    source: Option<&'a [u8]>,
    first_slot_given: bool,
    metadata_slot_given: bool,
) -> (r: Result<&'a str, i32>)
    ensures
        match r {
            Ok(text) => {
                &&& text_source_code(
                    handle is Some,
                    opt_slice(source),
                    first_slot_given,
                    metadata_slot_given,
                ) == ERR_OK
                &&& source matches Some(bytes) && text.spec_bytes() == bytes@
            },
            Err(code) => {
                &&& code != ERR_OK
                &&& code == text_source_code(
                    handle is Some,
                    opt_slice(source),
                    first_slot_given,
                    metadata_slot_given,
                )
            },
        },
{
    match source {
        None => Err(ERR_NULL_POINTER),
        Some(bytes) => match utf8_text(bytes) {
            None => Err(ERR_INVALID_UTF8),
            Some(text) => if handle.is_none() || !first_slot_given || !metadata_slot_given {
                Err(ERR_NULL_POINTER)
            } else {
                Ok(text)
            },
        },
    }
}

/// Checks the arguments of an extraction from a byte buffer. The buffer is
/// a span of bytes of the given length and nothing more: it may be empty,
/// and a zero byte in it ends nothing. The result is the span to hand to
/// the engine, or the code to return without asking it.
pub fn accept_byte_source<'a>(
    handle: Option<&CExtractor>,
    data: Option<&'a [u8]>,
    first_slot_given: bool,
    metadata_slot_given: bool,
) -> (r: Result<&'a [u8], i32>)
    ensures
        match r {
            Ok(span) => {
                &&& byte_source_code(
                    handle is Some,
                    data is Some,
                    first_slot_given,
                    metadata_slot_given,
                ) == ERR_OK
                &&& data matches Some(bytes) && span@ == bytes@
            },
            Err(code) => {
                &&& code == ERR_NULL_POINTER
                &&& code == byte_source_code(
                    handle is Some,
                    data is Some,
                    first_slot_given,
                    metadata_slot_given,
                )
            },
        },
{
    match data {
        None => Err(ERR_NULL_POINTER),
        Some(bytes) => if handle.is_none() || !first_slot_given || !metadata_slot_given {
            Err(ERR_NULL_POINTER)
        } else {
            Ok(bytes)
        },
    }
}

/// A failure of the engine: the error value as the engine gave it, and
/// what classification reads of it.
pub struct EngineFailure<E> {
    pub error: E,
    pub summary: ErrorSummary,
}

/// The code of an engine failure.
pub open spec fn failure_code(summary: ErrorSummary) -> int {
    code_for_error(summary.kind, lowercase_of(summary.message@), summary.causes@)
}

/// Records an engine failure as the thread's last failure and gives its
/// code.
pub fn record_failure<E>(failure: EngineFailure<E>, slot: &mut ErrorSlot<E>) -> (code: i32)
    ensures
        code == failure_code(failure.summary),
        code < 0,
        final(slot).last == Some(failure.error),
{
    let code = extractous_error_to_code(&failure.summary);
    proof {
        lemma_failure_code_is_negative(
            failure.summary.kind,
            lowercase_of(failure.summary.message@),
            failure.summary.causes@,
        );
    }
    set_last_error(slot, failure.error);
    code
}

/// What an extraction to a string leaves behind. `content`, `metadata` and
/// `slot` each hold the value before and the value after. Where the engine
/// succeeded and the text can be carried by a C string, the content slot
/// holds that C string, the metadata slot holds the flattened metadata and
/// the code is `ERR_OK`. Text with a zero byte in it gives
/// `ERR_INVALID_STRING`; there is no error value to keep for it, so the
/// thread's last failure is emptied, and no report of an earlier failure
/// can be taken for this one. An engine failure gives its code and is the
/// thread's last failure. On every failure both slots are as they were.
pub open spec fn string_delivered<E>(
    outcome: Result<(String, Vec<MetadataEntry>), EngineFailure<E>>,
    code: i32,
    content: (Option<Vec<u8>>, Option<Vec<u8>>),
    metadata: (Option<Box<CMetadata>>, Option<Box<CMetadata>>),
    slot: (ErrorSlot<E>, ErrorSlot<E>),
) -> bool {
    match outcome {
        Ok((text, entries)) => match c_string_of(encode_utf8(text@)) {
            Some(carried) => {
                &&& code == ERR_OK
                &&& opt_bytes(content.1) == Some(carried)
                &&& metadata.1 matches Some(m) && carries(*m, flattened(entries@))
                    && m.is_well_formed()
                &&& slot.1 == slot.0
            },
            None => {
                &&& code == ERR_INVALID_STRING
                &&& content.1 == content.0
                &&& metadata.1 == metadata.0
                &&& slot.1.last is None
            },
        },
        Err(failure) => {
            &&& code == failure_code(failure.summary)
            &&& code < 0
            &&& content.1 == content.0
            &&& metadata.1 == metadata.0
            &&& slot.1.last == Some(failure.error)
        },
    }
}

/// What an extraction to a stream leaves behind. `reader`, `metadata` and
/// `slot` each hold the value before and the value after. Where the engine
/// succeeded, the reader slot holds the record of a stream that is open,
/// the metadata slot holds the flattened metadata and the code is `ERR_OK`.
/// An engine failure gives its code and is the thread's last failure; both
/// slots are then as they were.
pub open spec fn stream_delivered<E>(
    outcome: Result<Vec<MetadataEntry>, EngineFailure<E>>,
    code: i32,
    reader: (Option<Box<CStreamReader>>, Option<Box<CStreamReader>>),
    metadata: (Option<Box<CMetadata>>, Option<Box<CMetadata>>),
    slot: (ErrorSlot<E>, ErrorSlot<E>),
) -> bool {
    match outcome {
        Ok(entries) => {
            &&& code == ERR_OK
            &&& reader.1 matches Some(r) && r.state == StreamState::Open
            &&& metadata.1 matches Some(m) && carries(*m, flattened(entries@))
                && m.is_well_formed()
            &&& slot.1 == slot.0
        },
        Err(failure) => {
            &&& code == failure_code(failure.summary)
            &&& code < 0
            &&& reader.1 == reader.0
            &&& metadata.1 == metadata.0
            &&& slot.1.last == Some(failure.error)
        },
    }
}

/// Finishes an extraction to a string with what the engine returned.
pub fn deliver_string_result<E>(
    outcome: Result<(String, Vec<MetadataEntry>), EngineFailure<E>>,
    out_content: &mut Option<Vec<u8>>,
    out_metadata: &mut Option<Box<CMetadata>>,
    slot: &mut ErrorSlot<E>,
) -> (code: i32)
    ensures
        string_delivered(
            outcome,
            code,
            (*old(out_content), *final(out_content)),
            (*old(out_metadata), *final(out_metadata)),
            (*old(slot), *final(slot)),
        ),
{
    match outcome {
        Ok((content, metadata)) => {
            match to_c_string(content.as_str().as_bytes()) {
                Some(text) => {
                    *out_content = Some(text);
                    *out_metadata = Some(metadata_to_c(metadata));
                    ERR_OK
                },
                None => {
                    extractous_error_clear_last(slot);
                    ERR_INVALID_STRING
                },
            }
        },
        Err(failure) => record_failure(failure, slot),
    }
}

/// Finishes an extraction to a stream with what the engine returned: the
/// metadata of the document, where it succeeded.
pub fn deliver_stream_result<E>(
    outcome: Result<Vec<MetadataEntry>, EngineFailure<E>>,
    out_reader: &mut Option<Box<CStreamReader>>,
    out_metadata: &mut Option<Box<CMetadata>>,
    slot: &mut ErrorSlot<E>,
) -> (code: i32)
    ensures
        stream_delivered(
            outcome,
            code,
            (*old(out_reader), *final(out_reader)),
            (*old(out_metadata), *final(out_metadata)),
            (*old(slot), *final(slot)),
        ),
{
    match outcome {
        Ok(metadata) => {
            *out_reader = Some(Box::new(CStreamReader { state: StreamState::Open }));
            *out_metadata = Some(metadata_to_c(metadata));
            ERR_OK
        },
        Err(failure) => record_failure(failure, slot),
    }
}

/// Extracts the file at `path` into a string.
/// `path` is the bytes of a C string without its terminator. The engine is
/// `extract`. It is asked only when every argument is in order, and what it
/// returns decides the rest; until then nothing is written and nothing is
/// recorded.
pub fn extractous_extractor_extract_file_to_string<E, F>(
    handle: Option<&CExtractor>,
    path: Option<&[u8]>,
    out_content: Option<&mut Option<Vec<u8>>>,
    out_metadata: Option<&mut Option<Box<CMetadata>>>,
    slot: &mut ErrorSlot<E>,
    extract: F,
) -> (code: i32) where
    F: FnOnce(&CExtractor, &str) -> Result<(String, Vec<MetadataEntry>), EngineFailure<E>>,

    requires
        forall|e: &CExtractor, text: &str| call_requires(extract, (e, text)),
    ensures
        match (handle, path, out_content, out_metadata) {
            (Some(h), Some(bytes), Some(c), Some(m)) => if valid_utf8(bytes@) {
                exists|
                    text: &str,
                    outcome: Result<(String, Vec<MetadataEntry>), EngineFailure<E>>,
                |
                    text.spec_bytes() == bytes@ && call_ensures(extract, (h, text), outcome)
                        && string_delivered(
                        outcome,
                        code,
                        (*c, *final(c)),
                        (*m, *final(m)),
                        (*old(slot), *final(slot)),
                    )
            } else {
                &&& code == ERR_INVALID_UTF8
                &&& *final(c) == *c
                &&& *final(m) == *m
                &&& *final(slot) == *old(slot)
            },
            _ => {
                &&& code == text_source_code(
                    handle is Some,
                    opt_slice(path),
                    out_content is Some,
                    out_metadata is Some,
                )
                &&& code != ERR_OK
                &&& out_content matches Some(c) ==> *final(c) == *c
                &&& out_metadata matches Some(m) ==> *final(m) == *m
                &&& *final(slot) == *old(slot)
            },
        },
{
    let given = (out_content.is_some(), out_metadata.is_some());
    match accept_text_source(handle, path, given.0, given.1) {
        Err(code) => code,
        Ok(text) => match (handle, out_content, out_metadata) {
            (Some(h), Some(c), Some(m)) => {
                let outcome = extract(h, text);
                deliver_string_result(outcome, c, m, slot)
            },
            _ => ERR_NULL_POINTER,
        },
    }
}

/// Extracts the file at `path` into a stream.
/// `path` is the bytes of a C string without its terminator. The engine is
/// `extract`, which keeps the stream that it opened and returns the
/// metadata. It is asked only when every argument is in order, and what it
/// returns decides the rest; until then nothing is written and nothing is
/// recorded.
pub fn extractous_extractor_extract_file<E, F>(
    handle: Option<&CExtractor>,
    path: Option<&[u8]>,
    out_reader: Option<&mut Option<Box<CStreamReader>>>,
    out_metadata: Option<&mut Option<Box<CMetadata>>>,
    slot: &mut ErrorSlot<E>,
    extract: F,
) -> (code: i32) where
    F: FnOnce(&CExtractor, &str) -> Result<Vec<MetadataEntry>, EngineFailure<E>>,

    requires
        forall|e: &CExtractor, text: &str| call_requires(extract, (e, text)),
    ensures
        match (handle, path, out_reader, out_metadata) {
            (Some(h), Some(bytes), Some(r), Some(m)) => if valid_utf8(bytes@) {
                exists|text: &str, outcome: Result<Vec<MetadataEntry>, EngineFailure<E>>|
                    text.spec_bytes() == bytes@ && call_ensures(extract, (h, text), outcome)
                        && stream_delivered(
                        outcome,
                        code,
                        (*r, *final(r)),
                        (*m, *final(m)),
                        (*old(slot), *final(slot)),
                    )
            } else {
                &&& code == ERR_INVALID_UTF8
                &&& *final(r) == *r
                &&& *final(m) == *m
                &&& *final(slot) == *old(slot)
            },
            _ => {
                &&& code == text_source_code(
                    handle is Some,
                    opt_slice(path),
                    out_reader is Some,
                    out_metadata is Some,
                )
                &&& code != ERR_OK
                &&& out_reader matches Some(r) ==> *final(r) == *r
                &&& out_metadata matches Some(m) ==> *final(m) == *m
                &&& *final(slot) == *old(slot)
            },
        },
{
    let given = (out_reader.is_some(), out_metadata.is_some());
    match accept_text_source(handle, path, given.0, given.1) {
        Err(code) => code,
        Ok(text) => match (handle, out_reader, out_metadata) {
            (Some(h), Some(r), Some(m)) => {
                let outcome = extract(h, text);
                deliver_stream_result(outcome, r, m, slot)
            },
            _ => ERR_NULL_POINTER,
        },
    }
}

/// `metadata` is flattened metadata without entries.
pub open spec fn is_empty_metadata(metadata: Option<Box<CMetadata>>) -> bool {
    metadata matches Some(m) && carries(*m, Seq::<MetadataEntry>::empty()) && m.is_well_formed()
}

/// Extracts the document in `data` into a string. The buffer is a span of
/// bytes and nothing more. An empty buffer holds no document: the content
/// slot receives the empty C string, the metadata slot receives metadata
/// without entries, the code is `ERR_OK`, and the engine is not asked. For
/// any other buffer the engine, `extract`, is asked once no argument is
/// null, and what it returns decides the rest. Where an argument is null
/// nothing is written and nothing is recorded.
pub fn extractous_extractor_extract_bytes_to_string<E, F>(
    handle: Option<&CExtractor>,
    data: Option<&[u8]>,
    out_content: Option<&mut Option<Vec<u8>>>,
    out_metadata: Option<&mut Option<Box<CMetadata>>>,
    slot: &mut ErrorSlot<E>,
    extract: F,
) -> (code: i32) where
    F: FnOnce(&CExtractor, &[u8]) -> Result<(String, Vec<MetadataEntry>), EngineFailure<E>>,

    requires
        forall|e: &CExtractor, span: &[u8]| call_requires(extract, (e, span)),
    ensures
        match (handle, data, out_content, out_metadata) {
            (Some(h), Some(bytes), Some(c), Some(m)) => if bytes@.len() == 0 {
                &&& code == ERR_OK
                &&& opt_bytes(*final(c)) == Some(seq![0u8])
                &&& is_empty_metadata(*final(m))
                &&& *final(slot) == *old(slot)
            } else {
                exists|
                    span: &[u8],
                    outcome: Result<(String, Vec<MetadataEntry>), EngineFailure<E>>,
                |
                    span@ == bytes@ && call_ensures(extract, (h, span), outcome)
                        && string_delivered(
                        outcome,
                        code,
                        (*c, *final(c)),
                        (*m, *final(m)),
                        (*old(slot), *final(slot)),
                    )
            },
            _ => {
                &&& code == ERR_NULL_POINTER
                &&& out_content matches Some(c) ==> *final(c) == *c
                &&& out_metadata matches Some(m) ==> *final(m) == *m
                &&& *final(slot) == *old(slot)
            },
        },
{
    let given = (out_content.is_some(), out_metadata.is_some());
    match accept_byte_source(handle, data, given.0, given.1) {
        Err(code) => code,
        Ok(span) => match (handle, out_content, out_metadata) {
            (Some(h), Some(c), Some(m)) => {
                if span.len() == 0 {
                    let nothing: Vec<MetadataEntry> = Vec::new();
                    proof {
                        lemma_flattened_fits(nothing@);
                    }
                    *c = to_c_string(span);
                    *m = Some(metadata_to_c(nothing));
                    ERR_OK
                } else {
                    let outcome = extract(h, span);
                    deliver_string_result(outcome, c, m, slot)
                }
            },
            _ => ERR_NULL_POINTER,
        },
    }
}

/// Extracts the document in `data` into a stream. The buffer is a span of
/// bytes and nothing more. An empty buffer holds no document: the reader
/// slot receives the record of a stream that is exhausted, the metadata
/// slot receives metadata without entries, the code is `ERR_OK`, and the
/// engine is not asked. For any other buffer the engine, `extract`, which
/// keeps the stream that it opened and returns the metadata, is asked once
/// no argument is null, and what it returns decides the rest. Where an
/// argument is null nothing is written and nothing is recorded.
pub fn extractous_extractor_extract_bytes<E, F>(
    handle: Option<&CExtractor>,
    data: Option<&[u8]>,
    out_reader: Option<&mut Option<Box<CStreamReader>>>,
    out_metadata: Option<&mut Option<Box<CMetadata>>>,
    slot: &mut ErrorSlot<E>,
    extract: F,
) -> (code: i32) where
    F: FnOnce(&CExtractor, &[u8]) -> Result<Vec<MetadataEntry>, EngineFailure<E>>,

    requires
        forall|e: &CExtractor, span: &[u8]| call_requires(extract, (e, span)),
    ensures
        match (handle, data, out_reader, out_metadata) {
            (Some(h), Some(bytes), Some(r), Some(m)) => if bytes@.len() == 0 {
                &&& code == ERR_OK
                &&& *final(r) matches Some(reader) && reader.state == StreamState::Exhausted
                &&& is_empty_metadata(*final(m))
                &&& *final(slot) == *old(slot)
            } else {
                exists|span: &[u8], outcome: Result<Vec<MetadataEntry>, EngineFailure<E>>|
                    span@ == bytes@ && call_ensures(extract, (h, span), outcome)
                        && stream_delivered(
                        outcome,
                        code,
                        (*r, *final(r)),
                        (*m, *final(m)),
                        (*old(slot), *final(slot)),
                    )
            },
            _ => {
                &&& code == ERR_NULL_POINTER
                &&& out_reader matches Some(r) ==> *final(r) == *r
                &&& out_metadata matches Some(m) ==> *final(m) == *m
                &&& *final(slot) == *old(slot)
            },
        },
{
    let given = (out_reader.is_some(), out_metadata.is_some());
    match accept_byte_source(handle, data, given.0, given.1) {
        Err(code) => code,
        Ok(span) => match (handle, out_reader, out_metadata) {
            (Some(h), Some(r), Some(m)) => {
                if span.len() == 0 {
                    let nothing: Vec<MetadataEntry> = Vec::new();
                    proof {
                        lemma_flattened_fits(nothing@);
                    }
                    *r = Some(Box::new(CStreamReader { state: StreamState::Exhausted }));
                    *m = Some(metadata_to_c(nothing));
                    ERR_OK
                } else {
                    let outcome = extract(h, span);
                    deliver_stream_result(outcome, r, m, slot)
                }
            },
            _ => ERR_NULL_POINTER,
        },
    }
}

/// Extracts what `url` names into a string.
/// `url` is the bytes of a C string without its terminator. The engine is
/// `extract`. It is asked only when every argument is in order, and what it
/// returns decides the rest; until then nothing is written and nothing is
/// recorded.
pub fn extractous_extractor_extract_url_to_string<E, F>(
    handle: Option<&CExtractor>,
    url: Option<&[u8]>,
    out_content: Option<&mut Option<Vec<u8>>>,
    out_metadata: Option<&mut Option<Box<CMetadata>>>,
    slot: &mut ErrorSlot<E>,
    extract: F,
) -> (code: i32) where
    F: FnOnce(&CExtractor, &str) -> Result<(String, Vec<MetadataEntry>), EngineFailure<E>>,

    requires
        forall|e: &CExtractor, text: &str| call_requires(extract, (e, text)),
    ensures
        match (handle, url, out_content, out_metadata) {
            (Some(h), Some(bytes), Some(c), Some(m)) => if valid_utf8(bytes@) {
                exists|
                    text: &str,
                    outcome: Result<(String, Vec<MetadataEntry>), EngineFailure<E>>,
                |
                    text.spec_bytes() == bytes@ && call_ensures(extract, (h, text), outcome)
                        && string_delivered(
                        outcome,
                        code,
                        (*c, *final(c)),
                        (*m, *final(m)),
                        (*old(slot), *final(slot)),
                    )
            } else {
                &&& code == ERR_INVALID_UTF8
                &&& *final(c) == *c
                &&& *final(m) == *m
                &&& *final(slot) == *old(slot)
            },
            _ => {
                &&& code == text_source_code(
                    handle is Some,
                    opt_slice(url),
                    out_content is Some,
                    out_metadata is Some,
                )
                &&& code != ERR_OK
                &&& out_content matches Some(c) ==> *final(c) == *c
                &&& out_metadata matches Some(m) ==> *final(m) == *m
                &&& *final(slot) == *old(slot)
            },
        },
{
    let given = (out_content.is_some(), out_metadata.is_some());
    match accept_text_source(handle, url, given.0, given.1) {
        Err(code) => code,
        Ok(text) => match (handle, out_content, out_metadata) {
            (Some(h), Some(c), Some(m)) => {
                let outcome = extract(h, text);
                deliver_string_result(outcome, c, m, slot)
            },
            _ => ERR_NULL_POINTER,
        },
    }
}

/// Extracts what `url` names into a stream.
/// `url` is the bytes of a C string without its terminator. The engine is
/// `extract`, which keeps the stream that it opened and returns the
/// metadata. It is asked only when every argument is in order, and what it
/// returns decides the rest; until then nothing is written and nothing is
/// recorded.
pub fn extractous_extractor_extract_url<E, F>(
    handle: Option<&CExtractor>,
    url: Option<&[u8]>,
    out_reader: Option<&mut Option<Box<CStreamReader>>>,
    out_metadata: Option<&mut Option<Box<CMetadata>>>,
    slot: &mut ErrorSlot<E>,
    extract: F,
) -> (code: i32) where
    F: FnOnce(&CExtractor, &str) -> Result<Vec<MetadataEntry>, EngineFailure<E>>,

    requires
        forall|e: &CExtractor, text: &str| call_requires(extract, (e, text)),
    ensures
        match (handle, url, out_reader, out_metadata) {
            (Some(h), Some(bytes), Some(r), Some(m)) => if valid_utf8(bytes@) {
                exists|text: &str, outcome: Result<Vec<MetadataEntry>, EngineFailure<E>>|
                    text.spec_bytes() == bytes@ && call_ensures(extract, (h, text), outcome)
                        && stream_delivered(
                        outcome,
                        code,
                        (*r, *final(r)),
                        (*m, *final(m)),
                        (*old(slot), *final(slot)),
                    )
            } else {
                &&& code == ERR_INVALID_UTF8
                &&& *final(r) == *r
                &&& *final(m) == *m
                &&& *final(slot) == *old(slot)
            },
            _ => {
                &&& code == text_source_code(
                    handle is Some,
                    opt_slice(url),
                    out_reader is Some,
                    out_metadata is Some,
                )
                &&& code != ERR_OK
                &&& out_reader matches Some(r) ==> *final(r) == *r
                &&& out_metadata matches Some(m) ==> *final(m) == *m
                &&& *final(slot) == *old(slot)
            },
        },
{
    let given = (out_reader.is_some(), out_metadata.is_some());
    match accept_text_source(handle, url, given.0, given.1) {
        Err(code) => code,
        Ok(text) => match (handle, out_reader, out_metadata) {
            (Some(h), Some(r), Some(m)) => {
                let outcome = extract(h, text);
                deliver_stream_result(outcome, r, m, slot)
            },
            _ => ERR_NULL_POINTER,
        },
    }
}

} // verus!
