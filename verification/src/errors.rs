//! The error registry: the closed set of result codes, their messages and
//! categories, the mapping from an engine failure to a code, and the slot
//! that keeps the last failure of a thread until its report is asked for.
use vstd::prelude::*;
use vstd::string::*;
use vstd::utf8::*;

use crate::text::{
    append_bytes, append_decimal, c_string, c_string_of, contains_bytes, contains_seq,
    decimal_digits, has_nul, is_c_string, lemma_c_string_well_formed, lowercase, lowercase_of,
    opt_bytes, to_c_string,
};

verus! {

/// The operation completed.
pub const ERR_OK: i32 = 0;

/// A required pointer argument was null.
pub const ERR_NULL_POINTER: i32 = -1;

/// Text was not valid UTF-8.
pub const ERR_INVALID_UTF8: i32 = -2;

/// Text could not be carried by a C string.
pub const ERR_INVALID_STRING: i32 = -3;

/// The engine failed without a more specific reason.
pub const ERR_EXTRACTION_FAILED: i32 = -4;

/// Reading a file, a stream or the network failed.
pub const ERR_IO_ERROR: i32 = -5;

/// A configuration value was not acceptable.
pub const ERR_INVALID_CONFIG: i32 = -6;

/// An integer selector named no member of its enumeration.
pub const ERR_INVALID_ENUM: i32 = -7;

/// The engine does not know the document's format.
pub const ERR_UNSUPPORTED_FORMAT: i32 = -8;

/// Memory ran out.
pub const ERR_OUT_OF_MEMORY: i32 = -9;

/// Character recognition failed.
pub const ERR_OCR_FAILED: i32 = -10;

/// The one-line message of a code. Every code outside the set shares the
/// last message.
pub open spec fn message_text(code: int) -> Seq<char> {
    if code == ERR_OK {
        "Operation completed successfully"@
    } else if code == ERR_NULL_POINTER {
        "Null pointer provided as argument"@
    } else if code == ERR_INVALID_UTF8 {
        "Invalid UTF-8 string encoding"@
    } else if code == ERR_INVALID_STRING {
        "String conversion or allocation failed"@
    } else if code == ERR_EXTRACTION_FAILED {
        "Document extraction failed"@
    } else if code == ERR_IO_ERROR {
        "File system or network I/O error"@
    } else if code == ERR_INVALID_CONFIG {
        "Invalid configuration value"@
    } else if code == ERR_INVALID_ENUM {
        "Invalid enumeration value"@
    } else if code == ERR_UNSUPPORTED_FORMAT {
        "Unsupported file format"@
    } else if code == ERR_OUT_OF_MEMORY {
        "Memory allocation failed"@
    } else if code == ERR_OCR_FAILED {
        "OCR operation failed"@
    } else {
        "Unknown error code"@
    }
}

/// The category tag of a code, for a caller that branches on the kind of
/// failure. Every code outside the set is `unknown`.
pub open spec fn category_text(code: int) -> Seq<char> {
    if code == ERR_OK {
        "success"@
    } else if code == ERR_NULL_POINTER || code == ERR_INVALID_UTF8 || code == ERR_INVALID_STRING
        || code == ERR_INVALID_CONFIG || code == ERR_INVALID_ENUM {
        "invalid_argument"@
    } else if code == ERR_IO_ERROR {
        "io_error"@
    } else if code == ERR_EXTRACTION_FAILED || code == ERR_UNSUPPORTED_FORMAT || code
        == ERR_OCR_FAILED {
        "extraction_error"@
    } else if code == ERR_OUT_OF_MEMORY {
        "resource_error"@
    } else {
        "unknown"@
    }
}

/// The message of a code as static text.
pub fn message_for(code: i32) -> (r: &'static str)
    ensures
        r@ == message_text(code as int),
{
    if code == ERR_OK {
        "Operation completed successfully"
    } else if code == ERR_NULL_POINTER {
        "Null pointer provided as argument"
    } else if code == ERR_INVALID_UTF8 {
        "Invalid UTF-8 string encoding"
    } else if code == ERR_INVALID_STRING {
        "String conversion or allocation failed"
    } else if code == ERR_EXTRACTION_FAILED {
        "Document extraction failed"
    } else if code == ERR_IO_ERROR {
        "File system or network I/O error"
    } else if code == ERR_INVALID_CONFIG {
        "Invalid configuration value"
    } else if code == ERR_INVALID_ENUM {
        "Invalid enumeration value"
    } else if code == ERR_UNSUPPORTED_FORMAT {
        "Unsupported file format"
    } else if code == ERR_OUT_OF_MEMORY {
        "Memory allocation failed"
    } else if code == ERR_OCR_FAILED {
        "OCR operation failed"
    } else {
        "Unknown error code"
    }
}

/// No message holds a zero byte, so each has its C string.
pub proof fn lemma_message_has_no_nul(code: int)
    ensures
        !has_nul(encode_utf8(message_text(code))),
{
    reveal_strlit("Operation completed successfully");
    reveal_strlit("Null pointer provided as argument");
    reveal_strlit("Invalid UTF-8 string encoding");
    reveal_strlit("String conversion or allocation failed");
    reveal_strlit("Document extraction failed");
    reveal_strlit("File system or network I/O error");
    reveal_strlit("Invalid configuration value");
    reveal_strlit("Invalid enumeration value");
    reveal_strlit("Unsupported file format");
    reveal_strlit("Memory allocation failed");
    reveal_strlit("OCR operation failed");
    reveal_strlit("Unknown error code");
    let text = message_text(code);
    is_ascii_chars_encode_utf8(text);
}

/// The message of a code as a freshly built C string that the caller owns.
/// There is one for every integer: a code outside the set gets the message
/// for unknown codes.
pub fn extractous_error_message(code: i32) -> (r: Vec<u8>)
    ensures
        r@ == c_string(encode_utf8(message_text(code as int))),
        is_c_string(r@),
{
    let mut out: Vec<u8> = Vec::new();
    append_bytes(&mut out, message_for(code).as_bytes());
    out.push(0);
    proof {
        lemma_message_has_no_nul(code as int);
        lemma_c_string_well_formed(encode_utf8(message_text(code as int)));
    }
    out
}

/// The category tag of a code. The text is static: nothing is allocated
/// and nothing is to be released.
pub fn extractous_error_category(code: i32) -> (r: &'static str)
    ensures
        r@ == category_text(code as int),
{
    if code == ERR_OK {
        "success"
    } else if code == ERR_NULL_POINTER || code == ERR_INVALID_UTF8 || code == ERR_INVALID_STRING
        || code == ERR_INVALID_CONFIG || code == ERR_INVALID_ENUM {
        "invalid_argument"
    } else if code == ERR_IO_ERROR {
        "io_error"
    } else if code == ERR_EXTRACTION_FAILED || code == ERR_UNSUPPORTED_FORMAT || code
        == ERR_OCR_FAILED {
        "extraction_error"
    } else if code == ERR_OUT_OF_MEMORY {
        "resource_error"
    } else {
        "unknown"
    }
}

/// What the engine's error value says of itself by its structure.
#[derive(Clone, Copy, Debug, PartialEq, Eq, Structural)]
pub enum EngineErrorKind {
    /// The engine reported an I/O failure.
    Io,
    /// The engine reported text in a wrong encoding.
    Encoding,
    /// The engine reported anything else, described by its message only.
    Other,
}

/// What one link of an error's cause chain is.
#[derive(Clone, Copy, Debug, PartialEq, Eq, Structural)]
pub enum CauseKind {
    /// The link is an I/O error of the operating system.
    Io,
    /// The link is any other error.
    Other,
}

/// What classification reads of an engine failure: its structural kind, its
/// rendered message and the kinds of the links of its cause chain, the
/// nearest cause first.
#[derive(Clone, Debug, PartialEq, Eq)]
pub struct ErrorSummary {
    pub kind: EngineErrorKind,
    pub message: String,
    pub causes: Vec<CauseKind>,
}

/// The lowercased message holds `pattern`.
pub open spec fn mentions(lowered: Seq<char>, pattern: Seq<char>) -> bool {
    contains_seq(encode_utf8(lowered), encode_utf8(pattern))
}

/// The code that the wording of a lowercased message selects, if any.
/// Recognition is looked for first, then an unknown format, then memory.
pub open spec fn code_for_message(lowered: Seq<char>) -> Option<int> {
    if mentions(lowered, "ocr"@) || mentions(lowered, "tesseract"@) {
        Some(ERR_OCR_FAILED as int)
    } else if mentions(lowered, "unsupported"@) || mentions(lowered, "unknown format"@) {
        Some(ERR_UNSUPPORTED_FORMAT as int)
    } else if mentions(lowered, "memory"@) || mentions(lowered, "allocation"@) {
        Some(ERR_OUT_OF_MEMORY as int)
    } else {
        None
    }
}

/// Some link of the cause chain is an I/O error.
pub open spec fn wraps_io(causes: Seq<CauseKind>) -> bool {
    exists|i: int| 0 <= i < causes.len() && causes[i] == CauseKind::Io
}

/// The code of an engine failure. The structural kind decides first, then
/// the wording of the lowercased message, then the cause chain; what is
/// left is a plain extraction failure.
pub open spec fn code_for_error(
    kind: EngineErrorKind,
    lowered: Seq<char>,
    causes: Seq<CauseKind>,
) -> int {
    match kind {
        EngineErrorKind::Io => ERR_IO_ERROR as int,
        EngineErrorKind::Encoding => ERR_INVALID_UTF8 as int,
        EngineErrorKind::Other => match code_for_message(lowered) {
            Some(code) => code,
            None => if wraps_io(causes) {
                ERR_IO_ERROR as int
            } else {
                ERR_EXTRACTION_FAILED as int
            },
        },
    }
}

/// Tells whether the lowercased message holds `pattern`.
pub fn message_mentions(lowered: &str, pattern: &str) -> (r: bool)
    ensures
        r == mentions(lowered@, pattern@),
{
    contains_bytes(lowered.as_bytes(), pattern.as_bytes())
}

/// The code that the wording of a lowercased message selects, if any.
pub fn classify_message(lowered: &str) -> (r: Option<i32>)
    ensures
        match r {
            Some(code) => code_for_message(lowered@) == Some(code as int),
            None => code_for_message(lowered@) is None,
        },
{
    if message_mentions(lowered, "ocr") || message_mentions(lowered, "tesseract") {
        Some(ERR_OCR_FAILED)
    } else if message_mentions(lowered, "unsupported") || message_mentions(
        lowered,
        "unknown format",
    ) {
        Some(ERR_UNSUPPORTED_FORMAT)
    } else if message_mentions(lowered, "memory") || message_mentions(lowered, "allocation") {
        Some(ERR_OUT_OF_MEMORY)
    } else {
        None
    }
}

/// Tells whether some link of the cause chain is an I/O error.
pub fn chain_wraps_io(causes: &Vec<CauseKind>) -> (r: bool)
    ensures
        r == wraps_io(causes@),
{
    let mut i: usize = 0;
    while i < causes.len()
        invariant
            i <= causes.len(),
            forall|k: int| 0 <= k < i ==> causes@[k] != CauseKind::Io,
        decreases causes.len() - i,
    {
        if causes[i] == CauseKind::Io {
            return true;
        }
        i = i + 1;
    }
    false
}

/// The code of an engine failure whose message is already lowercased.
pub fn classify_error(kind: EngineErrorKind, lowered: &str, causes: &Vec<CauseKind>) -> (code: i32)
    ensures
        code == code_for_error(kind, lowered@, causes@),
{
    match kind {
        EngineErrorKind::Io => ERR_IO_ERROR,
        EngineErrorKind::Encoding => ERR_INVALID_UTF8,
        EngineErrorKind::Other => match classify_message(lowered) {
            Some(code) => code,
            None => if chain_wraps_io(causes) {
                ERR_IO_ERROR
            } else {
                ERR_EXTRACTION_FAILED
            },
        },
    }
}

/// The code of an engine failure. The message is lowercased before its
/// wording is looked at.
pub fn extractous_error_to_code(err: &ErrorSummary) -> (code: i32)
    ensures
        code == code_for_error(err.kind, lowercase_of(err.message@), err.causes@),
{
    let lowered = lowercase(err.message.as_str());
    classify_error(err.kind, lowered.as_str(), &err.causes)
}

/// The order of classification: where the structural kind decides, neither
/// the message nor the cause chain is looked at; where the wording of the
/// message decides, the cause chain is not looked at; and only where
/// neither decides does the cause chain choose between an I/O failure and a
/// plain extraction failure.
pub proof fn lemma_classification_order(
    kind: EngineErrorKind,
    lowered: Seq<char>,
    causes: Seq<CauseKind>,
    other_text: Seq<char>,
    other_causes: Seq<CauseKind>,
)
    ensures
        kind != EngineErrorKind::Other ==> code_for_error(kind, lowered, causes) == code_for_error(
            kind,
            other_text,
            other_causes,
        ),
        code_for_message(lowered) is Some ==> code_for_error(kind, lowered, causes)
            == code_for_error(kind, lowered, other_causes),
        kind == EngineErrorKind::Other && code_for_message(lowered) is None ==> code_for_error(
            kind,
            lowered,
            causes,
        ) == (if wraps_io(causes) {
            ERR_IO_ERROR
        } else {
            ERR_EXTRACTION_FAILED
        }),
{
}

/// An engine failure never maps to success.
pub proof fn lemma_failure_code_is_negative(
    kind: EngineErrorKind,
    lowered: Seq<char>,
    causes: Seq<CauseKind>,
)
    ensures
        code_for_error(kind, lowered, causes) < 0,
        code_for_error(kind, lowered, causes) == ERR_IO_ERROR || code_for_error(
            kind,
            lowered,
            causes,
        ) == ERR_INVALID_UTF8 || code_for_error(kind, lowered, causes) == ERR_OCR_FAILED
            || code_for_error(kind, lowered, causes) == ERR_UNSUPPORTED_FORMAT || code_for_error(
            kind,
            lowered,
            causes,
        ) == ERR_OUT_OF_MEMORY || code_for_error(kind, lowered, causes) == ERR_EXTRACTION_FAILED,
{
}

/// The place where the last failure of one thread waits. It keeps the error
/// value as it is: nothing is rendered until the report is asked for.
pub struct ErrorSlot<E> {
    pub last: Option<E>,
}

impl<E> ErrorSlot<E> {
    /// An empty slot.
    pub fn new() -> (r: Self)
        ensures
            r.last is None,
    {
        ErrorSlot { last: None }
    }
}

/// Stores `err` as the last failure, in place of any earlier one.
pub fn set_last_error<E>(slot: &mut ErrorSlot<E>, err: E)
    ensures
        final(slot).last == Some(err),
{
    slot.last = Some(err);
}

/// Reports whether a failure waits in the slot: 1 if so, else 0. Nothing is
/// rendered and the slot is left as it is.
pub fn extractous_error_has_debug<E>(slot: &ErrorSlot<E>) -> (r: i32)
    ensures
        r == (if slot.last is Some { 1i32 } else { 0i32 }),
{
    match &slot.last {
        Some(_) => 1,
        None => 0,
    }
}

/// Discards the failure that waits in the slot, if any, without rendering it.
pub fn extractous_error_clear_last<E>(slot: &mut ErrorSlot<E>)
    ensures
        final(slot).last is None,
{
    slot.last = None;
}

/// The parts of a failure that its report shows: the message, the messages
/// of its causes from the nearest on, and its structural dump.
#[derive(Clone, Debug, PartialEq, Eq)]
pub struct ErrorDetail {
    pub message: String,
    pub causes: Vec<String>,
    pub debug: String,
}

/// The lines of the cause chain: each cause on a line of its own, indented,
/// behind its level, which counts from zero.
pub open spec fn cause_lines(causes: Seq<String>) -> Seq<u8>
    decreases causes.len(),
{
    if causes.len() == 0 {
        Seq::empty()
    } else {
        cause_lines(causes.drop_last()) + encode_utf8("\n    "@) + decimal_digits(
            (causes.len() - 1) as nat,
        ) + encode_utf8(": "@) + encode_utf8(causes.last()@)
    }
}

/// The heading of the cause chain, which stands only before a chain that
/// has links.
pub open spec fn cause_heading(causes: Seq<String>) -> Seq<u8> {
    if causes.len() > 0 {
        encode_utf8("\n\nCaused by:"@)
    } else {
        Seq::empty()
    }
}

/// The report of a failure: its message, its cause chain and its dump.
pub open spec fn debug_report(detail: ErrorDetail) -> Seq<u8> {
    encode_utf8("Error: "@) + encode_utf8(detail.message@) + cause_heading(detail.causes@)
        + cause_lines(detail.causes@) + encode_utf8("\n\nDebug Representation:\n"@) + encode_utf8(
        detail.debug@,
    )
}

/// Renders the report of a failure.
pub fn render_debug_report(detail: &ErrorDetail) -> (r: Vec<u8>)
    ensures
        r@ == debug_report(*detail),
{
    let mut out: Vec<u8> = Vec::new();
    append_bytes(&mut out, "Error: ".as_bytes());
    append_bytes(&mut out, detail.message.as_str().as_bytes());
    if detail.causes.len() > 0 {
        append_bytes(&mut out, "\n\nCaused by:".as_bytes());
    }
    let ghost head = out@;
    assert(head == encode_utf8("Error: "@) + encode_utf8(detail.message@) + cause_heading(
        detail.causes@,
    ));
    let mut level: usize = 0;
    while level < detail.causes.len()
        invariant
            level <= detail.causes.len(),
            out@ == head + cause_lines(detail.causes@.take(level as int)),
        decreases detail.causes.len() - level,
    {
        append_bytes(&mut out, "\n    ".as_bytes());
        append_decimal(&mut out, level);
        append_bytes(&mut out, ": ".as_bytes());
        append_bytes(&mut out, detail.causes[level].as_str().as_bytes());
        level = level + 1;
        assert(detail.causes@.take(level as int).drop_last() == detail.causes@.take(level - 1));
    }
    assert(detail.causes@.take(level as int) == detail.causes@);
    append_bytes(&mut out, "\n\nDebug Representation:\n".as_bytes());
    append_bytes(&mut out, detail.debug.as_str().as_bytes());
    out
}

/// Takes the last failure out of the slot and renders its report as a C
/// string that the caller owns. `describe` turns the stored error value
/// into the parts that the report shows; it is called only when a failure
/// waits. The slot is empty afterwards. There is no report where the slot
/// was empty, or where the report holds a zero byte.
pub fn extractous_error_get_last_debug<E, F: FnOnce(E) -> ErrorDetail>(
    slot: &mut ErrorSlot<E>,
    describe: F,
) -> (r: Option<Vec<u8>>)
    requires
        forall|e: E| call_requires(describe, (e,)),
    ensures
        final(slot).last is None,
        old(slot).last is None ==> r is None,
        old(slot).last matches Some(e) ==> exists|detail: ErrorDetail|
            call_ensures(describe, (e,), detail) && opt_bytes(r) == c_string_of(
                debug_report(detail),
            ),
{
    let taken = slot.last.take();
    match taken {
        Some(e) => {
            let detail = describe(e);
            let report = render_debug_report(&detail);
            to_c_string(report.as_slice())
        },
        None => None,
    }
}

} // verus!
