//! The records behind the boundary's handles, and its integer selectors.
//!
//! A caller on the other side of the boundary only ever holds a pointer to
//! one of these records and never sees a field.
use vstd::prelude::*;
use vstd::utf8::*;

use crate::text::{bytes_of_each, has_nul, is_c_string, join_bytes};

verus! {

/// Selects UTF-8 as the encoding of streamed text.
pub const CHARSET_UTF_8: i32 = 0;

/// Selects US-ASCII as the encoding of streamed text.
pub const CHARSET_US_ASCII: i32 = 1;

/// Selects big-endian UTF-16 as the encoding of streamed text.
pub const CHARSET_UTF_16BE: i32 = 3;

/// Selects extraction of the text layer only.
pub const PDF_OCR_STRATEGY_NO_OCR: i32 = 0;

/// Selects recognition only, ignoring the text layer.
pub const PDF_OCR_STRATEGY_OCR_ONLY: i32 = 1;

/// Selects recognition together with the text layer.
pub const PDF_OCR_STRATEGY_OCR_AND_TEXT_EXTRACTION: i32 = 2;

/// Leaves the choice to the engine, page by page.
pub const PDF_OCR_STRATEGY_AUTO: i32 = 3;

/// The byte that joins the values of one metadata key: a comma.
pub const VALUE_SEPARATOR: u8 = 44;

/// One key of the engine's metadata with its values in order.
#[derive(Clone, Debug, PartialEq, Eq)]
pub struct MetadataEntry {
    pub key: String,
    pub values: Vec<String>,
}

impl MetadataEntry {
    /// The key as it crosses the boundary, before the terminator.
    pub open spec fn key_bytes(self) -> Seq<u8> {
        encode_utf8(self.key@)
    }

    /// The values as they cross the boundary, before the terminator: joined
    /// by the separator.
    pub open spec fn value_bytes(self) -> Seq<u8> {
        join_bytes(bytes_of_each(self.values@), seq![VALUE_SEPARATOR])
    }

    /// Both the key and the joined values can be carried by a C string.
    pub open spec fn is_representable(self) -> bool {
        !has_nul(self.key_bytes()) && !has_nul(self.value_bytes())
    }
}

/// No key occurs twice among the entries, as in a map.
pub open spec fn has_distinct_keys(entries: Seq<MetadataEntry>) -> bool {
    forall|i: int, j: int|
        0 <= i < j < entries.len() ==> (#[trigger] entries[i]).key@ != (#[trigger] entries[j]).key@
}

/// Metadata as it crosses the boundary: two parallel arrays of C strings and
/// their common length. The empty set is two empty arrays and length zero.
#[derive(Clone, Debug, PartialEq, Eq)]
pub struct CMetadata {
    /// The keys, one C string each.
    pub keys: Vec<Vec<u8>>,
    /// The joined values of the key at the same index, one C string each.
    pub values: Vec<Vec<u8>>,
    /// The number of pairs.
    pub len: usize,
}

impl CMetadata {
    /// The arrays agree with the length and hold C strings only.
    pub open spec fn is_well_formed(self) -> bool {
        &&& self.keys@.len() == self.len
        &&& self.values@.len() == self.len
        &&& forall|i: int| 0 <= i < self.len ==> is_c_string(#[trigger] self.keys@[i]@)
        &&& forall|i: int| 0 <= i < self.len ==> is_c_string(#[trigger] self.values@[i]@)
    }

    /// No key occurs twice.
    pub open spec fn has_distinct_keys(self) -> bool {
        forall|i: int, j: int|
            0 <= i < j < self.keys@.len() ==> (#[trigger] self.keys@[i])@ != (
            #[trigger] self.keys@[j])@
    }
}

/// The sentinel for "no bound" on the length of extracted text.
pub const NO_LENGTH_LIMIT: i32 = -1;

/// How the engine treats the pages of a PDF document.
#[derive(Clone, Copy, Debug, PartialEq, Eq, Structural)]
pub enum PdfOcrStrategy {
    /// Take the text layer only.
    NoOcr,
    /// Recognise every page and ignore the text layer.
    OcrOnly,
    /// Recognise every page and take the text layer too.
    OcrAndTextExtraction,
    /// Let the engine decide page by page.
    Auto,
}

/// The encoding of text that the engine streams.
#[derive(Clone, Copy, Debug, PartialEq, Eq, Structural)]
pub enum CharSet {
    Utf8,
    UsAscii,
    Utf16Be,
}

/// The options of the PDF parser.
#[derive(Clone, Copy, Debug, PartialEq, Eq, Structural)]
pub struct CPdfParserConfig {
    pub ocr_strategy: PdfOcrStrategy,
    pub extract_inline_images: bool,
    pub extract_unique_inline_images_only: bool,
    pub extract_marked_content: bool,
    pub extract_annotation_text: bool,
}

/// The options of the parser for office documents.
#[derive(Clone, Copy, Debug, PartialEq, Eq, Structural)]
pub struct COfficeParserConfig {
    pub extract_macros: bool,
    pub include_deleted_content: bool,
    pub include_move_from_content: bool,
    pub include_shape_based_content: bool,
}

/// The options of character recognition.
#[derive(Clone, Debug, PartialEq, Eq)]
pub struct CTesseractOcrConfig {
    /// The language packs to use, as the recogniser names them.
    pub language: String,
    /// The resolution of the page images, in dots per inch.
    pub density: i32,
    /// The colour depth of the page images, in bits.
    pub depth: i32,
    pub enable_image_preprocessing: bool,
    /// The longest time that one recognition may take, in seconds.
    pub timeout_seconds: i32,
}

/// The settings of an extractor and the configurations attached to it. An
/// attached configuration belongs to the extractor and goes with it.
#[derive(Clone, Debug, PartialEq, Eq)]
pub struct CExtractor {
    /// The longest text that an extraction to a string returns, in
    /// characters, or `NO_LENGTH_LIMIT`.
    pub extract_string_max_length: i32,
    pub encoding: CharSet,
    /// Whether the engine returns structured markup in place of plain text.
    pub xml_output: bool,
    pub pdf_config: Option<CPdfParserConfig>,
    pub office_config: Option<COfficeParserConfig>,
    pub ocr_config: Option<CTesseractOcrConfig>,
}

/// Where a stream of extracted text stands. A stream that was released is
/// gone with its handle and has no state.
#[derive(Clone, Copy, Debug, PartialEq, Eq, Structural)]
pub enum StreamState {
    /// More bytes may come.
    Open,
    /// The end was reached: no read yields a byte any more.
    Exhausted,
}

/// The boundary's record of one stream of extracted text. There is one per
/// stream: the record cannot be copied.
#[derive(Debug, PartialEq, Eq, Structural)]
pub struct CStreamReader {
    pub state: StreamState,
}

} // verus!
