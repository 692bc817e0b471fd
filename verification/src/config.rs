//! The three configuration handles: the PDF parser, the parser for office
//! documents and character recognition.
//!
//! Every setter changes the record behind the handle in place and returns
//! nothing. A null handle, a selector outside its enumeration and text that
//! is not valid UTF-8 leave everything as it was.
use vstd::prelude::*;
use vstd::string::*;
use vstd::utf8::*;

use crate::text::utf8_text;
use crate::types::{
    COfficeParserConfig, CPdfParserConfig, CTesseractOcrConfig, PdfOcrStrategy,
    PDF_OCR_STRATEGY_AUTO, PDF_OCR_STRATEGY_NO_OCR, PDF_OCR_STRATEGY_OCR_AND_TEXT_EXTRACTION,
    PDF_OCR_STRATEGY_OCR_ONLY,
};

verus! {

/// The strategy that an integer selector names, if it names one.
pub open spec fn strategy_of(selector: int) -> Option<PdfOcrStrategy> {
    if selector == PDF_OCR_STRATEGY_NO_OCR {
        Some(PdfOcrStrategy::NoOcr)
    } else if selector == PDF_OCR_STRATEGY_OCR_ONLY {
        Some(PdfOcrStrategy::OcrOnly)
    } else if selector == PDF_OCR_STRATEGY_OCR_AND_TEXT_EXTRACTION {
        Some(PdfOcrStrategy::OcrAndTextExtraction)
    } else if selector == PDF_OCR_STRATEGY_AUTO {
        Some(PdfOcrStrategy::Auto)
    } else {
        None
    }
}

/// The integer selector of a strategy.
pub open spec fn selector_of(strategy: PdfOcrStrategy) -> int {
    match strategy {
        PdfOcrStrategy::NoOcr => PDF_OCR_STRATEGY_NO_OCR as int,
        PdfOcrStrategy::OcrOnly => PDF_OCR_STRATEGY_OCR_ONLY as int,
        PdfOcrStrategy::OcrAndTextExtraction => PDF_OCR_STRATEGY_OCR_AND_TEXT_EXTRACTION as int,
        PdfOcrStrategy::Auto => PDF_OCR_STRATEGY_AUTO as int,
    }
}

/// The PDF options that a new handle starts with.
pub open spec fn default_pdf_config() -> CPdfParserConfig {
    CPdfParserConfig {
        ocr_strategy: PdfOcrStrategy::Auto,
        extract_inline_images: false,
        extract_unique_inline_images_only: false,
        extract_marked_content: false,
        extract_annotation_text: true,
    }
}

/// The office options that a new handle starts with.
pub open spec fn default_office_config() -> COfficeParserConfig {
    COfficeParserConfig {
        extract_macros: false,
        include_deleted_content: false,
        include_move_from_content: false,
        include_shape_based_content: true,
    }
}

/// `config` holds the recognition options that a new handle starts with.
pub open spec fn is_default_ocr_config(config: CTesseractOcrConfig) -> bool {
    &&& config.language@ == "eng"@
    &&& config.density == 300
    &&& config.depth == 4
    &&& !config.enable_image_preprocessing
    &&& config.timeout_seconds == 130
}

/// `after` is `before` but for its language.
pub open spec fn same_but_language(after: CTesseractOcrConfig, before: CTesseractOcrConfig) -> bool {
    &&& after.density == before.density
    &&& after.depth == before.depth
    &&& after.enable_image_preprocessing == before.enable_image_preprocessing
    &&& after.timeout_seconds == before.timeout_seconds
}

/// The strategy that an integer selector names, if it names one.
pub fn strategy_from_selector(selector: i32) -> (r: Option<PdfOcrStrategy>)
    ensures
        r == strategy_of(selector as int),
{
    if selector == PDF_OCR_STRATEGY_NO_OCR {
        Some(PdfOcrStrategy::NoOcr)
    } else if selector == PDF_OCR_STRATEGY_OCR_ONLY {
        Some(PdfOcrStrategy::OcrOnly)
    } else if selector == PDF_OCR_STRATEGY_OCR_AND_TEXT_EXTRACTION {
        Some(PdfOcrStrategy::OcrAndTextExtraction)
    } else if selector == PDF_OCR_STRATEGY_AUTO {
        Some(PdfOcrStrategy::Auto)
    } else {
        None
    }
}

/// A selector names a strategy exactly when it is the selector of one, and
/// then it names that one.
pub proof fn lemma_strategy_selector_round_trip(strategy: PdfOcrStrategy, selector: int)
    ensures
        strategy_of(selector_of(strategy)) == Some(strategy),
        strategy_of(selector) == Some(strategy) <==> selector == selector_of(strategy),
{
}

/// A new PDF configuration with the default options. It is released with
/// `extractous_pdf_config_free` unless it is attached to an extractor.
pub fn extractous_pdf_config_new() -> (r: Box<CPdfParserConfig>)
    ensures
        *r == default_pdf_config(),
{
    Box::new(
        CPdfParserConfig {
            ocr_strategy: PdfOcrStrategy::Auto,
            extract_inline_images: false,
            extract_unique_inline_images_only: false,
            extract_marked_content: false,
            extract_annotation_text: true,
        },
    )
}

/// Releases a PDF configuration that was never attached. Nothing happens
/// for the null handle.
pub fn extractous_pdf_config_free(handle: Option<Box<CPdfParserConfig>>) {
}

/// Sets the strategy that `strategy` selects. A selector that names none
/// changes nothing.
pub fn extractous_pdf_config_set_ocr_strategy(handle: Option<&mut CPdfParserConfig>, strategy: i32)
    ensures
        match handle {
            Some(h) => *final(h) == (match strategy_of(strategy as int) {
                Some(s) => (CPdfParserConfig { ocr_strategy: s, ..*h }),
                None => *h,
            }),
            None => true,
        },
{
    match handle {
        Some(h) => {
            match strategy_from_selector(strategy) {
                Some(s) => {
                    h.ocr_strategy = s;
                },
                None => {},
            }
        },
        None => {},
    }
}

/// Sets whether inline images are extracted.
pub fn extractous_pdf_config_set_extract_inline_images(
    handle: Option<&mut CPdfParserConfig>,
    value: bool,
)
    ensures
        match handle {
            Some(h) => *final(h) == (CPdfParserConfig { extract_inline_images: value, ..*h }),
            None => true,
        },
{
    match handle {
        Some(h) => {
            h.extract_inline_images = value;
        },
        None => {},
    }
}

/// Sets whether an inline image that occurs several times is extracted
/// once only.
pub fn extractous_pdf_config_set_extract_unique_inline_images_only(
    handle: Option<&mut CPdfParserConfig>,
    value: bool,
)
    ensures
        match handle {
            Some(h) => *final(h) == (CPdfParserConfig {
                extract_unique_inline_images_only: value,
                ..*h
            }),
            None => true,
        },
{
    match handle {
        Some(h) => {
            h.extract_unique_inline_images_only = value;
        },
        None => {},
    }
}

/// Sets whether the text of marked content sections is extracted.
pub fn extractous_pdf_config_set_extract_marked_content(
    handle: Option<&mut CPdfParserConfig>,
    value: bool,
)
    ensures
        match handle {
            Some(h) => *final(h) == (CPdfParserConfig { extract_marked_content: value, ..*h }),
            None => true,
        },
{
    match handle {
        Some(h) => {
            h.extract_marked_content = value;
        },
        None => {},
    }
}

/// Sets whether the text of annotations is extracted.
pub fn extractous_pdf_config_set_extract_annotation_text(
    handle: Option<&mut CPdfParserConfig>,
    value: bool,
)
    ensures
        match handle {
            Some(h) => *final(h) == (CPdfParserConfig { extract_annotation_text: value, ..*h }),
            None => true,
        },
{
    match handle {
        Some(h) => {
            h.extract_annotation_text = value;
        },
        None => {},
    }
}

/// A new office configuration with the default options.
pub fn extractous_office_config_new() -> (r: Box<COfficeParserConfig>)
    ensures
        *r == default_office_config(),
{
    Box::new(
        COfficeParserConfig {
            extract_macros: false,
            include_deleted_content: false,
            include_move_from_content: false,
            include_shape_based_content: true,
        },
    )
}

/// Releases an office configuration that was never attached. Nothing
/// happens for the null handle.
pub fn extractous_office_config_free(handle: Option<Box<COfficeParserConfig>>) {
}

/// Sets whether macros are extracted.
pub fn extractous_office_config_set_extract_macros(
    handle: Option<&mut COfficeParserConfig>,
    value: bool,
)
    ensures
        match handle {
            Some(h) => *final(h) == (COfficeParserConfig { extract_macros: value, ..*h }),
            None => true,
        },
{
    match handle {
        Some(h) => {
            h.extract_macros = value;
        },
        None => {},
    }
}

/// Sets whether content that change tracking marks as deleted is included.
pub fn extractous_office_config_set_include_deleted_content(
    handle: Option<&mut COfficeParserConfig>,
    value: bool,
)
    ensures
        match handle {
            Some(h) => *final(h) == (COfficeParserConfig { include_deleted_content: value, ..*h }),
            None => true,
        },
{
    match handle {
        Some(h) => {
            h.include_deleted_content = value;
        },
        None => {},
    }
}

/// Sets whether content that change tracking marks as moved away is
/// included at its old place.
pub fn extractous_office_config_set_include_move_from_content(
    handle: Option<&mut COfficeParserConfig>,
    value: bool,
)
    ensures
        match handle {
            Some(h) => *final(h) == (COfficeParserConfig {
                include_move_from_content: value,
                ..*h
            }),
            None => true,
        },
{
    match handle {
        Some(h) => {
            h.include_move_from_content = value;
        },
        None => {},
    }
}

/// Sets whether text inside drawing shapes is included.
pub fn extractous_office_config_set_include_shape_based_content(
    handle: Option<&mut COfficeParserConfig>,
    value: bool,
)
    ensures
        match handle {
            Some(h) => *final(h) == (COfficeParserConfig {
                include_shape_based_content: value,
                ..*h
            }),
            None => true,
        },
{
    match handle {
        Some(h) => {
            h.include_shape_based_content = value;
        },
        None => {},
    }
}

/// A new recognition configuration with the default options.
pub fn extractous_ocr_config_new() -> (r: Box<CTesseractOcrConfig>)
    ensures
        is_default_ocr_config(*r),
{
    Box::new(
        CTesseractOcrConfig {
            language: "eng".to_owned(),
            density: 300,
            depth: 4,
            enable_image_preprocessing: false,
            timeout_seconds: 130,
        },
    )
}

/// Releases a recognition configuration that was never attached. Nothing
/// happens for the null handle.
pub fn extractous_ocr_config_free(handle: Option<Box<CTesseractOcrConfig>>) {
}

/// Sets the language to the text that `language` holds, which is the bytes
/// of a C string without its terminator. A null pointer and bytes that are
/// not valid UTF-8 change nothing.
pub fn extractous_ocr_config_set_language(
    handle: Option<&mut CTesseractOcrConfig>,
    language: Option<&[u8]>,
)
    ensures
        match handle {
            Some(h) => {
                &&& same_but_language(*final(h), *h)
                &&& match language {
                    Some(bytes) => if valid_utf8(bytes@) {
                        encode_utf8(final(h).language@) == bytes@
                    } else {
                        final(h).language@ == h.language@
                    },
                    None => final(h).language@ == h.language@,
                }
            },
            None => true,
        },
{
    match handle {
        Some(h) => {
            match language {
                Some(bytes) => {
                    match utf8_text(bytes) {
                        Some(text) => {
                            h.language = text.to_owned();
                        },
                        None => {},
                    }
                },
                None => {},
            }
        },
        None => {},
    }
}

/// Sets the resolution of the page images, in dots per inch.
pub fn extractous_ocr_config_set_density(handle: Option<&mut CTesseractOcrConfig>, density: i32)
    ensures
        match handle {
            Some(h) => {
                &&& final(h).density == density
                &&& final(h).language@ == h.language@
                &&& final(h).depth == h.depth
                &&& final(h).enable_image_preprocessing == h.enable_image_preprocessing
                &&& final(h).timeout_seconds == h.timeout_seconds
            },
            None => true,
        },
{
    match handle {
        Some(h) => {
            h.density = density;
        },
        None => {},
    }
}

/// Sets the colour depth of the page images, in bits.
pub fn extractous_ocr_config_set_depth(handle: Option<&mut CTesseractOcrConfig>, depth: i32)
    ensures
        match handle {
            Some(h) => {
                &&& final(h).depth == depth
                &&& final(h).language@ == h.language@
                &&& final(h).density == h.density
                &&& final(h).enable_image_preprocessing == h.enable_image_preprocessing
                &&& final(h).timeout_seconds == h.timeout_seconds
            },
            None => true,
        },
{
    match handle {
        Some(h) => {
            h.depth = depth;
        },
        None => {},
    }
}

/// Sets whether page images are preprocessed before recognition.
pub fn extractous_ocr_config_set_enable_image_preprocessing(
    handle: Option<&mut CTesseractOcrConfig>,
    value: bool,
)
    ensures
        match handle {
            Some(h) => {
                &&& final(h).enable_image_preprocessing == value
                &&& final(h).language@ == h.language@
                &&& final(h).density == h.density
                &&& final(h).depth == h.depth
                &&& final(h).timeout_seconds == h.timeout_seconds
            },
            None => true,
        },
{
    match handle {
        Some(h) => {
            h.enable_image_preprocessing = value;
        },
        None => {},
    }
}

/// Sets the longest time that one recognition may take, in seconds.
pub fn extractous_ocr_config_set_timeout_seconds(
    handle: Option<&mut CTesseractOcrConfig>,
    seconds: i32,
)
    ensures
        match handle {
            Some(h) => {
                &&& final(h).timeout_seconds == seconds
                &&& final(h).language@ == h.language@
                &&& final(h).density == h.density
                &&& final(h).depth == h.depth
                &&& final(h).enable_image_preprocessing == h.enable_image_preprocessing
            },
            None => true,
        },
{
    match handle {
        Some(h) => {
            h.timeout_seconds = seconds;
        },
        None => {},
    }
}

} // verus!
