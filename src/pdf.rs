//! The PDFium document decoder, as the rest of the library sees it.

use pdfium_render::prelude::{
    PdfBitmap, PdfDocument, PdfPage, PdfPageRenderRotation, PdfRenderConfig, Pdfium, PdfiumError,
    Pixels,
};
use vstd::prelude::*;

verus! {

/// PDFium's library bindings, carried opaquely.
#[verifier::external_type_specification]
#[verifier::external_body]
pub struct ExPdfium(Pdfium);

/// A decoded PDF document, carried opaquely.
#[verifier::external_type_specification]
#[verifier::external_body]
pub struct ExPdfDocument<'a>(PdfDocument<'a>);

/// One loaded page of a document, carried opaquely.
#[verifier::external_type_specification]
#[verifier::external_body]
pub struct ExPdfPage<'a>(PdfPage<'a>);

/// A rendered bitmap, carried opaquely.
#[verifier::external_type_specification]
#[verifier::external_body]
pub struct ExPdfBitmap<'a>(PdfBitmap<'a>);

/// Rendering parameters, carried opaquely.
#[verifier::external_type_specification]
#[verifier::external_body]
pub struct ExPdfRenderConfig(PdfRenderConfig);

/// PDFium's error, mapped to the library's own errors where it arises.
#[verifier::external_type_specification]
#[verifier::external_body]
pub struct ExPdfiumError(PdfiumError);

/// The quarter-turn rotations PDFium can render with; a plain enum.
#[verifier::external_type_specification]
pub struct ExPdfPageRenderRotation(PdfPageRenderRotation);

/// Relies on `PdfRenderConfig::new`: default rendering parameters; nothing is
/// assumed of them.
pub assume_specification[ PdfRenderConfig::new ]() -> PdfRenderConfig;

/// Relies on `PdfRenderConfig::set_target_width`: asks for a bitmap of the given
/// pixel width, the height following the page's aspect ratio; nothing is assumed.
pub assume_specification[ PdfRenderConfig::set_target_width ](
    config: PdfRenderConfig,
    width: Pixels,
) -> PdfRenderConfig;

/// Relies on `PdfRenderConfig::rotate_if_landscape`: asks that landscape pages be
/// rendered turned by `rotation`; nothing is assumed.
pub assume_specification[ PdfRenderConfig::rotate_if_landscape ](
    config: PdfRenderConfig,
    rotation: PdfPageRenderRotation,
    do_rotate_constraints: bool,
) -> PdfRenderConfig;

/// Relies on `Pdfium::load_pdf_from_byte_vec`: decodes a PDF held in memory,
/// with no password; the document keeps the bytes.
#[verifier::external_body]
pub(crate) fn load_document<'a>(pdfium: &'a Pdfium, bytes: Vec<u8>) -> (r: Result<
    PdfDocument<'a>,
    PdfiumError,
>) {
    pdfium.load_pdf_from_byte_vec(bytes, None)
}

/// Relies on `PdfPages::len`: the number of pages of the document.
#[verifier::external_body]
pub(crate) fn document_page_count(doc: &PdfDocument<'_>) -> (r: u16) {
    doc.pages().len()
}

/// Relies on `PdfPages::get`: loads one page; an index at or past the page
/// count gives an error.
#[verifier::external_body]
pub(crate) fn load_page<'a>(doc: &PdfDocument<'a>, index: u16) -> (r: Result<
    PdfPage<'a>,
    PdfiumError,
>) {
    doc.pages().get(index)
}

/// Relies on `PdfPage::render_with_config`: renders the page into a new bitmap
/// sized and rotated as the configuration asks.
#[verifier::external_body]
pub(crate) fn render_bitmap<'p>(page: &'p PdfPage<'_>, config: &PdfRenderConfig) -> (r: Result<
    PdfBitmap<'p>,
    PdfiumError,
>) {
    page.render_with_config(config)
}

/// Relies on `PdfBitmap::as_rgba_bytes`: an owned copy of the bitmap's pixels
/// with the color channels normalized to RGBA order.
#[verifier::external_body]
pub(crate) fn bitmap_rgba(bitmap: &PdfBitmap<'_>) -> (r: Vec<u8>) {
    bitmap.as_rgba_bytes()
}

/// Relies on `PdfBitmap::width`: the bitmap's width in pixels.
#[verifier::external_body]
pub(crate) fn bitmap_width(bitmap: &PdfBitmap<'_>) -> (r: Pixels) {
    bitmap.width()
}

/// Relies on `PdfBitmap::height`: the bitmap's height in pixels.
#[verifier::external_body]
pub(crate) fn bitmap_height(bitmap: &PdfBitmap<'_>) -> (r: Pixels) {
    bitmap.height()
}

} // verus!
