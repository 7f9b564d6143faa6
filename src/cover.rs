//! Cover thumbnails and page counts of documents being added to a library.

use crate::encode::{cover_text_of, encode_cover, fits_dimensions};
use crate::error::ReaderError;
use crate::pdf::{document_page_count, load_document};
use crate::raster::render_page_rgba;
use pdfium_render::prelude::Pdfium;
use vstd::prelude::*;

verus! {

/// Pixel width of cover thumbnails.
pub const COVER_WIDTH: i32 = 300;

/// What a library records of a newly added PDF.
pub struct PdfSummary {
    /// Base64 text of a JPEG thumbnail of the first page.
    pub cover: String,
    pub page_count: u16,
}

/// Decodes the PDF in `bytes`, independently of any reading session, and
/// returns its page count with a thumbnail of its first page,
/// `COVER_WIDTH` pixels wide and in the page's own orientation.
pub fn summarize_pdf(pdfium: &Pdfium, bytes: Vec<u8>) -> (r: Result<PdfSummary, ReaderError>)
    ensures
        r is Err ==> r == Err::<PdfSummary, ReaderError>(ReaderError::Decode) || r == Err::<
            PdfSummary,
            ReaderError,
        >(ReaderError::PageNotFound) || r == Err::<PdfSummary, ReaderError>(ReaderError::Render)
            || r == Err::<PdfSummary, ReaderError>(ReaderError::Encode),
        r matches Ok(s) ==> s.page_count > 0 && exists|pixels: Seq<u8>, width: u32, height: u32|
            fits_dimensions(pixels.len() as int, width, height) && s.cover@ == cover_text_of(
                pixels,
                width,
                height,
            ),
{
    let doc = match load_document(pdfium, bytes) {
        Ok(d) => d,
        Err(_) => return Err(ReaderError::Decode),
    };
    let page_count = document_page_count(&doc);
    if page_count == 0 {
        return Err(ReaderError::PageNotFound);
    }
    let raster = render_page_rgba(&doc, 0, COVER_WIDTH, false)?;
    let cover = encode_cover(raster.pixels.as_slice(), raster.width, raster.height)?;
    Ok(PdfSummary { cover, page_count })
}

} // verus!
