//! The reading session: the one open document and the page pipeline run on it.

use crate::encode::{encode_page, fits_dimensions, jpeg_dimensions, page_uri_of};
use crate::error::ReaderError;
use crate::pdf::{document_page_count, load_document};
use crate::raster::{render_page_rgba, renderable_width, target_width, target_width_of};
use crate::theme::{apply_theme, themed_buffer, Theme};
use pdfium_render::prelude::{PdfDocument, Pdfium};
use vstd::prelude::*;

verus! {

/// The error that a page request meets before any rendering: no open
/// document, a page index outside `[0, page count)`, or a scale whose target
/// width cannot be rendered; `None` where the request may go ahead.
pub open spec fn request_error(page_count: Option<nat>, page_index: int, scale_permille: u32) -> Option<
    ReaderError,
> {
    match page_count {
        None => Some(ReaderError::NoActiveDocument),
        Some(n) => if page_index < 0 || page_index >= n {
            Some(ReaderError::PageOutOfRange)
        } else if !renderable_width(target_width_of(scale_permille)) {
            Some(ReaderError::ScaleOutOfRange)
        } else {
            None
        },
    }
}

/// What a page request on a session whose open document has `page_count`
/// pages may return: the request's own error where it has one; else a page
/// image, or a failure to load, render or encode the page. A page image is
/// the themed data URI of some rendered RGBA buffer.
pub open spec fn page_outcome(
    page_count: Option<nat>,
    page_index: int,
    scale_permille: u32,
    theme: Theme,
    r: Result<String, ReaderError>,
) -> bool {
    &&& request_error(page_count, page_index, scale_permille) matches Some(e) ==> r == Err::<
        String,
        ReaderError,
    >(e)
    &&& request_error(page_count, page_index, scale_permille) is None ==> (r is Ok || r == Err::<
        String,
        ReaderError,
    >(ReaderError::PageNotFound) || r == Err::<String, ReaderError>(ReaderError::Render) || r
        == Err::<String, ReaderError>(ReaderError::Encode))
    &&& r matches Ok(uri) ==> exists|pixels: Seq<u8>, width: u32, height: u32|
        fits_dimensions(pixels.len() as int, width, height) && uri@ == themed_page_uri_of(
            pixels,
            width,
            height,
            theme,
        )
}

/// The page count of the open document after an open attempt with `outcome`:
/// a success installs the new document, a failure keeps the previous state.
pub open spec fn after_open(prior: Option<nat>, outcome: Result<u16, ReaderError>) -> Option<nat> {
    match outcome {
        Ok(n) => Some(n as nat),
        Err(_) => prior,
    }
}

/// The data URI of the RGBA buffer `pixels` after theme `theme`.
pub open spec fn themed_page_uri_of(pixels: Seq<u8>, width: u32, height: u32, theme: Theme) -> Seq<
    char,
> {
    page_uri_of(themed_buffer(theme, pixels), width, height)
}

/// What finishing the RGBA buffer `pixels` with `theme` returns: a page image
/// exactly when the buffer fits its dimensions and JPEG can hold them, and
/// then the themed data URI of the buffer; otherwise an encoding failure.
pub open spec fn finished_page(
    pixels: Seq<u8>,
    width: u32,
    height: u32,
    theme: Theme,
    r: Result<String, ReaderError>,
) -> bool {
    &&& r is Ok <==> fits_dimensions(pixels.len() as int, width, height) && jpeg_dimensions(
        width,
        height,
    )
    &&& r matches Ok(uri) ==> uri@ == themed_page_uri_of(pixels, width, height, theme)
    &&& r is Err ==> r == Err::<String, ReaderError>(ReaderError::Encode)
}

/// Recolors a rendered RGBA buffer with `theme` and encodes it as a JPEG data URI.
pub fn finish_page(pixels: Vec<u8>, width: u32, height: u32, theme: Theme) -> (r: Result<
    String,
    ReaderError,
>)
    ensures
        finished_page(pixels@, width, height, theme, r),
{
    let mut pixels = pixels;
    apply_theme(&mut pixels, theme);
    encode_page(pixels.as_slice(), width, height)
}

struct OpenDocument<'a> {
    handle: PdfDocument<'a>,
    page_count: u16,
}

/// The single slot holding the document currently open for reading.
pub struct Session<'a> {
    current: Option<OpenDocument<'a>>,
}

impl<'a> Session<'a> {
    /// The page count of the open document, or `None` where none is open.
    pub closed spec fn open_page_count(&self) -> Option<nat> {
        match self.current {
            Some(d) => Some(d.page_count as nat),
            None => None,
        }
    }

    /// A session with no document open.
    pub fn new() -> (s: Session<'a>)
        ensures
            s.open_page_count() == None::<nat>,
    {
        Session { current: None }
    }

    /// The page count of the open document, or `None` where none is open.
    pub fn page_count(&self) -> (r: Option<u16>)
        ensures
            match r {
                Some(n) => self.open_page_count() == Some(n as nat),
                None => self.open_page_count() == None::<nat>,
            },
    {
        match &self.current {
            Some(d) => Some(d.page_count),
            None => None,
        }
    }

    /// Decodes the PDF in `bytes` and makes it the open document, releasing the
    /// previous one first; returns its page count. Where decoding fails the
    /// previous document stays open.
    pub fn open_pdf(&mut self, pdfium: &'a Pdfium, bytes: Vec<u8>) -> (r: Result<u16, ReaderError>)
        ensures
            final(self).open_page_count() == after_open(old(self).open_page_count(), r),
            r is Err ==> r == Err::<u16, ReaderError>(ReaderError::Decode),
    {
        match load_document(pdfium, bytes) {
            Ok(handle) => {
                let page_count = document_page_count(&handle);
                self.current = None;
                self.current = Some(OpenDocument { handle, page_count });
                Ok(page_count)
            },
            Err(_) => Err(ReaderError::Decode),
        }
    }

    /// Rasterizes page `page_index` of the open document at a scale given in
    /// thousandths, recolors it with `theme`, and returns it as a JPEG data URI.
    pub fn rasterize_page(&self, page_index: i32, scale_permille: u32, theme: Theme) -> (r: Result<
        String,
        ReaderError,
    >)
        ensures
            page_outcome(self.open_page_count(), page_index as int, scale_permille, theme, r),
    {
        let doc = match &self.current {
            Some(d) => d,
            None => return Err(ReaderError::NoActiveDocument),
        };
        if page_index < 0 || page_index >= doc.page_count as i32 {
            return Err(ReaderError::PageOutOfRange);
        }
        let width = match target_width(scale_permille) {
            Some(w) => w,
            None => return Err(ReaderError::ScaleOutOfRange),
        };
        let raster = match render_page_rgba(&doc.handle, page_index as u16, width, true) {
            Ok(raster) => raster,
            Err(e) => return Err(e),
        };
        let ghost pixels = raster.pixels@;
        let r = finish_page(raster.pixels, raster.width, raster.height, theme);
        assert(r matches Ok(uri) ==> fits_dimensions(pixels.len() as int, raster.width, raster.height)
            && uri@ == themed_page_uri_of(pixels, raster.width, raster.height, theme));
        r
    }
}

/// Finishing the same rendered buffer twice, with the same theme, gives the
/// same outcome: both fail alike, or both give the same page image.
pub proof fn lemma_same_buffer_same_page(
    pixels: Seq<u8>,
    width: u32,
    height: u32,
    theme: Theme,
    r1: Result<String, ReaderError>,
    r2: Result<String, ReaderError>,
)
    requires
        finished_page(pixels, width, height, theme, r1),
        finished_page(pixels, width, height, theme, r2),
    ensures
        r1 is Ok <==> r2 is Ok,
        r1 is Err ==> r1 == r2,
        r1 matches Ok(a) ==> r2 matches Ok(b) && a@ == b@,
{
}

/// Before any document is opened, a page request fails for want of one.
pub proof fn lemma_no_document_first(
    page_index: int,
    scale_permille: u32,
    theme: Theme,
    r: Result<String, ReaderError>,
)
    requires
        page_outcome(None, page_index, scale_permille, theme, r),
    ensures
        r == Err::<String, ReaderError>(ReaderError::NoActiveDocument),
{
}

/// A request for the page whose index equals the page count is out of range.
pub proof fn lemma_index_at_page_count(
    page_count: u16,
    scale_permille: u32,
    theme: Theme,
    r: Result<String, ReaderError>,
)
    requires
        page_outcome(Some(page_count as nat), page_count as int, scale_permille, theme, r),
    ensures
        r == Err::<String, ReaderError>(ReaderError::PageOutOfRange),
{
}

/// After document `a` and then document `b` are opened, whatever was open
/// before, requests go by `b`'s page count: an index at or past it is out of
/// range, even where `a` has such a page.
pub proof fn lemma_reopen_uses_latest(
    prior: Option<nat>,
    a: u16,
    b: u16,
    page_index: int,
    scale_permille: u32,
    theme: Theme,
    r: Result<String, ReaderError>,
)
    requires
        page_outcome(
            after_open(after_open(prior, Ok(a)), Ok(b)),
            page_index,
            scale_permille,
            theme,
            r,
        ),
    ensures
        after_open(after_open(prior, Ok(a)), Ok(b)) == Some(b as nat),
        page_index >= b ==> r == Err::<String, ReaderError>(ReaderError::PageOutOfRange),
        0 <= page_index < b ==> r != Err::<String, ReaderError>(ReaderError::PageOutOfRange),
{
}

} // verus!
