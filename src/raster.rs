//! Page rasterization: render parameters and normalization of the result.

use crate::encode::fits_dimensions;
use crate::error::ReaderError;
use crate::pdf::{bitmap_height, bitmap_rgba, bitmap_width, load_page, render_bitmap};
use pdfium_render::prelude::{PdfDocument, PdfPageRenderRotation, PdfRenderConfig};
use vstd::prelude::*;

verus! {

/// Width of a page in points at scale one.
pub const BASE_PAGE_WIDTH: u64 = 595;

/// Target pixel width for a scale given in thousandths: the base width times
/// the scale, rounded half up.
pub open spec fn target_width_of(scale_permille: u32) -> int {
    (BASE_PAGE_WIDTH * scale_permille + 500) / 1000
}

/// Whether the decoder can be asked for a bitmap of this width.
pub open spec fn renderable_width(width: int) -> bool {
    1 <= width <= i32::MAX
}

/// The target pixel width for a scale given in thousandths, where it can be rendered.
pub fn target_width(scale_permille: u32) -> (r: Option<i32>)
    ensures
        match r {
            Some(w) => renderable_width(target_width_of(scale_permille)) && w == target_width_of(
                scale_permille,
            ),
            None => !renderable_width(target_width_of(scale_permille)),
        },
{
    let w = (BASE_PAGE_WIDTH * scale_permille as u64 + 500) / 1000;
    if 1 <= w && w <= i32::MAX as u64 {
        Some(w as i32)
    } else {
        None
    }
}

/// An owned RGBA pixel buffer, row-major.
pub struct Raster {
    pub pixels: Vec<u8>,
    pub width: u32,
    pub height: u32,
}

impl Raster {
    /// The buffer holds exactly `width * height` four-byte pixels.
    pub open spec fn wf(&self) -> bool {
        fits_dimensions(self.pixels@.len() as int, self.width, self.height)
    }
}

/// The raster that a decoder's `width` by `height` bitmap with RGBA bytes
/// `pixels` makes: both dimensions non-negative and exactly four bytes for
/// each pixel, else a render failure.
pub fn raster_from(pixels: Vec<u8>, width: i32, height: i32) -> (r: Result<Raster, ReaderError>)
    ensures
        r is Ok <==> (width >= 0 && height >= 0 && pixels@.len() == width * height * 4),
        r matches Ok(raster) ==> raster.pixels@ == pixels@ && raster.width == width
            && raster.height == height && raster.wf(),
        r is Err ==> r == Err::<Raster, ReaderError>(ReaderError::Render),
{
    if width < 0 || height < 0 {
        return Err(ReaderError::Render);
    }
    let w = width as u32;
    let h = height as u32;
    assert(w as u128 * h as u128 <= 0xffff_ffff_ffff_ffffu128) by (nonlinear_arith)
        requires
            w <= 0xffff_ffffu32,
            h <= 0xffff_ffffu32,
    ;
    if pixels.len() as u128 != w as u128 * h as u128 * 4 {
        return Err(ReaderError::Render);
    }
    Ok(Raster { pixels, width: w, height: h })
}

/// Renders page `page_index` of `doc` at `target_width` pixels wide, a
/// landscape page turned a quarter turn upright where `upright_landscape`
/// holds, and copies it out as an RGBA buffer that borrows nothing from the
/// document.
pub fn render_page_rgba(
    doc: &PdfDocument<'_>,
    page_index: u16,
    target_width: i32,
    upright_landscape: bool,
) -> (r: Result<
    Raster,
    ReaderError,
>)
    ensures
        r matches Ok(raster) ==> raster.wf(),
        r is Err ==> r == Err::<Raster, ReaderError>(ReaderError::PageNotFound) || r == Err::<
            Raster,
            ReaderError,
        >(ReaderError::Render),
{
    let page = match load_page(doc, page_index) {
        Ok(p) => p,
        Err(_) => return Err(ReaderError::PageNotFound),
    };
    let config = PdfRenderConfig::new().set_target_width(target_width);
    let config = if upright_landscape {
        config.rotate_if_landscape(PdfPageRenderRotation::Degrees90, true)
    } else {
        config
    };
    let bitmap = match render_bitmap(&page, &config) {
        Ok(b) => b,
        Err(_) => return Err(ReaderError::Render),
    };
    let width = bitmap_width(&bitmap);
    let height = bitmap_height(&bitmap);
    if height <= 0 {
        // The RGBA copy divides the buffer by the height.
        return Err(ReaderError::Render);
    }
    raster_from(bitmap_rgba(&bitmap), width, height)
}

} // verus!
