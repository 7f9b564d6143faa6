use treader::encode::{drop_alpha, encode_page, jpeg_data_uri};
use treader::error::ReaderError;
use treader::format::{document_format, format_for_extension, DocumentFormat};
use treader::raster::{raster_from, target_width};
use treader::session::{finish_page, Session};
use treader::text::same_text;
use treader::theme::Theme;

const PREFIX: &str = "data:image/jpeg;base64,";

fn checkerboard(width: u32, height: u32) -> Vec<u8> {
    let mut px = Vec::new();
    for y in 0..height {
        for x in 0..width {
            let v = if (x + y) % 2 == 0 { 230 } else { 20 };
            px.extend_from_slice(&[v, v / 2, 255 - v, 255]);
        }
    }
    px
}

#[test]
fn data_uri_prefixes_text() {
    assert_eq!(jpeg_data_uri("abc"), "data:image/jpeg;base64,abc");
    assert_eq!(jpeg_data_uri(""), PREFIX);
}

#[test]
fn alpha_is_dropped() {
    assert_eq!(drop_alpha(&[1, 2, 3, 4, 5, 6, 7, 8, 9]), vec![1, 2, 3, 5, 6, 7]);
    assert_eq!(drop_alpha(&[]), Vec::<u8>::new());
}

#[test]
fn encode_page_gives_jpeg_data_uri() {
    let uri = encode_page(&checkerboard(8, 8), 8, 8).unwrap();
    assert!(uri.starts_with(PREFIX));
    // A JPEG stream opens with FF D8 FF, "/9j/" in base64.
    assert!(uri[PREFIX.len()..].starts_with("/9j/"));
}

#[test]
fn encode_page_rejects_length_mismatch() {
    assert_eq!(encode_page(&[0u8; 15], 2, 2), Err(ReaderError::Encode));
    assert_eq!(encode_page(&[0u8; 20], 2, 2), Err(ReaderError::Encode));
}

#[test]
fn encode_page_rejects_empty_image() {
    assert_eq!(encode_page(&[], 0, 0), Err(ReaderError::Encode));
}

#[test]
fn encode_page_rejects_oversized_width() {
    let px = vec![0u8; 70_000 * 4];
    assert_eq!(encode_page(&px, 70_000, 1), Err(ReaderError::Encode));
}

#[test]
fn finish_page_is_deterministic() {
    let a = finish_page(checkerboard(16, 12), 16, 12, Theme::Sepia).unwrap();
    let b = finish_page(checkerboard(16, 12), 16, 12, Theme::Sepia).unwrap();
    assert_eq!(a, b);
}

#[test]
fn finish_page_applies_theme() {
    let day = finish_page(checkerboard(16, 16), 16, 16, Theme::Day).unwrap();
    let night = finish_page(checkerboard(16, 16), 16, 16, Theme::Night).unwrap();
    assert_ne!(day, night);
    let plain = encode_page(&checkerboard(16, 16), 16, 16).unwrap();
    assert_eq!(day, plain);
}

#[test]
fn finish_page_rejects_mismatch() {
    assert_eq!(finish_page(vec![1, 2, 3], 1, 1, Theme::Night), Err(ReaderError::Encode));
}

#[test]
fn target_width_rounds_base_width() {
    assert_eq!(target_width(1000), Some(595));
    assert_eq!(target_width(1500), Some(893));
    assert_eq!(target_width(2000), Some(1190));
    assert_eq!(target_width(1), Some(1));
}

#[test]
fn target_width_out_of_range() {
    assert_eq!(target_width(0), None);
    assert_eq!(target_width(u32::MAX), None);
}

#[test]
fn formats_by_extension() {
    assert_eq!(document_format("/books/A.PDF"), Ok(DocumentFormat::Pdf));
    assert_eq!(document_format("novel.Epub"), Ok(DocumentFormat::Epub));
    assert_eq!(document_format("notes.txt"), Err(ReaderError::UnsupportedFormat));
    assert_eq!(document_format("README"), Err(ReaderError::UnsupportedFormat));
    assert_eq!(document_format(".pdf"), Err(ReaderError::UnsupportedFormat));
    assert_eq!(format_for_extension("pdf"), Some(DocumentFormat::Pdf));
    assert_eq!(format_for_extension("PDF"), None);
}

#[test]
fn text_comparison() {
    assert!(same_text("night", "night"));
    assert!(!same_text("night", "nigh"));
    assert!(!same_text("sepia", "Sepia"));
    assert!(same_text("", ""));
}

#[test]
fn new_session_has_no_document() {
    let s = Session::new();
    assert_eq!(s.page_count(), None);
}

#[test]
fn rasterize_before_open_fails() {
    let s = Session::new();
    assert_eq!(s.rasterize_page(0, 1000, Theme::Night), Err(ReaderError::NoActiveDocument));
    assert_eq!(s.rasterize_page(-1, 0, Theme::Day), Err(ReaderError::NoActiveDocument));
}

#[test]
fn errors_describe_themselves() {
    assert_eq!(ReaderError::PageOutOfRange.describe(), "page index out of range");
    assert_eq!(ReaderError::NoActiveDocument.describe(), "no document is open");
}

#[test]
fn raster_from_accepts_exact_buffers() {
    let r = raster_from(vec![7u8; 2 * 3 * 4], 2, 3).unwrap();
    assert_eq!((r.width, r.height, r.pixels.len()), (2, 3, 24));
    let empty = raster_from(Vec::new(), 0, 5).unwrap();
    assert_eq!((empty.width, empty.height), (0, 5));
}

#[test]
fn raster_from_rejects_bad_bitmaps() {
    assert_eq!(raster_from(vec![0u8; 23], 2, 3).err(), Some(ReaderError::Render));
    assert_eq!(raster_from(vec![0u8; 25], 2, 3).err(), Some(ReaderError::Render));
    assert_eq!(raster_from(Vec::new(), -1, 0).err(), Some(ReaderError::Render));
    assert_eq!(raster_from(Vec::new(), 0, -1).err(), Some(ReaderError::Render));
}

#[test]
fn encode_succeeds_at_dimension_limits() {
    assert!(encode_page(&[1, 2, 3, 4], 1, 1).is_ok());
    let wide = vec![128u8; 65_535 * 4];
    assert!(encode_page(&wide, 65_535, 1).is_ok());
    assert!(finish_page(vec![9, 8, 7, 6], 1, 1, Theme::Twilight).is_ok());
}
