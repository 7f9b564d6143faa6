//! Compression of RGBA page buffers into JPEG data URIs.

use crate::error::ReaderError;
use base64::engine::general_purpose::STANDARD;
use base64::Engine;
use image::codecs::jpeg::JpegEncoder;
use image::{ExtendedColorType, ImageError};
use vstd::prelude::*;

verus! {

/// Compression quality of page images, out of 100.
pub const JPEG_QUALITY: u8 = 90;

/// Compression quality of cover thumbnails, out of 100.
pub const COVER_JPEG_QUALITY: u8 = 75;

/// image's error type, mapped to `ReaderError::Encode` where it arises.
#[verifier::external_type_specification]
#[verifier::external_body]
pub struct ExImageError(ImageError);

/// The baseline JPEG stream that image's encoder writes for a packed RGB
/// buffer of the given dimensions at the given quality.
pub uninterp spec fn jpeg_of(rgb: Seq<u8>, width: u32, height: u32, quality: u8) -> Seq<u8>;

/// The standard, padded base64 text of `bytes`.
pub uninterp spec fn base64_of(bytes: Seq<u8>) -> Seq<char>;

/// The header that makes base64 text of a JPEG stream usable as an image source.
pub open spec fn data_uri_prefix() -> Seq<char> {
    "data:image/jpeg;base64,"@
}

/// The data URI that carries base64 text `b64`.
pub open spec fn data_uri_of(b64: Seq<char>) -> Seq<char> {
    data_uri_prefix() + b64
}

/// The packed RGB buffer of the whole pixels of an RGBA buffer: alpha dropped.
pub open spec fn rgb_of(rgba: Seq<u8>) -> Seq<u8> {
    Seq::new((rgba.len() / 4 * 3) as nat, |i: int| rgba[(i / 3) * 4 + i % 3])
}

/// Whether `len` is the byte length of an RGBA buffer of `width` by `height`.
pub open spec fn fits_dimensions(len: int, width: u32, height: u32) -> bool {
    len == width * height * 4
}

/// Whether the JPEG format can hold an image of these dimensions.
pub open spec fn jpeg_dimensions(width: u32, height: u32) -> bool {
    1 <= width <= 65535 && 1 <= height <= 65535
}

/// The data URI of the page image held in the RGBA buffer `rgba`.
pub open spec fn page_uri_of(rgba: Seq<u8>, width: u32, height: u32) -> Seq<char> {
    data_uri_of(base64_of(jpeg_of(rgb_of(rgba), width, height, JPEG_QUALITY)))
}

/// The base64 text of the cover thumbnail held in the RGBA buffer `rgba`.
pub open spec fn cover_text_of(rgba: Seq<u8>, width: u32, height: u32) -> Seq<char> {
    base64_of(jpeg_of(rgb_of(rgba), width, height, COVER_JPEG_QUALITY))
}

/// Relies on image's `JpegEncoder::encode` (with `new_with_quality`) on an
/// `Rgb8` buffer: it writes the JPEG stream into a vector, and returns an error
/// exactly when a dimension is zero or above 65535; every other error would
/// come from writing, which into a vector cannot fail.
#[verifier::external_body]
fn encode_rgb_jpeg(rgb: &[u8], width: u32, height: u32, quality: u8) -> (r: Result<
    Vec<u8>,
    ImageError,
>)
    requires
        rgb@.len() == width * height * 3,
    ensures
        r matches Ok(bytes) ==> bytes@ == jpeg_of(rgb@, width, height, quality),
        r is Ok <==> jpeg_dimensions(width, height),
{
    let mut out: Vec<u8> = Vec::new();
    let res = JpegEncoder::new_with_quality(&mut out, quality).encode(
        rgb,
        width,
        height,
        ExtendedColorType::Rgb8,
    );
    res.map(|()| out)
}

/// Relies on base64's `STANDARD.encode`: the padded standard base64 text of the bytes.
#[verifier::external_body]
fn base64_encode(bytes: &[u8]) -> (r: String)
    ensures
        r@ == base64_of(bytes@),
{
    STANDARD.encode(bytes)
}

/// Drops the alpha byte of every whole pixel of an RGBA buffer.
pub fn drop_alpha(rgba: &[u8]) -> (rgb: Vec<u8>)
    ensures
        rgb@ == rgb_of(rgba@),
{
    let len = rgba.len();
    let n = len / 4;
    let mut rgb: Vec<u8> = Vec::new();
    let mut k: usize = 0;
    while k < n
        invariant
            len == rgba@.len(),
            n == len / 4,
            k <= n,
            rgb@.len() == k * 3,
            forall|i: int| 0 <= i < k * 3 ==> #[trigger] rgb@[i] == rgba@[(i / 3) * 4 + i % 3],
        decreases n - k,
    {
        assert(k * 4 + 3 < len) by (nonlinear_arith)
            requires
                k < n,
                n == len / 4,
        ;
        let base = k * 4;
        rgb.push(rgba[base]);
        rgb.push(rgba[base + 1]);
        rgb.push(rgba[base + 2]);
        proof {
            assert forall|i: int| 0 <= i < (k + 1) * 3 implies #[trigger] rgb@[i] == rgba@[(i / 3)
                * 4 + i % 3] by {
                if i >= k * 3 {
                    assert(i / 3 == k);
                }
            }
        }
        k = k + 1;
    }
    assert(rgb@ =~= rgb_of(rgba@));
    rgb
}

/// The JPEG data URI that carries the base64 text `b64`.
pub fn jpeg_data_uri(b64: &str) -> (r: String)
    ensures
        r@ == data_uri_of(b64@),
{
    let mut out = "data:image/jpeg;base64,".to_owned();
    proof {
        reveal_strlit("data:image/jpeg;base64,");
    }
    out.append(b64);
    out
}

/// The standard base64 text of `bytes`.
pub fn base64_text(bytes: &[u8]) -> (r: String)
    ensures
        r@ == base64_of(bytes@),
{
    base64_encode(bytes)
}

/// Compresses a `width` by `height` RGBA buffer to JPEG at `quality`, alpha dropped.
pub fn encode_jpeg(rgba: &[u8], width: u32, height: u32, quality: u8) -> (r: Result<
    Vec<u8>,
    ReaderError,
>)
    ensures
        !fits_dimensions(rgba@.len() as int, width, height) ==> r == Err::<Vec<u8>, ReaderError>(
            ReaderError::Encode,
        ),
        !jpeg_dimensions(width, height) ==> r == Err::<Vec<u8>, ReaderError>(ReaderError::Encode),
        r matches Ok(jpeg) ==> jpeg@ == jpeg_of(rgb_of(rgba@), width, height, quality),
        r is Ok <==> fits_dimensions(rgba@.len() as int, width, height) && jpeg_dimensions(
            width,
            height,
        ),
        r is Err ==> r == Err::<Vec<u8>, ReaderError>(ReaderError::Encode),
{
    assert(width as u128 * height as u128 <= 0xffff_ffff_ffff_ffffu128) by (nonlinear_arith)
        requires
            width <= 0xffff_ffffu32,
            height <= 0xffff_ffffu32,
    ;
    let expected = width as u128 * height as u128 * 4;
    if rgba.len() as u128 != expected {
        return Err(ReaderError::Encode);
    }
    let rgb = drop_alpha(rgba);
    assert(rgb@.len() == width * height * 3);
    match encode_rgb_jpeg(rgb.as_slice(), width, height, quality) {
        Ok(jpeg) => Ok(jpeg),
        Err(_) => Err(ReaderError::Encode),
    }
}

/// Compresses a `width` by `height` RGBA buffer to JPEG, alpha dropped, and
/// returns it as a data URI.
pub fn encode_page(rgba: &[u8], width: u32, height: u32) -> (r: Result<String, ReaderError>)
    ensures
        !fits_dimensions(rgba@.len() as int, width, height) ==> r == Err::<String, ReaderError>(
            ReaderError::Encode,
        ),
        !jpeg_dimensions(width, height) ==> r == Err::<String, ReaderError>(ReaderError::Encode),
        r matches Ok(uri) ==> uri@ == page_uri_of(rgba@, width, height),
        r is Ok <==> fits_dimensions(rgba@.len() as int, width, height) && jpeg_dimensions(
            width,
            height,
        ),
        r is Err ==> r == Err::<String, ReaderError>(ReaderError::Encode),
{
    let jpeg = encode_jpeg(rgba, width, height, JPEG_QUALITY)?;
    let b64 = base64_encode(jpeg.as_slice());
    Ok(jpeg_data_uri(b64.as_str()))
}

/// Compresses a `width` by `height` RGBA cover thumbnail to JPEG, alpha
/// dropped, and returns its base64 text.
pub fn encode_cover(rgba: &[u8], width: u32, height: u32) -> (r: Result<String, ReaderError>)
    ensures
        !fits_dimensions(rgba@.len() as int, width, height) ==> r == Err::<String, ReaderError>(
            ReaderError::Encode,
        ),
        !jpeg_dimensions(width, height) ==> r == Err::<String, ReaderError>(ReaderError::Encode),
        r matches Ok(text) ==> text@ == cover_text_of(rgba@, width, height),
        r is Ok <==> fits_dimensions(rgba@.len() as int, width, height) && jpeg_dimensions(
            width,
            height,
        ),
        r is Err ==> r == Err::<String, ReaderError>(ReaderError::Encode),
{
    let jpeg = encode_jpeg(rgba, width, height, COVER_JPEG_QUALITY)?;
    Ok(base64_encode(jpeg.as_slice()))
}

} // verus!
