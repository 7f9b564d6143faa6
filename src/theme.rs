//! Reading themes: per-pixel color transforms over RGBA buffers.

use rayon::iter::ParallelIterator;
use rayon::slice::ParallelSliceMut;
use crate::text::same_text;
use vstd::prelude::*;

verus! {

/// A reading theme. `Day` leaves the page untouched.
#[derive(Clone, Copy, Debug, PartialEq, Eq, Structural)]
pub enum Theme {
    Day,
    Night,
    NightContrast,
    Sepia,
    SepiaContrast,
    Twilight,
}

/// The theme that a name selects; a name of no theme selects `Day`.
pub open spec fn theme_of_name(name: Seq<char>) -> Theme {
    if name == "night"@ {
        Theme::Night
    } else if name == "night_contrast"@ {
        Theme::NightContrast
    } else if name == "sepia"@ {
        Theme::Sepia
    } else if name == "sepia_contrast"@ {
        Theme::SepiaContrast
    } else if name == "twilight"@ {
        Theme::Twilight
    } else {
        Theme::Day
    }
}

impl Theme {
    /// The theme that `name` selects; any other name, `"day"` among them,
    /// selects `Day`, which leaves pages untouched.
    pub fn from_name(name: &str) -> (r: Theme)
        ensures
            r == theme_of_name(name@),
    {
        if same_text(name, "night") {
            Theme::Night
        } else if same_text(name, "night_contrast") {
            Theme::NightContrast
        } else if same_text(name, "sepia") {
            Theme::Sepia
        } else if same_text(name, "sepia_contrast") {
            Theme::SepiaContrast
        } else if same_text(name, "twilight") {
            Theme::Twilight
        } else {
            Theme::Day
        }
    }
}

/// Weighted brightness of a pixel, truncated.
pub open spec fn luminance(r: int, g: int, b: int) -> int {
    (299 * r + 587 * g + 114 * b) / 1000
}

/// The color channels that theme `t` gives the pixel `(r, g, b)`.
pub open spec fn theme_channels(t: Theme, r: int, g: int, b: int) -> (int, int, int) {
    match t {
        Theme::Day => (r, g, b),
        Theme::Night => (255 - r, 255 - g, 255 - b),
        Theme::NightContrast => if luminance(r, g, b) > 128 {
            (0, 0, 0)
        } else {
            (255, 255, 255)
        },
        Theme::Sepia => (r * 244 / 255, g * 236 / 255, b * 216 / 255),
        Theme::SepiaContrast => (r * 230 / 255, g * 210 / 255, b * 180 / 255),
        Theme::Twilight => ((255 - r) * 216 / 256, (255 - g) * 225 / 256, (255 - b) * 243 / 256),
    }
}

/// Byte `i` of buffer `s` after theme `t`: color channels of whole pixels are
/// recolored; alpha bytes and a trailing partial pixel are kept.
pub open spec fn themed_byte(t: Theme, s: Seq<u8>, i: int) -> int {
    let p = i - i % 4;
    if i % 4 == 3 || p + 4 > s.len() {
        s[i] as int
    } else {
        let c = theme_channels(t, s[p] as int, s[p + 1] as int, s[p + 2] as int);
        if i % 4 == 0 {
            c.0
        } else if i % 4 == 1 {
            c.1
        } else {
            c.2
        }
    }
}

/// The whole buffer `s` after theme `t`.
pub open spec fn themed_buffer(t: Theme, s: Seq<u8>) -> Seq<u8> {
    Seq::new(s.len(), |i: int| themed_byte(t, s, i) as u8)
}

pub open spec fn in_channel_range(x: int) -> bool {
    0 <= x <= 255
}

/// Every theme maps channels in `[0, 255]` to channels in `[0, 255]`.
pub proof fn lemma_channels_in_range(t: Theme, r: int, g: int, b: int)
    requires
        in_channel_range(r),
        in_channel_range(g),
        in_channel_range(b),
    ensures
        in_channel_range(theme_channels(t, r, g, b).0),
        in_channel_range(theme_channels(t, r, g, b).1),
        in_channel_range(theme_channels(t, r, g, b).2),
{
    match t {
        Theme::Sepia => {
            lemma_scaled_channel(r, 244, 255);
            lemma_scaled_channel(g, 236, 255);
            lemma_scaled_channel(b, 216, 255);
        },
        Theme::SepiaContrast => {
            lemma_scaled_channel(r, 230, 255);
            lemma_scaled_channel(g, 210, 255);
            lemma_scaled_channel(b, 180, 255);
        },
        Theme::Twilight => {
            lemma_scaled_channel(255 - r, 216, 256);
            lemma_scaled_channel(255 - g, 225, 256);
            lemma_scaled_channel(255 - b, 243, 256);
        },
        _ => {},
    }
}

proof fn lemma_scaled_channel(x: int, k: int, d: int)
    requires
        in_channel_range(x),
        0 <= k <= d,
        255 <= d,
    ensures
        in_channel_range(x * k / d),
{
    assert(0 <= x * k <= 255 * d) by (nonlinear_arith)
        requires
            0 <= x <= 255,
            0 <= k <= d,
    ;
    assert(0 <= x * k / d <= 255) by (nonlinear_arith)
        requires
            0 <= x * k <= 255 * d,
            255 <= d,
    ;
}

/// Every byte of a themed buffer is the value the theme formula gives.
pub proof fn lemma_themed_bytes_exact(t: Theme, s: Seq<u8>)
    ensures
        forall|i: int|
            0 <= i < s.len() ==> #[trigger] themed_buffer(t, s)[i] as int == themed_byte(t, s, i),
{
    assert forall|i: int| 0 <= i < s.len() implies #[trigger] themed_buffer(t, s)[i] as int
        == themed_byte(t, s, i) by {
        let p = i - i % 4;
        if !(i % 4 == 3 || p + 4 > s.len()) {
            lemma_channels_in_range(t, s[p] as int, s[p + 1] as int, s[p + 2] as int);
        }
    }
}

/// The night theme undoes itself: applying it twice gives back the buffer.
pub proof fn lemma_night_involution(s: Seq<u8>)
    ensures
        themed_buffer(Theme::Night, themed_buffer(Theme::Night, s)) == s,
{
    let once = themed_buffer(Theme::Night, s);
    lemma_themed_bytes_exact(Theme::Night, s);
    lemma_themed_bytes_exact(Theme::Night, once);
    assert(themed_buffer(Theme::Night, once) =~= s);
}

/// The day theme leaves every buffer as it is.
pub proof fn lemma_day_identity(s: Seq<u8>)
    ensures
        themed_buffer(Theme::Day, s) == s,
{
    assert(themed_buffer(Theme::Day, s) =~= s);
}

/// The high-contrast night theme leaves only black or white color channels
/// in every whole pixel.
pub proof fn lemma_night_contrast_binary(s: Seq<u8>)
    ensures
        forall|i: int|
            0 <= i < s.len() && i % 4 != 3 && i - i % 4 + 4 <= s.len() ==> {
                let v = #[trigger] themed_buffer(Theme::NightContrast, s)[i];
                v == 0 || v == 255
            },
{
}

/// Recolors one four-byte pixel in place.
pub fn recolor_pixel(pixel: &mut [u8], theme: Theme)
    requires
        old(pixel)@.len() == 4,
    ensures
        final(pixel)@ == themed_buffer(theme, old(pixel)@),
{
    let ghost s = pixel@;
    let r = pixel[0] as u32;
    let g = pixel[1] as u32;
    let b = pixel[2] as u32;
    match theme {
        Theme::Day => {},
        Theme::Night => {
            pixel[0] = (255 - r) as u8;
            pixel[1] = (255 - g) as u8;
            pixel[2] = (255 - b) as u8;
        },
        Theme::NightContrast => {
            let lum = (r * 299 + g * 587 + b * 114) / 1000;
            if lum > 128 {
                pixel[0] = 0;
                pixel[1] = 0;
                pixel[2] = 0;
            } else {
                pixel[0] = 255;
                pixel[1] = 255;
                pixel[2] = 255;
            }
        },
        Theme::Sepia => {
            proof {
                lemma_channels_in_range(theme, r as int, g as int, b as int);
            }
            pixel[0] = ((r * 244) / 255) as u8;
            pixel[1] = ((g * 236) / 255) as u8;
            pixel[2] = ((b * 216) / 255) as u8;
        },
        Theme::SepiaContrast => {
            proof {
                lemma_channels_in_range(theme, r as int, g as int, b as int);
            }
            pixel[0] = ((r * 230) / 255) as u8;
            pixel[1] = ((g * 210) / 255) as u8;
            pixel[2] = ((b * 180) / 255) as u8;
        },
        Theme::Twilight => {
            let ir = 255 - r;
            let ig = 255 - g;
            let ib = 255 - b;
            let xr = ir * 216;
            let xg = ig * 225;
            let xb = ib * 243;
            proof {
                lemma_channels_in_range(theme, r as int, g as int, b as int);
                assert(xr >> 8u32 == xr / 256) by (bit_vector);
                assert(xg >> 8u32 == xg / 256) by (bit_vector);
                assert(xb >> 8u32 == xb / 256) by (bit_vector);
            }
            pixel[0] = (xr >> 8) as u8;
            pixel[1] = (xg >> 8) as u8;
            pixel[2] = (xb >> 8) as u8;
        },
    }
    proof {
        lemma_themed_bytes_exact(theme, s);
    }
    assert(pixel@ =~= themed_buffer(theme, s));
}

/// Relies on rayon's `par_chunks_exact_mut(4)` and `for_each`: the closure runs
/// once on each whole, non-overlapping four-byte chunk, in place, and a
/// trailing partial chunk is not visited.
#[verifier::external_body]
fn recolor_chunks(buf: &mut Vec<u8>, theme: Theme)
    ensures
        final(buf)@ == themed_buffer(theme, old(buf)@),
{
    buf.par_chunks_exact_mut(4).for_each(|pixel| recolor_pixel(pixel, theme));
}

/// Applies `theme` to an RGBA buffer in place, pixels in parallel.
pub fn apply_theme(buf: &mut Vec<u8>, theme: Theme)
    ensures
        final(buf)@ == themed_buffer(theme, old(buf)@),
        theme == Theme::Day ==> final(buf)@ == old(buf)@,
{
    if theme == Theme::Day {
        proof {
            lemma_day_identity(buf@);
        }
    } else {
        recolor_chunks(buf, theme);
    }
}

} // verus!
