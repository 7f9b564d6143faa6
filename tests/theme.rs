use treader::theme::{apply_theme, recolor_pixel, Theme};

fn themed(pixel: [u8; 4], theme: Theme) -> Vec<u8> {
    let mut buf = pixel.to_vec();
    apply_theme(&mut buf, theme);
    buf
}

#[test]
fn night_inverts_color_channels() {
    assert_eq!(themed([10, 20, 30, 40], Theme::Night), vec![245, 235, 225, 40]);
}

#[test]
fn night_twice_restores_buffer() {
    let before: Vec<u8> = (0..=255u8).collect();
    let mut buf = before.clone();
    apply_theme(&mut buf, Theme::Night);
    assert_ne!(buf, before);
    apply_theme(&mut buf, Theme::Night);
    assert_eq!(buf, before);
}

#[test]
fn day_is_identity() {
    let before: Vec<u8> = (0..=255u8).rev().collect();
    let mut buf = before.clone();
    apply_theme(&mut buf, Theme::Day);
    assert_eq!(buf, before);
}

#[test]
fn sepia_attenuates_channels() {
    assert_eq!(themed([10, 20, 30, 7], Theme::Sepia), vec![9, 18, 25, 7]);
    assert_eq!(themed([255, 255, 255, 255], Theme::Sepia), vec![244, 236, 216, 255]);
}

#[test]
fn sepia_contrast_attenuates_channels() {
    assert_eq!(themed([255, 255, 255, 0], Theme::SepiaContrast), vec![230, 210, 180, 0]);
    assert_eq!(themed([100, 100, 100, 9], Theme::SepiaContrast), vec![90, 82, 70, 9]);
}

#[test]
fn twilight_inverts_then_tints() {
    assert_eq!(themed([0, 0, 0, 255], Theme::Twilight), vec![215, 224, 242, 255]);
    assert_eq!(themed([255, 255, 255, 1], Theme::Twilight), vec![0, 0, 0, 1]);
    assert_eq!(themed([100, 50, 200, 3], Theme::Twilight), vec![130, 180, 52, 3]);
}

#[test]
fn night_contrast_threshold() {
    assert_eq!(themed([128, 128, 128, 5], Theme::NightContrast), vec![255, 255, 255, 5]);
    assert_eq!(themed([129, 129, 129, 5], Theme::NightContrast), vec![0, 0, 0, 5]);
    assert_eq!(themed([255, 0, 0, 5], Theme::NightContrast), vec![255, 255, 255, 5]);
    assert_eq!(themed([0, 255, 0, 5], Theme::NightContrast), vec![0, 0, 0, 5]);
}

#[test]
fn night_contrast_gives_only_black_or_white() {
    let mut buf: Vec<u8> = Vec::new();
    for v in 0..=255u8 {
        buf.extend_from_slice(&[v, 255 - v, v / 2, 77]);
    }
    apply_theme(&mut buf, Theme::NightContrast);
    for (i, b) in buf.iter().enumerate() {
        if i % 4 == 3 {
            assert_eq!(*b, 77);
        } else {
            assert!(*b == 0 || *b == 255);
        }
    }
}

#[test]
fn every_theme_stays_in_range_on_extremes() {
    let themes = [
        Theme::Day,
        Theme::Night,
        Theme::NightContrast,
        Theme::Sepia,
        Theme::SepiaContrast,
        Theme::Twilight,
    ];
    let mut buf: Vec<u8> = Vec::new();
    for r in [0u8, 1, 127, 128, 254, 255] {
        for g in [0u8, 128, 255] {
            for b in [0u8, 128, 255] {
                buf.extend_from_slice(&[r, g, b, 200]);
            }
        }
    }
    for theme in themes {
        let mut out = buf.clone();
        apply_theme(&mut out, theme);
        assert_eq!(out.len(), buf.len());
        for i in (3..out.len()).step_by(4) {
            assert_eq!(out[i], 200);
        }
    }
}

#[test]
fn trailing_partial_pixel_untouched() {
    let mut buf = vec![10, 20, 30, 40, 50, 60];
    apply_theme(&mut buf, Theme::Night);
    assert_eq!(buf, vec![245, 235, 225, 40, 50, 60]);
}

#[test]
fn recolor_single_pixel() {
    let mut px = [1u8, 2, 3, 4];
    recolor_pixel(&mut px, Theme::Night);
    assert_eq!(px, [254, 253, 252, 4]);
}

#[test]
fn theme_names() {
    assert_eq!(Theme::from_name("night"), Theme::Night);
    assert_eq!(Theme::from_name("night_contrast"), Theme::NightContrast);
    assert_eq!(Theme::from_name("sepia"), Theme::Sepia);
    assert_eq!(Theme::from_name("sepia_contrast"), Theme::SepiaContrast);
    assert_eq!(Theme::from_name("twilight"), Theme::Twilight);
    assert_eq!(Theme::from_name("day"), Theme::Day);
    assert_eq!(Theme::from_name("Night"), Theme::Day);
    assert_eq!(Theme::from_name(""), Theme::Day);
}

#[test]
fn empty_buffer_stays_empty() {
    let mut buf: Vec<u8> = Vec::new();
    apply_theme(&mut buf, Theme::Twilight);
    assert!(buf.is_empty());
}
