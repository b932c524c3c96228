use ferrous_focus::icon::{bgra_to_rgba, icon_from_argb_words, process_icon, resize_icon};
use ferrous_focus::{FerrousFocusError, IconConfig, IconExt, RasterImage};

fn raster(width: u32, height: u32, pixels: Vec<u8>) -> RasterImage {
    RasterImage::from_raw(width, height, pixels).expect("valid raster")
}

#[test]
fn test_argb_normalization_round_trip() {
    // A 2x2 synthetic ARGB32 buffer: source word 0xAARRGGBB at position p
    // must yield output bytes [RR, GG, BB, AA] at offset 4p.
    let words: Vec<u32> = vec![2, 2, 0xAABB_CCDD, 0x0011_2233, 0xFF00_0000, 0x7F80_8182];
    let img = icon_from_argb_words(&words).expect("well-formed payload");
    assert_eq!(img.width(), 2);
    assert_eq!(img.height(), 2);
    assert_eq!(img.as_raw().len(), 2 * 2 * 4);
    assert_eq!(&img.as_raw()[0..4], &[0xBB, 0xCC, 0xDD, 0xAA]);
    assert_eq!(&img.as_raw()[4..8], &[0x11, 0x22, 0x33, 0x00]);
    assert_eq!(&img.as_raw()[8..12], &[0x00, 0x00, 0x00, 0xFF]);
    assert_eq!(&img.as_raw()[12..16], &[0x80, 0x81, 0x82, 0x7F]);
}

#[test]
fn test_argb_empty_payload_is_unsupported() {
    let words: Vec<u32> = vec![];
    match icon_from_argb_words(&words) {
        Err(FerrousFocusError::Unsupported) => {}
        other => panic!("expected Unsupported, got {:?}", other.map(|i| i.width())),
    }
}

#[test]
fn test_argb_missing_header_is_platform_error() {
    let words: Vec<u32> = vec![5];
    match icon_from_argb_words(&words) {
        Err(FerrousFocusError::Platform(_)) => {}
        other => panic!("expected Platform error, got {:?}", other.map(|i| i.width())),
    }
}

#[test]
fn test_argb_zero_dimension_is_platform_error() {
    let words: Vec<u32> = vec![0, 4, 1, 2, 3, 4];
    match icon_from_argb_words(&words) {
        Err(FerrousFocusError::Platform(_)) => {}
        other => panic!("expected Platform error, got {:?}", other.map(|i| i.width())),
    }
}

#[test]
fn test_argb_insufficient_pixels_is_platform_error() {
    let words: Vec<u32> = vec![2, 2, 0xFFFF_FFFF];
    match icon_from_argb_words(&words) {
        Err(FerrousFocusError::Platform(_)) => {}
        other => panic!("expected Platform error, got {:?}", other.map(|i| i.width())),
    }
}

#[test]
fn test_argb_extra_words_are_ignored() {
    // A payload may hold further icons after the first; only the first is read.
    let words: Vec<u32> = vec![1, 1, 0x01020304, 99, 98, 97];
    let img = icon_from_argb_words(&words).expect("well-formed payload");
    assert_eq!(img.as_raw(), &vec![0x02, 0x03, 0x04, 0x01]);
}

#[test]
fn test_resize_idempotence() {
    // Resizing a raster already at the target size returns the identical
    // buffer: no resampling artifacts.
    let pixels: Vec<u8> = (0..4 * 4 * 4).map(|i| (i * 7 % 256) as u8).collect();
    let img = raster(4, 4, pixels.clone());
    let resized = resize_icon(img, 4);
    assert_eq!(resized.width(), 4);
    assert_eq!(resized.height(), 4);
    assert_eq!(resized.as_raw(), &pixels);
}

#[test]
fn test_resize_changes_dimensions() {
    // An actual resample: 2x2 down to 1x1 must produce a 4-byte buffer.
    let img = raster(2, 2, vec![255u8; 2 * 2 * 4]);
    let resized = resize_icon(img, 1);
    assert_eq!(resized.width(), 1);
    assert_eq!(resized.height(), 1);
    assert_eq!(resized.as_raw().len(), 4);
}

#[test]
fn test_process_icon_without_target_keeps_size() {
    let words: Vec<u32> = vec![2, 1, 0xAABB_CCDD, 0x0011_2233];
    let cfg = IconConfig::new();
    let img = process_icon(&words, &cfg).expect("well-formed payload");
    assert_eq!(img.width(), 2);
    assert_eq!(img.height(), 1);
    assert_eq!(img.as_raw(), &vec![0xBB, 0xCC, 0xDD, 0xAA, 0x11, 0x22, 0x33, 0x00]);
}

#[test]
fn test_process_icon_resizes_to_target() {
    let words: Vec<u32> = vec![2, 2, 0xFF00_0000, 0xFF00_0000, 0xFF00_0000, 0xFF00_0000];
    let cfg = IconConfig::new().with_size(8);
    let img = process_icon(&words, &cfg).expect("well-formed payload");
    assert_eq!(img.width(), 8);
    assert_eq!(img.height(), 8);
    assert_eq!(img.as_raw().len(), 8 * 8 * 4);
}

#[test]
fn test_process_icon_already_at_target_is_unchanged() {
    let words: Vec<u32> = vec![1, 1, 0x0102_0304];
    let cfg = IconConfig::new().with_size(1);
    let img = process_icon(&words, &cfg).expect("well-formed payload");
    assert_eq!(img.as_raw(), &vec![0x02, 0x03, 0x04, 0x01]);
}

#[test]
fn test_bgra_to_rgba_swaps_channels() {
    let bgra: Vec<u8> = vec![1, 2, 3, 4, 5, 6, 7, 8];
    let rgba = bgra_to_rgba(&bgra);
    assert_eq!(rgba, vec![3, 2, 1, 4, 7, 6, 5, 8]);
}

#[test]
fn test_from_raw_checks_length() {
    assert!(RasterImage::from_raw(2, 2, vec![0u8; 16]).is_some());
    assert!(RasterImage::from_raw(2, 2, vec![0u8; 15]).is_none());
    assert!(RasterImage::from_raw(2, 2, vec![0u8; 17]).is_none());
}

#[test]
fn test_hash_icon_is_deterministic() {
    let a = raster(2, 1, vec![9, 8, 7, 6, 5, 4, 3, 2]);
    let b = raster(2, 1, vec![9, 8, 7, 6, 5, 4, 3, 2]);
    assert_eq!(a.hash_icon(), b.hash_icon());
    assert_eq!(a.hash_icon(), a.hash_icon());
}
