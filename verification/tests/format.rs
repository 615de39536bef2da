//! Pixel-format tags and the surface byte-order swap.

use render_pipeline::error::RenderError;
use render_pipeline::pixel::CodecPixelFormat;
use render_pipeline::pixel::ImageMemoryFormat;
use render_pipeline::pixel::SurfaceMemoryFormat;
use render_pipeline::pixel::TextureMemoryFormat;
use render_pipeline::pixel::convert_image_bgra_to_rgba;

#[test]
fn swap_exchanges_bytes_zero_and_two_of_each_pixel() {
    let swapped = convert_image_bgra_to_rgba(vec![1, 2, 3, 4, 5, 6, 7, 8]);
    assert_eq!(swapped, vec![3, 2, 1, 4, 7, 6, 5, 8]);
}

#[test]
fn swap_twice_restores_the_buffer() {
    let original: Vec<u8> = (0..64).collect();
    let once = convert_image_bgra_to_rgba(original.clone());
    assert_ne!(once, original);
    let twice = convert_image_bgra_to_rgba(once);
    assert_eq!(twice, original);
}

#[test]
fn swap_leaves_a_trailing_incomplete_group_unchanged() {
    let swapped = convert_image_bgra_to_rgba(vec![1, 2, 3, 4, 5, 6]);
    assert_eq!(swapped, vec![3, 2, 1, 4, 5, 6]);
}

#[test]
fn swap_of_empty_buffer_is_empty() {
    let swapped = convert_image_bgra_to_rgba(Vec::new());
    assert!(swapped.is_empty());
}

#[test]
fn canonical_format_maps_to_each_format_set() {
    let format = ImageMemoryFormat::default();
    assert!(matches!(
        format.to_drawing_surface_format(),
        SurfaceMemoryFormat::B8g8r8a8Premultiplied
    ));
    assert!(matches!(
        format.to_texture_format(),
        TextureMemoryFormat::R8g8b8a8Premultiplied
    ));
    assert!(matches!(
        format.to_image_codec_format(),
        CodecPixelFormat::RgbaPremultiplied
    ));
}

#[test]
fn texture_format_round_trip_succeeds_for_the_canonical_layout() {
    let r = ImageMemoryFormat::try_from_texture_format(TextureMemoryFormat::R8g8b8a8Premultiplied);
    assert!(matches!(r, Ok(ImageMemoryFormat::R8g8b8a8Premultiplied)));
}

#[test]
fn unsupported_texture_formats_are_rejected() {
    let bgra = ImageMemoryFormat::try_from_texture_format(
        TextureMemoryFormat::B8g8r8a8Premultiplied,
    );
    assert!(matches!(bgra, Err(RenderError::UnsupportedFormat)));
    let straight = ImageMemoryFormat::try_from_texture_format(TextureMemoryFormat::R8g8b8a8);
    assert!(matches!(straight, Err(RenderError::UnsupportedFormat)));
}
