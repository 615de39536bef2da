//! Raster-image validation, surface capture and the codec round trip.

use render_pipeline::codec::EncodedImageFormat;
use render_pipeline::error::RenderError;
use render_pipeline::geom::Aabb;
use render_pipeline::pixel::ImageMemoryFormat;
use render_pipeline::raster::Image;
use render_pipeline::raster::TargetRect;

fn sample_image(width: u32, height: u32, data: Vec<u8>) -> Image {
    let bounds = Aabb::from_units(0, 0, width as i64, height as i64);
    Image {
        data,
        rect: TargetRect::from_aabb(&bounds),
        pixel_width: width,
        pixel_height: height,
        memory_format: ImageMemoryFormat::R8g8b8a8Premultiplied,
    }
}

#[test]
fn validate_succeeds_iff_buffer_matches_dimensions() {
    let good = sample_image(2, 2, vec![0; 16]);
    assert!(good.assert_valid().is_ok());
    let short = sample_image(2, 2, vec![0; 15]);
    assert!(matches!(short.assert_valid(), Err(RenderError::InvalidImage)));
    let long = sample_image(2, 2, vec![0; 17]);
    assert!(matches!(long.assert_valid(), Err(RenderError::InvalidImage)));
}

#[test]
fn validate_rejects_zero_dimensions() {
    let zero_width = sample_image(0, 2, Vec::new());
    assert!(matches!(
        zero_width.assert_valid(),
        Err(RenderError::InvalidImage)
    ));
    let zero_height = sample_image(2, 0, Vec::new());
    assert!(matches!(
        zero_height.assert_valid(),
        Err(RenderError::InvalidImage)
    ));
    assert!(matches!(
        Image::default().assert_valid(),
        Err(RenderError::InvalidImage)
    ));
}

#[test]
fn validate_rejects_a_non_finite_target_rectangle() {
    let mut image = sample_image(1, 1, vec![0; 4]);
    image.rect.transform.tx = render_pipeline::geom::Coord::non_finite();
    assert!(matches!(image.assert_valid(), Err(RenderError::InvalidImage)));
}

#[test]
fn png_round_trip_is_byte_exact() {
    let pixels = vec![255, 0, 0, 255, 0, 0, 255, 255];
    let image = sample_image(2, 1, pixels.clone());
    let encoded = image.into_encoded_bytes(EncodedImageFormat::Png).unwrap();
    let decoded = Image::try_from_encoded_bytes(&encoded).unwrap();
    assert_eq!(decoded.pixel_width, 2);
    assert_eq!(decoded.pixel_height, 1);
    assert_eq!(decoded.data, pixels);
}

#[test]
fn decoding_places_the_image_at_one_to_one_scale() {
    let image = sample_image(3, 2, vec![7; 24]);
    let encoded = image.into_encoded_bytes(EncodedImageFormat::Png).unwrap();
    let decoded = Image::try_from_encoded_bytes(&encoded).unwrap();
    assert_eq!(decoded.rect.extent_x.sub, 3000);
    assert_eq!(decoded.rect.extent_y.sub, 2000);
    assert_eq!(decoded.rect.transform.tx.sub, 0);
    assert_eq!(decoded.rect.transform.ty.sub, 0);
    assert!(decoded.assert_valid().is_ok());
}

#[test]
fn decoding_garbage_fails_with_decode_error() {
    let r = Image::try_from_encoded_bytes(&[1, 2, 3]);
    assert!(matches!(r, Err(RenderError::DecodeError(_))));
}

#[test]
fn encoding_an_invalid_image_fails_with_invalid_image() {
    let broken = sample_image(2, 2, vec![0; 3]);
    let r = broken.into_encoded_bytes(EncodedImageFormat::Png);
    assert!(matches!(r, Err(RenderError::InvalidImage)));
}

#[test]
fn jpeg_encoding_of_an_alpha_buffer_fails_with_encode_error() {
    let image = sample_image(2, 2, vec![128; 16]);
    let r = image.into_encoded_bytes(EncodedImageFormat::Jpeg);
    assert!(matches!(r, Err(RenderError::EncodeError(_))));
}

#[test]
fn surface_capture_swaps_byte_order_and_stamps_placement() {
    let bounds = Aabb::from_units(1, 2, 3, 6);
    let captured = Image::try_from_cairo_surface(vec![10, 20, 30, 40], 1, 1, &bounds);
    assert_eq!(captured.data, vec![30, 20, 10, 40]);
    assert_eq!(captured.pixel_width, 1);
    assert_eq!(captured.pixel_height, 1);
    assert_eq!(captured.rect.transform.tx.sub, 1000);
    assert_eq!(captured.rect.transform.ty.sub, 2000);
    assert_eq!(captured.rect.extent_x.sub, 2000);
    assert_eq!(captured.rect.extent_y.sub, 4000);
    assert!(captured.assert_valid().is_ok());
}
