//! Rasterization: pixel dimensions, bounds normalization and paint order.

use render_pipeline::error::RenderError;
use render_pipeline::geom::Aabb;
use render_pipeline::geom::Coord;
use render_pipeline::geom::normalize_bounds;
use render_pipeline::raster::Image;
use render_pipeline::renderer::Renderer;
use render_pipeline::renderer::plan_render;
use render_pipeline::svg::Svg;

fn fragment(data: &str) -> Svg {
    Svg {
        svg_data: String::from(data),
        bounds: Aabb::from_units(0, 0, 10, 10),
    }
}

fn pixel(image: &Image, x: u32, y: u32) -> [u8; 4] {
    let i = (4 * (y * image.pixel_width + x)) as usize;
    [
        image.data[i],
        image.data[i + 1],
        image.data[i + 2],
        image.data[i + 3],
    ]
}

#[test]
fn ten_unit_bounds_at_scale_two_yield_twenty_two_pixels() {
    let bounds = Aabb::from_units(0, 0, 10, 10);
    let svg = fragment("<rect x=\"0\" y=\"0\" width=\"10\" height=\"10\" fill=\"#ff0000\"/>");
    let image = Image::gen_image_from_svg(svg, &bounds, 2000).unwrap();
    assert_eq!(image.pixel_width, 22);
    assert_eq!(image.pixel_height, 22);
    assert!(image.assert_valid().is_ok());
    // The normalized target spans [-0.5, 10.5] on both axes.
    assert_eq!(image.rect.transform.tx.sub, -500);
    assert_eq!(image.rect.transform.ty.sub, -500);
    assert_eq!(image.rect.extent_x.sub, 11000);
    assert_eq!(image.rect.extent_y.sub, 11000);
    // Document point (5, 5) lies inside the red square; the margin is
    // transparent.
    assert_eq!(pixel(&image, 11, 11), [255, 0, 0, 255]);
    assert_eq!(pixel(&image, 0, 0), [0, 0, 0, 0]);
}

#[test]
fn degenerate_bounds_normalize_to_a_nonzero_surface() {
    let bounds = Aabb::from_units(5, 5, 5, 5);
    let image = Image::gen_image_from_svg(fragment(""), &bounds, 1000).unwrap();
    assert!(image.pixel_width > 0);
    assert!(image.pixel_height > 0);
    assert_eq!(image.pixel_width, 1);
    assert_eq!(image.pixel_height, 1);
}

#[test]
fn reversed_bounds_are_forced_non_negative() {
    let bounds = Aabb::from_units(10, 10, 0, 0);
    let plan = plan_render(&bounds, 1000).unwrap();
    assert_eq!(plan.pixel_width, 11);
    assert_eq!(plan.pixel_height, 11);
    assert_eq!(plan.bounds.min_x.sub, -500);
    assert_eq!(plan.bounds.max_x.sub, 10500);
}

#[test]
fn non_finite_bounds_fail_with_invalid_bounds() {
    let bounds = Aabb {
        min_x: Coord::non_finite(),
        min_y: Coord::from_units(0),
        max_x: Coord::from_units(1),
        max_y: Coord::from_units(1),
    };
    assert!(matches!(
        normalize_bounds(&bounds),
        Err(RenderError::InvalidBounds)
    ));
    let r = Image::gen_image_from_svg(fragment(""), &bounds, 1000);
    assert!(matches!(r, Err(RenderError::InvalidBounds)));
}

#[test]
fn out_of_range_bounds_fail_with_invalid_bounds() {
    let bounds = Aabb {
        min_x: Coord::from_subunits(0),
        min_y: Coord::from_subunits(0),
        max_x: Coord::from_subunits(i64::MAX),
        max_y: Coord::from_subunits(1000),
    };
    assert!(matches!(
        normalize_bounds(&bounds),
        Err(RenderError::InvalidBounds)
    ));
}

#[test]
fn zero_scale_fails_with_surface_allocation_failed() {
    let bounds = Aabb::from_units(0, 0, 10, 10);
    let r = Image::gen_image_from_svg(fragment(""), &bounds, 0);
    assert!(matches!(r, Err(RenderError::SurfaceAllocationFailed)));
}

#[test]
fn malformed_markup_fails_with_external_render_error() {
    let bounds = Aabb::from_units(0, 0, 10, 10);
    let r = Image::gen_image_from_svg(fragment("<rect"), &bounds, 1000);
    assert!(matches!(r, Err(RenderError::ExternalRenderError(_))));
}

#[test]
fn file_image_references_resolve_to_nothing() {
    let bounds = Aabb::from_units(0, 0, 10, 10);
    let svg = fragment(
        "<image href=\"no-such-file.png\" x=\"0\" y=\"0\" width=\"10\" height=\"10\"/>",
    );
    // A file-path reference is not read from disk: the element is skipped
    // (no error) and nothing is painted.
    let image = Image::gen_image_from_svg(svg, &bounds, 1000).unwrap();
    assert!(image.data.iter().all(|b| *b == 0));
}

#[test]
fn later_fragments_paint_over_earlier_ones() {
    let bounds = Aabb::from_units(0, 0, 10, 10);
    let red = fragment("<rect x=\"0\" y=\"0\" width=\"10\" height=\"10\" fill=\"#ff0000\"/>");
    let blue = fragment("<rect x=\"5\" y=\"5\" width=\"10\" height=\"10\" fill=\"#0000ff\"/>");
    let renderer = Renderer::default();
    let image = renderer
        .gen_image(&vec![red, blue], &bounds, 2000)
        .unwrap();
    // Document point (2, 2): red only. Document point (7, 7): overlap,
    // where the later (blue) fragment must be visible.
    assert_eq!(pixel(&image, 5, 5), [255, 0, 0, 255]);
    assert_eq!(pixel(&image, 15, 15), [0, 0, 255, 255]);
}
