//! Vector fragments: merging, root wrapping and simplification.

use render_pipeline::geom::Aabb;
use render_pipeline::svg::Svg;
use render_pipeline::svg::wrap_root;

fn fragment(data: &str, x0: i64, y0: i64, x1: i64, y1: i64) -> Svg {
    Svg {
        svg_data: String::from(data),
        bounds: Aabb::from_units(x0, y0, x1, y1),
    }
}

#[test]
fn merge_concatenates_markup_in_order_and_unions_bounds() {
    let mut base = fragment("<a/>", 0, 0, 1, 1);
    let second = fragment("<b/>", -2, 3, 0, 5);
    let third = fragment("<c/>", 1, -1, 4, 2);
    base.merge(vec![second, third]);
    assert_eq!(base.svg_data, "<a/>\n<b/>\n<c/>");
    assert_eq!(base.bounds.min_x.sub, -2000);
    assert_eq!(base.bounds.min_y.sub, -1000);
    assert_eq!(base.bounds.max_x.sub, 4000);
    assert_eq!(base.bounds.max_y.sub, 5000);
}

#[test]
fn merging_zero_fragments_is_a_no_op() {
    let mut base = fragment("<a/>", 0, 0, 1, 1);
    let before = base.svg_data.clone();
    let bounds_before = base.bounds;
    base.merge(Vec::new());
    assert_eq!(base.svg_data, before);
    assert_eq!(base.bounds, bounds_before);
}

#[test]
fn bounds_union_is_associative_and_commutative() {
    let a = Aabb::from_units(0, 0, 1, 1);
    let b = Aabb::from_units(-3, 2, 5, 4);
    let c = Aabb::from_units(2, -7, 3, 9);
    assert_eq!(a.union(&b).union(&c), a.union(&b.union(&c)));
    assert_eq!(a.union(&b), b.union(&a));
}

#[test]
fn wrap_root_writes_placement_viewbox_and_namespaces() {
    let b = Aabb::from_units(0, 0, 2, 2);
    let wrapped = wrap_root("<rect/>", Some(b), Some(b), false);
    let expected = "<svg x=\"0.000\" y=\"0.000\" width=\"2.000\" height=\"2.000\" viewBox=\"0.000 0.000 2.000 2.000\" preserveAspectRatio=\"none\" xmlns=\"http://www.w3.org/2000/svg\" xmlns:xlink=\"http://www.w3.org/1999/xlink\">\n<rect/>\n</svg>";
    assert_eq!(wrapped, expected);
}

#[test]
fn wrap_root_formats_negative_and_fractional_coordinates() {
    let b = Aabb {
        min_x: render_pipeline::geom::Coord::from_subunits(-500),
        min_y: render_pipeline::geom::Coord::from_subunits(-500),
        max_x: render_pipeline::geom::Coord::from_subunits(10500),
        max_y: render_pipeline::geom::Coord::from_subunits(10500),
    };
    let wrapped = wrap_root("", None, Some(b), true);
    let expected = "<svg viewBox=\"-0.500 -0.500 11.000 11.000\" preserveAspectRatio=\"xMidYMid\" xmlns=\"http://www.w3.org/2000/svg\" xmlns:xlink=\"http://www.w3.org/1999/xlink\">\n\n</svg>";
    assert_eq!(wrapped, expected);
}

#[test]
fn wrap_svg_root_adopts_the_placement_bounds() {
    let mut svg = fragment("<rect/>", 0, 0, 1, 1);
    let new_bounds = Aabb::from_units(2, 2, 6, 6);
    svg.wrap_svg_root(Some(new_bounds), None, false);
    assert_eq!(svg.bounds, new_bounds);
    assert!(svg.svg_data.starts_with("<svg "));
    assert!(svg.svg_data.ends_with("</svg>"));
}

#[test]
fn simplify_rebases_bounds_to_the_origin() {
    let mut svg = fragment(
        "<rect x=\"1\" y=\"1\" width=\"2\" height=\"2\" fill=\"#000000\"/>",
        1,
        1,
        3,
        3,
    );
    svg.simplify().unwrap();
    assert_eq!(svg.bounds.min_x.sub, 0);
    assert_eq!(svg.bounds.min_y.sub, 0);
    assert_eq!(svg.bounds.max_x.sub, 2000);
    assert_eq!(svg.bounds.max_y.sub, 2000);
    // The canonicalized markup is the serializer's output, not the input
    // handed to it.
    assert!(svg.svg_data.starts_with("<svg"));
    let handed_in = wrap_root(
        "<rect x=\"1\" y=\"1\" width=\"2\" height=\"2\" fill=\"#000000\"/>",
        Some(Aabb::from_units(0, 0, 2, 2)),
        Some(Aabb::from_units(1, 1, 3, 3)),
        false,
    );
    assert_ne!(svg.svg_data, handed_in);
}

#[test]
fn simplify_leaves_the_fragment_unchanged_on_failure() {
    let mut svg = fragment("<rect", 0, 0, 1, 1);
    let before = svg.svg_data.clone();
    let r = svg.simplify();
    assert!(matches!(
        r,
        Err(render_pipeline::error::RenderError::ExternalRenderError(_))
    ));
    assert_eq!(svg.svg_data, before);
}
