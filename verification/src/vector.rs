//! Trusted boundary to the CPU vector-rasterization backend: the `usvg`
//! SVG parser/serializer, the `resvg` renderer and the `tiny_skia` pixel
//! surface. Each item's contract states only what the backend's source
//! shows; everything downstream of these calls is verified.

use vstd::prelude::*;

verus! {

/// A CPU drawing surface of premultiplied RGBA pixels, from `tiny_skia`.
#[verifier::external_type_specification]
#[verifier::external_body]
pub struct ExPixmap(tiny_skia::Pixmap);

/// The pixel width and height that a pixmap was allocated with.
pub uninterp spec fn pixmap_dims(p: tiny_skia::Pixmap) -> (u32, u32);

/// The bytes a pixmap holds: 4 per pixel (premultiplied R,G,B,A),
/// row-major, top to bottom.
pub uninterp spec fn pixmap_data(p: tiny_skia::Pixmap) -> Seq<u8>;

/// Whether the external SVG parser (with this crate's fixed,
/// environment-free parsing options) accepts this document. Acceptance is
/// a function of the text alone: a skipped image or text element is not a
/// parse failure.
pub uninterp spec fn svg_parses(text: Seq<char>) -> bool;

/// What the external renderer leaves in a `width` x `height` surface that
/// held `data`, after drawing the document `text` over it at the identity
/// root transform. Parsing and rendering are functions of these arguments
/// alone.
pub uninterp spec fn rendered_over(text: Seq<char>, width: u32, height: u32, data: Seq<
    u8,
>) -> Seq<u8>;

/// What the external parser/serializer round trip turns the document
/// `text` into, at the given coordinate and transform precision. The
/// round trip is a function of these arguments alone.
pub uninterp spec fn simplified_markup(
    text: Seq<char>,
    coordinates_precision: u8,
    transforms_precision: u8,
) -> Seq<char>;

/// A fresh surface's contents: transparent black, 4 bytes per pixel.
pub open spec fn zero_pixels(width: u32, height: u32) -> Seq<u8> {
    Seq::new((4 * width * height) as nat, |i: int| 0u8)
}

/// Relies on `tiny_skia::Pixmap::new`: allocates a `width` x `height`
/// surface filled with transparent black. It returns `Some` exactly when
/// both dimensions are nonzero, the row (4 bytes per pixel) fits in 31
/// bits, and the buffer length fits the machine's address space.
#[verifier::external_body]
pub(crate) fn pixmap_new(width: u32, height: u32) -> (r: Option<tiny_skia::Pixmap>)
    ensures
        r is Some <==> (1 <= width <= 536870911 && 1 <= height && 4 * width * height
            <= usize::MAX),
        r matches Some(p) ==> pixmap_dims(p) == (width, height) && pixmap_data(p) == zero_pixels(
            width,
            height,
        ),
{
    tiny_skia::Pixmap::new(width, height)
}

/// Relies on `tiny_skia::Pixmap::take`: hands out the backing buffer,
/// which holds exactly 4 bytes per pixel.
#[verifier::external_body]
pub(crate) fn pixmap_take(p: tiny_skia::Pixmap) -> (r: Vec<u8>)
    ensures
        r@ == pixmap_data(p),
        r@.len() == 4 * (pixmap_dims(p).0 as int) * (pixmap_dims(p).1 as int),
{
    p.take()
}

/// Relies on `usvg::Tree::from_str` and `resvg::render`: parses a
/// standalone SVG document and draws it onto the surface at the identity
/// root transform, over the surface's current contents. The parsing
/// options keep the environment out, so the result depends on the text
/// alone: the font database is empty (text elements yield no glyphs), and
/// image elements resolve only data URLs — a file-path reference resolves
/// to nothing instead of reading the filesystem. Rendering writes pixels
/// only; the surface keeps its dimensions.
#[verifier::external_body]
pub(crate) fn render_document(text: &str, pixmap: &mut tiny_skia::Pixmap) -> (r: Result<
    (),
    String,
>)
    ensures
        r is Ok <==> svg_parses(text@),
        pixmap_dims(*final(pixmap)) == pixmap_dims(*old(pixmap)),
        r is Ok ==> pixmap_data(*final(pixmap)) == rendered_over(
            text@,
            pixmap_dims(*old(pixmap)).0,
            pixmap_dims(*old(pixmap)).1,
            pixmap_data(*old(pixmap)),
        ),
        r is Err ==> pixmap_data(*final(pixmap)) == pixmap_data(*old(pixmap)),
{
    let resolver = usvg::ImageHrefResolver {
        resolve_data: usvg::ImageHrefResolver::default_data_resolver(),
        resolve_string: Box::new(|_, _| None),
    };
    let opt = usvg::Options { image_href_resolver: resolver, ..usvg::Options::default() };
    let tree = usvg::Tree::from_str(text, &opt).map_err(|e| format!("{e:?}"))?;
    resvg::render(&tree, tiny_skia::Transform::default(), &mut pixmap.as_mut());
    Ok(())
}

/// Relies on `usvg::Tree::from_str` and `usvg::Tree::to_string`: parses a
/// standalone SVG document and serializes it back with the given
/// coordinate and transform precision, without indentation and without an
/// XML declaration. The parsing options keep the environment out, so the
/// round trip is a function of the text alone: the font database is empty
/// (text elements yield no glyphs), and image elements resolve only data
/// URLs — a file-path reference resolves to nothing instead of reading
/// the filesystem.
#[verifier::external_body]
pub(crate) fn canonicalize_document(
    text: &str,
    coordinates_precision: u8,
    transforms_precision: u8,
) -> (r: Result<String, String>)
    ensures
        r is Ok <==> svg_parses(text@),
        r matches Ok(s) ==> s@ == simplified_markup(
            text@,
            coordinates_precision,
            transforms_precision,
        ),
{
    let resolver = usvg::ImageHrefResolver {
        resolve_data: usvg::ImageHrefResolver::default_data_resolver(),
        resolve_string: Box::new(|_, _| None),
    };
    let opt = usvg::Options { image_href_resolver: resolver, ..usvg::Options::default() };
    let tree = usvg::Tree::from_str(text, &opt).map_err(|e| format!("{e:?}"))?;
    let wopt = usvg::WriteOptions {
        coordinates_precision,
        transforms_precision,
        indent: usvg::Indent::None,
        attributes_indent: usvg::Indent::None,
        ..usvg::WriteOptions::default()
    };
    Ok(tree.to_string(&wopt))
}

} // verus!
