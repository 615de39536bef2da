//! The rasterizer: converts vector fragments into raster images at a given
//! pixel density, through a CPU drawing surface.

use vstd::prelude::*;

use crate::error::RenderError;
use crate::geom::Aabb;
use crate::geom::bounds_ok;
use crate::geom::lemma_normalized_nondegenerate;
use crate::geom::normalize_bounds;
use crate::geom::normalized_spec;
use crate::geom::scaled_px;
use crate::geom::scaled_px_spec;
use crate::pixel::ImageMemoryFormat;
use crate::raster::Image;
use crate::raster::TargetRect;
use crate::raster::rect_from_aabb_spec;
use crate::svg::Svg;
use crate::svg::wrap_root;
use crate::vector::pixmap_data;
use crate::vector::pixmap_dims;
use crate::vector::pixmap_new;
use crate::vector::pixmap_take;
use crate::vector::render_document;
use crate::vector::rendered_over;
use crate::vector::svg_parses;
use crate::vector::zero_pixels;

verus! {

/// The vector-rasterization backend to draw with. The current backend set
/// has one member, the CPU renderer behind [`crate::vector`]; the tag picks
/// the implementation by configuration, not by inheritance.
#[derive(Debug, Clone, Copy, PartialEq, Eq, Structural)]
#[non_exhaustive]
pub enum RendererBackend {
    /// The `resvg` CPU renderer on a `tiny_skia` surface.
    Resvg,
}

/// Converts vector fragments into raster images: pure request/response,
/// no state is kept between calls.
#[derive(Debug, Clone, Copy, PartialEq, Eq, Structural)]
pub struct Renderer {
    /// The backend that draws.
    pub backend: RendererBackend,
}

impl Default for Renderer {
    fn default() -> (r: Self)
        ensures
            r.backend is Resvg,
    {
        Renderer { backend: RendererBackend::Resvg }
    }
}

/// A resolved rasterization request: the normalized document-space target
/// and the pixel dimensions of the surface to allocate.
#[derive(Debug, Clone, Copy, PartialEq, Eq, Structural)]
pub struct RenderPlan {
    /// The normalized target bounds (see [`normalized_spec`]).
    pub bounds: Aabb,
    /// Surface width in pixels: `round(extent x scale)`.
    pub pixel_width: u32,
    /// Surface height in pixels: `round(extent x scale)`.
    pub pixel_height: u32,
}

/// The pixel width that a plan for `bounds` at `scale_milli` asks for.
pub open spec fn plan_px_width(bounds: Aabb, scale_milli: u32) -> int {
    scaled_px_spec(normalized_spec(bounds).spec_extent_x(), scale_milli as int)
}

/// The pixel height that a plan for `bounds` at `scale_milli` asks for.
pub open spec fn plan_px_height(bounds: Aabb, scale_milli: u32) -> int {
    scaled_px_spec(normalized_spec(bounds).spec_extent_y(), scale_milli as int)
}

/// Both pixel dimensions are nonzero and representable.
pub open spec fn plan_px_ok(bounds: Aabb, scale_milli: u32) -> bool {
    &&& 1 <= plan_px_width(bounds, scale_milli) <= u32::MAX
    &&& 1 <= plan_px_height(bounds, scale_milli) <= u32::MAX
}

/// Dimensions the drawing-surface allocator accepts: nonzero, a row of 4
/// bytes per pixel that fits in 31 bits, and a buffer that fits the
/// machine's address space.
pub open spec fn surface_alloc_ok(width: int, height: int) -> bool {
    &&& 1 <= width <= 536870911
    &&& 1 <= height
    &&& 4 * width * height <= usize::MAX
}

/// The local pixel box of a plan: from the origin to the plan's pixel
/// dimensions, in whole document units.
pub open spec fn pixel_box_spec(bounds: Aabb, scale_milli: u32) -> Aabb {
    Aabb {
        min_x: crate::geom::Coord { finite: true, sub: 0 },
        min_y: crate::geom::Coord { finite: true, sub: 0 },
        max_x: crate::geom::Coord {
            finite: true,
            sub: (plan_px_width(bounds, scale_milli) * (crate::geom::SUBUNITS as int)) as i64,
        },
        max_y: crate::geom::Coord {
            finite: true,
            sub: (plan_px_height(bounds, scale_milli) * (crate::geom::SUBUNITS as int)) as i64,
        },
    }
}

/// The document that the rasterizer hands to the external parser for one
/// fragment: the fragment wrapped in a root element placed over the pixel
/// box, with the normalized bounds as its view box.
pub open spec fn wrapped_fragment_spec(data: Seq<char>, bounds: Aabb, scale_milli: u32) -> Seq<
    char,
> {
    crate::svg::wrap_root_spec(
        data,
        Some(pixel_box_spec(bounds, scale_milli)),
        Some(normalized_spec(bounds)),
        false,
    )
}

/// Every fragment's wrapped document is accepted by the external parser.
pub open spec fn all_fragments_parse(svgs: Seq<Svg>, bounds: Aabb, scale_milli: u32) -> bool {
    forall|k: int|
        0 <= k < svgs.len() ==> svg_parses(
            #[trigger] wrapped_fragment_spec(svgs[k].svg_data@, bounds, scale_milli),
        )
}

/// The surface contents after rendering each fragment's wrapped document,
/// in order, onto a fresh (transparent black) `width` x `height` surface.
pub open spec fn rendered_fragments(
    svgs: Seq<Svg>,
    bounds: Aabb,
    scale_milli: u32,
    width: u32,
    height: u32,
) -> Seq<u8>
    decreases svgs.len(),
{
    if svgs.len() == 0 {
        zero_pixels(width, height)
    } else {
        rendered_over(
            wrapped_fragment_spec(svgs.last().svg_data@, bounds, scale_milli),
            width,
            height,
            rendered_fragments(svgs.drop_last(), bounds, scale_milli, width, height),
        )
    }
}

/// Resolves a rasterization request: normalizes the bounds (fails with
/// `InvalidBounds` exactly on non-finite or out-of-range bounds) and
/// computes the pixel dimensions, `round(extent x scale)` per axis (fails
/// with `SurfaceAllocationFailed` exactly when a dimension is zero or not
/// representable). The plan drives both the built-in backend and any
/// caller-supplied draw procedure.
pub fn plan_render(bounds: &Aabb, scale_milli: u32) -> (r: Result<RenderPlan, RenderError>)
    ensures
        !bounds_ok(*bounds) ==> r == Err::<RenderPlan, RenderError>(RenderError::InvalidBounds),
        bounds_ok(*bounds) && !plan_px_ok(*bounds, scale_milli) ==> r == Err::<
            RenderPlan,
            RenderError,
        >(RenderError::SurfaceAllocationFailed),
        bounds_ok(*bounds) && plan_px_ok(*bounds, scale_milli) ==> (r matches Ok(plan)
            && plan.bounds == normalized_spec(*bounds) && plan.pixel_width == plan_px_width(
            *bounds,
            scale_milli,
        ) && plan.pixel_height == plan_px_height(*bounds, scale_milli) && plan.bounds.wf()),
{
    let normalized = match normalize_bounds(bounds) {
        Ok(n) => n,
        Err(e) => {
            return Err(e);
        },
    };
    proof {
        lemma_normalized_nondegenerate(*bounds);
    }
    let px_w: u64 = scaled_px(normalized.extent_x(), scale_milli);
    let px_h: u64 = scaled_px(normalized.extent_y(), scale_milli);
    if px_w < 1 || px_w > u32::MAX as u64 || px_h < 1 || px_h > u32::MAX as u64 {
        return Err(RenderError::SurfaceAllocationFailed);
    }
    Ok(RenderPlan { bounds: normalized, pixel_width: px_w as u32, pixel_height: px_h as u32 })
}

impl Renderer {
    /// Rasterizes the fragments, in order, into one image covering
    /// `bounds` (normalized) at `scale_milli` / 1000 pixels per document
    /// unit. Later fragments paint over earlier ones. Each fragment is
    /// wrapped in a root element whose placement is the pixel box and
    /// whose view box is the normalized bounds, which maps document space
    /// onto the pixel grid exactly. Succeeds whenever the bounds are
    /// acceptable, the surface dimensions are representable and accepted
    /// by the allocator, and every wrapped fragment parses. Drawing runs
    /// with no font database and no filesystem access: text elements
    /// render no glyphs, and image elements render only data-URL content.
    pub fn gen_image(&self, svgs: &Vec<Svg>, bounds: &Aabb, scale_milli: u32) -> (r: Result<
        Image,
        RenderError,
    >)
        ensures
            !bounds_ok(*bounds) ==> r == Err::<Image, RenderError>(RenderError::InvalidBounds),
            bounds_ok(*bounds) && !plan_px_ok(*bounds, scale_milli) ==> r == Err::<
                Image,
                RenderError,
            >(RenderError::SurfaceAllocationFailed),
            bounds_ok(*bounds) && plan_px_ok(*bounds, scale_milli) && surface_alloc_ok(
                plan_px_width(*bounds, scale_milli),
                plan_px_height(*bounds, scale_milli),
            ) && all_fragments_parse(svgs@, *bounds, scale_milli) ==> r is Ok,
            r matches Err(e) ==> (e is InvalidBounds || e is SurfaceAllocationFailed
                || e is ExternalRenderError),
            bounds_ok(*bounds) && plan_px_ok(*bounds, scale_milli) && r is Err ==> (r->Err_0
                is SurfaceAllocationFailed || r->Err_0 is ExternalRenderError),
            bounds_ok(*bounds) && plan_px_ok(*bounds, scale_milli) && surface_alloc_ok(
                plan_px_width(*bounds, scale_milli),
                plan_px_height(*bounds, scale_milli),
            ) && r is Err ==> r->Err_0 is ExternalRenderError,
            (r matches Err(e) && e is ExternalRenderError) ==> exists|k: int|
                0 <= k < svgs@.len() && !svg_parses(
                    wrapped_fragment_spec(svgs@[k].svg_data@, *bounds, scale_milli),
                ),
            r is Ok ==> all_fragments_parse(svgs@, *bounds, scale_milli),
            r matches Ok(img) ==> bounds_ok(*bounds) && plan_px_ok(*bounds, scale_milli)
                && img.pixel_width == plan_px_width(*bounds, scale_milli) && img.pixel_height
                == plan_px_height(*bounds, scale_milli) && img.rect == rect_from_aabb_spec(
                normalized_spec(*bounds),
            ) && img.memory_format is R8g8b8a8Premultiplied && img.is_valid() && img.data@
                == rendered_fragments(
                svgs@,
                *bounds,
                scale_milli,
                img.pixel_width,
                img.pixel_height,
            ),
    {
        match self.backend {
            RendererBackend::Resvg => self.gen_image_resvg(svgs, bounds, scale_milli),
        }
    }

    /// The `resvg` backend: parses each wrapped fragment and draws it onto
    /// one `tiny_skia` surface.
    #[verifier::rlimit(60)]
    fn gen_image_resvg(&self, svgs: &Vec<Svg>, bounds: &Aabb, scale_milli: u32) -> (r: Result<
        Image,
        RenderError,
    >)
        ensures
            !bounds_ok(*bounds) ==> r == Err::<Image, RenderError>(RenderError::InvalidBounds),
            bounds_ok(*bounds) && !plan_px_ok(*bounds, scale_milli) ==> r == Err::<
                Image,
                RenderError,
            >(RenderError::SurfaceAllocationFailed),
            bounds_ok(*bounds) && plan_px_ok(*bounds, scale_milli) && surface_alloc_ok(
                plan_px_width(*bounds, scale_milli),
                plan_px_height(*bounds, scale_milli),
            ) && all_fragments_parse(svgs@, *bounds, scale_milli) ==> r is Ok,
            r matches Err(e) ==> (e is InvalidBounds || e is SurfaceAllocationFailed
                || e is ExternalRenderError),
            bounds_ok(*bounds) && plan_px_ok(*bounds, scale_milli) && r is Err ==> (r->Err_0
                is SurfaceAllocationFailed || r->Err_0 is ExternalRenderError),
            bounds_ok(*bounds) && plan_px_ok(*bounds, scale_milli) && surface_alloc_ok(
                plan_px_width(*bounds, scale_milli),
                plan_px_height(*bounds, scale_milli),
            ) && r is Err ==> r->Err_0 is ExternalRenderError,
            (r matches Err(e) && e is ExternalRenderError) ==> exists|k: int|
                0 <= k < svgs@.len() && !svg_parses(
                    wrapped_fragment_spec(svgs@[k].svg_data@, *bounds, scale_milli),
                ),
            r is Ok ==> all_fragments_parse(svgs@, *bounds, scale_milli),
            r matches Ok(img) ==> bounds_ok(*bounds) && plan_px_ok(*bounds, scale_milli)
                && img.pixel_width == plan_px_width(*bounds, scale_milli) && img.pixel_height
                == plan_px_height(*bounds, scale_milli) && img.rect == rect_from_aabb_spec(
                normalized_spec(*bounds),
            ) && img.memory_format is R8g8b8a8Premultiplied && img.is_valid() && img.data@
                == rendered_fragments(
                svgs@,
                *bounds,
                scale_milli,
                img.pixel_width,
                img.pixel_height,
            ),
    {
        let plan = match plan_render(bounds, scale_milli) {
            Ok(p) => p,
            Err(e) => {
                return Err(e);
            },
        };
        let mut pixmap = match pixmap_new(plan.pixel_width, plan.pixel_height) {
            Some(p) => p,
            None => {
                return Err(RenderError::SurfaceAllocationFailed);
            },
        };
        let pixel_box = Aabb::from_units(
            0,
            0,
            plan.pixel_width as i64,
            plan.pixel_height as i64,
        );
        let mut i: usize = 0;
        while i < svgs.len()
            invariant
                i <= svgs@.len(),
                bounds_ok(*bounds),
                plan_px_ok(*bounds, scale_milli),
                plan.bounds == normalized_spec(*bounds),
                plan.pixel_width == plan_px_width(*bounds, scale_milli),
                plan.pixel_height == plan_px_height(*bounds, scale_milli),
                plan.bounds.wf(),
                pixel_box == pixel_box_spec(*bounds, scale_milli),
                crate::svg::attr_range(pixel_box),
                crate::svg::attr_range(plan.bounds),
                pixmap_dims(pixmap) == (plan.pixel_width, plan.pixel_height),
                forall|k: int|
                    0 <= k < i ==> svg_parses(
                        #[trigger] wrapped_fragment_spec(svgs@[k].svg_data@, *bounds, scale_milli),
                    ),
                pixmap_data(pixmap) == rendered_fragments(
                    svgs@.subrange(0, i as int),
                    *bounds,
                    scale_milli,
                    plan.pixel_width,
                    plan.pixel_height,
                ),
            decreases svgs@.len() - i,
        {
            let wrapped = wrap_root(
                svgs[i].svg_data.as_str(),
                Some(pixel_box),
                Some(plan.bounds),
                false,
            );
            match render_document(wrapped.as_str(), &mut pixmap) {
                Ok(()) => {},
                Err(msg) => {
                    proof {
                        assert(!svg_parses(
                            wrapped_fragment_spec(svgs@[i as int].svg_data@, *bounds, scale_milli),
                        ));
                    }
                    return Err(RenderError::ExternalRenderError(msg));
                },
            }
            proof {
                let pre = svgs@.subrange(0, i as int);
                let cur = svgs@.subrange(0, i as int + 1);
                assert(cur.drop_last() =~= pre);
                assert(cur.last() == svgs@[i as int]);
            }
            i = i + 1;
        }
        proof {
            lemma_normalized_nondegenerate(*bounds);
            assert(svgs@.subrange(0, svgs@.len() as int) =~= svgs@);
        }
        let data = pixmap_take(pixmap);
        Ok(
            Image {
                data,
                rect: TargetRect::from_aabb(&plan.bounds),
                pixel_width: plan.pixel_width,
                pixel_height: plan.pixel_height,
                memory_format: ImageMemoryFormat::R8g8b8a8Premultiplied,
            },
        )
    }
}

impl Image {
    /// Rasterizes one vector fragment (see [`Renderer::gen_image`]): the
    /// fragment's markup is drawn into a surface covering the normalized
    /// `bounds` at `scale_milli` / 1000 pixels per document unit, with no
    /// font database and no filesystem access.
    pub fn gen_image_from_svg(svg: Svg, bounds: &Aabb, scale_milli: u32) -> (r: Result<
        Image,
        RenderError,
    >)
        ensures
            !bounds_ok(*bounds) ==> r == Err::<Image, RenderError>(RenderError::InvalidBounds),
            bounds_ok(*bounds) && !plan_px_ok(*bounds, scale_milli) ==> r == Err::<
                Image,
                RenderError,
            >(RenderError::SurfaceAllocationFailed),
            bounds_ok(*bounds) && plan_px_ok(*bounds, scale_milli) && surface_alloc_ok(
                plan_px_width(*bounds, scale_milli),
                plan_px_height(*bounds, scale_milli),
            ) && svg_parses(wrapped_fragment_spec(svg.svg_data@, *bounds, scale_milli)) ==> r is Ok,
            r matches Err(e) ==> (e is InvalidBounds || e is SurfaceAllocationFailed
                || e is ExternalRenderError),
            bounds_ok(*bounds) && plan_px_ok(*bounds, scale_milli) && r is Err ==> (r->Err_0
                is SurfaceAllocationFailed || r->Err_0 is ExternalRenderError),
            bounds_ok(*bounds) && plan_px_ok(*bounds, scale_milli) && surface_alloc_ok(
                plan_px_width(*bounds, scale_milli),
                plan_px_height(*bounds, scale_milli),
            ) && r is Err ==> r->Err_0 is ExternalRenderError,
            (r matches Err(e) && e is ExternalRenderError) ==> !svg_parses(
                wrapped_fragment_spec(svg.svg_data@, *bounds, scale_milli),
            ),
            r matches Ok(img) ==> bounds_ok(*bounds) && plan_px_ok(*bounds, scale_milli)
                && img.pixel_width == plan_px_width(*bounds, scale_milli) && img.pixel_height
                == plan_px_height(*bounds, scale_milli) && img.rect == rect_from_aabb_spec(
                normalized_spec(*bounds),
            ) && img.memory_format is R8g8b8a8Premultiplied && img.is_valid() && img.data@
                == rendered_over(
                wrapped_fragment_spec(svg.svg_data@, *bounds, scale_milli),
                img.pixel_width,
                img.pixel_height,
                zero_pixels(img.pixel_width, img.pixel_height),
            ),
    {
        let renderer = Renderer::default();
        let svgs = vec![svg];
        let r = renderer.gen_image(&svgs, bounds, scale_milli);
        proof {
            assert(svgs@.len() == 1);
            if r is Err && r->Err_0 is ExternalRenderError {
                let k = choose|k: int|
                    0 <= k < svgs@.len() && !svg_parses(
                        wrapped_fragment_spec(svgs@[k].svg_data@, *bounds, scale_milli),
                    );
                assert(svgs@[k] == svgs@[0]);
            }
            if svg_parses(wrapped_fragment_spec(svg.svg_data@, *bounds, scale_milli)) {
                assert forall|k: int| 0 <= k < svgs@.len() implies svg_parses(
                    #[trigger] wrapped_fragment_spec(svgs@[k].svg_data@, *bounds, scale_milli),
                ) by {
                    assert(svgs@[k] == svg);
                }
            }
            if r is Ok {
                let img = r->Ok_0;
                let w = img.pixel_width;
                let h = img.pixel_height;
                assert(svgs@.drop_last() =~= Seq::<Svg>::empty());
                assert(svgs@.last() == svg);
                assert(rendered_fragments(Seq::<Svg>::empty(), *bounds, scale_milli, w, h)
                    == zero_pixels(w, h));
                assert(rendered_fragments(svgs@, *bounds, scale_milli, w, h) == rendered_over(
                    wrapped_fragment_spec(svg.svg_data@, *bounds, scale_milli),
                    w,
                    h,
                    zero_pixels(w, h),
                ));
            }
        }
        r
    }
}

} // verus!

