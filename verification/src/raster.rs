//! Raster images: an owned pixel buffer with a document-space placement.

use vstd::prelude::*;

use crate::codec::EncodedImageFormat;
use crate::codec::decode_rgba8;
use crate::codec::decoded_rgba8;
use crate::codec::encode_rgba8;
use crate::codec::encoded_image;
use crate::error::RenderError;
use crate::geom::Aabb;
use crate::geom::COORD_LIMIT;
use crate::geom::Coord;
use crate::geom::SUBUNITS;
use crate::pixel::ImageMemoryFormat;
use crate::pixel::convert_image_bgra_to_rgba;
use crate::pixel::surface_swapped;

verus! {

/// A general 2D affine placement: a linear part stored as ratios in
/// 1/1000 resolution, and a document-space translation.
#[derive(Debug, Clone, Copy, PartialEq, Eq, Structural)]
pub struct Affine2 {
    /// Linear part, column x of x.
    pub xx: i64,
    /// Linear part, column x of y.
    pub yx: i64,
    /// Linear part, column y of x.
    pub xy: i64,
    /// Linear part, column y of y.
    pub yy: i64,
    /// Translation, x.
    pub tx: Coord,
    /// Translation, y.
    pub ty: Coord,
}

impl Affine2 {
    /// Linear entries in range, translation finite and in range.
    pub open spec fn wf(self) -> bool {
        &&& -COORD_LIMIT <= self.xx <= COORD_LIMIT
        &&& -COORD_LIMIT <= self.yx <= COORD_LIMIT
        &&& -COORD_LIMIT <= self.xy <= COORD_LIMIT
        &&& -COORD_LIMIT <= self.yy <= COORD_LIMIT
        &&& self.tx.wf()
        &&& self.ty.wf()
    }

    /// The identity placement translated to `(tx, ty)`.
    pub fn translation(tx: Coord, ty: Coord) -> (r: Affine2)
        ensures
            r == translation_spec(tx, ty),
    {
        Affine2 { xx: SUBUNITS, yx: 0, xy: 0, yy: SUBUNITS, tx, ty }
    }
}

/// The identity placement translated to `(tx, ty)`.
pub open spec fn translation_spec(tx: Coord, ty: Coord) -> Affine2 {
    Affine2 { xx: SUBUNITS, yx: 0, xy: 0, yy: SUBUNITS, tx, ty }
}

/// The document-space target rectangle of a raster image: a local box
/// running from the origin to `(extent_x, extent_y)`, placed by a general
/// affine transform (position, rotation, non-uniform scale).
#[derive(Debug, Clone, Copy, PartialEq, Eq, Structural)]
pub struct TargetRect {
    /// Local width, in subunits.
    pub extent_x: Coord,
    /// Local height, in subunits.
    pub extent_y: Coord,
    /// Placement of the local box in document space.
    pub transform: Affine2,
}

impl TargetRect {
    /// Finite, in range and non-degenerate. Extents may span up to twice
    /// the coordinate limit: a box between in-range corners can be that
    /// wide.
    pub open spec fn wf(self) -> bool {
        &&& self.extent_x.finite
        &&& self.extent_y.finite
        &&& 0 < self.extent_x.sub <= 2 * COORD_LIMIT
        &&& 0 < self.extent_y.sub <= 2 * COORD_LIMIT
        &&& self.transform.wf()
    }

    /// The axis-aligned rectangle `b`, as a target rectangle: the box's
    /// extents placed by a pure translation to the box's minimum corner.
    pub fn from_aabb(b: &Aabb) -> (r: TargetRect)
        requires
            b.wf(),
        ensures
            r == rect_from_aabb_spec(*b),
    {
        TargetRect {
            extent_x: Coord::from_subunits(b.extent_x()),
            extent_y: Coord::from_subunits(b.extent_y()),
            transform: Affine2::translation(b.min_x, b.min_y),
        }
    }

    /// Whether the rectangle is finite, in range and non-degenerate.
    pub fn check_wf(&self) -> (r: bool)
        ensures
            r == self.wf(),
    {
        self.extent_x.finite && self.extent_y.finite && self.extent_x.sub > 0
            && self.extent_x.sub <= 2 * COORD_LIMIT && self.extent_y.sub > 0
            && self.extent_y.sub <= 2 * COORD_LIMIT
            && -COORD_LIMIT <= self.transform.xx && self.transform.xx <= COORD_LIMIT
            && -COORD_LIMIT <= self.transform.yx && self.transform.yx <= COORD_LIMIT
            && -COORD_LIMIT <= self.transform.xy && self.transform.xy <= COORD_LIMIT
            && -COORD_LIMIT <= self.transform.yy && self.transform.yy <= COORD_LIMIT
            && self.transform.tx.finite && -COORD_LIMIT <= self.transform.tx.sub
            && self.transform.tx.sub <= COORD_LIMIT && self.transform.ty.finite && -COORD_LIMIT
            <= self.transform.ty.sub && self.transform.ty.sub <= COORD_LIMIT
    }
}

/// The axis-aligned rectangle `b`, as a target rectangle.
pub open spec fn rect_from_aabb_spec(b: Aabb) -> TargetRect {
    TargetRect {
        extent_x: Coord { finite: true, sub: b.spec_extent_x() as i64 },
        extent_y: Coord { finite: true, sub: b.spec_extent_y() as i64 },
        transform: translation_spec(b.min_x, b.min_y),
    }
}

/// A bitmap image: an owned pixel buffer with its document-space target
/// rectangle, pixel dimensions and memory format.
#[derive(Debug, Clone)]
pub struct Image {
    /// The pixel data.
    pub data: Vec<u8>,
    /// The target rectangle in the coordinate space of the document.
    pub rect: TargetRect,
    /// Width of the pixel data.
    pub pixel_width: u32,
    /// Height of the pixel data.
    pub pixel_height: u32,
    /// Memory format of the pixel data.
    pub memory_format: ImageMemoryFormat,
}

impl Image {
    /// The image invariant: both pixel dimensions are nonzero, the buffer
    /// holds exactly 4 bytes per pixel, and the target rectangle is
    /// finite and non-degenerate.
    pub open spec fn is_valid(self) -> bool {
        &&& self.pixel_width > 0
        &&& self.pixel_height > 0
        &&& self.data@.len() == 4 * self.pixel_width * self.pixel_height
        &&& self.rect.wf()
    }

    /// Checks the image invariant; every format conversion and encode
    /// starts with this. Succeeds exactly on valid images.
    pub fn assert_valid(&self) -> (r: Result<(), RenderError>)
        ensures
            self.is_valid() <==> r is Ok,
            !self.is_valid() ==> r == Err::<(), RenderError>(RenderError::InvalidImage),
    {
        proof {
            assert(4 * (self.pixel_width as int) * (self.pixel_height as int) <= 4 * (
            u32::MAX as int) * (u32::MAX as int)) by (nonlinear_arith)
                requires
                    self.pixel_width <= u32::MAX,
                    self.pixel_height <= u32::MAX,
            {
            }
        }
        let len_ok: bool = (self.data.len() as u128) == 4u128 * (self.pixel_width as u128) * (
        self.pixel_height as u128);
        if self.pixel_width > 0 && self.pixel_height > 0 && len_ok && self.rect.check_wf() {
            Ok(())
        } else {
            Err(RenderError::InvalidImage)
        }
    }

    /// Decodes an encoded image (container format auto-detected by content
    /// sniffing) into the canonical pixel format, placing the result at
    /// `[0, width] x [0, height]` document units — a 1:1 scale. Fails with
    /// `DecodeError` exactly when the bytes do not decode to an image with
    /// nonzero dimensions.
    pub fn try_from_encoded_bytes(bytes: &[u8]) -> (r: Result<Image, RenderError>)
        ensures
            match decoded_rgba8(bytes@) {
                Some((w, h, d)) => {
                    if w > 0 && h > 0 {
                        r matches Ok(img) && img.pixel_width == w && img.pixel_height == h
                            && img.data@ == d && img.memory_format is R8g8b8a8Premultiplied
                            && img.rect == decoded_rect_spec(w, h) && img.is_valid()
                    } else {
                        r matches Err(e) && e is DecodeError
                    }
                },
                None => r matches Err(e) && e is DecodeError,
            },
    {
        match decode_rgba8(bytes) {
            Ok((width, height, data)) => {
                if width == 0 || height == 0 {
                    return Err(
                        RenderError::DecodeError(decoded_empty_message()),
                    );
                }
                let bounds = Aabb {
                    min_x: Coord::from_units(0),
                    min_y: Coord::from_units(0),
                    max_x: Coord::from_units(width as i64),
                    max_y: Coord::from_units(height as i64),
                };
                Ok(
                    Image {
                        data,
                        rect: TargetRect::from_aabb(&bounds),
                        pixel_width: width,
                        pixel_height: height,
                        memory_format: ImageMemoryFormat::R8g8b8a8Premultiplied,
                    },
                )
            },
            Err(msg) => Err(RenderError::DecodeError(msg)),
        }
    }

    /// Validates, then encodes the canonical-format buffer into the chosen
    /// container format. Fails with `InvalidImage` exactly on invalid
    /// images, and with `EncodeError` exactly when the codec rejects the
    /// request (the JPEG encoder, for one, takes no alpha channel).
    pub fn into_encoded_bytes(self, format: EncodedImageFormat) -> (r: Result<
        Vec<u8>,
        RenderError,
    >)
        ensures
            !self.is_valid() ==> r == Err::<Vec<u8>, RenderError>(RenderError::InvalidImage),
            self.is_valid() ==> match r {
                Ok(v) => encoded_image(format, self.pixel_width, self.pixel_height, self.data@)
                    == Some(v@),
                Err(e) => e is EncodeError && encoded_image(
                    format,
                    self.pixel_width,
                    self.pixel_height,
                    self.data@,
                ) is None,
            },
    {
        match self.assert_valid() {
            Ok(()) => {},
            Err(e) => {
                return Err(e);
            },
        }
        match encode_rgba8(format, self.pixel_width, self.pixel_height, &self.data) {
            Ok(bytes) => Ok(bytes),
            Err(msg) => Err(RenderError::EncodeError(msg)),
        }
    }

    /// Builds an image from a captured drawing-surface buffer: applies the
    /// surface-to-canonical byte-order swap and stamps the document-space
    /// placement.
    pub fn try_from_cairo_surface(data: Vec<u8>, width: u32, height: u32, bounds: &Aabb) -> (r:
        Image)
        requires
            bounds.wf(),
        ensures
            r.data@ == surface_swapped(data@),
            r.pixel_width == width,
            r.pixel_height == height,
            r.memory_format is R8g8b8a8Premultiplied,
            r.rect == rect_from_aabb_spec(*bounds),
    {
        Image {
            data: convert_image_bgra_to_rgba(data),
            rect: TargetRect::from_aabb(bounds),
            pixel_width: width,
            pixel_height: height,
            memory_format: ImageMemoryFormat::R8g8b8a8Premultiplied,
        }
    }
}

impl Default for Image {
    /// The empty image: no data, zero dimensions, a degenerate rectangle.
    /// It does not satisfy the image invariant; `assert_valid` rejects it.
    fn default() -> (r: Self)
        ensures
            r.data@.len() == 0,
            r.pixel_width == 0,
            r.pixel_height == 0,
            !r.is_valid(),
    {
        Image {
            data: Vec::new(),
            rect: TargetRect {
                extent_x: Coord::from_subunits(0),
                extent_y: Coord::from_subunits(0),
                transform: Affine2::translation(
                    Coord::from_subunits(0),
                    Coord::from_subunits(0),
                ),
            },
            pixel_width: 0,
            pixel_height: 0,
            memory_format: ImageMemoryFormat::R8g8b8a8Premultiplied,
        }
    }
}

/// The placement of a freshly decoded image: `[0, width] x [0, height]`
/// document units at 1:1 scale.
pub open spec fn decoded_rect_spec(width: u32, height: u32) -> TargetRect {
    TargetRect {
        extent_x: Coord { finite: true, sub: (width * SUBUNITS) as i64 },
        extent_y: Coord { finite: true, sub: (height * SUBUNITS) as i64 },
        transform: translation_spec(
            Coord { finite: true, sub: 0 },
            Coord { finite: true, sub: 0 },
        ),
    }
}

/// The message reported when the decoder yields an image with a zero
/// dimension.
fn decoded_empty_message() -> (r: String) {
    let mut s = String::new();
    s.append("decoded image has a zero dimension");
    s
}

} // verus!
