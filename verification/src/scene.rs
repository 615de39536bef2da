//! Scene assembly: raster images become texture-backed scene nodes, and
//! nodes compose into an ordered overlay for display or off-screen capture.
//!
//! A scene node is an immutable tree value, not a mutable retained scene
//! graph: composition is side-effect-free.

use vstd::prelude::*;

use crate::error::RenderError;
use crate::geom::Coord;
use crate::pixel::TextureMemoryFormat;
use crate::raster::Affine2;
use crate::raster::Image;

verus! {

/// A pixel buffer wrapped with the metadata a GPU upload needs: format,
/// dimensions and row stride. The stride is fixed at 4 bytes per pixel
/// with no padding.
#[derive(Debug, Clone)]
pub struct Texture {
    /// Pixel data, row-major, top to bottom.
    pub data: Vec<u8>,
    /// Width in pixels.
    pub width: u32,
    /// Height in pixels.
    pub height: u32,
    /// Pixel layout of `data`.
    pub format: TextureMemoryFormat,
    /// Bytes per row: `4 * width`.
    pub stride: u64,
}

/// An immutable value describing a renderable primitive or a transform or
/// composition of primitives, consumed by the GPU display backend.
#[derive(Debug)]
pub enum SceneNode {
    /// A texture painted into the local box from the origin to the given
    /// extents.
    Texture {
        /// The texture to paint.
        texture: Texture,
        /// Local box width, in subunits.
        extent_x: Coord,
        /// Local box height, in subunits.
        extent_y: Coord,
    },
    /// A child node placed by an affine transform.
    Transform {
        /// The placement.
        transform: Affine2,
        /// The node being placed.
        child: Box<SceneNode>,
    },
    /// Children painted in order: later children paint over earlier ones
    /// at overlapping regions.
    Container {
        /// The children, in paint order.
        children: Vec<SceneNode>,
    },
}

/// `t` is the texture of image `img`: same pixels, same dimensions, the
/// image's format mapped to the texture format set, stride `4 * width`.
pub open spec fn is_texture_of(t: Texture, img: Image) -> bool {
    &&& t.data@ == img.data@
    &&& t.width == img.pixel_width
    &&& t.height == img.pixel_height
    &&& (img.memory_format is R8g8b8a8Premultiplied ==> t.format is R8g8b8a8Premultiplied)
    &&& t.stride == 4 * img.pixel_width
}

/// `n` is the scene node of image `img`: a transform node carrying the
/// image's target-rectangle placement, wrapping a texture node over the
/// rectangle's local box. The two-node shape is needed because the target
/// rectangle carries rotation and scale, not just translation.
pub open spec fn is_node_of(n: SceneNode, img: Image) -> bool {
    &&& n matches SceneNode::Transform { transform, child }
    &&& n->Transform_transform == img.rect.transform
    &&& (*n->Transform_child) matches SceneNode::Texture { texture, extent_x, extent_y }
    &&& is_texture_of((*n->Transform_child)->Texture_texture, img)
    &&& (*n->Transform_child)->Texture_extent_x == img.rect.extent_x
    &&& (*n->Transform_child)->Texture_extent_y == img.rect.extent_y
}

/// The pure zoom placement used when composing images for display at a
/// scale of `scale_milli` / 1000.
pub open spec fn zoom_affine_spec(scale_milli: u32) -> Affine2 {
    Affine2 {
        xx: scale_milli as i64,
        yx: 0,
        xy: 0,
        yy: scale_milli as i64,
        tx: Coord { finite: true, sub: 0 },
        ty: Coord { finite: true, sub: 0 },
    }
}

/// `n` is the scene node of image `img`, zoomed for display: the image's
/// node wrapped in the zoom placement.
pub open spec fn is_zoomed_node_of(n: SceneNode, img: Image, scale_milli: u32) -> bool {
    &&& n matches SceneNode::Transform { transform, child }
    &&& n->Transform_transform == zoom_affine_spec(scale_milli)
    &&& is_node_of(*n->Transform_child, img)
}

impl Image {
    /// Validates, then wraps the pixel buffer with the metadata a GPU
    /// upload needs. Succeeds exactly on valid images; the stride is
    /// `4 * width` (no padding).
    pub fn to_memtexture(&self) -> (r: Result<Texture, RenderError>)
        ensures
            self.is_valid() <==> r is Ok,
            !self.is_valid() ==> r == Err::<Texture, RenderError>(RenderError::InvalidImage),
            r matches Ok(t) ==> is_texture_of(t, *self),
    {
        match self.assert_valid() {
            Ok(()) => {},
            Err(e) => {
                return Err(e);
            },
        }
        let data = self.data.clone();
        proof {
            assert(data@ =~= self.data@) by {
                assert forall|i: int| 0 <= i < self.data@.len() implies data@[i]
                    == self.data@[i] by {
                    assert(vstd::pervasive::cloned::<u8>(self.data@[i], data@[i]));
                }
            }
        }
        Ok(
            Texture {
                data,
                width: self.pixel_width,
                height: self.pixel_height,
                format: self.memory_format.to_texture_format(),
                stride: 4 * (self.pixel_width as u64),
            },
        )
    }

    /// Validates, then builds the image's scene node: a texture node over
    /// the target rectangle's local box, wrapped in a transform node
    /// carrying the rectangle's placement. Succeeds exactly on valid
    /// images.
    pub fn to_rendernode(&self) -> (r: Result<SceneNode, RenderError>)
        ensures
            self.is_valid() <==> r is Ok,
            !self.is_valid() ==> r == Err::<SceneNode, RenderError>(RenderError::InvalidImage),
            r matches Ok(n) ==> is_node_of(n, *self),
    {
        let texture = match self.to_memtexture() {
            Ok(t) => t,
            Err(e) => {
                return Err(e);
            },
        };
        Ok(
            SceneNode::Transform {
                transform: self.rect.transform,
                child: Box::new(
                    SceneNode::Texture {
                        texture,
                        extent_x: self.rect.extent_x,
                        extent_y: self.rect.extent_y,
                    },
                ),
            },
        )
    }

    /// Converts an ordered sequence of images into their scene nodes, in
    /// the same order, short-circuiting on the first invalid image and
    /// discarding partially built output.
    pub fn images_to_rendernodes(images: &Vec<Image>) -> (r: Result<Vec<SceneNode>, RenderError>)
        ensures
            r is Ok <==> (forall|i: int|
                0 <= i < images@.len() ==> (#[trigger] images@[i]).is_valid()),
            r matches Ok(nodes) ==> nodes@.len() == images@.len() && (forall|i: int|
                0 <= i < images@.len() ==> is_node_of(#[trigger] nodes@[i], images@[i])),
            !(forall|i: int| 0 <= i < images@.len() ==> (#[trigger] images@[i]).is_valid()) ==> r
                == Err::<Vec<SceneNode>, RenderError>(RenderError::InvalidImage),
    {
        let mut nodes: Vec<SceneNode> = Vec::new();
        let mut i: usize = 0;
        while i < images.len()
            invariant
                i <= images@.len(),
                nodes@.len() == i,
                forall|k: int| 0 <= k < i ==> (#[trigger] images@[k]).is_valid(),
                forall|k: int| 0 <= k < i ==> is_node_of(#[trigger] nodes@[k], images@[k]),
            decreases images@.len() - i,
        {
            match images[i].to_rendernode() {
                Ok(node) => {
                    nodes.push(node);
                },
                Err(e) => {
                    return Err(e);
                },
            }
            i = i + 1;
        }
        Ok(nodes)
    }
}

/// The empty scene node: a container with no children.
pub fn default_rendernode() -> (r: SceneNode)
    ensures
        r matches SceneNode::Container { children } && children@.len() == 0,
{
    SceneNode::Container { children: Vec::new() }
}

/// Converts images into one container node holding their scene nodes in
/// sequence order (`None` for an empty sequence), short-circuiting on the
/// first invalid image.
pub fn images_to_rendernode(images: &Vec<Image>) -> (r: Result<Option<SceneNode>, RenderError>)
    ensures
        r is Ok <==> (forall|i: int| 0 <= i < images@.len() ==> (#[trigger] images@[i]).is_valid()),
        images@.len() == 0 && r is Ok ==> r == Ok::<Option<SceneNode>, RenderError>(None),
        r matches Ok(Some(n)) ==> n matches SceneNode::Container { children }
            && children@.len() == images@.len() && (forall|i: int|
            0 <= i < images@.len() ==> is_node_of(#[trigger] children@[i], images@[i])),
        images@.len() > 0 && r is Ok ==> r matches Ok(Some(_)),
        r is Err ==> r == Err::<Option<SceneNode>, RenderError>(RenderError::InvalidImage),
{
    if images.len() == 0 {
        return Ok(None);
    }
    match Image::images_to_rendernodes(images) {
        Ok(children) => Ok(Some(SceneNode::Container { children })),
        Err(e) => Err(e),
    }
}

/// Composes an ordered overlay: the base node is painted first, then each
/// image's node, zoomed by `scale_milli` / 1000, in sequence order — later
/// images paint over earlier ones at overlapping regions. Short-circuits
/// on the first invalid image.
pub fn append_images_to_rendernode(base: SceneNode, images: &Vec<Image>, scale_milli: u32) -> (r:
    Result<SceneNode, RenderError>)
    ensures
        r is Ok <==> (forall|i: int| 0 <= i < images@.len() ==> (#[trigger] images@[i]).is_valid()),
        r matches Ok(n) ==> n matches SceneNode::Container { children } && children@.len() == 1
            + images@.len() && children@[0] == base && (forall|i: int|
            0 <= i < images@.len() ==> is_zoomed_node_of(
                #[trigger] children@[i + 1],
                images@[i],
                scale_milli,
            )),
        r is Err ==> r == Err::<SceneNode, RenderError>(RenderError::InvalidImage),
{
    let mut children: Vec<SceneNode> = Vec::new();
    children.push(base);
    let zoom = Affine2 {
        xx: scale_milli as i64,
        yx: 0,
        xy: 0,
        yy: scale_milli as i64,
        tx: Coord::from_subunits(0),
        ty: Coord::from_subunits(0),
    };
    let mut i: usize = 0;
    while i < images.len()
        invariant
            i <= images@.len(),
            children@.len() == 1 + i,
            children@[0] == base,
            zoom == zoom_affine_spec(scale_milli),
            forall|k: int| 0 <= k < i ==> (#[trigger] images@[k]).is_valid(),
            forall|k: int|
                0 <= k < i ==> is_zoomed_node_of(
                    #[trigger] children@[k + 1],
                    images@[k],
                    scale_milli,
                ),
        decreases images@.len() - i,
    {
        match images[i].to_rendernode() {
            Ok(node) => {
                children.push(SceneNode::Transform { transform: zoom, child: Box::new(node) });
            },
            Err(e) => {
                return Err(e);
            },
        }
        i = i + 1;
    }
    Ok(SceneNode::Container { children })
}

/// What the display backend reports for a texture-capture request: the
/// widget has no attached display root (a valid, transient state during
/// initialization — not a failure), or its renderer ran and yielded a
/// texture or nothing.
#[derive(Debug)]
pub enum CaptureOutcome {
    /// The widget is not attached to a display root.
    NotAttached,
    /// The display root's renderer ran over the requested node and
    /// viewport.
    Rendered(Option<Texture>),
}

/// Resolves a texture-capture request from what the display backend
/// reported: "no texture" — not an error — when the widget has no attached
/// display root, otherwise whatever the renderer yielded.
pub fn rendernode_to_texture(outcome: CaptureOutcome) -> (r: Result<Option<Texture>, RenderError>)
    ensures
        r is Ok,
        outcome is NotAttached ==> (r matches Ok(t) && t is None),
        outcome matches CaptureOutcome::Rendered(t) ==> r == Ok::<Option<Texture>, RenderError>(t),
{
    match outcome {
        CaptureOutcome::NotAttached => Ok(None),
        CaptureOutcome::Rendered(texture) => Ok(texture),
    }
}

} // verus!
