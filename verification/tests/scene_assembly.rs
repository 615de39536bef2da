//! Scene assembly: texture wrapping, node trees, composition order and
//! off-screen texture capture.

use render_pipeline::error::RenderError;
use render_pipeline::geom::Aabb;
use render_pipeline::pixel::ImageMemoryFormat;
use render_pipeline::pixel::TextureMemoryFormat;
use render_pipeline::raster::Image;
use render_pipeline::raster::TargetRect;
use render_pipeline::scene::CaptureOutcome;
use render_pipeline::scene::SceneNode;
use render_pipeline::scene::Texture;
use render_pipeline::scene::append_images_to_rendernode;
use render_pipeline::scene::default_rendernode;
use render_pipeline::scene::images_to_rendernode;
use render_pipeline::scene::rendernode_to_texture;

fn sample_image(width: u32, height: u32, fill: u8) -> Image {
    let bounds = Aabb::from_units(0, 0, width as i64, height as i64);
    Image {
        data: vec![fill; (4 * width * height) as usize],
        rect: TargetRect::from_aabb(&bounds),
        pixel_width: width,
        pixel_height: height,
        memory_format: ImageMemoryFormat::R8g8b8a8Premultiplied,
    }
}

#[test]
fn memtexture_wraps_the_buffer_with_unpadded_stride() {
    let image = sample_image(3, 2, 9);
    let texture = image.to_memtexture().unwrap();
    assert_eq!(texture.data, image.data);
    assert_eq!(texture.width, 3);
    assert_eq!(texture.height, 2);
    assert_eq!(texture.stride, 12);
    assert!(matches!(
        texture.format,
        TextureMemoryFormat::R8g8b8a8Premultiplied
    ));
}

#[test]
fn memtexture_of_an_invalid_image_fails() {
    let r = Image::default().to_memtexture();
    assert!(matches!(r, Err(RenderError::InvalidImage)));
}

#[test]
fn rendernode_is_a_transform_wrapping_a_texture() {
    let image = sample_image(2, 2, 7);
    let node = image.to_rendernode().unwrap();
    match node {
        SceneNode::Transform { transform, child } => {
            assert_eq!(transform, image.rect.transform);
            match *child {
                SceneNode::Texture {
                    texture,
                    extent_x,
                    extent_y,
                } => {
                    assert_eq!(texture.data, image.data);
                    assert_eq!(extent_x, image.rect.extent_x);
                    assert_eq!(extent_y, image.rect.extent_y);
                }
                _ => panic!("expected a texture leaf"),
            }
        }
        _ => panic!("expected a transform node"),
    }
}

#[test]
fn batch_conversion_keeps_order_and_short_circuits() {
    let images = vec![sample_image(1, 1, 1), sample_image(1, 1, 2)];
    let nodes = Image::images_to_rendernodes(&images).unwrap();
    assert_eq!(nodes.len(), 2);
    let with_invalid = vec![sample_image(1, 1, 1), Image::default()];
    let r = Image::images_to_rendernodes(&with_invalid);
    assert!(matches!(r, Err(RenderError::InvalidImage)));
}

#[test]
fn images_to_rendernode_of_nothing_is_none() {
    let r = images_to_rendernode(&Vec::new()).unwrap();
    assert!(r.is_none());
    let some = images_to_rendernode(&vec![sample_image(1, 1, 3)]).unwrap();
    assert!(some.is_some());
}

fn leaf_fill(node: &SceneNode) -> u8 {
    match node {
        SceneNode::Texture { texture, .. } => texture.data[0],
        SceneNode::Transform { child, .. } => leaf_fill(child),
        SceneNode::Container { .. } => panic!("expected a single-leaf subtree"),
    }
}

#[test]
fn composition_paints_the_base_first_and_images_in_order() {
    let first = sample_image(2, 2, 10);
    let second = sample_image(2, 2, 20);
    let composed =
        append_images_to_rendernode(default_rendernode(), &vec![first, second], 1000).unwrap();
    match composed {
        SceneNode::Container { children } => {
            assert_eq!(children.len(), 3);
            assert!(matches!(&children[0], SceneNode::Container { children } if children.is_empty()));
            // Later children paint over earlier ones: the second image's
            // node comes after the first image's node.
            assert_eq!(leaf_fill(&children[1]), 10);
            assert_eq!(leaf_fill(&children[2]), 20);
        }
        _ => panic!("expected a container"),
    }
}

#[test]
fn composition_with_an_invalid_image_fails() {
    let r = append_images_to_rendernode(default_rendernode(), &vec![Image::default()], 1000);
    assert!(matches!(r, Err(RenderError::InvalidImage)));
}

#[test]
fn capture_without_a_display_root_yields_no_texture_and_no_error() {
    let r = rendernode_to_texture(CaptureOutcome::NotAttached);
    assert!(matches!(r, Ok(None)));
}

#[test]
fn capture_passes_the_renderer_outcome_through() {
    let texture = Texture {
        data: vec![1, 2, 3, 4],
        width: 1,
        height: 1,
        format: TextureMemoryFormat::R8g8b8a8Premultiplied,
        stride: 4,
    };
    let rendered = rendernode_to_texture(CaptureOutcome::Rendered(Some(texture))).unwrap();
    assert!(rendered.is_some());
    assert_eq!(rendered.unwrap().data, vec![1, 2, 3, 4]);
    let empty = rendernode_to_texture(CaptureOutcome::Rendered(None)).unwrap();
    assert!(empty.is_none());
}
