//! Trusted boundary to the image codecs of the `image` crate: decoding
//! auto-detects the container by content sniffing, encoding writes the
//! caller-chosen container. Both work on in-memory buffers only.

use vstd::prelude::*;

verus! {

/// An image container format that a raster image can be encoded into.
#[derive(Debug, Clone, Copy, PartialEq, Eq, Structural)]
pub enum EncodedImageFormat {
    /// Portable Network Graphics: lossless.
    Png,
    /// JPEG: lossy, and without an alpha channel.
    Jpeg,
}

/// What decoding a byte buffer yields: the pixel width, height and RGBA8
/// pixel data of the image the bytes encode, or nothing when the bytes are
/// not a decodable image. Decoding is a function of the bytes alone.
pub uninterp spec fn decoded_rgba8(bytes: Seq<u8>) -> Option<(u32, u32, Seq<u8>)>;

/// What encoding pixel data into a container format yields, or nothing
/// when the codec rejects the request. Encoding is a function of the
/// format and the pixel data alone.
pub uninterp spec fn encoded_image(
    format: EncodedImageFormat,
    width: u32,
    height: u32,
    data: Seq<u8>,
) -> Option<Seq<u8>>;

/// Relies on `image::load_from_memory` (container sniffing and decode) and
/// `image::DynamicImage::into_rgba8` (conversion to 8-bit RGBA, 4 bytes
/// per pixel, row-major).
#[verifier::external_body]
pub(crate) fn decode_rgba8(bytes: &[u8]) -> (r: Result<(u32, u32, Vec<u8>), String>)
    ensures
        r matches Ok(t) ==> decoded_rgba8(bytes@) == Some((t.0, t.1, t.2@)) && t.2@.len() == 4
            * t.0 * t.1,
        r is Err ==> decoded_rgba8(bytes@) is None,
{
    match image::load_from_memory(bytes) {
        Ok(img) => {
            let rgba = img.into_rgba8();
            let width = rgba.width();
            let height = rgba.height();
            Ok((width, height, rgba.into_raw()))
        },
        Err(e) => Err(format!("{e}")),
    }
}

/// Relies on `image::write_buffer_with_format`: encodes an RGBA8 buffer
/// of the given dimensions into the chosen container format. The encoders
/// assert the buffer length before anything else, so a mismatched buffer
/// is kept out.
#[verifier::external_body]
pub(crate) fn encode_rgba8(
    format: EncodedImageFormat,
    width: u32,
    height: u32,
    data: &Vec<u8>,
) -> (r: Result<Vec<u8>, String>)
    requires
        data@.len() == 4 * width * height,
    ensures
        r matches Ok(v) ==> encoded_image(format, width, height, data@) == Some(v@),
        r is Err ==> encoded_image(format, width, height, data@) is None,
{
    let fmt = match format {
        EncodedImageFormat::Png => image::ImageFormat::Png,
        EncodedImageFormat::Jpeg => image::ImageFormat::Jpeg,
    };
    let mut cursor = std::io::Cursor::new(Vec::new());
    let color = image::ExtendedColorType::Rgba8;
    image::write_buffer_with_format(&mut cursor, data.as_slice(), width, height, color, fmt).map(
        |_| cursor.into_inner(),
    ).map_err(|e| format!("{e}"))
}

} // verus!
