//! In-memory pixel layouts and channel-order conversions.
//!
//! The canonical layout is 8-bit RGBA with premultiplied alpha. The CPU
//! drawing surface renders premultiplied BGRA, so every surface capture is
//! followed by the byte-order swap defined here: within each 4-byte pixel
//! group, bytes 0 and 2 are exchanged and bytes 1 and 3 are kept.

use vstd::prelude::*;

use crate::error::RenderError;

verus! {

/// Supported in-memory pixel layouts of a raster image.
#[derive(Debug, Clone, Copy, PartialEq, Eq, Structural)]
#[non_exhaustive]
pub enum ImageMemoryFormat {
    /// 8 bits per channel, byte order R,G,B,A, alpha-premultiplied colors.
    R8g8b8a8Premultiplied,
}

/// Pixel layout of the CPU drawing surface.
#[derive(Debug, Clone, Copy, PartialEq, Eq, Structural)]
pub enum SurfaceMemoryFormat {
    /// 8 bits per channel, byte order B,G,R,A, alpha-premultiplied colors.
    B8g8r8a8Premultiplied,
}

/// Pixel layout of a GPU texture, as the display backend enumerates them.
#[derive(Debug, Clone, Copy, PartialEq, Eq, Structural)]
pub enum TextureMemoryFormat {
    /// 8 bits per channel, byte order R,G,B,A, alpha-premultiplied colors.
    R8g8b8a8Premultiplied,
    /// 8 bits per channel, byte order B,G,R,A, alpha-premultiplied colors.
    B8g8r8a8Premultiplied,
    /// 8 bits per channel, byte order R,G,B,A, straight (non-premultiplied)
    /// alpha.
    R8g8b8a8,
}

/// Pixel layout of the codec-neutral intermediate representation used for
/// encoding.
#[derive(Debug, Clone, Copy, PartialEq, Eq, Structural)]
pub enum CodecPixelFormat {
    /// RGBA with premultiplied alpha.
    RgbaPremultiplied,
}

impl ImageMemoryFormat {
    /// The drawing-surface layout that a buffer in this format is captured
    /// from. Total: every canonical layout has a surface counterpart.
    pub fn to_drawing_surface_format(self) -> (r: SurfaceMemoryFormat)
        ensures
            self is R8g8b8a8Premultiplied ==> r is B8g8r8a8Premultiplied,
    {
        match self {
            ImageMemoryFormat::R8g8b8a8Premultiplied => {
                SurfaceMemoryFormat::B8g8r8a8Premultiplied
            },
        }
    }

    /// The GPU-texture layout of a buffer in this format. Total: the
    /// texture format set contains every canonical layout.
    pub fn to_texture_format(self) -> (r: TextureMemoryFormat)
        ensures
            self is R8g8b8a8Premultiplied ==> r is R8g8b8a8Premultiplied,
    {
        match self {
            ImageMemoryFormat::R8g8b8a8Premultiplied => {
                TextureMemoryFormat::R8g8b8a8Premultiplied
            },
        }
    }

    /// The codec-neutral layout of a buffer in this format. Total: the
    /// codec format set contains every canonical layout.
    pub fn to_image_codec_format(self) -> (r: CodecPixelFormat)
        ensures
            self is R8g8b8a8Premultiplied ==> r is RgbaPremultiplied,
    {
        match self {
            ImageMemoryFormat::R8g8b8a8Premultiplied => CodecPixelFormat::RgbaPremultiplied,
        }
    }

    /// Constructs the canonical format tag from an arbitrary texture
    /// format. Fails exactly on the layouts that the canonical set does
    /// not support.
    pub fn try_from_texture_format(value: TextureMemoryFormat) -> (r: Result<
        ImageMemoryFormat,
        RenderError,
    >)
        ensures
            value is R8g8b8a8Premultiplied <==> r == Ok::<ImageMemoryFormat, RenderError>(
                ImageMemoryFormat::R8g8b8a8Premultiplied,
            ),
            !(value is R8g8b8a8Premultiplied) <==> r == Err::<ImageMemoryFormat, RenderError>(
                RenderError::UnsupportedFormat,
            ),
    {
        match value {
            TextureMemoryFormat::R8g8b8a8Premultiplied => Ok(
                ImageMemoryFormat::R8g8b8a8Premultiplied,
            ),
            _ => Err(RenderError::UnsupportedFormat),
        }
    }
}

impl Default for ImageMemoryFormat {
    fn default() -> (r: Self)
        ensures
            r is R8g8b8a8Premultiplied,
    {
        ImageMemoryFormat::R8g8b8a8Premultiplied
    }
}

/// The byte at index `i` after the surface-to-canonical byte-order swap:
/// within each complete 4-byte pixel group, bytes 0 and 2 change places and
/// bytes 1 and 3 stay. A trailing incomplete group is left unchanged.
pub open spec fn swapped_byte(s: Seq<u8>, i: int) -> u8 {
    if i - (i % 4) + 4 <= s.len() {
        if i % 4 == 0 {
            s[i + 2]
        } else if i % 4 == 2 {
            s[i - 2]
        } else {
            s[i]
        }
    } else {
        s[i]
    }
}

/// The whole buffer after the surface-to-canonical byte-order swap.
pub open spec fn surface_swapped(s: Seq<u8>) -> Seq<u8> {
    Seq::new(s.len(), |i: int| swapped_byte(s, i))
}

/// The byte-order swap is its own inverse: applying it twice to any buffer
/// whose length is divisible by 4 yields the original buffer.
pub proof fn lemma_surface_swap_involution(s: Seq<u8>)
    requires
        s.len() % 4 == 0,
    ensures
        surface_swapped(surface_swapped(s)) == s,
{
    let t = surface_swapped(s);
    assert forall|i: int| 0 <= i < s.len() implies surface_swapped(t)[i] == s[i] by {
        assert(t.len() == s.len());
    }
    assert(surface_swapped(surface_swapped(s)) =~= s);
}

/// Converts a captured drawing-surface buffer (premultiplied B,G,R,A) to
/// the canonical layout (premultiplied R,G,B,A) by swapping bytes 0 and 2
/// of each complete 4-byte pixel group. The same transform maps the
/// canonical layout back to the surface layout.
pub fn convert_image_bgra_to_rgba(bytes: Vec<u8>) -> (r: Vec<u8>)
    ensures
        r@ == surface_swapped(bytes@),
{
    let ghost orig: Seq<u8> = bytes@;
    let mut b = bytes;
    let mut i: usize = 0;
    while b.len() - i >= 4
        invariant
            i % 4 == 0,
            i <= b.len(),
            b@.len() == orig.len(),
            forall|j: int| 0 <= j < i ==> b@[j] == swapped_byte(orig, j),
            forall|j: int| i <= j < orig.len() ==> b@[j] == orig[j],
        decreases b.len() - i,
    {
        let blue = b[i];
        let red = b[i + 2];
        b.set(i, red);
        b.set(i + 2, blue);
        i = i + 4;
    }
    assert forall|j: int| 0 <= j < orig.len() implies b@[j] == swapped_byte(orig, j) by {
        if j >= i {
            assert(j - (j % 4) >= i);
        }
    }
    assert(b@ =~= surface_swapped(orig));
    b
}

} // verus!
