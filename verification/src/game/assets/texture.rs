//! Image assets and their GPU-resident counterpart.

use vstd::prelude::*;
use crate::gl::{bump, GraphicsContext, RenderCommandView, TextureId};
use crate::math::color::Color;
use crate::math::point::Pt2i;
use super::{Asset, AssetError, AssetErrorKind, GlAsset};

verus! {

/// A decoded image: RGBA pixel data with its dimensions. Immutable once
/// created.
pub struct Image {
    pub width: u32,
    pub height: u32,
    pub bytes: Vec<u8>,
}

/// The channel of a color that byte `k` of a pixel holds: red, green,
/// blue, then alpha.
pub open spec fn channel_of(c: Color, k: int) -> u8 {
    if k == 0 {
        c.r
    } else if k == 1 {
        c.g
    } else if k == 2 {
        c.b
    } else {
        c.a
    }
}

/// Whether the image codec accepts the given bytes.
pub uninterp spec fn decode_ok(data: Seq<u8>) -> bool;

/// The pixel width of the image decoded from the given bytes.
pub uninterp spec fn decode_width(data: Seq<u8>) -> u32;

/// The pixel height of the image decoded from the given bytes.
pub uninterp spec fn decode_height(data: Seq<u8>) -> u32;

/// The RGBA pixel bytes of the image decoded from the given bytes.
pub uninterp spec fn decode_pixels(data: Seq<u8>) -> Seq<u8>;

/// Relies on `image::load_from_memory` (with
/// `DynamicImage::into_rgba8` and `ImageBuffer::{width, height,
/// into_raw}`): decoding works on the in-memory bytes alone, so the
/// result is a function of them, and the RGBA8 buffer it hands back
/// holds exactly `width * height * 4` bytes.
#[verifier::external_body]
fn decode_rgba(data: &Vec<u8>) -> (r: Option<(u32, u32, Vec<u8>)>)
    ensures
        r is Some <==> decode_ok(data@),
        r matches Some(t) ==> {
            &&& t.0 == decode_width(data@)
            &&& t.1 == decode_height(data@)
            &&& t.2@ == decode_pixels(data@)
            &&& t.2@.len() == 4 * (t.0 as int) * (t.1 as int)
        },
{
    match image::load_from_memory(data.as_slice()) {
        Ok(decoded) => {
            let buffer = decoded.into_rgba8();
            let width = buffer.width();
            let height = buffer.height();
            Some((width, height, buffer.into_raw()))
        },
        Err(_) => None,
    }
}

impl Image {
    /// A solid-color image of the given size.
    pub fn from_color(width: u32, height: u32, color: Color) -> (r: Self)
        requires
            4 * width * height <= usize::MAX,
        ensures
            r.width == width,
            r.height == height,
            r.bytes@.len() == 4 * width * height,
            forall|b: int| #![trigger r.bytes@[b]]
                0 <= b < r.bytes@.len() ==> r.bytes@[b] == channel_of(color, b % 4),
    {
        proof {
            assert((width as int) * (height as int) <= usize::MAX
                && 4 * ((width as int) * (height as int)) == 4 * (width as int) * (height as int))
                by (nonlinear_arith)
                requires
                    4 * (width as int) * (height as int) <= usize::MAX,
                    width >= 0,
                    height >= 0,
            ;
        }
        let count: usize = (width as usize) * (height as usize);
        let mut bytes: Vec<u8> = Vec::new();
        let mut p: usize = 0;
        while p < count
            invariant
                count == width * height,
                4 * count <= usize::MAX,
                p <= count,
                bytes@.len() == 4 * p,
                forall|b: int| #![trigger bytes@[b]]
                    0 <= b < bytes@.len() ==> bytes@[b] == channel_of(color, b % 4),
            decreases count - p,
        {
            bytes.push(color.r);
            bytes.push(color.g);
            bytes.push(color.b);
            bytes.push(color.a);
            proof {
                let n = 4 * (p as int);
                assert(n % 4 == 0 && (n + 1) % 4 == 1 && (n + 2) % 4 == 2 && (n + 3) % 4 == 3)
                    by (nonlinear_arith)
                    requires
                        n == 4 * (p as int),
                        p >= 0,
                ;
            }
            p = p + 1;
        }
        Image { width, height, bytes }
    }

    /// Size in pixels of the image.
    pub fn size(&self) -> (r: Pt2i)
        ensures
            r.x == self.width as i32,
            r.y == self.height as i32,
    {
        Pt2i {
            x: #[verifier::truncate] (self.width as i32),
            y: #[verifier::truncate] (self.height as i32),
        }
    }
}

impl Asset for Image {
    open spec fn decodes(data: Seq<u8>) -> bool {
        decode_ok(data)
    }

    open spec fn decoded_as(data: Seq<u8>, v: Image) -> bool {
        &&& v.width == decode_width(data)
        &&& v.height == decode_height(data)
        &&& v.bytes@ == decode_pixels(data)
        &&& v.bytes@.len() == 4 * v.width * v.height
    }

    open spec fn label() -> Seq<char> {
        "Image"@
    }

    fn load(data: &Vec<u8>, path: &str) -> (r: Result<Self, AssetError>) {
        match decode_rgba(data) {
            Some((width, height, bytes)) => Ok(Image { width, height, bytes }),
            None => Err(AssetError::decode(path, "Image")),
        }
    }
}

/// An image together with the handle of its GPU-side texture.
pub struct Texture {
    pub image: Image,
    pub gl_texture: TextureId,
}

impl GlAsset for Texture {
    open spec fn decodes(data: Seq<u8>) -> bool {
        decode_ok(data)
    }

    /// The texture holds the image decoded from the bytes, under the
    /// handle that was fresh before the load, and the load's only device
    /// work is recording exactly that image's upload.
    open spec fn decoded_as(
        data: Seq<u8>,
        v: Texture,
        old_gl: GraphicsContext,
        new_gl: GraphicsContext,
    ) -> bool {
        &&& Image::decoded_as(data, v.image)
        &&& v.gl_texture == TextureId(old_gl.next_texture)
        &&& new_gl.next_texture == bump(old_gl.next_texture)
        &&& new_gl.log() == old_gl.log().push(
            RenderCommandView::CreateTexture {
                texture: v.gl_texture,
                width: v.image.width,
                height: v.image.height,
                bytes: v.image.bytes@,
            },
        )
    }

    open spec fn label() -> Seq<char> {
        "Texture"@
    }

    /// Decode the image, then upload it under a fresh texture handle,
    /// recording exactly that upload.
    fn load(data: &Vec<u8>, path: &str, gl: &mut GraphicsContext) -> (r:
        Result<Self, AssetError>) {
        match decode_rgba(data) {
            Some((width, height, bytes)) => {
                let image = Image { width, height, bytes };
                let gl_texture = gl.create_texture(&image);
                Ok(Texture { image, gl_texture })
            },
            None => Err(AssetError::decode(path, "Texture")),
        }
    }
}

} // verus!
