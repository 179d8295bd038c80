//! GPU-side images: colour textures decoded from encoded bytes, and the
//! depth texture synthesized at the surface's size.
//!
//! A texture owns its view and sampler settings as one unit.  The GPU
//! handles themselves are the caller's; the core owns the descriptor
//! values — dimensions, format, sampler configuration and the upload
//! layout — and the guarantee that a depth texture always matches the
//! surface configuration it was made for.

use crate::surface::SurfaceConfig;
use vstd::prelude::*;

verus! {

/// Texture pixel formats this core creates.
#[derive(Clone, Copy, Debug, PartialEq, Eq, Structural)]
pub enum TextureFormat {
    Rgba8UnormSrgb,
    Depth32Float,
}

/// Sampler filtering modes.
#[derive(Clone, Copy, Debug, PartialEq, Eq, Structural)]
pub enum FilterMode {
    Nearest,
    Linear,
}

/// Depth/sampler comparison functions.
#[derive(Clone, Copy, Debug, PartialEq, Eq, Structural)]
pub enum CompareFunction {
    Less,
    LessEqual,
}

/// Sampler settings (all address modes are clamp-to-edge in this core).
#[derive(Clone, Copy, Debug, PartialEq, Eq, Structural)]
pub struct SamplerDesc {
    pub mag_filter: FilterMode,
    pub min_filter: FilterMode,
    pub mipmap_filter: FilterMode,
    pub compare: Option<CompareFunction>,
}

/// A texture: dimensions, format and sampler settings, owned as one
/// unit and never individually swapped.
#[derive(Clone, Copy, Debug, PartialEq, Eq, Structural)]
pub struct Texture {
    pub width: u32,
    pub height: u32,
    pub format: TextureFormat,
    pub sampler: SamplerDesc,
}

/// Decoded RGBA pixels: four bytes per pixel, row-major.
#[derive(Debug)]
pub struct RgbaPixels {
    pub width: u32,
    pub height: u32,
    pub data: Vec<u8>,
}

impl RgbaPixels {
    /// The buffer holds exactly four bytes per pixel.
    pub open spec fn wf(&self) -> bool {
        self.data@.len() == 4 * self.width * self.height
    }
}

/// What the image decoder yields for an encoded byte stream: `None`
/// where the stream is rejected, otherwise the pixel dimensions and the
/// decoded RGBA bytes.  Decoding is a pure function of the bytes.
pub uninterp spec fn decoded_rgba(bytes: Seq<u8>) -> Option<(u32, u32, Seq<u8>)>;

/// Relies on image::load_from_memory and image::DynamicImage::to_rgba8:
/// the decode result is a function of the encoded bytes alone, and the
/// RGBA buffer holds exactly four bytes for each of width * height
/// pixels.
#[verifier::external_body]
fn decode_rgba_bytes(bytes: &Vec<u8>) -> (r: Option<RgbaPixels>)
    ensures
        match r {
            Some(p) => decoded_rgba(bytes@) == Some((p.width, p.height, p.data@)) && p.data@.len()
                == 4 * p.width * p.height,
            None => decoded_rgba(bytes@) is None,
        },
{
    match image::load_from_memory(bytes.as_slice()) {
        Ok(img) => {
            let rgba = img.to_rgba8();
            let (width, height) = rgba.dimensions();
            Some(RgbaPixels { width, height, data: rgba.into_raw() })
        },
        Err(_) => None,
    }
}

/// Loading a texture fails only where the image bytes cannot be decoded.
#[derive(Clone, Copy, Debug, PartialEq, Eq, Structural)]
pub enum TextureError {
    DecodeFailed,
}

/// The depth texture for a surface configuration: same dimensions as the
/// surface, depth format, and a comparison sampler.
pub open spec fn depth_texture_for(config: SurfaceConfig) -> Texture {
    Texture {
        width: config.width,
        height: config.height,
        format: TextureFormat::Depth32Float,
        sampler: SamplerDesc {
            mag_filter: FilterMode::Linear,
            min_filter: FilterMode::Linear,
            mipmap_filter: FilterMode::Nearest,
            compare: Some(CompareFunction::LessEqual),
        },
    }
}

/// A colour texture for decoded pixels of the given size.
pub open spec fn color_texture_for(width: u32, height: u32) -> Texture {
    Texture {
        width,
        height,
        format: TextureFormat::Rgba8UnormSrgb,
        sampler: SamplerDesc {
            mag_filter: FilterMode::Linear,
            min_filter: FilterMode::Nearest,
            mipmap_filter: FilterMode::Nearest,
            compare: None,
        },
    }
}

/// The layout of a texture upload: tightly packed rows of RGBA pixels.
#[derive(Clone, Copy, Debug, PartialEq, Eq, Structural)]
pub struct UploadLayout {
    pub offset: u64,
    pub bytes_per_row: u32,
    pub rows_per_image: u32,
}

impl Texture {
    /// The format of every depth texture.
    pub fn depth_format() -> (f: TextureFormat)
        ensures
            f == TextureFormat::Depth32Float,
    {
        TextureFormat::Depth32Float
    }

    /// A depth texture dimensioned to the surface's current
    /// configuration; it must be rebuilt on every resize to stay
    /// consistent with the swapchain.
    pub fn create_depth_texture(config: &SurfaceConfig) -> (t: Texture)
        ensures
            t == depth_texture_for(*config),
    {
        Texture {
            width: config.width,
            height: config.height,
            format: TextureFormat::Depth32Float,
            sampler: SamplerDesc {
                mag_filter: FilterMode::Linear,
                min_filter: FilterMode::Linear,
                mipmap_filter: FilterMode::Nearest,
                compare: Some(CompareFunction::LessEqual),
            },
        }
    }

    /// A colour texture for already-decoded pixels.
    pub fn from_image(img: &RgbaPixels) -> (t: Texture)
        ensures
            t == color_texture_for(img.width, img.height),
    {
        Texture {
            width: img.width,
            height: img.height,
            format: TextureFormat::Rgba8UnormSrgb,
            sampler: SamplerDesc {
                mag_filter: FilterMode::Linear,
                min_filter: FilterMode::Nearest,
                mipmap_filter: FilterMode::Nearest,
                compare: None,
            },
        }
    }

    /// Decodes encoded image bytes and builds the colour texture for
    /// them.  Succeeds exactly where the decoder accepts the bytes.
    pub fn from_bytes(bytes: &Vec<u8>) -> (r: Result<(Texture, RgbaPixels), TextureError>)
        ensures
            match r {
                Ok((t, p)) => decoded_rgba(bytes@) == Some((p.width, p.height, p.data@)) && p.wf()
                    && t == color_texture_for(p.width, p.height),
                Err(e) => e == TextureError::DecodeFailed && decoded_rgba(bytes@) is None,
            },
    {
        match decode_rgba_bytes(bytes) {
            Some(pixels) => {
                let texture = Texture::from_image(&pixels);
                Ok((texture, pixels))
            },
            None => Err(TextureError::DecodeFailed),
        }
    }
}

/// The upload layout for a pixel buffer: zero offset, tightly packed
/// rows of four-byte pixels.
pub fn upload_layout(img: &RgbaPixels) -> (l: UploadLayout)
    requires
        img.width <= 0x3FFF_FFFF,
    ensures
        l.offset == 0,
        l.bytes_per_row == 4 * img.width,
        l.rows_per_image == img.height,
{
    UploadLayout { offset: 0, bytes_per_row: 4 * img.width, rows_per_image: img.height }
}

} // verus!
