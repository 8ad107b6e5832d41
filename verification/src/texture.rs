//! The diffuse texture: decoding the embedded PNG, validating its
//! dimensions, and the upload plan (texture descriptor, write layout,
//! sampler, and the bind group exposing both to the fragment stage).

use vstd::prelude::*;
use crate::swapchain::{TextureFormat, TextureUsage, USAGE_COPY_DST, USAGE_SAMPLED};

verus! {

/// What the image decoder yields for a given byte string: the RGBA8 pixel
/// buffer in row-major order and the image's width and height, or nothing
/// when the bytes are not a decodable image. Decoding is a function of the
/// bytes alone.
pub uninterp spec fn rgba_of(data: Seq<u8>) -> Option<(Seq<u8>, u32, u32)>;

/// Relies on image::load_from_memory and image::DynamicImage::to_rgba8:
/// guesses the format, decodes, and converts the result to a tightly packed
/// RGBA8 buffer with its dimensions. The result depends on the bytes alone.
#[verifier::external_body]
fn decode_rgba(data: &[u8]) -> (r: Option<(Vec<u8>, u32, u32)>)
    ensures
        r is Some <==> rgba_of(data@) is Some,
        r matches Some(t) ==> rgba_of(data@) == Some((t.0@, t.1, t.2)),
{
    match image::load_from_memory(data) {
        Ok(img) => {
            let rgba = img.to_rgba8();
            let (w, h) = rgba.dimensions();
            Some((rgba.into_raw(), w, h))
        }
        Err(_) => None,
    }
}

/// Why preparing the diffuse texture failed.
#[derive(Clone, Copy, Debug, PartialEq, Eq, Structural)]
pub enum TextureError {
    /// The bytes are not a decodable image, or the decoded buffer is not
    /// the tightly packed `4 * width * height` bytes the upload expects.
    Decode,
    /// The decoded image has a zero width or height.
    ZeroDimension,
    /// A row of the decoded image does not fit the 32-bit row stride.
    TooLarge,
}

/// A texture extent; two-dimensional textures have depth 1.
#[derive(Clone, Copy, Debug, PartialEq, Eq, Structural)]
pub struct Extent3d {
    pub width: u32,
    pub height: u32,
    pub depth_or_array_layers: u32,
}

/// Dimensionality of a texture.
#[derive(Clone, Copy, Debug, PartialEq, Eq, Structural)]
pub enum TextureDimension {
    D1,
    D2,
    D3,
}

/// The allocation parameters of a texture.
#[derive(Clone, Copy, Debug, PartialEq, Eq, Structural)]
pub struct TextureDescriptor {
    pub size: Extent3d,
    pub mip_level_count: u32,
    pub sample_count: u32,
    pub dimension: TextureDimension,
    pub format: TextureFormat,
    pub usage: TextureUsage,
}

/// The memory layout of a texture write's source buffer.
#[derive(Clone, Copy, Debug, PartialEq, Eq, Structural)]
pub struct ImageDataLayout {
    pub offset: u64,
    pub bytes_per_row: Option<u32>,
    pub rows_per_image: Option<u32>,
}

/// How a sampler treats coordinates outside the texture.
#[derive(Clone, Copy, Debug, PartialEq, Eq, Structural)]
pub enum AddressMode {
    ClampToEdge,
    Repeat,
    MirrorRepeat,
}

/// A sampling filter.
#[derive(Clone, Copy, Debug, PartialEq, Eq, Structural)]
pub enum FilterMode {
    Nearest,
    Linear,
}

/// The parameters of a sampler.
#[derive(Clone, Copy, Debug, PartialEq, Eq, Structural)]
pub struct SamplerDescriptor {
    pub address_mode_u: AddressMode,
    pub address_mode_v: AddressMode,
    pub address_mode_w: AddressMode,
    pub mag_filter: FilterMode,
    pub min_filter: FilterMode,
    pub mipmap_filter: FilterMode,
}

/// Shader stage bit: visible to the vertex stage.
pub const STAGE_VERTEX: u32 = 0b001;
/// Shader stage bit: visible to the fragment stage.
pub const STAGE_FRAGMENT: u32 = 0b010;

/// Dimensionality of a texture view binding.
#[derive(Clone, Copy, Debug, PartialEq, Eq, Structural)]
pub enum TextureViewDimension {
    D1,
    D2,
    D3,
    Cube,
}

/// What one bind-group slot binds.
#[derive(Clone, Copy, Debug, PartialEq, Eq, Structural)]
pub enum BindingType {
    /// A sampled float texture.
    Texture { multisampled: bool, view_dimension: TextureViewDimension, filterable: bool },
    /// A sampler.
    Sampler { comparison: bool, filtering: bool },
}

/// One entry of a bind-group layout.
#[derive(Clone, Copy, Debug, PartialEq, Eq, Structural)]
pub struct BindGroupLayoutEntry {
    pub binding: u32,
    pub visibility: u32,
    pub ty: BindingType,
}

/// Which concrete resource a bind-group entry supplies.
#[derive(Clone, Copy, Debug, PartialEq, Eq, Structural)]
pub enum BindingResource {
    /// The diffuse texture's default view.
    DiffuseTextureView,
    /// The diffuse sampler.
    DiffuseSampler,
}

/// One entry of the instantiated bind group.
#[derive(Clone, Copy, Debug, PartialEq, Eq, Structural)]
pub struct BindGroupEntry {
    pub binding: u32,
    pub resource: BindingResource,
}

/// Everything the GPU upload of the diffuse texture needs: the allocation
/// descriptor, the decoded pixels, and the write layout of that buffer.
#[derive(Clone, Debug)]
pub struct TexturePlan {
    pub descriptor: TextureDescriptor,
    pub pixels: Vec<u8>,
    pub layout: ImageDataLayout,
}

/// A decoded image the upload can use: non-zero dimensions, a row stride
/// that fits 32 bits, and a tightly packed buffer of exactly
/// `4 * width * height` bytes.
pub open spec fn usable_rgba(pixels: Seq<u8>, width: u32, height: u32) -> bool {
    &&& width > 0
    &&& height > 0
    &&& 4 * width <= u32::MAX
    &&& pixels.len() == 4 * width * height
}

/// The descriptor of the diffuse texture for a given extent: 2D, RGBA8-sRGB,
/// one mip level, one sample, sampled and copy-destination usage.
pub open spec fn diffuse_descriptor(width: u32, height: u32) -> TextureDescriptor {
    TextureDescriptor {
        size: Extent3d { width, height, depth_or_array_layers: 1 },
        mip_level_count: 1,
        sample_count: 1,
        dimension: TextureDimension::D2,
        format: TextureFormat::Rgba8UnormSrgb,
        usage: TextureUsage { bits: USAGE_SAMPLED | USAGE_COPY_DST },
    }
}

/// Decodes the diffuse image and builds its upload plan.
///
/// Fails exactly when the bytes do not decode, the decoded image has a zero
/// dimension, a row does not fit the 32-bit stride, or the decoded buffer is
/// not tightly packed.
pub fn prepare_texture(data: &[u8]) -> (r: Result<TexturePlan, TextureError>)
    ensures
        rgba_of(data@) is None ==> r == Err::<TexturePlan, TextureError>(TextureError::Decode),
        rgba_of(data@) matches Some(t) ==> {
            let (pixels, width, height) = t;
            &&& (width == 0 || height == 0) ==> r == Err::<TexturePlan, TextureError>(
                TextureError::ZeroDimension,
            )
            &&& (width > 0 && height > 0 && 4 * width > u32::MAX) ==> r == Err::<
                TexturePlan,
                TextureError,
            >(TextureError::TooLarge)
            &&& (width > 0 && height > 0 && 4 * width <= u32::MAX && pixels.len() != 4 * width
                * height) ==> r == Err::<TexturePlan, TextureError>(TextureError::Decode)
            &&& usable_rgba(pixels, width, height) ==> {
                &&& r is Ok
                &&& r->Ok_0.descriptor == diffuse_descriptor(width, height)
                &&& r->Ok_0.pixels@ == pixels
                &&& r->Ok_0.layout == (ImageDataLayout {
                    offset: 0,
                    bytes_per_row: Some((4 * width) as u32),
                    rows_per_image: Some(height),
                })
            }
        },
{
    let decoded = decode_rgba(data);
    match decoded {
        None => Err(TextureError::Decode),
        Some((pixels, width, height)) => {
            if width == 0 || height == 0 {
                return Err(TextureError::ZeroDimension);
            }
            if width > u32::MAX / 4 {
                return Err(TextureError::TooLarge);
            }
            let bytes_per_row: u32 = 4 * width;
            proof {
                assert((bytes_per_row as int) * (height as int) < 0x1_0000_0000_0000_0000)
                    by (nonlinear_arith)
                    requires
                        bytes_per_row <= 0xffff_ffffu32,
                        height <= 0xffff_ffffu32,
                ;
            }
            let needed: u64 = (bytes_per_row as u64) * (height as u64);
            if (pixels.len() as u64) != needed {
                return Err(TextureError::Decode);
            }
            Ok(TexturePlan {
                descriptor: TextureDescriptor {
                    size: Extent3d { width, height, depth_or_array_layers: 1 },
                    mip_level_count: 1,
                    sample_count: 1,
                    dimension: TextureDimension::D2,
                    format: TextureFormat::Rgba8UnormSrgb,
                    usage: TextureUsage { bits: USAGE_SAMPLED | USAGE_COPY_DST },
                },
                pixels,
                layout: ImageDataLayout {
                    offset: 0,
                    bytes_per_row: Some(bytes_per_row),
                    rows_per_image: Some(height),
                },
            })
        },
    }
}

/// The layout of bind group 0: a fragment-visible sampled 2D float texture
/// at binding 0 and a fragment-visible filtering sampler at binding 1.
pub fn texture_bind_group_layout() -> (r: Vec<BindGroupLayoutEntry>)
    ensures
        r@.len() == 2,
        r@[0] == (BindGroupLayoutEntry {
            binding: 0,
            visibility: STAGE_FRAGMENT,
            ty: BindingType::Texture {
                multisampled: false,
                view_dimension: TextureViewDimension::D2,
                filterable: true,
            },
        }),
        r@[1] == (BindGroupLayoutEntry {
            binding: 1,
            visibility: STAGE_FRAGMENT,
            ty: BindingType::Sampler { comparison: false, filtering: true },
        }),
{
    let mut r: Vec<BindGroupLayoutEntry> = Vec::new();
    r.push(BindGroupLayoutEntry {
        binding: 0,
        visibility: STAGE_FRAGMENT,
        ty: BindingType::Texture {
            multisampled: false,
            view_dimension: TextureViewDimension::D2,
            filterable: true,
        },
    });
    r.push(BindGroupLayoutEntry {
        binding: 1,
        visibility: STAGE_FRAGMENT,
        ty: BindingType::Sampler { comparison: false, filtering: true },
    });
    r
}

/// The instantiated diffuse bind group: the texture view at binding 0 and
/// the sampler at binding 1, matching the layout slot for slot.
pub fn diffuse_bind_group_entries() -> (r: Vec<BindGroupEntry>)
    ensures
        r@.len() == 2,
        r@[0] == (BindGroupEntry { binding: 0, resource: BindingResource::DiffuseTextureView }),
        r@[1] == (BindGroupEntry { binding: 1, resource: BindingResource::DiffuseSampler }),
{
    let mut r: Vec<BindGroupEntry> = Vec::new();
    r.push(BindGroupEntry { binding: 0, resource: BindingResource::DiffuseTextureView });
    r.push(BindGroupEntry { binding: 1, resource: BindingResource::DiffuseSampler });
    r
}

/// The diffuse sampler: clamp-to-edge on all axes, linear magnification,
/// nearest minification and mip filtering.
pub fn diffuse_sampler() -> (r: SamplerDescriptor)
    ensures
        r == (SamplerDescriptor {
            address_mode_u: AddressMode::ClampToEdge,
            address_mode_v: AddressMode::ClampToEdge,
            address_mode_w: AddressMode::ClampToEdge,
            mag_filter: FilterMode::Linear,
            min_filter: FilterMode::Nearest,
            mipmap_filter: FilterMode::Nearest,
        }),
{
    SamplerDescriptor {
        address_mode_u: AddressMode::ClampToEdge,
        address_mode_v: AddressMode::ClampToEdge,
        address_mode_w: AddressMode::ClampToEdge,
        mag_filter: FilterMode::Linear,
        min_filter: FilterMode::Nearest,
        mipmap_filter: FilterMode::Nearest,
    }
}

} // verus!
