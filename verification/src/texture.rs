//! Textures as the graphics backend is asked to create them: an extent, a
//! format, a sampler, and the pixels to upload.

use vstd::prelude::*;
use crate::jpeg::has_lossless_frame;
use crate::jpeg::is_lossless_jpeg;

verus! {

/// The size of a texture in texels.
#[derive(Clone, Copy, Debug, PartialEq, Eq, Structural)]
pub struct Extent3d {
    pub width: u32,
    pub height: u32,
    pub depth_or_array_layers: u32,
}

/// The texel formats the core uses.
#[derive(Clone, Copy, Debug, PartialEq, Eq, Structural)]
pub enum TextureFormat {
    Rgba8Unorm,
    Rgba8UnormSrgb,
    Bgra8Unorm,
    Bgra8UnormSrgb,
    Depth32Float,
}

/// What a sampler returns outside of the texture.
#[derive(Clone, Copy, Debug, PartialEq, Eq, Structural)]
pub enum AddressMode {
    ClampToEdge,
    Repeat,
}

/// How a sampler combines texels.
#[derive(Clone, Copy, Debug, PartialEq, Eq, Structural)]
pub enum FilterMode {
    Nearest,
    Linear,
}

/// The comparison of a depth sampler.
#[derive(Clone, Copy, Debug, PartialEq, Eq, Structural)]
pub enum CompareFunction {
    LessEqual,
}

/// How a texture is sampled. The level-of-detail clamps are whole numbers.
#[derive(Clone, Copy, Debug, PartialEq, Eq, Structural)]
pub struct SamplerDescriptor {
    pub address_mode_u: AddressMode,
    pub address_mode_v: AddressMode,
    pub address_mode_w: AddressMode,
    pub mag_filter: FilterMode,
    pub min_filter: FilterMode,
    pub mipmap_filter: FilterMode,
    pub compare: Option<CompareFunction>,
    pub lod_min_clamp: u32,
    pub lod_max_clamp: u32,
    pub anisotropy_clamp: u16,
}

/// What a texture may be used for.
#[derive(Clone, Copy, Debug, PartialEq, Eq, Structural)]
pub struct TextureUsages {
    pub copy_dst: bool,
    pub texture_binding: bool,
    pub storage_binding: bool,
    pub render_attachment: bool,
}

/// How the pixels of an upload are laid out in memory.
#[derive(Clone, Copy, Debug, PartialEq, Eq, Structural)]
pub struct ImageDataLayout {
    pub offset: u64,
    pub bytes_per_row: Option<u32>,
    pub rows_per_image: Option<u32>,
}

/// Everything about a texture but its label and its pixels.
#[derive(Clone, Copy, Debug, PartialEq, Eq, Structural)]
pub struct TextureDescriptor {
    pub size: Extent3d,
    pub mip_level_count: u32,
    pub sample_count: u32,
    pub format: TextureFormat,
    pub view_format: Option<TextureFormat>,
    pub usage: TextureUsages,
    pub sampler: SamplerDescriptor,
    pub layout: Option<ImageDataLayout>,
}

/// Why a texture could not be made.
#[derive(Clone, Copy, Debug, PartialEq, Eq, Structural)]
pub enum TextureError {
    /// The bytes are not an image in a format that the decoder knows.
    DecodeError,
    /// The pixel data is not four bytes for every texel of the extent.
    SizeMismatch,
    /// A row of the image takes more bytes than an upload can describe.
    TooWide,
    /// No texture is registered under the identifier.
    UnknownTexture,
}

/// An image with four 8-bit channels per pixel, red first, rows from the top.
pub struct RgbaImage {
    pub width: u32,
    pub height: u32,
    pub pixels: Vec<u8>,
}

/// A texture to create on the GPU.
pub struct Texture {
    pub label: Option<String>,
    pub texture_extent: Extent3d,
    pub descriptor: TextureDescriptor,
    pub pixels: Vec<u8>,
}

/// A [`Texture`] as a mathematical value.
pub struct TextureModel {
    pub label: Option<Seq<char>>,
    pub texture_extent: Extent3d,
    pub descriptor: TextureDescriptor,
    pub pixels: Seq<u8>,
}

impl View for Texture {
    type V = TextureModel;

    open spec fn view(&self) -> TextureModel {
        TextureModel {
            label: match self.label {
                Some(l) => Some(l@),
                None => None,
            },
            texture_extent: self.texture_extent,
            descriptor: self.descriptor,
            pixels: self.pixels@,
        }
    }
}

/// The number of bytes that `width * height` texels of four bytes take.
pub open spec fn rgba_len(width: u32, height: u32) -> nat {
    4 * (width as nat) * (height as nat)
}

/// The extent of a flat image.
pub open spec fn flat_extent(width: u32, height: u32) -> Extent3d {
    Extent3d { width, height, depth_or_array_layers: 1 }
}

/// The sampler of a sprite: clamped at the edges, smooth when magnified,
/// crisp when minified.
pub open spec fn sprite_sampler() -> SamplerDescriptor {
    SamplerDescriptor {
        address_mode_u: AddressMode::ClampToEdge,
        address_mode_v: AddressMode::ClampToEdge,
        address_mode_w: AddressMode::ClampToEdge,
        mag_filter: FilterMode::Linear,
        min_filter: FilterMode::Nearest,
        mipmap_filter: FilterMode::Nearest,
        compare: None,
        lod_min_clamp: 0,
        lod_max_clamp: 32,
        anisotropy_clamp: 1,
    }
}

/// The descriptor of a sprite made from `width * height` RGBA texels.
pub open spec fn sprite_descriptor(
    width: u32,
    height: u32,
    view_format: Option<TextureFormat>,
    rows_per_image: Option<u32>,
) -> TextureDescriptor {
    TextureDescriptor {
        size: flat_extent(width, height),
        mip_level_count: 1,
        sample_count: 1,
        format: TextureFormat::Rgba8UnormSrgb,
        view_format,
        usage: TextureUsages {
            copy_dst: true,
            texture_binding: true,
            storage_binding: false,
            render_attachment: false,
        },
        sampler: sprite_sampler(),
        layout: Some(
            ImageDataLayout {
                offset: 0,
                bytes_per_row: Some((4 * width) as u32),
                rows_per_image,
            },
        ),
    }
}

/// The descriptor of a depth texture of the given size.
pub open spec fn depth_descriptor(width: u32, height: u32) -> TextureDescriptor {
    TextureDescriptor {
        size: flat_extent(width, height),
        mip_level_count: 1,
        sample_count: 1,
        format: TextureFormat::Depth32Float,
        view_format: Some(TextureFormat::Depth32Float),
        usage: TextureUsages {
            copy_dst: false,
            texture_binding: true,
            storage_binding: false,
            render_attachment: true,
        },
        sampler: SamplerDescriptor {
            address_mode_u: AddressMode::ClampToEdge,
            address_mode_v: AddressMode::ClampToEdge,
            address_mode_w: AddressMode::ClampToEdge,
            mag_filter: FilterMode::Linear,
            min_filter: FilterMode::Linear,
            mipmap_filter: FilterMode::Nearest,
            compare: Some(CompareFunction::LessEqual),
            lod_min_clamp: 0,
            lod_max_clamp: 100,
            anisotropy_clamp: 1,
        },
        layout: None,
    }
}

/// The descriptor of an empty texture of the given size that shaders may
/// write to.
pub open spec fn storage_descriptor(width: u32, height: u32) -> TextureDescriptor {
    TextureDescriptor {
        size: flat_extent(width, height),
        mip_level_count: 1,
        sample_count: 1,
        format: TextureFormat::Rgba8Unorm,
        view_format: Some(TextureFormat::Rgba8Unorm),
        usage: TextureUsages {
            copy_dst: true,
            texture_binding: true,
            storage_binding: true,
            render_attachment: false,
        },
        sampler: SamplerDescriptor {
            address_mode_u: AddressMode::Repeat,
            address_mode_v: AddressMode::Repeat,
            address_mode_w: AddressMode::ClampToEdge,
            mag_filter: FilterMode::Linear,
            min_filter: FilterMode::Nearest,
            mipmap_filter: FilterMode::Nearest,
            compare: None,
            lod_min_clamp: 0,
            lod_max_clamp: 32,
            anisotropy_clamp: 1,
        },
        layout: None,
    }
}

/// Whether `width * height` RGBA texels in `pixel_count` bytes make a
/// texture, and if not, why not.
pub open spec fn sprite_fault(width: u32, height: u32, pixel_count: nat) -> Option<TextureError> {
    if 4 * width > u32::MAX {
        Some(TextureError::TooWide)
    } else if pixel_count != rgba_len(width, height) {
        Some(TextureError::SizeMismatch)
    } else {
        None
    }
}

/// The sprite made from the given texels.
pub open spec fn sprite_model(
    width: u32,
    height: u32,
    pixels: Seq<u8>,
    label: Option<Seq<char>>,
    view_format: Option<TextureFormat>,
    rows_per_image: Option<u32>,
) -> TextureModel {
    TextureModel {
        label,
        texture_extent: flat_extent(width, height),
        descriptor: sprite_descriptor(width, height, view_format, rows_per_image),
        pixels,
    }
}

/// The sprite made from the given texels, or the reason why they make none.
pub open spec fn sprite_spec(
    width: u32,
    height: u32,
    pixels: Seq<u8>,
    label: Option<Seq<char>>,
    view_format: Option<TextureFormat>,
    rows_per_image: Option<u32>,
) -> Result<TextureModel, TextureError> {
    match sprite_fault(width, height, pixels.len()) {
        Some(e) => Err(e),
        None => Ok(sprite_model(width, height, pixels, label, view_format, rows_per_image)),
    }
}

/// Whether `r` is the outcome `expected`: the same error, or a texture with
/// the expected value.
pub open spec fn yields(r: Result<Texture, TextureError>, expected: Result<
    TextureModel,
    TextureError,
>) -> bool {
    match expected {
        Ok(m) => r is Ok && r->Ok_0@ == m,
        Err(e) => r == Err::<Texture, TextureError>(e),
    }
}

/// The image as a mathematical value, if there is one.
pub open spec fn image_model(decoded: Option<RgbaImage>) -> Option<(u32, u32, Seq<u8>)> {
    match decoded {
        Some(img) => Some((img.width, img.height, img.pixels@)),
        None => None,
    }
}

/// The side of the checkerboard, in texels.
pub const CHECKERBOARD_SIDE: u32 = 16;

/// The byte `channel` of the texel in column `x` and row `y` of the
/// checkerboard: opaque magenta where exactly one of `x` and `y` is odd,
/// opaque black elsewhere.
pub open spec fn checkerboard_channel(x: int, y: int, channel: int) -> u8 {
    if channel == 3 {
        255
    } else if channel == 1 {
        0
    } else if x % 2 != y % 2 {
        255
    } else {
        0
    }
}

/// The texels of the checkerboard as RGBA bytes, row by row.
pub open spec fn checkerboard_spec() -> Seq<u8> {
    Seq::new(
        1024,
        |k: int| checkerboard_channel((k / 4) % 16, (k / 4) / 16, k % 4),
    )
}

/// The texels of a checkerboard of 16 by 16 texels in magenta and black,
/// as RGBA bytes, row by row.
pub fn checkerboard_texels() -> (texels: Vec<u8>)
    ensures
        texels@ == checkerboard_spec(),
        sprite_fault(CHECKERBOARD_SIDE, CHECKERBOARD_SIDE, texels@.len()) is None,
{
    let mut texels: Vec<u8> = Vec::new();
    let mut k: usize = 0;
    while k < 256
        invariant
            k <= 256,
            texels@.len() == 4 * k,
            forall|j: int| 0 <= j < 4 * k ==> texels@[j] == checkerboard_spec()[j],
        decreases 256 - k,
    {
        let x: usize = k % 16;
        let y: usize = k / 16;
        let tint: u8 = if x % 2 != y % 2 {
            255
        } else {
            0
        };
        texels.push(tint);
        texels.push(0);
        texels.push(tint);
        texels.push(255);
        k += 1;
    }
    assert(texels@ =~= checkerboard_spec());
    assert(4 * 16nat * 16nat == 1024) by (nonlinear_arith);
    texels
}

/// Whether a decoded image, if there is one, holds four bytes for every
/// texel of its size.
pub open spec fn well_sized(decoded: Option<(u32, u32, Seq<u8>)>) -> bool {
    match decoded {
        Some((width, height, pixels)) => pixels.len() == rgba_len(width, height),
        None => true,
    }
}

/// The error of the `image` crate. It is handed on unread; what went wrong
/// is reported as [`TextureError::DecodeError`].
#[verifier::external_type_specification]
#[verifier::external_body]
pub struct ExImageError(image::ImageError);

/// Decodes an encoded image with `image::load_from_memory` and hands its
/// size and its pixels out as plain values, the pixels as
/// `DynamicImage::to_rgba8` lays them out.
///
/// It is not to be called on a JPEG stream with a lossless frame: for such
/// a stream the decoder can produce more bytes than `image` has made room
/// for, and `image` then stops the program.
///
/// Not proved, but taken from the `image` crate: that an image that comes
/// back holds four bytes for every texel of its size. Nothing is claimed of
/// which bytes decode, nor of the pixels that they decode to; a decoder may
/// round differently from one machine to another.
#[verifier::external_body]
fn decode_rgba8(bytes: &[u8]) -> (r: Result<RgbaImage, image::ImageError>)
    requires
        !is_lossless_jpeg(bytes@),
    ensures
        r is Ok ==> r->Ok_0.pixels@.len() == rgba_len(r->Ok_0.width, r->Ok_0.height),
{
    let decoded = image::load_from_memory(bytes)?;
    let rgba = decoded.to_rgba8();
    let (width, height) = rgba.dimensions();
    Ok(RgbaImage { width, height, pixels: rgba.into_raw() })
}

/// Decodes an encoded image. There is no image where the bytes are a JPEG
/// stream with a lossless frame, which is not decoded, and where the decoder
/// reports an error.
pub(crate) fn decode(bytes: &[u8]) -> (decoded: Option<RgbaImage>)
    ensures
        well_sized(image_model(decoded)),
        is_lossless_jpeg(bytes@) ==> decoded is None,
{
    if has_lossless_frame(bytes) {
        return None;
    }
    match decode_rgba8(bytes) {
        Ok(img) => Some(img),
        Err(_) => None,
    }
}

/// The label as an owned string.
fn owned_label(label: Option<&str>) -> (l: Option<String>)
    ensures
        match label {
            Some(s) => l is Some && l->0@ == s@,
            None => l is None,
        },
{
    match label {
        Some(s) => Some(s.to_owned()),
        None => None,
    }
}

/// The view of an optional label.
pub open spec fn label_model(label: Option<&str>) -> Option<Seq<char>> {
    match label {
        Some(s) => Some(s@),
        None => None,
    }
}

/// Whether the pixel data has four bytes for each of `width * height`
/// texels.
fn has_rgba_len(pixel_count: usize, width: u32, height: u32) -> (b: bool)
    ensures
        b == (pixel_count as nat == rgba_len(width, height)),
{
    assert((width as nat) * (height as nat) <= 0xFFFF_FFFE_0000_0001) by (nonlinear_arith)
        requires
            width <= 0xFFFF_FFFF,
            height <= 0xFFFF_FFFF,
    ;
    assert(4 * (width as nat) * (height as nat) == 4 * ((width as nat) * (height as nat)))
        by (nonlinear_arith);
    let texels: u64 = width as u64 * height as u64;
    let count: u64 = pixel_count as u64;
    count % 4 == 0 && count / 4 == texels
}

impl Texture {
    /// The format of depth textures.
    pub const DEPTH_FORMAT: TextureFormat = TextureFormat::Depth32Float;

    /// A sprite texture from pixels that are already decoded.
    ///
    /// Fails with `TooWide` where a row takes more than `u32::MAX` bytes, and
    /// else with `SizeMismatch` where the pixel data is not four bytes for
    /// every texel.
    pub fn from_pixels(
        width: u32,
        height: u32,
        pixels: Vec<u8>,
        label: Option<&str>,
        view_format: Option<TextureFormat>,
        rows_per_image: Option<u32>,
    ) -> (r: Result<Texture, TextureError>)
        ensures
            yields(
                r,
                sprite_spec(
                    width,
                    height,
                    pixels@,
                    label_model(label),
                    view_format,
                    rows_per_image,
                ),
            ),
    {
        if width > u32::MAX / 4 {
            return Err(TextureError::TooWide);
        }
        if !has_rgba_len(pixels.len(), width, height) {
            return Err(TextureError::SizeMismatch);
        }
        Ok(Self::sprite(width, height, pixels, label, view_format, rows_per_image))
    }

    /// The sprite texture of texels that are known to fit.
    pub(crate) fn sprite(
        width: u32,
        height: u32,
        pixels: Vec<u8>,
        label: Option<&str>,
        view_format: Option<TextureFormat>,
        rows_per_image: Option<u32>,
    ) -> (t: Texture)
        requires
            sprite_fault(width, height, pixels@.len()) is None,
        ensures
            t@ == sprite_model(
                width,
                height,
                pixels@,
                label_model(label),
                view_format,
                rows_per_image,
            ),
    {
        let texture_extent = Extent3d { width, height, depth_or_array_layers: 1 };
        let descriptor = TextureDescriptor {
            size: texture_extent,
            mip_level_count: 1,
            sample_count: 1,
            format: TextureFormat::Rgba8UnormSrgb,
            view_format,
            usage: TextureUsages {
                copy_dst: true,
                texture_binding: true,
                storage_binding: false,
                render_attachment: false,
            },
            sampler: SamplerDescriptor {
                address_mode_u: AddressMode::ClampToEdge,
                address_mode_v: AddressMode::ClampToEdge,
                address_mode_w: AddressMode::ClampToEdge,
                mag_filter: FilterMode::Linear,
                min_filter: FilterMode::Nearest,
                mipmap_filter: FilterMode::Nearest,
                compare: None,
                lod_min_clamp: 0,
                lod_max_clamp: 32,
                anisotropy_clamp: 1,
            },
            layout: Some(
                ImageDataLayout { offset: 0, bytes_per_row: Some(4 * width), rows_per_image },
            ),
        };
        Texture { label: owned_label(label), texture_extent, descriptor, pixels }
    }

    /// A sprite texture of the size of the image, holding its pixels, to be
    /// viewed as linear RGBA as well.
    pub fn from_image(img: RgbaImage, label: Option<&str>) -> (r: Result<Texture, TextureError>)
        ensures
            yields(
                r,
                sprite_spec(
                    img.width,
                    img.height,
                    img.pixels@,
                    label_model(label),
                    Some(TextureFormat::Rgba8Unorm),
                    Some(img.height),
                ),
            ),
    {
        let height: u32 = img.height;
        Self::from_pixels(
            img.width,
            height,
            img.pixels,
            label,
            Some(TextureFormat::Rgba8Unorm),
            Some(height),
        )
    }

    /// What [`Texture::from_bytes`] returns for the outcome `decoded` of
    /// decoding the bytes.
    pub open spec fn from_decoded_spec(
        decoded: Option<(u32, u32, Seq<u8>)>,
        label: Option<Seq<char>>,
    ) -> Result<TextureModel, TextureError> {
        match decoded {
            None => Err(TextureError::DecodeError),
            Some((width, height, pixels)) => sprite_spec(
                width,
                height,
                pixels,
                label,
                Some(TextureFormat::Rgba8Unorm),
                Some(height),
            ),
        }
    }

    /// The texture for the outcome of decoding an encoded image: the sprite
    /// of the image where there is one, `DecodeError` where there is none.
    pub fn from_decoded(decoded: Option<RgbaImage>, label: Option<&str>) -> (r: Result<
        Texture,
        TextureError,
    >)
        ensures
            yields(r, Self::from_decoded_spec(image_model(decoded), label_model(label))),
    {
        match decoded {
            None => Err(TextureError::DecodeError),
            Some(img) => Self::from_image(img, label),
        }
    }

    /// Decodes an encoded image and makes a sprite texture of it.
    ///
    /// A JPEG stream with a lossless frame is not decoded and is a
    /// `DecodeError`. For other bytes, whatever the decoder makes of them,
    /// the result is what [`Texture::from_decoded`] returns for it:
    /// `DecodeError` where the decoder reports an error, and else the sprite
    /// of the decoded image, or `TooWide` for an image whose rows do not fit
    /// an upload.
    pub fn from_bytes(bytes: &[u8], label: &str) -> (r: Result<Texture, TextureError>)
        ensures
            exists|decoded: Option<(u32, u32, Seq<u8>)>|
                #[trigger] well_sized(decoded) && yields(
                    r,
                    Self::from_decoded_spec(decoded, Some(label@)),
                ),
            r is Err ==> r->Err_0 == TextureError::DecodeError || r->Err_0
                == TextureError::TooWide,
            is_lossless_jpeg(bytes@) ==> r == Err::<Texture, TextureError>(
                TextureError::DecodeError,
            ),
    {
        let decoded = decode(bytes);
        let ghost model = image_model(decoded);
        let r = Self::from_decoded(decoded, Some(label));
        assert(well_sized(model) && yields(r, Self::from_decoded_spec(model, Some(label@))));
        r
    }

    /// A depth texture of the given size, with nothing to upload.
    pub fn create_depth_texture(width: u32, height: u32, label: &str) -> (t: Texture)
        ensures
            t@ == (TextureModel {
                label: Some(label@),
                texture_extent: flat_extent(width, height),
                descriptor: depth_descriptor(width, height),
                pixels: Seq::<u8>::empty(),
            }),
    {
        let texture_extent = Extent3d { width, height, depth_or_array_layers: 1 };
        let descriptor = TextureDescriptor {
            size: texture_extent,
            mip_level_count: 1,
            sample_count: 1,
            format: Self::DEPTH_FORMAT,
            view_format: Some(Self::DEPTH_FORMAT),
            usage: TextureUsages {
                copy_dst: false,
                texture_binding: true,
                storage_binding: false,
                render_attachment: true,
            },
            sampler: SamplerDescriptor {
                address_mode_u: AddressMode::ClampToEdge,
                address_mode_v: AddressMode::ClampToEdge,
                address_mode_w: AddressMode::ClampToEdge,
                mag_filter: FilterMode::Linear,
                min_filter: FilterMode::Linear,
                mipmap_filter: FilterMode::Nearest,
                compare: Some(CompareFunction::LessEqual),
                lod_min_clamp: 0,
                lod_max_clamp: 100,
                anisotropy_clamp: 1,
            },
            layout: None,
        };
        Texture { label: Some(label.to_owned()), texture_extent, descriptor, pixels: Vec::new() }
    }

    /// An empty texture of the given size that shaders may write to.
    pub fn from_dimensions(width: u32, height: u32, label: Option<&str>) -> (r: Result<
        Texture,
        TextureError,
    >)
        ensures
            r is Ok,
            r->Ok_0@ == (TextureModel {
                label: label_model(label),
                texture_extent: flat_extent(width, height),
                descriptor: storage_descriptor(width, height),
                pixels: Seq::<u8>::empty(),
            }),
    {
        let texture_extent = Extent3d { width, height, depth_or_array_layers: 1 };
        let descriptor = TextureDescriptor {
            size: texture_extent,
            mip_level_count: 1,
            sample_count: 1,
            format: TextureFormat::Rgba8Unorm,
            view_format: Some(TextureFormat::Rgba8Unorm),
            usage: TextureUsages {
                copy_dst: true,
                texture_binding: true,
                storage_binding: true,
                render_attachment: false,
            },
            sampler: SamplerDescriptor {
                address_mode_u: AddressMode::Repeat,
                address_mode_v: AddressMode::Repeat,
                address_mode_w: AddressMode::ClampToEdge,
                mag_filter: FilterMode::Linear,
                min_filter: FilterMode::Nearest,
                mipmap_filter: FilterMode::Nearest,
                compare: None,
                lod_min_clamp: 0,
                lod_max_clamp: 32,
                anisotropy_clamp: 1,
            },
            layout: None,
        };
        Ok(Texture { label: owned_label(label), texture_extent, descriptor, pixels: Vec::new() })
    }
}

} // verus!
