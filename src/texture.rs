//! Texture parameters and the shape of a pixel upload.
use vstd::prelude::*;

verus! {

/// How texture coordinates outside `[0, 1]` are read.
#[derive(Clone, Copy, Debug, PartialEq, Eq, Structural)]
pub enum Wrap {
    Repeat,
    MirroredRepeat,
    ClampToEdge,
}

/// How texels are filtered.
#[derive(Clone, Copy, Debug, PartialEq, Eq, Structural)]
pub enum Filter {
    Nearest,
    Linear,
    /// Linear within and between mipmap levels; for minification only.
    LinearMipmapLinear,
}

/// The parameters set on a texture before its pixels are uploaded.
#[derive(Clone, Copy, Debug, PartialEq, Eq, Structural)]
pub struct TextureParams {
    pub wrap_s: Wrap,
    pub wrap_t: Wrap,
    pub min_filter: Filter,
    pub mag_filter: Filter,
}

impl TextureParams {
    /// Repeat on both axes, trilinear minification, linear magnification.
    pub fn new() -> (r: TextureParams)
        ensures
            r == (TextureParams {
                wrap_s: Wrap::Repeat,
                wrap_t: Wrap::Repeat,
                min_filter: Filter::LinearMipmapLinear,
                mag_filter: Filter::Linear,
            }),
    {
        TextureParams {
            wrap_s: Wrap::Repeat,
            wrap_t: Wrap::Repeat,
            min_filter: Filter::LinearMipmapLinear,
            mag_filter: Filter::Linear,
        }
    }

    /// These parameters with the given wrap on both axes.
    pub fn with_wrap(self, s: Wrap, t: Wrap) -> (r: TextureParams)
        ensures
            r == (TextureParams { wrap_s: s, wrap_t: t, ..self }),
    {
        TextureParams { wrap_s: s, wrap_t: t, ..self }
    }

    /// These parameters with the given filters.
    pub fn with_filter(self, min: Filter, mag: Filter) -> (r: TextureParams)
        ensures
            r == (TextureParams { min_filter: min, mag_filter: mag, ..self }),
    {
        TextureParams { min_filter: min, mag_filter: mag, ..self }
    }

    /// Whether sampling reads mipmap levels, so that the chain must be
    /// generated after the upload.
    pub fn needs_mipmaps(&self) -> (r: bool)
        ensures
            r == (self.min_filter == Filter::LinearMipmapLinear),
    {
        match self.min_filter {
            Filter::LinearMipmapLinear => true,
            _ => false,
        }
    }
}

/// The layout of the pixel bytes handed to an upload.
#[derive(Clone, Copy, Debug, PartialEq, Eq, Structural)]
pub enum PixelFormat {
    /// Three bytes per pixel.
    Rgb,
    /// Four bytes per pixel; the texture stores only the first three.
    Rgba,
}

/// The bytes per pixel of `format`.
pub open spec fn channels_of(format: PixelFormat) -> nat {
    match format {
        PixelFormat::Rgb => 3,
        PixelFormat::Rgba => 4,
    }
}

/// The bytes of a tightly packed image of `width` by `height` pixels.
pub open spec fn image_len(width: nat, height: nat, format: PixelFormat) -> nat {
    width * height * channels_of(format)
}

/// An upload that GL can take: sizes as GL integers and the formats, the
/// store always holding RGB.
#[derive(Clone, Copy, Debug, PartialEq, Eq, Structural)]
pub struct PixelUpload {
    pub width: i32,
    pub height: i32,
    /// The layout of the bytes handed over.
    pub external: PixelFormat,
    /// The layout of the texture's store.
    pub internal: PixelFormat,
    /// How many bytes GL reads.
    pub len: usize,
}

/// The bytes per pixel of `format`.
pub fn channels(format: PixelFormat) -> (r: usize)
    ensures
        r == channels_of(format),
{
    match format {
        PixelFormat::Rgb => 3,
        PixelFormat::Rgba => 4,
    }
}

/// Checks an upload of `available` bytes as an image of `width` by `height`
/// pixels in `format`: it is refused where a size does not fit a GL integer
/// or the bytes are fewer than the image needs.
pub fn plan_upload(width: u32, height: u32, format: PixelFormat, available: usize) -> (r: Option<
    PixelUpload,
>)
    ensures
        r is Some <==> width <= i32::MAX && height <= i32::MAX && image_len(
            width as nat,
            height as nat,
            format,
        ) <= available,
        r matches Some(u) ==> u == (PixelUpload {
            width: width as i32,
            height: height as i32,
            external: format,
            internal: PixelFormat::Rgb,
            len: image_len(width as nat, height as nat, format) as usize,
        }),
{
    if width > i32::MAX as u32 || height > i32::MAX as u32 {
        return None;
    }
    let c = channels(format);
    let w = width as u64;
    let h = height as u64;
    assert(w * h <= 0x3fff_ffff_0000_0001) by (nonlinear_arith)
        requires
            w <= 0x7fff_ffff,
            h <= 0x7fff_ffff,
    ;
    let pixels: u64 = w * h;
    assert(pixels * 4 <= 0xffff_fffc_0000_0004) by (nonlinear_arith)
        requires
            pixels <= 0x3fff_ffff_0000_0001,
    ;
    let len: u64 = pixels * c as u64;
    assert(len == image_len(width as nat, height as nat, format)) by (nonlinear_arith)
        requires
            len == w * h * c,
            w == width,
            h == height,
            c == channels_of(format),
    ;
    if len > available as u64 {
        None
    } else {
        Some(
            PixelUpload {
                width: width as i32,
                height: height as i32,
                external: format,
                internal: PixelFormat::Rgb,
                len: len as usize,
            },
        )
    }
}

} // verus!
