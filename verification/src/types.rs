//! Plain descriptions shared by the graphics backends: errors, device
//! capabilities, pixel formats, resource usage flags and sample counts.
use vstd::prelude::*;

verus! {

/// Error raised by a graphics API call.
#[derive(Debug)]
pub enum RafxError {
    StringError(String),
}

/// Result of a graphics API call.
pub type RafxResult<T> = Result<T, RafxError>;

/// Capabilities and limits of a device, as the backend reports them.
#[derive(Clone, Copy, Debug, PartialEq, Eq, Structural)]
pub struct RafxDeviceInfo {
    pub supports_multithreaded_usage: bool,
    pub debug_names_enabled: bool,
    pub min_uniform_buffer_offset_alignment: u32,
    pub min_storage_buffer_offset_alignment: u32,
    pub upload_texture_alignment: u32,
    pub upload_texture_row_alignment: u32,
    pub supports_clamp_to_border_color: bool,
    pub max_vertex_attribute_count: u32,
}

/// Number of samples per pixel of a render target.
#[derive(Clone, Copy, Debug, PartialEq, Eq, Structural)]
pub enum RafxSampleCount {
    SampleCount1,
    SampleCount2,
    SampleCount4,
    SampleCount8,
    SampleCount16,
}

/// Set of ways in which a resource is used, one bit per usage.
#[derive(Clone, Copy, Debug, PartialEq, Eq, Structural)]
pub struct RafxResourceType {
    pub bits: u32,
}

pub const RESOURCE_TYPE_SAMPLER: u32 = 0x1;
pub const RESOURCE_TYPE_TEXTURE: u32 = 0x2;
pub const RESOURCE_TYPE_TEXTURE_READ_WRITE: u32 = 0x4;
pub const RESOURCE_TYPE_BUFFER: u32 = 0x8;
pub const RESOURCE_TYPE_UNIFORM_BUFFER: u32 = 0x80;
pub const RESOURCE_TYPE_VERTEX_BUFFER: u32 = 0x200;
pub const RESOURCE_TYPE_INDEX_BUFFER: u32 = 0x400;
pub const RESOURCE_TYPE_RENDER_TARGET_COLOR: u32 = 0x80000;
pub const RESOURCE_TYPE_RENDER_TARGET_DEPTH_STENCIL: u32 = 0x100000;

impl RafxResourceType {
    pub fn from_bits(bits: u32) -> (r: Self)
        ensures
            r == (RafxResourceType { bits }),
    {
        RafxResourceType { bits }
    }

    /// Whether the two sets share at least one usage.
    pub open spec fn spec_intersects(self, other: Self) -> bool {
        self.bits & other.bits != 0
    }

    pub fn intersects(&self, other: RafxResourceType) -> (r: bool)
        ensures
            r == self.spec_intersects(other),
    {
        self.bits & other.bits != 0
    }
}

/// Pixel formats of textures and render targets.
#[allow(non_camel_case_types)]
#[derive(Clone, Copy, Debug, PartialEq, Eq, Structural)]
pub enum RafxFormat {
    UNDEFINED,
    R8_UNORM,
    R8G8B8_UNORM,
    R8G8B8A8_UNORM,
    R8G8B8A8_SRGB,
    B8G8R8A8_UNORM,
    B8G8R8A8_SRGB,
    R5G6B5_UNORM_PACK16,
    R4G4B4A4_UNORM_PACK16,
    R5G5B5A1_UNORM_PACK16,
    D16_UNORM,
    D24_UNORM_S8_UINT,
    D32_SFLOAT,
}

pub const GL_DEPTH_COMPONENT: u32 = 0x1902;
pub const GL_RGB: u32 = 0x1907;
pub const GL_RGBA: u32 = 0x1908;
pub const GL_UNSIGNED_BYTE: u32 = 0x1401;
pub const GL_UNSIGNED_SHORT: u32 = 0x1403;
pub const GL_UNSIGNED_SHORT_4_4_4_4: u32 = 0x8033;
pub const GL_UNSIGNED_SHORT_5_5_5_1: u32 = 0x8034;
pub const GL_UNSIGNED_SHORT_5_6_5: u32 = 0x8363;

/// How a GL ES 2.0 texture of some format is described to GL.
#[derive(Clone, Copy, Debug, PartialEq, Eq, Structural)]
pub struct GlTextureFormatInfo {
    pub gl_internal_format: u32,
    pub gl_format: u32,
    pub gl_type: u32,
}

/// The GL ES 2.0 core texture formats: the only ones a GL ES 2.0 device is
/// sure to accept.
pub open spec fn spec_gles2_texture_format_info(format: RafxFormat) -> Option<GlTextureFormatInfo> {
    match format {
        RafxFormat::R8G8B8A8_UNORM => Some(
            GlTextureFormatInfo { gl_internal_format: GL_RGBA, gl_format: GL_RGBA, gl_type: GL_UNSIGNED_BYTE },
        ),
        RafxFormat::R8G8B8_UNORM => Some(
            GlTextureFormatInfo { gl_internal_format: GL_RGB, gl_format: GL_RGB, gl_type: GL_UNSIGNED_BYTE },
        ),
        RafxFormat::R5G6B5_UNORM_PACK16 => Some(
            GlTextureFormatInfo { gl_internal_format: GL_RGB, gl_format: GL_RGB, gl_type: GL_UNSIGNED_SHORT_5_6_5 },
        ),
        RafxFormat::R4G4B4A4_UNORM_PACK16 => Some(
            GlTextureFormatInfo {
                gl_internal_format: GL_RGBA,
                gl_format: GL_RGBA,
                gl_type: GL_UNSIGNED_SHORT_4_4_4_4,
            },
        ),
        RafxFormat::R5G5B5A1_UNORM_PACK16 => Some(
            GlTextureFormatInfo {
                gl_internal_format: GL_RGBA,
                gl_format: GL_RGBA,
                gl_type: GL_UNSIGNED_SHORT_5_5_5_1,
            },
        ),
        RafxFormat::D16_UNORM => Some(
            GlTextureFormatInfo {
                gl_internal_format: GL_DEPTH_COMPONENT,
                gl_format: GL_DEPTH_COMPONENT,
                gl_type: GL_UNSIGNED_SHORT,
            },
        ),
        _ => None,
    }
}

/// The GL ES 2.0 core texture formats and how GL describes each: RGBA and
/// RGB with one byte per channel, the three 16-bit packed color formats, and
/// 16-bit depth. No other format is one.
pub proof fn lemma_gles2_core_formats()
    ensures
        spec_gles2_texture_format_info(RafxFormat::R8G8B8A8_UNORM) == Some(
            (GlTextureFormatInfo { gl_internal_format: 0x1908, gl_format: 0x1908, gl_type: 0x1401 }),
        ),
        spec_gles2_texture_format_info(RafxFormat::R8G8B8_UNORM) == Some(
            (GlTextureFormatInfo { gl_internal_format: 0x1907, gl_format: 0x1907, gl_type: 0x1401 }),
        ),
        spec_gles2_texture_format_info(RafxFormat::R5G6B5_UNORM_PACK16) == Some(
            (GlTextureFormatInfo { gl_internal_format: 0x1907, gl_format: 0x1907, gl_type: 0x8363 }),
        ),
        spec_gles2_texture_format_info(RafxFormat::R4G4B4A4_UNORM_PACK16) == Some(
            (GlTextureFormatInfo { gl_internal_format: 0x1908, gl_format: 0x1908, gl_type: 0x8033 }),
        ),
        spec_gles2_texture_format_info(RafxFormat::R5G5B5A1_UNORM_PACK16) == Some(
            (GlTextureFormatInfo { gl_internal_format: 0x1908, gl_format: 0x1908, gl_type: 0x8034 }),
        ),
        spec_gles2_texture_format_info(RafxFormat::D16_UNORM) == Some(
            (GlTextureFormatInfo { gl_internal_format: 0x1902, gl_format: 0x1902, gl_type: 0x1403 }),
        ),
        spec_gles2_texture_format_info(RafxFormat::UNDEFINED) is None,
        spec_gles2_texture_format_info(RafxFormat::R8_UNORM) is None,
        spec_gles2_texture_format_info(RafxFormat::R8G8B8A8_SRGB) is None,
        spec_gles2_texture_format_info(RafxFormat::B8G8R8A8_UNORM) is None,
        spec_gles2_texture_format_info(RafxFormat::B8G8R8A8_SRGB) is None,
        spec_gles2_texture_format_info(RafxFormat::D24_UNORM_S8_UINT) is None,
        spec_gles2_texture_format_info(RafxFormat::D32_SFLOAT) is None,
{
}

impl RafxFormat {
    pub fn gles2_texture_format_info(self) -> (r: Option<GlTextureFormatInfo>)
        ensures
            r == spec_gles2_texture_format_info(self),
            self == RafxFormat::R8G8B8A8_UNORM ==> r == Some(
                (GlTextureFormatInfo { gl_internal_format: 0x1908, gl_format: 0x1908, gl_type: 0x1401 }),
            ),
            self == RafxFormat::R8G8B8_UNORM ==> r == Some(
                (GlTextureFormatInfo { gl_internal_format: 0x1907, gl_format: 0x1907, gl_type: 0x1401 }),
            ),
            self == RafxFormat::R5G6B5_UNORM_PACK16 ==> r == Some(
                (GlTextureFormatInfo { gl_internal_format: 0x1907, gl_format: 0x1907, gl_type: 0x8363 }),
            ),
            self == RafxFormat::R4G4B4A4_UNORM_PACK16 ==> r == Some(
                (GlTextureFormatInfo { gl_internal_format: 0x1908, gl_format: 0x1908, gl_type: 0x8033 }),
            ),
            self == RafxFormat::R5G5B5A1_UNORM_PACK16 ==> r == Some(
                (GlTextureFormatInfo { gl_internal_format: 0x1908, gl_format: 0x1908, gl_type: 0x8034 }),
            ),
            self == RafxFormat::D16_UNORM ==> r == Some(
                (GlTextureFormatInfo { gl_internal_format: 0x1902, gl_format: 0x1902, gl_type: 0x1403 }),
            ),
            self == RafxFormat::UNDEFINED || self == RafxFormat::R8_UNORM || self == RafxFormat::R8G8B8A8_SRGB
                || self == RafxFormat::B8G8R8A8_UNORM || self == RafxFormat::B8G8R8A8_SRGB || self
                == RafxFormat::D24_UNORM_S8_UINT || self == RafxFormat::D32_SFLOAT ==> r is None,
    {
        match self {
            RafxFormat::R8G8B8A8_UNORM => Some(
                GlTextureFormatInfo { gl_internal_format: GL_RGBA, gl_format: GL_RGBA, gl_type: GL_UNSIGNED_BYTE },
            ),
            RafxFormat::R8G8B8_UNORM => Some(
                GlTextureFormatInfo { gl_internal_format: GL_RGB, gl_format: GL_RGB, gl_type: GL_UNSIGNED_BYTE },
            ),
            RafxFormat::R5G6B5_UNORM_PACK16 => Some(
                GlTextureFormatInfo {
                    gl_internal_format: GL_RGB,
                    gl_format: GL_RGB,
                    gl_type: GL_UNSIGNED_SHORT_5_6_5,
                },
            ),
            RafxFormat::R4G4B4A4_UNORM_PACK16 => Some(
                GlTextureFormatInfo {
                    gl_internal_format: GL_RGBA,
                    gl_format: GL_RGBA,
                    gl_type: GL_UNSIGNED_SHORT_4_4_4_4,
                },
            ),
            RafxFormat::R5G5B5A1_UNORM_PACK16 => Some(
                GlTextureFormatInfo {
                    gl_internal_format: GL_RGBA,
                    gl_format: GL_RGBA,
                    gl_type: GL_UNSIGNED_SHORT_5_5_5_1,
                },
            ),
            RafxFormat::D16_UNORM => Some(
                GlTextureFormatInfo {
                    gl_internal_format: GL_DEPTH_COMPONENT,
                    gl_format: GL_DEPTH_COMPONENT,
                    gl_type: GL_UNSIGNED_SHORT,
                },
            ),
            _ => None,
        }
    }
}

} // verus!
