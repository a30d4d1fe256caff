//! Texture format mapper: portable texture formats to the descriptor triple
//! (internal storage token, external channel-layout token, component
//! data-type token).

use vstd::prelude::*;

use crate::tokens;

verus! {

/// A portable, backend-agnostic texture format. The block-compressed
/// families (BC, ETC2, EAC, ASTC) exist in the portable enumeration but are
/// not representable by this backend.
#[derive(Clone, Copy, PartialEq, Eq, Debug)]
pub enum TextureFormat {
    R8Unorm,
    R8Snorm,
    R8Uint,
    R8Sint,
    R16Uint,
    R16Sint,
    R16Float,
    Rg8Unorm,
    Rg8Snorm,
    Rg8Uint,
    Rg8Sint,
    R32Uint,
    R32Sint,
    R32Float,
    Rg16Uint,
    Rg16Sint,
    Rg16Float,
    Rgba8Unorm,
    Rgba8UnormSrgb,
    Bgra8UnormSrgb,
    Rgba8Snorm,
    Bgra8Unorm,
    Rgba8Uint,
    Rgba8Sint,
    Rgb10a2Unorm,
    Rg11b10Float,
    Rg32Uint,
    Rg32Sint,
    Rg32Float,
    Rgba16Uint,
    Rgba16Sint,
    Rgba16Float,
    Rgba32Uint,
    Rgba32Sint,
    Rgba32Float,
    Depth32Float,
    Depth24Plus,
    Depth24PlusStencil8,
    Bc1RgbaUnorm,
    Bc1RgbaUnormSrgb,
    Bc2RgbaUnorm,
    Bc2RgbaUnormSrgb,
    Bc3RgbaUnorm,
    Bc3RgbaUnormSrgb,
    Bc4RUnorm,
    Bc4RSnorm,
    Bc5RgUnorm,
    Bc5RgSnorm,
    Bc6hRgbSfloat,
    Bc6hRgbUfloat,
    Bc7RgbaUnorm,
    Bc7RgbaUnormSrgb,
    Etc2RgbUnorm,
    Etc2RgbUnormSrgb,
    Etc2RgbA1Unorm,
    Etc2RgbA1UnormSrgb,
    EacRUnorm,
    EacRSnorm,
    EtcRgUnorm,
    EtcRgSnorm,
    Astc4x4RgbaUnorm,
    Astc4x4RgbaUnormSrgb,
    Astc5x4RgbaUnorm,
    Astc5x4RgbaUnormSrgb,
    Astc5x5RgbaUnorm,
    Astc5x5RgbaUnormSrgb,
    Astc6x5RgbaUnorm,
    Astc6x5RgbaUnormSrgb,
    Astc6x6RgbaUnorm,
    Astc6x6RgbaUnormSrgb,
    Astc8x5RgbaUnorm,
    Astc8x5RgbaUnormSrgb,
    Astc8x6RgbaUnorm,
    Astc8x6RgbaUnormSrgb,
    Astc10x5RgbaUnorm,
    Astc10x5RgbaUnormSrgb,
    Astc10x6RgbaUnorm,
    Astc10x6RgbaUnormSrgb,
    Astc8x8RgbaUnorm,
    Astc8x8RgbaUnormSrgb,
    Astc10x8RgbaUnorm,
    Astc10x8RgbaUnormSrgb,
    Astc10x10RgbaUnorm,
    Astc10x10RgbaUnormSrgb,
    Astc12x10RgbaUnorm,
    Astc12x10RgbaUnormSrgb,
    Astc12x12RgbaUnorm,
    Astc12x12RgbaUnormSrgb,
}

/// The descriptor a texture format maps to: how pixel data is stored on the
/// device, the channel order used when transferring pixel data, and the
/// numeric representation of each component.
#[derive(Clone, Copy, PartialEq, Eq, Debug)]
pub struct TextureFormatDesc {
    pub internal: u32,
    pub external: u32,
    pub data_type: u32,
}

/// Whether the format is block-compressed (a BC, ETC2, EAC or ASTC family
/// member). These variants are not representable by this backend.
pub open spec fn texture_format_compressed(format: TextureFormat) -> bool {
    match format {
        TextureFormat::Bc1RgbaUnorm
        | TextureFormat::Bc1RgbaUnormSrgb
        | TextureFormat::Bc2RgbaUnorm
        | TextureFormat::Bc2RgbaUnormSrgb
        | TextureFormat::Bc3RgbaUnorm
        | TextureFormat::Bc3RgbaUnormSrgb
        | TextureFormat::Bc4RUnorm
        | TextureFormat::Bc4RSnorm
        | TextureFormat::Bc5RgUnorm
        | TextureFormat::Bc5RgSnorm
        | TextureFormat::Bc6hRgbSfloat
        | TextureFormat::Bc6hRgbUfloat
        | TextureFormat::Bc7RgbaUnorm
        | TextureFormat::Bc7RgbaUnormSrgb
        | TextureFormat::Etc2RgbUnorm
        | TextureFormat::Etc2RgbUnormSrgb
        | TextureFormat::Etc2RgbA1Unorm
        | TextureFormat::Etc2RgbA1UnormSrgb
        | TextureFormat::EacRUnorm
        | TextureFormat::EacRSnorm
        | TextureFormat::EtcRgUnorm
        | TextureFormat::EtcRgSnorm
        | TextureFormat::Astc4x4RgbaUnorm
        | TextureFormat::Astc4x4RgbaUnormSrgb
        | TextureFormat::Astc5x4RgbaUnorm
        | TextureFormat::Astc5x4RgbaUnormSrgb
        | TextureFormat::Astc5x5RgbaUnorm
        | TextureFormat::Astc5x5RgbaUnormSrgb
        | TextureFormat::Astc6x5RgbaUnorm
        | TextureFormat::Astc6x5RgbaUnormSrgb
        | TextureFormat::Astc6x6RgbaUnorm
        | TextureFormat::Astc6x6RgbaUnormSrgb
        | TextureFormat::Astc8x5RgbaUnorm
        | TextureFormat::Astc8x5RgbaUnormSrgb
        | TextureFormat::Astc8x6RgbaUnorm
        | TextureFormat::Astc8x6RgbaUnormSrgb
        | TextureFormat::Astc10x5RgbaUnorm
        | TextureFormat::Astc10x5RgbaUnormSrgb
        | TextureFormat::Astc10x6RgbaUnorm
        | TextureFormat::Astc10x6RgbaUnormSrgb
        | TextureFormat::Astc8x8RgbaUnorm
        | TextureFormat::Astc8x8RgbaUnormSrgb
        | TextureFormat::Astc10x8RgbaUnorm
        | TextureFormat::Astc10x8RgbaUnormSrgb
        | TextureFormat::Astc10x10RgbaUnorm
        | TextureFormat::Astc10x10RgbaUnormSrgb
        | TextureFormat::Astc12x10RgbaUnorm
        | TextureFormat::Astc12x10RgbaUnormSrgb
        | TextureFormat::Astc12x12RgbaUnorm
        | TextureFormat::Astc12x12RgbaUnormSrgb => true,
        _ => false,
    }
}

/// Whether this backend can represent the format: every uncompressed
/// variant, and no compressed one.
pub open spec fn texture_format_supported(format: TextureFormat) -> bool {
    !texture_format_compressed(format)
}

/// Whether the format stores color data sRGB-encoded.
pub open spec fn texture_format_is_srgb(format: TextureFormat) -> bool {
    match format {
        TextureFormat::Rgba8UnormSrgb | TextureFormat::Bgra8UnormSrgb => true,
        _ => false,
    }
}

/// Whether the format's channels are stored in byte-reversed (blue-first)
/// order relative to its red-first counterpart.
pub open spec fn texture_format_is_byte_swapped(format: TextureFormat) -> bool {
    match format {
        TextureFormat::Bgra8Unorm | TextureFormat::Bgra8UnormSrgb => true,
        _ => false,
    }
}

/// The numeric family of a format: how its components are interpreted.
#[derive(Clone, Copy, PartialEq, Eq, Debug)]
pub enum TextureFormatFamily {
    /// Normalized unsigned integer, read as floating point in 0..1.
    Unorm,
    /// Normalized signed integer, read as floating point in -1..1.
    Snorm,
    /// Raw unsigned integer.
    Uint,
    /// Raw signed integer.
    Sint,
    /// Floating point.
    Float,
    /// Depth, or packed depth and stencil.
    Depth,
}

/// The family a supported format belongs to.
pub open spec fn texture_format_family(format: TextureFormat) -> TextureFormatFamily
    recommends
        texture_format_supported(format),
{
    match format {
        TextureFormat::R8Unorm
        | TextureFormat::Rg8Unorm
        | TextureFormat::Rgba8Unorm
        | TextureFormat::Rgba8UnormSrgb
        | TextureFormat::Bgra8Unorm
        | TextureFormat::Bgra8UnormSrgb
        | TextureFormat::Rgb10a2Unorm => TextureFormatFamily::Unorm,
        TextureFormat::R8Snorm
        | TextureFormat::Rg8Snorm
        | TextureFormat::Rgba8Snorm => TextureFormatFamily::Snorm,
        TextureFormat::R8Uint
        | TextureFormat::R16Uint
        | TextureFormat::R32Uint
        | TextureFormat::Rg8Uint
        | TextureFormat::Rg16Uint
        | TextureFormat::Rg32Uint
        | TextureFormat::Rgba8Uint
        | TextureFormat::Rgba16Uint
        | TextureFormat::Rgba32Uint => TextureFormatFamily::Uint,
        TextureFormat::R8Sint
        | TextureFormat::R16Sint
        | TextureFormat::R32Sint
        | TextureFormat::Rg8Sint
        | TextureFormat::Rg16Sint
        | TextureFormat::Rg32Sint
        | TextureFormat::Rgba8Sint
        | TextureFormat::Rgba16Sint
        | TextureFormat::Rgba32Sint => TextureFormatFamily::Sint,
        TextureFormat::R16Float
        | TextureFormat::R32Float
        | TextureFormat::Rg16Float
        | TextureFormat::Rg32Float
        | TextureFormat::Rg11b10Float
        | TextureFormat::Rgba16Float
        | TextureFormat::Rgba32Float => TextureFormatFamily::Float,
        TextureFormat::Depth32Float
        | TextureFormat::Depth24Plus
        | TextureFormat::Depth24PlusStencil8 => TextureFormatFamily::Depth,
        _ => TextureFormatFamily::Unorm,
    }
}

/// How many channels a supported format carries: color channels for the
/// color formats, and the depth and stencil aspects for the depth formats.
pub open spec fn texture_channel_count(format: TextureFormat) -> int
    recommends
        texture_format_supported(format),
{
    match format {
        TextureFormat::R8Unorm
        | TextureFormat::R8Snorm
        | TextureFormat::R8Uint
        | TextureFormat::R8Sint
        | TextureFormat::R16Uint
        | TextureFormat::R16Sint
        | TextureFormat::R16Float
        | TextureFormat::R32Uint
        | TextureFormat::R32Sint
        | TextureFormat::R32Float
        | TextureFormat::Depth32Float
        | TextureFormat::Depth24Plus => 1,
        TextureFormat::Rg8Unorm
        | TextureFormat::Rg8Snorm
        | TextureFormat::Rg8Uint
        | TextureFormat::Rg8Sint
        | TextureFormat::Rg16Uint
        | TextureFormat::Rg16Sint
        | TextureFormat::Rg16Float
        | TextureFormat::Rg32Uint
        | TextureFormat::Rg32Sint
        | TextureFormat::Rg32Float
        | TextureFormat::Depth24PlusStencil8 => 2,
        TextureFormat::Rg11b10Float => 3,
        TextureFormat::Rgba8Unorm
        | TextureFormat::Rgba8UnormSrgb
        | TextureFormat::Bgra8UnormSrgb
        | TextureFormat::Rgba8Snorm
        | TextureFormat::Bgra8Unorm
        | TextureFormat::Rgba8Uint
        | TextureFormat::Rgba8Sint
        | TextureFormat::Rgb10a2Unorm
        | TextureFormat::Rgba16Uint
        | TextureFormat::Rgba16Sint
        | TextureFormat::Rgba16Float
        | TextureFormat::Rgba32Uint
        | TextureFormat::Rgba32Sint
        | TextureFormat::Rgba32Float => 4,
        _ => 0,
    }
}

/// The storage width in bits of one component of a supported color format,
/// with the two packed formats counted as one 32-bit unit.
pub open spec fn texture_component_bits(format: TextureFormat) -> int
    recommends
        texture_format_supported(format),
        texture_format_family(format) != TextureFormatFamily::Depth,
{
    match format {
        TextureFormat::R8Unorm
        | TextureFormat::R8Snorm
        | TextureFormat::R8Uint
        | TextureFormat::R8Sint
        | TextureFormat::Rg8Unorm
        | TextureFormat::Rg8Snorm
        | TextureFormat::Rg8Uint
        | TextureFormat::Rg8Sint
        | TextureFormat::Rgba8Unorm
        | TextureFormat::Rgba8UnormSrgb
        | TextureFormat::Bgra8UnormSrgb
        | TextureFormat::Rgba8Snorm
        | TextureFormat::Bgra8Unorm
        | TextureFormat::Rgba8Uint
        | TextureFormat::Rgba8Sint => 8,
        TextureFormat::R16Uint
        | TextureFormat::R16Sint
        | TextureFormat::R16Float
        | TextureFormat::Rg16Uint
        | TextureFormat::Rg16Sint
        | TextureFormat::Rg16Float
        | TextureFormat::Rgba16Uint
        | TextureFormat::Rgba16Sint
        | TextureFormat::Rgba16Float => 16,
        TextureFormat::R32Uint
        | TextureFormat::R32Sint
        | TextureFormat::R32Float
        | TextureFormat::Rg32Uint
        | TextureFormat::Rg32Sint
        | TextureFormat::Rg32Float
        | TextureFormat::Rgba32Uint
        | TextureFormat::Rgba32Sint
        | TextureFormat::Rgba32Float
        | TextureFormat::Rgb10a2Unorm
        | TextureFormat::Rg11b10Float => 32,
        _ => 0,
    }
}

/// The width in bits of the value a component data-type token transfers,
/// with the packed tokens counted as one 32-bit unit.
pub open spec fn data_type_bits(token: u32) -> int {
    if token == tokens::UNSIGNED_BYTE || token == tokens::BYTE {
        8
    } else if token == tokens::UNSIGNED_SHORT || token == tokens::SHORT
        || token == tokens::HALF_FLOAT {
        16
    } else if token == tokens::UNSIGNED_INT || token == tokens::INT || token == tokens::FLOAT
        || token == tokens::UNSIGNED_INT_2_10_10_10_REV
        || token == tokens::UNSIGNED_INT_10F_11F_11F_REV {
        32
    } else {
        0
    }
}

/// Whether a component data-type token transfers signed integer values.
pub open spec fn data_type_signed(token: u32) -> bool {
    token == tokens::BYTE || token == tokens::SHORT || token == tokens::INT
}

/// How many channels an external channel-layout token names.
pub open spec fn external_channel_count(token: u32) -> int {
    if token == tokens::RED || token == tokens::RED_INTEGER
        || token == tokens::DEPTH_COMPONENT {
        1
    } else if token == tokens::RG || token == tokens::RG_INTEGER {
        2
    } else if token == tokens::RGB {
        3
    } else if token == tokens::RGBA || token == tokens::BGRA
        || token == tokens::RGBA_INTEGER {
        4
    } else {
        0
    }
}

/// The descriptor each supported texture format maps to. This table is the
/// contract: it preserves bit depth, signedness and normalization semantics,
/// channel order and color space, with two deliberate, documented
/// approximations. The byte-swapped sRGB format receives the same triple as
/// its red-first sRGB counterpart, because the driver has no byte-swapped
/// sRGB storage token; and the four-channel 16-bit float format keeps its
/// historical two-channel external layout token. For the compressed
/// variants the table yields a placeholder that no caller can observe:
/// every executable path is fenced off by `texture_format_supported`.
pub open spec fn describe_texture_format_spec(format: TextureFormat) -> TextureFormatDesc
    recommends
        texture_format_supported(format),
{
    match format {
        TextureFormat::R8Unorm => TextureFormatDesc {
            internal: tokens::R8, external: tokens::RED, data_type: tokens::UNSIGNED_BYTE,
        },
        TextureFormat::R8Snorm => TextureFormatDesc {
            internal: tokens::R8, external: tokens::RED, data_type: tokens::BYTE,
        },
        TextureFormat::R8Uint => TextureFormatDesc {
            internal: tokens::R8UI, external: tokens::RED_INTEGER,
            data_type: tokens::UNSIGNED_BYTE,
        },
        TextureFormat::R8Sint => TextureFormatDesc {
            internal: tokens::R8I, external: tokens::RED_INTEGER, data_type: tokens::BYTE,
        },
        TextureFormat::R16Uint => TextureFormatDesc {
            internal: tokens::R16UI, external: tokens::RED_INTEGER,
            data_type: tokens::UNSIGNED_SHORT,
        },
        TextureFormat::R16Sint => TextureFormatDesc {
            internal: tokens::R16I, external: tokens::RED_INTEGER, data_type: tokens::SHORT,
        },
        TextureFormat::R16Float => TextureFormatDesc {
            internal: tokens::R16F, external: tokens::RED, data_type: tokens::HALF_FLOAT,
        },
        TextureFormat::Rg8Unorm => TextureFormatDesc {
            internal: tokens::RG8, external: tokens::RG, data_type: tokens::UNSIGNED_BYTE,
        },
        TextureFormat::Rg8Snorm => TextureFormatDesc {
            internal: tokens::RG8, external: tokens::RG, data_type: tokens::BYTE,
        },
        TextureFormat::Rg8Uint => TextureFormatDesc {
            internal: tokens::RG8UI, external: tokens::RG_INTEGER,
            data_type: tokens::UNSIGNED_BYTE,
        },
        TextureFormat::Rg8Sint => TextureFormatDesc {
            internal: tokens::RG8I, external: tokens::RG_INTEGER, data_type: tokens::BYTE,
        },
        TextureFormat::R32Uint => TextureFormatDesc {
            internal: tokens::R32UI, external: tokens::RED_INTEGER,
            data_type: tokens::UNSIGNED_INT,
        },
        TextureFormat::R32Sint => TextureFormatDesc {
            internal: tokens::R32I, external: tokens::RED_INTEGER, data_type: tokens::INT,
        },
        TextureFormat::R32Float => TextureFormatDesc {
            internal: tokens::R32F, external: tokens::RED, data_type: tokens::FLOAT,
        },
        TextureFormat::Rg16Uint => TextureFormatDesc {
            internal: tokens::RG16UI, external: tokens::RG_INTEGER,
            data_type: tokens::UNSIGNED_SHORT,
        },
        TextureFormat::Rg16Sint => TextureFormatDesc {
            internal: tokens::RG16I, external: tokens::RG_INTEGER, data_type: tokens::SHORT,
        },
        TextureFormat::Rg16Float => TextureFormatDesc {
            internal: tokens::RG16F, external: tokens::RG, data_type: tokens::HALF_FLOAT,
        },
        TextureFormat::Rgba8Unorm => TextureFormatDesc {
            internal: tokens::RGBA8, external: tokens::RGBA, data_type: tokens::UNSIGNED_BYTE,
        },
        TextureFormat::Rgba8UnormSrgb => TextureFormatDesc {
            internal: tokens::SRGB8_ALPHA8, external: tokens::RGBA,
            data_type: tokens::UNSIGNED_BYTE,
        },
        TextureFormat::Bgra8UnormSrgb => TextureFormatDesc {
            internal: tokens::SRGB8_ALPHA8, external: tokens::RGBA,
            data_type: tokens::UNSIGNED_BYTE,
        },
        TextureFormat::Rgba8Snorm => TextureFormatDesc {
            internal: tokens::RGBA8, external: tokens::RGBA, data_type: tokens::BYTE,
        },
        TextureFormat::Bgra8Unorm => TextureFormatDesc {
            internal: tokens::RGBA8, external: tokens::BGRA, data_type: tokens::UNSIGNED_BYTE,
        },
        TextureFormat::Rgba8Uint => TextureFormatDesc {
            internal: tokens::RGBA8UI, external: tokens::RGBA_INTEGER,
            data_type: tokens::UNSIGNED_BYTE,
        },
        TextureFormat::Rgba8Sint => TextureFormatDesc {
            internal: tokens::RGBA8I, external: tokens::RGBA_INTEGER, data_type: tokens::BYTE,
        },
        TextureFormat::Rgb10a2Unorm => TextureFormatDesc {
            internal: tokens::RGB10_A2, external: tokens::RGBA,
            data_type: tokens::UNSIGNED_INT_2_10_10_10_REV,
        },
        TextureFormat::Rg11b10Float => TextureFormatDesc {
            internal: tokens::R11F_G11F_B10F, external: tokens::RGB,
            data_type: tokens::UNSIGNED_INT_10F_11F_11F_REV,
        },
        TextureFormat::Rg32Uint => TextureFormatDesc {
            internal: tokens::RG32UI, external: tokens::RG_INTEGER,
            data_type: tokens::UNSIGNED_INT,
        },
        TextureFormat::Rg32Sint => TextureFormatDesc {
            internal: tokens::RG32I, external: tokens::RG_INTEGER, data_type: tokens::INT,
        },
        TextureFormat::Rg32Float => TextureFormatDesc {
            internal: tokens::RG32F, external: tokens::RG, data_type: tokens::FLOAT,
        },
        TextureFormat::Rgba16Uint => TextureFormatDesc {
            internal: tokens::RGBA16UI, external: tokens::RGBA_INTEGER,
            data_type: tokens::UNSIGNED_SHORT,
        },
        TextureFormat::Rgba16Sint => TextureFormatDesc {
            internal: tokens::RGBA16I, external: tokens::RGBA_INTEGER,
            data_type: tokens::SHORT,
        },
        TextureFormat::Rgba16Float => TextureFormatDesc {
            internal: tokens::RGBA16F, external: tokens::RG, data_type: tokens::HALF_FLOAT,
        },
        TextureFormat::Rgba32Uint => TextureFormatDesc {
            internal: tokens::RGBA32UI, external: tokens::RGBA_INTEGER,
            data_type: tokens::UNSIGNED_INT,
        },
        TextureFormat::Rgba32Sint => TextureFormatDesc {
            internal: tokens::RGBA32I, external: tokens::RGBA_INTEGER, data_type: tokens::INT,
        },
        TextureFormat::Rgba32Float => TextureFormatDesc {
            internal: tokens::RGBA32F, external: tokens::RGBA, data_type: tokens::FLOAT,
        },
        TextureFormat::Depth32Float => TextureFormatDesc {
            internal: tokens::DEPTH_COMPONENT32F, external: tokens::DEPTH_COMPONENT,
            data_type: tokens::FLOAT,
        },
        TextureFormat::Depth24Plus => TextureFormatDesc {
            internal: tokens::DEPTH_COMPONENT24, external: tokens::DEPTH_COMPONENT,
            data_type: tokens::UNSIGNED_NORMALIZED,
        },
        TextureFormat::Depth24PlusStencil8 => TextureFormatDesc {
            internal: tokens::DEPTH24_STENCIL8, external: tokens::DEPTH_COMPONENT,
            data_type: tokens::UNSIGNED_INT,
        },
        TextureFormat::Bc1RgbaUnorm
        | TextureFormat::Bc1RgbaUnormSrgb
        | TextureFormat::Bc2RgbaUnorm
        | TextureFormat::Bc2RgbaUnormSrgb
        | TextureFormat::Bc3RgbaUnorm
        | TextureFormat::Bc3RgbaUnormSrgb
        | TextureFormat::Bc4RUnorm
        | TextureFormat::Bc4RSnorm
        | TextureFormat::Bc5RgUnorm
        | TextureFormat::Bc5RgSnorm
        | TextureFormat::Bc6hRgbSfloat
        | TextureFormat::Bc6hRgbUfloat
        | TextureFormat::Bc7RgbaUnorm
        | TextureFormat::Bc7RgbaUnormSrgb
        | TextureFormat::Etc2RgbUnorm
        | TextureFormat::Etc2RgbUnormSrgb
        | TextureFormat::Etc2RgbA1Unorm
        | TextureFormat::Etc2RgbA1UnormSrgb
        | TextureFormat::EacRUnorm
        | TextureFormat::EacRSnorm
        | TextureFormat::EtcRgUnorm
        | TextureFormat::EtcRgSnorm
        | TextureFormat::Astc4x4RgbaUnorm
        | TextureFormat::Astc4x4RgbaUnormSrgb
        | TextureFormat::Astc5x4RgbaUnorm
        | TextureFormat::Astc5x4RgbaUnormSrgb
        | TextureFormat::Astc5x5RgbaUnorm
        | TextureFormat::Astc5x5RgbaUnormSrgb
        | TextureFormat::Astc6x5RgbaUnorm
        | TextureFormat::Astc6x5RgbaUnormSrgb
        | TextureFormat::Astc6x6RgbaUnorm
        | TextureFormat::Astc6x6RgbaUnormSrgb
        | TextureFormat::Astc8x5RgbaUnorm
        | TextureFormat::Astc8x5RgbaUnormSrgb
        | TextureFormat::Astc8x6RgbaUnorm
        | TextureFormat::Astc8x6RgbaUnormSrgb
        | TextureFormat::Astc10x5RgbaUnorm
        | TextureFormat::Astc10x5RgbaUnormSrgb
        | TextureFormat::Astc10x6RgbaUnorm
        | TextureFormat::Astc10x6RgbaUnormSrgb
        | TextureFormat::Astc8x8RgbaUnorm
        | TextureFormat::Astc8x8RgbaUnormSrgb
        | TextureFormat::Astc10x8RgbaUnorm
        | TextureFormat::Astc10x8RgbaUnormSrgb
        | TextureFormat::Astc10x10RgbaUnorm
        | TextureFormat::Astc10x10RgbaUnormSrgb
        | TextureFormat::Astc12x10RgbaUnorm
        | TextureFormat::Astc12x10RgbaUnormSrgb
        | TextureFormat::Astc12x12RgbaUnorm
        | TextureFormat::Astc12x12RgbaUnormSrgb => TextureFormatDesc {
            internal: 0, external: 0, data_type: 0,
        },
    }
}

/// Maps a supported texture format to its descriptor. Reaching this mapper
/// with a compressed format is a contract violation by the caller, which
/// should have rejected the format during capability negotiation; use
/// `try_describe_texture_format` at that boundary instead.
pub fn describe_texture_format(texture_format: TextureFormat) -> (r: TextureFormatDesc)
    requires
        texture_format_supported(texture_format),
    ensures
        r == describe_texture_format_spec(texture_format),
{
    match try_describe_texture_format(texture_format) {
        Some(desc) => desc,
        None => unreached(),
    }
}

/// Maps a texture format to its descriptor, or reports that the backend
/// cannot represent it. Returns `Some` exactly for the uncompressed formats,
/// and never substitutes a wrong descriptor for an unsupported one.
pub fn try_describe_texture_format(texture_format: TextureFormat) -> (r: Option<
    TextureFormatDesc,
>)
    ensures
        r is Some <==> texture_format_supported(texture_format),
        texture_format_supported(texture_format)
            ==> r == Some(describe_texture_format_spec(texture_format)),
{
    let (internal, external, data_type): (u32, u32, u32) = match texture_format {
        TextureFormat::R8Unorm => (tokens::R8, tokens::RED, tokens::UNSIGNED_BYTE),
        TextureFormat::R8Snorm => (tokens::R8, tokens::RED, tokens::BYTE),
        TextureFormat::R8Uint => (tokens::R8UI, tokens::RED_INTEGER, tokens::UNSIGNED_BYTE),
        TextureFormat::R8Sint => (tokens::R8I, tokens::RED_INTEGER, tokens::BYTE),
        TextureFormat::R16Uint => (tokens::R16UI, tokens::RED_INTEGER, tokens::UNSIGNED_SHORT),
        TextureFormat::R16Sint => (tokens::R16I, tokens::RED_INTEGER, tokens::SHORT),
        TextureFormat::R16Float => (tokens::R16F, tokens::RED, tokens::HALF_FLOAT),
        TextureFormat::Rg8Unorm => (tokens::RG8, tokens::RG, tokens::UNSIGNED_BYTE),
        TextureFormat::Rg8Snorm => (tokens::RG8, tokens::RG, tokens::BYTE),
        TextureFormat::Rg8Uint => (tokens::RG8UI, tokens::RG_INTEGER, tokens::UNSIGNED_BYTE),
        TextureFormat::Rg8Sint => (tokens::RG8I, tokens::RG_INTEGER, tokens::BYTE),
        TextureFormat::R32Uint => (tokens::R32UI, tokens::RED_INTEGER, tokens::UNSIGNED_INT),
        TextureFormat::R32Sint => (tokens::R32I, tokens::RED_INTEGER, tokens::INT),
        TextureFormat::R32Float => (tokens::R32F, tokens::RED, tokens::FLOAT),
        TextureFormat::Rg16Uint => (tokens::RG16UI, tokens::RG_INTEGER, tokens::UNSIGNED_SHORT),
        TextureFormat::Rg16Sint => (tokens::RG16I, tokens::RG_INTEGER, tokens::SHORT),
        TextureFormat::Rg16Float => (tokens::RG16F, tokens::RG, tokens::HALF_FLOAT),
        TextureFormat::Rgba8Unorm => (tokens::RGBA8, tokens::RGBA, tokens::UNSIGNED_BYTE),
        TextureFormat::Rgba8UnormSrgb => (
            tokens::SRGB8_ALPHA8,
            tokens::RGBA,
            tokens::UNSIGNED_BYTE,
        ),
        TextureFormat::Bgra8UnormSrgb => (
            tokens::SRGB8_ALPHA8,
            tokens::RGBA,
            tokens::UNSIGNED_BYTE,
        ),
        TextureFormat::Rgba8Snorm => (tokens::RGBA8, tokens::RGBA, tokens::BYTE),
        TextureFormat::Bgra8Unorm => (tokens::RGBA8, tokens::BGRA, tokens::UNSIGNED_BYTE),
        TextureFormat::Rgba8Uint => (
            tokens::RGBA8UI,
            tokens::RGBA_INTEGER,
            tokens::UNSIGNED_BYTE,
        ),
        TextureFormat::Rgba8Sint => (tokens::RGBA8I, tokens::RGBA_INTEGER, tokens::BYTE),
        TextureFormat::Rgb10a2Unorm => (
            tokens::RGB10_A2,
            tokens::RGBA,
            tokens::UNSIGNED_INT_2_10_10_10_REV,
        ),
        TextureFormat::Rg11b10Float => (
            tokens::R11F_G11F_B10F,
            tokens::RGB,
            tokens::UNSIGNED_INT_10F_11F_11F_REV,
        ),
        TextureFormat::Rg32Uint => (tokens::RG32UI, tokens::RG_INTEGER, tokens::UNSIGNED_INT),
        TextureFormat::Rg32Sint => (tokens::RG32I, tokens::RG_INTEGER, tokens::INT),
        TextureFormat::Rg32Float => (tokens::RG32F, tokens::RG, tokens::FLOAT),
        TextureFormat::Rgba16Uint => (
            tokens::RGBA16UI,
            tokens::RGBA_INTEGER,
            tokens::UNSIGNED_SHORT,
        ),
        TextureFormat::Rgba16Sint => (tokens::RGBA16I, tokens::RGBA_INTEGER, tokens::SHORT),
        TextureFormat::Rgba16Float => (tokens::RGBA16F, tokens::RG, tokens::HALF_FLOAT),
        TextureFormat::Rgba32Uint => (
            tokens::RGBA32UI,
            tokens::RGBA_INTEGER,
            tokens::UNSIGNED_INT,
        ),
        TextureFormat::Rgba32Sint => (tokens::RGBA32I, tokens::RGBA_INTEGER, tokens::INT),
        TextureFormat::Rgba32Float => (tokens::RGBA32F, tokens::RGBA, tokens::FLOAT),
        TextureFormat::Depth32Float => (
            tokens::DEPTH_COMPONENT32F,
            tokens::DEPTH_COMPONENT,
            tokens::FLOAT,
        ),
        TextureFormat::Depth24Plus => (
            tokens::DEPTH_COMPONENT24,
            tokens::DEPTH_COMPONENT,
            tokens::UNSIGNED_NORMALIZED,
        ),
        TextureFormat::Depth24PlusStencil8 => (
            tokens::DEPTH24_STENCIL8,
            tokens::DEPTH_COMPONENT,
            tokens::UNSIGNED_INT,
        ),
        TextureFormat::Bc1RgbaUnorm
        | TextureFormat::Bc1RgbaUnormSrgb
        | TextureFormat::Bc2RgbaUnorm
        | TextureFormat::Bc2RgbaUnormSrgb
        | TextureFormat::Bc3RgbaUnorm
        | TextureFormat::Bc3RgbaUnormSrgb
        | TextureFormat::Bc4RUnorm
        | TextureFormat::Bc4RSnorm
        | TextureFormat::Bc5RgUnorm
        | TextureFormat::Bc5RgSnorm
        | TextureFormat::Bc6hRgbSfloat
        | TextureFormat::Bc6hRgbUfloat
        | TextureFormat::Bc7RgbaUnorm
        | TextureFormat::Bc7RgbaUnormSrgb
        | TextureFormat::Etc2RgbUnorm
        | TextureFormat::Etc2RgbUnormSrgb
        | TextureFormat::Etc2RgbA1Unorm
        | TextureFormat::Etc2RgbA1UnormSrgb
        | TextureFormat::EacRUnorm
        | TextureFormat::EacRSnorm
        | TextureFormat::EtcRgUnorm
        | TextureFormat::EtcRgSnorm
        | TextureFormat::Astc4x4RgbaUnorm
        | TextureFormat::Astc4x4RgbaUnormSrgb
        | TextureFormat::Astc5x4RgbaUnorm
        | TextureFormat::Astc5x4RgbaUnormSrgb
        | TextureFormat::Astc5x5RgbaUnorm
        | TextureFormat::Astc5x5RgbaUnormSrgb
        | TextureFormat::Astc6x5RgbaUnorm
        | TextureFormat::Astc6x5RgbaUnormSrgb
        | TextureFormat::Astc6x6RgbaUnorm
        | TextureFormat::Astc6x6RgbaUnormSrgb
        | TextureFormat::Astc8x5RgbaUnorm
        | TextureFormat::Astc8x5RgbaUnormSrgb
        | TextureFormat::Astc8x6RgbaUnorm
        | TextureFormat::Astc8x6RgbaUnormSrgb
        | TextureFormat::Astc10x5RgbaUnorm
        | TextureFormat::Astc10x5RgbaUnormSrgb
        | TextureFormat::Astc10x6RgbaUnorm
        | TextureFormat::Astc10x6RgbaUnormSrgb
        | TextureFormat::Astc8x8RgbaUnorm
        | TextureFormat::Astc8x8RgbaUnormSrgb
        | TextureFormat::Astc10x8RgbaUnorm
        | TextureFormat::Astc10x8RgbaUnormSrgb
        | TextureFormat::Astc10x10RgbaUnorm
        | TextureFormat::Astc10x10RgbaUnormSrgb
        | TextureFormat::Astc12x10RgbaUnorm
        | TextureFormat::Astc12x10RgbaUnormSrgb
        | TextureFormat::Astc12x12RgbaUnorm
        | TextureFormat::Astc12x12RgbaUnormSrgb => {
            return None;
        },
    };

    Some(TextureFormatDesc { internal, external, data_type })
}

/// Within a numeric family, the mapping is injective on the internal
/// storage token: distinct supported formats of the same family and channel
/// count receive distinct internal tokens, once the sRGB formats (which
/// collapse onto their linear counterpart's layout) and the byte-swapped
/// formats (which collapse onto their red-first counterpart's storage) are
/// set aside. Across families the tokens may coincide: a normalized
/// unsigned format and its signed sibling share one storage token.
pub proof fn lemma_texture_internal_injective(a: TextureFormat, b: TextureFormat)
    requires
        texture_format_supported(a),
        texture_format_supported(b),
        !texture_format_is_srgb(a),
        !texture_format_is_srgb(b),
        !texture_format_is_byte_swapped(a),
        !texture_format_is_byte_swapped(b),
        texture_format_family(a) == texture_format_family(b),
        texture_channel_count(a) == texture_channel_count(b),
        a != b,
    ensures
        describe_texture_format_spec(a).internal != describe_texture_format_spec(b).internal,
{
}

/// The mapper's contract is deterministic: any two results that satisfy it
/// for the same format are bit-identical.
pub proof fn lemma_describe_texture_format_deterministic(
    a: TextureFormat,
    b: TextureFormat,
    r1: TextureFormatDesc,
    r2: TextureFormatDesc,
)
    requires
        a == b,
        r1 == describe_texture_format_spec(a),
        r2 == describe_texture_format_spec(b),
    ensures
        r1 == r2,
{
}

/// For every supported color format but the four-channel 16-bit float one
/// (whose two-channel external token is the documented historical quirk),
/// the external channel layout names exactly the format's channel count.
pub proof fn lemma_external_matches_channel_count(format: TextureFormat)
    requires
        texture_format_supported(format),
        texture_format_family(format) != TextureFormatFamily::Depth,
        format != TextureFormat::Rgba16Float,
    ensures
        external_channel_count(describe_texture_format_spec(format).external)
            == texture_channel_count(format),
{
}

/// For every supported color format, the descriptor's component data type
/// transfers values of exactly the format's storage width. The depth formats
/// are left out: their transfer types are driver conventions with no
/// per-component width (a normalized token for the 24-bit storage, a packed
/// 32-bit integer for combined depth and stencil).
pub proof fn lemma_data_type_matches_width(format: TextureFormat)
    requires
        texture_format_supported(format),
        texture_format_family(format) != TextureFormatFamily::Depth,
    ensures
        data_type_bits(describe_texture_format_spec(format).data_type)
            == texture_component_bits(format),
{
}

/// For every supported format of an integer or normalized-integer family,
/// the descriptor's component data type is signed exactly when the family
/// is signed.
pub proof fn lemma_data_type_matches_signedness(format: TextureFormat)
    requires
        texture_format_supported(format),
    ensures
        texture_format_family(format) == TextureFormatFamily::Uint
            || texture_format_family(format) == TextureFormatFamily::Unorm
            ==> !data_type_signed(describe_texture_format_spec(format).data_type),
        texture_format_family(format) == TextureFormatFamily::Sint
            || texture_format_family(format) == TextureFormatFamily::Snorm
            ==> data_type_signed(describe_texture_format_spec(format).data_type),
{
}

/// An sRGB format keeps the external channel layout and component data type
/// of a linear format of its family and channel count, changing only the
/// internal storage token to the sRGB-encoded one.
pub proof fn lemma_srgb_keeps_layout()
    ensures
        describe_texture_format_spec(TextureFormat::Rgba8UnormSrgb).external
            == describe_texture_format_spec(TextureFormat::Rgba8Unorm).external,
        describe_texture_format_spec(TextureFormat::Rgba8UnormSrgb).data_type
            == describe_texture_format_spec(TextureFormat::Rgba8Unorm).data_type,
        describe_texture_format_spec(TextureFormat::Rgba8UnormSrgb).internal
            == tokens::SRGB8_ALPHA8,
        describe_texture_format_spec(TextureFormat::Bgra8UnormSrgb)
            == describe_texture_format_spec(TextureFormat::Rgba8UnormSrgb),
{
}

} // verus!
