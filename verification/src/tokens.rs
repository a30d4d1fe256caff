//! The driver-level numeric tokens that the mappers return. Each is an
//! OpenGL enumerant value; the surrounding backend passes them to the driver
//! unmodified and never interprets them here.

use vstd::prelude::*;

verus! {

// Internal storage tokens: how pixel data is stored on the device.
pub const R8: u32 = 0x8229;
pub const R8UI: u32 = 0x8232;
pub const R8I: u32 = 0x8231;
pub const R16UI: u32 = 0x8234;
pub const R16I: u32 = 0x8233;
pub const R16F: u32 = 0x822D;
pub const R32UI: u32 = 0x8236;
pub const R32I: u32 = 0x8235;
pub const R32F: u32 = 0x822E;
pub const RG8: u32 = 0x822B;
pub const RG8UI: u32 = 0x8238;
pub const RG8I: u32 = 0x8237;
pub const RG16UI: u32 = 0x823A;
pub const RG16I: u32 = 0x8239;
pub const RG16F: u32 = 0x822F;
pub const RG32UI: u32 = 0x823C;
pub const RG32I: u32 = 0x823B;
pub const RG32F: u32 = 0x8230;
pub const RGBA8: u32 = 0x8058;
pub const SRGB8_ALPHA8: u32 = 0x8C43;
pub const RGBA8UI: u32 = 0x8D7C;
pub const RGBA8I: u32 = 0x8D8E;
pub const RGB10_A2: u32 = 0x8059;
pub const R11F_G11F_B10F: u32 = 0x8C3A;
pub const RGBA16UI: u32 = 0x8D76;
pub const RGBA16I: u32 = 0x8D88;
pub const RGBA16F: u32 = 0x881A;
pub const RGBA32UI: u32 = 0x8D70;
pub const RGBA32I: u32 = 0x8D82;
pub const RGBA32F: u32 = 0x8814;
pub const DEPTH_COMPONENT32F: u32 = 0x8CAC;
pub const DEPTH_COMPONENT24: u32 = 0x81A6;
pub const DEPTH24_STENCIL8: u32 = 0x88F0;

// External channel-layout tokens: the channel order used when transferring
// pixel data to or from the device.
pub const RED: u32 = 0x1903;
pub const RG: u32 = 0x8227;
pub const RGB: u32 = 0x1907;
pub const RGBA: u32 = 0x1908;
pub const BGRA: u32 = 0x80E1;
pub const RED_INTEGER: u32 = 0x8D94;
pub const RG_INTEGER: u32 = 0x8228;
pub const RGBA_INTEGER: u32 = 0x8D99;
pub const DEPTH_COMPONENT: u32 = 0x1902;

// Component data-type tokens: the numeric representation of each component.
pub const UNSIGNED_BYTE: u32 = 0x1401;
pub const BYTE: u32 = 0x1400;
pub const UNSIGNED_SHORT: u32 = 0x1403;
pub const SHORT: u32 = 0x1402;
pub const UNSIGNED_INT: u32 = 0x1405;
pub const INT: u32 = 0x1404;
pub const FLOAT: u32 = 0x1406;
pub const HALF_FLOAT: u32 = 0x140B;
pub const UNSIGNED_INT_2_10_10_10_REV: u32 = 0x8368;
pub const UNSIGNED_INT_10F_11F_11F_REV: u32 = 0x8C3B;
pub const UNSIGNED_NORMALIZED: u32 = 0x8C17;

// Sampler filter tokens.
pub const NEAREST: u32 = 0x2600;
pub const LINEAR: u32 = 0x2601;
pub const NEAREST_MIPMAP_NEAREST: u32 = 0x2700;
pub const LINEAR_MIPMAP_NEAREST: u32 = 0x2701;
pub const NEAREST_MIPMAP_LINEAR: u32 = 0x2702;
pub const LINEAR_MIPMAP_LINEAR: u32 = 0x2703;

// Sampler address-mode (wrap) tokens.
pub const REPEAT: u32 = 0x2901;
pub const MIRRORED_REPEAT: u32 = 0x8370;
pub const CLAMP_TO_EDGE: u32 = 0x812F;
pub const CLAMP_TO_BORDER: u32 = 0x812D;

// Comparison tokens.
pub const NEVER: u32 = 0x0200;
pub const LESS: u32 = 0x0201;
pub const EQUAL: u32 = 0x0202;
pub const LEQUAL: u32 = 0x0203;
pub const GREATER: u32 = 0x0204;
pub const NOTEQUAL: u32 = 0x0205;
pub const GEQUAL: u32 = 0x0206;
pub const ALWAYS: u32 = 0x0207;

// Draw-mode tokens.
pub const POINTS: u32 = 0x0000;
pub const LINES: u32 = 0x0001;
pub const LINE_STRIP: u32 = 0x0003;
pub const TRIANGLES: u32 = 0x0004;
pub const TRIANGLE_STRIP: u32 = 0x0005;

// Texture-target tokens.
pub const TEXTURE_2D: u32 = 0x0DE1;
pub const TEXTURE_2D_ARRAY: u32 = 0x8C1A;
pub const TEXTURE_CUBE_MAP: u32 = 0x8513;
pub const TEXTURE_CUBE_MAP_ARRAY: u32 = 0x9009;
pub const TEXTURE_3D: u32 = 0x806F;

} // verus!
