//! Vertex format mapper: portable vertex attribute formats to the descriptor
//! triple (component count, component data-type token, interpretation kind).

use vstd::prelude::*;

use crate::tokens;

verus! {

/// A portable vertex attribute format: component width, component count and
/// numeric interpretation. The double-width (64-bit) variants exist in the
/// portable enumeration but are not representable by this backend.
#[derive(Clone, Copy, PartialEq, Eq, Debug)]
pub enum VertexFormat {
    Unorm8x2,
    Snorm8x2,
    Uint8x2,
    Sint8x2,
    Unorm8x4,
    Snorm8x4,
    Uint8x4,
    Sint8x4,
    Unorm16x2,
    Snorm16x2,
    Uint16x2,
    Sint16x2,
    Float16x2,
    Unorm16x4,
    Snorm16x4,
    Uint16x4,
    Sint16x4,
    Float16x4,
    Uint32,
    Sint32,
    Float32,
    Uint32x2,
    Sint32x2,
    Float32x2,
    Uint32x3,
    Sint32x3,
    Float32x3,
    Uint32x4,
    Sint32x4,
    Float32x4,
    Float64,
    Float64x2,
    Float64x3,
    Float64x4,
}

/// Whether the driver passes raw integer attribute values to the shader
/// stage (`Integer`) or converts to floating point (`Float`, which covers
/// normalized-integer and native floating formats).
#[derive(Clone, Copy, PartialEq, Eq, Debug)]
pub enum VertexAttribKind {
    Float,
    Integer,
}

/// The descriptor a vertex attribute format maps to: the number of
/// components (one to four), the driver token for the component data type,
/// and the interpretation kind.
#[derive(Clone, Copy, PartialEq, Eq, Debug)]
pub struct VertexFormatDesc {
    pub element_count: i32,
    pub element_format: u32,
    pub attrib_kind: VertexAttribKind,
}

/// Whether this backend can represent the format. The 64-bit (double-width)
/// variants are the only unsupported ones.
pub open spec fn vertex_format_supported(format: VertexFormat) -> bool {
    match format {
        VertexFormat::Float64
        | VertexFormat::Float64x2
        | VertexFormat::Float64x3
        | VertexFormat::Float64x4 => false,
        _ => true,
    }
}

/// The number of components the portable format carries.
pub open spec fn vertex_component_count(format: VertexFormat) -> int {
    match format {
        VertexFormat::Uint32 | VertexFormat::Sint32 | VertexFormat::Float32
        | VertexFormat::Float64 => 1,
        VertexFormat::Unorm8x2 | VertexFormat::Snorm8x2 | VertexFormat::Uint8x2
        | VertexFormat::Sint8x2 | VertexFormat::Unorm16x2 | VertexFormat::Snorm16x2
        | VertexFormat::Uint16x2 | VertexFormat::Sint16x2 | VertexFormat::Float16x2
        | VertexFormat::Uint32x2 | VertexFormat::Sint32x2 | VertexFormat::Float32x2
        | VertexFormat::Float64x2 => 2,
        VertexFormat::Uint32x3 | VertexFormat::Sint32x3 | VertexFormat::Float32x3
        | VertexFormat::Float64x3 => 3,
        VertexFormat::Unorm8x4 | VertexFormat::Snorm8x4 | VertexFormat::Uint8x4
        | VertexFormat::Sint8x4 | VertexFormat::Unorm16x4 | VertexFormat::Snorm16x4
        | VertexFormat::Uint16x4 | VertexFormat::Sint16x4 | VertexFormat::Float16x4
        | VertexFormat::Uint32x4 | VertexFormat::Sint32x4 | VertexFormat::Float32x4
        | VertexFormat::Float64x4 => 4,
    }
}

/// Whether the portable format is a non-normalized integer format, whose
/// attribute data the driver passes to the shader without float conversion.
pub open spec fn vertex_format_is_integer(format: VertexFormat) -> bool {
    match format {
        VertexFormat::Uint8x2 | VertexFormat::Sint8x2
        | VertexFormat::Uint8x4 | VertexFormat::Sint8x4
        | VertexFormat::Uint16x2 | VertexFormat::Sint16x2
        | VertexFormat::Uint16x4 | VertexFormat::Sint16x4
        | VertexFormat::Uint32 | VertexFormat::Sint32
        | VertexFormat::Uint32x2 | VertexFormat::Sint32x2
        | VertexFormat::Uint32x3 | VertexFormat::Sint32x3
        | VertexFormat::Uint32x4 | VertexFormat::Sint32x4 => true,
        _ => false,
    }
}

/// The descriptor each supported vertex format maps to. For the unsupported
/// (64-bit) variants the table yields a placeholder that no caller can
/// observe: every executable path is fenced off by
/// `vertex_format_supported`.
pub open spec fn describe_vertex_format_spec(format: VertexFormat) -> VertexFormatDesc
    recommends
        vertex_format_supported(format),
{
    match format {
        VertexFormat::Unorm8x2 => VertexFormatDesc {
            element_count: 2, element_format: tokens::UNSIGNED_BYTE,
            attrib_kind: VertexAttribKind::Float,
        },
        VertexFormat::Snorm8x2 => VertexFormatDesc {
            element_count: 2, element_format: tokens::BYTE,
            attrib_kind: VertexAttribKind::Float,
        },
        VertexFormat::Uint8x2 => VertexFormatDesc {
            element_count: 2, element_format: tokens::UNSIGNED_BYTE,
            attrib_kind: VertexAttribKind::Integer,
        },
        VertexFormat::Sint8x2 => VertexFormatDesc {
            element_count: 2, element_format: tokens::BYTE,
            attrib_kind: VertexAttribKind::Integer,
        },
        VertexFormat::Unorm8x4 => VertexFormatDesc {
            element_count: 4, element_format: tokens::UNSIGNED_BYTE,
            attrib_kind: VertexAttribKind::Float,
        },
        VertexFormat::Snorm8x4 => VertexFormatDesc {
            element_count: 4, element_format: tokens::BYTE,
            attrib_kind: VertexAttribKind::Float,
        },
        VertexFormat::Uint8x4 => VertexFormatDesc {
            element_count: 4, element_format: tokens::UNSIGNED_BYTE,
            attrib_kind: VertexAttribKind::Integer,
        },
        VertexFormat::Sint8x4 => VertexFormatDesc {
            element_count: 4, element_format: tokens::BYTE,
            attrib_kind: VertexAttribKind::Integer,
        },
        VertexFormat::Unorm16x2 => VertexFormatDesc {
            element_count: 2, element_format: tokens::UNSIGNED_SHORT,
            attrib_kind: VertexAttribKind::Float,
        },
        VertexFormat::Snorm16x2 => VertexFormatDesc {
            element_count: 2, element_format: tokens::SHORT,
            attrib_kind: VertexAttribKind::Float,
        },
        VertexFormat::Uint16x2 => VertexFormatDesc {
            element_count: 2, element_format: tokens::UNSIGNED_SHORT,
            attrib_kind: VertexAttribKind::Integer,
        },
        VertexFormat::Sint16x2 => VertexFormatDesc {
            element_count: 2, element_format: tokens::SHORT,
            attrib_kind: VertexAttribKind::Integer,
        },
        VertexFormat::Float16x2 => VertexFormatDesc {
            element_count: 2, element_format: tokens::HALF_FLOAT,
            attrib_kind: VertexAttribKind::Float,
        },
        VertexFormat::Unorm16x4 => VertexFormatDesc {
            element_count: 4, element_format: tokens::UNSIGNED_SHORT,
            attrib_kind: VertexAttribKind::Float,
        },
        VertexFormat::Snorm16x4 => VertexFormatDesc {
            element_count: 4, element_format: tokens::SHORT,
            attrib_kind: VertexAttribKind::Float,
        },
        VertexFormat::Uint16x4 => VertexFormatDesc {
            element_count: 4, element_format: tokens::UNSIGNED_SHORT,
            attrib_kind: VertexAttribKind::Integer,
        },
        VertexFormat::Sint16x4 => VertexFormatDesc {
            element_count: 4, element_format: tokens::SHORT,
            attrib_kind: VertexAttribKind::Integer,
        },
        VertexFormat::Float16x4 => VertexFormatDesc {
            element_count: 4, element_format: tokens::HALF_FLOAT,
            attrib_kind: VertexAttribKind::Float,
        },
        VertexFormat::Uint32 => VertexFormatDesc {
            element_count: 1, element_format: tokens::UNSIGNED_INT,
            attrib_kind: VertexAttribKind::Integer,
        },
        VertexFormat::Sint32 => VertexFormatDesc {
            element_count: 1, element_format: tokens::INT,
            attrib_kind: VertexAttribKind::Integer,
        },
        VertexFormat::Float32 => VertexFormatDesc {
            element_count: 1, element_format: tokens::FLOAT,
            attrib_kind: VertexAttribKind::Float,
        },
        VertexFormat::Uint32x2 => VertexFormatDesc {
            element_count: 2, element_format: tokens::UNSIGNED_INT,
            attrib_kind: VertexAttribKind::Integer,
        },
        VertexFormat::Sint32x2 => VertexFormatDesc {
            element_count: 2, element_format: tokens::INT,
            attrib_kind: VertexAttribKind::Integer,
        },
        VertexFormat::Float32x2 => VertexFormatDesc {
            element_count: 2, element_format: tokens::FLOAT,
            attrib_kind: VertexAttribKind::Float,
        },
        VertexFormat::Uint32x3 => VertexFormatDesc {
            element_count: 3, element_format: tokens::UNSIGNED_INT,
            attrib_kind: VertexAttribKind::Integer,
        },
        VertexFormat::Sint32x3 => VertexFormatDesc {
            element_count: 3, element_format: tokens::INT,
            attrib_kind: VertexAttribKind::Integer,
        },
        VertexFormat::Float32x3 => VertexFormatDesc {
            element_count: 3, element_format: tokens::FLOAT,
            attrib_kind: VertexAttribKind::Float,
        },
        VertexFormat::Uint32x4 => VertexFormatDesc {
            element_count: 4, element_format: tokens::UNSIGNED_INT,
            attrib_kind: VertexAttribKind::Integer,
        },
        VertexFormat::Sint32x4 => VertexFormatDesc {
            element_count: 4, element_format: tokens::INT,
            attrib_kind: VertexAttribKind::Integer,
        },
        VertexFormat::Float32x4 => VertexFormatDesc {
            element_count: 4, element_format: tokens::FLOAT,
            attrib_kind: VertexAttribKind::Float,
        },
        VertexFormat::Float64 | VertexFormat::Float64x2 | VertexFormat::Float64x3
        | VertexFormat::Float64x4 => VertexFormatDesc {
            element_count: 0, element_format: 0, attrib_kind: VertexAttribKind::Float,
        },
    }
}

/// Maps a supported vertex format to its descriptor. Reaching this mapper
/// with a 64-bit format is a contract violation by the caller, which should
/// have rejected the format during capability negotiation; use
/// `try_describe_vertex_format` at that boundary instead.
pub fn describe_vertex_format(vertex_format: VertexFormat) -> (r: VertexFormatDesc)
    requires
        vertex_format_supported(vertex_format),
    ensures
        r == describe_vertex_format_spec(vertex_format),
{
    match try_describe_vertex_format(vertex_format) {
        Some(desc) => desc,
        None => unreached(),
    }
}

/// Maps a vertex format to its descriptor, or reports that the backend
/// cannot represent it. Returns `Some` exactly for the supported formats,
/// and never substitutes a wrong descriptor for an unsupported one.
pub fn try_describe_vertex_format(vertex_format: VertexFormat) -> (r: Option<VertexFormatDesc>)
    ensures
        r is Some <==> vertex_format_supported(vertex_format),
        vertex_format_supported(vertex_format)
            ==> r == Some(describe_vertex_format_spec(vertex_format)),
{
    let (element_count, element_format, attrib_kind): (i32, u32, VertexAttribKind) =
        match vertex_format {
            VertexFormat::Unorm8x2 => (2, tokens::UNSIGNED_BYTE, VertexAttribKind::Float),
            VertexFormat::Snorm8x2 => (2, tokens::BYTE, VertexAttribKind::Float),
            VertexFormat::Uint8x2 => (2, tokens::UNSIGNED_BYTE, VertexAttribKind::Integer),
            VertexFormat::Sint8x2 => (2, tokens::BYTE, VertexAttribKind::Integer),
            VertexFormat::Unorm8x4 => (4, tokens::UNSIGNED_BYTE, VertexAttribKind::Float),
            VertexFormat::Snorm8x4 => (4, tokens::BYTE, VertexAttribKind::Float),
            VertexFormat::Uint8x4 => (4, tokens::UNSIGNED_BYTE, VertexAttribKind::Integer),
            VertexFormat::Sint8x4 => (4, tokens::BYTE, VertexAttribKind::Integer),
            VertexFormat::Unorm16x2 => (2, tokens::UNSIGNED_SHORT, VertexAttribKind::Float),
            VertexFormat::Snorm16x2 => (2, tokens::SHORT, VertexAttribKind::Float),
            VertexFormat::Uint16x2 => (2, tokens::UNSIGNED_SHORT, VertexAttribKind::Integer),
            VertexFormat::Sint16x2 => (2, tokens::SHORT, VertexAttribKind::Integer),
            VertexFormat::Float16x2 => (2, tokens::HALF_FLOAT, VertexAttribKind::Float),
            VertexFormat::Unorm16x4 => (4, tokens::UNSIGNED_SHORT, VertexAttribKind::Float),
            VertexFormat::Snorm16x4 => (4, tokens::SHORT, VertexAttribKind::Float),
            VertexFormat::Uint16x4 => (4, tokens::UNSIGNED_SHORT, VertexAttribKind::Integer),
            VertexFormat::Sint16x4 => (4, tokens::SHORT, VertexAttribKind::Integer),
            VertexFormat::Float16x4 => (4, tokens::HALF_FLOAT, VertexAttribKind::Float),
            VertexFormat::Uint32 => (1, tokens::UNSIGNED_INT, VertexAttribKind::Integer),
            VertexFormat::Sint32 => (1, tokens::INT, VertexAttribKind::Integer),
            VertexFormat::Float32 => (1, tokens::FLOAT, VertexAttribKind::Float),
            VertexFormat::Uint32x2 => (2, tokens::UNSIGNED_INT, VertexAttribKind::Integer),
            VertexFormat::Sint32x2 => (2, tokens::INT, VertexAttribKind::Integer),
            VertexFormat::Float32x2 => (2, tokens::FLOAT, VertexAttribKind::Float),
            VertexFormat::Uint32x3 => (3, tokens::UNSIGNED_INT, VertexAttribKind::Integer),
            VertexFormat::Sint32x3 => (3, tokens::INT, VertexAttribKind::Integer),
            VertexFormat::Float32x3 => (3, tokens::FLOAT, VertexAttribKind::Float),
            VertexFormat::Uint32x4 => (4, tokens::UNSIGNED_INT, VertexAttribKind::Integer),
            VertexFormat::Sint32x4 => (4, tokens::INT, VertexAttribKind::Integer),
            VertexFormat::Float32x4 => (4, tokens::FLOAT, VertexAttribKind::Float),
            VertexFormat::Float64 | VertexFormat::Float64x2 | VertexFormat::Float64x3
            | VertexFormat::Float64x4 => {
                return None;
            },
        };

    Some(VertexFormatDesc { element_count, element_format, attrib_kind })
}

/// Every supported vertex format's descriptor carries between one and four
/// components, and exactly as many as the portable format itself.
pub proof fn lemma_vertex_element_count(format: VertexFormat)
    requires
        vertex_format_supported(format),
    ensures
        describe_vertex_format_spec(format).element_count == vertex_component_count(format),
        1 <= describe_vertex_format_spec(format).element_count <= 4,
{
}

/// The mapper's contract is deterministic: any two results that satisfy it
/// for the same format are bit-identical.
pub proof fn lemma_describe_vertex_format_deterministic(
    a: VertexFormat,
    b: VertexFormat,
    r1: VertexFormatDesc,
    r2: VertexFormatDesc,
)
    requires
        a == b,
        r1 == describe_vertex_format_spec(a),
        r2 == describe_vertex_format_spec(b),
    ensures
        r1 == r2,
{
}

/// The interpretation kind is `Integer` exactly for the non-normalized
/// integer formats; normalized-integer and native floating formats are
/// `Float`.
pub proof fn lemma_vertex_kind(format: VertexFormat)
    requires
        vertex_format_supported(format),
    ensures
        describe_vertex_format_spec(format).attrib_kind == VertexAttribKind::Integer
            <==> vertex_format_is_integer(format),
{
}

} // verus!
