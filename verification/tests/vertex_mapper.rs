//! The vertex format mapper: totality over the portable enumeration,
//! determinism, and the full descriptor table checked against the driver
//! bindings' own token values.

use gles_conv::vertex::{
    describe_vertex_format, try_describe_vertex_format, VertexAttribKind, VertexFormat,
};

fn supported_vertex_formats() -> Vec<VertexFormat> {
    vec![
        VertexFormat::Unorm8x2,
        VertexFormat::Snorm8x2,
        VertexFormat::Uint8x2,
        VertexFormat::Sint8x2,
        VertexFormat::Unorm8x4,
        VertexFormat::Snorm8x4,
        VertexFormat::Uint8x4,
        VertexFormat::Sint8x4,
        VertexFormat::Unorm16x2,
        VertexFormat::Snorm16x2,
        VertexFormat::Uint16x2,
        VertexFormat::Sint16x2,
        VertexFormat::Float16x2,
        VertexFormat::Unorm16x4,
        VertexFormat::Snorm16x4,
        VertexFormat::Uint16x4,
        VertexFormat::Sint16x4,
        VertexFormat::Float16x4,
        VertexFormat::Uint32,
        VertexFormat::Sint32,
        VertexFormat::Float32,
        VertexFormat::Uint32x2,
        VertexFormat::Sint32x2,
        VertexFormat::Float32x2,
        VertexFormat::Uint32x3,
        VertexFormat::Sint32x3,
        VertexFormat::Float32x3,
        VertexFormat::Uint32x4,
        VertexFormat::Sint32x4,
        VertexFormat::Float32x4,
    ]
}

#[test]
fn every_supported_vertex_format_gets_a_descriptor() {
    for format in supported_vertex_formats() {
        let desc = try_describe_vertex_format(format);
        assert!(desc.is_some(), "{:?}", format);
        let desc = desc.unwrap();
        assert!(1 <= desc.element_count && desc.element_count <= 4, "{:?}", format);
    }
}

#[test]
fn double_width_vertex_formats_are_refused() {
    assert_eq!(try_describe_vertex_format(VertexFormat::Float64), None);
    assert_eq!(try_describe_vertex_format(VertexFormat::Float64x2), None);
    assert_eq!(try_describe_vertex_format(VertexFormat::Float64x3), None);
    assert_eq!(try_describe_vertex_format(VertexFormat::Float64x4), None);
}

#[test]
fn vertex_mapper_is_deterministic() {
    for format in supported_vertex_formats() {
        let first = describe_vertex_format(format);
        let second = describe_vertex_format(format);
        assert_eq!(first, second);
    }
}

#[test]
fn full_vertex_table_matches_driver_tokens() {
    let expected: Vec<(VertexFormat, i32, u32, VertexAttribKind)> = vec![
        (VertexFormat::Unorm8x2, 2, glow::UNSIGNED_BYTE, VertexAttribKind::Float),
        (VertexFormat::Snorm8x2, 2, glow::BYTE, VertexAttribKind::Float),
        (VertexFormat::Uint8x2, 2, glow::UNSIGNED_BYTE, VertexAttribKind::Integer),
        (VertexFormat::Sint8x2, 2, glow::BYTE, VertexAttribKind::Integer),
        (VertexFormat::Unorm8x4, 4, glow::UNSIGNED_BYTE, VertexAttribKind::Float),
        (VertexFormat::Snorm8x4, 4, glow::BYTE, VertexAttribKind::Float),
        (VertexFormat::Uint8x4, 4, glow::UNSIGNED_BYTE, VertexAttribKind::Integer),
        (VertexFormat::Sint8x4, 4, glow::BYTE, VertexAttribKind::Integer),
        (VertexFormat::Unorm16x2, 2, glow::UNSIGNED_SHORT, VertexAttribKind::Float),
        (VertexFormat::Snorm16x2, 2, glow::SHORT, VertexAttribKind::Float),
        (VertexFormat::Uint16x2, 2, glow::UNSIGNED_SHORT, VertexAttribKind::Integer),
        (VertexFormat::Sint16x2, 2, glow::SHORT, VertexAttribKind::Integer),
        (VertexFormat::Float16x2, 2, glow::HALF_FLOAT, VertexAttribKind::Float),
        (VertexFormat::Unorm16x4, 4, glow::UNSIGNED_SHORT, VertexAttribKind::Float),
        (VertexFormat::Snorm16x4, 4, glow::SHORT, VertexAttribKind::Float),
        (VertexFormat::Uint16x4, 4, glow::UNSIGNED_SHORT, VertexAttribKind::Integer),
        (VertexFormat::Sint16x4, 4, glow::SHORT, VertexAttribKind::Integer),
        (VertexFormat::Float16x4, 4, glow::HALF_FLOAT, VertexAttribKind::Float),
        (VertexFormat::Uint32, 1, glow::UNSIGNED_INT, VertexAttribKind::Integer),
        (VertexFormat::Sint32, 1, glow::INT, VertexAttribKind::Integer),
        (VertexFormat::Float32, 1, glow::FLOAT, VertexAttribKind::Float),
        (VertexFormat::Uint32x2, 2, glow::UNSIGNED_INT, VertexAttribKind::Integer),
        (VertexFormat::Sint32x2, 2, glow::INT, VertexAttribKind::Integer),
        (VertexFormat::Float32x2, 2, glow::FLOAT, VertexAttribKind::Float),
        (VertexFormat::Uint32x3, 3, glow::UNSIGNED_INT, VertexAttribKind::Integer),
        (VertexFormat::Sint32x3, 3, glow::INT, VertexAttribKind::Integer),
        (VertexFormat::Float32x3, 3, glow::FLOAT, VertexAttribKind::Float),
        (VertexFormat::Uint32x4, 4, glow::UNSIGNED_INT, VertexAttribKind::Integer),
        (VertexFormat::Sint32x4, 4, glow::INT, VertexAttribKind::Integer),
        (VertexFormat::Float32x4, 4, glow::FLOAT, VertexAttribKind::Float),
    ];
    assert_eq!(expected.len(), supported_vertex_formats().len());
    for (format, element_count, element_format, attrib_kind) in expected {
        let desc = describe_vertex_format(format);
        assert_eq!(desc.element_count, element_count, "{:?}", format);
        assert_eq!(desc.element_format, element_format, "{:?}", format);
        assert_eq!(desc.attrib_kind, attrib_kind, "{:?}", format);
    }
}
