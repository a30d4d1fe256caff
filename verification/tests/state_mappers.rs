//! The sampler, topology and view-dimension mappers: every variant against
//! the driver bindings' own token values, determinism, and the documented
//! view-dimension collapse.

use gles_conv::pipeline::{
    map_primitive_topology, map_view_dimension, PrimitiveTopology, TextureViewDimension,
};
use gles_conv::sampler::{
    map_address_mode, map_compare_func, map_filter_modes, AddressMode, CompareFunction,
    FilterMode,
};

#[test]
fn mag_filter_maps_directly() {
    assert_eq!(
        map_filter_modes(FilterMode::Nearest, FilterMode::Nearest, FilterMode::Nearest).1,
        glow::NEAREST
    );
    assert_eq!(
        map_filter_modes(FilterMode::Nearest, FilterMode::Linear, FilterMode::Nearest).1,
        glow::LINEAR
    );
}

#[test]
fn min_filter_combines_min_and_mip() {
    let nn = map_filter_modes(FilterMode::Nearest, FilterMode::Nearest, FilterMode::Nearest);
    let nl = map_filter_modes(FilterMode::Nearest, FilterMode::Nearest, FilterMode::Linear);
    let ln = map_filter_modes(FilterMode::Linear, FilterMode::Nearest, FilterMode::Nearest);
    let ll = map_filter_modes(FilterMode::Linear, FilterMode::Nearest, FilterMode::Linear);
    assert_eq!(nn.0, glow::NEAREST_MIPMAP_NEAREST);
    assert_eq!(nl.0, glow::NEAREST_MIPMAP_LINEAR);
    assert_eq!(ln.0, glow::LINEAR_MIPMAP_NEAREST);
    assert_eq!(ll.0, glow::LINEAR_MIPMAP_LINEAR);
}

#[test]
fn min_filter_independent_of_mag() {
    let with_nearest_mag =
        map_filter_modes(FilterMode::Linear, FilterMode::Nearest, FilterMode::Nearest);
    let with_linear_mag =
        map_filter_modes(FilterMode::Linear, FilterMode::Linear, FilterMode::Nearest);
    assert_eq!(with_nearest_mag.0, glow::LINEAR_MIPMAP_NEAREST);
    assert_eq!(with_linear_mag.0, glow::LINEAR_MIPMAP_NEAREST);
}

#[test]
fn filter_mapper_is_deterministic() {
    let modes = [FilterMode::Nearest, FilterMode::Linear];
    for min in modes {
        for mag in modes {
            for mip in modes {
                assert_eq!(map_filter_modes(min, mag, mip), map_filter_modes(min, mag, mip));
            }
        }
    }
}

#[test]
fn every_address_mode_maps_to_its_wrap_token() {
    assert_eq!(map_address_mode(AddressMode::Repeat), glow::REPEAT);
    assert_eq!(map_address_mode(AddressMode::MirrorRepeat), glow::MIRRORED_REPEAT);
    assert_eq!(map_address_mode(AddressMode::ClampToEdge), glow::CLAMP_TO_EDGE);
    assert_eq!(map_address_mode(AddressMode::ClampToBorder), glow::CLAMP_TO_BORDER);
}

#[test]
fn every_compare_function_maps_to_its_token() {
    assert_eq!(map_compare_func(CompareFunction::Never), glow::NEVER);
    assert_eq!(map_compare_func(CompareFunction::Less), glow::LESS);
    assert_eq!(map_compare_func(CompareFunction::LessEqual), glow::LEQUAL);
    assert_eq!(map_compare_func(CompareFunction::Equal), glow::EQUAL);
    assert_eq!(map_compare_func(CompareFunction::GreaterEqual), glow::GEQUAL);
    assert_eq!(map_compare_func(CompareFunction::Greater), glow::GREATER);
    assert_eq!(map_compare_func(CompareFunction::NotEqual), glow::NOTEQUAL);
    assert_eq!(map_compare_func(CompareFunction::Always), glow::ALWAYS);
}

#[test]
fn compare_tokens_are_pairwise_distinct() {
    let funcs = [
        CompareFunction::Never,
        CompareFunction::Less,
        CompareFunction::LessEqual,
        CompareFunction::Equal,
        CompareFunction::GreaterEqual,
        CompareFunction::Greater,
        CompareFunction::NotEqual,
        CompareFunction::Always,
    ];
    for i in 0..funcs.len() {
        for j in 0..funcs.len() {
            if i != j {
                assert_ne!(map_compare_func(funcs[i]), map_compare_func(funcs[j]));
            }
        }
    }
}

#[test]
fn every_topology_maps_to_its_draw_mode() {
    assert_eq!(map_primitive_topology(PrimitiveTopology::PointList), glow::POINTS);
    assert_eq!(map_primitive_topology(PrimitiveTopology::LineList), glow::LINES);
    assert_eq!(map_primitive_topology(PrimitiveTopology::LineStrip), glow::LINE_STRIP);
    assert_eq!(map_primitive_topology(PrimitiveTopology::TriangleList), glow::TRIANGLES);
    assert_eq!(map_primitive_topology(PrimitiveTopology::TriangleStrip), glow::TRIANGLE_STRIP);
}

#[test]
fn triangle_strip_fixed_point() {
    assert_eq!(map_primitive_topology(PrimitiveTopology::TriangleStrip), glow::TRIANGLE_STRIP);
}

#[test]
fn one_and_two_dimensional_views_collapse() {
    assert_eq!(map_view_dimension(TextureViewDimension::D1), glow::TEXTURE_2D);
    assert_eq!(map_view_dimension(TextureViewDimension::D2), glow::TEXTURE_2D);
}

#[test]
fn every_view_dimension_maps_to_its_target() {
    assert_eq!(map_view_dimension(TextureViewDimension::D1), glow::TEXTURE_2D);
    assert_eq!(map_view_dimension(TextureViewDimension::D2), glow::TEXTURE_2D);
    assert_eq!(map_view_dimension(TextureViewDimension::D2Array), glow::TEXTURE_2D_ARRAY);
    assert_eq!(map_view_dimension(TextureViewDimension::Cube), glow::TEXTURE_CUBE_MAP);
    assert_eq!(
        map_view_dimension(TextureViewDimension::CubeArray),
        glow::TEXTURE_CUBE_MAP_ARRAY
    );
    assert_eq!(map_view_dimension(TextureViewDimension::D3), glow::TEXTURE_3D);
}

#[test]
fn state_mappers_are_deterministic() {
    assert_eq!(
        map_address_mode(AddressMode::MirrorRepeat),
        map_address_mode(AddressMode::MirrorRepeat)
    );
    assert_eq!(
        map_compare_func(CompareFunction::LessEqual),
        map_compare_func(CompareFunction::LessEqual)
    );
    assert_eq!(
        map_primitive_topology(PrimitiveTopology::LineStrip),
        map_primitive_topology(PrimitiveTopology::LineStrip)
    );
    assert_eq!(
        map_view_dimension(TextureViewDimension::CubeArray),
        map_view_dimension(TextureViewDimension::CubeArray)
    );
}
