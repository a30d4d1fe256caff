//! Pipeline-state mappers: primitive topologies to draw-mode tokens and
//! texture view dimensions to texture-target tokens.

use vstd::prelude::*;

use crate::tokens;

verus! {

/// How a draw call assembles vertices into primitives.
#[derive(Clone, Copy, PartialEq, Eq, Debug)]
pub enum PrimitiveTopology {
    PointList,
    LineList,
    LineStrip,
    TriangleList,
    TriangleStrip,
}

/// The dimensionality under which a texture is viewed.
#[derive(Clone, Copy, PartialEq, Eq, Debug)]
pub enum TextureViewDimension {
    D1,
    D2,
    D2Array,
    Cube,
    CubeArray,
    D3,
}

/// The draw-mode token for a primitive topology: a five-way total mapping.
pub open spec fn primitive_topology_spec(topology: PrimitiveTopology) -> u32 {
    match topology {
        PrimitiveTopology::PointList => tokens::POINTS,
        PrimitiveTopology::LineList => tokens::LINES,
        PrimitiveTopology::LineStrip => tokens::LINE_STRIP,
        PrimitiveTopology::TriangleList => tokens::TRIANGLES,
        PrimitiveTopology::TriangleStrip => tokens::TRIANGLE_STRIP,
    }
}

/// Maps a primitive topology to the driver's draw-mode token.
pub fn map_primitive_topology(topology: PrimitiveTopology) -> (r: u32)
    ensures
        r == primitive_topology_spec(topology),
{
    match topology {
        PrimitiveTopology::PointList => tokens::POINTS,
        PrimitiveTopology::LineList => tokens::LINES,
        PrimitiveTopology::LineStrip => tokens::LINE_STRIP,
        PrimitiveTopology::TriangleList => tokens::TRIANGLES,
        PrimitiveTopology::TriangleStrip => tokens::TRIANGLE_STRIP,
    }
}

/// The texture-target token for a view dimension. The backend has no
/// distinct one-dimensional texture target, so the one- and two-dimensional
/// view dimensions deliberately collapse onto the same two-dimensional
/// target: this mapping is not invertible.
pub open spec fn view_dimension_spec(dim: TextureViewDimension) -> u32 {
    match dim {
        TextureViewDimension::D1 | TextureViewDimension::D2 => tokens::TEXTURE_2D,
        TextureViewDimension::D2Array => tokens::TEXTURE_2D_ARRAY,
        TextureViewDimension::Cube => tokens::TEXTURE_CUBE_MAP,
        TextureViewDimension::CubeArray => tokens::TEXTURE_CUBE_MAP_ARRAY,
        TextureViewDimension::D3 => tokens::TEXTURE_3D,
    }
}

/// Maps a texture view dimension to the driver's texture-target token.
pub fn map_view_dimension(dim: TextureViewDimension) -> (r: u32)
    ensures
        r == view_dimension_spec(dim),
{
    match dim {
        TextureViewDimension::D1 | TextureViewDimension::D2 => tokens::TEXTURE_2D,
        TextureViewDimension::D2Array => tokens::TEXTURE_2D_ARRAY,
        TextureViewDimension::Cube => tokens::TEXTURE_CUBE_MAP,
        TextureViewDimension::CubeArray => tokens::TEXTURE_CUBE_MAP_ARRAY,
        TextureViewDimension::D3 => tokens::TEXTURE_3D,
    }
}

/// The topology mapper's contract is deterministic: any two draw-mode
/// tokens that satisfy it for the same topology are bit-identical.
pub proof fn lemma_map_primitive_topology_deterministic(
    a: PrimitiveTopology,
    b: PrimitiveTopology,
    r1: u32,
    r2: u32,
)
    requires
        a == b,
        r1 == primitive_topology_spec(a),
        r2 == primitive_topology_spec(b),
    ensures
        r1 == r2,
{
}

/// The view-dimension mapper's contract is deterministic: any two target
/// tokens that satisfy it for the same view dimension are bit-identical.
pub proof fn lemma_map_view_dimension_deterministic(
    a: TextureViewDimension,
    b: TextureViewDimension,
    r1: u32,
    r2: u32,
)
    requires
        a == b,
        r1 == view_dimension_spec(a),
        r2 == view_dimension_spec(b),
    ensures
        r1 == r2,
{
}

/// The topology mapping is one-to-one: distinct topologies receive distinct
/// draw-mode tokens.
pub proof fn lemma_primitive_topology_injective(a: PrimitiveTopology, b: PrimitiveTopology)
    requires
        a != b,
    ensures
        primitive_topology_spec(a) != primitive_topology_spec(b),
{
}

} // verus!
