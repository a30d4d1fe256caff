//! Sampler state mappers: filter modes, address (wrap) modes and comparison
//! functions, each translated to the driver token the sampler interface
//! expects.

use vstd::prelude::*;

use crate::tokens;

verus! {

/// How a sampler interpolates between texels or mip levels.
#[derive(Clone, Copy, PartialEq, Eq, Debug)]
pub enum FilterMode {
    Nearest,
    Linear,
}

/// How a sampler resolves texture coordinates outside the 0..1 range.
#[derive(Clone, Copy, PartialEq, Eq, Debug)]
pub enum AddressMode {
    Repeat,
    MirrorRepeat,
    ClampToEdge,
    ClampToBorder,
}

/// The comparison a depth-compare sampler applies.
#[derive(Clone, Copy, PartialEq, Eq, Debug)]
pub enum CompareFunction {
    Never,
    Less,
    LessEqual,
    Equal,
    GreaterEqual,
    Greater,
    NotEqual,
    Always,
}

/// The magnification filter token: a direct two-way mapping.
pub open spec fn mag_filter_spec(mag: FilterMode) -> u32 {
    match mag {
        FilterMode::Nearest => tokens::NEAREST,
        FilterMode::Linear => tokens::LINEAR,
    }
}

/// The minification filter token, combined from the base minification filter
/// and the mip filter. The two-by-two combination is exhaustive: no fallback
/// case exists.
pub open spec fn min_filter_spec(min: FilterMode, mip: FilterMode) -> u32 {
    match (min, mip) {
        (FilterMode::Nearest, FilterMode::Nearest) => tokens::NEAREST_MIPMAP_NEAREST,
        (FilterMode::Nearest, FilterMode::Linear) => tokens::NEAREST_MIPMAP_LINEAR,
        (FilterMode::Linear, FilterMode::Nearest) => tokens::LINEAR_MIPMAP_NEAREST,
        (FilterMode::Linear, FilterMode::Linear) => tokens::LINEAR_MIPMAP_LINEAR,
    }
}

/// Maps a filter-mode triple to the pair (minification token, magnification
/// token). The minification token is determined by `min` and `mip` alone;
/// the magnification token by `mag` alone.
pub fn map_filter_modes(min: FilterMode, mag: FilterMode, mip: FilterMode) -> (r: (u32, u32))
    ensures
        r.0 == min_filter_spec(min, mip),
        r.1 == mag_filter_spec(mag),
{
    let mag_filter: u32 = match mag {
        FilterMode::Nearest => tokens::NEAREST,
        FilterMode::Linear => tokens::LINEAR,
    };

    let min_filter: u32 = match (min, mip) {
        (FilterMode::Nearest, FilterMode::Nearest) => tokens::NEAREST_MIPMAP_NEAREST,
        (FilterMode::Nearest, FilterMode::Linear) => tokens::NEAREST_MIPMAP_LINEAR,
        (FilterMode::Linear, FilterMode::Nearest) => tokens::LINEAR_MIPMAP_NEAREST,
        (FilterMode::Linear, FilterMode::Linear) => tokens::LINEAR_MIPMAP_LINEAR,
    };

    (min_filter, mag_filter)
}

/// The wrap token for an address mode: a four-way total mapping.
pub open spec fn address_mode_spec(mode: AddressMode) -> u32 {
    match mode {
        AddressMode::Repeat => tokens::REPEAT,
        AddressMode::MirrorRepeat => tokens::MIRRORED_REPEAT,
        AddressMode::ClampToEdge => tokens::CLAMP_TO_EDGE,
        AddressMode::ClampToBorder => tokens::CLAMP_TO_BORDER,
    }
}

/// Maps an address mode to the driver's wrap token.
pub fn map_address_mode(mode: AddressMode) -> (r: u32)
    ensures
        r == address_mode_spec(mode),
{
    match mode {
        AddressMode::Repeat => tokens::REPEAT,
        AddressMode::MirrorRepeat => tokens::MIRRORED_REPEAT,
        AddressMode::ClampToEdge => tokens::CLAMP_TO_EDGE,
        AddressMode::ClampToBorder => tokens::CLAMP_TO_BORDER,
    }
}

/// The comparison token for a compare function: an eight-way, one-to-one
/// total mapping.
pub open spec fn compare_func_spec(fun: CompareFunction) -> u32 {
    match fun {
        CompareFunction::Never => tokens::NEVER,
        CompareFunction::Less => tokens::LESS,
        CompareFunction::LessEqual => tokens::LEQUAL,
        CompareFunction::Equal => tokens::EQUAL,
        CompareFunction::GreaterEqual => tokens::GEQUAL,
        CompareFunction::Greater => tokens::GREATER,
        CompareFunction::NotEqual => tokens::NOTEQUAL,
        CompareFunction::Always => tokens::ALWAYS,
    }
}

/// Maps a compare function to the driver's comparison token.
pub fn map_compare_func(fun: CompareFunction) -> (r: u32)
    ensures
        r == compare_func_spec(fun),
{
    match fun {
        CompareFunction::Never => tokens::NEVER,
        CompareFunction::Less => tokens::LESS,
        CompareFunction::LessEqual => tokens::LEQUAL,
        CompareFunction::Equal => tokens::EQUAL,
        CompareFunction::GreaterEqual => tokens::GEQUAL,
        CompareFunction::Greater => tokens::GREATER,
        CompareFunction::NotEqual => tokens::NOTEQUAL,
        CompareFunction::Always => tokens::ALWAYS,
    }
}

/// The filter mapper's contract is deterministic: any two token pairs that
/// satisfy it for the same filter-mode triple are bit-identical.
pub proof fn lemma_map_filter_modes_deterministic(
    min1: FilterMode,
    mag1: FilterMode,
    mip1: FilterMode,
    min2: FilterMode,
    mag2: FilterMode,
    mip2: FilterMode,
    r1: (u32, u32),
    r2: (u32, u32),
)
    requires
        min1 == min2,
        mag1 == mag2,
        mip1 == mip2,
        r1 == (min_filter_spec(min1, mip1), mag_filter_spec(mag1)),
        r2 == (min_filter_spec(min2, mip2), mag_filter_spec(mag2)),
    ensures
        r1 == r2,
{
}

/// The address-mode mapper's contract is deterministic: any two wrap tokens
/// that satisfy it for the same address mode are bit-identical.
pub proof fn lemma_map_address_mode_deterministic(a: AddressMode, b: AddressMode, r1: u32, r2: u32)
    requires
        a == b,
        r1 == address_mode_spec(a),
        r2 == address_mode_spec(b),
    ensures
        r1 == r2,
{
}

/// The compare-function mapper's contract is deterministic: any two
/// comparison tokens that satisfy it for the same compare function are
/// bit-identical.
pub proof fn lemma_map_compare_func_deterministic(
    a: CompareFunction,
    b: CompareFunction,
    r1: u32,
    r2: u32,
)
    requires
        a == b,
        r1 == compare_func_spec(a),
        r2 == compare_func_spec(b),
    ensures
        r1 == r2,
{
}

/// The compare-function mapping is one-to-one: distinct compare functions
/// receive distinct comparison tokens.
pub proof fn lemma_compare_func_injective(a: CompareFunction, b: CompareFunction)
    requires
        a != b,
    ensures
        compare_func_spec(a) != compare_func_spec(b),
{
}

} // verus!
