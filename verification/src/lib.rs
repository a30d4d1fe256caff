//! Translation layer from portable, backend-agnostic GPU resource and
//! pipeline-state descriptions to the numeric tokens and descriptor triples
//! that an OpenGL-family driver interface expects. Every mapper is a pure,
//! total function over a closed enumeration, verified to return exactly one
//! driver-level representation per variant.

pub mod pipeline;
pub mod sampler;
pub mod texture;
pub mod tokens;
pub mod vertex;
