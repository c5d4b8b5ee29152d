//! Codes of the graphics interface that this layer names itself.
//!
//! Every other code (a usage hint, a shader kind) is forwarded as given.

use vstd::prelude::*;

verus! {

/// Primitive kind: every three indices make one triangle.
pub const TRIANGLES: u32 = 0x0004;

/// Scalar kind: signed, 8 bits.
pub const BYTE: u32 = 0x1400;

/// Scalar kind: unsigned, 8 bits.
pub const UNSIGNED_BYTE: u32 = 0x1401;

/// Scalar kind: signed, 16 bits.
pub const SHORT: u32 = 0x1402;

/// Scalar kind: unsigned, 16 bits.
pub const UNSIGNED_SHORT: u32 = 0x1403;

/// Scalar kind: signed, 32 bits.
pub const INT: u32 = 0x1404;

/// Scalar kind: unsigned, 32 bits.
pub const UNSIGNED_INT: u32 = 0x1405;

/// Scalar kind: single precision.
pub const FLOAT: u32 = 0x1406;

/// Buffer target that holds vertex records.
pub const ARRAY_BUFFER: u32 = 0x8892;

/// Buffer target that holds indices.
pub const ELEMENT_ARRAY_BUFFER: u32 = 0x8893;

/// Usage hint: written once, drawn many times.
pub const STATIC_DRAW: u32 = 0x88E4;

/// Usage hint: rewritten often, drawn many times.
pub const DYNAMIC_DRAW: u32 = 0x88E8;

/// Shader kind: run for every fragment.
pub const FRAGMENT_SHADER: u32 = 0x8B30;

/// Shader kind: run for every vertex.
pub const VERTEX_SHADER: u32 = 0x8B31;

} // verus!
