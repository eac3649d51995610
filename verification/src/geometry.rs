//! The geometry that is drawn: one quad that covers the picture.

use crate::endian::{
    is_packed_halves_natively, is_packed_natively, native_order_is_little, unpack_halves,
    unpack_words,
};
use crate::float_bits::{F32_MINUS_ONE, F32_ONE};
use vstd::prelude::*;

verus! {

/// Bytes of one vertex position component: a 32-bit float.
pub const VERTEX_COMPONENT_SIZE: usize = 4;

/// Bytes of one index: 16 bits.
pub const INDEX_SIZE: usize = 2;

/// The corners of the quad, two coordinates each, as the bits of 32-bit
/// floats: bottom left, bottom right, top right, top left of the clip
/// space.
pub open spec fn quad_vertices() -> Seq<u32> {
    seq![
        F32_MINUS_ONE,
        F32_MINUS_ONE,
        F32_ONE,
        F32_MINUS_ONE,
        F32_ONE,
        F32_ONE,
        F32_MINUS_ONE,
        F32_ONE,
    ]
}

/// The two triangles of the quad, as indices into its corners.
pub open spec fn quad_indices() -> Seq<u16> {
    seq![0u16, 1, 2, 2, 3, 0]
}

/// The corners of the quad. See [`quad_vertices`].
pub fn vertices() -> (corners: Vec<u32>)
    ensures
        corners@ == quad_vertices(),
{
    let corners: Vec<u32> = vec![
        F32_MINUS_ONE,
        F32_MINUS_ONE,
        F32_ONE,
        F32_MINUS_ONE,
        F32_ONE,
        F32_ONE,
        F32_MINUS_ONE,
        F32_ONE,
    ];
    corners
}

/// The triangles of the quad. See [`quad_indices`].
pub fn indices() -> (triangles: Vec<u16>)
    ensures
        triangles@ == quad_indices(),
{
    let triangles: Vec<u16> = vec![0u16, 1, 2, 2, 3, 0];
    triangles
}

/// The bytes of the vertex buffer: the corners as this machine stores
/// them, 32 bytes.
pub fn vertex_data() -> (bytes: Vec<u8>)
    ensures
        bytes.len() == 32,
        is_packed_natively(quad_vertices(), bytes@),
{
    let corners = vertices();
    match unpack_words(&corners, native_order_is_little()) {
        Some(bytes) => bytes,
        None => {
            assert(false);
            Vec::new()
        },
    }
}

/// The bytes of the index buffer: the indices as this machine stores
/// them, 12 bytes.
pub fn index_data() -> (bytes: Vec<u8>)
    ensures
        bytes.len() == 12,
        is_packed_halves_natively(quad_indices(), bytes@),
{
    let triangles = indices();
    match unpack_halves(&triangles, native_order_is_little()) {
        Some(bytes) => bytes,
        None => {
            assert(false);
            Vec::new()
        },
    }
}

/// The number of indices that a frame draws.
pub fn index_count() -> (count: u32)
    ensures
        count == quad_indices().len(),
{
    6
}

} // verus!
