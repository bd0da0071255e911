//! The index list of the demo mesh and its image in a GPU buffer.
//!
//! The mesh is a pentagon cut into three triangles that share its last
//! vertex. The vertex attributes are floating-point data and stay with the
//! viewer; the index list, and the bytes that are uploaded for it, are here.

use vstd::prelude::*;

verus! {

/// The number of vertices of the mesh.
pub const VERTEX_COUNT: u32 = 5;

/// The corners of the mesh's triangles, three per triangle, each a position
/// in the vertex list.
pub const INDICES: [u16; 9] = [0, 1, 4, 1, 2, 4, 2, 3, 4];

/// The less significant byte of an index.
pub open spec fn low_byte(x: u16) -> u8 {
    (x % 256) as u8
}

/// The more significant byte of an index.
pub open spec fn high_byte(x: u16) -> u8 {
    (x / 256) as u8
}

/// The indices laid out in two bytes each, less significant byte first.
pub open spec fn little_endian(list: Seq<u16>) -> Seq<u8> {
    Seq::new(
        2 * list.len(),
        |i: int|
            if i % 2 == 0 {
                low_byte(list[i / 2])
            } else {
                high_byte(list[i / 2])
            },
    )
}

/// The indices laid out in two bytes each, more significant byte first.
pub open spec fn big_endian(list: Seq<u16>) -> Seq<u8> {
    Seq::new(
        2 * list.len(),
        |i: int|
            if i % 2 == 0 {
                high_byte(list[i / 2])
            } else {
                low_byte(list[i / 2])
            },
    )
}

/// Whether `bytes` is how some machine holds `list` in memory: every index
/// in two bytes, all in the same byte order. Which order it is depends on the
/// machine, so both are admitted.
pub open spec fn is_memory_image(list: Seq<u16>, bytes: Seq<u8>) -> bool {
    bytes == little_endian(list) || bytes == big_endian(list)
}

/// Trusted: `bytemuck::cast_slice` from `u16` to `u8`, copied into a vector.
/// The cast reinterprets the slice's memory in place, so the result is the
/// indices' memory image: two bytes for each, in the machine's byte order. It
/// cannot fail in this direction, as a byte has no alignment to miss and any
/// number of bytes is a whole number of them.
#[verifier::external_body]
fn cast_indices(list: &[u16]) -> (bytes: Vec<u8>)
    ensures
        is_memory_image(list@, bytes@),
{
    bytemuck::cast_slice::<u16, u8>(list).to_vec()
}

/// The number of vertices of the mesh.
pub fn n_verts() -> (n: u32)
    ensures
        n == VERTEX_COUNT,
{
    VERTEX_COUNT
}

/// The number of indices that one draw call walks.
pub fn n_inds() -> (n: u32)
    ensures
        n == INDICES@.len(),
        n == 9,
{
    INDICES.len() as u32
}

/// The contents of the index buffer: the memory image of the index list, two
/// bytes for each index.
pub fn index_buffer_contents() -> (bytes: Vec<u8>)
    ensures
        is_memory_image(INDICES@, bytes@),
        bytes@.len() == 2 * INDICES@.len(),
{
    cast_indices(INDICES.as_slice())
}

/// The index list is made of whole triangles and names only vertices that
/// the mesh has.
pub proof fn lemma_indices_well_formed()
    ensures
        INDICES@.len() % 3 == 0,
        forall|i: int| 0 <= i < INDICES@.len() ==> (#[trigger] INDICES@[i]) < VERTEX_COUNT,
{
}

/// Every vertex of the mesh is a corner of some triangle.
pub proof fn lemma_every_vertex_used(v: u16)
    requires
        v < VERTEX_COUNT,
    ensures
        INDICES@.contains(v),
{
    let at: int = if v == 0 {
        0
    } else if v == 1 {
        1
    } else if v == 2 {
        4
    } else if v == 3 {
        7
    } else {
        2
    };
    assert(INDICES@[at] == v);
}

} // verus!
