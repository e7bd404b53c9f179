//! The vertex data of the triangle and its layout in the GPU buffer.
//!
//! A coordinate is held as the bit pattern of an IEEE 754 single-precision
//! number: what reaches the GPU is these words, byte for byte.

use vstd::layout::layout_of_primitives;
use vstd::prelude::*;

verus! {

/// The number of vertices.
pub const VERTEX_COUNT: usize = 3;

/// The number of coordinates of a vertex.
pub const COMPONENTS_PER_VERTEX: usize = 3;

/// The number of bytes that a coordinate takes in the buffer.
pub const BYTES_PER_COMPONENT: usize = 4;

/// The attribute slot that the position is bound to.
pub const POSITION_ATTRIBUTE: u32 = 0;

/// `x` of the first two vertices: -0.5.
pub const BASE_X_BITS: u32 = 0xBF00_0000;

/// `y` of the first two vertices: -0.5 * sqrt(3) / 3, each operation rounded
/// to single precision.
pub const BASE_Y_BITS: u32 = 0xBE93_CD3A;

/// `x` of the third vertex: negative zero.
pub const APEX_X_BITS: u32 = 0x8000_0000;

/// `y` of the third vertex: -0.5 * sqrt(3) * 2 / 3, each operation rounded
/// to single precision.
pub const APEX_Y_BITS: u32 = 0xBF13_CD3A;

/// `z` of every vertex: zero.
pub const Z_BITS: u32 = 0;

/// The type of a component in the buffer. The renderer stores
/// single-precision floating-point numbers and nothing else.
#[derive(Clone, Copy, Debug, PartialEq, Eq, Structural)]
pub enum ComponentType {
    Float,
}

/// How the GPU is to read one attribute of a vertex out of the buffer.
#[derive(Clone, Copy, Debug, PartialEq, Eq, Structural)]
pub struct AttributeFormat {
    /// The attribute slot.
    pub index: u32,
    /// The number of components of the attribute.
    pub components: i32,
    pub component_type: ComponentType,
    /// Whether integer data is to be mapped to the unit range.
    pub normalized: bool,
    /// The offset of the attribute within a vertex, in bytes.
    pub relative_offset: u32,
}

/// The coordinates of the triangle, vertex after vertex, `x`, `y`, `z` each.
/// The first two vertices coincide.
pub open spec fn triangle() -> Seq<u32> {
    seq![
        BASE_X_BITS,
        BASE_Y_BITS,
        Z_BITS,
        BASE_X_BITS,
        BASE_Y_BITS,
        Z_BITS,
        APEX_X_BITS,
        APEX_Y_BITS,
        Z_BITS,
    ]
}

/// Three floating-point components in slot 0, not normalized, at the
/// beginning of the vertex.
pub open spec fn spec_position_format() -> AttributeFormat {
    AttributeFormat {
        index: POSITION_ATTRIBUTE,
        components: COMPONENTS_PER_VERTEX as i32,
        component_type: ComponentType::Float,
        normalized: false,
        relative_offset: 0,
    }
}

/// The number of bytes that `count` coordinates take in the buffer.
pub open spec fn byte_size(count: nat) -> nat {
    count * BYTES_PER_COMPONENT as nat
}

/// The data to upload: the same nine words on every call.
pub fn triangle_vertices() -> (data: Vec<u32>)
    ensures
        data@ == triangle(),
{
    let data = vec![
        BASE_X_BITS,
        BASE_Y_BITS,
        Z_BITS,
        BASE_X_BITS,
        BASE_Y_BITS,
        Z_BITS,
        APEX_X_BITS,
        APEX_Y_BITS,
        Z_BITS,
    ];
    assert(data@ =~= triangle());
    data
}

/// The format to declare for the position: three contiguous floating-point
/// components in slot 0, taken as they are.
#[verifier::when_used_as_spec(spec_position_format)]
pub fn position_format() -> (format: AttributeFormat)
    ensures
        format == spec_position_format(),
{
    AttributeFormat {
        index: POSITION_ATTRIBUTE,
        components: COMPONENTS_PER_VERTEX as i32,
        component_type: ComponentType::Float,
        normalized: false,
        relative_offset: 0,
    }
}

/// The size in bytes of a buffer of `count` coordinates, as the GPU layer
/// takes it, or `None` where that size has no such representation.
pub fn buffer_byte_size(count: usize) -> (size: Option<isize>)
    ensures
        byte_size(count as nat) <= isize::MAX ==> size == Some(byte_size(count as nat) as isize),
        byte_size(count as nat) > isize::MAX ==> size is None,
{
    broadcast use layout_of_primitives;

    let element_size: usize = core::mem::size_of::<u32>();
    match count.checked_mul(element_size) {
        Some(total) => {
            if total <= isize::MAX as usize {
                Some(total as isize)
            } else {
                None
            }
        },
        None => None,
    }
}

/// The triangle has one full vertex for each of its corners, and fits a
/// buffer of 36 bytes.
pub proof fn lemma_triangle_layout()
    ensures
        triangle().len() == VERTEX_COUNT * COMPONENTS_PER_VERTEX,
        byte_size(triangle().len()) == 36,
{
}

} // verus!
