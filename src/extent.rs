use vstd::prelude::*;

verus! {

/// The size of a texture or image region: width, height, and depth or number
/// of array layers.
#[derive(Debug, Clone, Copy, PartialEq, Eq, Structural)]
pub struct Extent3d {
    pub width: u32,
    pub height: u32,
    pub depth_or_array_layers: u32,
}

/// A two-component vector of unsigned 32-bit integers.
#[derive(Debug, Clone, Copy, PartialEq, Eq, Structural)]
pub struct UVec2 {
    pub x: u32,
    pub y: u32,
}

/// The planar size of an extent: its width and height, the depth dropped.
pub open spec fn planar_size(e: Extent3d) -> UVec2 {
    UVec2 { x: e.width, y: e.height }
}

/// Width and height of `e` as a vector; the depth is ignored.
pub fn extend3d_to_uvec2(e: &Extent3d) -> (r: UVec2)
    ensures
        r == planar_size(*e),
{
    UVec2 { x: e.width, y: e.height }
}

} // verus!
