use vstd::prelude::*;

verus! {

/// A pair of unsigned grid coordinates or extents.
#[derive(Clone, Copy, Debug, PartialEq, Eq, Structural)]
pub struct UVec2 {
    pub x: u32,
    pub y: u32,
}

/// A pair of signed grid coordinates.
#[derive(Clone, Copy, Debug, PartialEq, Eq, Structural)]
pub struct IVec2 {
    pub x: i32,
    pub y: i32,
}

impl UVec2 {
    pub fn new(x: u32, y: u32) -> (r: UVec2)
        ensures
            r.x == x,
            r.y == y,
    {
        UVec2 { x, y }
    }

    /// A vector with both components equal to `v`.
    pub fn splat(v: u32) -> (r: UVec2)
        ensures
            r.x == v,
            r.y == v,
    {
        UVec2 { x: v, y: v }
    }

    /// Reinterprets both components as `i32`, the way an `as` cast does.
    pub fn as_ivec2(&self) -> (r: IVec2)
        ensures
            r.x == self.x as i32,
            r.y == self.y as i32,
    {
        IVec2 { x: self.x as i32, y: self.y as i32 }
    }
}

impl IVec2 {
    pub fn new(x: i32, y: i32) -> (r: IVec2)
        ensures
            r.x == x,
            r.y == y,
    {
        IVec2 { x, y }
    }
}

} // verus!
