//! The play field: its size in grid cells and the sizes of the objects on it.
pub mod mini_map;

use crate::math::{IVec2, UVec2};
use crate::U_GRID_SIZE;
use vstd::prelude::*;

verus! {

/// The play field, measured in grid cells.
pub struct GameMap {
    size: UVec2,
}

impl GameMap {
    #[verifier::type_invariant]
    spec fn inv(self) -> bool {
        &&& 2 <= self.size.x <= i32::MAX
        &&& 2 <= self.size.y <= i32::MAX
    }

    /// The number of cells across and down.
    pub closed spec fn spec_size(&self) -> UVec2 {
        self.size
    }

    /// The size as signed numbers; a field is at least two cells across
    /// and down.
    pub fn size(&self) -> (r: IVec2)
        ensures
            r.x == self.spec_size().x,
            r.y == self.spec_size().y,
            r.x >= 2,
            r.y >= 2,
    {
        proof {
            use_type_invariant(self);
        }
        self.size.as_ivec2()
    }
}

impl Default for GameMap {
    /// The field is a hundred cells square.
    fn default() -> (r: GameMap)
        ensures
            r.spec_size() == (UVec2 { x: 100, y: 100 }),
    {
        GameMap { size: UVec2 { x: 100, y: 100 } }
    }
}

/// The size of an object on the field, in grid cells.
#[derive(Clone, Copy, Debug, PartialEq, Eq, Structural)]
pub struct ObjectSize(pub UVec2);

impl Default for ObjectSize {
    /// One cell.
    fn default() -> (r: ObjectSize)
        ensures
            r.0 == (UVec2 { x: 1, y: 1 }),
    {
        ObjectSize(UVec2 { x: 1, y: 1 })
    }
}

impl ObjectSize {
    pub fn new(size: UVec2) -> (r: ObjectSize)
        ensures
            r.0 == size,
    {
        ObjectSize(size)
    }

    /// The size in world units: cells times the width of a cell.
    pub fn size(&self) -> (r: (u64, u64))
        ensures
            r.0 == self.0.x * U_GRID_SIZE,
            r.1 == self.0.y * U_GRID_SIZE,
    {
        (self.0.x as u64 * U_GRID_SIZE as u64, self.0.y as u64 * U_GRID_SIZE as u64)
    }
}

} // verus!
