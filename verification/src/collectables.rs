//! Things a snake can pick up, and where new food appears.
use crate::map::GameMap;
use crate::math::{IVec2, UVec2};
use vstd::prelude::*;

verus! {

/// Something on the field that a snake can eat.
#[derive(Clone, Copy, Debug, PartialEq, Eq, Hash, Structural)]
pub enum Collectable {
    Apple,
}

/// The number of sprite columns in the item sprite sheet.
pub const SHEET_COLUMNS: usize = 14;

impl Collectable {
    pub open spec fn spec_pos(&self) -> UVec2 {
        match self {
            Collectable::Apple => UVec2 { x: 6, y: 17 },
        }
    }

    /// The column and row of the item's sprite in the sprite sheet.
    pub fn pos(&self) -> (r: UVec2)
        ensures
            r == self.spec_pos(),
    {
        match self {
            Collectable::Apple => UVec2 { x: 6, y: 17 },
        }
    }

    /// The position of the item's sprite in the sprite sheet, counted row
    /// by row.
    pub fn index(&self) -> (r: usize)
        ensures
            r == self.spec_pos().x + self.spec_pos().y * SHEET_COLUMNS,
    {
        match self {
            Collectable::Apple => 6 + 17 * 14,
        }
    }
}

/// A uniformly random integer from `lo` up to but not including `hi`
/// (`rand::random_range` on the range `lo..hi`, drawn from the thread's
/// generator). The contract states only that the value lies in the range.
#[verifier::external_body]
fn random_range_i32(lo: i32, hi: i32) -> (r: i32)
    requires
        lo < hi,
    ensures
        lo <= r < hi,
{
    rand::random_range(lo..hi)
}

/// A random cell for new food: each coordinate is drawn from the left (or
/// bottom) half-width below the field's center up to, not including, the
/// half-width above it.
pub fn spawn_food_cell(map: &GameMap) -> (r: IVec2)
    ensures
        -(map.spec_size().x as int / 2) <= r.x < map.spec_size().x as int / 2,
        -(map.spec_size().y as int / 2) <= r.y < map.spec_size().y as int / 2,
{
    let size = map.size();
    let rx = size.x / 2;
    let ry = size.y / 2;
    let x = random_range_i32(-rx, rx);
    let y = random_range_i32(-ry, ry);
    IVec2 { x, y }
}

} // verus!
