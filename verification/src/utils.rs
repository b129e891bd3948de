//! The game window: its starting size, its limits, and keeping its size a
//! whole number of grid cells.
use crate::math::UVec2;
use crate::U_GRID_SIZE;
use vstd::prelude::*;

verus! {

/// The window's starting size: a hundred by seventy-five cells.
pub fn get_base_resolution() -> (r: UVec2)
    ensures
        r.x == U_GRID_SIZE * 100,
        r.y == U_GRID_SIZE * 75,
{
    UVec2 { x: U_GRID_SIZE * 100, y: U_GRID_SIZE * 75 }
}

/// Limits on the window's size; `None` is no limit.
#[derive(Clone, Copy, Debug, PartialEq, Eq, Structural)]
pub struct WindowResizeConstraints {
    pub min_width: u32,
    pub min_height: u32,
    pub max_width: Option<u32>,
    pub max_height: Option<u32>,
}

/// The window is at least one segment of the largest snake (eight cells)
/// wide and tall, and may grow without limit.
pub fn get_window_constraints() -> (r: WindowResizeConstraints)
    ensures
        r.min_width == U_GRID_SIZE * 8,
        r.min_height == U_GRID_SIZE * 8,
        r.max_width is None,
        r.max_height is None,
{
    WindowResizeConstraints {
        min_width: U_GRID_SIZE * 8,
        min_height: U_GRID_SIZE * 8,
        max_width: None,
        max_height: None,
    }
}

/// `v` rounded down to a whole number of grid cells.
pub open spec fn snap_down(v: u32) -> u32 {
    (v / U_GRID_SIZE * U_GRID_SIZE) as u32
}

/// The window size to set after the window became `old`: each side cut
/// down to a whole number of cells; `None` when it already is one.
pub fn snap_resolution(old: UVec2) -> (r: Option<UVec2>)
    ensures
        match r {
            Some(new) => new == (UVec2 { x: snap_down(old.x), y: snap_down(old.y) }) && new != old,
            None => old == (UVec2 { x: snap_down(old.x), y: snap_down(old.y) }),
        },
{
    let new = UVec2 { x: old.x / U_GRID_SIZE * U_GRID_SIZE, y: old.y / U_GRID_SIZE * U_GRID_SIZE };
    if old.x == new.x && old.y == new.y {
        None
    } else {
        Some(new)
    }
}

/// A snapped size is a whole number of cells, no larger than the size it
/// came from and less than a cell smaller, and snapping it again leaves it.
pub proof fn lemma_snap_down(v: u32)
    ensures
        snap_down(v) % U_GRID_SIZE == 0,
        snap_down(v) <= v < snap_down(v) + U_GRID_SIZE,
        snap_down(snap_down(v)) == snap_down(v),
{
    let q = v / 16;
    assert(q * 16 <= v < q * 16 + 16);
    assert((q * 16) % 16 == 0) by {
        vstd::arithmetic::div_mod::lemma_mod_multiples_basic(q as int, 16);
    }
    assert((q * 16) / 16 == q) by {
        vstd::arithmetic::div_mod::lemma_div_multiples_vanish(q as int, 16);
    }
}

} // verus!
