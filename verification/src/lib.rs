//! Game logic of the Sneck snake game: grid geometry, the snake asset
//! format, snake movement and rendering decisions, the mini map raster and
//! the menu navigation stack.

pub mod audio;
pub mod collectables;
pub mod map;
pub mod math;
pub mod snake;
pub mod ui;
pub mod utils;

use ui::menus::OpenMenu;
use vstd::prelude::*;

verus! {

/// Side length, in world units, of one grid cell.
pub const U_GRID_SIZE: u32 = 16;

/// Whether time stands still: while any menu is open.
#[derive(Clone, Copy, Debug, PartialEq, Eq, Hash, Structural)]
pub struct TimeFrozen;

impl TimeFrozen {
    /// Time is frozen exactly while a menu is open.
    pub fn compute(sources: OpenMenu) -> (r: Option<TimeFrozen>)
        ensures
            r is Some <==> sources != OpenMenu::NoMenu,
    {
        if sources != OpenMenu::NoMenu {
            Some(TimeFrozen)
        } else {
            None
        }
    }
}

} // verus!
