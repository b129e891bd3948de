//! The menus and their widgets.
pub mod button;
pub mod menus;
pub mod slider;

use vstd::prelude::*;

verus! {

/// Which corners of a widget are rounded.
#[derive(Clone, Copy, Debug, PartialEq, Eq, Structural)]
pub enum RoundedCorners {
    NoCorners,
    All,
    TopLeft,
    TopRight,
    BottomRight,
    BottomLeft,
    Top,
    Right,
    Bottom,
    Left,
}

/// A radius for each corner of a widget.
#[derive(Clone, Copy, Debug, PartialEq, Eq, Structural)]
pub struct BorderRadius<V> {
    pub top_left: V,
    pub top_right: V,
    pub bottom_right: V,
    pub bottom_left: V,
}

impl RoundedCorners {
    pub open spec fn rounds_top_left(self) -> bool {
        self == RoundedCorners::All || self == RoundedCorners::TopLeft || self == RoundedCorners::Top
            || self == RoundedCorners::Left
    }

    pub open spec fn rounds_top_right(self) -> bool {
        self == RoundedCorners::All || self == RoundedCorners::TopRight || self
            == RoundedCorners::Top || self == RoundedCorners::Right
    }

    pub open spec fn rounds_bottom_right(self) -> bool {
        self == RoundedCorners::All || self == RoundedCorners::BottomRight || self
            == RoundedCorners::Bottom || self == RoundedCorners::Right
    }

    pub open spec fn rounds_bottom_left(self) -> bool {
        self == RoundedCorners::All || self == RoundedCorners::BottomLeft || self
            == RoundedCorners::Bottom || self == RoundedCorners::Left
    }
}

/// The border radii for `corners`: `radius` at each rounded corner,
/// `zero` at the others.
pub fn to_border_radius<V: Copy>(corners: RoundedCorners, radius: V, zero: V) -> (r: BorderRadius<V>)
    ensures
        r.top_left == if corners.rounds_top_left() {
            radius
        } else {
            zero
        },
        r.top_right == if corners.rounds_top_right() {
            radius
        } else {
            zero
        },
        r.bottom_right == if corners.rounds_bottom_right() {
            radius
        } else {
            zero
        },
        r.bottom_left == if corners.rounds_bottom_left() {
            radius
        } else {
            zero
        },
{
    match corners {
        RoundedCorners::NoCorners => BorderRadius {
            top_left: zero,
            top_right: zero,
            bottom_right: zero,
            bottom_left: zero,
        },
        RoundedCorners::All => BorderRadius {
            top_left: radius,
            top_right: radius,
            bottom_right: radius,
            bottom_left: radius,
        },
        RoundedCorners::TopLeft => BorderRadius {
            top_left: radius,
            top_right: zero,
            bottom_right: zero,
            bottom_left: zero,
        },
        RoundedCorners::TopRight => BorderRadius {
            top_left: zero,
            top_right: radius,
            bottom_right: zero,
            bottom_left: zero,
        },
        RoundedCorners::BottomRight => BorderRadius {
            top_left: zero,
            top_right: zero,
            bottom_right: radius,
            bottom_left: zero,
        },
        RoundedCorners::BottomLeft => BorderRadius {
            top_left: zero,
            top_right: zero,
            bottom_right: zero,
            bottom_left: radius,
        },
        RoundedCorners::Top => BorderRadius {
            top_left: radius,
            top_right: radius,
            bottom_right: zero,
            bottom_left: zero,
        },
        RoundedCorners::Right => BorderRadius {
            top_left: zero,
            top_right: radius,
            bottom_right: radius,
            bottom_left: zero,
        },
        RoundedCorners::Bottom => BorderRadius {
            top_left: zero,
            top_right: zero,
            bottom_right: radius,
            bottom_left: radius,
        },
        RoundedCorners::Left => BorderRadius {
            top_left: radius,
            top_right: zero,
            bottom_right: zero,
            bottom_left: radius,
        },
    }
}

/// A side rounds both of its corners; `All` rounds every corner and
/// `NoCorners` none; each single corner rounds only itself.
pub proof fn lemma_corner_sets(c: RoundedCorners)
    ensures
        c == RoundedCorners::All ==> c.rounds_top_left() && c.rounds_top_right()
            && c.rounds_bottom_right() && c.rounds_bottom_left(),
        c == RoundedCorners::NoCorners ==> !c.rounds_top_left() && !c.rounds_top_right()
            && !c.rounds_bottom_right() && !c.rounds_bottom_left(),
        c == RoundedCorners::Top ==> c.rounds_top_left() && c.rounds_top_right()
            && !c.rounds_bottom_right() && !c.rounds_bottom_left(),
        c == RoundedCorners::Bottom ==> !c.rounds_top_left() && !c.rounds_top_right()
            && c.rounds_bottom_right() && c.rounds_bottom_left(),
        c == RoundedCorners::Left ==> c.rounds_top_left() && !c.rounds_top_right()
            && !c.rounds_bottom_right() && c.rounds_bottom_left(),
        c == RoundedCorners::Right ==> !c.rounds_top_left() && c.rounds_top_right()
            && c.rounds_bottom_right() && !c.rounds_bottom_left(),
{
}

} // verus!
