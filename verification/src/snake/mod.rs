//! Snakes: their headings, skins and sizes, and the modules that load, move,
//! steer and draw them.
pub mod asset;
pub mod events;
pub mod input;
pub mod movement;
pub mod pathing;
pub mod rendering;
pub mod text;

use crate::math::IVec2;
use vstd::prelude::*;

verus! {

/// The heading of a snake or of one of its segments.
#[derive(Clone, Copy, Debug, PartialEq, Eq, Hash, Structural)]
pub enum FacingDirection {
    Right,
    Down,
    Left,
    Up,
    Idle,
}

impl Default for FacingDirection {
    fn default() -> (r: FacingDirection)
        ensures
            r == FacingDirection::Idle,
    {
        FacingDirection::Idle
    }
}

impl FacingDirection {
    pub open spec fn spec_invers(self) -> FacingDirection {
        match self {
            FacingDirection::Right => FacingDirection::Left,
            FacingDirection::Down => FacingDirection::Up,
            FacingDirection::Left => FacingDirection::Right,
            FacingDirection::Up => FacingDirection::Down,
            FacingDirection::Idle => FacingDirection::Idle,
        }
    }

    /// The opposite heading; `Idle` stays `Idle`.
    pub fn invers(&self) -> (r: FacingDirection)
        ensures
            r == self.spec_invers(),
    {
        match self {
            FacingDirection::Right => FacingDirection::Left,
            FacingDirection::Down => FacingDirection::Up,
            FacingDirection::Left => FacingDirection::Right,
            FacingDirection::Up => FacingDirection::Down,
            FacingDirection::Idle => FacingDirection::Idle,
        }
    }

    pub open spec fn spec_to_vec(self) -> IVec2 {
        match self {
            FacingDirection::Right => IVec2 { x: 1, y: 0 },
            FacingDirection::Down => IVec2 { x: 0, y: -1i32 },
            FacingDirection::Left => IVec2 { x: -1i32, y: 0 },
            FacingDirection::Up => IVec2 { x: 0, y: 1 },
            FacingDirection::Idle => IVec2 { x: 0, y: 0 },
        }
    }

    /// The unit step of this heading on the grid (y grows upwards); the zero
    /// vector for `Idle`.
    #[verifier::when_used_as_spec(spec_to_vec)]
    pub fn to_vec(self) -> (r: IVec2)
        ensures
            r == self.spec_to_vec(),
    {
        match self {
            FacingDirection::Right => IVec2 { x: 1, y: 0 },
            FacingDirection::Down => IVec2 { x: 0, y: -1 },
            FacingDirection::Left => IVec2 { x: -1, y: 0 },
            FacingDirection::Up => IVec2 { x: 0, y: 1 },
            FacingDirection::Idle => IVec2 { x: 0, y: 0 },
        }
    }

    pub open spec fn spec_quarter_turns(self) -> i8 {
        match self {
            FacingDirection::Right => 0,
            FacingDirection::Down => -1i8,
            FacingDirection::Left => 2,
            FacingDirection::Up => 1,
            FacingDirection::Idle => 0,
        }
    }

    /// The rotation about the z axis that turns a right-facing sprite to
    /// this heading, in counter-clockwise quarter turns.
    #[verifier::when_used_as_spec(spec_quarter_turns)]
    pub fn quarter_turns(self) -> (r: i8)
        ensures
            r == self.spec_quarter_turns(),
    {
        match self {
            FacingDirection::Right => 0,
            FacingDirection::Down => -1,
            FacingDirection::Left => 2,
            FacingDirection::Up => 1,
            FacingDirection::Idle => 0,
        }
    }
}

/// Turning around twice gives the heading back.
pub proof fn lemma_invers_involution(d: FacingDirection)
    ensures
        d.spec_invers().spec_invers() == d,
{
}

/// The opposite heading steps the opposite way, and only `Idle` is its own
/// opposite.
pub proof fn lemma_invers_opposite_step(d: FacingDirection)
    ensures
        d.spec_invers().spec_to_vec().x == -d.spec_to_vec().x,
        d.spec_invers().spec_to_vec().y == -d.spec_to_vec().y,
        (d.spec_invers() == d) <==> (d == FacingDirection::Idle),
{
}

/// The snake skins, in their fixed order.
#[derive(Clone, Copy, Debug, PartialEq, Eq, Hash, Structural)]
pub enum SnakeId {
    SpottedWhite,
    ArrowBlue,
    GearWindowA,
    GearRickA,
    GearPreWindowA,
    EyeballBlueA,
    EyeballYellowA,
}

impl Default for SnakeId {
    fn default() -> (r: SnakeId)
        ensures
            r == SnakeId::SpottedWhite,
    {
        SnakeId::SpottedWhite
    }
}

/// The number of skins.
pub const SNAKE_ID_COUNT: usize = 7;

impl SnakeId {
    /// The position of the skin in the skin order.
    pub open spec fn spec_index(self) -> nat {
        match self {
            SnakeId::SpottedWhite => 0,
            SnakeId::ArrowBlue => 1,
            SnakeId::GearWindowA => 2,
            SnakeId::GearRickA => 3,
            SnakeId::GearPreWindowA => 4,
            SnakeId::EyeballBlueA => 5,
            SnakeId::EyeballYellowA => 6,
        }
    }

    /// The skin at position `i` of the skin order.
    pub open spec fn spec_from_index(i: nat) -> SnakeId {
        if i == 0 {
            SnakeId::SpottedWhite
        } else if i == 1 {
            SnakeId::ArrowBlue
        } else if i == 2 {
            SnakeId::GearWindowA
        } else if i == 3 {
            SnakeId::GearRickA
        } else if i == 4 {
            SnakeId::GearPreWindowA
        } else if i == 5 {
            SnakeId::EyeballBlueA
        } else {
            SnakeId::EyeballYellowA
        }
    }

    /// All skins in order.
    pub open spec fn spec_all() -> Seq<SnakeId> {
        Seq::new(SNAKE_ID_COUNT as nat, |i: int| SnakeId::spec_from_index(i as nat))
    }

    /// All skins, in the order in which they are listed.
    pub fn all() -> (r: Vec<SnakeId>)
        ensures
            r@ == SnakeId::spec_all(),
    {
        let r = vec![
            SnakeId::SpottedWhite,
            SnakeId::ArrowBlue,
            SnakeId::GearWindowA,
            SnakeId::GearRickA,
            SnakeId::GearPreWindowA,
            SnakeId::EyeballBlueA,
            SnakeId::EyeballYellowA,
        ];
        assert(r@ =~= SnakeId::spec_all());
        r
    }

    pub open spec fn spec_name(self) -> Seq<char> {
        match self {
            SnakeId::SpottedWhite => "SpottedWhite"@,
            SnakeId::ArrowBlue => "ArrowBlue"@,
            SnakeId::GearWindowA => "GearWindowA"@,
            SnakeId::GearRickA => "GearRickA"@,
            SnakeId::GearPreWindowA => "GearPreWindowA"@,
            SnakeId::EyeballBlueA => "EyeballBlueA"@,
            SnakeId::EyeballYellowA => "EyeballYellowA"@,
        }
    }

    /// The name of the skin, which is also the name of its variant.
    pub fn name(&self) -> (r: &'static str)
        ensures
            r@ == self.spec_name(),
    {
        match self {
            SnakeId::SpottedWhite => "SpottedWhite",
            SnakeId::ArrowBlue => "ArrowBlue",
            SnakeId::GearWindowA => "GearWindowA",
            SnakeId::GearRickA => "GearRickA",
            SnakeId::GearPreWindowA => "GearPreWindowA",
            SnakeId::EyeballBlueA => "EyeballBlueA",
            SnakeId::EyeballYellowA => "EyeballYellowA",
        }
    }

    pub open spec fn spec_next(self) -> SnakeId {
        SnakeId::spec_from_index((self.spec_index() + 1) % (SNAKE_ID_COUNT as nat))
    }

    /// The skin after this one in the skin order; after the last comes the
    /// first (the default).
    pub fn next(&self) -> (r: SnakeId)
        ensures
            r == self.spec_next(),
    {
        let all = SnakeId::all();
        let mut i: usize = 0;
        while i < all.len()
            invariant
                all@ == SnakeId::spec_all(),
                0 <= i <= all.len(),
                forall|j: int| 0 <= j < i ==> all@[j] != *self,
            decreases all.len() - i,
        {
            if all[i] == *self {
                if i + 1 < all.len() {
                    return all[i + 1];
                } else {
                    return SnakeId::default();
                }
            }
            i = i + 1;
        }
        assert(all@[self.spec_index() as int] == *self);
        SnakeId::default()
    }

    /// The path of the asset file that describes this skin.
    pub fn asset_path(&self) -> (r: String)
        ensures
            r@ == "snakes/"@ + self.spec_name() + ".snake"@,
    {
        let mut s = String::from_str("snakes/");
        s.append(self.name());
        s.append(".snake");
        s
    }
}

/// The skin reached from `id` by `n` steps of `next`.
pub open spec fn next_n(id: SnakeId, n: nat) -> SnakeId
    decreases n,
{
    if n == 0 {
        id
    } else {
        next_n(id, (n - 1) as nat).spec_next()
    }
}

pub proof fn lemma_next_n_index(id: SnakeId, n: nat)
    ensures
        next_n(id, n).spec_index() == (id.spec_index() + n) % (SNAKE_ID_COUNT as nat),
    decreases n,
{
    if n > 0 {
        lemma_next_n_index(id, (n - 1) as nat);
    }
}

pub proof fn lemma_index_determines(a: SnakeId, b: SnakeId)
    requires
        a.spec_index() == b.spec_index(),
    ensures
        a == b,
{
}

/// Stepping to the next skin seven times comes back to the same skin, and
/// every skin is reached in fewer than seven steps (as many as it stands
/// after `id` in the skin order, counting round).
pub proof fn lemma_next_cycles(id: SnakeId)
    ensures
        next_n(id, SNAKE_ID_COUNT as nat) == id,
        forall|other: SnakeId|
            next_n(id, ((#[trigger] other.spec_index() + 7 - id.spec_index()) % 7) as nat)
                == other,
{
    let i = id.spec_index();
    lemma_next_n_index(id, 7);
    assert(i < 7);
    assert((i + 7) % 7 == i);
    lemma_index_determines(next_n(id, 7), id);
    assert forall|other: SnakeId|
        next_n(id, ((#[trigger] other.spec_index() + 7 - id.spec_index()) % 7) as nat)
            == other by {
        let o = other.spec_index();
        let k: nat = ((o + 7 - i) % 7) as nat;
        assert(k < 7);
        assert((i + k) % 7 == o) by {
            assert(o < 7);
            if o >= i {
                assert(k == o - i);
            } else {
                assert(k == o + 7 - i);
            }
        }
        lemma_next_n_index(id, k);
        lemma_index_determines(next_n(id, k), other);
    }
}

/// The size class of a snake; each class is twice as wide as the one below.
#[derive(Clone, Copy, Debug, PartialEq, Eq, Hash, Structural)]
pub enum SnakeSize {
    Small,
    Medium,
    Large,
    Colossal,
}

impl Default for SnakeSize {
    fn default() -> (r: SnakeSize)
        ensures
            r == SnakeSize::Small,
    {
        SnakeSize::Small
    }
}

impl SnakeSize {
    pub open spec fn spec_stride(&self) -> u32 {
        match self {
            SnakeSize::Small => 1,
            SnakeSize::Medium => 2,
            SnakeSize::Large => 4,
            SnakeSize::Colossal => 8,
        }
    }

    /// The width of one segment in grid cells.
    #[verifier::when_used_as_spec(spec_stride)]
    pub fn stride(&self) -> (r: u32)
        ensures
            r == self.spec_stride(),
    {
        match self {
            SnakeSize::Small => 1,
            SnakeSize::Medium => 2,
            SnakeSize::Large => 4,
            SnakeSize::Colossal => 8,
        }
    }

    pub open spec fn spec_up(self) -> SnakeSize {
        match self {
            SnakeSize::Small => SnakeSize::Medium,
            SnakeSize::Medium => SnakeSize::Large,
            SnakeSize::Large => SnakeSize::Colossal,
            SnakeSize::Colossal => SnakeSize::Colossal,
        }
    }

    pub open spec fn spec_down(self) -> SnakeSize {
        match self {
            SnakeSize::Small => SnakeSize::Small,
            SnakeSize::Medium => SnakeSize::Small,
            SnakeSize::Large => SnakeSize::Medium,
            SnakeSize::Colossal => SnakeSize::Large,
        }
    }

    /// The next larger size; `Colossal` stays `Colossal`.
    pub fn up(&self) -> (r: SnakeSize)
        ensures
            r == self.spec_up(),
    {
        match self {
            SnakeSize::Small => SnakeSize::Medium,
            SnakeSize::Medium => SnakeSize::Large,
            SnakeSize::Large => SnakeSize::Colossal,
            SnakeSize::Colossal => SnakeSize::Colossal,
        }
    }

    /// The next smaller size; `Small` stays `Small`.
    pub fn down(&self) -> (r: SnakeSize)
        ensures
            r == self.spec_down(),
    {
        match self {
            SnakeSize::Small => SnakeSize::Small,
            SnakeSize::Medium => SnakeSize::Small,
            SnakeSize::Large => SnakeSize::Medium,
            SnakeSize::Colossal => SnakeSize::Large,
        }
    }

    pub fn inc(&mut self)
        ensures
            *final(self) == old(self).spec_up(),
    {
        *self = self.up();
    }

    pub fn dec(&mut self)
        ensures
            *final(self) == old(self).spec_down(),
    {
        *self = self.down();
    }
}

/// Growing and shrinking undo each other away from the ends of the scale,
/// and a step up doubles the stride unless the size is already the largest.
pub proof fn lemma_size_steps(s: SnakeSize)
    ensures
        s != SnakeSize::Colossal ==> s.spec_up().spec_down() == s,
        s != SnakeSize::Small ==> s.spec_down().spec_up() == s,
        s != SnakeSize::Colossal ==> s.spec_up().spec_stride() == 2 * s.spec_stride(),
        s == SnakeSize::Colossal ==> s.spec_up() == s,
        s == SnakeSize::Small ==> s.spec_down() == s,
        s.spec_down().spec_stride() <= s.spec_stride() <= s.spec_up().spec_stride(),
{
}

/// A snake: the skin asset it is drawn with and its animation frame counter.
pub struct Snake<H> {
    pub snake_type: H,
    pub frame: usize,
}

impl<H> Snake<H> {
    pub fn new(snake_type: H) -> (r: Snake<H>)
        ensures
            r.snake_type == snake_type,
            r.frame == 0,
    {
        Snake { snake_type, frame: 0 }
    }
}

/// The part of a snake that a segment draws.
#[derive(Clone, Copy, Debug, PartialEq, Eq, Structural)]
pub enum SnakePiece {
    Head,
    BodyStraight,
    BodyCurve,
    Tail,
}

impl Default for SnakePiece {
    fn default() -> (r: SnakePiece)
        ensures
            r == SnakePiece::Tail,
    {
        SnakePiece::Tail
    }
}

} // verus!
