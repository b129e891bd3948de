//! Requests to spawn a snake.
use super::pathing::PathFinding;
use super::{FacingDirection, Snake, SnakeId, SnakeSize};
use vstd::prelude::*;

verus! {

/// Who steers a snake.
pub enum SnakeBrain {
    PathFinding(PathFinding),
    Player,
}

/// A request to spawn a snake.
pub struct SpawnSnake {
    skin: SnakeId,
    brain: SnakeBrain,
    length: u8,
    size: SnakeSize,
    facing: FacingDirection,
}

/// `length` kept to at least two segments.
pub open spec fn clamp_length(length: u8) -> u8 {
    if length < 2 {
        2
    } else {
        length
    }
}

impl SpawnSnake {
    pub closed spec fn spec_skin(&self) -> SnakeId {
        self.skin
    }

    pub closed spec fn spec_brain(&self) -> &SnakeBrain {
        &self.brain
    }

    pub closed spec fn spec_length(&self) -> u8 {
        self.length
    }

    pub closed spec fn spec_size(&self) -> SnakeSize {
        self.size
    }

    pub closed spec fn spec_facing(&self) -> FacingDirection {
        self.facing
    }

    /// A snake of `length` segments (at least two) heading right.
    pub fn new(skin: SnakeId, brain: SnakeBrain, length: u8, size: SnakeSize) -> (r: SpawnSnake)
        ensures
            r.spec_skin() == skin,
            *r.spec_brain() == brain,
            r.spec_length() == clamp_length(length),
            r.spec_size() == size,
            r.spec_facing() == FacingDirection::Right,
    {
        SpawnSnake {
            skin,
            brain,
            length: if length < 2 {
                2
            } else {
                length
            },
            size,
            facing: FacingDirection::Right,
        }
    }

    /// A snake steered by the player.
    pub fn new_player(skin: SnakeId, length: u8, size: SnakeSize) -> (r: SpawnSnake)
        ensures
            r.spec_skin() == skin,
            *r.spec_brain() == SnakeBrain::Player,
            r.spec_length() == clamp_length(length),
            r.spec_size() == size,
            r.spec_facing() == FacingDirection::Right,
    {
        SpawnSnake::new(skin, SnakeBrain::Player, length, size)
    }

    /// The same request with the snake heading `facing`.
    pub fn facing(self, facing: FacingDirection) -> (r: SpawnSnake)
        ensures
            r.spec_skin() == self.spec_skin(),
            *r.spec_brain() == *self.spec_brain(),
            r.spec_length() == self.spec_length(),
            r.spec_size() == self.spec_size(),
            r.spec_facing() == facing,
    {
        let mut s = self;
        s.facing = facing;
        s
    }

    pub fn skin(&self) -> (r: SnakeId)
        ensures
            r == self.spec_skin(),
    {
        self.skin
    }

    pub fn brain(&self) -> (r: &SnakeBrain)
        ensures
            *r == *self.spec_brain(),
    {
        &self.brain
    }

    pub fn length(&self) -> (r: u8)
        ensures
            r == self.spec_length(),
    {
        self.length
    }

    pub fn size(&self) -> (r: SnakeSize)
        ensures
            r == self.spec_size(),
    {
        self.size
    }

    pub fn heading(&self) -> (r: FacingDirection)
        ensures
            r == self.spec_facing(),
    {
        self.facing
    }
}

/// Whether two brains steer alike: both follow the same fixed path, or
/// both are the player.
pub open spec fn same_brain(a: SnakeBrain, b: SnakeBrain) -> bool {
    match (a, b) {
        (
            SnakeBrain::PathFinding(PathFinding::FixedPath(x)),
            SnakeBrain::PathFinding(PathFinding::FixedPath(y)),
        ) => x@ == y@,
        (SnakeBrain::Player, SnakeBrain::Player) => true,
        _ => false,
    }
}

impl SnakeBrain {
    /// A brain that steers as this one does.
    pub fn duplicate(&self) -> (r: SnakeBrain)
        ensures
            same_brain(*self, r),
    {
        match self {
            SnakeBrain::PathFinding(PathFinding::FixedPath(path)) => {
                let mut copy: Vec<FacingDirection> = Vec::new();
                let mut i: usize = 0;
                while i < path.len()
                    invariant
                        i <= path.len(),
                        copy@ == path@.take(i as int),
                    decreases path.len() - i,
                {
                    copy.push(path[i]);
                    i = i + 1;
                    assert(copy@ =~= path@.take(i as int));
                }
                assert(path@.take(path.len() as int) =~= path@);
                SnakeBrain::PathFinding(PathFinding::FixedPath(copy))
            },
            SnakeBrain::Player => SnakeBrain::Player,
        }
    }
}

/// Everything a spawned snake is made of: the snake itself (its skin's
/// asset, to load, and animation frame 0), its skin, size and heading, who
/// steers it, and one segment request per segment of its length, all
/// aimed at the snake's entity.
pub struct SnakeSpawn<E> {
    pub snake: Snake<String>,
    pub skin: SnakeId,
    pub size: SnakeSize,
    pub facing: FacingDirection,
    pub brain: SnakeBrain,
    pub segments: Vec<SpawnSegment<E>>,
}

/// What to spawn for the request `trigger` as the entity `snake`.
pub fn spawn_snake<E: Copy>(trigger: &SpawnSnake, snake: E) -> (r: SnakeSpawn<E>)
    ensures
        r.snake.snake_type@ == "snakes/"@ + trigger.spec_skin().spec_name() + ".snake"@,
        r.snake.frame == 0,
        r.skin == trigger.spec_skin(),
        r.size == trigger.spec_size(),
        r.facing == trigger.spec_facing(),
        same_brain(*trigger.spec_brain(), r.brain),
        r.segments.len() == trigger.spec_length(),
        forall|i: int| 0 <= i < r.segments.len() ==> (#[trigger] r.segments@[i]).snake == snake,
{
    let n = trigger.length();
    let mut segments: Vec<SpawnSegment<E>> = Vec::new();
    let mut i: u8 = 0;
    while i < n
        invariant
            n == trigger.spec_length(),
            i <= n,
            segments.len() == i,
            forall|j: int| 0 <= j < segments.len() ==> (#[trigger] segments@[j]).snake == snake,
        decreases n - i,
    {
        segments.push(SpawnSegment { snake });
        i = i + 1;
    }
    let skin = trigger.skin();
    SnakeSpawn {
        snake: Snake::new(skin.asset_path()),
        skin,
        size: trigger.size(),
        facing: trigger.heading(),
        brain: trigger.brain().duplicate(),
        segments,
    }
}

/// A request to add one segment at the tail of the snake `snake`.
#[derive(Clone, Copy, Debug, PartialEq, Eq)]
pub struct SpawnSegment<E> {
    pub snake: E,
}

/// A segment to spawn as the last child of `parent`, heading `facing`.
#[derive(Clone, Copy, Debug, PartialEq, Eq)]
pub struct NewSegment<E> {
    pub parent: E,
    pub facing: FacingDirection,
}

/// The segment that a `SpawnSegment` request adds: a child of the snake
/// that has no heading yet.
pub fn add_segment<E: Copy>(trigger: &SpawnSegment<E>) -> (r: NewSegment<E>)
    ensures
        r.parent == trigger.snake,
        r.facing == FacingDirection::Idle,
{
    NewSegment { parent: trigger.snake, facing: FacingDirection::Idle }
}

} // verus!
