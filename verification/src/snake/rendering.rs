//! What a snake looks like: the textures of its skins, the frames of an
//! animated skin, and which piece each segment draws with which turn.
use super::{FacingDirection, SnakeId, SnakePiece};
use vstd::prelude::*;

verus! {

/// The four textures of one frame of a skin.
pub struct SnakeFrame<I> {
    pub head: I,
    pub body_straight: I,
    pub body_curve: I,
    pub tail: I,
}

impl<I: DeepView> DeepView for SnakeFrame<I> {
    type V = SnakeFrame<I::V>;

    open spec fn deep_view(&self) -> SnakeFrame<I::V> {
        SnakeFrame {
            head: self.head.deep_view(),
            body_straight: self.body_straight.deep_view(),
            body_curve: self.body_curve.deep_view(),
            tail: self.tail.deep_view(),
        }
    }
}

impl<I> SnakeFrame<I> {
    pub open spec fn spec_segment(&self, piece: SnakePiece) -> I {
        match piece {
            SnakePiece::Head => self.head,
            SnakePiece::BodyStraight => self.body_straight,
            SnakePiece::BodyCurve => self.body_curve,
            SnakePiece::Tail => self.tail,
        }
    }

    /// The texture that `piece` is drawn with in this frame.
    pub fn get_segment(&self, piece: &SnakePiece) -> (r: &I)
        ensures
            *r == self.spec_segment(*piece),
    {
        match piece {
            SnakePiece::Head => &self.head,
            SnakePiece::BodyStraight => &self.body_straight,
            SnakePiece::BodyCurve => &self.body_curve,
            SnakePiece::Tail => &self.tail,
        }
    }
}

/// The frames of a skin: one still frame, or an animation of several.
pub enum SnakeBody<I> {
    Animated(Vec<SnakeFrame<I>>),
    Single(SnakeFrame<I>),
}

impl<I> SnakeBody<I> {
    /// The frames in animation order.
    pub open spec fn frames(&self) -> Seq<SnakeFrame<I>> {
        match self {
            SnakeBody::Animated(frames) => frames@,
            SnakeBody::Single(frame) => seq![*frame],
        }
    }

    /// The tail texture; of an animation, that of its first frame.
    pub fn tail(&self) -> (r: &I)
        requires
            self.frames().len() > 0,
        ensures
            *r == self.frames()[0].tail,
    {
        match self {
            SnakeBody::Animated(frames) => &frames[0].tail,
            SnakeBody::Single(frame) => &frame.tail,
        }
    }

    /// The body with `frame` appended after the frames of `body` (no body
    /// at all counts as no frames): a first frame gives a still body, a
    /// second turns it into an animation.
    pub fn with_frame(body: Option<SnakeBody<I>>, frame: SnakeFrame<I>) -> (r: SnakeBody<I>)
        ensures
            r.frames() == match body {
                Some(b) => b.frames(),
                None => Seq::<SnakeFrame<I>>::empty(),
            }.push(frame),
            r is Single <==> body is None,
    {
        match body {
            None => SnakeBody::Single(frame),
            Some(SnakeBody::Single(first)) => {
                let frames = vec![first, frame];
                assert(frames@ =~= seq![first].push(frame));
                SnakeBody::Animated(frames)
            },
            Some(SnakeBody::Animated(frames)) => {
                let mut frames = frames;
                frames.push(frame);
                SnakeBody::Animated(frames)
            },
        }
    }
}


/// The texture of each piece of a skin, by position in the sprite sheet.
#[derive(Clone, Copy, Debug, PartialEq, Eq, Structural)]
pub struct SnakePieceIndices {
    pub head: usize,
    pub body_straight: usize,
    pub body_curve: usize,
    pub tail: usize,
}

impl SnakeId {
    pub open spec fn spec_segment_indices(self) -> SnakePieceIndices {
        match self {
            SnakeId::SpottedWhite => SnakePieceIndices {
                head: 2,
                body_straight: 1,
                body_curve: 0,
                tail: 15,
            },
            SnakeId::ArrowBlue => SnakePieceIndices {
                head: 226,
                body_straight: 225,
                body_curve: 224,
                tail: 239,
            },
            SnakeId::GearWindowA => SnakePieceIndices {
                head: 338,
                body_straight: 336,
                body_curve: 340,
                tail: 342,
            },
            SnakeId::GearRickA => SnakePieceIndices {
                head: 344,
                body_straight: 336,
                body_curve: 340,
                tail: 342,
            },
            SnakeId::GearPreWindowA => SnakePieceIndices {
                head: 346,
                body_straight: 336,
                body_curve: 340,
                tail: 342,
            },
            SnakeId::EyeballBlueA => SnakePieceIndices {
                head: 370,
                body_straight: 368,
                body_curve: 374,
                tail: 372,
            },
            SnakeId::EyeballYellowA => SnakePieceIndices {
                head: 378,
                body_straight: 376,
                body_curve: 382,
                tail: 380,
            },
        }
    }

    /// Where this skin's pieces are in the sprite sheet.
    pub fn segment_indices(&self) -> (r: SnakePieceIndices)
        ensures
            r == self.spec_segment_indices(),
    {
        match self {
            SnakeId::SpottedWhite => SnakePieceIndices {
                head: 2,
                body_straight: 1,
                body_curve: 0,
                tail: 15,
            },
            SnakeId::ArrowBlue => SnakePieceIndices {
                head: 226,
                body_straight: 225,
                body_curve: 224,
                tail: 239,
            },
            SnakeId::GearWindowA => SnakePieceIndices {
                head: 338,
                body_straight: 336,
                body_curve: 340,
                tail: 342,
            },
            SnakeId::GearRickA => SnakePieceIndices {
                head: 344,
                body_straight: 336,
                body_curve: 340,
                tail: 342,
            },
            SnakeId::GearPreWindowA => SnakePieceIndices {
                head: 346,
                body_straight: 336,
                body_curve: 340,
                tail: 342,
            },
            SnakeId::EyeballBlueA => SnakePieceIndices {
                head: 370,
                body_straight: 368,
                body_curve: 374,
                tail: 372,
            },
            SnakeId::EyeballYellowA => SnakePieceIndices {
                head: 378,
                body_straight: 376,
                body_curve: 382,
                tail: 380,
            },
        }
    }

    /// The texture files of this skin's pieces.
    pub fn texture_paths(&self) -> (r: SnakeHandles<String>)
        ensures
            r.deep_view() == self.spec_segment_indices().spec_texture_paths(),
    {
        self.segment_indices().texture_paths()
    }
}

/// The decimal digit `d` as a character.
pub open spec fn digit_char(d: nat) -> char {
    ((d + 48) as u8) as char
}

/// The decimal numeral of `n`, without leading zeros.
pub open spec fn decimal(n: nat) -> Seq<char>
    decreases n,
{
    if n < 10 {
        seq![digit_char(n)]
    } else {
        decimal(n / 10).push(digit_char(n % 10))
    }
}

/// `s` with zeros put in front until it is at least `width` long, as the
/// format `{:0width}` pads a number.
pub open spec fn zero_pad(s: Seq<char>, width: nat) -> Seq<char> {
    if s.len() < width {
        Seq::new((width - s.len()) as nat, |i: int| '0') + s
    } else {
        s
    }
}

/// The file of the sprite at `index` in the sprite sheet.
pub open spec fn sprite_path(index: nat) -> Seq<char> {
    "BattleSnake/snakes/32x32px_split/snake"@ + zero_pad(decimal(index), 3) + ".png"@
}

fn push_decimal(n: usize, out: &mut Vec<char>)
    ensures
        final(out)@ == old(out)@ + decimal(n as nat),
    decreases n,
{
    if n >= 10 {
        push_decimal(n / 10, out);
    }
    let d = (n % 10) as u8;
    out.push((d + 48) as char);
    proof {
        if n >= 10 {
            assert(decimal(n as nat) == decimal((n / 10) as nat).push(digit_char((n % 10) as nat)));
        }
    }
}

/// The file of the sprite at `index`; see `sprite_path`.
pub fn sprite_file(index: usize) -> (r: String)
    ensures
        r@ == sprite_path(index as nat),
{
    let mut digits: Vec<char> = Vec::new();
    push_decimal(index, &mut digits);
    assert(digits@ =~= decimal(index as nat));
    let mut path = super::text::chars_of("BattleSnake/snakes/32x32px_split/snake");
    let ghost prefix = path@;
    let need: usize = if digits.len() < 3 {
        3 - digits.len()
    } else {
        0
    };
    let mut zeros: usize = 0;
    while zeros < need
        invariant
            path@ == prefix + Seq::new(zeros as nat, |i: int| '0'),
            digits@ == decimal(index as nat),
            zeros <= need,
        decreases need - zeros,
    {
        path.push('0');
        zeros = zeros + 1;
        assert(path@ =~= prefix + Seq::new(zeros as nat, |i: int| '0'));
    }
    let ghost before = path@;
    let mut k: usize = 0;
    while k < digits.len()
        invariant
            path@ == before + digits@.take(k as int),
            k <= digits.len(),
        decreases digits.len() - k,
    {
        path.push(digits[k]);
        k = k + 1;
        assert(path@ =~= before + digits@.take(k as int));
    }
    let suffix = super::text::chars_of(".png");
    let mut j: usize = 0;
    let ghost mid = path@;
    while j < suffix.len()
        invariant
            path@ == mid + suffix@.take(j as int),
            j <= suffix.len(),
        decreases suffix.len() - j,
    {
        path.push(suffix[j]);
        j = j + 1;
        assert(path@ =~= mid + suffix@.take(j as int));
    }
    proof {
        assert(digits@.take(digits.len() as int) =~= digits@);
        assert(suffix@.take(suffix.len() as int) =~= suffix@);
        if digits.len() >= 3 {
            assert(Seq::new(0nat, |i: int| '0') =~= Seq::<char>::empty());
        }
        assert(path@ =~= sprite_path(index as nat));
    }
    let whole = super::text::Span { start: 0, end: path.len() };
    assert(whole.of(path@) =~= path@);
    super::text::span_to_string(path.as_slice(), whole)
}

impl SnakePieceIndices {
    pub open spec fn spec_texture_paths(self) -> SnakeHandles<Seq<char>> {
        SnakeHandles {
            head: sprite_path(self.head as nat),
            body_straight: sprite_path(self.body_straight as nat),
            body_curve: sprite_path(self.body_curve as nat),
            tail: sprite_path(self.tail as nat),
        }
    }

    /// The texture files of the four pieces.
    pub fn texture_paths(&self) -> (r: SnakeHandles<String>)
        ensures
            r.deep_view() == self.spec_texture_paths(),
    {
        SnakeHandles {
            head: sprite_file(self.head),
            body_straight: sprite_file(self.body_straight),
            body_curve: sprite_file(self.body_curve),
            tail: sprite_file(self.tail),
        }
    }
}

/// The textures of the four pieces of a skin.
pub struct SnakeHandles<I> {
    pub head: I,
    pub body_straight: I,
    pub body_curve: I,
    pub tail: I,
}

impl<I: DeepView> DeepView for SnakeHandles<I> {
    type V = SnakeHandles<I::V>;

    open spec fn deep_view(&self) -> SnakeHandles<I::V> {
        SnakeHandles {
            head: self.head.deep_view(),
            body_straight: self.body_straight.deep_view(),
            body_curve: self.body_curve.deep_view(),
            tail: self.tail.deep_view(),
        }
    }
}

impl<I> SnakeHandles<I> {
    pub open spec fn spec_get(&self, piece: SnakePiece) -> I {
        match piece {
            SnakePiece::Head => self.head,
            SnakePiece::BodyStraight => self.body_straight,
            SnakePiece::BodyCurve => self.body_curve,
            SnakePiece::Tail => self.tail,
        }
    }

    /// The texture of `piece`.
    pub fn get(&self, piece: &SnakePiece) -> (r: &I)
        ensures
            *r == self.spec_get(*piece),
    {
        match piece {
            SnakePiece::Head => &self.head,
            SnakePiece::BodyStraight => &self.body_straight,
            SnakePiece::BodyCurve => &self.body_curve,
            SnakePiece::Tail => &self.tail,
        }
    }
}


/// How a body segment joins the segments before and after it: whether it
/// is drawn straight or curved, how its sprite is mirrored, and its turn
/// about the z axis in counter-clockwise quarter turns.
#[derive(Clone, Copy, Debug, PartialEq, Eq, Structural)]
pub struct Connection {
    pub flip_x: bool,
    pub flip_y: bool,
    pub straight: bool,
    pub quarter_turns: i8,
}

pub open spec fn conn(flip_x: bool, flip_y: bool, straight: bool, quarter_turns: i8) -> Connection {
    Connection { flip_x, flip_y, straight, quarter_turns }
}

/// The join of a segment heading `next` whose follower heads `prev`.
/// Opposite headings and `Idle` are joined as a plain straight piece.
pub open spec fn spec_connection(next: FacingDirection, prev: FacingDirection) -> Connection {
    match (next, prev) {
        (FacingDirection::Right, FacingDirection::Right) => conn(false, false, true, 0),
        (FacingDirection::Left, FacingDirection::Left) => conn(true, true, true, 0),
        (FacingDirection::Up, FacingDirection::Up) => conn(true, false, true, -1i8),
        (FacingDirection::Down, FacingDirection::Down) => conn(false, false, true, -1i8),
        (FacingDirection::Right, FacingDirection::Up) => conn(false, false, false, 0),
        (FacingDirection::Right, FacingDirection::Down) => conn(false, true, false, 0),
        (FacingDirection::Left, FacingDirection::Up) => conn(true, false, false, 0),
        (FacingDirection::Left, FacingDirection::Down) => conn(true, true, false, 0),
        (FacingDirection::Down, FacingDirection::Left) => conn(true, false, false, 1),
        (FacingDirection::Down, FacingDirection::Right) => conn(false, false, false, -1i8),
        (FacingDirection::Up, FacingDirection::Left) => conn(false, false, false, 1),
        (FacingDirection::Up, FacingDirection::Right) => conn(true, false, false, -1i8),
        _ => conn(false, false, true, 0),
    }
}

impl Connection {
    /// See `spec_connection`.
    pub fn new(next: FacingDirection, prev: FacingDirection) -> (r: Connection)
        ensures
            r == spec_connection(next, prev),
            next == prev && next != FacingDirection::Idle ==> r.straight && (r.quarter_turns
                - next.spec_quarter_turns()) % 2 == 0,
    {
        match (next, prev) {
            (FacingDirection::Right, FacingDirection::Right) => Connection {
                flip_x: false,
                flip_y: false,
                straight: true,
                quarter_turns: 0,
            },
            (FacingDirection::Left, FacingDirection::Left) => Connection {
                flip_x: true,
                flip_y: true,
                straight: true,
                quarter_turns: 0,
            },
            (FacingDirection::Up, FacingDirection::Up) => Connection {
                flip_x: true,
                flip_y: false,
                straight: true,
                quarter_turns: -1i8,
            },
            (FacingDirection::Down, FacingDirection::Down) => Connection {
                flip_x: false,
                flip_y: false,
                straight: true,
                quarter_turns: -1i8,
            },
            (FacingDirection::Right, FacingDirection::Up) => Connection {
                flip_x: false,
                flip_y: false,
                straight: false,
                quarter_turns: 0,
            },
            (FacingDirection::Right, FacingDirection::Down) => Connection {
                flip_x: false,
                flip_y: true,
                straight: false,
                quarter_turns: 0,
            },
            (FacingDirection::Left, FacingDirection::Up) => Connection {
                flip_x: true,
                flip_y: false,
                straight: false,
                quarter_turns: 0,
            },
            (FacingDirection::Left, FacingDirection::Down) => Connection {
                flip_x: true,
                flip_y: true,
                straight: false,
                quarter_turns: 0,
            },
            (FacingDirection::Down, FacingDirection::Left) => Connection {
                flip_x: true,
                flip_y: false,
                straight: false,
                quarter_turns: 1,
            },
            (FacingDirection::Down, FacingDirection::Right) => Connection {
                flip_x: false,
                flip_y: false,
                straight: false,
                quarter_turns: -1i8,
            },
            (FacingDirection::Up, FacingDirection::Left) => Connection {
                flip_x: false,
                flip_y: false,
                straight: false,
                quarter_turns: 1,
            },
            (FacingDirection::Up, FacingDirection::Right) => Connection {
                flip_x: true,
                flip_y: false,
                straight: false,
                quarter_turns: -1i8,
            },
            _ => Connection { flip_x: false, flip_y: false, straight: true, quarter_turns: 0 },
        }
    }
}

/// Whether two headings are at right angles to each other.
pub open spec fn perpendicular(a: FacingDirection, b: FacingDirection) -> bool {
    a != FacingDirection::Idle && b != FacingDirection::Idle && a != b && a != b.spec_invers()
}

/// A segment is curved exactly where the snake turns a corner, and a
/// straight segment is turned a quarter at most.
pub proof fn lemma_connection_curves_at_corners(next: FacingDirection, prev: FacingDirection)
    ensures
        !spec_connection(next, prev).straight <==> perpendicular(next, prev),
        -1 <= spec_connection(next, prev).quarter_turns <= 1,
{
}

/// A straight piece lies along its heading: the straight sprite, which
/// lies horizontally, is turned by the heading's own rotation up to a half
/// turn, so it stands upright (an odd number of quarter turns) exactly
/// when the snake moves up or down.
pub proof fn lemma_straight_piece_follows_heading(d: FacingDirection)
    requires
        d != FacingDirection::Idle,
    ensures
        spec_connection(d, d).straight,
        (spec_connection(d, d).quarter_turns - d.spec_quarter_turns()) % 2 == 0,
        spec_connection(d, d).quarter_turns % 2 == 1 <==> d.spec_to_vec().x == 0,
        spec_connection(d, d).quarter_turns % 2 == 0 <==> d.spec_to_vec().y == 0,
        spec_connection(d, d).quarter_turns == spec_connection(d.spec_invers(), d.spec_invers()).quarter_turns,
{
}

/// Where the direction `v` of a sprite's plane (x to the right, y upwards)
/// points once the sprite is mirrored as `flip_x` and `flip_y` say and then
/// turned counter-clockwise by `quarter_turns` quarter turns.
pub open spec fn placed(v: (int, int), flip_x: bool, flip_y: bool, quarter_turns: int) -> (int, int) {
    let x = if flip_x {
        -v.0
    } else {
        v.0
    };
    let y = if flip_y {
        -v.1
    } else {
        v.1
    };
    let q = quarter_turns % 4;
    if q == 0 {
        (x, y)
    } else if q == 1 {
        (-y, x)
    } else if q == 2 {
        (-x, -y)
    } else {
        (y, -x)
    }
}

/// The unit step of a heading as a pair.
pub open spec fn step_of(d: FacingDirection) -> (int, int) {
    (d.spec_to_vec().x as int, d.spec_to_vec().y as int)
}

/// The opposite of a direction.
pub open spec fn back(v: (int, int)) -> (int, int) {
    (-v.0, -v.1)
}

/// A body piece joins its neighbours. The straight sprite runs from its
/// left edge to its right edge, the curve sprite from its bottom edge to
/// its right edge; mirrored and turned as the join of a segment heading
/// `next` and a follower heading `prev` says, the right edge faces the
/// segment ahead (the way `next` points) and the other end faces the
/// segment behind (against `prev`).
pub proof fn lemma_connection_joins_neighbours(next: FacingDirection, prev: FacingDirection)
    requires
        next != FacingDirection::Idle,
        prev != FacingDirection::Idle,
        next != prev.spec_invers(),
    ensures
        ({
            let c = spec_connection(next, prev);
            &&& placed((1, 0), c.flip_x, c.flip_y, c.quarter_turns as int) == step_of(next)
            &&& placed(
                if c.straight {
                    (-1, 0)
                } else {
                    (0, -1)
                },
                c.flip_x,
                c.flip_y,
                c.quarter_turns as int,
            ) == back(step_of(prev))
        }),
{
}

/// How one segment of a snake is drawn.
#[derive(Clone, Copy, Debug, PartialEq, Eq, Structural)]
pub struct SegmentShape {
    pub piece: SnakePiece,
    pub quarter_turns: i8,
    pub flip_x: bool,
    pub flip_y: bool,
}

/// How segment `i` of a snake whose segments head `dirs` (head first) is
/// drawn: the head and the tail are turned to their own heading and not
/// mirrored; a segment between them joins its heading to that of the
/// segment behind it.
pub open spec fn spec_segment_shape(dirs: Seq<FacingDirection>, i: int) -> SegmentShape {
    if i == 0 {
        SegmentShape {
            piece: SnakePiece::Head,
            quarter_turns: dirs[0].spec_quarter_turns(),
            flip_x: false,
            flip_y: false,
        }
    } else if i == dirs.len() - 1 {
        SegmentShape {
            piece: SnakePiece::Tail,
            quarter_turns: dirs[i].spec_quarter_turns(),
            flip_x: false,
            flip_y: false,
        }
    } else {
        let c = spec_connection(dirs[i], dirs[i + 1]);
        SegmentShape {
            piece: if c.straight {
                SnakePiece::BodyStraight
            } else {
                SnakePiece::BodyCurve
            },
            quarter_turns: c.quarter_turns,
            flip_x: c.flip_x,
            flip_y: c.flip_y,
        }
    }
}

/// The shape of every segment of a snake whose segments head `dirs`.
pub fn snake_shape(dirs: &Vec<FacingDirection>) -> (r: Vec<SegmentShape>)
    ensures
        r.len() == dirs.len(),
        forall|i: int| 0 <= i < dirs.len() ==> #[trigger] r@[i] == spec_segment_shape(dirs@, i),
{
    let n = dirs.len();
    let mut r: Vec<SegmentShape> = Vec::new();
    let mut i: usize = 0;
    while i < n
        invariant
            n == dirs.len(),
            i <= n,
            r.len() == i,
            forall|j: int| 0 <= j < i ==> #[trigger] r@[j] == spec_segment_shape(dirs@, j),
        decreases n - i,
    {
        let d = dirs[i];
        let shape = if i == 0 {
            SegmentShape {
                piece: SnakePiece::Head,
                quarter_turns: d.quarter_turns(),
                flip_x: false,
                flip_y: false,
            }
        } else if i == n - 1 {
            SegmentShape {
                piece: SnakePiece::Tail,
                quarter_turns: d.quarter_turns(),
                flip_x: false,
                flip_y: false,
            }
        } else {
            let c = Connection::new(d, dirs[i + 1]);
            SegmentShape {
                piece: if c.straight {
                    SnakePiece::BodyStraight
                } else {
                    SnakePiece::BodyCurve
                },
                quarter_turns: c.quarter_turns,
                flip_x: c.flip_x,
                flip_y: c.flip_y,
            }
        };
        r.push(shape);
        i = i + 1;
    }
    r
}

/// A body segment between two segments with the same heading is a
/// straight piece turned along that heading, up to a half turn.
pub proof fn lemma_shape_straight_runs(dirs: Seq<FacingDirection>, i: int)
    requires
        0 < i < dirs.len() - 1,
        dirs[i] == dirs[i + 1],
        dirs[i] != FacingDirection::Idle,
    ensures
        spec_segment_shape(dirs, i).piece == SnakePiece::BodyStraight,
        (spec_segment_shape(dirs, i).quarter_turns - dirs[i].spec_quarter_turns()) % 2 == 0,
{
    lemma_straight_piece_follows_heading(dirs[i]);
}

/// The head and the tail point the way they head, and every body segment
/// between two segments that do not double back on each other reaches
/// from the segment behind it to the segment ahead of it (see
/// `lemma_connection_joins_neighbours`).
pub proof fn lemma_shape_follows_body(dirs: Seq<FacingDirection>, i: int)
    requires
        dirs.len() >= 2,
        0 <= i < dirs.len(),
        forall|j: int| 0 <= j < dirs.len() ==> #[trigger] dirs[j] != FacingDirection::Idle,
        0 < i < dirs.len() - 1 ==> dirs[i] != dirs[i + 1].spec_invers(),
    ensures
        ({
            let sh = spec_segment_shape(dirs, i);
            &&& placed((1, 0), sh.flip_x, sh.flip_y, sh.quarter_turns as int) == step_of(dirs[i])
            &&& sh.piece == SnakePiece::BodyStraight ==> placed(
                (-1, 0),
                sh.flip_x,
                sh.flip_y,
                sh.quarter_turns as int,
            ) == back(step_of(dirs[i + 1]))
            &&& sh.piece == SnakePiece::BodyCurve ==> placed(
                (0, -1),
                sh.flip_x,
                sh.flip_y,
                sh.quarter_turns as int,
            ) == back(step_of(dirs[i + 1]))
        }),
{
    assert(dirs[i] != FacingDirection::Idle);
    if 0 < i < dirs.len() - 1 {
        assert(dirs[i + 1] != FacingDirection::Idle);
        lemma_connection_joins_neighbours(dirs[i], dirs[i + 1]);
    }
}

/// A snake of two or more segments has its head first and its tail last,
/// and every segment between them is a body piece.
pub proof fn lemma_shape_ends(dirs: Seq<FacingDirection>)
    requires
        dirs.len() >= 2,
    ensures
        spec_segment_shape(dirs, 0).piece == SnakePiece::Head,
        spec_segment_shape(dirs, dirs.len() - 1).piece == SnakePiece::Tail,
        forall|i: int|
            0 < i < dirs.len() - 1 ==> (#[trigger] spec_segment_shape(dirs, i).piece
                == SnakePiece::BodyStraight || spec_segment_shape(dirs, i).piece
                == SnakePiece::BodyCurve),
{
}

} // verus!
