//! Snakes that steer themselves along a planned path, and recording such a
//! path from the player's moves.
use super::FacingDirection;
use vstd::prelude::*;

verus! {

/// The headings a snake still has to take; the last one is taken first.
pub struct SnakePath(pub Vec<FacingDirection>);

impl SnakePath {
    pub fn new() -> (r: SnakePath)
        ensures
            r.0@ == Seq::<FacingDirection>::empty(),
    {
        SnakePath(Vec::new())
    }
}

/// Takes the next heading off `path` and turns `facing` to it; with no
/// heading left, nothing changes.
pub fn apply_path(facing: &mut FacingDirection, path: &mut SnakePath)
    ensures
        old(path).0@.len() == 0 ==> *final(facing) == *old(facing) && final(path).0@ == old(
            path,
        ).0@,
        old(path).0@.len() > 0 ==> *final(facing) == old(path).0@.last() && final(path).0@ == old(
            path,
        ).0@.drop_last(),
{
    match path.0.pop() {
        Some(next) => {
            *facing = next;
        },
        None => {},
    }
}

/// How a snake plans its path.
#[derive(Clone, Debug)]
pub enum PathFinding {
    /// Repeats the same headings over and over.
    FixedPath(Vec<FacingDirection>),
}

impl PathFinding {
    /// Tops up `current` when fewer than two headings are left in it: the
    /// fixed path is appended after what is there. It always succeeds.
    pub fn compute_path(&self, current: &mut SnakePath) -> (r: Result<(), ()>)
        ensures
            r is Ok,
            match self {
                PathFinding::FixedPath(path) => if old(current).0@.len() < 2 {
                    final(current).0@ == old(current).0@ + path@
                } else {
                    final(current).0@ == old(current).0@
                },
            },
    {
        match self {
            PathFinding::FixedPath(path) => {
                if current.0.len() < 2 {
                    let ghost start = current.0@;
                    let mut i: usize = 0;
                    while i < path.len()
                        invariant
                            i <= path.len(),
                            current.0@ == start + path@.take(i as int),
                        decreases path.len() - i,
                    {
                        current.0.push(path[i]);
                        i = i + 1;
                        assert(current.0@ =~= start + path@.take(i as int));
                    }
                    assert(path@.take(path.len() as int) =~= path@);
                }
            },
        }
        Ok(())
    }
}

/// A path being recorded from the player's moves, and where it started.
pub struct PathRecording<P> {
    pub path: Vec<FacingDirection>,
    pub start: P,
}

/// What one step of recording did.
pub enum RecordStep<P> {
    /// Nothing was being recorded, or a recording could not be started.
    Idle,
    /// A new recording was started.
    Started,
    /// The recording was thrown away.
    Discarded,
    /// The player's heading was added to the recording.
    Extended,
    /// The recording ended; a snake of `length` segments is to be spawned
    /// at its start to follow its path.
    Finish { recording: PathRecording<P>, length: u8 },
}

/// The first digit among the pressed keys, in the order given; keys that
/// are not digits are `None`.
pub open spec fn first_digit(pressed: Seq<Option<u8>>) -> Option<u8>
    decreases pressed.len(),
{
    if pressed.len() == 0 {
        None
    } else {
        match pressed[0] {
            Some(d) => Some(d),
            None => first_digit(pressed.drop_first()),
        }
    }
}

fn find_first_digit(pressed: &Vec<Option<u8>>) -> (r: Option<u8>)
    ensures
        r == first_digit(pressed@),
{
    let mut i: usize = 0;
    assert(pressed@.skip(0) =~= pressed@);
    while i < pressed.len()
        invariant
            i <= pressed.len(),
            first_digit(pressed@) == first_digit(pressed@.skip(i as int)),
        decreases pressed.len() - i,
    {
        assert(pressed@.skip(i as int).drop_first() =~= pressed@.skip(i + 1));
        match pressed[i] {
            Some(d) => {
                return Some(d);
            },
            None => {},
        }
        i = i + 1;
    }
    None
}

/// One step of recording a path for a new snake.
///
/// When `start_pressed`, a new recording begins with the player's heading
/// `facing`, started at the player's head `head` (without a head, nothing
/// happens). Otherwise, while recording: the first pressed digit decides;
/// `0` throws the recording away, another digit ends it and asks for a
/// snake of that many segments, and no digit adds `facing` to the path.
pub fn record_path<P>(
    recording: &mut Option<PathRecording<P>>,
    start_pressed: bool,
    head: Option<P>,
    facing: FacingDirection,
    pressed: &Vec<Option<u8>>,
) -> (r: RecordStep<P>)
    ensures
        start_pressed && head is Some ==> {
            &&& r is Started
            &&& *final(recording) matches Some(rec)
            &&& rec.path@ == seq![facing]
            &&& Some(rec.start) == head
        },
        start_pressed && head is None ==> r is Idle && *final(recording) == *old(recording),
        !start_pressed && *old(recording) is None ==> r is Idle && *final(recording) is None,
        !start_pressed && *old(recording) is Some ==> match first_digit(pressed@) {
            Some(0) => r is Discarded && *final(recording) is None,
            Some(d) => {
                &&& *final(recording) is None
                &&& r matches RecordStep::Finish { recording: rec, length }
                &&& length == d
                &&& Some(rec) == *old(recording)
            },
            None => {
                &&& r is Extended
                &&& *final(recording) matches Some(rec)
                &&& *old(recording) matches Some(o)
                &&& rec.path@ == o.path@.push(facing)
                &&& rec.start == o.start
            },
        },
{
    if start_pressed {
        match head {
            Some(start) => {
                *recording = Some(PathRecording { path: vec![facing], start });
                return RecordStep::Started;
            },
            None => {
                return RecordStep::Idle;
            },
        }
    }
    if recording.is_none() {
        return RecordStep::Idle;
    }
    match find_first_digit(pressed) {
        Some(0) => {
            *recording = None;
            RecordStep::Discarded
        },
        Some(d) => match recording.take() {
            Some(rec) => RecordStep::Finish { recording: rec, length: d },
            None => RecordStep::Idle,
        },
        None => {
            match recording {
                Some(rec) => {
                    rec.path.push(facing);
                },
                None => {},
            }
            RecordStep::Extended
        },
    }
}

} // verus!
