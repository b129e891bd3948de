//! One step of a snake's movement along the grid.
use super::FacingDirection;
use vstd::prelude::*;

verus! {

/// The segments after one step: the head keeps its place and turns to
/// `heading`; every other segment takes the place and heading that the
/// segment ahead of it had, the head counting with its new heading.
pub open spec fn spec_move_snake<P>(
    old: Seq<(P, FacingDirection)>,
    heading: FacingDirection,
) -> Seq<(P, FacingDirection)> {
    Seq::new(
        old.len(),
        |i: int|
            if i == 0 {
                (old[0].0, heading)
            } else if i == 1 {
                (old[0].0, heading)
            } else {
                old[i - 1]
            },
    )
}

/// Moves the segments (head first) of a snake one step behind its head,
/// which turns to `heading`; each segment is its position and heading.
/// Advancing the head itself is left to the caller.
pub fn move_snake<P: Copy>(segments: &mut Vec<(P, FacingDirection)>, heading: FacingDirection)
    requires
        old(segments).len() > 0,
    ensures
        final(segments)@ == spec_move_snake(old(segments)@, heading),
        old(segments).len() >= 2 ==> final(segments)@.subrange(2, old(segments).len() as int)
            == old(segments)@.subrange(1, old(segments).len() - 1),
{
    let ghost old_segments = segments@;
    let n = segments.len();
    let head_pos = segments[0].0;
    segments.set(0, (head_pos, heading));
    let mut i = n;
    while i > 1
        invariant
            n == segments.len(),
            n == old_segments.len(),
            1 <= i <= n,
            segments@[0] == (old_segments[0].0, heading),
            forall|j: int| 1 <= j < i ==> segments@[j] == old_segments[j],
            forall|j: int|
                i <= j < n ==> segments@[j] == #[trigger] spec_move_snake(old_segments, heading)[j],
        decreases i,
    {
        let ahead = segments[i - 2];
        segments.set(i - 1, ahead);
        i = i - 1;
    }
    assert(segments@ =~= spec_move_snake(old_segments, heading));
    proof {
        if n >= 2 {
            lemma_move_shifts_body(old_segments, heading);
        }
    }
}

/// A step keeps the snake's length, and every segment behind the first two
/// ends where the one ahead of it was.
pub proof fn lemma_move_keeps_length<P>(old: Seq<(P, FacingDirection)>, heading: FacingDirection)
    requires
        old.len() > 0,
    ensures
        spec_move_snake(old, heading).len() == old.len(),
        spec_move_snake(old, heading)[0] == (old[0].0, heading),
        forall|i: int|
            1 <= i < old.len() ==> (#[trigger] spec_move_snake(old, heading)[i]).0 == old[i - 1].0,
{
}

/// A step shifts the snake along itself: the first two segments both hold
/// the head's place with the new heading, and from the third segment on the
/// snake is the old one moved back by one place, each segment with the
/// whole state (place and heading) of the segment that was ahead of it; the
/// old tail's state is dropped.
pub proof fn lemma_move_shifts_body<P>(old: Seq<(P, FacingDirection)>, heading: FacingDirection)
    requires
        old.len() >= 2,
    ensures
        spec_move_snake(old, heading).len() == old.len(),
        spec_move_snake(old, heading)[0] == (old[0].0, heading),
        spec_move_snake(old, heading)[1] == spec_move_snake(old, heading)[0],
        spec_move_snake(old, heading).subrange(2, old.len() as int) == old.subrange(
            1,
            old.len() - 1,
        ),
        forall|i: int|
            2 <= i < old.len() ==> (#[trigger] spec_move_snake(old, heading)[i]).1 == old[i - 1].1,
{
    assert(spec_move_snake(old, heading).subrange(2, old.len() as int) =~= old.subrange(
        1,
        old.len() - 1,
    ));
}

} // verus!
