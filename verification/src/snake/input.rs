//! The player's controls: which keys steer the snake, and how a move is
//! applied.
use super::FacingDirection;
use vstd::prelude::*;

verus! {

/// What the player can ask for.
#[derive(Clone, Copy, Debug, PartialEq, Eq, Hash, Structural)]
pub enum PlayerAction {
    Reset,
    Move(FacingDirection),
}

/// The keys that the default controls use.
#[derive(Clone, Copy, Debug, PartialEq, Eq, Hash, Structural)]
pub enum Key {
    KeyW,
    KeyA,
    KeyS,
    KeyD,
    ArrowUp,
    ArrowDown,
    ArrowLeft,
    ArrowRight,
}

pub open spec fn spec_default_keybindings() -> Seq<(PlayerAction, Key)> {
    seq![
        (PlayerAction::Move(FacingDirection::Up), Key::KeyW),
        (PlayerAction::Move(FacingDirection::Down), Key::KeyS),
        (PlayerAction::Move(FacingDirection::Left), Key::KeyA),
        (PlayerAction::Move(FacingDirection::Right), Key::KeyD),
        (PlayerAction::Move(FacingDirection::Up), Key::ArrowUp),
        (PlayerAction::Move(FacingDirection::Down), Key::ArrowDown),
        (PlayerAction::Move(FacingDirection::Left), Key::ArrowLeft),
        (PlayerAction::Move(FacingDirection::Right), Key::ArrowRight),
    ]
}

impl PlayerAction {
    /// The default controls, in the order they are bound: WASD, then the
    /// arrow keys, each moving the snake that way.
    pub fn get_default_keybindings() -> (r: Vec<(PlayerAction, Key)>)
        ensures
            r@ == spec_default_keybindings(),
    {
        let r = vec![
            (PlayerAction::Move(FacingDirection::Up), Key::KeyW),
            (PlayerAction::Move(FacingDirection::Down), Key::KeyS),
            (PlayerAction::Move(FacingDirection::Left), Key::KeyA),
            (PlayerAction::Move(FacingDirection::Right), Key::KeyD),
            (PlayerAction::Move(FacingDirection::Up), Key::ArrowUp),
            (PlayerAction::Move(FacingDirection::Down), Key::ArrowDown),
            (PlayerAction::Move(FacingDirection::Left), Key::ArrowLeft),
            (PlayerAction::Move(FacingDirection::Right), Key::ArrowRight),
        ];
        assert(r@ =~= spec_default_keybindings());
        r
    }
}

/// The heading after one action: a move is taken unless it would turn the
/// snake straight back; anything else leaves the heading.
pub open spec fn steer_once(facing: FacingDirection, action: PlayerAction) -> FacingDirection {
    match action {
        PlayerAction::Move(d) => if d != facing.spec_invers() {
            d
        } else {
            facing
        },
        PlayerAction::Reset => facing,
    }
}

/// The heading after the actions, taken in order.
pub open spec fn steer_all(facing: FacingDirection, actions: Seq<PlayerAction>) -> FacingDirection
    decreases actions.len(),
{
    if actions.len() == 0 {
        facing
    } else {
        steer_all(steer_once(facing, actions[0]), actions.drop_first())
    }
}

/// Applies the actions just pressed to the player's heading, in order.
pub fn update_snake_direction(facing: &mut FacingDirection, actions: &Vec<PlayerAction>)
    ensures
        *final(facing) == steer_all(*old(facing), actions@),
{
    let mut i: usize = 0;
    assert(actions@.skip(0) =~= actions@);
    while i < actions.len()
        invariant
            i <= actions.len(),
            steer_all(*old(facing), actions@) == steer_all(*facing, actions@.skip(i as int)),
        decreases actions.len() - i,
    {
        assert(actions@.skip(i as int).drop_first() =~= actions@.skip(i + 1));
        match actions[i] {
            PlayerAction::Move(direction) => {
                if direction != facing.invers() {
                    *facing = direction;
                }
            },
            PlayerAction::Reset => {},
        }
        i = i + 1;
    }
}

/// A single action never turns a moving snake straight back.
pub proof fn lemma_steer_never_reverses(facing: FacingDirection, action: PlayerAction)
    ensures
        facing != FacingDirection::Idle ==> steer_once(facing, action) != facing.spec_invers(),
{
}

} // verus!
