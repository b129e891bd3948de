use sneck::math::IVec2;
use sneck::snake::events::{add_segment, spawn_snake, NewSegment, SnakeBrain, SpawnSegment, SpawnSnake};
use sneck::snake::input::{update_snake_direction, Key, PlayerAction};
use sneck::snake::movement::move_snake;
use sneck::snake::pathing::{apply_path, record_path, PathFinding, RecordStep, SnakePath};
use sneck::snake::rendering::{snake_shape, sprite_file, Connection, SegmentShape, SnakePieceIndices};
use sneck::snake::{FacingDirection, Snake, SnakeId, SnakePiece, SnakeSize};

use FacingDirection::{Down, Idle, Left, Right, Up};
use SnakeSize::{Colossal, Large, Medium, Small};

#[test]
fn invers_turns_around() {
    assert_eq!(Right.invers(), Left);
    assert_eq!(Left.invers(), Right);
    assert_eq!(Up.invers(), Down);
    assert_eq!(Down.invers(), Up);
    assert_eq!(Idle.invers(), Idle);
    for d in [Right, Down, Left, Up, Idle] {
        assert_eq!(d.invers().invers(), d);
        let v = d.to_vec();
        let w = d.invers().to_vec();
        assert_eq!((v.x, v.y), (-w.x, -w.y));
    }
}

#[test]
fn headings_step_and_turn() {
    assert_eq!(Right.to_vec(), IVec2::new(1, 0));
    assert_eq!(Down.to_vec(), IVec2::new(0, -1));
    assert_eq!(Left.to_vec(), IVec2::new(-1, 0));
    assert_eq!(Up.to_vec(), IVec2::new(0, 1));
    assert_eq!(Idle.to_vec(), IVec2::new(0, 0));
    assert_eq!(Right.quarter_turns(), 0);
    assert_eq!(Down.quarter_turns(), -1);
    assert_eq!(Left.quarter_turns(), 2);
    assert_eq!(Up.quarter_turns(), 1);
    assert_eq!(Idle.quarter_turns(), 0);
    assert_eq!(FacingDirection::default(), Idle);
}

#[test]
fn skins_cycle_in_order() {
    let all = SnakeId::all();
    assert_eq!(all.len(), 7);
    assert_eq!(all[0], SnakeId::default());
    for i in 0..7 {
        assert_eq!(all[i].next(), all[(i + 1) % 7]);
    }
    assert_eq!(SnakeId::EyeballYellowA.next(), SnakeId::SpottedWhite);
    for id in all {
        let mut x = id;
        for _ in 0..7 {
            x = x.next();
        }
        assert_eq!(x, id);
    }
}

#[test]
fn skin_names_and_paths() {
    assert_eq!(SnakeId::GearPreWindowA.name(), "GearPreWindowA");
    assert_eq!(SnakeId::ArrowBlue.asset_path(), "snakes/ArrowBlue.snake");
    for id in SnakeId::all() {
        assert_eq!(format!("{:?}", id), id.name());
    }
}

#[test]
fn sizes_step_up_and_down() {

    assert_eq!(Small.up(), Medium);
    assert_eq!(Medium.up(), Large);
    assert_eq!(Large.up(), Colossal);
    assert_eq!(Colossal.up(), Colossal);
    assert_eq!(Small.down(), Small);
    assert_eq!(Medium.down(), Small);
    assert_eq!(Large.down(), Medium);
    assert_eq!(Colossal.down(), Large);
    assert_eq!([Small, Medium, Large, Colossal].map(|s| s.stride()), [1, 2, 4, 8]);
    let mut s = Small;
    s.inc();
    s.inc();
    assert_eq!(s, Large);
    s.dec();
    assert_eq!(s, Medium);
    for s in [Small, Medium, Large] {
        assert_eq!(s.up().down(), s);
        assert_eq!(s.up().stride(), 2 * s.stride());
    }
    assert_eq!(SnakeSize::default(), Small);
}

#[test]
fn new_snake_starts_at_frame_zero() {
    let s = Snake::new("handle");
    assert_eq!(s.frame, 0);
    assert_eq!(s.snake_type, "handle");
}

#[test]
fn piece_indices_and_sprite_files() {
    let i = SnakeId::SpottedWhite.segment_indices();
    assert_eq!(i, SnakePieceIndices { head: 2, body_straight: 1, body_curve: 0, tail: 15 });
    let i = SnakeId::EyeballYellowA.segment_indices();
    assert_eq!((i.head, i.body_straight, i.body_curve, i.tail), (378, 376, 382, 380));
    assert_eq!(sprite_file(2), "BattleSnake/snakes/32x32px_split/snake002.png");
    assert_eq!(sprite_file(15), "BattleSnake/snakes/32x32px_split/snake015.png");
    assert_eq!(sprite_file(382), "BattleSnake/snakes/32x32px_split/snake382.png");
    assert_eq!(sprite_file(12345), "BattleSnake/snakes/32x32px_split/snake12345.png");
    for n in [0usize, 7, 99, 100, 999, 1000, 65536] {
        assert_eq!(sprite_file(n), format!("BattleSnake/snakes/32x32px_split/snake{:03}.png", n));
    }
    let h = SnakeId::ArrowBlue.texture_paths();
    assert_eq!(h.head, sprite_file(226));
    assert_eq!(h.tail, sprite_file(239));
    assert_eq!(*h.get(&SnakePiece::BodyCurve), sprite_file(224));
    assert_eq!(*h.get(&SnakePiece::BodyStraight), sprite_file(225));
}

#[test]
fn connections_curve_at_corners() {
    let c = Connection::new(Up, Right);
    assert_eq!((c.flip_x, c.flip_y, c.straight, c.quarter_turns), (true, false, false, -1));
    let c = Connection::new(Left, Left);
    assert_eq!((c.flip_x, c.flip_y, c.straight, c.quarter_turns), (true, true, true, 0));
    let c = Connection::new(Down, Right);
    assert_eq!((c.flip_x, c.flip_y, c.straight, c.quarter_turns), (false, false, false, -1));
    let c = Connection::new(Right, Left);
    assert_eq!((c.flip_x, c.flip_y, c.straight, c.quarter_turns), (false, false, true, 0));
    for a in [Right, Down, Left, Up, Idle] {
        for b in [Right, Down, Left, Up, Idle] {
            let perpendicular = a != Idle && b != Idle && a != b && a != b.invers();
            assert_eq!(!Connection::new(a, b).straight, perpendicular);
        }
    }
}

#[test]
fn shapes_of_a_snake() {
    let dirs = vec![Up, Up, Right, Right];
    let s = snake_shape(&dirs);
    assert_eq!(s.len(), 4);
    assert_eq!(s[0], SegmentShape { piece: SnakePiece::Head, quarter_turns: 1, flip_x: false, flip_y: false });
    assert_eq!(s[1], SegmentShape { piece: SnakePiece::BodyCurve, quarter_turns: -1, flip_x: true, flip_y: false });
    assert_eq!(s[2], SegmentShape { piece: SnakePiece::BodyStraight, quarter_turns: 0, flip_x: false, flip_y: false });
    assert_eq!(s[3], SegmentShape { piece: SnakePiece::Tail, quarter_turns: 0, flip_x: false, flip_y: false });
    let one = snake_shape(&vec![Left]);
    assert_eq!(one, vec![SegmentShape { piece: SnakePiece::Head, quarter_turns: 2, flip_x: false, flip_y: false }]);
    assert!(snake_shape(&vec![]).is_empty());
    let two = snake_shape(&vec![Down, Up]);
    assert_eq!(two[0].piece, SnakePiece::Head);
    assert_eq!(two[1].piece, SnakePiece::Tail);
    assert_eq!(two[1].quarter_turns, 1);
}

#[test]
fn body_follows_the_head() {
    let mut segs = vec![((0, 0), Right), ((-1, 0), Right), ((-2, 0), Up), ((-2, -1), Up)];
    move_snake(&mut segs, Down);
    assert_eq!(segs, vec![((0, 0), Down), ((0, 0), Down), ((-1, 0), Right), ((-2, 0), Up)]);
    let mut one = vec![((5, 5), Idle)];
    move_snake(&mut one, Left);
    assert_eq!(one, vec![((5, 5), Left)]);
}

#[test]
fn path_is_taken_from_the_back() {
    let mut facing = Idle;
    let mut path = SnakePath(vec![Up, Left]);
    apply_path(&mut facing, &mut path);
    assert_eq!(facing, Left);
    assert_eq!(path.0, vec![Up]);
    apply_path(&mut facing, &mut path);
    assert_eq!(facing, Up);
    apply_path(&mut facing, &mut path);
    assert_eq!(facing, Up);
    assert!(path.0.is_empty());
}

#[test]
fn fixed_path_tops_up_short_paths() {
    let brain = PathFinding::FixedPath(vec![Up, Left, Down, Right]);
    let mut current = SnakePath::new();
    assert_eq!(brain.compute_path(&mut current), Ok(()));
    assert_eq!(current.0, vec![Up, Left, Down, Right]);
    assert_eq!(brain.compute_path(&mut current), Ok(()));
    assert_eq!(current.0.len(), 4);
    current.0.truncate(1);
    assert_eq!(brain.compute_path(&mut current), Ok(()));
    assert_eq!(current.0, vec![Up, Up, Left, Down, Right]);
}

#[test]
fn recording_a_path() {
    let mut rec = None;
    assert!(matches!(record_path(&mut rec, false, Some(1), Up, &vec![]), RecordStep::Idle));
    assert!(rec.is_none());
    assert!(matches!(record_path(&mut rec, true, None, Up, &vec![]), RecordStep::Idle));
    assert!(rec.is_none());
    assert!(matches!(record_path(&mut rec, true, Some(7), Up, &vec![]), RecordStep::Started));
    assert!(matches!(record_path(&mut rec, false, None, Left, &vec![None]), RecordStep::Extended));
    assert_eq!(rec.as_ref().unwrap().path, vec![Up, Left]);
    match record_path(&mut rec, false, None, Down, &vec![None, Some(3), Some(0)]) {
        RecordStep::Finish { recording, length } => {
            assert_eq!(length, 3);
            assert_eq!(recording.path, vec![Up, Left]);
            assert_eq!(recording.start, 7);
        }
        _ => panic!("expected the recording to end"),
    }
    assert!(rec.is_none());
    record_path(&mut rec, true, Some(1), Right, &vec![]);
    assert!(matches!(record_path(&mut rec, false, None, Down, &vec![Some(0), Some(4)]), RecordStep::Discarded));
    assert!(rec.is_none());
}

#[test]
fn steering_never_turns_straight_back() {
    let mut f = Right;
    update_snake_direction(&mut f, &vec![PlayerAction::Move(Left)]);
    assert_eq!(f, Right);
    update_snake_direction(&mut f, &vec![PlayerAction::Move(Up), PlayerAction::Reset]);
    assert_eq!(f, Up);
    update_snake_direction(&mut f, &vec![PlayerAction::Move(Right), PlayerAction::Move(Down)]);
    assert_eq!(f, Down);
    let mut idle = Idle;
    update_snake_direction(&mut idle, &vec![PlayerAction::Move(Left)]);
    assert_eq!(idle, Left);
}

#[test]
fn default_keys() {
    let keys = PlayerAction::get_default_keybindings();
    assert_eq!(keys.len(), 8);
    assert_eq!(keys[0], (PlayerAction::Move(Up), Key::KeyW));
    assert_eq!(keys[3], (PlayerAction::Move(Right), Key::KeyD));
    assert_eq!(keys[6], (PlayerAction::Move(Left), Key::ArrowLeft));
}

#[test]
fn spawn_requests() {
    let s = SpawnSnake::new_player(SnakeId::GearRickA, 0, SnakeSize::Large);
    assert_eq!(s.length(), 2);
    assert_eq!(s.skin(), SnakeId::GearRickA);
    assert_eq!(s.size(), SnakeSize::Large);
    assert_eq!(s.heading(), Right);
    assert!(matches!(s.brain(), SnakeBrain::Player));
    let s = SpawnSnake::new(
        SnakeId::ArrowBlue,
        SnakeBrain::PathFinding(PathFinding::FixedPath(vec![Up])),
        5,
        SnakeSize::Small,
    )
    .facing(Down);
    assert_eq!(s.length(), 5);
    assert_eq!(s.heading(), Down);
    assert!(matches!(s.brain(), SnakeBrain::PathFinding(PathFinding::FixedPath(p)) if p == &vec![Up]));
    assert_eq!(SpawnSnake::new_player(SnakeId::ArrowBlue, 255, SnakeSize::Small).length(), 255);
    assert_eq!(SpawnSnake::new_player(SnakeId::ArrowBlue, 1, SnakeSize::Small).length(), 2);
}

#[test]
fn segments_requested_for_a_new_snake() {
    use_segments();
}

fn use_segments() {
    let s = SpawnSnake::new_player(SnakeId::ArrowBlue, 5, Small);
    let plan = spawn_snake(&s, 42u32);
    assert_eq!(plan.segments.len(), 5);
    assert!(plan.segments.iter().all(|r| r.snake == 42));
    assert_eq!(plan.snake.snake_type, "snakes/ArrowBlue.snake");
    assert_eq!(plan.snake.frame, 0);
    assert_eq!(plan.skin, SnakeId::ArrowBlue);
    assert_eq!(plan.size, Small);
    assert_eq!(plan.facing, Right);
    assert!(matches!(plan.brain, SnakeBrain::Player));
    let ai = SpawnSnake::new(
        SnakeId::GearRickA,
        SnakeBrain::PathFinding(PathFinding::FixedPath(vec![Up, Left, Down])),
        3,
        Large,
    )
    .facing(Up);
    let plan = spawn_snake(&ai, 7u8);
    assert_eq!(plan.snake.snake_type, "snakes/GearRickA.snake");
    assert_eq!((plan.skin, plan.size, plan.facing), (SnakeId::GearRickA, Large, Up));
    assert!(matches!(&plan.brain, SnakeBrain::PathFinding(PathFinding::FixedPath(p)) if p == &vec![Up, Left, Down]));
    assert_eq!(plan.segments, vec![SpawnSegment { snake: 7u8 }; 3]);
    let seg = add_segment(&SpawnSegment { snake: 9u64 });
    assert_eq!(seg, NewSegment { parent: 9, facing: Idle });
    assert_eq!(spawn_snake(&SpawnSnake::new_player(SnakeId::ArrowBlue, 0, Small), 1u8).segments.len(), 2);
}
