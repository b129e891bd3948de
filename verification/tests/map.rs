use sneck::collectables::{spawn_food_cell, Collectable};
use sneck::map::mini_map::{
    calculate_mini_map_start, clear_mini_map, draw_object_on_mini_map, draw_snake_on_map,
    fill_in_mini_map, saturating_add, MiniMap, Rgba8,
};
use sneck::map::{GameMap, ObjectSize};
use sneck::math::{IVec2, UVec2};
use sneck::snake::SnakeSize;

const RED: Rgba8 = Rgba8 { r: 255, g: 0, b: 0, a: 255 };
const CLEAR: Rgba8 = Rgba8 { r: 0, g: 0, b: 0, a: 0 };

fn painted(m: &MiniMap, c: Rgba8) -> Vec<(u32, u32)> {
    let mut out = Vec::new();
    for y in 0..m.height() {
        for x in 0..m.width() {
            if m.get(x, y) == c {
                out.push((x, y));
            }
        }
    }
    out
}

#[test]
fn map_and_object_sizes() {
    let map = GameMap::default();
    assert_eq!(map.size(), IVec2::new(100, 100));
    assert_eq!(ObjectSize::default().0, UVec2::splat(1));
    assert_eq!(ObjectSize::new(UVec2::new(2, 3)).size(), (32, 48));
    assert_eq!(ObjectSize::new(UVec2::splat(u32::MAX)).size(), (u32::MAX as u64 * 16, u32::MAX as u64 * 16));
    assert_eq!(UVec2::new(7, u32::MAX).as_ivec2(), IVec2::new(7, -1));
}

#[test]
fn pixels_set_and_get() {
    let mut m = MiniMap::new(3, 2, CLEAR);
    assert_eq!(m.pixels().len(), 6);
    assert_eq!(m.set_color_at(2, 1, RED), Ok(()));
    assert_eq!(m.set_color_at(3, 0, RED), Err(()));
    assert_eq!(m.set_color_at(0, 2, RED), Err(()));
    assert_eq!(painted(&m, RED), vec![(2, 1)]);
    assert_eq!(m.pixels()[1 * 3 + 2], RED);
    clear_mini_map(&mut m);
    assert_eq!(painted(&m, Rgba8::black()).len(), 6);
}

#[test]
fn fill_covers_odd_and_even_extents() {
    let mut m = MiniMap::new(10, 10, CLEAR);
    fill_in_mini_map(&mut m, IVec2::new(4, 4), ObjectSize::new(UVec2::new(3, 2)), RED);
    // odd width centered, even height reaching one further down the rows
    assert_eq!(painted(&m, RED), vec![(3, 4), (4, 4), (5, 4), (3, 5), (4, 5), (5, 5)]);
    let mut m = MiniMap::new(10, 10, CLEAR);
    fill_in_mini_map(&mut m, IVec2::new(0, 9), ObjectSize::new(UVec2::splat(4)), RED);
    // clipped at the edges
    assert_eq!(painted(&m, RED), vec![(0, 8), (1, 8), (2, 8), (0, 9), (1, 9), (2, 9)]);
    let mut m = MiniMap::new(4, 4, CLEAR);
    fill_in_mini_map(&mut m, IVec2::new(i32::MIN, i32::MAX), ObjectSize::new(UVec2::splat(8)), RED);
    assert!(painted(&m, RED).is_empty());
    let mut m = MiniMap::new(4, 4, CLEAR);
    fill_in_mini_map(&mut m, IVec2::new(1, 1), ObjectSize::new(UVec2::splat(0)), RED);
    assert!(painted(&m, RED).is_empty());
}

#[test]
fn object_sizes_cover_that_many_pixels() {
    for w in 1..6u32 {
        for h in 1..6u32 {
            let mut m = MiniMap::new(20, 20, CLEAR);
            fill_in_mini_map(&mut m, IVec2::new(10, 10), ObjectSize::new(UVec2::new(w, h)), RED);
            assert_eq!(painted(&m, RED).len() as u32, w * h);
        }
    }
}

#[test]
fn saturating_add_holds_at_the_bounds() {
    assert_eq!(saturating_add(i32::MAX, 1), i32::MAX);
    assert_eq!(saturating_add(i32::MIN, -1), i32::MIN);
    assert_eq!(saturating_add(3, -5), -2);
}

#[test]
fn mini_map_start_of_cells() {
    let map = IVec2::new(100, 100);
    assert_eq!(calculate_mini_map_start(IVec2::new(0, 0), ObjectSize::new(UVec2::splat(1)), map), IVec2::new(50, 50));
    assert_eq!(calculate_mini_map_start(IVec2::new(3, 4), ObjectSize::new(UVec2::splat(2)), map), IVec2::new(53, 45));
    assert_eq!(calculate_mini_map_start(IVec2::new(-3, -4), ObjectSize::new(UVec2::splat(1)), IVec2::new(-5, 7)), IVec2::new(-5, 7));
}

#[test]
fn draw_objects_and_snakes() {
    let mut m = MiniMap::new(10, 10, CLEAR);
    draw_object_on_mini_map(&mut m, IVec2::new(0, 0), ObjectSize::new(UVec2::splat(1)), RED, IVec2::new(10, 10));
    assert_eq!(painted(&m, RED), vec![(5, 5)]);
    let mut m = MiniMap::new(10, 10, CLEAR);
    draw_snake_on_map(&mut m, &vec![IVec2::new(0, 0), IVec2::new(-1, 0)], SnakeSize::Small, RED, IVec2::new(10, 10));
    assert_eq!(painted(&m, RED), vec![(4, 5), (5, 5)]);
    let mut m = MiniMap::new(10, 10, CLEAR);
    draw_snake_on_map(&mut m, &vec![IVec2::new(0, 0)], SnakeSize::Medium, RED, IVec2::new(10, 10));
    assert_eq!(painted(&m, RED), vec![(5, 4), (6, 4), (5, 5), (6, 5)]);
}

#[test]
fn collectables_in_the_sheet() {
    assert_eq!(Collectable::Apple.pos(), UVec2::new(6, 17));
    assert_eq!(Collectable::Apple.index(), 6 + 17 * 14);
}

#[test]
fn food_lands_on_the_field() {
    let map = GameMap::default();
    let mut xs = std::collections::HashSet::new();
    let mut ys = std::collections::HashSet::new();
    for _ in 0..500 {
        let c = spawn_food_cell(&map);
        assert!(-50 <= c.x && c.x < 50);
        assert!(-50 <= c.y && c.y < 50);
        xs.insert(c.x);
        ys.insert(c.y);
    }
    // the draws spread over the field on both sides of its center
    assert!(xs.len() > 20 && ys.len() > 20);
    assert!(xs.iter().any(|x| *x < 0) && xs.iter().any(|x| *x > 0));
}
