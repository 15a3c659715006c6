use salvation::ground::{
    chunks_to_load, extend_placed_range, grow, growth_from_draws, tile_of, view_distance, TileRect,
};

fn rect(x: i32, y: i32, w: i32, h: i32) -> TileRect {
    TileRect { x, y, w, h }
}

#[test]
fn contains_excludes_far_edges() {
    let r = rect(0, 0, 4, 4);
    assert!(r.contains_point(0, 0));
    assert!(r.contains_point(3, 3));
    assert!(!r.contains_point(4, 3));
    assert!(!r.contains_point(-1, 0));
}

#[test]
fn merge_is_the_smallest_cover() {
    let a = rect(0, 0, 4, 4);
    let b = rect(2, -3, 5, 2);
    assert_eq!(a.merge(&b), rect(0, -3, 7, 7));
    assert_eq!(b.merge(&a), rect(0, -3, 7, 7));
    assert_eq!(a.merge(&a), a);
}

#[test]
fn merge_covers_both() {
    let a = rect(-5, 2, 3, 3);
    let b = rect(4, -1, 2, 8);
    let m = a.merge(&b);
    for x in -10..10 {
        for y in -10..10 {
            if a.contains_point(x, y) || b.contains_point(x, y) {
                assert!(m.contains_point(x, y));
            }
        }
    }
}

#[test]
fn tiles_round_toward_zero() {
    assert_eq!(tile_of(5, 2), 2);
    assert_eq!(tile_of(-5, 2), -2);
    assert_eq!(tile_of(-1, 16), 0);
    assert_eq!(tile_of(i32::MIN, 1), i32::MIN);
    assert_eq!(tile_of(i32::MIN, 2), -1073741824);
}

#[test]
fn view_is_half_a_chunk_less_one() {
    assert_eq!(view_distance(16), 7);
    assert_eq!(view_distance(1), -1);
}

#[test]
fn chunks_follow_the_view() {
    let world = rect(0, 0, 16, 16);
    assert_eq!(chunks_to_load(world, 8, 8, 7, 7), (None, None));
    assert_eq!(chunks_to_load(world, 10, 8, 7, 7), (Some((1, 0)), None));
    assert_eq!(chunks_to_load(world, 5, 8, 7, 7), (Some((-1, 0)), None));
    assert_eq!(chunks_to_load(world, 8, 12, 7, 7), (None, Some((0, 1))));
    assert_eq!(chunks_to_load(world, 10, 2, 7, 7), (Some((1, 0)), Some((0, -1))));
}

#[test]
fn placed_range_grows_to_take_new_ground() {
    let placed = rect(0, 0, 10, 10);
    assert_eq!(extend_placed_range(placed, rect(2, 2, 3, 3)), placed);
    assert_eq!(extend_placed_range(placed, rect(5, 5, 10, 10)), rect(0, 0, 15, 15));
    // The far corner of the ground lies on the range's far edge: it is outside.
    assert_eq!(extend_placed_range(placed, rect(0, 0, 10, 10)), placed.merge(&rect(0, 0, 10, 10)));
}

#[test]
fn nothing_grows_on_considered_tiles() {
    let placed = rect(0, 0, 10, 10);
    for _ in 0..500 {
        let g = grow(placed, 3, 4, true);
        assert!(!g.placed && !g.tree && !g.bush && !g.rock && !g.mushroom);
    }
}

#[test]
fn dirt_grows_rocks_grass_grows_plants() {
    let placed = rect(0, 0, 10, 10);
    let mut placed_some = false;
    for _ in 0..2000 {
        let dirt = grow(placed, 20, 20, false);
        assert_eq!(dirt.rock, dirt.placed);
        assert!(!dirt.tree && !dirt.bush && !dirt.mushroom);
        let grass = grow(placed, 20, 20, true);
        assert!(!grass.rock);
        if !grass.placed {
            assert!(!grass.tree && !grass.bush && !grass.mushroom);
        }
        placed_some = placed_some || dirt.placed || grass.placed;
    }
    // One tile in 25 is drawn: over 4000 draws some are.
    assert!(placed_some);
}

#[test]
fn growth_follows_the_draws() {
    let placed = rect(0, 0, 10, 10);
    // A draw that is no multiple of 25 leaves the tile bare.
    let g = growth_from_draws(placed, 20, 20, true, 26, 0, 1, 0);
    assert!(!g.placed && !g.tree && !g.bush && !g.rock && !g.mushroom);
    // A considered tile stays bare whatever is drawn.
    let g = growth_from_draws(placed, 3, 3, true, 50, 0, 1, 0);
    assert!(!g.placed);
    // Negative multiples of 25 count too; even, odd and even draws give all plants.
    let g = growth_from_draws(placed, 20, 20, true, -75, 4, 7, -2);
    assert!(g.placed && g.tree && g.bush && !g.rock && g.mushroom);
    // An odd tree draw, a negative odd bush draw and an odd mushroom draw give none.
    let g = growth_from_draws(placed, 20, 20, true, 0, 3, -7, 5);
    assert!(g.placed && !g.tree && !g.bush && !g.rock && !g.mushroom);
    // Dirt gets a rock only.
    let g = growth_from_draws(placed, 20, 20, false, 25, 4, 7, 2);
    assert!(g.placed && g.rock && !g.tree && !g.bush && !g.mushroom);
}
