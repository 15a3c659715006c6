//! The endless ground: which chunk of tiles to load as the player walks, and
//! where bushes, trees, rocks and mushrooms may grow.
use vstd::prelude::*;
use crate::random::random_i32;

verus! {

/// A rectangle of tiles: its top-left corner and its size.
#[derive(Debug, Clone, Copy, PartialEq, Eq, Structural)]
pub struct TileRect {
    pub x: i32,
    pub y: i32,
    pub w: i32,
    pub h: i32,
}

impl TileRect {
    /// The size is not negative and the far corner is an `i32` point.
    pub open spec fn wf(self) -> bool {
        &&& self.w >= 0 && self.h >= 0
        &&& self.x + self.w <= i32::MAX
        &&& self.y + self.h <= i32::MAX
    }

    /// Whether the tile `(px, py)` lies in the rectangle (its far edges excluded).
    pub open spec fn spec_contains(self, px: int, py: int) -> bool {
        px >= self.x && py >= self.y && px < self.x + self.w && py < self.y + self.h
    }

    pub fn contains_point(&self, px: i32, py: i32) -> (r: bool)
        requires
            self.wf(),
        ensures
            r == self.spec_contains(px as int, py as int),
    {
        px >= self.x && py >= self.y && px < self.x + self.w && py < self.y + self.h
    }

    /// The left and top edges of the smallest rectangle holding both.
    pub open spec fn merge_start(self, b: Self) -> (int, int) {
        (
            if self.x <= b.x { self.x as int } else { b.x as int },
            if self.y <= b.y { self.y as int } else { b.y as int },
        )
    }

    /// The right and bottom edges of the smallest rectangle holding both.
    pub open spec fn merge_end(self, b: Self) -> (int, int) {
        (
            if self.x + self.w >= b.x + b.w { self.x + self.w } else { b.x + b.w },
            if self.y + self.h >= b.y + b.h { self.y + self.h } else { b.y + b.h },
        )
    }

    /// The smallest rectangle holding both has an `i32` size.
    pub open spec fn merge_fits(self, b: Self) -> bool {
        &&& self.merge_end(b).0 - self.merge_start(b).0 <= i32::MAX
        &&& self.merge_end(b).1 - self.merge_start(b).1 <= i32::MAX
    }

    /// The smallest rectangle holding both.
    pub open spec fn spec_merge(self, b: Self) -> Self {
        let (x, y) = self.merge_start(b);
        let (ex, ey) = self.merge_end(b);
        TileRect { x: x as i32, y: y as i32, w: (ex - x) as i32, h: (ey - y) as i32 }
    }

    pub fn merge(&self, b: &Self) -> (r: Self)
        requires
            self.wf(),
            b.wf(),
            self.merge_fits(*b),
        ensures
            r == self.spec_merge(*b),
            r.wf(),
    {
        let x = if self.x <= b.x {
            self.x
        } else {
            b.x
        };
        let y = if self.y <= b.y {
            self.y
        } else {
            b.y
        };
        let ex = if self.x + self.w >= b.x + b.w {
            self.x + self.w
        } else {
            b.x + b.w
        };
        let ey = if self.y + self.h >= b.y + b.h {
            self.y + self.h
        } else {
            b.y + b.h
        };
        TileRect { x, y, w: ex - x, h: ey - y }
    }
}

/// `a / b` rounded toward zero, as Rust's `/` on `i32` computes it.
pub open spec fn trunc_div(a: int, b: int) -> int {
    if a >= 0 {
        a / b
    } else {
        -((-a) / b)
    }
}

/// The tile that holds the pixel coordinate `p`, with tiles of `tile_size` pixels.
pub fn tile_of(p: i32, tile_size: i32) -> (r: i32)
    requires
        tile_size > 0,
    ensures
        r == trunc_div(p as int, tile_size as int),
{
    if p >= 0 {
        ((p as u32) / (tile_size as u32)) as i32
    } else {
        let q: i64 = (-(p as i64)) / (tile_size as i64);
        (-q) as i32
    }
}

/// The chunks to load for a player standing on tile `(px, py)` of a loaded
/// ground `world`, who sees `view_x` by `view_y` tiles around: a step left
/// or right when the view passes the ground's side, and a step up or down
/// when it passes its top or bottom.
pub fn chunks_to_load(world: TileRect, px: i32, py: i32, view_x: i32, view_y: i32) -> (r: (
    Option<(i32, i32)>,
    Option<(i32, i32)>,
))
    requires
        world.wf(),
        world.x > i32::MIN && world.y > i32::MIN,
        px + view_x <= i32::MAX && py + view_y <= i32::MAX,
        px - view_x >= i32::MIN && py - view_y >= i32::MIN,
        0 <= view_x && 0 <= view_y,
    ensures
        r.0 == (if px + view_x > world.x + world.w {
            Some(((world.x + 1) as i32, world.y))
        } else if px - view_x < world.x {
            Some(((world.x - 1) as i32, world.y))
        } else {
            None::<(i32, i32)>
        }),
        r.1 == (if py + view_y > world.y + world.h {
            Some((world.x, (world.y + 1) as i32))
        } else if py - view_y < world.y {
            Some((world.x, (world.y - 1) as i32))
        } else {
            None::<(i32, i32)>
        }),
{
    let end_x = world.x + world.w;
    let end_y = world.y + world.h;
    let horizontal = if px + view_x > end_x {
        Some((world.x + 1, world.y))
    } else if px - view_x < world.x {
        Some((world.x - 1, world.y))
    } else {
        None
    };
    let vertical = if py + view_y > end_y {
        Some((world.x, world.y + 1))
    } else if py - view_y < world.y {
        Some((world.x, world.y - 1))
    } else {
        None
    };
    (horizontal, vertical)
}

/// How far a player sees around itself, in tiles, for a chunk of
/// `chunk_size` tiles: one less than half the chunk.
pub fn view_distance(chunk_size: i32) -> (r: i32)
    requires
        chunk_size >= 0,
    ensures
        r == chunk_size / 2 - 1,
{
    chunk_size / 2 - 1
}

/// What may grow on a tile.
#[derive(Debug, Clone, Copy, PartialEq, Eq, Structural)]
pub struct Growth {
    /// The tile was drawn for growth at all (one chance in 25).
    pub placed: bool,
    pub tree: bool,
    pub bush: bool,
    pub rock: bool,
    pub mushroom: bool,
}

/// Whether a random draw is a multiple of 25.
pub open spec fn one_in_25(r: i32) -> bool {
    (r as int) % 25 == 0
}

/// Whether a random draw, taken modulo 2 with Rust's `%`, is 1: it is odd
/// and positive.
pub open spec fn rem2_is_one(r: i32) -> bool {
    r > 0 && (r as int) % 2 == 1
}

/// Whether a random draw is even.
pub open spec fn even(r: i32) -> bool {
    (r as int) % 2 == 0
}

fn is_one_in_25(r: i32) -> (b: bool)
    ensures
        b == one_in_25(r),
{
    let a: u64 = if r >= 0 {
        r as u64
    } else {
        (-(r as i64)) as u64
    };
    proof {
        assert((r as int) % 25 == 0 <==> (a as int) % 25 == 0) by {
            if r < 0 {
                assert(a == -(r as int));
                vstd::arithmetic::div_mod::lemma_mod_multiples_vanish(1, r as int, 25);
                let q = (a as int) / 25;
                let m = (a as int) % 25;
                vstd::arithmetic::div_mod::lemma_fundamental_div_mod(a as int, 25);
                assert(r as int == -(25 * q) - m);
                vstd::arithmetic::div_mod::lemma_fundamental_div_mod(r as int, 25);
                if m == 0 {
                    assert(r as int == 25 * (-q));
                    vstd::arithmetic::div_mod::lemma_mod_multiples_basic(-q, 25);
                } else {
                    assert(r as int == 25 * (-q - 1) + (25 - m));
                    vstd::arithmetic::div_mod::lemma_mod_multiples_vanish(-q - 1, 25 - m, 25);
                    vstd::arithmetic::div_mod::lemma_small_mod((25 - m) as nat, 25);
                }
            }
        }
    }
    a % 25 == 0
}

fn is_even(r: i32) -> (b: bool)
    ensures
        b == even(r),
{
    let a: u32 = r as u32;
    assert((r as int) % 2 == (a as int) % 2) by (bit_vector)
        requires
            a == r as u32,
    ;
    a % 2 == 0
}

fn is_rem2_one(r: i32) -> (b: bool)
    ensures
        b == rem2_is_one(r),
{
    r > 0 && (r as u32) % 2 == 1
}

/// What grows on the tile `(tx, ty)`, grass or dirt (`grass`), given the
/// range `placed_range` of tiles already considered and the random draws
/// made for it: a tile outside that range is drawn for growth when `roll` is
/// a multiple of 25; a drawn dirt tile gets a rock, a drawn grass tile gets a
/// tree on an even `tree_roll`, a bush on an odd positive `bush_roll` and a
/// mushroom on an even `mushroom_roll`.
pub open spec fn spec_growth(
    placed_range: TileRect,
    tx: i32,
    ty: i32,
    grass: bool,
    roll: i32,
    tree_roll: i32,
    bush_roll: i32,
    mushroom_roll: i32,
) -> Growth {
    if one_in_25(roll) && !placed_range.spec_contains(tx as int, ty as int) {
        Growth {
            placed: true,
            tree: even(tree_roll) && grass,
            bush: rem2_is_one(bush_roll) && grass,
            rock: !grass,
            mushroom: even(mushroom_roll) && grass,
        }
    } else {
        Growth { placed: false, tree: false, bush: false, rock: false, mushroom: false }
    }
}

/// What grows on the tile `(tx, ty)` for the given random draws (see
/// [`spec_growth`]).
pub fn growth_from_draws(
    placed_range: TileRect,
    tx: i32,
    ty: i32,
    grass: bool,
    roll: i32,
    tree_roll: i32,
    bush_roll: i32,
    mushroom_roll: i32,
) -> (g: Growth)
    requires
        placed_range.wf(),
    ensures
        g == spec_growth(placed_range, tx, ty, grass, roll, tree_roll, bush_roll, mushroom_roll),
{
    if !(is_one_in_25(roll) && !placed_range.contains_point(tx, ty)) {
        return Growth { placed: false, tree: false, bush: false, rock: false, mushroom: false };
    }
    let tree = is_even(tree_roll) && grass;
    let bush = is_rem2_one(bush_roll) && grass;
    let rock = !grass;
    let mushroom = is_even(mushroom_roll) && grass;
    Growth { placed: true, tree, bush, rock, mushroom }
}

/// Decides by chance what may grow on the tile `(tx, ty)`, grass or dirt
/// (`grass`), given the range `placed_range` of tiles already considered: the
/// result is [`spec_growth`] for some draws. The first draw decides whether
/// the tile is drawn for growth at all; only a drawn tile takes the three
/// further draws.
pub fn grow(placed_range: TileRect, tx: i32, ty: i32, grass: bool) -> (g: Growth)
    requires
        placed_range.wf(),
    ensures
        exists|roll: i32, tree_roll: i32, bush_roll: i32, mushroom_roll: i32|
            g == spec_growth(placed_range, tx, ty, grass, roll, tree_roll, bush_roll, mushroom_roll),
        g.placed ==> !placed_range.spec_contains(tx as int, ty as int),
        !g.placed ==> !g.tree && !g.bush && !g.rock && !g.mushroom,
        g.rock == (g.placed && !grass),
        g.tree || g.bush || g.mushroom ==> g.placed && grass,
{
    let roll = random_i32();
    let mut tree_roll: i32 = 0;
    let mut bush_roll: i32 = 0;
    let mut mushroom_roll: i32 = 0;
    if is_one_in_25(roll) && !placed_range.contains_point(tx, ty) {
        tree_roll = random_i32();
        bush_roll = random_i32();
        mushroom_roll = random_i32();
    }
    growth_from_draws(placed_range, tx, ty, grass, roll, tree_roll, bush_roll, mushroom_roll)
}

/// The range of considered tiles after a chunk was loaded whose ground
/// covers `ground`: it grows to take the ground in when either corner of the
/// ground lies outside it.
pub fn extend_placed_range(placed_range: TileRect, ground: TileRect) -> (r: TileRect)
    requires
        placed_range.wf(),
        ground.wf(),
        placed_range.merge_fits(ground),
    ensures
        r == (if !placed_range.spec_contains(ground.x as int, ground.y as int)
            || !placed_range.spec_contains(ground.x + ground.w, ground.y + ground.h) {
            placed_range.spec_merge(ground)
        } else {
            placed_range
        }),
        r.wf(),
{
    if !placed_range.contains_point(ground.x, ground.y) || !placed_range.contains_point(
        ground.x + ground.w,
        ground.y + ground.h,
    ) {
        placed_range.merge(&ground)
    } else {
        placed_range
    }
}

/// The merge of two rectangles covers every tile of either.
pub proof fn law_merge_covers(a: TileRect, b: TileRect, px: int, py: int)
    requires
        a.wf(),
        b.wf(),
        a.merge_fits(b),
        a.spec_contains(px, py) || b.spec_contains(px, py),
    ensures
        a.spec_merge(b).spec_contains(px, py),
{
}

/// Extending the range of considered tiles keeps every tile it had.
pub proof fn law_extend_keeps_range(placed_range: TileRect, ground: TileRect, px: int, py: int)
    requires
        placed_range.wf(),
        ground.wf(),
        placed_range.merge_fits(ground),
        placed_range.spec_contains(px, py),
    ensures
        (if !placed_range.spec_contains(ground.x as int, ground.y as int)
            || !placed_range.spec_contains(ground.x + ground.w, ground.y + ground.h) {
            placed_range.spec_merge(ground)
        } else {
            placed_range
        }).spec_contains(px, py),
{
}

} // verus!
