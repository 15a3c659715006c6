//! The world around a game: pausing, the game-over screen, and how a game
//! continues after the player has turned.
use vstd::prelude::*;
use crate::PlayerState;
use crate::level::RustLevel;
use crate::player::RustPlayer;
use std::collections::HashSet;

verus! {

/// The key of a tile in the set of generated tiles: its two coordinates,
/// each shifted to be non-negative, side by side in one `u64`.
pub open spec fn tile_key(x: i32, y: i32) -> u64 {
    ((x + 0x8000_0000) * 0x1_0000_0000 + (y + 0x8000_0000)) as u64
}

fn tile_key_of(x: i32, y: i32) -> (k: u64)
    ensures
        k == tile_key(x, y),
{
    let a: u64 = (x as i64 + 0x8000_0000) as u64;
    let b: u64 = (y as i64 + 0x8000_0000) as u64;
    assert(a * 0x1_0000_0000 + b <= u64::MAX) by (nonlinear_arith)
        requires
            a < 0x1_0000_0000,
            b < 0x1_0000_0000,
    ;
    a * 0x1_0000_0000 + b
}

/// Two tiles have the same key only if they are the same tile.
proof fn lemma_tile_key_injective(x1: i32, y1: i32, x2: i32, y2: i32)
    requires
        tile_key(x1, y1) == tile_key(x2, y2),
    ensures
        x1 == x2 && y1 == y2,
{
    let a1 = x1 + 0x8000_0000;
    let a2 = x2 + 0x8000_0000;
    let b1 = y1 + 0x8000_0000;
    let b2 = y2 + 0x8000_0000;
    assert(a1 * 0x1_0000_0000 + b1 <= u64::MAX) by (nonlinear_arith)
        requires
            0 <= a1 < 0x1_0000_0000,
            0 <= b1 < 0x1_0000_0000,
    ;
    assert(a2 * 0x1_0000_0000 + b2 <= u64::MAX) by (nonlinear_arith)
        requires
            0 <= a2 < 0x1_0000_0000,
            0 <= b2 < 0x1_0000_0000,
    ;
    assert(a1 == a2 && b1 == b2) by (nonlinear_arith)
        requires
            0 <= b1 < 0x1_0000_0000,
            0 <= b2 < 0x1_0000_0000,
            a1 * 0x1_0000_0000 + b1 == a2 * 0x1_0000_0000 + b2,
    ;
}

/// Whether the tile `(x, y)` lies in the square of half side `half` around
/// `(px, py)` (its far edges excluded).
pub open spec fn in_square(px: int, py: int, half: int, x: int, y: int) -> bool {
    px - half <= x < px + half && py - half <= y < py + half
}

/// Whether the tile `(a, b)` comes before `(x, y)`, column by column.
pub open spec fn tile_before(a: int, b: int, x: int, y: int) -> bool {
    a < x || (a == x && b < y)
}

/// What the game-over screen says.
#[derive(Debug, Clone, Copy, PartialEq, Eq, Structural)]
pub enum WorldMessage {
    /// The player paused the game.
    Paused,
    /// The player has turned into a zombie.
    Turned,
}

/// The world: whether the game is paused and whether the game-over screen
/// is up.
pub struct RustWorld {
    /// Whether the world starts in hell mode.
    pub hell: bool,
    /// Whether the world starts from the saved game.
    pub load: bool,
    pub paused: bool,
    /// The game-over screen, when it is up, with its message.
    pub screen: Option<WorldMessage>,
    /// The keys (see [`tile_key`]) of the tiles generated so far.
    pub generated: HashSet<u64>,
}

/// `tiles` are the tiles that generating the square of half side `half`
/// around `(px, py)` brings in `before`, leaving `after`: the square's tiles
/// not generated yet, each once, column by column; they are then generated,
/// and nothing else of the world changes.
pub open spec fn generated_square(
    before: RustWorld,
    after: RustWorld,
    px: int,
    py: int,
    half: int,
    tiles: Seq<(i32, i32)>,
) -> bool {
    &&& forall|i: int|
        0 <= i < tiles.len() ==> in_square(
            px,
            py,
            half,
            (#[trigger] tiles[i]).0 as int,
            tiles[i].1 as int,
        ) && !before.is_generated(tiles[i].0, tiles[i].1)
    &&& forall|x: i32, y: i32|
        in_square(px, py, half, x as int, y as int) && !before.is_generated(x, y)
            ==> #[trigger] tiles.contains((x, y))
    &&& forall|i: int, j: int|
        0 <= i < j < tiles.len() ==> tile_before(
            (#[trigger] tiles[i]).0 as int,
            tiles[i].1 as int,
            (#[trigger] tiles[j]).0 as int,
            tiles[j].1 as int,
        )
    &&& forall|x: i32, y: i32|
        #[trigger] after.is_generated(x, y) <==> before.is_generated(x, y) || in_square(
            px,
            py,
            half,
            x as int,
            y as int,
        )
    &&& after.hell == before.hell && after.load == before.load
    &&& after.paused == before.paused && after.screen == before.screen
}

impl RustWorld {
    /// Whether the tile `(x, y)` has been generated.
    pub open spec fn is_generated(self, x: i32, y: i32) -> bool {
        self.generated@.contains(tile_key(x, y))
    }

    pub fn new(hell: bool, load: bool) -> (w: Self)
        ensures
            w.hell == hell && w.load == load,
            !w.paused,
            w.screen.is_none(),
            w.generated@ == Set::<u64>::empty(),
    {
        RustWorld { hell, load, paused: false, screen: None, generated: HashSet::new() }
    }

    /// The tiles of the square of half side `square_half_length` around the
    /// player's tile `(px, py)` that were not generated yet, column by
    /// column; they are marked as generated (the engine then picks each
    /// one's terrain from its noise).
    pub fn generate_world(&mut self, px: i32, py: i32, square_half_length: i32) -> (tiles: Vec<
        (i32, i32),
    >)
        requires
            i32::MIN <= px - square_half_length <= i32::MAX,
            i32::MIN <= px + square_half_length <= i32::MAX,
            i32::MIN <= py - square_half_length <= i32::MAX,
            i32::MIN <= py + square_half_length <= i32::MAX,
        ensures
            generated_square(
                *old(self),
                *final(self),
                px as int,
                py as int,
                square_half_length as int,
                tiles@,
            ),
    {
        if square_half_length < 0 {
            // A negative half side gives an empty square.
            return Vec::new();
        }
        let ghost start = self.generated@;
        let ghost h = square_half_length as int;
        let lo_x = px - square_half_length;
        let hi_x = px + square_half_length;
        let lo_y = py - square_half_length;
        let hi_y = py + square_half_length;
        let mut tiles: Vec<(i32, i32)> = Vec::new();
        let mut x = lo_x;
        while x < hi_x
            invariant
                lo_x == px - h && hi_x == px + h && lo_y == py - h && hi_y == py + h,
                h >= 0,
                lo_x <= x <= hi_x,
                self.hell == old(self).hell && self.load == old(self).load,
                self.paused == old(self).paused && self.screen == old(self).screen,
                start == old(self).generated@,
                forall|i: int|
                    0 <= i < tiles@.len() ==> in_square(
                        px as int,
                        py as int,
                        h,
                        (#[trigger] tiles@[i]).0 as int,
                        tiles@[i].1 as int,
                    ) && !start.contains(tile_key(tiles@[i].0, tiles@[i].1)) && tile_before(
                        tiles@[i].0 as int,
                        tiles@[i].1 as int,
                        x as int,
                        lo_y as int,
                    ),
                forall|a: i32, b: i32|
                    in_square(px as int, py as int, h, a as int, b as int) && tile_before(
                        a as int,
                        b as int,
                        x as int,
                        lo_y as int,
                    ) && !start.contains(tile_key(a, b)) ==> #[trigger] tiles@.contains((a, b)),
                forall|i: int, j: int|
                    0 <= i < j < tiles@.len() ==> tile_before(
                        (#[trigger] tiles@[i]).0 as int,
                        tiles@[i].1 as int,
                        (#[trigger] tiles@[j]).0 as int,
                        tiles@[j].1 as int,
                    ),
                forall|a: i32, b: i32|
                    #[trigger] self.generated@.contains(tile_key(a, b)) <==> start.contains(
                        tile_key(a, b),
                    ) || (in_square(px as int, py as int, h, a as int, b as int) && tile_before(
                        a as int,
                        b as int,
                        x as int,
                        lo_y as int,
                    )),
            decreases hi_x - x,
        {
            let mut y = lo_y;
            while y < hi_y
                invariant
                    lo_x == px - h && hi_x == px + h && lo_y == py - h && hi_y == py + h,
                    h >= 0,
                    lo_x <= x < hi_x,
                    lo_y <= y <= hi_y,
                    self.hell == old(self).hell && self.load == old(self).load,
                    self.paused == old(self).paused && self.screen == old(self).screen,
                    start == old(self).generated@,
                    forall|i: int|
                        0 <= i < tiles@.len() ==> in_square(
                            px as int,
                            py as int,
                            h,
                            (#[trigger] tiles@[i]).0 as int,
                            tiles@[i].1 as int,
                        ) && !start.contains(tile_key(tiles@[i].0, tiles@[i].1)) && tile_before(
                            tiles@[i].0 as int,
                            tiles@[i].1 as int,
                            x as int,
                            y as int,
                        ),
                    forall|a: i32, b: i32|
                        in_square(px as int, py as int, h, a as int, b as int) && tile_before(
                            a as int,
                            b as int,
                            x as int,
                            y as int,
                        ) && !start.contains(tile_key(a, b)) ==> #[trigger] tiles@.contains((a, b)),
                    forall|i: int, j: int|
                        0 <= i < j < tiles@.len() ==> tile_before(
                            (#[trigger] tiles@[i]).0 as int,
                            tiles@[i].1 as int,
                            (#[trigger] tiles@[j]).0 as int,
                            tiles@[j].1 as int,
                        ),
                    forall|a: i32, b: i32|
                        #[trigger] self.generated@.contains(tile_key(a, b)) <==> start.contains(
                            tile_key(a, b),
                        ) || (in_square(px as int, py as int, h, a as int, b as int)
                            && tile_before(a as int, b as int, x as int, y as int)),
                decreases hi_y - y,
            {
                let k = tile_key_of(x, y);
                let ghost before = tiles@;
                let ghost gen_before = self.generated@;
                if !self.generated.contains(&k) {
                    tiles.push((x, y));
                    self.generated.insert(k);
                    proof {
                        assert forall|a: i32, b: i32|
                            #[trigger] self.generated@.contains(tile_key(a, b)) <==> gen_before.contains(
                                tile_key(a, b),
                            ) || (a == x && b == y) by {
                            if tile_key(a, b) == tile_key(x, y) {
                                lemma_tile_key_injective(a, b, x, y);
                            }
                        }
                        assert forall|a: i32, b: i32|
                            in_square(px as int, py as int, h, a as int, b as int) && tile_before(
                                a as int,
                                b as int,
                                x as int,
                                y + 1,
                            ) && !start.contains(tile_key(a, b)) implies #[trigger] tiles@.contains(
                            (a, b),
                        ) by {
                            if a == x && b == y {
                                assert(tiles@[before.len() as int] == (a, b));
                            } else {
                                assert(before.contains((a, b)));
                                let i = choose|i: int| 0 <= i < before.len() && before[i] == (a, b);
                                assert(tiles@[i] == (a, b));
                            }
                        }
                    }
                } else {
                    proof {
                        assert forall|a: i32, b: i32|
                            in_square(px as int, py as int, h, a as int, b as int) && tile_before(
                                a as int,
                                b as int,
                                x as int,
                                y + 1,
                            ) && !start.contains(tile_key(a, b)) implies #[trigger] tiles@.contains(
                            (a, b),
                        ) by {
                            if a == x && b == y {
                                assert(self.generated@.contains(tile_key(a, b)));
                            }
                        }
                    }
                }
                y = y + 1;
            }
            x = x + 1;
        }
        tiles
    }

    /// The tiles to generate around the player's tile `(px, py)`: a square
    /// of half side 20.
    pub fn generate(&mut self, px: i32, py: i32) -> (tiles: Vec<(i32, i32)>)
        requires
            px - 20 >= i32::MIN && px + 20 <= i32::MAX,
            py - 20 >= i32::MIN && py + 20 <= i32::MAX,
        ensures
            generated_square(*old(self), *final(self), px as int, py as int, 20, tiles@),
    {
        self.generate_world(px, py, 20)
    }

    pub fn pause(&mut self)
        ensures
            *final(self) == (RustWorld { paused: true, ..*old(self) }),
    {
        self.paused = true;
    }

    pub fn resume(&mut self)
        ensures
            *final(self) == (RustWorld { paused: false, ..*old(self) }),
    {
        self.paused = false;
    }

    pub fn is_paused(&self) -> (r: bool)
        ensures
            r == self.paused,
    {
        self.paused
    }

    /// The world enters the scene: it runs, and a hell-mode world makes its
    /// level hellish. The result says whether the saved game is to be loaded.
    pub fn ready(&mut self, level: &mut RustLevel) -> (load: bool)
        ensures
            *final(self) == (RustWorld { paused: false, ..*old(self) }),
            old(self).hell ==> *final(level) == (RustLevel { hell: true, ..*old(level) }),
            !old(self).hell ==> *final(level) == *old(level),
            load == old(self).load,
    {
        if self.is_paused() {
            self.resume();
        }
        if self.hell {
            level.enable_hell();
        }
        self.load
    }

    /// The escape key: it closes the game-over screen and resumes the game,
    /// or brings the screen up saying that the game is paused, and pauses it.
    pub fn escape(&mut self)
        ensures
            old(self).screen.is_some() ==> *final(self) == (RustWorld {
                screen: None,
                paused: false,
                ..*old(self)
            }),
            old(self).screen.is_none() ==> *final(self) == (RustWorld {
                screen: Some(WorldMessage::Paused),
                paused: true,
                ..*old(self)
            }),
    {
        if self.screen.is_some() {
            self.screen = None;
            self.resume();
        } else {
            self.screen = Some(WorldMessage::Paused);
            self.pause();
        }
    }

    /// The player has turned for good: the game-over screen says so.
    pub fn on_player_dead(&mut self)
        ensures
            *final(self) == (RustWorld { screen: Some(WorldMessage::Turned), ..*old(self) }),
    {
        self.screen = Some(WorldMessage::Turned);
    }

    /// The player chose to continue: the screen closes, a dead player is born
    /// again with a life more than granted, the level restarts its spawners,
    /// and the game resumes.
    pub fn on_continue_pressed(&mut self, player: &mut RustPlayer, level: &mut RustLevel)
        ensures
            *final(self) == (RustWorld { screen: None, paused: false, ..*old(self) }),
            old(player).state == PlayerState::Dead ==> ({
                let lives = if old(player).lives == u32::MAX {
                    u32::MAX
                } else {
                    (old(player).lives + 1) as u32
                };
                *final(player) == (RustPlayer {
                    current_lives: (lives - 1) as u32,
                    current_health: old(player).health,
                    ..old(player).moved(PlayerState::Born, 100, true)
                })
            }),
            old(player).state != PlayerState::Dead ==> *final(player) == *old(player),
            *final(level) == (RustLevel {
                zombie_generator: old(level).zombie_generator.started(),
                boomer_generator: old(level).boomer_generator.started(),
                pitcher_generator: old(level).pitcher_generator.started(),
                boss_generator: old(level).boss_generator.started(),
                ..*old(level)
            }),
    {
        self.screen = None;
        if player.get_state() == PlayerState::Dead {
            player.reborn();
        }
        level.start();
        if self.is_paused() {
            self.resume();
        }
    }
}

/// Generating a square a second time brings no tile and generates nothing
/// more.
pub proof fn law_generate_twice_brings_nothing(
    w0: RustWorld,
    w1: RustWorld,
    w2: RustWorld,
    px: int,
    py: int,
    half: int,
    first: Seq<(i32, i32)>,
    second: Seq<(i32, i32)>,
)
    requires
        generated_square(w0, w1, px, py, half, first),
        generated_square(w1, w2, px, py, half, second),
    ensures
        second.len() == 0,
        forall|x: i32, y: i32| #[trigger] w2.is_generated(x, y) == w1.is_generated(x, y),
{
    if second.len() > 0 {
        let e = second[0];
        assert(w1.is_generated(e.0, e.1));
    }
}

} // verus!
