//! Levels and zombie spawners: how many zombies a spawner brings each wave,
//! when a level is done, what a stalled level forces, which music plays, and
//! which weapons a level unlocks.
use vstd::prelude::*;
use crate::random::random_spawn_pick;

verus! {

pub const ZOMBIE_MAX_SCREEN_COUNT: u32 = 160;

pub const BOOMER_MAX_SCREEN_COUNT: u32 = 10;

/// Pitchers on screen at most; pitchers are spawned like boomers.
pub const PITCHER_MAX_SCREEN_COUNT: u32 = 10;

pub const BOSS_MAX_SCREEN_COUNT: u32 = 6;

/// The screen limits in hell mode: 1.6 times the normal ones (rounded down).
pub const ZOMBIE_MAX_SCREEN_COUNT_HELL: u32 = 256;

pub const BOOMER_MAX_SCREEN_COUNT_HELL: u32 = 16;

pub const PITCHER_MAX_SCREEN_COUNT_HELL: u32 = 16;

pub const ZOMBIE_REFRESH_BARRIER: u32 = 40;

pub const BOOMER_REFRESH_BARRIER: u32 = 3;

/// Kills after which the pitcher spawner lets a new wave through; pitchers
/// are spawned like boomers.
pub const PITCHER_REFRESH_BARRIER: u32 = 3;

pub const BOSS_REFRESH_BARRIER: u32 = 6;

/// The barrier reached from `barrier` by steps of `step` once it is above
/// `killed` (it stays where it is when already above, or when there is no step).
pub open spec fn next_barrier(barrier: int, step: int, killed: int) -> int
    decreases killed - barrier + step,
{
    if step <= 0 || killed < barrier {
        barrier
    } else {
        next_barrier(barrier + step, step, killed)
    }
}

proof fn lemma_next_barrier(barrier: int, step: int, killed: int)
    ensures
        next_barrier(barrier, step, killed) >= barrier,
        step > 0 ==> next_barrier(barrier, step, killed) > killed,
    decreases killed - barrier + step,
{
    if step > 0 && killed >= barrier {
        lemma_next_barrier(barrier + step, step, killed);
    }
}

/// What a spawn wave did.
#[derive(Debug, Clone, Copy, PartialEq, Eq, Structural)]
pub struct Wave {
    /// Zombies to bring into the world.
    pub spawned: u32,
    /// The spawner reached its total for the level and stopped its timer.
    pub stopped: bool,
}

/// A spawner of one kind of zombie: each tick of its timer brings a wave.
pub struct ZombieGenerator {
    /// Whether a wave comes as soon as a level starts.
    pub immediate: bool,
    /// Kills of this spawner's zombies in the current level (counted modulo 2^32).
    pub killed: u32,
    /// Zombies per level before scaling.
    pub total: u32,
    /// Zombies per wave before scaling.
    pub refresh_count: u32,
    /// Kills between two waves that may come while zombies are still alive.
    pub refresh_barrier: u32,
    /// Zombies of this kind on screen at most.
    pub max_screen_count: u32,
    /// Zombies to spawn in the current level.
    pub current_total: u32,
    /// Zombies per wave in the current level.
    pub current_refresh_count: u32,
    /// Zombies spawned so far in the current level.
    pub current: u32,
    /// The kill count at which the next wave is let through.
    pub current_refresh_barrier: u32,
    /// Whether the spawner's timer is stopped.
    pub timer_stopped: bool,
}

impl ZombieGenerator {
    /// Live zombies of this spawner when `c` of them were spawned.
    pub open spec fn live_at(self, c: int) -> int {
        if c >= self.killed {
            c - self.killed
        } else {
            0
        }
    }

    /// Whether a wave is held back when `c` zombies were spawned: some (but
    /// not enough) kills since the last wave, while a few zombies are still
    /// alive; or the screen is full.
    pub open spec fn blocked_at(self, c: int) -> bool {
        let live = self.live_at(c);
        (0 < self.killed && self.killed < self.current_refresh_barrier
            && self.current_refresh_barrier < self.current_total && 0 < live && live
            < self.refresh_barrier) || live >= self.max_screen_count
    }

    /// Whether one more zombie may be spawned when `c` were spawned.
    pub open spec fn may_spawn_at(self, c: int) -> bool {
        !self.blocked_at(c) && c < self.current_total
    }

    /// The wave `w` that `self` brings, leading to `after`: zombies are
    /// spawned one by one, up to the wave size, while each may be spawned;
    /// the spawner stops when the level's total is reached; and the barrier
    /// moves past the kills.
    pub open spec fn generated(self, after: Self, w: Wave) -> bool {
        &&& w.spawned <= self.current_refresh_count
        &&& forall|c: int|
            self.current <= c < self.current + w.spawned ==> #[trigger] self.may_spawn_at(c)
        &&& w.spawned < self.current_refresh_count ==> !self.may_spawn_at(
            self.current + w.spawned,
        )
        &&& w.stopped == (w.spawned < self.current_refresh_count && !self.blocked_at(
            self.current + w.spawned,
        ) && self.current + w.spawned >= self.current_total)
        &&& next_barrier(
            self.current_refresh_barrier as int,
            self.refresh_barrier as int,
            self.killed as int,
        ) <= u32::MAX
        &&& after == (ZombieGenerator {
            current: (self.current + w.spawned) as u32,
            current_refresh_barrier: next_barrier(
                self.current_refresh_barrier as int,
                self.refresh_barrier as int,
                self.killed as int,
            ) as u32,
            timer_stopped: self.timer_stopped || w.stopped,
            ..self
        })
    }

    /// The spawner `after` and the wave `w` that a new level brings (see
    /// [`Self::level_up`]).
    pub open spec fn leveled(
        self,
        after: Self,
        w: Wave,
        jump: bool,
        paused: bool,
        scaled_total: u32,
        scaled_refresh_count: u32,
        refresh_barrier: u32,
        max_screen_count: u32,
    ) -> bool {
        let fresh = ZombieGenerator {
            current: 0,
            killed: 0,
            refresh_barrier,
            current_refresh_barrier: refresh_barrier,
            max_screen_count,
            current_total: scaled_total,
            current_refresh_count: if scaled_refresh_count <= refresh_barrier {
                scaled_refresh_count
            } else {
                refresh_barrier
            },
            timer_stopped: self.timer_stopped && paused,
            ..self
        };
        if !jump && self.immediate {
            fresh.generated(after, w)
        } else {
            after == fresh && w == (Wave { spawned: 0, stopped: false })
        }
    }

    /// The spawner as the scene sets it up: 30 zombies per level, 3 per wave.
    pub fn new() -> (g: Self)
        ensures
            !g.immediate,
            g.killed == 0,
            g.total == 30 && g.current_total == 30,
            g.refresh_count == 3 && g.current_refresh_count == 3,
            g.refresh_barrier == ZOMBIE_REFRESH_BARRIER,
            g.current_refresh_barrier == ZOMBIE_REFRESH_BARRIER,
            g.max_screen_count == ZOMBIE_MAX_SCREEN_COUNT,
            g.current == 0,
            g.timer_stopped,
    {
        ZombieGenerator {
            immediate: false,
            killed: 0,
            total: 30,
            refresh_count: 3,
            refresh_barrier: ZOMBIE_REFRESH_BARRIER,
            max_screen_count: ZOMBIE_MAX_SCREEN_COUNT,
            current_total: 30,
            current_refresh_count: 3,
            current: 0,
            current_refresh_barrier: ZOMBIE_REFRESH_BARRIER,
            timer_stopped: true,
        }
    }

    /// The spawner enters the scene: its timer starts.
    pub fn ready(&mut self)
        ensures
            *final(self) == (ZombieGenerator { timer_stopped: false, ..*old(self) }),
    {
        self.timer_stopped = false;
    }

    /// One wave (a tick of the spawner's timer).
    pub fn generate(&mut self) -> (w: Wave)
        requires
            old(self).refresh_barrier > 0 || old(self).killed < old(
                self,
            ).current_refresh_barrier,
            next_barrier(
                old(self).current_refresh_barrier as int,
                old(self).refresh_barrier as int,
                old(self).killed as int,
            ) <= u32::MAX,
        ensures
            old(self).generated(*final(self), w),
    {
        let ghost start = *self;
        let n = self.current_refresh_count;
        let mut i: u32 = 0;
        let mut done = false;
        let mut stopped = false;
        while i < n && !done
            invariant
                start == (ZombieGenerator { current: start.current, timer_stopped: start.timer_stopped, ..*self }),
                n == start.current_refresh_count,
                i <= n,
                self.current == start.current + i,
                forall|c: int|
                    start.current <= c < start.current + i ==> #[trigger] start.may_spawn_at(c),
                done ==> i < n && !start.may_spawn_at(start.current + i),
                stopped == (done && !start.blocked_at(start.current + i) && start.current + i
                    >= start.current_total),
                self.timer_stopped == (start.timer_stopped || stopped),
            decreases n - i + (if done { 0int } else { 1int }),
        {
            let kill_count = self.killed;
            let live = self.current.saturating_sub(kill_count);
            if (0 < kill_count && kill_count < self.current_refresh_barrier
                && self.current_refresh_barrier < self.current_total && 0 < live && live
                < self.refresh_barrier) || live >= self.max_screen_count {
                done = true;
            } else if self.current >= self.current_total {
                self.stop_timer();
                stopped = true;
                done = true;
            } else {
                self.current = self.current + 1;
                i = i + 1;
            }
        }
        proof {
            lemma_next_barrier(
                self.current_refresh_barrier as int,
                self.refresh_barrier as int,
                self.killed as int,
            );
        }
        while self.killed >= self.current_refresh_barrier
            invariant
                start == (ZombieGenerator {
                    current: start.current,
                    timer_stopped: start.timer_stopped,
                    current_refresh_barrier: start.current_refresh_barrier,
                    ..*self
                }),
                self.current == start.current + i,
                self.timer_stopped == (start.timer_stopped || stopped),
                self.refresh_barrier > 0 || self.killed < self.current_refresh_barrier,
                next_barrier(
                    self.current_refresh_barrier as int,
                    self.refresh_barrier as int,
                    self.killed as int,
                ) == next_barrier(
                    start.current_refresh_barrier as int,
                    start.refresh_barrier as int,
                    start.killed as int,
                ),
                next_barrier(
                    self.current_refresh_barrier as int,
                    self.refresh_barrier as int,
                    self.killed as int,
                ) <= u32::MAX,
            decreases self.killed - self.current_refresh_barrier + self.refresh_barrier,
        {
            proof {
                lemma_next_barrier(
                    (self.current_refresh_barrier + self.refresh_barrier) as int,
                    self.refresh_barrier as int,
                    self.killed as int,
                );
            }
            self.current_refresh_barrier = self.current_refresh_barrier + self.refresh_barrier;
        }
        Wave { spawned: i, stopped }
    }

    /// The spawner after [`Self::start_timer`]: running, unless its total
    /// for the level has been spawned.
    pub open spec fn started(self) -> Self {
        if self.current < self.current_total {
            ZombieGenerator { timer_stopped: false, ..self }
        } else {
            self
        }
    }

    /// Starts the timer, unless the level's total has already been spawned.
    /// The result says whether the timer was started.
    pub fn start_timer(&mut self) -> (started: bool)
        ensures
            started == (old(self).current < old(self).current_total),
            *final(self) == old(self).started(),
    {
        if self.current >= self.current_total {
            return false;
        }
        self.timer_stopped = false;
        true
    }

    pub fn stop_timer(&mut self)
        ensures
            *final(self) == (ZombieGenerator { timer_stopped: true, ..*old(self) }),
    {
        self.timer_stopped = true;
    }

    /// Asks the timer to tick every `refresh_time` seconds. It is left alone
    /// when it is in its fast mode (`fast_mode`: it ticks every 0.2 s) or when
    /// it already runs with that period (`same_period`). Otherwise the new
    /// period is set (the result says so) and the timer is started as
    /// [`Self::start_timer`] does.
    pub fn refresh_timer(&mut self, fast_mode: bool, same_period: bool) -> (set_period: bool)
        ensures
            set_period == !(fast_mode || (same_period && !old(self).timer_stopped)),
            set_period ==> *final(self) == (if old(self).current < old(self).current_total {
                ZombieGenerator { timer_stopped: false, ..*old(self) }
            } else {
                *old(self)
            }),
            !set_period ==> *final(self) == *old(self),
    {
        if fast_mode || same_period && !self.timer_stopped {
            return false;
        }
        self.start_timer();
        true
    }

    /// One more of this spawner's zombies was killed.
    pub fn kill_confirmed(&mut self)
        ensures
            *final(self) == (ZombieGenerator {
                killed: (if old(self).killed == u32::MAX {
                    0
                } else {
                    old(self).killed + 1
                }) as u32,
                ..*old(self)
            }),
    {
        self.killed = self.killed.wrapping_add(1);
    }

    pub fn get_killed(&self) -> (r: u32)
        ensures
            r == self.killed,
    {
        self.killed
    }

    /// The wave size shown on the screen: the wave size, capped by the barrier.
    pub fn refresh_display_count(&self) -> (r: u32)
        ensures
            r == (if self.current_refresh_count <= self.refresh_barrier {
                self.current_refresh_count
            } else {
                self.refresh_barrier
            }),
    {
        if self.current_refresh_count <= self.refresh_barrier {
            self.current_refresh_count
        } else {
            self.refresh_barrier
        }
    }

    /// A new level: the counts restart, the spawner takes the level's
    /// `scaled_total` and `scaled_refresh_count` (its own totals scaled by the
    /// level's growth), a wave never outgrows the barrier, the timer starts
    /// unless the game is `paused`, and an immediate spawner brings its first
    /// wave at once (unless the level is skipped, `jump`).
    pub fn level_up(
        &mut self,
        jump: bool,
        paused: bool,
        scaled_total: u32,
        scaled_refresh_count: u32,
        refresh_barrier: u32,
        max_screen_count: u32,
    ) -> (w: Wave)
        requires
            refresh_barrier > 0 || jump || !old(self).immediate,
        ensures
            old(self).leveled(
                *final(self),
                w,
                jump,
                paused,
                scaled_total,
                scaled_refresh_count,
                refresh_barrier,
                max_screen_count,
            ),
    {
        self.current = 0;
        self.killed = 0;
        self.refresh_barrier = refresh_barrier;
        self.current_refresh_barrier = refresh_barrier;
        self.max_screen_count = max_screen_count;
        self.current_total = scaled_total;
        self.current_refresh_count = if scaled_refresh_count <= refresh_barrier {
            scaled_refresh_count
        } else {
            refresh_barrier
        };
        if !paused {
            self.timer_stopped = false;
        }
        if !jump && self.immediate {
            self.generate()
        } else {
            Wave { spawned: 0, stopped: false }
        }
    }

    /// The player hurries the spawner: if the screen is not full, the timer
    /// is started in its fast mode and a wave comes at once.
    pub fn hurry(&mut self) -> (w: Option<Wave>)
        requires
            old(self).refresh_barrier > 0 || old(self).killed < old(
                self,
            ).current_refresh_barrier,
            next_barrier(
                old(self).current_refresh_barrier as int,
                old(self).refresh_barrier as int,
                old(self).killed as int,
            ) <= u32::MAX,
        ensures
            old(self).live_at(old(self).current as int) < old(self).max_screen_count ==> w.is_some()
                && (ZombieGenerator { timer_stopped: false, ..*old(self) }).generated(
                *final(self),
                w.unwrap(),
            ),
            old(self).live_at(old(self).current as int) >= old(self).max_screen_count ==> w.is_none()
                && *final(self) == *old(self),
    {
        if self.current.saturating_sub(self.killed) < self.max_screen_count {
            self.timer_stopped = false;
            Some(self.generate())
        } else {
            None
        }
    }

    /// The player pauses or resumes the spawner: a stopped timer is started
    /// (as [`Self::start_timer`] does), a running one is stopped.
    pub fn toggle(&mut self)
        ensures
            old(self).timer_stopped ==> *final(self) == (if old(self).current < old(
                self,
            ).current_total {
                ZombieGenerator { timer_stopped: false, ..*old(self) }
            } else {
                *old(self)
            }),
            !old(self).timer_stopped ==> *final(self) == (ZombieGenerator {
                timer_stopped: true,
                ..*old(self)
            }),
    {
        if self.timer_stopped {
            self.start_timer();
        } else {
            self.stop_timer();
        }
    }
}

/// A spawner as a saved game records it (the spawner's node name with its
/// counts and whether its timer was stopped).
pub struct GeneratorRecord {
    pub name: String,
    pub immediate: bool,
    pub total: u32,
    pub refresh_count: u32,
    pub refresh_barrier: u32,
    pub max_screen_count: u32,
    pub current_total: u32,
    pub current_refresh_count: u32,
    pub current: u32,
    pub current_refresh_barrier: u32,
    pub stopped: bool,
}

/// The spawner `g` after taking the record `r`: the record's counts, its
/// kills kept, and its timer stopped when the record says so, or started as
/// [`ZombieGenerator::start_timer`] does.
pub open spec fn restored(g: ZombieGenerator, r: GeneratorRecord) -> ZombieGenerator {
    ZombieGenerator {
        immediate: r.immediate,
        total: r.total,
        refresh_count: r.refresh_count,
        refresh_barrier: r.refresh_barrier,
        max_screen_count: r.max_screen_count,
        current_total: r.current_total,
        current_refresh_count: r.current_refresh_count,
        current: r.current,
        current_refresh_barrier: r.current_refresh_barrier,
        timer_stopped: if r.stopped {
            true
        } else if r.current < r.current_total {
            false
        } else {
            g.timer_stopped
        },
        killed: g.killed,
    }
}

/// The spawner `g` named `name` after taking, in order, those of the first
/// `n` records that bear its name.
pub open spec fn loaded_upto(
    g: ZombieGenerator,
    name: Seq<char>,
    records: Seq<GeneratorRecord>,
    n: int,
) -> ZombieGenerator
    decreases n,
{
    if n <= 0 {
        g
    } else {
        let prev = loaded_upto(g, name, records, n - 1);
        if records[n - 1].name@ == name {
            restored(prev, records[n - 1])
        } else {
            prev
        }
    }
}

impl ZombieGenerator {
    /// A saved game is loaded: the spawner named `name` takes, in order,
    /// every record of `records` that bears its name. The result says
    /// whether any did (the engine then sets the timer's period).
    pub fn on_load(&mut self, name: &String, records: &Vec<GeneratorRecord>) -> (found: bool)
        ensures
            *final(self) == loaded_upto(*old(self), name@, records@, records@.len() as int),
            found == exists|i: int| 0 <= i < records@.len() && (#[trigger] records@[i]).name@ == name@,
    {
        let mut found = false;
        let mut i: usize = 0;
        while i < records.len()
            invariant
                i <= records@.len(),
                *self == loaded_upto(*old(self), name@, records@, i as int),
                found == exists|j: int| 0 <= j < i && (#[trigger] records@[j]).name@ == name@,
            decreases records@.len() - i,
        {
            let r = &records[i];
            if r.name == *name {
                self.immediate = r.immediate;
                self.total = r.total;
                self.refresh_count = r.refresh_count;
                self.refresh_barrier = r.refresh_barrier;
                self.max_screen_count = r.max_screen_count;
                self.current_total = r.current_total;
                self.current_refresh_count = r.current_refresh_count;
                self.current = r.current;
                self.current_refresh_barrier = r.current_refresh_barrier;
                if r.stopped {
                    self.stop_timer();
                } else {
                    self.start_timer();
                }
                found = true;
            }
            i = i + 1;
        }
        found
    }
}

/// A wave never brings a spawner past its total for the level.
pub proof fn law_wave_within_total(before: ZombieGenerator, after: ZombieGenerator, w: Wave)
    requires
        before.current <= before.current_total,
        before.generated(after, w),
    ensures
        after.current <= after.current_total,
        after.current_total == before.current_total,
{
    if w.spawned > 0 {
        assert(before.may_spawn_at(before.current + w.spawned - 1));
    }
}

/// After a wave the next wave's barrier lies above the kills (when there is a
/// barrier step at all).
pub proof fn law_wave_barrier_above_kills(before: ZombieGenerator, after: ZombieGenerator, w: Wave)
    requires
        before.refresh_barrier > 0,
        before.generated(after, w),
    ensures
        after.current_refresh_barrier > after.killed,
        after.current_refresh_barrier >= before.current_refresh_barrier,
{
    lemma_next_barrier(
        before.current_refresh_barrier as int,
        before.refresh_barrier as int,
        before.killed as int,
    );
}

/// A spawner whose screen is full brings no zombie, however large its wave.
pub proof fn law_full_screen_spawns_nothing(before: ZombieGenerator, after: ZombieGenerator, w: Wave)
    requires
        before.live_at(before.current as int) >= before.max_screen_count,
        before.generated(after, w),
    ensures
        w.spawned == 0,
        after.current == before.current,
{
    if w.spawned > 0 {
        assert(before.may_spawn_at(before.current + 0));
    }
}


// ---------------------------------------------------------------- weapon unlocks

/// The weapons that the player can unlock, in the order of their slots.
#[derive(Debug, Clone, Copy, PartialEq, Eq, Structural)]
pub enum UnlockableWeapon {
    Usp,
    Deagle,
    M1887,
    Awp,
    M79,
    M4a1,
    Ak47,
    Xm1014,
    Ak4760r,
    Rpg7,
    M249,
    Mg3,
    Skull6,
    M95,
    M134,
    M32,
    Xm1134,
    Skull5,
}

/// The level from which a weapon is handed out (the starting pistol never is).
pub open spec fn spec_unlock_level(w: UnlockableWeapon) -> u32 {
    match w {
        UnlockableWeapon::Usp => u32::MAX,
        UnlockableWeapon::Deagle => 3,
        UnlockableWeapon::M1887 => 6,
        UnlockableWeapon::Awp => 9,
        UnlockableWeapon::M79 => 12,
        UnlockableWeapon::M4a1 => 15,
        UnlockableWeapon::Ak47 => 18,
        UnlockableWeapon::Xm1014 => 21,
        UnlockableWeapon::Ak4760r => 24,
        UnlockableWeapon::Rpg7 => 25,
        UnlockableWeapon::M249 => 26,
        UnlockableWeapon::Mg3 => 27,
        UnlockableWeapon::Skull6 => 28,
        UnlockableWeapon::M95 => 29,
        UnlockableWeapon::M134 => 30,
        UnlockableWeapon::M32 => 31,
        UnlockableWeapon::Xm1134 => 32,
        UnlockableWeapon::Skull5 => 33,
    }
}

/// A weapon's slot in the player's weapon list.
pub open spec fn spec_weapon_index(w: UnlockableWeapon) -> i32 {
    match w {
        UnlockableWeapon::Usp => 0,
        UnlockableWeapon::Deagle => 1,
        UnlockableWeapon::M1887 => 2,
        UnlockableWeapon::Awp => 3,
        UnlockableWeapon::M79 => 4,
        UnlockableWeapon::M4a1 => 5,
        UnlockableWeapon::Ak47 => 6,
        UnlockableWeapon::Xm1014 => 7,
        UnlockableWeapon::Ak4760r => 8,
        UnlockableWeapon::Rpg7 => 9,
        UnlockableWeapon::M249 => 10,
        UnlockableWeapon::Mg3 => 11,
        UnlockableWeapon::Skull6 => 12,
        UnlockableWeapon::M95 => 13,
        UnlockableWeapon::M134 => 14,
        UnlockableWeapon::M32 => 15,
        UnlockableWeapon::Xm1134 => 16,
        UnlockableWeapon::Skull5 => 17,
    }
}

/// The order in which a level hands out its weapons: the strongest first.
pub open spec fn unlock_order() -> Seq<UnlockableWeapon> {
    seq![
        UnlockableWeapon::Skull5,
        UnlockableWeapon::Xm1134,
        UnlockableWeapon::M32,
        UnlockableWeapon::M134,
        UnlockableWeapon::M95,
        UnlockableWeapon::Skull6,
        UnlockableWeapon::Mg3,
        UnlockableWeapon::M249,
        UnlockableWeapon::Rpg7,
        UnlockableWeapon::Ak4760r,
        UnlockableWeapon::Xm1014,
        UnlockableWeapon::Ak47,
        UnlockableWeapon::M4a1,
        UnlockableWeapon::M79,
        UnlockableWeapon::Awp,
        UnlockableWeapon::M1887,
        UnlockableWeapon::Deagle,
    ]
}

/// The first `i` weapons of [`unlock_order`] whose level `level` reaches, in
/// that order.
pub open spec fn unlocks_upto(i: int, level: u32) -> Seq<UnlockableWeapon>
    decreases i,
{
    if i <= 0 {
        Seq::empty()
    } else {
        let prev = unlocks_upto(i - 1, level);
        let w = unlock_order()[i - 1];
        if spec_unlock_level(w) <= level {
            prev.push(w)
        } else {
            prev
        }
    }
}

/// The weapons handed out on reaching `level`.
pub open spec fn unlocked_weapons(level: u32) -> Seq<UnlockableWeapon> {
    unlocks_upto(unlock_order().len() as int, level)
}

/// The name of a weapon's scene file.
pub open spec fn spec_scene_name(w: UnlockableWeapon) -> Seq<char> {
    match w {
        UnlockableWeapon::Usp => "usp"@,
        UnlockableWeapon::Deagle => "deagle"@,
        UnlockableWeapon::M1887 => "m1887"@,
        UnlockableWeapon::Awp => "awp"@,
        UnlockableWeapon::M79 => "m79"@,
        UnlockableWeapon::M4a1 => "m4a1"@,
        UnlockableWeapon::Ak47 => "ak47"@,
        UnlockableWeapon::Xm1014 => "xm1014"@,
        UnlockableWeapon::Ak4760r => "ak47-60r"@,
        UnlockableWeapon::Rpg7 => "rpg-7"@,
        UnlockableWeapon::M249 => "m249"@,
        UnlockableWeapon::Mg3 => "mg3"@,
        UnlockableWeapon::Skull6 => "skull-6"@,
        UnlockableWeapon::M95 => "m95"@,
        UnlockableWeapon::M134 => "m134"@,
        UnlockableWeapon::M32 => "m32"@,
        UnlockableWeapon::Xm1134 => "xm1134"@,
        UnlockableWeapon::Skull5 => "skull-5"@,
    }
}

/// The key hint of a weapon.
pub open spec fn spec_key_hint(w: UnlockableWeapon) -> Seq<char> {
    match w {
        UnlockableWeapon::Usp => "1"@,
        UnlockableWeapon::Deagle => "2"@,
        UnlockableWeapon::M1887 => "3"@,
        UnlockableWeapon::Awp => "4"@,
        UnlockableWeapon::M79 => "5"@,
        UnlockableWeapon::M4a1 => "6"@,
        UnlockableWeapon::Ak47 => "7"@,
        UnlockableWeapon::Xm1014 => "8"@,
        UnlockableWeapon::Ak4760r => "9"@,
        _ => "[(MAYBE MANY TIMES)"@,
    }
}

impl UnlockableWeapon {
    /// The level from which the weapon is handed out.
    pub fn unlock_level(self) -> (r: u32)
        ensures
            r == spec_unlock_level(self),
    {
        match self {
            UnlockableWeapon::Usp => u32::MAX,
            UnlockableWeapon::Deagle => 3,
            UnlockableWeapon::M1887 => 6,
            UnlockableWeapon::Awp => 9,
            UnlockableWeapon::M79 => 12,
            UnlockableWeapon::M4a1 => 15,
            UnlockableWeapon::Ak47 => 18,
            UnlockableWeapon::Xm1014 => 21,
            UnlockableWeapon::Ak4760r => 24,
            UnlockableWeapon::Rpg7 => 25,
            UnlockableWeapon::M249 => 26,
            UnlockableWeapon::Mg3 => 27,
            UnlockableWeapon::Skull6 => 28,
            UnlockableWeapon::M95 => 29,
            UnlockableWeapon::M134 => 30,
            UnlockableWeapon::M32 => 31,
            UnlockableWeapon::Xm1134 => 32,
            UnlockableWeapon::Skull5 => 33,
        }
    }

    /// The weapon's slot in the player's weapon list.
    pub fn index(self) -> (r: i32)
        ensures
            r == spec_weapon_index(self),
    {
        match self {
            UnlockableWeapon::Usp => 0,
            UnlockableWeapon::Deagle => 1,
            UnlockableWeapon::M1887 => 2,
            UnlockableWeapon::Awp => 3,
            UnlockableWeapon::M79 => 4,
            UnlockableWeapon::M4a1 => 5,
            UnlockableWeapon::Ak47 => 6,
            UnlockableWeapon::Xm1014 => 7,
            UnlockableWeapon::Ak4760r => 8,
            UnlockableWeapon::Rpg7 => 9,
            UnlockableWeapon::M249 => 10,
            UnlockableWeapon::Mg3 => 11,
            UnlockableWeapon::Skull6 => 12,
            UnlockableWeapon::M95 => 13,
            UnlockableWeapon::M134 => 14,
            UnlockableWeapon::M32 => 15,
            UnlockableWeapon::Xm1134 => 16,
            UnlockableWeapon::Skull5 => 17,
        }
    }

    /// The name of the weapon's scene file (without the extension).
    pub fn scene_name(self) -> (r: &'static str)
        ensures
            r@ == spec_scene_name(self),
    {
        match self {
            UnlockableWeapon::Usp => "usp",
            UnlockableWeapon::Deagle => "deagle",
            UnlockableWeapon::M1887 => "m1887",
            UnlockableWeapon::Awp => "awp",
            UnlockableWeapon::M79 => "m79",
            UnlockableWeapon::M4a1 => "m4a1",
            UnlockableWeapon::Ak47 => "ak47",
            UnlockableWeapon::Xm1014 => "xm1014",
            UnlockableWeapon::Ak4760r => "ak47-60r",
            UnlockableWeapon::Rpg7 => "rpg-7",
            UnlockableWeapon::M249 => "m249",
            UnlockableWeapon::Mg3 => "mg3",
            UnlockableWeapon::Skull6 => "skull-6",
            UnlockableWeapon::M95 => "m95",
            UnlockableWeapon::M134 => "m134",
            UnlockableWeapon::M32 => "m32",
            UnlockableWeapon::Xm1134 => "xm1134",
            UnlockableWeapon::Skull5 => "skull-5",
        }
    }

    /// The key that selects the weapon, as the unlock message names it: the
    /// digit of its slot for the first nine, a hint to cycle for the others.
    pub fn key_hint(self) -> (r: &'static str)
        ensures
            r@ == spec_key_hint(self),
    {
        match self {
            UnlockableWeapon::Usp => "1",
            UnlockableWeapon::Deagle => "2",
            UnlockableWeapon::M1887 => "3",
            UnlockableWeapon::Awp => "4",
            UnlockableWeapon::M79 => "5",
            UnlockableWeapon::M4a1 => "6",
            UnlockableWeapon::Ak47 => "7",
            UnlockableWeapon::Xm1014 => "8",
            UnlockableWeapon::Ak4760r => "9",
            _ => "[(MAYBE MANY TIMES)",
        }
    }
}

/// The weapons handed out on reaching `level`, strongest first.
pub fn unlock_weapons(level: u32) -> (r: Vec<UnlockableWeapon>)
    ensures
        r@ == unlocked_weapons(level),
{
    let order = vec![
        UnlockableWeapon::Skull5,
        UnlockableWeapon::Xm1134,
        UnlockableWeapon::M32,
        UnlockableWeapon::M134,
        UnlockableWeapon::M95,
        UnlockableWeapon::Skull6,
        UnlockableWeapon::Mg3,
        UnlockableWeapon::M249,
        UnlockableWeapon::Rpg7,
        UnlockableWeapon::Ak4760r,
        UnlockableWeapon::Xm1014,
        UnlockableWeapon::Ak47,
        UnlockableWeapon::M4a1,
        UnlockableWeapon::M79,
        UnlockableWeapon::Awp,
        UnlockableWeapon::M1887,
        UnlockableWeapon::Deagle,
    ];
    assert(order@ =~= unlock_order());
    let mut r: Vec<UnlockableWeapon> = Vec::new();
    let mut i: usize = 0;
    while i < order.len()
        invariant
            order@ == unlock_order(),
            i <= order@.len(),
            r@ == unlocks_upto(i as int, level),
        decreases order@.len() - i,
    {
        let w = order[i];
        if w.unlock_level() <= level {
            r.push(w);
        }
        i = i + 1;
    }
    r
}

proof fn lemma_unlocks_exact(i: int, level: u32, w: UnlockableWeapon)
    requires
        0 <= i <= unlock_order().len(),
    ensures
        unlocks_upto(i, level).contains(w) <==> (exists|k: int|
            0 <= k < i && #[trigger] unlock_order()[k] == w) && spec_unlock_level(w) <= level,
    decreases i,
{
    if i > 0 {
        lemma_unlocks_exact(i - 1, level, w);
        let x = unlock_order()[i - 1];
        let prev = unlocks_upto(i - 1, level);
        if spec_unlock_level(x) <= level {
            assert(unlocks_upto(i, level) == prev.push(x));
            if prev.contains(w) {
                let m = choose|m: int| 0 <= m < prev.len() && prev[m] == w;
                assert(prev.push(x)[m] == w);
            }
            if w == x {
                assert(prev.push(x)[prev.len() as int] == w);
            }
            if prev.push(x).contains(w) {
                let m = choose|m: int| 0 <= m < prev.push(x).len() && prev.push(x)[m] == w;
                if m < prev.len() {
                    assert(prev[m] == w);
                }
            }
        }
        if exists|k: int| 0 <= k < i && #[trigger] unlock_order()[k] == w {
            let k = choose|k: int| 0 <= k < i && #[trigger] unlock_order()[k] == w;
            if k < i - 1 {
                assert(exists|k: int| 0 <= k < i - 1 && #[trigger] unlock_order()[k] == w);
            }
        }
    }
}

/// The weapons handed out on reaching a level are exactly those (all but the
/// starting pistol) whose unlock level it reaches.
pub proof fn law_unlocks_exact(level: u32, w: UnlockableWeapon)
    ensures
        unlocked_weapons(level).contains(w) <==> w != UnlockableWeapon::Usp && spec_unlock_level(
            w,
        ) <= level,
{
    lemma_unlocks_exact(unlock_order().len() as int, level, w);
    let o = unlock_order();
    if w != UnlockableWeapon::Usp {
        let k: int = 17 - spec_weapon_index(w);
        assert(o[k] == w);
    } else {
        assert forall|k: int| 0 <= k < o.len() implies #[trigger] o[k] != w by {}
    }
}

/// A weapon handed out at some level is handed out at every later level.
pub proof fn law_unlocks_monotone(low: u32, high: u32, w: UnlockableWeapon)
    requires
        low <= high,
        unlocked_weapons(low).contains(w),
    ensures
        unlocked_weapons(high).contains(w),
{
    law_unlocks_exact(low, w);
    law_unlocks_exact(high, w);
}

// ---------------------------------------------------------------- the level

/// The music that plays.
#[derive(Debug, Clone, Copy, PartialEq, Eq, Structural)]
pub enum Music {
    Normal,
    Rampage,
    Boss,
}

/// Zombies forced into a stalled level, per spawner.
#[derive(Debug, Clone, Copy, PartialEq, Eq, Structural)]
pub struct ForcedSpawns {
    pub zombie: u32,
    pub boomer: u32,
    pub pitcher: u32,
    pub boss: u32,
}

/// What the level decides on one frame.
#[derive(Debug, Clone, Copy, PartialEq, Eq, Structural)]
pub struct LevelTick {
    /// Zombies forced into a stalled level.
    pub spawns: ForcedSpawns,
    pub music: Music,
    /// The rampage began outside hell mode: the boomer, pitcher and boss
    /// spawners speed up.
    pub hurry_spawners: bool,
    /// Every zombie and boss of the level was killed: the next level begins.
    pub level_done: bool,
}

/// A level's zombie totals and wave sizes, scaled by its growth.
#[derive(Debug, Clone, Copy, PartialEq, Eq, Structural)]
pub struct LevelScaling {
    pub zombie_total: u32,
    pub zombie_refresh_count: u32,
    pub boomer_total: u32,
    pub boomer_refresh_count: u32,
    pub pitcher_total: u32,
    pub pitcher_refresh_count: u32,
    pub boss_total: u32,
    pub boss_refresh_count: u32,
}

/// What a new level brings.
pub struct LevelUpReport {
    /// The game is saved (from the third level on).
    pub save: bool,
    pub zombie_wave: Wave,
    pub boomer_wave: Wave,
    pub pitcher_wave: Wave,
    pub boss_wave: Wave,
    /// The weapons handed out, strongest first.
    pub unlocks: Vec<UnlockableWeapon>,
}

/// The progress shown on the screen.
#[derive(Debug, Clone, Copy, PartialEq, Eq, Structural)]
pub struct Progress {
    pub boss_killed: u32,
    pub zombie_killed: u32,
    pub boss_refreshed: u32,
    pub zombie_refreshed: u32,
    pub boss_total: u32,
    pub zombie_total: u32,
}

/// The spawner that a forced zombie's draw sends it to: -1 the pitchers, 0
/// the boomers, any other draw the common zombies.
pub open spec fn pick_kind(pick: i32) -> int {
    if pick == -1 {
        -1
    } else if pick == 0 {
        0
    } else {
        1
    }
}

/// How many of the draws `picks` send a zombie to the spawner `kind`.
pub open spec fn pick_count(picks: Seq<i32>, kind: int) -> nat
    decreases picks.len(),
{
    if picks.len() == 0 {
        0
    } else {
        pick_count(picks.drop_last(), kind) + if pick_kind(picks.last()) == kind {
            1nat
        } else {
            0nat
        }
    }
}

proof fn lemma_pick_counts_sum(picks: Seq<i32>)
    ensures
        pick_count(picks, -1) + pick_count(picks, 0) + pick_count(picks, 1) == picks.len(),
        pick_count(picks, -1) <= picks.len(),
        pick_count(picks, 0) <= picks.len(),
        pick_count(picks, 1) <= picks.len(),
    decreases picks.len(),
{
    if picks.len() > 0 {
        lemma_pick_counts_sum(picks.drop_last());
    }
}

/// The forced zombies that the draws `picks` bring, one zombie per draw,
/// each to the spawner its draw names (see [`pick_kind`]); no boss.
pub fn split_forced_spawns(picks: &Vec<i32>) -> (r: ForcedSpawns)
    requires
        picks@.len() <= u32::MAX,
    ensures
        r.pitcher == pick_count(picks@, -1),
        r.boomer == pick_count(picks@, 0),
        r.zombie == pick_count(picks@, 1),
        r.boss == 0,
{
    let mut r = ForcedSpawns { zombie: 0, boomer: 0, pitcher: 0, boss: 0 };
    let mut i: usize = 0;
    while i < picks.len()
        invariant
            i <= picks@.len() <= u32::MAX,
            r.pitcher == pick_count(picks@.take(i as int), -1),
            r.boomer == pick_count(picks@.take(i as int), 0),
            r.zombie == pick_count(picks@.take(i as int), 1),
            r.boss == 0,
        decreases picks@.len() - i,
    {
        proof {
            assert(picks@.take(i as int + 1).drop_last() =~= picks@.take(i as int));
            lemma_pick_counts_sum(picks@.take(i as int));
        }
        let pick = picks[i];
        if pick == -1 {
            r.pitcher = r.pitcher + 1;
        } else if pick == 0 {
            r.boomer = r.boomer + 1;
        } else {
            r.zombie = r.zombie + 1;
        }
        i = i + 1;
    }
    assert(picks@.take(picks@.len() as int) =~= picks@);
    r
}

/// The level: its number, its kills, and its four spawners.
pub struct RustLevel {
    pub hell: bool,
    pub level: u32,
    /// Zombies (of all kinds but the boss) killed in this level, modulo 2^32.
    pub zombie_killed: u32,
    /// Bosses killed in this level, modulo 2^32.
    pub boss_killed: u32,
    /// Whether the zombies are on a rampage.
    pub rampage: bool,
    /// The kills as last published.
    pub kill_count: u32,
    pub kill_boss_count: u32,
    /// Live zombies and bosses as last published.
    pub live_count: u32,
    pub zombie_generator: ZombieGenerator,
    pub boomer_generator: ZombieGenerator,
    pub pitcher_generator: ZombieGenerator,
    pub boss_generator: ZombieGenerator,
}

impl RustLevel {
    /// Zombies (not bosses) spawned in this level.
    pub open spec fn zombie_current(self) -> int {
        self.zombie_generator.current + self.boomer_generator.current
            + self.pitcher_generator.current
    }

    /// Zombies (not bosses) to spawn in this level.
    pub open spec fn zombie_total(self) -> int {
        self.zombie_generator.current_total + self.boomer_generator.current_total
            + self.pitcher_generator.current_total
    }

    /// Zombies (not bosses) per wave in this level.
    pub open spec fn zombie_refresh_count(self) -> int {
        self.zombie_generator.current_refresh_count + self.boomer_generator.current_refresh_count
            + self.pitcher_generator.current_refresh_count
    }

    /// The sums over the spawners fit the counters.
    pub open spec fn counts_fit(self) -> bool {
        &&& self.zombie_current() <= u32::MAX
        &&& self.zombie_total() <= u32::MAX
        &&& self.zombie_refresh_count() <= u32::MAX
    }

    /// Whether all four spawners have stopped.
    pub open spec fn all_stopped(self) -> bool {
        &&& self.zombie_generator.timer_stopped
        &&& self.boomer_generator.timer_stopped
        &&& self.pitcher_generator.timer_stopped
        &&& self.boss_generator.timer_stopped
    }

    /// Whether the level is done: every zombie and boss of its totals killed.
    pub open spec fn done(self) -> bool {
        self.zombie_killed >= self.zombie_total() && self.boss_killed
            >= self.boss_generator.current_total
    }

    /// A level before its first level-up, with the given spawners.
    pub fn new(
        zombie_generator: ZombieGenerator,
        boomer_generator: ZombieGenerator,
        pitcher_generator: ZombieGenerator,
        boss_generator: ZombieGenerator,
    ) -> (l: Self)
        ensures
            !l.hell,
            l.level == 0,
            l.zombie_killed == 0 && l.boss_killed == 0,
            !l.rampage,
            l.kill_count == 0 && l.kill_boss_count == 0 && l.live_count == 0,
            l.zombie_generator == zombie_generator,
            l.boomer_generator == boomer_generator,
            l.pitcher_generator == pitcher_generator,
            l.boss_generator == boss_generator,
    {
        RustLevel {
            hell: false,
            level: 0,
            zombie_killed: 0,
            boss_killed: 0,
            rampage: false,
            kill_count: 0,
            kill_boss_count: 0,
            live_count: 0,
            zombie_generator,
            boomer_generator,
            pitcher_generator,
            boss_generator,
        }
    }

    /// Whether the sums over the spawners fit the counters (see
    /// [`Self::progress`] and [`Self::process`], which need it).
    pub fn progress_fits(&self) -> (r: bool)
        ensures
            r == self.counts_fit(),
    {
        let current = self.zombie_generator.current as u64 + self.boomer_generator.current as u64
            + self.pitcher_generator.current as u64;
        let total = self.zombie_generator.current_total as u64
            + self.boomer_generator.current_total as u64
            + self.pitcher_generator.current_total as u64;
        let refresh = self.zombie_generator.current_refresh_count as u64
            + self.boomer_generator.current_refresh_count as u64
            + self.pitcher_generator.current_refresh_count as u64;
        current <= u32::MAX as u64 && total <= u32::MAX as u64 && refresh <= u32::MAX as u64
    }

    /// A zombie (not a boss) of this level was killed.
    pub fn kill_confirmed(&mut self)
        ensures
            final(self).zombie_killed == (if old(self).zombie_killed == u32::MAX {
                0
            } else {
                old(self).zombie_killed + 1
            }),
            *final(self) == (RustLevel { zombie_killed: final(self).zombie_killed, ..*old(self) }),
    {
        self.zombie_killed = self.zombie_killed.wrapping_add(1);
    }

    /// A boss of this level was killed.
    pub fn kill_boss_confirmed(&mut self)
        ensures
            final(self).boss_killed == (if old(self).boss_killed == u32::MAX {
                0
            } else {
                old(self).boss_killed + 1
            }),
            *final(self) == (RustLevel { boss_killed: final(self).boss_killed, ..*old(self) }),
    {
        self.boss_killed = self.boss_killed.wrapping_add(1);
    }

    pub fn is_rampage(&self) -> (r: bool)
        ensures
            r == self.rampage,
    {
        self.rampage
    }

    pub fn get_kill_count(&self) -> (r: u32)
        ensures
            r == self.kill_count,
    {
        self.kill_count
    }

    pub fn get_kill_boss_count(&self) -> (r: u32)
        ensures
            r == self.kill_boss_count,
    {
        self.kill_boss_count
    }

    pub fn get_live_count(&self) -> (r: u32)
        ensures
            r == self.live_count,
    {
        self.live_count
    }

    /// The level (re)starts: every spawner starts its timer, as
    /// [`ZombieGenerator::start_timer`] does.
    pub fn start(&mut self)
        ensures
            *final(self) == (RustLevel {
                zombie_generator: old(self).zombie_generator.started(),
                boomer_generator: old(self).boomer_generator.started(),
                pitcher_generator: old(self).pitcher_generator.started(),
                boss_generator: old(self).boss_generator.started(),
                ..*old(self)
            }),
    {
        self.zombie_generator.start_timer();
        self.boomer_generator.start_timer();
        self.pitcher_generator.start_timer();
        self.boss_generator.start_timer();
    }

    /// The level halts: every spawner stops its timer.
    pub fn stop(&mut self)
        ensures
            *final(self) == (RustLevel {
                zombie_generator: ZombieGenerator { timer_stopped: true, ..old(self).zombie_generator },
                boomer_generator: ZombieGenerator { timer_stopped: true, ..old(self).boomer_generator },
                pitcher_generator: ZombieGenerator {
                    timer_stopped: true,
                    ..old(self).pitcher_generator
                },
                boss_generator: ZombieGenerator { timer_stopped: true, ..old(self).boss_generator },
                ..*old(self)
            }),
    {
        self.zombie_generator.stop_timer();
        self.boomer_generator.stop_timer();
        self.pitcher_generator.stop_timer();
        self.boss_generator.stop_timer();
    }

    /// Hell mode: the level is marked hellish (the engine shortens the
    /// spawners' periods and the rampage delay).
    pub fn enable_hell(&mut self)
        ensures
            *final(self) == (RustLevel { hell: true, ..*old(self) }),
    {
        self.hell = true;
    }

    /// The progress shown on the screen.
    pub fn progress(&self) -> (p: Progress)
        requires
            self.counts_fit(),
        ensures
            p == (Progress {
                boss_killed: self.boss_killed,
                zombie_killed: self.zombie_killed,
                boss_refreshed: self.boss_generator.current,
                zombie_refreshed: self.zombie_current() as u32,
                boss_total: self.boss_generator.current_total,
                zombie_total: self.zombie_total() as u32,
            }),
    {
        Progress {
            boss_killed: self.boss_killed,
            zombie_killed: self.zombie_killed,
            boss_refreshed: self.boss_generator.current,
            zombie_refreshed: self.zombie_generator.current + self.boomer_generator.current
                + self.pitcher_generator.current,
            boss_total: self.boss_generator.current_total,
            zombie_total: self.zombie_generator.current_total
                + self.boomer_generator.current_total + self.pitcher_generator.current_total,
        }
    }

    /// Splits `count` forced zombies over the three zombie spawners by chance:
    /// each one is drawn to a spawner on its own (see [`split_forced_spawns`]).
    fn forced_zombie_spawns(count: u32) -> (r: ForcedSpawns)
        ensures
            r.zombie + r.boomer + r.pitcher == count,
            r.boss == 0,
    {
        let mut picks: Vec<i32> = Vec::new();
        let mut i: u32 = 0;
        while i < count
            invariant
                i <= count,
                picks@.len() == i,
            decreases count - i,
        {
            picks.push(random_spawn_pick());
            i = i + 1;
        }
        proof {
            lemma_pick_counts_sum(picks@);
        }
        split_forced_spawns(&picks)
    }

    /// One frame of the level, unless the game is `paused`.
    ///
    /// A level whose spawners have all stopped while the player has scored
    /// nothing for a while (`idle_too_long`) is stalled: as many zombies as
    /// are missing (up to a wave) and as many bosses are forced in, the
    /// zombies split by chance over the three zombie spawners. The kills and
    /// the live zombies are published. Once the rampage delay is over
    /// (`rampage_time_over`) while zombies are alive, the zombies rampage;
    /// otherwise a living boss brings its own music, and without one the
    /// rampage ends. The level is done when all its zombies and bosses are
    /// killed.
    pub fn process(&mut self, paused: bool, idle_too_long: bool, rampage_time_over: bool) -> (r:
        Option<LevelTick>)
        requires
            !paused ==> old(self).counts_fit(),
        ensures
            paused ==> r.is_none() && *final(self) == *old(self),
            !paused ==> r.is_some(),
            !paused ==> ({
                let s = *old(self);
                let t = r.unwrap();
                let killed = if s.zombie_killed + s.boss_killed > u32::MAX {
                    u32::MAX as int
                } else {
                    s.zombie_killed + s.boss_killed
                };
                let alive = s.zombie_current() + s.boss_generator.current;
                let stalled = s.all_stopped() && idle_too_long;
                let missing_zombies = if s.zombie_total() >= s.zombie_killed {
                    s.zombie_total() - s.zombie_killed
                } else {
                    0
                };
                let missing_bosses = if s.boss_generator.current_total >= s.boss_killed {
                    s.boss_generator.current_total - s.boss_killed
                } else {
                    0
                };
                &&& t.spawns.zombie + t.spawns.boomer + t.spawns.pitcher == (if stalled {
                    if missing_zombies <= s.zombie_refresh_count() {
                        missing_zombies
                    } else {
                        s.zombie_refresh_count()
                    }
                } else {
                    0
                })
                &&& t.spawns.boss == (if stalled {
                    if missing_bosses <= s.boss_generator.current_refresh_count {
                        missing_bosses
                    } else {
                        s.boss_generator.current_refresh_count as int
                    }
                } else {
                    0
                })
                &&& final(self).kill_count == s.zombie_killed
                &&& final(self).kill_boss_count == s.boss_killed
                &&& final(self).live_count == (if alive > u32::MAX {
                    u32::MAX - killed
                } else if alive >= killed {
                    alive - killed
                } else {
                    0
                })
                &&& t.music == (if rampage_time_over && s.zombie_killed < s.zombie_current() {
                    Music::Rampage
                } else if s.boss_killed < s.boss_generator.current {
                    Music::Boss
                } else {
                    Music::Normal
                })
                &&& final(self).rampage == (if rampage_time_over && s.zombie_killed
                    < s.zombie_current() {
                    true
                } else if s.boss_killed < s.boss_generator.current {
                    s.rampage
                } else {
                    false
                })
                &&& t.hurry_spawners == (rampage_time_over && s.zombie_killed < s.zombie_current()
                    && !s.hell)
                &&& t.level_done == s.done()
                &&& t.level_done == (s.zombie_killed >= s.zombie_generator.current_total
                    + s.boomer_generator.current_total + s.pitcher_generator.current_total
                    && s.boss_killed >= s.boss_generator.current_total)
                &&& *final(self) == (RustLevel {
                    kill_count: final(self).kill_count,
                    kill_boss_count: final(self).kill_boss_count,
                    live_count: final(self).live_count,
                    rampage: final(self).rampage,
                    ..s
                })
            }),
    {
        if paused {
            return None;
        }
        let zombie_killed = self.zombie_killed;
        let boss_killed = self.boss_killed;
        let killed = zombie_killed.saturating_add(boss_killed);
        let zombie_current = self.zombie_generator.current + self.boomer_generator.current
            + self.pitcher_generator.current;
        let boss_current = self.boss_generator.current;
        let zombie_total = self.zombie_generator.current_total
            + self.boomer_generator.current_total + self.pitcher_generator.current_total;
        let boss_total = self.boss_generator.current_total;
        let zombie_refresh_count = self.zombie_generator.current_refresh_count
            + self.boomer_generator.current_refresh_count
            + self.pitcher_generator.current_refresh_count;
        let boss_refresh_count = self.boss_generator.current_refresh_count;
        let mut spawns = ForcedSpawns { zombie: 0, boomer: 0, pitcher: 0, boss: 0 };
        if self.zombie_generator.timer_stopped && self.boomer_generator.timer_stopped
            && self.pitcher_generator.timer_stopped && self.boss_generator.timer_stopped
            && idle_too_long {
            let missing_zombies = zombie_total.saturating_sub(zombie_killed);
            let refresh_zombie_count = if missing_zombies <= zombie_refresh_count {
                missing_zombies
            } else {
                zombie_refresh_count
            };
            let missing_bosses = boss_total.saturating_sub(boss_killed);
            let refresh_boss_count = if missing_bosses <= boss_refresh_count {
                missing_bosses
            } else {
                boss_refresh_count
            };
            spawns = Self::forced_zombie_spawns(refresh_zombie_count);
            spawns.boss = refresh_boss_count;
        }
        self.kill_count = zombie_killed;
        self.kill_boss_count = boss_killed;
        self.live_count = zombie_current.saturating_add(boss_current).saturating_sub(killed);
        let music;
        let mut hurry_spawners = false;
        if rampage_time_over && zombie_killed < zombie_current {
            self.rampage = true;
            hurry_spawners = !self.hell;
            music = Music::Rampage;
        } else if boss_killed < boss_current {
            music = Music::Boss;
        } else {
            self.rampage = false;
            music = Music::Normal;
        }
        let level_done = zombie_killed >= zombie_total && boss_killed >= boss_total;
        Some(LevelTick { spawns, music, hurry_spawners, level_done })
    }

    /// The next level: the game is saved from the third level on, the level
    /// number grows, the kills restart, every spawner takes its share of
    /// `scaled` (with its screen limit, higher in hell mode) and may bring a
    /// first wave, and the weapons of the new level are handed out.
    pub fn level_up(&mut self, jump: bool, paused: bool, scaled: LevelScaling) -> (r: LevelUpReport)
        requires
            old(self).level < u32::MAX,
        ensures
            r.save == (old(self).level > 1),
            final(self).level == old(self).level + 1,
            final(self).zombie_killed == 0,
            final(self).boss_killed == 0,
            final(self).hell == old(self).hell,
            final(self).rampage == old(self).rampage,
            final(self).kill_count == old(self).kill_count,
            final(self).kill_boss_count == old(self).kill_boss_count,
            final(self).live_count == old(self).live_count,
            old(self).zombie_generator.leveled(
                final(self).zombie_generator,
                r.zombie_wave,
                jump,
                paused,
                scaled.zombie_total,
                scaled.zombie_refresh_count,
                ZOMBIE_REFRESH_BARRIER,
                if old(self).hell {
                    ZOMBIE_MAX_SCREEN_COUNT_HELL
                } else {
                    ZOMBIE_MAX_SCREEN_COUNT
                },
            ),
            old(self).boomer_generator.leveled(
                final(self).boomer_generator,
                r.boomer_wave,
                jump,
                paused,
                scaled.boomer_total,
                scaled.boomer_refresh_count,
                BOOMER_REFRESH_BARRIER,
                if old(self).hell {
                    BOOMER_MAX_SCREEN_COUNT_HELL
                } else {
                    BOOMER_MAX_SCREEN_COUNT
                },
            ),
            old(self).pitcher_generator.leveled(
                final(self).pitcher_generator,
                r.pitcher_wave,
                jump,
                paused,
                scaled.pitcher_total,
                scaled.pitcher_refresh_count,
                PITCHER_REFRESH_BARRIER,
                if old(self).hell {
                    PITCHER_MAX_SCREEN_COUNT_HELL
                } else {
                    PITCHER_MAX_SCREEN_COUNT
                },
            ),
            old(self).boss_generator.leveled(
                final(self).boss_generator,
                r.boss_wave,
                jump,
                paused,
                scaled.boss_total,
                scaled.boss_refresh_count,
                BOSS_REFRESH_BARRIER,
                BOSS_MAX_SCREEN_COUNT,
            ),
            r.unlocks@ == unlocked_weapons(final(self).level),
    {
        let save = self.level > 1;
        self.level = self.level + 1;
        self.zombie_killed = 0;
        self.boss_killed = 0;
        let zombie_wave = self.zombie_generator.level_up(
            jump,
            paused,
            scaled.zombie_total,
            scaled.zombie_refresh_count,
            ZOMBIE_REFRESH_BARRIER,
            if self.hell {
                ZOMBIE_MAX_SCREEN_COUNT_HELL
            } else {
                ZOMBIE_MAX_SCREEN_COUNT
            },
        );
        let boomer_wave = self.boomer_generator.level_up(
            jump,
            paused,
            scaled.boomer_total,
            scaled.boomer_refresh_count,
            BOOMER_REFRESH_BARRIER,
            if self.hell {
                BOOMER_MAX_SCREEN_COUNT_HELL
            } else {
                BOOMER_MAX_SCREEN_COUNT
            },
        );
        let pitcher_wave = self.pitcher_generator.level_up(
            jump,
            paused,
            scaled.pitcher_total,
            scaled.pitcher_refresh_count,
            PITCHER_REFRESH_BARRIER,
            if self.hell {
                PITCHER_MAX_SCREEN_COUNT_HELL
            } else {
                PITCHER_MAX_SCREEN_COUNT
            },
        );
        let boss_wave = self.boss_generator.level_up(
            jump,
            paused,
            scaled.boss_total,
            scaled.boss_refresh_count,
            BOSS_REFRESH_BARRIER,
            BOSS_MAX_SCREEN_COUNT,
        );
        let unlocks = unlock_weapons(self.level);
        LevelUpReport { save, zombie_wave, boomer_wave, pitcher_wave, boss_wave, unlocks }
    }
}

/// A spawner with no zombie alive on the screen (every one it spawned was
/// killed) whose level total is not reached brings at least one zombie on
/// its next wave: the barrier holds a wave back only while some of its
/// zombies still live.
pub proof fn law_empty_screen_brings_a_wave(before: ZombieGenerator, after: ZombieGenerator, w: Wave)
    requires
        before.generated(after, w),
        before.killed >= before.current,
        before.current < before.current_total,
        before.current_refresh_count > 0,
        before.max_screen_count > 0,
    ensures
        w.spawned > 0,
{
    if w.spawned == 0 {
        assert(!before.may_spawn_at(before.current as int));
        assert(before.live_at(before.current as int) == 0);
    }
}

/// A wave is held back only while some of the spawner's zombies are alive:
/// with none alive, only a screen limit of zero holds it back.
pub proof fn law_hold_back_needs_live_zombies(g: ZombieGenerator, c: int)
    requires
        c <= g.killed,
    ensures
        g.blocked_at(c) <==> g.max_screen_count == 0,
{
}

/// A level is done exactly when every zombie of the three zombie spawners'
/// totals and every boss of the boss spawner's total has been killed.
pub proof fn law_level_done_needs_every_kill(s: RustLevel)
    ensures
        s.done() <==> (s.zombie_killed >= s.zombie_generator.current_total
            + s.boomer_generator.current_total + s.pitcher_generator.current_total
            && s.boss_killed >= s.boss_generator.current_total),
{
}

/// The level from which each weapon is handed out: the Deagle from level 3,
/// the M1887 from 6, the AWP from 9, the M79 from 12, the M4A1 from 15, the
/// AK-47 from 18, the XM1014 from 21, the AK-47-60R from 24, then one more
/// each level from the RPG-7 at 25 to the Skull-5 at 33; the starting USP
/// never.
pub proof fn law_unlock_levels(level: u32)
    ensures
        !unlocked_weapons(level).contains(UnlockableWeapon::Usp),
        unlocked_weapons(level).contains(UnlockableWeapon::Deagle) <==> level >= 3,
        unlocked_weapons(level).contains(UnlockableWeapon::M1887) <==> level >= 6,
        unlocked_weapons(level).contains(UnlockableWeapon::Awp) <==> level >= 9,
        unlocked_weapons(level).contains(UnlockableWeapon::M79) <==> level >= 12,
        unlocked_weapons(level).contains(UnlockableWeapon::M4a1) <==> level >= 15,
        unlocked_weapons(level).contains(UnlockableWeapon::Ak47) <==> level >= 18,
        unlocked_weapons(level).contains(UnlockableWeapon::Xm1014) <==> level >= 21,
        unlocked_weapons(level).contains(UnlockableWeapon::Ak4760r) <==> level >= 24,
        unlocked_weapons(level).contains(UnlockableWeapon::Rpg7) <==> level >= 25,
        unlocked_weapons(level).contains(UnlockableWeapon::M249) <==> level >= 26,
        unlocked_weapons(level).contains(UnlockableWeapon::Mg3) <==> level >= 27,
        unlocked_weapons(level).contains(UnlockableWeapon::Skull6) <==> level >= 28,
        unlocked_weapons(level).contains(UnlockableWeapon::M95) <==> level >= 29,
        unlocked_weapons(level).contains(UnlockableWeapon::M134) <==> level >= 30,
        unlocked_weapons(level).contains(UnlockableWeapon::M32) <==> level >= 31,
        unlocked_weapons(level).contains(UnlockableWeapon::Xm1134) <==> level >= 32,
        unlocked_weapons(level).contains(UnlockableWeapon::Skull5) <==> level >= 33,
{
    law_unlocks_exact(level, UnlockableWeapon::Usp);
    law_unlocks_exact(level, UnlockableWeapon::Deagle);
    law_unlocks_exact(level, UnlockableWeapon::M1887);
    law_unlocks_exact(level, UnlockableWeapon::Awp);
    law_unlocks_exact(level, UnlockableWeapon::M79);
    law_unlocks_exact(level, UnlockableWeapon::M4a1);
    law_unlocks_exact(level, UnlockableWeapon::Ak47);
    law_unlocks_exact(level, UnlockableWeapon::Xm1014);
    law_unlocks_exact(level, UnlockableWeapon::Ak4760r);
    law_unlocks_exact(level, UnlockableWeapon::Rpg7);
    law_unlocks_exact(level, UnlockableWeapon::M249);
    law_unlocks_exact(level, UnlockableWeapon::Mg3);
    law_unlocks_exact(level, UnlockableWeapon::Skull6);
    law_unlocks_exact(level, UnlockableWeapon::M95);
    law_unlocks_exact(level, UnlockableWeapon::M134);
    law_unlocks_exact(level, UnlockableWeapon::M32);
    law_unlocks_exact(level, UnlockableWeapon::Xm1134);
    law_unlocks_exact(level, UnlockableWeapon::Skull5);
}

/// The barrier after a wave is the first one, counting up from the current
/// barrier in steps of the spawner's barrier step, that lies above the
/// kills; a barrier already above the kills stays.
pub proof fn law_barrier_is_first_above_kills(barrier: int, step: int, killed: int)
    requires
        step > 0,
    ensures
        killed < barrier ==> next_barrier(barrier, step, killed) == barrier,
        killed >= barrier ==> next_barrier(barrier, step, killed) > killed
            && next_barrier(barrier, step, killed) - step <= killed,
        (next_barrier(barrier, step, killed) - barrier) % step == 0,
    decreases killed - barrier + step,
{
    if killed >= barrier {
        law_barrier_is_first_above_kills(barrier + step, step, killed);
        vstd::arithmetic::div_mod::lemma_mod_add_multiples_vanish(
            next_barrier(barrier, step, killed) - barrier - step,
            step,
        );
    } else {
        vstd::arithmetic::div_mod::lemma_small_mod(0, step as nat);
    }
}

/// Each weapon's slot in the player's weapon list: the USP in the first
/// slot, then the Deagle, M1887, AWP, M79, M4A1, AK-47, XM1014, AK-47-60R,
/// RPG-7, M249, MG3, Skull-6, M95, M134, M32, XM1134 and Skull-5.
pub proof fn law_weapon_slots()
    ensures
        spec_weapon_index(UnlockableWeapon::Usp) == 0,
        spec_weapon_index(UnlockableWeapon::Deagle) == 1,
        spec_weapon_index(UnlockableWeapon::M1887) == 2,
        spec_weapon_index(UnlockableWeapon::Awp) == 3,
        spec_weapon_index(UnlockableWeapon::M79) == 4,
        spec_weapon_index(UnlockableWeapon::M4a1) == 5,
        spec_weapon_index(UnlockableWeapon::Ak47) == 6,
        spec_weapon_index(UnlockableWeapon::Xm1014) == 7,
        spec_weapon_index(UnlockableWeapon::Ak4760r) == 8,
        spec_weapon_index(UnlockableWeapon::Rpg7) == 9,
        spec_weapon_index(UnlockableWeapon::M249) == 10,
        spec_weapon_index(UnlockableWeapon::Mg3) == 11,
        spec_weapon_index(UnlockableWeapon::Skull6) == 12,
        spec_weapon_index(UnlockableWeapon::M95) == 13,
        spec_weapon_index(UnlockableWeapon::M134) == 14,
        spec_weapon_index(UnlockableWeapon::M32) == 15,
        spec_weapon_index(UnlockableWeapon::Xm1134) == 16,
        spec_weapon_index(UnlockableWeapon::Skull5) == 17,
{
}

/// A new level restarts a spawner: nothing spawned or killed, the level's
/// scaled total, waves no larger than the barrier step, the timer running
/// unless the game is paused; a spawner that is not immediate (or a skipped
/// level) brings no first wave.
pub proof fn law_level_up_restarts_spawner(
    before: ZombieGenerator,
    after: ZombieGenerator,
    w: Wave,
    jump: bool,
    paused: bool,
    scaled_total: u32,
    scaled_refresh_count: u32,
    refresh_barrier: u32,
    max_screen_count: u32,
)
    requires
        before.leveled(
            after,
            w,
            jump,
            paused,
            scaled_total,
            scaled_refresh_count,
            refresh_barrier,
            max_screen_count,
        ),
    ensures
        after.killed == 0,
        after.current_total == scaled_total,
        after.refresh_barrier == refresh_barrier,
        after.max_screen_count == max_screen_count,
        after.current_refresh_count <= scaled_refresh_count,
        after.current_refresh_count <= refresh_barrier,
        after.current_refresh_count == scaled_refresh_count || after.current_refresh_count
            == refresh_barrier,
        after.current == w.spawned,
        w.spawned <= after.current_refresh_count,
        !paused ==> !after.timer_stopped || w.stopped,
        paused ==> after.timer_stopped == (before.timer_stopped || w.stopped),
        (jump || !before.immediate) ==> w.spawned == 0 && !w.stopped,
{
}

/// Starting a spawner's timer runs it exactly when the level's total has
/// not all been spawned; nothing else changes.
pub proof fn law_start_runs_unfinished_spawners(g: ZombieGenerator)
    ensures
        g.current < g.current_total ==> !g.started().timer_stopped,
        g.current >= g.current_total ==> g.started() == g,
        g.started().current == g.current && g.started().killed == g.killed,
{
}

} // verus!
