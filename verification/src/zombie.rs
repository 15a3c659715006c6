//! The state machines of the four kinds of zombies (the common zombie, the
//! boomer, the boss and the pitcher), the corpse bookkeeping, and the attack
//! animation that decides when a zombie's swing hurts the player.
//!
//! A zombie's speed is kept as a percentage of its base speed; the engine
//! multiplies its base speed by it.
use vstd::prelude::*;
use crate::combat::{health_after_hit, spec_health_after_hit};
use crate::{PlayerState, ZombieState};

verus! {

pub const ZOMBIE_MAX_HEALTH: u32 = 100;

pub const BOSS_MAX_HEALTH: u32 = 7200;

/// Corpses of common zombies and pitchers kept on the ground at most.
pub const ZOMBIE_MAX_BODY_COUNT: u32 = 60;

/// Corpses of bosses kept on the ground at most.
pub const BOSS_MAX_BODY_COUNT: u32 = 20;

/// Live zombies from which the level holds back a new wave.
pub const ZOMBIE_REFRESH_BARRIER: u32 = 40;

/// The damage of a zombie's swing.
pub const ZOMBIE_DAMAGE: i64 = 5;

/// The damage of a boss's swing; its charge does four times as much.
pub const BOSS_DAMAGE: i64 = 8;

/// A zombie moves (and so is simulated) on two frames out of this many.
pub const ZOMBIE_SKIP_FRAME: u128 = 3;

/// The outcome of a hit on a zombie.
#[derive(Debug, Clone, Copy, PartialEq, Eq, Structural)]
pub struct HitResult {
    /// The hit left the zombie without health, so it was sent to die.
    pub killed: bool,
    /// The zombie changed state (it was not already dead).
    pub transitioned: bool,
}

/// The corpse count after one more corpse (modulo 2^32).
pub open spec fn corpse_added(count: u32) -> u32 {
    if count == u32::MAX {
        0
    } else {
        (count + 1) as u32
    }
}

/// The corpse count after one corpse was cleaned away (modulo 2^32).
pub open spec fn corpse_removed(count: u32) -> u32 {
    if count == 0 {
        u32::MAX
    } else {
        (count - 1) as u32
    }
}

/// The number of corpses lying on the ground (shared by all zombies of a
/// kind). It counts as the engine's atomic counter does: modulo 2^32.
pub struct BodyCount {
    pub count: u32,
}

impl BodyCount {
    pub fn new() -> (b: Self)
        ensures
            b.count == 0,
    {
        BodyCount { count: 0 }
    }

    /// One more corpse.
    pub fn add(&mut self)
        ensures
            final(self).count == corpse_added(old(self).count),
    {
        self.count = self.count.wrapping_add(1);
    }

    /// One corpse cleaned away.
    pub fn remove(&mut self)
        ensures
            final(self).count == corpse_removed(old(self).count),
    {
        self.count = self.count.wrapping_sub(1);
    }

    /// Whether `max` corpses or more are lying around, so that a corpse must go.
    pub fn is_full(&self, max: u32) -> (r: bool)
        ensures
            r == (self.count >= max),
    {
        self.count >= max
    }
}

/// Sound volume (in dB) of a common zombie's idle groan: quieter when many
/// zombies are alive.
pub fn guard_volume_db(live_count: u32) -> (r: i32)
    ensures
        r == (if live_count >= ZOMBIE_REFRESH_BARRIER {
            -30i32
        } else {
            -20i32
        }),
{
    if live_count >= ZOMBIE_REFRESH_BARRIER {
        -30
    } else {
        -20
    }
}

/// Sound volume (in dB) of a common zombie's rampage roar: quieter the more
/// zombies are alive.
pub fn rampage_volume_db(live_count: u32) -> (r: i32)
    ensures
        r == (if live_count >= ZOMBIE_REFRESH_BARRIER {
            -40i32
        } else if live_count >= ZOMBIE_REFRESH_BARRIER / 2 {
            -25i32
        } else {
            -12i32
        }),
{
    if live_count >= ZOMBIE_REFRESH_BARRIER {
        -40
    } else if live_count >= ZOMBIE_REFRESH_BARRIER / 2 {
        -25
    } else {
        -12
    }
}

/// What a zombie does on one frame, before any movement is worked out.
#[derive(Debug, Clone, Copy, PartialEq, Eq, Structural)]
pub enum ZombieTick {
    /// Nothing this frame (paused, or a frame that is skipped).
    Skip,
    /// The zombie is dead and too many corpses lie around: clean it away.
    CleanBody,
    /// The zombie is dead; its corpse stays.
    Rest,
    /// The player is dead: the zombie backs away (it has turned to guard).
    MoveBack,
    /// The zombie is busy attacking or the player is being charged: it stands.
    Hold,
    /// The zombie works out where to go.
    Think,
}

/// Where a zombie goes on a frame that it thinks.
#[derive(Debug, Clone, Copy, PartialEq, Eq, Structural)]
pub enum ZombieMove {
    /// Too far from the player: it is moved to a spot around the player.
    Flash,
    /// It charges at the player.
    Charge,
    /// It walks towards the player it has noticed.
    Pursue,
    /// It turns in a random direction and walks on.
    Wander,
    /// It walks straight on.
    Forward,
    /// It walks towards a noise that it heard.
    Investigate,
}

/// The noises that a pitcher listens to, loudest concern first.
#[derive(Debug, Clone, Copy, PartialEq, Eq, Structural)]
pub enum NoiseSource {
    Grenade,
    Boomer,
    ZombieGrenade,
    Weapon,
    Player,
}

/// Which noise a pitcher turns to: the first one heard, in the order
/// grenade, boomer, pitcher grenade, gunfire, player.
pub fn first_noise(grenade: bool, boomer: bool, zombie_grenade: bool, weapon: bool, player: bool) -> (r:
    Option<NoiseSource>)
    ensures
        r == (if grenade {
            Some(NoiseSource::Grenade)
        } else if boomer {
            Some(NoiseSource::Boomer)
        } else if zombie_grenade {
            Some(NoiseSource::ZombieGrenade)
        } else if weapon {
            Some(NoiseSource::Weapon)
        } else if player {
            Some(NoiseSource::Player)
        } else {
            None::<NoiseSource>
        }),
{
    if grenade {
        Some(NoiseSource::Grenade)
    } else if boomer {
        Some(NoiseSource::Boomer)
    } else if zombie_grenade {
        Some(NoiseSource::ZombieGrenade)
    } else if weapon {
        Some(NoiseSource::Weapon)
    } else if player {
        Some(NoiseSource::Player)
    } else {
        None
    }
}

/// Which way a zombie slips past another one it bumped into while walking
/// to the player: along the collision's orthogonal (`true`) or against it
/// (`false`). It goes along when the last attack direction lies within 120
/// degrees clockwise of its way to the player (`in_right_arc`) or is more
/// horizontal than vertical (`x_dominant`); against when it lies within 120
/// degrees the other way (`in_left_arc`) or is more vertical (`y_dominant`);
/// otherwise its own pursuit side (`pursuit_direction`) decides.
pub fn sidestep(
    in_right_arc: bool,
    x_dominant: bool,
    in_left_arc: bool,
    y_dominant: bool,
    pursuit_direction: bool,
) -> (along: bool)
    ensures
        along == (if in_right_arc || x_dominant {
            true
        } else if in_left_arc || y_dominant {
            false
        } else {
            pursuit_direction
        }),
{
    if in_right_arc || x_dominant {
        true
    } else if in_left_arc || y_dominant {
        false
    } else {
        pursuit_direction
    }
}

// ---------------------------------------------------------------- common zombie

/// A common zombie.
pub struct RustZombie {
    pub invincible: bool,
    pub moveable: bool,
    pub rotatable: bool,
    pub attackable: bool,
    pub health: u32,
    pub state: ZombieState,
    /// Current speed, in percent of the base speed.
    pub speed_percent: u32,
    pub frame_counter: u128,
}

impl RustZombie {
    /// The zombie with `state` and `speed_percent` replaced, unless it is dead.
    pub open spec fn entered(self, state: ZombieState, speed_percent: u32) -> Self {
        if self.state == ZombieState::Dead {
            self
        } else {
            RustZombie { state, speed_percent, ..self }
        }
    }

    /// A fresh zombie, guarding at a fifth of its speed.
    pub fn new() -> (z: Self)
        ensures
            z.state == ZombieState::Guard,
            z.speed_percent == 20,
            z.health == ZOMBIE_MAX_HEALTH,
            !z.invincible && z.moveable && z.rotatable && z.attackable,
            z.frame_counter == 0,
    {
        RustZombie {
            invincible: false,
            moveable: true,
            rotatable: true,
            attackable: true,
            health: ZOMBIE_MAX_HEALTH,
            state: ZombieState::Guard,
            speed_percent: 20,
            frame_counter: 0,
        }
    }

    /// Idle at a fifth of the speed. The result says whether it happened
    /// (a dead zombie stays as it is).
    pub fn guard(&mut self) -> (moved: bool)
        ensures
            moved == (old(self).state != ZombieState::Dead),
            *final(self) == old(self).entered(ZombieState::Guard, 20),
    {
        if self.state == ZombieState::Dead {
            return false;
        }
        self.speed_percent = 20;
        self.state = ZombieState::Guard;
        true
    }

    /// Walk at 135% of the speed.
    pub fn run(&mut self) -> (moved: bool)
        ensures
            moved == (old(self).state != ZombieState::Dead),
            *final(self) == old(self).entered(ZombieState::Run, 135),
    {
        if self.state == ZombieState::Dead {
            return false;
        }
        self.speed_percent = 135;
        self.state = ZombieState::Run;
        true
    }

    /// Flinch from a hit, slowed to a tenth of the speed.
    pub fn hit(&mut self) -> (moved: bool)
        ensures
            moved == (old(self).state != ZombieState::Dead),
            *final(self) == old(self).entered(ZombieState::Hit, 10),
    {
        if self.state == ZombieState::Dead {
            return false;
        }
        self.speed_percent = 10;
        self.state = ZombieState::Hit;
        true
    }

    /// Charge at 160% of the speed.
    pub fn rampage(&mut self) -> (moved: bool)
        ensures
            moved == (old(self).state != ZombieState::Dead),
            *final(self) == old(self).entered(ZombieState::Rampage, 160),
    {
        if self.state == ZombieState::Dead {
            return false;
        }
        self.speed_percent = 160;
        self.state = ZombieState::Rampage;
        true
    }

    /// Swing at the player at half the speed, when alive and allowed to attack.
    pub fn attack(&mut self) -> (moved: bool)
        ensures
            moved == (old(self).state != ZombieState::Dead && old(self).attackable),
            moved ==> *final(self) == old(self).entered(ZombieState::Attack, 50),
            !moved ==> *final(self) == *old(self),
    {
        if self.state == ZombieState::Dead || !self.attackable {
            return false;
        }
        self.speed_percent = 50;
        self.state = ZombieState::Attack;
        true
    }

    /// Die: the zombie stops and its corpse is counted. The result says
    /// whether it happened (a dead zombie does not die twice); the engine then
    /// confirms the kill to the level.
    pub fn die(&mut self, bodies: &mut BodyCount) -> (died: bool)
        ensures
            died == (old(self).state != ZombieState::Dead),
            *final(self) == old(self).entered(ZombieState::Dead, 0),
            died ==> final(bodies).count == corpse_added(old(bodies).count),
            !died ==> *final(bodies) == *old(bodies),
    {
        if self.state == ZombieState::Dead {
            return false;
        }
        self.speed_percent = 0;
        self.state = ZombieState::Dead;
        bodies.add();
        true
    }

    /// A corpse is cleaned away.
    pub fn clean_body(&mut self, bodies: &mut BodyCount)
        ensures
            final(bodies).count == corpse_removed(old(bodies).count),
            *final(self) == *old(self),
    {
        bodies.remove();
    }

    /// Takes a hit of `hit_val` (health is kept when invincible), then
    /// flinches, or dies when no health is left.
    pub fn on_hit(&mut self, hit_val: i64, bodies: &mut BodyCount) -> (r: HitResult)
        requires
            hit_val > i64::MIN,
        ensures
            final(self).health == (if old(self).invincible {
                old(self).health
            } else {
                spec_health_after_hit(old(self).health, hit_val)
            }),
            r.killed == (final(self).health == 0),
            r.transitioned == (old(self).state != ZombieState::Dead),
            final(self).state == (if old(self).state == ZombieState::Dead {
                ZombieState::Dead
            } else if r.killed {
                ZombieState::Dead
            } else {
                ZombieState::Hit
            }),
            r.killed && r.transitioned ==> final(bodies).count == corpse_added(old(bodies).count),
            !(r.killed && r.transitioned) ==> *final(bodies) == *old(bodies),
            final(self).invincible == old(self).invincible,
            final(self).attackable == old(self).attackable,
            final(self).moveable == old(self).moveable,
            final(self).rotatable == old(self).rotatable,
            final(self).frame_counter == old(self).frame_counter,
    {
        if !self.invincible {
            self.health = health_after_hit(self.health, hit_val);
        }
        if self.health != 0 {
            let t = self.hit();
            HitResult { killed: false, transitioned: t }
        } else {
            let t = self.die(bodies);
            HitResult { killed: true, transitioned: t }
        }
    }

    /// The start of a frame: counts the frame and decides whether the zombie
    /// acts on it and how.
    pub fn tick(&mut self, paused: bool, player_state: PlayerState, bodies: &BodyCount) -> (r:
        ZombieTick)
        ensures
            final(self).frame_counter == (if old(self).frame_counter == u128::MAX {
                0
            } else {
                old(self).frame_counter + 1
            }),
            r == (if paused || final(self).frame_counter % ZOMBIE_SKIP_FRAME == 0 {
                ZombieTick::Skip
            } else if old(self).state == ZombieState::Dead {
                if bodies.count >= ZOMBIE_MAX_BODY_COUNT {
                    ZombieTick::CleanBody
                } else {
                    ZombieTick::Rest
                }
            } else if player_state == PlayerState::Dead {
                ZombieTick::MoveBack
            } else if old(self).state == ZombieState::Attack || player_state
                == PlayerState::Impact {
                ZombieTick::Hold
            } else {
                ZombieTick::Think
            }),
            r == ZombieTick::MoveBack ==> final(self).state == ZombieState::Guard
                && final(self).speed_percent == 20,
            r != ZombieTick::MoveBack ==> final(self).state == old(self).state
                && final(self).speed_percent == old(self).speed_percent,
            final(self).health == old(self).health,
            final(self).invincible == old(self).invincible,
            final(self).attackable == old(self).attackable,
            final(self).moveable == old(self).moveable,
            final(self).rotatable == old(self).rotatable,
    {
        self.frame_counter = self.frame_counter.wrapping_add(1);
        if paused || self.frame_counter % ZOMBIE_SKIP_FRAME == 0 {
            return ZombieTick::Skip;
        }
        if self.state == ZombieState::Dead {
            if bodies.is_full(ZOMBIE_MAX_BODY_COUNT) {
                return ZombieTick::CleanBody;
            }
            return ZombieTick::Rest;
        }
        if player_state == PlayerState::Dead {
            self.guard();
            return ZombieTick::MoveBack;
        }
        if self.state == ZombieState::Attack || player_state == PlayerState::Impact {
            return ZombieTick::Hold;
        }
        ZombieTick::Think
    }

    /// Whether the zombie should run after its rampage time ran out: never
    /// while the player is dead.
    pub fn is_rampage_run(player_state: PlayerState, rampage_time_over: bool) -> (r: bool)
        ensures
            r == (player_state != PlayerState::Dead && rampage_time_over),
    {
        if player_state == PlayerState::Dead {
            return false;
        }
        rampage_time_over
    }

    /// Where the zombie goes on a frame that it thinks (see [`Self::tick`]).
    ///
    /// A zombie `far` from the player is moved closer. One that is
    /// `alarmed`, or any zombie while the level rampages, charges. Otherwise
    /// it runs once its rampage delay is over (`rampage_run`) or guards; it
    /// walks towards a player it has noticed in front of it (`pursue`), or
    /// wanders off when it may turn and its turn cooldown has passed
    /// (`rotate_ready`), or guards and walks straight on.
    pub fn think(
        &mut self,
        far: bool,
        alarmed: bool,
        level_rampage: bool,
        rampage_run: bool,
        pursue: bool,
        rotate_ready: bool,
    ) -> (m: ZombieMove)
        ensures
            far ==> m == ZombieMove::Flash && *final(self) == *old(self),
            !far && (alarmed || level_rampage) ==> m == ZombieMove::Charge && *final(self) == old(
                self,
            ).entered(ZombieState::Rampage, 160),
            !far && !(alarmed || level_rampage) ==> ({
                let walked = if rampage_run {
                    old(self).entered(ZombieState::Run, 135)
                } else {
                    old(self).entered(ZombieState::Guard, 20)
                };
                if pursue {
                    m == ZombieMove::Pursue && *final(self) == walked
                } else if old(self).rotatable && rotate_ready {
                    m == ZombieMove::Wander && *final(self) == walked
                } else {
                    m == ZombieMove::Forward && *final(self) == walked.entered(ZombieState::Guard, 20)
                }
            }),
    {
        if far {
            return ZombieMove::Flash;
        }
        if alarmed || level_rampage {
            self.rampage();
            return ZombieMove::Charge;
        }
        if rampage_run {
            self.run();
        } else {
            self.guard();
        }
        if pursue {
            ZombieMove::Pursue
        } else if self.rotatable && rotate_ready {
            ZombieMove::Wander
        } else {
            self.guard();
            ZombieMove::Forward
        }
    }
}

// ---------------------------------------------------------------- boomer

/// A boomer: a zombie that explodes when it reaches the player.
pub struct RustBoomer {
    pub invincible: bool,
    pub moveable: bool,
    pub rotatable: bool,
    /// Whether the boomer blows up when it dies.
    pub detonable: bool,
    pub health: u32,
    pub state: ZombieState,
    /// Current speed, in percent of the base speed.
    pub speed_percent: u32,
}

impl RustBoomer {
    /// The boomer with `state` and `speed_percent` replaced, unless it is dead.
    pub open spec fn entered(self, state: ZombieState, speed_percent: u32) -> Self {
        if self.state == ZombieState::Dead {
            self
        } else {
            RustBoomer { state, speed_percent, ..self }
        }
    }

    /// A fresh boomer, guarding at a fifth of its speed.
    pub fn new() -> (b: Self)
        ensures
            b.state == ZombieState::Guard,
            b.speed_percent == 20,
            b.health == ZOMBIE_MAX_HEALTH,
            !b.invincible && b.moveable && b.rotatable && b.detonable,
    {
        RustBoomer {
            invincible: false,
            moveable: true,
            rotatable: true,
            detonable: true,
            health: ZOMBIE_MAX_HEALTH,
            state: ZombieState::Guard,
            speed_percent: 20,
        }
    }

    /// Idle at a fifth of the speed; a dead boomer stays as it is.
    pub fn guard(&mut self) -> (moved: bool)
        ensures
            moved == (old(self).state != ZombieState::Dead),
            *final(self) == old(self).entered(ZombieState::Guard, 20),
    {
        if self.state == ZombieState::Dead {
            return false;
        }
        self.speed_percent = 20;
        self.state = ZombieState::Guard;
        true
    }

    /// Walk at 135% of the speed.
    pub fn run(&mut self) -> (moved: bool)
        ensures
            moved == (old(self).state != ZombieState::Dead),
            *final(self) == old(self).entered(ZombieState::Run, 135),
    {
        if self.state == ZombieState::Dead {
            return false;
        }
        self.speed_percent = 135;
        self.state = ZombieState::Run;
        true
    }

    /// Flinch from a hit, slowed to a tenth of the speed.
    pub fn hit(&mut self) -> (moved: bool)
        ensures
            moved == (old(self).state != ZombieState::Dead),
            *final(self) == old(self).entered(ZombieState::Hit, 10),
    {
        if self.state == ZombieState::Dead {
            return false;
        }
        self.speed_percent = 10;
        self.state = ZombieState::Hit;
        true
    }

    /// Charge at 160% of the speed.
    pub fn rampage(&mut self) -> (moved: bool)
        ensures
            moved == (old(self).state != ZombieState::Dead),
            *final(self) == old(self).entered(ZombieState::Rampage, 160),
    {
        if self.state == ZombieState::Dead {
            return false;
        }
        self.speed_percent = 160;
        self.state = ZombieState::Rampage;
        true
    }

    /// Where the boomer goes on a frame: as a common zombie (see
    /// [`RustZombie::think`]), with its own speeds. One `far` from the player
    /// is moved closer; an `alarmed` one, or any while the level rampages,
    /// charges; otherwise it runs once its rampage delay is over
    /// (`rampage_run`) or guards, and walks towards a player it has noticed
    /// (`pursue`), or wanders when it may turn (`rotate_ready`), or guards and
    /// walks straight on.
    pub fn think(
        &mut self,
        far: bool,
        alarmed: bool,
        level_rampage: bool,
        rampage_run: bool,
        pursue: bool,
        rotate_ready: bool,
    ) -> (m: ZombieMove)
        ensures
            far ==> m == ZombieMove::Flash && *final(self) == *old(self),
            !far && (alarmed || level_rampage) ==> m == ZombieMove::Charge && *final(self) == old(
                self,
            ).entered(ZombieState::Rampage, 160),
            !far && !(alarmed || level_rampage) ==> ({
                let walked = if rampage_run {
                    old(self).entered(ZombieState::Run, 135)
                } else {
                    old(self).entered(ZombieState::Guard, 20)
                };
                if pursue {
                    m == ZombieMove::Pursue && *final(self) == walked
                } else if old(self).rotatable && rotate_ready {
                    m == ZombieMove::Wander && *final(self) == walked
                } else {
                    m == ZombieMove::Forward && *final(self) == walked.entered(ZombieState::Guard, 20)
                }
            }),
    {
        if far {
            return ZombieMove::Flash;
        }
        if alarmed || level_rampage {
            self.rampage();
            return ZombieMove::Charge;
        }
        if rampage_run {
            self.run();
        } else {
            self.guard();
        }
        if pursue {
            ZombieMove::Pursue
        } else if self.rotatable && rotate_ready {
            ZombieMove::Wander
        } else {
            self.guard();
            ZombieMove::Forward
        }
    }

    /// The fuse is lit: the boomer turns to guard (when alive) and is then
    /// marked as attacking, whatever state it was in; its explosion follows.
    pub fn dying(&mut self)
        ensures
            *final(self) == (RustBoomer {
                state: ZombieState::Attack,
                ..old(self).entered(ZombieState::Guard, 20)
            }),
    {
        self.guard();
        self.state = ZombieState::Attack;
    }

    /// Die: the boomer stops. The result is `None` when it was already dead
    /// (it does not die twice); otherwise it says whether the boomer blows up
    /// (see [`crate::combat::boomer_blast`]): a detonable one does, when its
    /// death sound can play (`audio_in_tree`). The kill is then confirmed to
    /// the level either way.
    pub fn die(&mut self, audio_in_tree: bool) -> (explodes: Option<bool>)
        ensures
            explodes == (if old(self).state == ZombieState::Dead {
                None::<bool>
            } else {
                Some(old(self).detonable && audio_in_tree)
            }),
            *final(self) == old(self).entered(ZombieState::Dead, 0),
    {
        if self.state == ZombieState::Dead {
            return None;
        }
        self.speed_percent = 0;
        self.state = ZombieState::Dead;
        Some(self.detonable && audio_in_tree)
    }

    /// Takes a hit of `hit_val` (health is kept when invincible), then
    /// flinches, or dies when no health is left (see [`Self::die`];
    /// `audio_in_tree` says whether its death sound can play, and
    /// `explodes` whether it blows up).
    pub fn on_hit(&mut self, hit_val: i64, audio_in_tree: bool) -> (r: (HitResult, bool))
        requires
            hit_val > i64::MIN,
        ensures
            final(self).health == (if old(self).invincible {
                old(self).health
            } else {
                spec_health_after_hit(old(self).health, hit_val)
            }),
            r.0.killed == (final(self).health == 0),
            r.0.transitioned == (old(self).state != ZombieState::Dead),
            r.1 == (r.0.killed && r.0.transitioned && old(self).detonable && audio_in_tree),
            *final(self) == (if r.0.killed {
                RustBoomer { health: final(self).health, ..old(self).entered(ZombieState::Dead, 0) }
            } else {
                RustBoomer { health: final(self).health, ..old(self).entered(ZombieState::Hit, 10) }
            }),
    {
        if !self.invincible {
            self.health = health_after_hit(self.health, hit_val);
        }
        if self.health != 0 {
            let t = self.hit();
            (HitResult { killed: false, transitioned: t }, false)
        } else {
            match self.die(audio_in_tree) {
                Some(explodes) => (HitResult { killed: true, transitioned: true }, explodes),
                None => (HitResult { killed: true, transitioned: false }, false),
            }
        }
    }

    /// Before a saved game is loaded, a boomer that stands in the scene
    /// (`has_parent`) is taken out of it and its body cleaned away, which
    /// uncounts one corpse. The result says whether that happened.
    pub fn before_load(&mut self, has_parent: bool, bodies: &mut BodyCount) -> (removed: bool)
        ensures
            removed == has_parent,
            *final(self) == *old(self),
            has_parent ==> final(bodies).count == corpse_removed(old(bodies).count),
            !has_parent ==> *final(bodies) == *old(bodies),
    {
        if has_parent {
            bodies.remove();
            return true;
        }
        false
    }
}

// ---------------------------------------------------------------- boss

/// A boss: a big zombie that charges at the player.
pub struct RustBoss {
    pub invincible: bool,
    pub moveable: bool,
    pub attackable: bool,
    /// Whether the boss's charge can knock the player.
    pub collidable: bool,
    pub health: u32,
    pub state: ZombieState,
    /// Current speed, in percent of the base speed.
    pub speed_percent: u32,
}

impl RustBoss {
    /// The boss with `state` and `speed_percent` replaced, unless it is dead.
    pub open spec fn entered(self, state: ZombieState, speed_percent: u32) -> Self {
        if self.state == ZombieState::Dead {
            self
        } else {
            RustBoss { state, speed_percent, ..self }
        }
    }

    /// A fresh boss, walking at three quarters of its speed.
    pub fn new() -> (b: Self)
        ensures
            b.state == ZombieState::Guard,
            b.speed_percent == 75,
            b.health == BOSS_MAX_HEALTH,
            !b.invincible && b.moveable && b.attackable && b.collidable,
    {
        RustBoss {
            invincible: false,
            moveable: true,
            attackable: true,
            collidable: true,
            health: BOSS_MAX_HEALTH,
            state: ZombieState::Guard,
            speed_percent: 75,
        }
    }

    /// Walk at three quarters of the speed; a dead boss stays as it is.
    pub fn guard(&mut self) -> (moved: bool)
        ensures
            moved == (old(self).state != ZombieState::Dead),
            *final(self) == old(self).entered(ZombieState::Guard, 75),
    {
        if self.state == ZombieState::Dead {
            return false;
        }
        self.speed_percent = 75;
        self.state = ZombieState::Guard;
        true
    }

    /// Charge at 150% of the speed (the boss is then running). Unlike the
    /// other moves this one only checks that the boss is not already
    /// charging: it does not look at whether the boss is dead.
    pub fn bump(&mut self) -> (moved: bool)
        ensures
            moved == (old(self).state != ZombieState::Run),
            moved ==> *final(self) == (RustBoss {
                state: ZombieState::Run,
                speed_percent: 150,
                ..*old(self)
            }),
            !moved ==> *final(self) == *old(self),
    {
        if self.state == ZombieState::Run {
            return false;
        }
        self.speed_percent = 150;
        self.state = ZombieState::Run;
        true
    }

    /// Flinch from a hit, slowed to a fifth of the speed.
    pub fn hit(&mut self) -> (moved: bool)
        ensures
            moved == (old(self).state != ZombieState::Dead),
            *final(self) == old(self).entered(ZombieState::Hit, 20),
    {
        if self.state == ZombieState::Dead {
            return false;
        }
        self.speed_percent = 20;
        self.state = ZombieState::Hit;
        true
    }

    /// Swing at the player at three quarters of the speed, when alive and
    /// allowed to attack.
    pub fn attack(&mut self) -> (moved: bool)
        ensures
            moved == (old(self).state != ZombieState::Dead && old(self).attackable),
            moved ==> *final(self) == old(self).entered(ZombieState::Attack, 75),
            !moved ==> *final(self) == *old(self),
    {
        if self.state == ZombieState::Dead || !self.attackable {
            return false;
        }
        self.speed_percent = 75;
        self.state = ZombieState::Attack;
        true
    }

    /// Die: the boss stops and its corpse is counted (the engine then
    /// confirms the boss kill to the level).
    pub fn die(&mut self, bodies: &mut BodyCount) -> (died: bool)
        ensures
            died == (old(self).state != ZombieState::Dead),
            *final(self) == old(self).entered(ZombieState::Dead, 0),
            died ==> final(bodies).count == corpse_added(old(bodies).count),
            !died ==> *final(bodies) == *old(bodies),
    {
        if self.state == ZombieState::Dead {
            return false;
        }
        self.speed_percent = 0;
        self.state = ZombieState::Dead;
        bodies.add();
        true
    }

    /// Takes a hit of `hit_val` (health is kept when invincible), then
    /// flinches, or dies when no health is left.
    pub fn on_hit(&mut self, hit_val: i64, bodies: &mut BodyCount) -> (r: HitResult)
        requires
            hit_val > i64::MIN,
        ensures
            final(self).health == (if old(self).invincible {
                old(self).health
            } else {
                spec_health_after_hit(old(self).health, hit_val)
            }),
            r.killed == (final(self).health == 0),
            r.transitioned == (old(self).state != ZombieState::Dead),
            *final(self) == (if r.killed {
                RustBoss { health: final(self).health, ..old(self).entered(ZombieState::Dead, 0) }
            } else {
                RustBoss { health: final(self).health, ..old(self).entered(ZombieState::Hit, 20) }
            }),
            r.killed && r.transitioned ==> final(bodies).count == corpse_added(old(bodies).count),
            !(r.killed && r.transitioned) ==> *final(bodies) == *old(bodies),
    {
        if !self.invincible {
            self.health = health_after_hit(self.health, hit_val);
        }
        if self.health != 0 {
            let t = self.hit();
            HitResult { killed: false, transitioned: t }
        } else {
            let t = self.die(bodies);
            HitResult { killed: true, transitioned: t }
        }
    }

    /// A corpse is cleaned away.
    pub fn clean_body(&mut self, bodies: &mut BodyCount)
        ensures
            final(bodies).count == corpse_removed(old(bodies).count),
            *final(self) == *old(self),
    {
        bodies.remove();
    }

    /// While the player is dead, the boss walks away from it (guarding).
    pub fn move_back(&mut self) -> (moved: bool)
        ensures
            moved == (old(self).state != ZombieState::Dead),
            *final(self) == old(self).entered(ZombieState::Guard, 75),
    {
        self.guard()
    }

    /// The start of a boss's frame: nothing while the game is `paused`; a
    /// dead boss rests, or is cleaned away when too many bosses' corpses lie
    /// around; while the player is dead the boss backs away (turning to
    /// guard); an attacking boss, or one whose player is being thrown, holds;
    /// otherwise it thinks.
    pub fn tick(&mut self, paused: bool, player_state: PlayerState, bodies: &BodyCount) -> (r:
        ZombieTick)
        ensures
            r == (if paused {
                ZombieTick::Skip
            } else if old(self).state == ZombieState::Dead {
                if bodies.count >= BOSS_MAX_BODY_COUNT {
                    ZombieTick::CleanBody
                } else {
                    ZombieTick::Rest
                }
            } else if player_state == PlayerState::Dead {
                ZombieTick::MoveBack
            } else if old(self).state == ZombieState::Attack || player_state
                == PlayerState::Impact {
                ZombieTick::Hold
            } else {
                ZombieTick::Think
            }),
            r == ZombieTick::MoveBack ==> *final(self) == old(self).entered(ZombieState::Guard, 75),
            r != ZombieTick::MoveBack ==> *final(self) == *old(self),
    {
        if paused {
            return ZombieTick::Skip;
        }
        if self.state == ZombieState::Dead {
            if bodies.is_full(BOSS_MAX_BODY_COUNT) {
                return ZombieTick::CleanBody;
            }
            return ZombieTick::Rest;
        }
        if player_state == PlayerState::Dead {
            self.move_back();
            return ZombieTick::MoveBack;
        }
        if self.state == ZombieState::Attack || player_state == PlayerState::Impact {
            return ZombieTick::Hold;
        }
        ZombieTick::Think
    }

    /// Where the boss goes on a frame that it thinks: one `far` from the
    /// player is moved closer; one out of charging distance (`beyond_bump`)
    /// walks towards the player (guarding); a close one charges.
    pub fn think(&mut self, far: bool, beyond_bump: bool) -> (m: ZombieMove)
        ensures
            far ==> m == ZombieMove::Flash && *final(self) == *old(self),
            !far && beyond_bump ==> m == ZombieMove::Pursue && *final(self) == old(self).entered(
                ZombieState::Guard,
                75,
            ),
            !far && !beyond_bump ==> m == ZombieMove::Charge && *final(self) == (if old(self).state
                == ZombieState::Run {
                *old(self)
            } else {
                RustBoss { state: ZombieState::Run, speed_percent: 150, ..*old(self) }
            }),
    {
        if far {
            return ZombieMove::Flash;
        }
        if beyond_bump {
            self.guard();
            ZombieMove::Pursue
        } else {
            self.bump();
            ZombieMove::Charge
        }
    }

    /// Boss health in percent of the full health, for the health bar.
    pub fn hp_percent(&self) -> (r: u32)
        requires
            self.health <= BOSS_MAX_HEALTH,
        ensures
            r == self.health * 100 / (BOSS_MAX_HEALTH as int),
    {
        self.health * 100 / BOSS_MAX_HEALTH
    }
}

/// Whether a boss's charge knocks a body that it runs into, and for how much
/// damage: only a collidable, living boss knocks a survivor (the player), and
/// only once its charge cooldown has passed; the knock does four times the
/// boss's swing damage.
pub fn boss_bump_damage(collidable: bool, boss_state: ZombieState, survivor: bool, cooled: bool) -> (r:
    Option<i64>)
    ensures
        r == (if collidable && boss_state != ZombieState::Dead && survivor && cooled {
            Some((4 * BOSS_DAMAGE) as i64)
        } else {
            None::<i64>
        }),
{
    if !collidable {
        return None;
    }
    if boss_state != ZombieState::Dead && survivor && cooled {
        Some(BOSS_DAMAGE * 4)
    } else {
        None
    }
}

/// The area of a boss's charge: it follows the boss's state and remembers
/// when it last knocked the player (in milliseconds of a steady clock), so
/// that knocks come at least `bump_cooldown_ms` apart.
pub struct BossBumpArea {
    pub boss_state: ZombieState,
    /// When the area last knocked the player; `None` before its first knock.
    pub last_bump_ms: Option<u64>,
    pub bump_cooldown_ms: u64,
}

impl BossBumpArea {
    /// An area that has not knocked anyone yet, so its first knock may come
    /// at once.
    pub fn new(bump_cooldown_ms: u64) -> (a: Self)
        ensures
            a.boss_state == ZombieState::Guard,
            a.last_bump_ms.is_none(),
            a.bump_cooldown_ms == bump_cooldown_ms,
    {
        BossBumpArea { boss_state: ZombieState::Guard, last_bump_ms: None, bump_cooldown_ms }
    }

    pub fn on_change_zombie_state(&mut self, zombie_state: ZombieState)
        ensures
            *final(self) == (BossBumpArea { boss_state: zombie_state, ..*old(self) }),
    {
        self.boss_state = zombie_state;
    }

    /// Whether the cooldown has passed at `now`: the time since the last
    /// knock (none when the clock reads earlier) reaches the cooldown.
    pub open spec fn cooled_at(self, now: u64) -> bool {
        match self.last_bump_ms {
            None => true,
            Some(last) => (if now >= last {
                now - last
            } else {
                0
            }) >= self.bump_cooldown_ms,
        }
    }

    /// The knock that a body entering the area at `now` takes, if any.
    pub open spec fn knock(self, collidable: bool, survivor: bool, now: u64) -> Option<i64> {
        if collidable && self.boss_state != ZombieState::Dead && survivor && self.cooled_at(now) {
            Some((4 * BOSS_DAMAGE) as i64)
        } else {
            None
        }
    }

    /// The area after a body entered it at `now`: a knock is remembered.
    pub open spec fn after_entered(self, collidable: bool, survivor: bool, now: u64) -> Self {
        if self.knock(collidable, survivor, now) is Some {
            BossBumpArea { last_bump_ms: Some(now), ..self }
        } else {
            self
        }
    }

    /// A body entered the area at `now`. `collidable` says whether the boss
    /// may collide (an area on something else than a boss always may) and
    /// `survivor` whether the body is the player. A living boss knocks the
    /// player for four times its swing damage once the cooldown has passed,
    /// and the time of the knock is kept.
    pub fn on_area_2d_body_entered(&mut self, collidable: bool, survivor: bool, now_ms: u64) -> (r:
        Option<i64>)
        ensures
            r == old(self).knock(collidable, survivor, now_ms),
            *final(self) == old(self).after_entered(collidable, survivor, now_ms),
    {
        let cooled = match self.last_bump_ms {
            None => true,
            Some(last) => now_ms.saturating_sub(last) >= self.bump_cooldown_ms,
        };
        let r = boss_bump_damage(collidable, self.boss_state, survivor, cooled);
        if r.is_some() {
            self.last_bump_ms = Some(now_ms);
        }
        r
    }
}

// ---------------------------------------------------------------- pitcher

/// A pitcher: a zombie that throws grenades from a distance.
pub struct RustPitcher {
    pub invincible: bool,
    pub moveable: bool,
    pub rotatable: bool,
    pub attackable: bool,
    /// Whether the player is in throwing range and the pitcher keeps throwing.
    pub attacking: bool,
    pub health: u32,
    pub state: ZombieState,
    /// Current speed, in percent of the base speed.
    pub speed_percent: u32,
}

impl RustPitcher {
    /// The pitcher with `state` and `speed_percent` replaced, unless it is dead.
    pub open spec fn entered(self, state: ZombieState, speed_percent: u32) -> Self {
        if self.state == ZombieState::Dead {
            self
        } else {
            RustPitcher { state, speed_percent, ..self }
        }
    }

    /// A fresh pitcher, guarding at a fifth of its speed.
    pub fn new() -> (p: Self)
        ensures
            p.state == ZombieState::Guard,
            p.speed_percent == 20,
            p.health == ZOMBIE_MAX_HEALTH,
            !p.invincible && p.moveable && p.rotatable && p.attackable && !p.attacking,
    {
        RustPitcher {
            invincible: false,
            moveable: true,
            rotatable: true,
            attackable: true,
            attacking: false,
            health: ZOMBIE_MAX_HEALTH,
            state: ZombieState::Guard,
            speed_percent: 20,
        }
    }

    /// Idle at a fifth of the speed; a dead pitcher stays as it is.
    pub fn guard(&mut self) -> (moved: bool)
        ensures
            moved == (old(self).state != ZombieState::Dead),
            *final(self) == old(self).entered(ZombieState::Guard, 20),
    {
        if self.state == ZombieState::Dead {
            return false;
        }
        self.speed_percent = 20;
        self.state = ZombieState::Guard;
        true
    }

    /// Walk at 150% of the speed.
    pub fn run(&mut self) -> (moved: bool)
        ensures
            moved == (old(self).state != ZombieState::Dead),
            *final(self) == old(self).entered(ZombieState::Run, 150),
    {
        if self.state == ZombieState::Dead {
            return false;
        }
        self.speed_percent = 150;
        self.state = ZombieState::Run;
        true
    }

    /// Flinch from a hit, slowed to a tenth of the speed.
    pub fn hit(&mut self) -> (moved: bool)
        ensures
            moved == (old(self).state != ZombieState::Dead),
            *final(self) == old(self).entered(ZombieState::Hit, 10),
    {
        if self.state == ZombieState::Dead {
            return false;
        }
        self.speed_percent = 10;
        self.state = ZombieState::Hit;
        true
    }

    /// Charge at 160% of the speed.
    pub fn rampage(&mut self) -> (moved: bool)
        ensures
            moved == (old(self).state != ZombieState::Dead),
            *final(self) == old(self).entered(ZombieState::Rampage, 160),
    {
        if self.state == ZombieState::Dead {
            return false;
        }
        self.speed_percent = 160;
        self.state = ZombieState::Rampage;
        true
    }

    /// Stop to throw a grenade, when alive and allowed to attack: the pitcher
    /// turns to guard, then stands still in the attacking state while the
    /// engine schedules the throw.
    pub fn attack(&mut self) -> (moved: bool)
        ensures
            moved == (old(self).state != ZombieState::Dead && old(self).attackable),
            moved ==> *final(self) == (RustPitcher {
                state: ZombieState::Attack,
                speed_percent: 0,
                ..*old(self)
            }),
            !moved ==> *final(self) == *old(self),
    {
        if self.state == ZombieState::Dead || !self.attackable {
            return false;
        }
        self.guard();
        self.speed_percent = 0;
        self.state = ZombieState::Attack;
        true
    }

    /// Die: the pitcher stops and its corpse is counted (the engine then
    /// confirms the kill to the pitcher spawner).
    pub fn die(&mut self, bodies: &mut BodyCount) -> (died: bool)
        ensures
            died == (old(self).state != ZombieState::Dead),
            *final(self) == old(self).entered(ZombieState::Dead, 0),
            died ==> final(bodies).count == corpse_added(old(bodies).count),
            !died ==> *final(bodies) == *old(bodies),
    {
        if self.state == ZombieState::Dead {
            return false;
        }
        self.speed_percent = 0;
        self.state = ZombieState::Dead;
        bodies.add();
        true
    }

    /// Takes a hit of `hit_val` (health is kept when invincible), then
    /// flinches, or dies when no health is left.
    pub fn on_hit(&mut self, hit_val: i64, bodies: &mut BodyCount) -> (r: HitResult)
        requires
            hit_val > i64::MIN,
        ensures
            final(self).health == (if old(self).invincible {
                old(self).health
            } else {
                spec_health_after_hit(old(self).health, hit_val)
            }),
            r.killed == (final(self).health == 0),
            r.transitioned == (old(self).state != ZombieState::Dead),
            *final(self) == (if r.killed {
                RustPitcher {
                    health: final(self).health,
                    ..old(self).entered(ZombieState::Dead, 0)
                }
            } else {
                RustPitcher {
                    health: final(self).health,
                    ..old(self).entered(ZombieState::Hit, 10)
                }
            }),
            r.killed && r.transitioned ==> final(bodies).count == corpse_added(old(bodies).count),
            !(r.killed && r.transitioned) ==> *final(bodies) == *old(bodies),
    {
        if !self.invincible {
            self.health = health_after_hit(self.health, hit_val);
        }
        if self.health != 0 {
            let t = self.hit();
            HitResult { killed: false, transitioned: t }
        } else {
            let t = self.die(bodies);
            HitResult { killed: true, transitioned: t }
        }
    }

    /// A corpse is cleaned away.
    pub fn clean_body(&mut self, bodies: &mut BodyCount)
        ensures
            final(bodies).count == corpse_removed(old(bodies).count),
            *final(self) == *old(self),
    {
        bodies.remove();
    }

    pub fn set_attacking(&mut self, attacking: bool)
        ensures
            *final(self) == (RustPitcher { attacking, ..*old(self) }),
    {
        self.attacking = attacking;
    }

    /// The start of a pitcher's frame. It does nothing while the game is
    /// `paused` or the player is being charged; a dead pitcher rests or is
    /// cleaned away; while the player is dead it backs away (turning to
    /// guard); it throws while attacking or when it faces the player within
    /// throwing range (`in_range`); otherwise it thinks.
    pub fn tick(
        &mut self,
        paused: bool,
        player_state: PlayerState,
        bodies: &BodyCount,
        in_range: bool,
    ) -> (r: ZombieTick)
        ensures
            r == (if paused || player_state == PlayerState::Impact {
                ZombieTick::Skip
            } else if old(self).state == ZombieState::Dead {
                if bodies.count >= ZOMBIE_MAX_BODY_COUNT {
                    ZombieTick::CleanBody
                } else {
                    ZombieTick::Rest
                }
            } else if player_state == PlayerState::Dead {
                ZombieTick::MoveBack
            } else if old(self).attacking || in_range {
                ZombieTick::Hold
            } else {
                ZombieTick::Think
            }),
            r == ZombieTick::MoveBack ==> *final(self) == old(self).entered(ZombieState::Guard, 20),
            r != ZombieTick::MoveBack ==> *final(self) == *old(self),
    {
        if paused || player_state == PlayerState::Impact {
            return ZombieTick::Skip;
        }
        if self.state == ZombieState::Dead {
            if bodies.is_full(ZOMBIE_MAX_BODY_COUNT) {
                return ZombieTick::CleanBody;
            }
            return ZombieTick::Rest;
        }
        if player_state == PlayerState::Dead {
            self.guard();
            return ZombieTick::MoveBack;
        }
        if self.attacking || in_range {
            return ZombieTick::Hold;
        }
        ZombieTick::Think
    }

    /// Where the pitcher goes on a frame that it thinks. A pitcher `far` from
    /// the player is moved closer. Out of throwing range (`beyond_range`) and
    /// `alarmed` (or while the level rampages) it charges. Otherwise it runs
    /// or guards as its rampage delay says (`rampage_run`), then walks towards
    /// a player it has noticed (`pursue`), or towards the first noise it
    /// hears (`noise`, see [`first_noise`]), or wanders when it may turn and
    /// its turn cooldown has passed, or guards and walks straight on.
    pub fn think(
        &mut self,
        far: bool,
        beyond_range: bool,
        alarmed: bool,
        level_rampage: bool,
        rampage_run: bool,
        pursue: bool,
        noise: Option<NoiseSource>,
        rotate_ready: bool,
    ) -> (m: ZombieMove)
        ensures
            far ==> m == ZombieMove::Flash && *final(self) == *old(self),
            !far && beyond_range && (alarmed || level_rampage) ==> m == ZombieMove::Charge
                && *final(self) == old(self).entered(ZombieState::Rampage, 160),
            !far && !(beyond_range && (alarmed || level_rampage)) ==> ({
                let walked = if rampage_run {
                    old(self).entered(ZombieState::Run, 150)
                } else {
                    old(self).entered(ZombieState::Guard, 20)
                };
                if pursue {
                    m == ZombieMove::Pursue && *final(self) == walked
                } else if noise.is_some() {
                    m == ZombieMove::Investigate && *final(self) == walked
                } else if old(self).rotatable && rotate_ready {
                    m == ZombieMove::Wander && *final(self) == walked
                } else {
                    m == ZombieMove::Forward && *final(self) == walked.entered(ZombieState::Guard, 20)
                }
            }),
    {
        if far {
            return ZombieMove::Flash;
        }
        if beyond_range && (alarmed || level_rampage) {
            self.rampage();
            return ZombieMove::Charge;
        }
        if rampage_run {
            self.run();
        } else {
            self.guard();
        }
        if pursue {
            ZombieMove::Pursue
        } else if noise.is_some() {
            ZombieMove::Investigate
        } else if self.rotatable && rotate_ready {
            ZombieMove::Wander
        } else {
            self.guard();
            ZombieMove::Forward
        }
    }

    /// A noise was heard: the pitcher walks to it when it lies farther than
    /// the tracking minimum and within the noise's reach (`audible`), and is
    /// then alarmed; otherwise it guards and walks straight on. The result
    /// says whether it walks to the noise.
    pub fn alarmed_by_sound(&mut self, audible: bool) -> (r: bool)
        ensures
            r == audible,
            audible ==> *final(self) == *old(self),
            !audible ==> *final(self) == old(self).entered(ZombieState::Guard, 20),
    {
        if audible {
            true
        } else {
            self.guard();
            false
        }
    }
}

// ---------------------------------------------------------------- attack animation

/// The attack animation of a zombie: it knows on which frames the swing lands
/// and whether the player stands within reach.
pub struct ZombieAnimation {
    pub damage: i64,
    pub hurt_frames: Vec<i32>,
    pub player_in_area: bool,
    pub zombie_state: ZombieState,
}

impl ZombieAnimation {
    pub fn new() -> (a: Self)
        ensures
            a.damage == 0,
            a.hurt_frames@.len() == 0,
            !a.player_in_area,
            a.zombie_state == ZombieState::Guard,
    {
        ZombieAnimation {
            damage: 0,
            hurt_frames: Vec::new(),
            player_in_area: false,
            zombie_state: ZombieState::Guard,
        }
    }

    pub fn on_change_zombie_state(&mut self, zombie_state: ZombieState)
        ensures
            final(self).zombie_state == zombie_state,
            final(self).damage == old(self).damage,
            final(self).hurt_frames@ == old(self).hurt_frames@,
            final(self).player_in_area == old(self).player_in_area,
    {
        self.zombie_state = zombie_state;
    }

    pub fn on_player_in_area(&mut self, player_in_area: bool)
        ensures
            final(self).player_in_area == player_in_area,
            final(self).damage == old(self).damage,
            final(self).hurt_frames@ == old(self).hurt_frames@,
            final(self).zombie_state == old(self).zombie_state,
    {
        self.player_in_area = player_in_area;
    }

    pub fn set_hurt_frames(&mut self, frames: Vec<i32>)
        ensures
            final(self).hurt_frames@ == frames@,
            final(self).damage == old(self).damage,
            final(self).player_in_area == old(self).player_in_area,
            final(self).zombie_state == old(self).zombie_state,
    {
        self.hurt_frames = frames;
    }

    pub fn set_damage(&mut self, damage: i64)
        ensures
            final(self).damage == damage,
            final(self).hurt_frames@ == old(self).hurt_frames@,
            final(self).player_in_area == old(self).player_in_area,
            final(self).zombie_state == old(self).zombie_state,
    {
        self.damage = damage;
    }

    /// Whether `frame` is one on which the swing lands.
    pub fn is_hurt_frame(&self, frame: i32) -> (r: bool)
        ensures
            r == self.hurt_frames@.contains(frame),
    {
        let mut i: usize = 0;
        while i < self.hurt_frames.len()
            invariant
                i <= self.hurt_frames@.len(),
                forall|j: int| 0 <= j < i ==> self.hurt_frames@[j] != frame,
            decreases self.hurt_frames@.len() - i,
        {
            if self.hurt_frames[i] == frame {
                return true;
            }
            i = i + 1;
        }
        false
    }

    /// On a new animation frame: the damage that the player takes, if the
    /// zombie is attacking, the player is alive and within reach, the attack
    /// animation is playing and the frame is one on which the swing lands.
    pub fn on_frame_changed(&self, player_state: PlayerState, attack_animation: bool, frame: i32) -> (r:
        Option<i64>)
        ensures
            r == (if self.player_in_area && player_state != PlayerState::Dead
                && self.zombie_state == ZombieState::Attack && attack_animation
                && self.hurt_frames@.contains(frame) {
                Some(self.damage)
            } else {
                None::<i64>
            }),
    {
        if self.player_in_area && player_state != PlayerState::Dead && self.zombie_state
            == ZombieState::Attack && attack_animation && self.is_hurt_frame(frame) {
            Some(self.damage)
        } else {
            None
        }
    }

    /// Whether the attack animation loops on this frame: `None` when the
    /// zombie is not attacking; otherwise it stops looping once the player
    /// is dead and loops (and is played) while the player lives.
    pub fn attack_loop(&self, player_state: PlayerState) -> (r: Option<bool>)
        ensures
            r == (if self.zombie_state != ZombieState::Attack {
                None::<bool>
            } else {
                Some(player_state != PlayerState::Dead)
            }),
    {
        if self.zombie_state != ZombieState::Attack {
            return None;
        }
        match player_state {
            PlayerState::Dead => Some(false),
            _ => Some(true),
        }
    }
}

/// A dead common zombie stays dead and still, whatever it is told.
pub proof fn law_dead_zombie_stays_dead(z: RustZombie, state: ZombieState, speed_percent: u32)
    requires
        z.state == ZombieState::Dead,
    ensures
        z.entered(state, speed_percent) == z,
{
}

/// A dead boomer stays dead and still, whatever move it is told; only a fuse
/// lit on a dead boomer ([`RustBoomer::dying`]) marks it as attacking.
pub proof fn law_dead_boomer_stays_dead(b: RustBoomer, state: ZombieState, speed_percent: u32)
    requires
        b.state == ZombieState::Dead,
    ensures
        b.entered(state, speed_percent) == b,
{
}

/// A dead pitcher stays dead and still, whatever it is told.
pub proof fn law_dead_pitcher_stays_dead(p: RustPitcher, state: ZombieState, speed_percent: u32)
    requires
        p.state == ZombieState::Dead,
    ensures
        p.entered(state, speed_percent) == p,
{
}

/// A dead boss stays dead and still, whatever it is told, except a charge
/// ([`RustBoss::bump`]), which does not look at death.
pub proof fn law_dead_boss_stays_dead(b: RustBoss, state: ZombieState, speed_percent: u32)
    requires
        b.state == ZombieState::Dead,
    ensures
        b.entered(state, speed_percent) == b,
{
}

/// Cleaning away a corpse that was just counted gives the count back, and so
/// does counting one that was just cleaned away.
pub proof fn law_corpse_count_round_trip(count: u32)
    ensures
        corpse_removed(corpse_added(count)) == count,
        corpse_added(corpse_removed(count)) == count,
{
}

/// Two knocks of a boss's charge come at least its cooldown apart: after a
/// knock at `t1`, a body that enters at a later `t2` is knocked only when
/// `t2 - t1` reaches the cooldown. (A body that enters without being knocked
/// leaves the area as it was, so this holds between any two knocks in turn.)
pub proof fn law_boss_knocks_cooldown_apart(
    a: BossBumpArea,
    collidable1: bool,
    survivor1: bool,
    t1: u64,
    collidable2: bool,
    survivor2: bool,
    t2: u64,
)
    requires
        a.knock(collidable1, survivor1, t1) is Some,
        a.after_entered(collidable1, survivor1, t1).knock(collidable2, survivor2, t2) is Some,
        t1 <= t2,
    ensures
        t2 - t1 >= a.bump_cooldown_ms,
{
}

/// A body that enters the area without being knocked leaves it unchanged.
pub proof fn law_no_knock_keeps_area(a: BossBumpArea, collidable: bool, survivor: bool, now: u64)
    requires
        a.knock(collidable, survivor, now) is None,
    ensures
        a.after_entered(collidable, survivor, now) == a,
{
}

/// The corpse count counts modulo 2^32: one more corpse adds one (wrapping
/// to zero past the top), one cleaned away takes one (wrapping to the top
/// below zero).
pub proof fn law_corpse_count_steps(count: u32)
    ensures
        count < 0xffff_ffff ==> corpse_added(count) == count + 1,
        count == 0xffff_ffff ==> corpse_added(count) == 0,
        count > 0 ==> corpse_removed(count) == count - 1,
        count == 0 ==> corpse_removed(count) == 0xffff_ffff,
{
}

} // verus!
