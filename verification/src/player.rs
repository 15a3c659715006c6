//! The player: its state machine (born, guard, run, shoot, chop, reload, hit,
//! impact, death), its health and lives, its score and kill counts, its
//! level-ups and upgrades, and its choice of weapon.
//!
//! The player's speed is kept as a percentage of its base speed, together
//! with whether the current weapon's weight slows it further; the engine
//! multiplies the base speed by both.
use vstd::prelude::*;
use crate::combat::{health_after_hit, sat_add_i64, spec_health_after_hit, spec_sat_add_i64};
use crate::level::{UnlockableWeapon, spec_weapon_index};
use crate::weapon::{RustWeapon, WeaponSounds};
use crate::{PlayerState, WeaponState};

verus! {

pub const PLAYER_MAX_LIVES: u32 = 3;

pub const PLAYER_MAX_HEALTH: u32 = 100;

pub const PLAYER_LEVEL_UP_BARRIER: u32 = 2000;

/// The knife adds this much to the player's damage.
pub const KNIFE_DAMAGE: i64 = 80;

/// A grenade's damage before the player's own.
pub const GRENADE_DAMAGE: i64 = 240;

/// What the player does on a frame, from the inputs held down.
#[derive(Debug, Clone, Copy, PartialEq, Eq, Structural)]
pub enum FrameAction {
    Shoot,
    Chop,
    Run,
    Nothing,
}

/// The frame's action: shooting comes first, then the knife, then running
/// (the sprint key held while moving).
pub fn frame_action(fire_held: bool, chop_held: bool, sprint_held: bool, moving: bool) -> (r:
    FrameAction)
    ensures
        r == (if fire_held {
            FrameAction::Shoot
        } else if chop_held {
            FrameAction::Chop
        } else if sprint_held && moving {
            FrameAction::Run
        } else {
            FrameAction::Nothing
        }),
{
    if fire_held {
        FrameAction::Shoot
    } else if chop_held {
        FrameAction::Chop
    } else if sprint_held && moving {
        FrameAction::Run
    } else {
        FrameAction::Nothing
    }
}

/// The weapon slot that a digit key selects: keys 1 to 9 the first nine
/// slots, key 0 the tenth.
pub fn weapon_slot_for_digit(digit: u8) -> (r: Option<i32>)
    ensures
        digit > 9 ==> r.is_none(),
        digit == 0 ==> r == Some(9i32),
        1 <= digit <= 9 ==> r == Some((digit - 1) as i32),
{
    if digit > 9 {
        None
    } else if digit == 0 {
        Some(9)
    } else {
        Some((digit - 1) as i32)
    }
}

/// What a shot order led to.
#[derive(Debug, Clone, Copy, PartialEq, Eq, Structural)]
pub enum ShootOutcome {
    /// The player cannot shoot now; nothing changed.
    Ignored,
    /// The magazine was empty, so a reload was asked for; `started` says
    /// whether it began.
    Reload { started: bool },
    /// The player shoots; `allowed` says whether the weapon's cooldown let a
    /// round go (the engine then fires it, see [`RustWeapon::shot_fired`]).
    Fire { allowed: bool },
}

/// What follows the player's death.
#[derive(Debug, Clone, Copy, PartialEq, Eq, Structural)]
pub enum DeathOutcome {
    /// No life left: the game is over.
    GameOver,
    /// A life is left: the player is born again a moment later.
    Respawn,
}

/// What a hit did to the player.
#[derive(Debug, Clone, Copy, PartialEq, Eq, Structural)]
pub enum PlayerHit {
    /// Health is left; `transitioned` says whether the player flinched (a
    /// dead player does not).
    Hurt { transitioned: bool },
    /// No health is left; `death` is what follows (none when already dead).
    Killed { death: Option<DeathOutcome> },
}

/// What a weapon change order did.
#[derive(Debug, Clone, Copy, PartialEq, Eq, Structural)]
pub enum WeaponChange {
    /// The player is dead; nothing changed.
    Ignored,
    /// No weapon in that slot yet.
    Locked,
    /// The weapon was already in hand.
    Same,
    /// The weapon was taken in hand.
    Changed,
}

/// The player.
pub struct RustPlayer {
    pub invincible: bool,
    pub current_weapon_index: i32,
    /// Lives granted in all.
    pub lives: u32,
    /// Damage added to every weapon's.
    pub damage: i64,
    /// Full health.
    pub health: u32,
    /// Score needed for the next level-up, above the previous one.
    pub level_up_barrier: u32,
    /// Score at which the next level-up comes.
    pub current_level_up_barrier: u64,
    /// Lives left.
    pub current_lives: u32,
    pub current_health: u32,
    pub state: PlayerState,
    /// Current speed, in percent of the base speed.
    pub speed_percent: u32,
    /// Whether the weapon's weight slows the current speed further.
    pub weighted: bool,
    /// Score, counted modulo 2^64.
    pub score: u64,
    /// Deaths, counted modulo 2^64.
    pub died: u64,
    /// Zombies killed, counted modulo 2^32.
    pub kill_count: u32,
    /// Bosses killed, counted modulo 2^32.
    pub kill_boss_count: u32,
}

/// Whether the player cannot turn to guard in this state.
pub open spec fn guard_blocked(s: PlayerState) -> bool {
    s == PlayerState::Dead || s == PlayerState::Impact || s == PlayerState::Reload || s
        == PlayerState::Reloading || s == PlayerState::Chop
}

/// Whether the player cannot run, shoot or reload in this state.
pub open spec fn action_blocked(s: PlayerState) -> bool {
    s == PlayerState::Dead || s == PlayerState::Impact || s == PlayerState::Chop
}

/// Whether the player is dead or being knocked about.
pub open spec fn helpless(s: PlayerState) -> bool {
    s == PlayerState::Dead || s == PlayerState::Impact
}

fn is_guard_blocked(s: PlayerState) -> (r: bool)
    ensures
        r == guard_blocked(s),
{
    match s {
        PlayerState::Dead | PlayerState::Impact | PlayerState::Reload | PlayerState::Reloading
        | PlayerState::Chop => true,
        _ => false,
    }
}

fn is_action_blocked(s: PlayerState) -> (r: bool)
    ensures
        r == action_blocked(s),
{
    match s {
        PlayerState::Dead | PlayerState::Impact | PlayerState::Chop => true,
        _ => false,
    }
}

fn is_helpless(s: PlayerState) -> (r: bool)
    ensures
        r == helpless(s),
{
    match s {
        PlayerState::Dead | PlayerState::Impact => true,
        _ => false,
    }
}

/// A counter after one more, modulo 2^32.
pub open spec fn inc32(x: u32) -> u32 {
    if x == u32::MAX {
        0
    } else {
        (x + 1) as u32
    }
}

/// A counter after `n` more, modulo 2^64.
pub open spec fn add64(x: u64, n: u64) -> u64 {
    if x + n > u64::MAX {
        (x + n - u64::MAX - 1) as u64
    } else {
        (x + n) as u64
    }
}

impl RustPlayer {
    /// The player in `state`, at `speed_percent` of the base speed (`weighted`
    /// by the weapon or not).
    pub open spec fn moved(self, state: PlayerState, speed_percent: u32, weighted: bool) -> Self {
        RustPlayer { state, speed_percent, weighted, ..self }
    }

    /// The player after dying: stopped, and one more death counted.
    pub open spec fn killed(self) -> Self {
        RustPlayer { died: add64(self.died, 1), ..self.moved(PlayerState::Dead, 0, false) }
    }

    /// The player born again: one life spent, full health, at full
    /// (weighted) speed.
    pub open spec fn born_again(self) -> Self {
        RustPlayer {
            current_lives: (self.current_lives - 1) as u32,
            current_health: self.health,
            ..self.moved(PlayerState::Born, 100, true)
        }
    }

    /// The player turned to guard, when it may.
    pub open spec fn guarded(self) -> Self {
        if guard_blocked(self.state) {
            self
        } else {
            self.moved(PlayerState::Guard, 100, true)
        }
    }

    /// The player as it enters the world.
    pub fn new() -> (p: Self)
        ensures
            !p.invincible,
            p.current_weapon_index == 0,
            p.lives == PLAYER_MAX_LIVES && p.current_lives == PLAYER_MAX_LIVES,
            p.damage == 0,
            p.health == PLAYER_MAX_HEALTH && p.current_health == PLAYER_MAX_HEALTH,
            p.level_up_barrier == PLAYER_LEVEL_UP_BARRIER,
            p.current_level_up_barrier == PLAYER_LEVEL_UP_BARRIER,
            p.state == PlayerState::Born,
            p.speed_percent == 100 && !p.weighted,
            p.score == 0 && p.died == 0 && p.kill_count == 0 && p.kill_boss_count == 0,
    {
        RustPlayer {
            invincible: false,
            current_weapon_index: 0,
            lives: PLAYER_MAX_LIVES,
            damage: 0,
            health: PLAYER_MAX_HEALTH,
            level_up_barrier: PLAYER_LEVEL_UP_BARRIER,
            current_level_up_barrier: PLAYER_LEVEL_UP_BARRIER as u64,
            current_lives: PLAYER_MAX_LIVES,
            current_health: PLAYER_MAX_HEALTH,
            state: PlayerState::Born,
            speed_percent: 100,
            weighted: false,
            score: 0,
            died: 0,
            kill_count: 0,
            kill_boss_count: 0,
        }
    }

    pub fn get_state(&self) -> (r: PlayerState)
        ensures
            r == self.state,
    {
        self.state
    }

    /// Born again: a dead player with a life left spends it and comes back
    /// with full health. The result says whether it happened.
    pub fn born(&mut self) -> (r: bool)
        ensures
            r == (old(self).state == PlayerState::Dead && old(self).current_lives != 0),
            r ==> *final(self) == old(self).born_again(),
            !r ==> *final(self) == *old(self),
    {
        if self.state != PlayerState::Dead || self.current_lives == 0 {
            return false;
        }
        self.current_lives = self.current_lives - 1;
        self.speed_percent = 100;
        self.weighted = true;
        self.state = PlayerState::Born;
        self.current_health = self.health;
        true
    }

    /// Idle at full (weighted) speed, unless dead, knocked, reloading or
    /// chopping.
    pub fn guard(&mut self) -> (r: bool)
        ensures
            r == !guard_blocked(old(self).state),
            *final(self) == old(self).guarded(),
            old(self).state == PlayerState::Dead ==> !r && *final(self) == *old(self),
    {
        if is_guard_blocked(self.state) {
            return false;
        }
        self.speed_percent = 100;
        self.weighted = true;
        self.state = PlayerState::Guard;
        true
    }

    /// Run at 150% (weighted) speed, which breaks off a reload.
    pub fn run(&mut self, weapon: &mut RustWeapon) -> (r: bool)
        ensures
            r == !action_blocked(old(self).state),
            r ==> *final(self) == old(self).moved(PlayerState::Run, 150, true),
            r ==> *final(weapon) == (RustWeapon { state: WeaponState::Ready, ..*old(weapon) }),
            !r ==> *final(self) == *old(self) && *final(weapon) == *old(weapon),
    {
        if is_action_blocked(self.state) {
            return false;
        }
        self.speed_percent = 150;
        self.weighted = true;
        self.state = PlayerState::Run;
        weapon.stop_reload();
        true
    }

    /// Reload, unless dead, knocked, chopping or already reloading, and if
    /// the weapon agrees to (see [`RustWeapon::reload`]); the player then
    /// moves at 75% (weighted) speed.
    pub fn reload(&mut self, weapon: &mut RustWeapon, sounds: WeaponSounds) -> (r: bool)
        ensures
            action_blocked(old(self).state) || old(self).state == PlayerState::Reload ==> !r
                && *final(self) == *old(self) && *final(weapon) == *old(weapon),
            !(action_blocked(old(self).state) || old(self).state == PlayerState::Reload) ==> ({
                let mut w = *old(weapon);
                &&& r == !(w.clip == w.ammo || w.state == WeaponState::Reloading || sounds.clip_out
                    || (w.reload_part && sounds.clip_part_in) || sounds.clip_in || (
                w.pull_after_reload && sounds.reload_bolt_pull))
                &&& r ==> *final(weapon) == (RustWeapon { state: WeaponState::Reloading, ..w })
                &&& !r ==> *final(weapon) == w
                &&& r ==> *final(self) == old(self).moved(PlayerState::Reload, 75, true)
                &&& !r ==> *final(self) == *old(self)
            }),
    {
        if is_action_blocked(self.state) || self.state == PlayerState::Reload {
            return false;
        }
        if !weapon.reload(sounds) {
            return false;
        }
        self.speed_percent = 75;
        self.weighted = true;
        self.state = PlayerState::Reload;
        true
    }

    /// Shoot: nothing when dead, knocked or chopping; an empty magazine asks
    /// for a reload; otherwise the player shoots at half (weighted) speed, a
    /// reload under way is broken off, and a round may go once the weapon's
    /// cooldown has passed (`cooling` says it has not).
    pub fn shoot(&mut self, weapon: &mut RustWeapon, cooling: bool, sounds: WeaponSounds) -> (r:
        ShootOutcome)
        ensures
            action_blocked(old(self).state) ==> r == ShootOutcome::Ignored && *final(self)
                == *old(self) && *final(weapon) == *old(weapon),
            !action_blocked(old(self).state) && old(weapon).ammo == 0 ==> ({
                &&& r matches ShootOutcome::Reload { started }
                &&& started == (old(self).state != PlayerState::Reload && !(old(weapon).clip
                    == old(weapon).ammo || old(weapon).state
                    == WeaponState::Reloading || sounds.clip_out || (old(weapon).reload_part
                    && sounds.clip_part_in) || sounds.clip_in || (old(weapon).pull_after_reload
                    && sounds.reload_bolt_pull)))
                &&& started ==> *final(weapon) == (RustWeapon {
                    state: WeaponState::Reloading,
                    ..*old(weapon)
                }) && *final(self) == old(self).moved(PlayerState::Reload, 75, true)
                &&& !started ==> *final(weapon) == *old(weapon) && *final(self) == *old(self)
            }),
            !action_blocked(old(self).state) && old(weapon).ammo != 0 ==> r == (ShootOutcome::Fire {
                allowed: !cooling,
            }) && *final(self) == old(self).moved(PlayerState::Shoot, 50, true) && *final(weapon)
                == (RustWeapon { state: WeaponState::Ready, ..*old(weapon) }),
    {
        if is_action_blocked(self.state) {
            return ShootOutcome::Ignored;
        }
        if weapon.must_reload() {
            let started = self.reload(weapon, sounds);
            return ShootOutcome::Reload { started };
        }
        self.speed_percent = 50;
        self.weighted = true;
        self.state = PlayerState::Shoot;
        weapon.stop_reload();
        let allowed = weapon.can_fire(cooling, WeaponSounds::silent());
        ShootOutcome::Fire { allowed }
    }

    /// Swing the knife, unless dead, knocked, or the knife is still cooling
    /// down (`cooling`): the player slows to 75% (not weighted), a reload is
    /// broken off, and the swing deals the knife's damage plus the player's.
    pub fn chop(&mut self, weapon: &mut RustWeapon, cooling: bool) -> (r: Option<i64>)
        requires
            !helpless(old(self).state) && !cooling ==> old(self).damage <= i64::MAX - KNIFE_DAMAGE,
        ensures
            helpless(old(self).state) || cooling ==> r.is_none() && *final(self) == *old(self)
                && *final(weapon) == *old(weapon),
            !(helpless(old(self).state) || cooling) ==> r == Some((KNIFE_DAMAGE + old(self).damage) as i64)
                && *final(self) == old(self).moved(PlayerState::Chop, 75, false) && *final(weapon)
                == (RustWeapon { state: WeaponState::Ready, ..*old(weapon) }),
    {
        if is_helpless(self.state) || cooling {
            return None;
        }
        self.speed_percent = 75;
        self.weighted = false;
        self.state = PlayerState::Chop;
        weapon.stop_reload();
        Some(KNIFE_DAMAGE + self.damage)
    }

    /// Throws the grenades, unless their cooldown has not passed (`cooling`):
    /// each deals the grenade's damage plus the player's.
    pub fn throw_grenade(&self, cooling: bool) -> (r: Option<i64>)
        requires
            !cooling ==> self.damage <= i64::MAX - GRENADE_DAMAGE,
        ensures
            r == (if cooling {
                None::<i64>
            } else {
                Some((GRENADE_DAMAGE + self.damage) as i64)
            }),
    {
        if cooling {
            return None;
        }
        Some(GRENADE_DAMAGE + self.damage)
    }

    /// The knife swing ended: a chopping player turns to guard.
    pub fn chopped(&mut self) -> (r: bool)
        ensures
            r == (old(self).state == PlayerState::Chop),
            r ==> *final(self) == old(self).moved(PlayerState::Guard, 100, true),
            !r ==> *final(self) == *old(self),
    {
        if self.state != PlayerState::Chop {
            return false;
        }
        self.state = PlayerState::Guard;
        self.guard();
        true
    }

    /// A round went in during a round-by-round reload: the player keeps
    /// reloading at 75% (weighted) speed, unless dead or knocked.
    pub fn reloading(&mut self) -> (r: bool)
        ensures
            r == !helpless(old(self).state),
            r ==> *final(self) == old(self).moved(PlayerState::Reloading, 75, true),
            !r ==> *final(self) == *old(self),
    {
        if is_helpless(self.state) {
            return false;
        }
        self.speed_percent = 75;
        self.weighted = true;
        self.state = PlayerState::Reloading;
        true
    }

    /// The reload completed: the player turns to guard, unless dead or knocked.
    pub fn reloaded(&mut self) -> (r: bool)
        ensures
            r == !helpless(old(self).state),
            r ==> *final(self) == old(self).moved(PlayerState::Guard, 100, true),
            !r ==> *final(self) == *old(self),
    {
        if is_helpless(self.state) {
            return false;
        }
        self.state = PlayerState::Guard;
        self.guard();
        true
    }

    /// Flinch from a hit at half (weighted) speed, unless dead.
    pub fn hit(&mut self) -> (r: bool)
        ensures
            r == (old(self).state != PlayerState::Dead),
            r ==> *final(self) == old(self).moved(PlayerState::Hit, 50, true),
            !r ==> *final(self) == *old(self),
    {
        if self.state == PlayerState::Dead {
            return false;
        }
        self.speed_percent = 50;
        self.weighted = true;
        self.state = PlayerState::Hit;
        true
    }

    /// Die, unless already dead: the player stops, a reload is broken off,
    /// the death is counted, and the game is over when no life is left.
    pub fn die(&mut self, weapon: &mut RustWeapon) -> (r: Option<DeathOutcome>)
        ensures
            old(self).state == PlayerState::Dead ==> r.is_none() && *final(self) == *old(self)
                && *final(weapon) == *old(weapon),
            old(self).state != PlayerState::Dead ==> r == Some(
                if old(self).current_lives == 0 {
                    DeathOutcome::GameOver
                } else {
                    DeathOutcome::Respawn
                },
            ) && *final(self) == old(self).killed() && *final(weapon) == (RustWeapon { state: WeaponState::Ready, ..*old(weapon) }),
    {
        if self.state == PlayerState::Dead {
            return None;
        }
        self.speed_percent = 0;
        self.weighted = false;
        self.state = PlayerState::Dead;
        weapon.stop_reload();
        self.died = self.died.wrapping_add(1);
        if self.current_lives == 0 {
            Some(DeathOutcome::GameOver)
        } else {
            Some(DeathOutcome::Respawn)
        }
    }

    /// Takes a hit of `hit_val` (health is kept when invincible), then
    /// flinches, or dies when no health is left.
    pub fn on_hit(&mut self, weapon: &mut RustWeapon, hit_val: i64) -> (r: PlayerHit)
        requires
            hit_val > i64::MIN,
        ensures
            ({
                let h = if old(self).invincible {
                    old(self).current_health
                } else {
                    spec_health_after_hit(old(self).current_health, hit_val)
                };
                let hurt = RustPlayer { current_health: h, ..*old(self) };
                if h != 0 {
                    &&& r == (PlayerHit::Hurt { transitioned: hurt.state != PlayerState::Dead })
                    &&& *final(self) == (if hurt.state != PlayerState::Dead {
                        hurt.moved(PlayerState::Hit, 50, true)
                    } else {
                        hurt
                    })
                    &&& *final(weapon) == *old(weapon)
                } else if hurt.state == PlayerState::Dead {
                    r == (PlayerHit::Killed { death: None }) && *final(self) == hurt
                        && *final(weapon) == *old(weapon)
                } else {
                    &&& r == (PlayerHit::Killed {
                        death: Some(
                            if hurt.current_lives == 0 {
                                DeathOutcome::GameOver
                            } else {
                                DeathOutcome::Respawn
                            },
                        ),
                    })
                    &&& *final(self) == hurt.killed()
                    &&& *final(weapon) == (RustWeapon { state: WeaponState::Ready, ..*old(weapon) })
                }
            }),
    {
        if !self.invincible {
            self.current_health = health_after_hit(self.current_health, hit_val);
        }
        if self.current_health != 0 {
            let transitioned = self.hit();
            PlayerHit::Hurt { transitioned }
        } else {
            let death = self.die(weapon);
            PlayerHit::Killed { death }
        }
    }

    /// Knocked by a boss's charge for `hit_val`: the hit lands as
    /// [`Self::on_hit`] says; a player who survives it is thrown back at 125%
    /// speed (not weighted) and a reload is broken off. The result says
    /// whether the player was thrown.
    pub fn on_impact(&mut self, weapon: &mut RustWeapon, hit_val: i64) -> (r: bool)
        requires
            hit_val > i64::MIN,
        ensures
            old(self).state == PlayerState::Dead ==> !r && *final(self) == *old(self)
                && *final(weapon) == *old(weapon),
            old(self).state != PlayerState::Dead ==> ({
                let h = if old(self).invincible {
                    old(self).current_health
                } else {
                    spec_health_after_hit(old(self).current_health, hit_val)
                };
                let hurt = RustPlayer { current_health: h, ..*old(self) };
                if h != 0 {
                    &&& r
                    &&& *final(self) == hurt.moved(PlayerState::Impact, 125, false)
                    &&& *final(weapon) == (RustWeapon { state: WeaponState::Ready, ..*old(weapon) })
                } else {
                    &&& !r
                    &&& *final(self) == hurt.killed()
                    &&& *final(weapon) == (RustWeapon { state: WeaponState::Ready, ..*old(weapon) })
                }
            }),
    {
        if self.state == PlayerState::Dead {
            return false;
        }
        self.on_hit(weapon, hit_val);
        if self.state == PlayerState::Dead {
            return false;
        }
        self.speed_percent = 125;
        self.weighted = false;
        self.state = PlayerState::Impact;
        weapon.stop_reload();
        true
    }

    /// While thrown back: a knocked player keeps flying at 125% speed.
    pub fn impacting(&mut self) -> (r: bool)
        ensures
            r == (old(self).state == PlayerState::Impact),
            r ==> *final(self) == old(self).moved(PlayerState::Impact, 125, false),
            !r ==> *final(self) == *old(self),
    {
        if self.state != PlayerState::Impact {
            return false;
        }
        self.speed_percent = 125;
        self.weighted = false;
        self.state = PlayerState::Impact;
        true
    }

    /// The knock is over: the player turns to guard.
    pub fn impacted(&mut self) -> (r: bool)
        ensures
            r == (old(self).state == PlayerState::Impact),
            r ==> *final(self) == old(self).moved(PlayerState::Guard, 100, true),
            !r ==> *final(self) == *old(self),
    {
        if self.state != PlayerState::Impact {
            return false;
        }
        self.state = PlayerState::Guard;
        self.guard();
        true
    }

    /// The player continues after the game was over: one life more than
    /// granted is left, then the player is born again.
    pub fn reborn(&mut self) -> (r: bool)
        ensures
            ({
                let lives = if old(self).lives == u32::MAX {
                    u32::MAX
                } else {
                    (old(self).lives + 1) as u32
                };
                let refreshed = RustPlayer { current_lives: lives, ..*old(self) };
                &&& r == (refreshed.state == PlayerState::Dead)
                &&& r ==> *final(self) == refreshed.born_again()
                &&& !r ==> *final(self) == refreshed
            }),
    {
        self.current_lives = self.lives.saturating_add(1);
        self.born()
    }

    pub fn add_kill_count(&mut self)
        ensures
            *final(self) == (RustPlayer { kill_count: inc32(old(self).kill_count), ..*old(self) }),
    {
        self.kill_count = self.kill_count.wrapping_add(1);
    }

    pub fn get_kill_count(&self) -> (r: u32)
        ensures
            r == self.kill_count,
    {
        self.kill_count
    }

    pub fn add_kill_boss_count(&mut self)
        ensures
            *final(self) == (RustPlayer {
                kill_boss_count: inc32(old(self).kill_boss_count),
                ..*old(self)
            }),
    {
        self.kill_boss_count = self.kill_boss_count.wrapping_add(1);
    }

    pub fn get_kill_boss_count(&self) -> (r: u32)
        ensures
            r == self.kill_boss_count,
    {
        self.kill_boss_count
    }

    pub fn add_score(&mut self, score: u64)
        ensures
            *final(self) == (RustPlayer { score: add64(old(self).score, score), ..*old(self) }),
    {
        self.score = self.score.wrapping_add(score);
    }

    pub fn get_score(&self) -> (r: u64)
        ensures
            r == self.score,
    {
        self.score
    }

    pub fn get_died(&self) -> (r: u64)
        ensures
            r == self.died,
    {
        self.died
    }

    /// A level-up, once the score reaches the next barrier: the score gains
    /// the player's damage with the weapon's (`weapon_damage`), so that the
    /// same score does not trigger twice; the barrier step becomes
    /// `grown_barrier` (the previous step grown by the engine's rate) and the
    /// next barrier lies that much further. The result says whether it
    /// happened (the engine then pauses and offers the upgrades).
    pub fn level_up(&mut self, weapon_damage: i64, grown_barrier: u32) -> (r: bool)
        requires
            old(self).score >= old(self).current_level_up_barrier ==> old(
                self,
            ).current_level_up_barrier + grown_barrier <= u64::MAX,
        ensures
            r == (old(self).score >= old(self).current_level_up_barrier),
            r ==> ({
                let gain = spec_sat_add_i64(old(self).damage, weapon_damage);
                *final(self) == (RustPlayer {
                    score: add64(old(self).score, gain as u64),
                    level_up_barrier: grown_barrier,
                    current_level_up_barrier: (old(self).current_level_up_barrier
                        + grown_barrier) as u64,
                    ..*old(self)
                })
            }),
            !r ==> *final(self) == *old(self),
    {
        if self.score < self.current_level_up_barrier {
            return false;
        }
        let gain = sat_add_i64(self.damage, weapon_damage);
        self.add_score(gain as u64);
        self.level_up_barrier = grown_barrier;
        self.current_level_up_barrier = self.current_level_up_barrier + grown_barrier as u64;
        true
    }

    /// Damage upgrade: two more points; the result is the damage now shown
    /// (the player's with the weapon's).
    pub fn upgrade_damage(&mut self, weapon_damage: i64) -> (shown: i64)
        ensures
            final(self).damage == spec_sat_add_i64(old(self).damage, 2),
            *final(self) == (RustPlayer { damage: final(self).damage, ..*old(self) }),
            shown == spec_sat_add_i64(final(self).damage, weapon_damage),
    {
        self.damage = sat_add_i64(self.damage, 2);
        sat_add_i64(self.damage, weapon_damage)
    }

    /// Lives upgrade: one more life granted and left.
    pub fn upgrade_lives(&mut self)
        ensures
            *final(self) == (RustPlayer {
                lives: (if old(self).lives == u32::MAX {
                    u32::MAX
                } else {
                    (old(self).lives + 1) as u32
                }),
                current_lives: (if old(self).current_lives == u32::MAX {
                    u32::MAX
                } else {
                    (old(self).current_lives + 1) as u32
                }),
                ..*old(self)
            }),
    {
        self.lives = self.lives.saturating_add(1);
        self.current_lives = self.current_lives.saturating_add(1);
    }

    /// Health upgrade: ten more points of full and of current health.
    pub fn upgrade_health(&mut self)
        ensures
            *final(self) == (RustPlayer {
                health: (if old(self).health + 10 > u32::MAX {
                    u32::MAX as int
                } else {
                    old(self).health + 10
                }) as u32,
                current_health: (if old(self).current_health + 10 > u32::MAX {
                    u32::MAX as int
                } else {
                    old(self).current_health + 10
                }) as u32,
                ..*old(self)
            }),
    {
        self.health = self.health.saturating_add(10);
        self.current_health = self.current_health.saturating_add(10);
    }

    /// Takes the weapon in slot `weapon_index` in hand, unless the player is
    /// dead or the slot is empty. Every weapon breaks off its reload and is
    /// ready; the player turns to guard, and moves at 75% speed (not
    /// weighted) when the weapon is a new one.
    pub fn change_weapon(&mut self, weapons: &mut Vec<RustWeapon>, weapon_index: i32) -> (r:
        WeaponChange)
        requires
            old(weapons)@.len() <= i32::MAX,
        ensures
            old(self).state == PlayerState::Dead ==> r == WeaponChange::Ignored && *final(self)
                == *old(self) && final(weapons)@ == old(weapons)@,
            old(self).state != PlayerState::Dead && weapon_index >= old(weapons)@.len() ==> r
                == WeaponChange::Locked && *final(self) == *old(self) && final(weapons)@ == old(
                weapons,
            )@,
            old(self).state != PlayerState::Dead && weapon_index < old(weapons)@.len() ==> ({
                &&& final(weapons)@.len() == old(weapons)@.len()
                &&& forall|i: int|
                    0 <= i < old(weapons)@.len() ==> #[trigger] final(weapons)@[i] == (RustWeapon {
                        state: WeaponState::Ready,
                        ..old(weapons)@[i]
                    })
                &&& weapon_index == old(self).current_weapon_index ==> r == WeaponChange::Same
                    && *final(self) == old(self).moved(PlayerState::Guard, 100, true)
                &&& weapon_index != old(self).current_weapon_index ==> r == WeaponChange::Changed
                    && *final(self) == (RustPlayer {
                    current_weapon_index: weapon_index,
                    ..old(self).moved(PlayerState::Guard, 75, false)
                })
            }),
    {
        if self.state == PlayerState::Dead {
            return WeaponChange::Ignored;
        }
        let weapon_count = weapons.len();
        if weapon_index >= weapon_count as i32 {
            return WeaponChange::Locked;
        }
        let mut i: usize = 0;
        while i < weapon_count
            invariant
                weapon_count == old(weapons)@.len(),
                weapons@.len() == weapon_count,
                i <= weapon_count,
                forall|j: int|
                    0 <= j < i ==> #[trigger] weapons@[j] == (RustWeapon {
                        state: WeaponState::Ready,
                        ..old(weapons)@[j]
                    }),
                forall|j: int| i <= j < weapon_count ==> #[trigger] weapons@[j] == old(weapons)@[j],
            decreases weapon_count - i,
        {
            let mut w = weapons[i];
            if i as i32 == weapon_index {
                w.weapon_ready();
            } else {
                w.stop_reload();
            }
            weapons.set(i, w);
            i = i + 1;
        }
        self.state = PlayerState::Guard;
        self.guard();
        if weapon_index == self.current_weapon_index {
            return WeaponChange::Same;
        }
        self.speed_percent = 75;
        self.weighted = false;
        self.current_weapon_index = weapon_index;
        WeaponChange::Changed
    }

    /// Whether `weapon` is still to be unlocked: its slot lies beyond the
    /// `weapon_count` weapons the player holds (the engine then loads it and
    /// takes it in hand).
    pub fn unlock_weapon(&self, weapon: UnlockableWeapon, weapon_count: i32) -> (r: bool)
        ensures
            r == (weapon_count <= spec_weapon_index(weapon)),
    {
        !(weapon_count > weapon.index())
    }

    /// The camera zoom (in percent) that a scoped weapon brings, by its name.
    pub fn zoom(weapon_name: &String) -> (r: Option<u32>)
        ensures
            r == (if weapon_name@ == "M95"@ || weapon_name@ == "SKULL-5"@ {
                Some(50u32)
            } else if weapon_name@ == "AWP"@ || weapon_name@ == "SKULL-6"@ {
                Some(65u32)
            } else if weapon_name@ == "AK47-60R"@ || weapon_name@ == "M32"@ {
                Some(80u32)
            } else if weapon_name@ == "RPG-7"@ {
                Some(84u32)
            } else {
                None::<u32>
            }),
    {
        if *weapon_name == "M95".to_owned() || *weapon_name == "SKULL-5".to_owned() {
            Some(50)
        } else if *weapon_name == "AWP".to_owned() || *weapon_name == "SKULL-6".to_owned() {
            Some(65)
        } else if *weapon_name == "AK47-60R".to_owned() || *weapon_name == "M32".to_owned() {
            Some(80)
        } else if *weapon_name == "RPG-7".to_owned() {
            Some(84)
        } else {
            None
        }
    }
}

/// Dying and being born again costs one life and gives full health back, and
/// nothing else of the player changes but its state, its speed and its count
/// of deaths.
pub proof fn law_death_then_birth(p: RustPlayer)
    requires
        p.state != PlayerState::Dead,
        p.current_lives > 0,
    ensures
        p.killed().born_again() == (RustPlayer {
            current_lives: (p.current_lives - 1) as u32,
            current_health: p.health,
            state: PlayerState::Born,
            speed_percent: 100,
            weighted: true,
            died: add64(p.died, 1),
            ..p
        }),
{
}

/// After the game is over, continuing brings the player back with as many
/// lives left as were granted (when that count can still grow).
pub proof fn law_continue_restores_lives(p: RustPlayer)
    requires
        p.state == PlayerState::Dead,
        p.lives < u32::MAX,
    ensures
        (RustPlayer { current_lives: (p.lives + 1) as u32, ..p }).born_again().current_lives
            == p.lives,
        (RustPlayer { current_lives: (p.lives + 1) as u32, ..p }).born_again().current_health
            == p.health,
{
}

/// Turning to guard: a player that is dead, knocked, reloading or swinging
/// the knife stays as it is; in any other state it stands on guard at full
/// (weighted) speed.
pub proof fn law_guard_states(p: RustPlayer)
    ensures
        guard_blocked(p.state) <==> (p.state == PlayerState::Dead || p.state == PlayerState::Impact
            || p.state == PlayerState::Reload || p.state == PlayerState::Reloading || p.state
            == PlayerState::Chop),
        p.state == PlayerState::Dead ==> p.guarded() == p,
        (p.state == PlayerState::Born || p.state == PlayerState::Guard || p.state
            == PlayerState::Run || p.state == PlayerState::Shoot || p.state == PlayerState::Hit)
            ==> p.guarded().state == PlayerState::Guard && p.guarded().speed_percent == 100,
{
}

/// Running, shooting and reloading are refused exactly to a player that is
/// dead, knocked or swinging the knife; the knife, a round going in and the
/// end of a reload exactly to one that is dead or knocked.
pub proof fn law_blocked_states(s: PlayerState)
    ensures
        action_blocked(s) <==> (s == PlayerState::Dead || s == PlayerState::Impact || s
            == PlayerState::Chop),
        helpless(s) <==> (s == PlayerState::Dead || s == PlayerState::Impact),
{
}

/// Kill counters wrap at 2^32 and the score and deaths at 2^64: each adds
/// what it is given, starting again from zero past the top.
pub proof fn law_counters_wrap(x: u32, y: u64, n: u64)
    ensures
        x < 0xffff_ffff ==> inc32(x) == x + 1,
        x == 0xffff_ffff ==> inc32(x) == 0,
        y + n <= 0xffff_ffff_ffff_ffff ==> add64(y, n) == y + n,
        y + n > 0xffff_ffff_ffff_ffff ==> add64(y, n) == y + n - 0x1_0000_0000_0000_0000,
{
}

} // verus!
