//! A firearm: its magazine, when it may fire, and the reload sequence (clip
//! out, clip or single rounds in, bolt pull), which the engine's sounds pace.
use vstd::prelude::*;
use crate::WeaponState;
use crate::combat::{sat_add_i64, spec_sat_add_i64};

verus! {

pub const MAX_AMMO: i32 = 30;

pub const BULLET_DAMAGE: i64 = 20;

/// Which of the weapon's sounds are playing; each stage of a reload waits
/// for the sound of the stage before.
#[derive(Debug, Clone, Copy, PartialEq, Eq, Structural)]
pub struct WeaponSounds {
    pub deploy: bool,
    pub fire_bolt_pull: bool,
    pub clip_out: bool,
    pub clip_part_in: bool,
    pub clip_in: bool,
    pub reload_bolt_pull: bool,
}

impl WeaponSounds {
    /// No sound playing.
    pub open spec fn spec_silent() -> Self {
        WeaponSounds {
            deploy: false,
            fire_bolt_pull: false,
            clip_out: false,
            clip_part_in: false,
            clip_in: false,
            reload_bolt_pull: false,
        }
    }

    pub fn silent() -> (s: Self)
        ensures
            s == Self::spec_silent(),
    {
        WeaponSounds {
            deploy: false,
            fire_bolt_pull: false,
            clip_out: false,
            clip_part_in: false,
            clip_in: false,
            reload_bolt_pull: false,
        }
    }
}

/// What the reload sequence does next.
#[derive(Debug, Clone, Copy, PartialEq, Eq, Structural)]
pub enum ReloadStep {
    /// Nothing yet.
    Wait,
    /// Play the sound of a single round going in.
    PlayClipPartIn,
    /// Play the sound of the clip going in.
    PlayClipIn,
    /// Play the sound of the bolt being pulled.
    PlayBoltPull,
    /// The reload is complete.
    Finished,
}

/// What a shot leaves behind.
#[derive(Debug, Clone, Copy, PartialEq, Eq, Structural)]
pub struct ShotFollowUp {
    /// The bolt is to be pulled after the shot.
    pub pull_bolt: bool,
    /// The shot is heard by the zombies.
    pub noisy: bool,
}

/// A firearm.
#[derive(Debug, Clone, Copy, PartialEq, Eq, Structural)]
pub struct RustWeapon {
    pub silenced: bool,
    pub damage: i64,
    /// Magazine capacity.
    pub clip: i32,
    /// Whether every shot leaves from all muzzles at once (a shotgun).
    pub explode: bool,
    pub pull_after_deploy: bool,
    pub pull_after_reload: bool,
    pub pull_after_fire: bool,
    /// Whether the weapon is reloaded one round at a time.
    pub reload_part: bool,
    pub state: WeaponState,
    pub ammo: i32,
}

impl RustWeapon {
    /// The magazine holds between nothing and its capacity.
    pub open spec fn wf(self) -> bool {
        0 <= self.ammo <= self.clip
    }

    /// The weapon after one round left it.
    pub open spec fn after_shot(self) -> Self {
        RustWeapon { ammo: (self.ammo - 1) as i32, state: WeaponState::Firing, ..self }
    }

    /// The weapon after one more round went in, never beyond the capacity.
    pub open spec fn after_round_in(self) -> Self {
        RustWeapon {
            ammo: (if self.ammo + 1 <= self.clip {
                self.ammo + 1
            } else {
                self.clip as int
            }) as i32,
            ..self
        }
    }

    /// A weapon as the scene sets it up, with a full magazine of `clip` rounds.
    pub fn new(clip: i32) -> (w: Self)
        requires
            clip >= 0,
        ensures
            w.wf(),
            w.clip == clip,
            w.ammo == clip,
            w.state == WeaponState::Ready,
            w.damage == BULLET_DAMAGE,
            !w.silenced && !w.explode && !w.reload_part,
            !w.pull_after_deploy && !w.pull_after_reload && !w.pull_after_fire,
    {
        RustWeapon {
            silenced: false,
            damage: BULLET_DAMAGE,
            clip,
            explode: false,
            pull_after_deploy: false,
            pull_after_reload: false,
            pull_after_fire: false,
            reload_part: false,
            state: WeaponState::Ready,
            ammo: clip,
        }
    }

    pub fn weapon_ready(&mut self)
        ensures
            *final(self) == (RustWeapon { state: WeaponState::Ready, ..*old(self) }),
    {
        self.state = WeaponState::Ready;
    }

    /// Any reload in progress is broken off (the engine stops the weapon's
    /// sounds) and the weapon is ready.
    pub fn stop_reload(&mut self)
        ensures
            *final(self) == (RustWeapon { state: WeaponState::Ready, ..*old(self) }),
    {
        self.weapon_ready();
    }

    /// Whether the magazine is empty.
    pub fn must_reload(&self) -> (r: bool)
        ensures
            r == (self.ammo == 0),
    {
        self.ammo == 0
    }

    /// The damage of a bullet fired by a player with `player_damage`.
    pub fn bullet_damage(&self, player_damage: i64) -> (r: i64)
        ensures
            r == spec_sat_add_i64(player_damage, self.damage),
    {
        sat_add_i64(player_damage, self.damage)
    }

    /// Whether the weapon may fire now: it needs rounds, a passed cooldown
    /// (`cooling` says it has not passed), no reload unless it reloads round
    /// by round, and none of the deploy, bolt-pull or round-in sounds playing.
    pub open spec fn spec_can_fire(self, cooling: bool, sounds: WeaponSounds) -> bool {
        !(self.ammo == 0 || cooling || (self.state == WeaponState::Reloading && !self.reload_part)
            || sounds.deploy || sounds.fire_bolt_pull || sounds.clip_part_in)
    }

    pub fn can_fire(&self, cooling: bool, sounds: WeaponSounds) -> (r: bool)
        ensures
            r == self.spec_can_fire(cooling, sounds),
    {
        !(self.ammo == 0 || cooling || (self.state == WeaponState::Reloading && !self.reload_part)
            || sounds.deploy || sounds.fire_bolt_pull || sounds.clip_part_in)
    }

    /// A round left the weapon: one round less, the weapon is firing; the
    /// bolt is pulled afterwards when the weapon needs it and rounds remain,
    /// and an unsilenced shot is heard.
    pub fn shot_fired(&mut self) -> (r: ShotFollowUp)
        requires
            old(self).ammo > i32::MIN,
        ensures
            *final(self) == old(self).after_shot(),
            r == (ShotFollowUp {
                pull_bolt: old(self).pull_after_fire && old(self).ammo > 1,
                noisy: !old(self).silenced,
            }),
    {
        let pull_bolt = self.pull_after_fire && self.ammo > 1;
        self.ammo = self.ammo - 1;
        self.state = WeaponState::Firing;
        ShotFollowUp { pull_bolt, noisy: !self.silenced }
    }

    /// The weapon after `fired` rounds left it in one trigger pull: one round
    /// less per round, and firing once any round went.
    pub open spec fn after_shots(self, fired: int) -> Self {
        if fired == 0 {
            self
        } else {
            RustWeapon { ammo: (self.ammo - fired) as i32, state: WeaponState::Firing, ..self }
        }
    }

    /// What the `i`-th round of a trigger pull leaves behind: the bolt is
    /// pulled when the weapon needs it and rounds remain after it, and an
    /// unsilenced shot is heard.
    pub open spec fn follow_up_at(self, i: int) -> ShotFollowUp {
        ShotFollowUp { pull_bolt: self.pull_after_fire && self.ammo - i > 1, noisy: !self.silenced }
    }

    /// The weapon after a trigger pull of which `fired` bullet scenes went
    /// off: nothing happens unless the weapon may fire.
    pub open spec fn trigger_pulled(self, cooling: bool, sounds: WeaponSounds, fired: int) -> Self {
        if self.spec_can_fire(cooling, sounds) {
            self.after_shots(fired)
        } else {
            self
        }
    }

    /// One pull of the trigger. When the weapon may fire, each of its bullet
    /// scenes fires one round (all muzzles at once for a shotgun, one muzzle
    /// otherwise); the engine spawns the bullets and stops at the first scene
    /// that fails, so `fired` scenes went off. The result lists, round by
    /// round, what each shot leaves behind; it is empty when the weapon may
    /// not fire.
    pub fn fire(&mut self, cooling: bool, sounds: WeaponSounds, fired: u32) -> (r: Vec<
        ShotFollowUp,
    >)
        requires
            old(self).spec_can_fire(cooling, sounds) ==> old(self).ammo - fired >= i32::MIN,
        ensures
            *final(self) == old(self).trigger_pulled(cooling, sounds, fired as int),
            r@.len() == (if old(self).spec_can_fire(cooling, sounds) {
                fired as int
            } else {
                0
            }),
            forall|i: int| 0 <= i < r@.len() ==> #[trigger] r@[i] == old(self).follow_up_at(i),
    {
        let mut r: Vec<ShotFollowUp> = Vec::new();
        if !self.can_fire(cooling, sounds) {
            return r;
        }
        let ghost start = *self;
        let mut i: u32 = 0;
        while i < fired
            invariant
                i <= fired,
                start.ammo - fired >= i32::MIN,
                *self == start.after_shots(i as int),
                r@.len() == i,
                forall|j: int| 0 <= j < r@.len() ==> #[trigger] r@[j] == start.follow_up_at(j),
            decreases fired - i,
        {
            let follow_up = self.shot_fired();
            r.push(follow_up);
            i = i + 1;
        }
        r
    }

    /// Starts a reload, unless the magazine is full, a reload is under way,
    /// or a reload sound still plays. The result says whether it started.
    pub fn reload(&mut self, sounds: WeaponSounds) -> (started: bool)
        ensures
            started == !(old(self).clip == old(self).ammo || old(self).state
                == WeaponState::Reloading || sounds.clip_out || (old(self).reload_part
                && sounds.clip_part_in) || sounds.clip_in || (old(self).pull_after_reload
                && sounds.reload_bolt_pull)),
            started ==> *final(self) == (RustWeapon {
                state: WeaponState::Reloading,
                ..*old(self)
            }),
            !started ==> *final(self) == *old(self),
    {
        if self.clip == self.ammo || self.state == WeaponState::Reloading || sounds.clip_out
            || self.reload_part && sounds.clip_part_in || sounds.clip_in || self.pull_after_reload
            && sounds.reload_bolt_pull {
            return false;
        }
        self.state = WeaponState::Reloading;
        true
    }

    /// Whether the reload timer runs on this frame: the magazine is not full
    /// and a reload is under way.
    pub fn reload_in_progress(&self) -> (r: bool)
        ensures
            r == (self.ammo < self.clip && self.state == WeaponState::Reloading),
    {
        !(self.ammo >= self.clip || self.state != WeaponState::Reloading)
    }

    /// The clip came out (`pending` says the reload time has not run out).
    /// A round-by-round weapon starts putting rounds in (unless that sound
    /// already plays); another one puts the clip in once the time has run out.
    pub fn on_clip_out_finished(&self, pending: bool, sounds: WeaponSounds) -> (step: ReloadStep)
        ensures
            step == (if self.reload_part {
                if !sounds.clip_part_in {
                    ReloadStep::PlayClipPartIn
                } else {
                    ReloadStep::Wait
                }
            } else if self.state != WeaponState::Reloading || pending || sounds.clip_in {
                ReloadStep::Wait
            } else {
                ReloadStep::PlayClipIn
            }),
    {
        if self.reload_part {
            if !sounds.clip_part_in {
                return ReloadStep::PlayClipPartIn;
            }
            return ReloadStep::Wait;
        }
        if self.state != WeaponState::Reloading || pending || sounds.clip_in {
            return ReloadStep::Wait;
        }
        ReloadStep::PlayClipIn
    }

    /// A single round went in (`pending` says the time for this round has
    /// not run out). Once the time has run out, one round is added (never
    /// beyond the capacity); the clip sound closes a full magazine, otherwise
    /// the next round follows.
    pub fn on_clip_part_in_finished(&mut self, pending: bool, sounds: WeaponSounds) -> (step:
        ReloadStep)
        requires
            old(self).ammo < i32::MAX,
        ensures
            ({
                let waiting = old(self).state != WeaponState::Reloading || pending
                    || sounds.clip_part_in;
                if waiting {
                    step == ReloadStep::Wait && *final(self) == *old(self)
                } else {
                    &&& *final(self) == old(self).after_round_in()
                    &&& step == (if final(self).ammo == old(self).clip {
                        ReloadStep::PlayClipIn
                    } else {
                        ReloadStep::PlayClipPartIn
                    })
                }
            }),
    {
        if self.state != WeaponState::Reloading || pending || sounds.clip_part_in {
            return ReloadStep::Wait;
        }
        self.ammo = self.ammo + 1;
        if self.ammo > self.clip {
            self.ammo = self.clip;
        }
        if self.ammo == self.clip {
            return ReloadStep::PlayClipIn;
        }
        ReloadStep::PlayClipPartIn
    }

    /// The clip went in: the bolt is pulled next if the weapon needs it,
    /// otherwise the reload completes.
    pub fn on_clip_in_finished(&mut self) -> (step: ReloadStep)
        ensures
            step == (if old(self).state != WeaponState::Reloading {
                ReloadStep::Wait
            } else if old(self).pull_after_reload {
                ReloadStep::PlayBoltPull
            } else {
                ReloadStep::Finished
            }),
            step == ReloadStep::Finished ==> *final(self) == (RustWeapon {
                state: WeaponState::Ready,
                ammo: old(self).clip,
                ..*old(self)
            }),
            step != ReloadStep::Finished ==> *final(self) == *old(self),
    {
        if self.state != WeaponState::Reloading {
            return ReloadStep::Wait;
        }
        if self.pull_after_reload {
            return ReloadStep::PlayBoltPull;
        }
        self.on_bolt_pull_finished();
        ReloadStep::Finished
    }

    /// The bolt was pulled: the reload completes with a full magazine and the
    /// weapon is ready.
    pub fn on_bolt_pull_finished(&mut self)
        ensures
            *final(self) == (RustWeapon {
                state: WeaponState::Ready,
                ammo: old(self).clip,
                ..*old(self)
            }),
    {
        self.weapon_ready();
        self.ammo = self.clip;
    }
}

/// A shot that the weapon may fire leaves the magazine between empty and full.
pub proof fn law_shot_keeps_magazine(w: RustWeapon, cooling: bool, sounds: WeaponSounds)
    requires
        w.wf(),
        w.spec_can_fire(cooling, sounds),
    ensures
        w.after_shot().wf(),
{
}

/// A pull of the trigger fires at most one round per bullet scene: when the
/// magazine holds at least as many rounds as the weapon has bullet scenes
/// (or none), it stays between empty and full and loses at most one round per
/// scene, however many of the scenes went off.
pub proof fn law_trigger_pull_keeps_magazine(
    w: RustWeapon,
    cooling: bool,
    sounds: WeaponSounds,
    scenes: int,
    fired: int,
)
    requires
        w.wf(),
        w.ammo == 0 || scenes <= w.ammo,
        0 <= fired <= scenes,
    ensures
        w.trigger_pulled(cooling, sounds, fired).wf(),
        w.ammo - scenes <= w.trigger_pulled(cooling, sounds, fired).ammo <= w.ammo,
{
}

/// Putting rounds in one by one never overfills the magazine.
pub proof fn law_round_in_keeps_magazine(w: RustWeapon)
    requires
        w.wf(),
    ensures
        w.after_round_in().wf(),
{
}

/// When the weapon may fire: it has rounds, its cooldown has passed, it is
/// not in a clip reload (a round-by-round reload may be broken by a shot),
/// and neither the deploy sound, nor the bolt being pulled after a shot, nor
/// a round going in is heard; the clip and reload-bolt sounds do not stop
/// it. A pull of the trigger that may not fire leaves the weapon as it was.
pub proof fn law_fire_conditions(w: RustWeapon, cooling: bool, sounds: WeaponSounds, fired: int)
    ensures
        w.spec_can_fire(cooling, sounds) <==> (w.ammo != 0 && !cooling && !(w.state
            == WeaponState::Reloading && !w.reload_part) && !sounds.deploy
            && !sounds.fire_bolt_pull && !sounds.clip_part_in),
        sounds.fire_bolt_pull || sounds.deploy || sounds.clip_part_in || cooling || w.ammo == 0
            ==> w.trigger_pulled(cooling, sounds, fired) == w,
        w.spec_can_fire(cooling, sounds) && 0 < fired <= w.ammo ==> w.trigger_pulled(
            cooling,
            sounds,
            fired,
        ).ammo == w.ammo - fired && w.trigger_pulled(cooling, sounds, fired).state
            == WeaponState::Firing,
{
}

/// Each round out takes one from the magazine and leaves the weapon firing;
/// each round in adds one, but never past the capacity; the bolt is pulled
/// after a shot only when the weapon needs it and a round remains after the
/// shot, and only an unsilenced shot is heard.
pub proof fn law_magazine_steps(w: RustWeapon, i: int)
    requires
        w.ammo > i32::MIN,
        w.ammo < i32::MAX,
    ensures
        w.after_shot().ammo == w.ammo - 1,
        w.after_shot().state == WeaponState::Firing,
        w.after_shot().clip == w.clip,
        w.ammo < w.clip ==> w.after_round_in().ammo == w.ammo + 1,
        w.ammo >= w.clip ==> w.after_round_in().ammo == w.clip,
        w.after_round_in().state == w.state,
        w.follow_up_at(i).pull_bolt <==> (w.pull_after_fire && w.ammo - i > 1),
        w.follow_up_at(i).noisy <==> !w.silenced,
{
}

} // verus!
