use salvation::weapon::{ReloadStep, RustWeapon, ShotFollowUp, WeaponSounds, BULLET_DAMAGE};
use salvation::WeaponState;

fn rifle() -> RustWeapon {
    RustWeapon::new(30)
}

fn shotgun(ammo: i32) -> RustWeapon {
    let mut w = RustWeapon::new(5);
    w.reload_part = true;
    w.ammo = ammo;
    w
}

#[test]
fn new_weapon_is_full_and_ready() {
    let w = rifle();
    assert_eq!((w.clip, w.ammo, w.state, w.damage), (30, 30, WeaponState::Ready, BULLET_DAMAGE));
    assert!(!w.must_reload());
}

#[test]
fn firing_conditions() {
    let silent = WeaponSounds::silent();
    let mut w = rifle();
    assert!(w.can_fire(false, silent));
    assert!(!w.can_fire(true, silent));
    let mut deploying = silent;
    deploying.deploy = true;
    assert!(!w.can_fire(false, deploying));
    w.state = WeaponState::Reloading;
    assert!(!w.can_fire(false, silent));
    w.reload_part = true;
    assert!(w.can_fire(false, silent));
    w.ammo = 0;
    assert!(!w.can_fire(false, silent));
    assert!(w.must_reload());
}

#[test]
fn a_shot_takes_one_round() {
    let mut w = rifle();
    let f = w.shot_fired();
    assert_eq!(f, ShotFollowUp { pull_bolt: false, noisy: true });
    assert_eq!((w.ammo, w.state), (29, WeaponState::Firing));
    w.pull_after_fire = true;
    w.silenced = true;
    assert_eq!(w.shot_fired(), ShotFollowUp { pull_bolt: true, noisy: false });
    w.ammo = 1;
    assert_eq!(w.shot_fired(), ShotFollowUp { pull_bolt: false, noisy: false });
    assert_eq!(w.ammo, 0);
}

#[test]
fn bullet_damage_adds_player_damage() {
    let w = rifle();
    assert_eq!(w.bullet_damage(10), 30);
    assert_eq!(w.bullet_damage(i64::MAX), i64::MAX);
}

#[test]
fn reload_refused_when_full_or_busy() {
    let silent = WeaponSounds::silent();
    let mut w = rifle();
    assert!(!w.reload(silent));
    assert_eq!(w.state, WeaponState::Ready);
    w.ammo = 10;
    let mut sounds = silent;
    sounds.clip_out = true;
    assert!(!w.reload(sounds));
    assert!(w.reload(silent));
    assert_eq!(w.state, WeaponState::Reloading);
    assert!(!w.reload(silent));
}

#[test]
fn clip_reload_sequence() {
    let silent = WeaponSounds::silent();
    let mut w = rifle();
    w.ammo = 4;
    assert!(w.reload(silent));
    assert!(w.reload_in_progress());
    assert_eq!(w.on_clip_out_finished(true, silent), ReloadStep::Wait);
    assert_eq!(w.on_clip_out_finished(false, silent), ReloadStep::PlayClipIn);
    assert_eq!(w.on_clip_in_finished(), ReloadStep::Finished);
    assert_eq!((w.ammo, w.state), (30, WeaponState::Ready));
    assert!(!w.reload_in_progress());
}

#[test]
fn reload_with_bolt_pull() {
    let silent = WeaponSounds::silent();
    let mut w = rifle();
    w.pull_after_reload = true;
    w.ammo = 0;
    assert!(w.reload(silent));
    assert_eq!(w.on_clip_in_finished(), ReloadStep::PlayBoltPull);
    assert_eq!(w.ammo, 0);
    w.on_bolt_pull_finished();
    assert_eq!((w.ammo, w.state), (30, WeaponState::Ready));
}

#[test]
fn round_by_round_reload() {
    let silent = WeaponSounds::silent();
    let mut w = shotgun(3);
    assert!(w.reload(silent));
    assert_eq!(w.on_clip_out_finished(false, silent), ReloadStep::PlayClipPartIn);
    assert_eq!(w.on_clip_part_in_finished(true, silent), ReloadStep::Wait);
    assert_eq!(w.ammo, 3);
    assert_eq!(w.on_clip_part_in_finished(false, silent), ReloadStep::PlayClipPartIn);
    assert_eq!(w.ammo, 4);
    assert_eq!(w.on_clip_part_in_finished(false, silent), ReloadStep::PlayClipIn);
    assert_eq!(w.ammo, 5);
}

#[test]
fn round_in_never_overfills() {
    let silent = WeaponSounds::silent();
    let mut w = shotgun(5);
    w.state = WeaponState::Reloading;
    assert_eq!(w.on_clip_part_in_finished(false, silent), ReloadStep::PlayClipIn);
    assert_eq!(w.ammo, 5);
}

#[test]
fn clip_in_outside_reload_waits() {
    let mut w = rifle();
    w.ammo = 3;
    assert_eq!(w.on_clip_in_finished(), ReloadStep::Wait);
    assert_eq!(w.ammo, 3);
}

#[test]
fn stop_reload_makes_ready() {
    let mut w = rifle();
    w.ammo = 2;
    w.reload(WeaponSounds::silent());
    w.stop_reload();
    assert_eq!((w.state, w.ammo), (WeaponState::Ready, 2));
}

#[test]
fn trigger_pull_fires_one_round_per_scene() {
    let mut w = rifle();
    w.pull_after_fire = true;
    w.ammo = 3;
    let r = w.fire(false, WeaponSounds::silent(), 3);
    assert_eq!(w.ammo, 0);
    assert_eq!(w.state, WeaponState::Firing);
    // The bolt is pulled only while rounds remain after the shot.
    assert_eq!(
        r,
        vec![
            ShotFollowUp { pull_bolt: true, noisy: true },
            ShotFollowUp { pull_bolt: true, noisy: true },
            ShotFollowUp { pull_bolt: false, noisy: true },
        ]
    );
}

#[test]
fn trigger_pull_that_may_not_fire_does_nothing() {
    let mut w = rifle();
    let r = w.fire(true, WeaponSounds::silent(), 2);
    assert!(r.is_empty());
    assert_eq!(w, rifle());
    let mut empty = rifle();
    empty.ammo = 0;
    assert!(empty.fire(false, WeaponSounds::silent(), 1).is_empty());
    assert_eq!(empty.ammo, 0);
}

#[test]
fn trigger_pull_with_no_scene_gone_off_keeps_the_weapon() {
    let mut w = rifle();
    w.silenced = true;
    let r = w.fire(false, WeaponSounds::silent(), 0);
    assert!(r.is_empty());
    assert_eq!(w, rifle_silenced());
    let r = w.fire(false, WeaponSounds::silent(), 1);
    assert_eq!(r, vec![ShotFollowUp { pull_bolt: false, noisy: false }]);
    assert_eq!(w.ammo, 29);
}

fn rifle_silenced() -> RustWeapon {
    let mut w = rifle();
    w.silenced = true;
    w
}
