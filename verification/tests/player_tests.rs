use salvation::level::UnlockableWeapon;
use salvation::player::{
    frame_action, weapon_slot_for_digit, DeathOutcome, FrameAction, PlayerHit, RustPlayer,
    ShootOutcome, WeaponChange, GRENADE_DAMAGE, KNIFE_DAMAGE,
};
use salvation::weapon::{RustWeapon, WeaponSounds};
use salvation::{PlayerState, WeaponState};

#[test]
fn new_player() {
    let p = RustPlayer::new();
    assert_eq!((p.lives, p.current_lives, p.health, p.current_health), (3, 3, 100, 100));
    assert_eq!(p.get_state(), PlayerState::Born);
    assert_eq!(p.current_level_up_barrier, 2000);
    assert_eq!((p.get_score(), p.get_died(), p.get_kill_count(), p.get_kill_boss_count()), (0, 0, 0, 0));
}

#[test]
fn frame_action_priority() {
    assert_eq!(frame_action(true, true, true, true), FrameAction::Shoot);
    assert_eq!(frame_action(false, true, true, true), FrameAction::Chop);
    assert_eq!(frame_action(false, false, true, true), FrameAction::Run);
    assert_eq!(frame_action(false, false, true, false), FrameAction::Nothing);
    assert_eq!(frame_action(false, false, false, true), FrameAction::Nothing);
}

#[test]
fn digit_keys_select_slots() {
    assert_eq!(weapon_slot_for_digit(1), Some(0));
    assert_eq!(weapon_slot_for_digit(9), Some(8));
    assert_eq!(weapon_slot_for_digit(0), Some(9));
    assert_eq!(weapon_slot_for_digit(10), None);
}

#[test]
fn moves_and_speeds() {
    let mut p = RustPlayer::new();
    let mut w = RustWeapon::new(30);
    assert!(p.guard());
    assert_eq!((p.state, p.speed_percent, p.weighted), (PlayerState::Guard, 100, true));
    assert!(p.run(&mut w));
    assert_eq!((p.state, p.speed_percent), (PlayerState::Run, 150));
    assert!(p.hit());
    assert_eq!((p.state, p.speed_percent), (PlayerState::Hit, 50));
}

#[test]
fn hit_hurts_then_kills() {
    let mut p = RustPlayer::new();
    let mut w = RustWeapon::new(30);
    assert_eq!(p.on_hit(&mut w, 30), PlayerHit::Hurt { transitioned: true });
    assert_eq!((p.current_health, p.state, p.speed_percent), (70, PlayerState::Hit, 50));
    let r = p.on_hit(&mut w, 200);
    assert_eq!(r, PlayerHit::Killed { death: Some(DeathOutcome::Respawn) });
    assert_eq!((p.current_health, p.state, p.speed_percent), (0, PlayerState::Dead, 0));
    assert_eq!(p.get_died(), 1);
    // A dead player is not killed twice.
    assert_eq!(p.on_hit(&mut w, 10), PlayerHit::Killed { death: None });
    assert_eq!(p.get_died(), 1);
}

#[test]
fn invincible_player_keeps_health() {
    let mut p = RustPlayer::new();
    p.invincible = true;
    let mut w = RustWeapon::new(30);
    assert_eq!(p.on_hit(&mut w, 1000), PlayerHit::Hurt { transitioned: true });
    assert_eq!(p.current_health, 100);
}

#[test]
fn death_then_birth_costs_a_life() {
    let mut p = RustPlayer::new();
    let mut w = RustWeapon::new(30);
    w.ammo = 3;
    w.reload(WeaponSounds::silent());
    assert_eq!(p.die(&mut w), Some(DeathOutcome::Respawn));
    assert_eq!(w.state, WeaponState::Ready);
    assert_eq!(p.die(&mut w), None);
    assert!(p.born());
    assert_eq!((p.current_lives, p.current_health, p.state), (2, 100, PlayerState::Born));
    assert!(!p.born());
}

#[test]
fn last_life_ends_the_game() {
    let mut p = RustPlayer::new();
    let mut w = RustWeapon::new(30);
    p.current_lives = 0;
    assert_eq!(p.die(&mut w), Some(DeathOutcome::GameOver));
    assert!(!p.born());
    assert_eq!(p.state, PlayerState::Dead);
}

#[test]
fn continuing_restores_granted_lives() {
    let mut p = RustPlayer::new();
    let mut w = RustWeapon::new(30);
    p.current_lives = 0;
    p.current_health = 5;
    p.die(&mut w);
    assert!(p.reborn());
    assert_eq!((p.current_lives, p.current_health, p.state), (3, 100, PlayerState::Born));
    // Continuing a living player only refreshes its lives.
    assert!(!p.reborn());
    assert_eq!(p.current_lives, 4);
}

#[test]
fn shooting() {
    let mut p = RustPlayer::new();
    let mut w = RustWeapon::new(30);
    let silent = WeaponSounds::silent();
    assert_eq!(p.shoot(&mut w, false, silent), ShootOutcome::Fire { allowed: true });
    assert_eq!((p.state, p.speed_percent), (PlayerState::Shoot, 50));
    assert_eq!(p.shoot(&mut w, true, silent), ShootOutcome::Fire { allowed: false });
    w.ammo = 0;
    assert_eq!(p.shoot(&mut w, false, silent), ShootOutcome::Reload { started: true });
    assert_eq!((p.state, p.speed_percent), (PlayerState::Reload, 75));
    assert_eq!(w.state, WeaponState::Reloading);
    assert_eq!(p.shoot(&mut w, false, silent), ShootOutcome::Reload { started: false });
}

#[test]
fn reload_flow() {
    let mut p = RustPlayer::new();
    let mut w = RustWeapon::new(30);
    let silent = WeaponSounds::silent();
    assert!(!p.reload(&mut w, silent));
    w.ammo = 12;
    assert!(p.reload(&mut w, silent));
    assert_eq!((p.state, p.speed_percent), (PlayerState::Reload, 75));
    assert!(!p.guard());
    assert!(p.reloading());
    assert_eq!(p.state, PlayerState::Reloading);
    assert!(p.reloaded());
    assert_eq!((p.state, p.speed_percent), (PlayerState::Guard, 100));
}

#[test]
fn knife_and_grenade() {
    let mut p = RustPlayer::new();
    let mut w = RustWeapon::new(30);
    assert_eq!(p.chop(&mut w, true), None);
    assert_eq!(p.chop(&mut w, false), Some(KNIFE_DAMAGE));
    assert_eq!((p.state, p.speed_percent, p.weighted), (PlayerState::Chop, 75, false));
    assert!(!p.run(&mut w));
    assert!(p.chopped());
    assert_eq!(p.state, PlayerState::Guard);
    assert!(!p.chopped());
    assert_eq!(p.throw_grenade(true), None);
    assert_eq!(p.throw_grenade(false), Some(GRENADE_DAMAGE));
    p.upgrade_damage(20);
    assert_eq!(p.throw_grenade(false), Some(242));
}

#[test]
fn boss_charge_throws_the_player() {
    let mut p = RustPlayer::new();
    let mut w = RustWeapon::new(30);
    assert!(p.on_impact(&mut w, 32));
    assert_eq!((p.current_health, p.state, p.speed_percent), (68, PlayerState::Impact, 125));
    assert!(p.impacting());
    assert!(!p.guard());
    assert!(p.impacted());
    assert_eq!(p.state, PlayerState::Guard);
    assert!(!p.on_impact(&mut w, 500));
    assert_eq!(p.state, PlayerState::Dead);
    assert!(!p.on_impact(&mut w, 1));
}

#[test]
fn score_and_level_up() {
    let mut p = RustPlayer::new();
    p.add_score(1999);
    assert!(!p.level_up(20, 2200));
    p.add_score(1);
    assert!(p.level_up(20, 2200));
    assert_eq!(p.get_score(), 2020);
    assert_eq!((p.level_up_barrier, p.current_level_up_barrier), (2200, 4200));
    assert!(!p.level_up(20, 2420));
}

#[test]
fn counters_wrap() {
    let mut p = RustPlayer::new();
    p.add_kill_count();
    p.add_kill_boss_count();
    assert_eq!((p.get_kill_count(), p.get_kill_boss_count()), (1, 1));
    p.kill_count = u32::MAX;
    p.add_kill_count();
    assert_eq!(p.get_kill_count(), 0);
    p.score = u64::MAX;
    p.add_score(2);
    assert_eq!(p.get_score(), 1);
}

#[test]
fn upgrades() {
    let mut p = RustPlayer::new();
    assert_eq!(p.upgrade_damage(20), 22);
    assert_eq!(p.damage, 2);
    p.upgrade_health();
    assert_eq!((p.health, p.current_health), (110, 110));
    p.upgrade_lives();
    assert_eq!((p.lives, p.current_lives), (4, 4));
}

#[test]
fn changing_weapons() {
    let mut p = RustPlayer::new();
    let mut weapons = vec![RustWeapon::new(12), RustWeapon::new(7)];
    weapons[0].state = WeaponState::Reloading;
    assert_eq!(p.change_weapon(&mut weapons, 5), WeaponChange::Locked);
    assert_eq!(p.change_weapon(&mut weapons, 1), WeaponChange::Changed);
    assert_eq!(p.current_weapon_index, 1);
    assert_eq!((p.state, p.speed_percent, p.weighted), (PlayerState::Guard, 75, false));
    assert_eq!(weapons[0].state, WeaponState::Ready);
    assert_eq!(p.change_weapon(&mut weapons, 1), WeaponChange::Same);
    assert_eq!((p.speed_percent, p.weighted), (100, true));
    let mut w = RustWeapon::new(30);
    p.die(&mut w);
    assert_eq!(p.change_weapon(&mut weapons, 0), WeaponChange::Ignored);
    assert_eq!(p.current_weapon_index, 1);
}

#[test]
fn unlocking_a_weapon_needs_an_empty_slot() {
    let p = RustPlayer::new();
    assert!(p.unlock_weapon(UnlockableWeapon::Deagle, 1));
    assert!(!p.unlock_weapon(UnlockableWeapon::Deagle, 2));
    assert!(p.unlock_weapon(UnlockableWeapon::Skull5, 17));
}

#[test]
fn scoped_weapons_zoom() {
    assert_eq!(RustPlayer::zoom(&"M95".to_string()), Some(50));
    assert_eq!(RustPlayer::zoom(&"SKULL-5".to_string()), Some(50));
    assert_eq!(RustPlayer::zoom(&"AWP".to_string()), Some(65));
    assert_eq!(RustPlayer::zoom(&"M32".to_string()), Some(80));
    assert_eq!(RustPlayer::zoom(&"RPG-7".to_string()), Some(84));
    assert_eq!(RustPlayer::zoom(&"USP".to_string()), None);
}
