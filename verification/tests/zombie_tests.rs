use salvation::zombie::{
    sidestep, boss_bump_damage, BossBumpArea, first_noise, guard_volume_db, rampage_volume_db, BodyCount, HitResult,
    NoiseSource, RustBoomer, RustBoss, RustPitcher, RustZombie, ZombieAnimation, ZombieMove,
    ZombieTick, BOSS_MAX_HEALTH, ZOMBIE_MAX_BODY_COUNT,
};
use salvation::{PlayerState, ZombieState};

#[test]
fn body_count_wraps_like_the_engine_counter() {
    let mut b = BodyCount::new();
    b.add();
    b.add();
    assert_eq!(b.count, 2);
    b.remove();
    assert_eq!(b.count, 1);
    b.remove();
    b.remove();
    assert_eq!(b.count, u32::MAX);
    b.add();
    assert_eq!(b.count, 0);
    b.count = 60;
    assert!(b.is_full(ZOMBIE_MAX_BODY_COUNT));
    b.count = 59;
    assert!(!b.is_full(ZOMBIE_MAX_BODY_COUNT));
}

#[test]
fn volumes_follow_live_count() {
    assert_eq!(guard_volume_db(39), -20);
    assert_eq!(guard_volume_db(40), -30);
    assert_eq!(rampage_volume_db(19), -12);
    assert_eq!(rampage_volume_db(20), -25);
    assert_eq!(rampage_volume_db(40), -40);
}

#[test]
fn zombie_moves() {
    let mut z = RustZombie::new();
    assert_eq!((z.state, z.speed_percent, z.health), (ZombieState::Guard, 20, 100));
    assert!(z.run());
    assert_eq!((z.state, z.speed_percent), (ZombieState::Run, 135));
    assert!(z.rampage());
    assert_eq!((z.state, z.speed_percent), (ZombieState::Rampage, 160));
    assert!(z.attack());
    assert_eq!((z.state, z.speed_percent), (ZombieState::Attack, 50));
    assert!(z.guard());
    z.attackable = false;
    assert!(!z.attack());
    assert_eq!(z.state, ZombieState::Guard);
}

#[test]
fn zombie_hit_then_killed() {
    let mut z = RustZombie::new();
    let mut bodies = BodyCount::new();
    let r = z.on_hit(30, &mut bodies);
    assert_eq!(r, HitResult { killed: false, transitioned: true });
    assert_eq!((z.health, z.state, z.speed_percent), (70, ZombieState::Hit, 10));
    let r = z.on_hit(100, &mut bodies);
    assert_eq!(r, HitResult { killed: true, transitioned: true });
    assert_eq!((z.health, z.state, z.speed_percent), (0, ZombieState::Dead, 0));
    assert_eq!(bodies.count, 1);
    // A hit on a corpse changes nothing and counts no second corpse.
    let r = z.on_hit(10, &mut bodies);
    assert_eq!(r, HitResult { killed: true, transitioned: false });
    assert_eq!(bodies.count, 1);
}

#[test]
fn dead_zombie_stays_dead() {
    let mut z = RustZombie::new();
    let mut bodies = BodyCount::new();
    assert!(z.die(&mut bodies));
    assert!(!z.die(&mut bodies));
    assert!(!z.run());
    assert!(!z.guard());
    assert!(!z.rampage());
    assert!(!z.hit());
    assert!(!z.attack());
    assert_eq!((z.state, z.speed_percent), (ZombieState::Dead, 0));
    assert_eq!(bodies.count, 1);
    z.clean_body(&mut bodies);
    assert_eq!(bodies.count, 0);
}

#[test]
fn invincible_zombie_keeps_health() {
    let mut z = RustZombie::new();
    z.invincible = true;
    let mut bodies = BodyCount::new();
    let r = z.on_hit(500, &mut bodies);
    assert_eq!(r, HitResult { killed: false, transitioned: true });
    assert_eq!(z.health, 100);
    assert_eq!(z.state, ZombieState::Hit);
}

#[test]
fn zombie_tick_decisions() {
    let mut z = RustZombie::new();
    let bodies = BodyCount::new();
    assert_eq!(z.tick(false, PlayerState::Guard, &bodies), ZombieTick::Think);
    assert_eq!(z.frame_counter, 1);
    z.state = ZombieState::Attack;
    assert_eq!(z.tick(false, PlayerState::Guard, &bodies), ZombieTick::Hold);
    // The third frame is skipped.
    assert_eq!(z.tick(false, PlayerState::Guard, &bodies), ZombieTick::Skip);
    assert_eq!(z.tick(true, PlayerState::Guard, &bodies), ZombieTick::Skip);
    z.state = ZombieState::Run;
    assert_eq!(z.tick(false, PlayerState::Impact, &bodies), ZombieTick::Hold);
    assert_eq!(z.tick(false, PlayerState::Dead, &bodies), ZombieTick::Skip);
    assert_eq!(z.tick(false, PlayerState::Dead, &bodies), ZombieTick::MoveBack);
    assert_eq!((z.state, z.speed_percent), (ZombieState::Guard, 20));
}

#[test]
fn dead_zombie_tick_cleans_when_full() {
    let mut z = RustZombie::new();
    let mut bodies = BodyCount::new();
    z.die(&mut bodies);
    assert_eq!(z.tick(false, PlayerState::Guard, &bodies), ZombieTick::Rest);
    bodies.count = ZOMBIE_MAX_BODY_COUNT;
    assert_eq!(z.tick(false, PlayerState::Guard, &bodies), ZombieTick::CleanBody);
}

#[test]
fn zombie_thinks() {
    let mut z = RustZombie::new();
    assert_eq!(z.think(true, true, true, true, true, true), ZombieMove::Flash);
    assert_eq!(z.state, ZombieState::Guard);
    assert_eq!(z.think(false, true, false, false, false, false), ZombieMove::Charge);
    assert_eq!((z.state, z.speed_percent), (ZombieState::Rampage, 160));
    assert_eq!(z.think(false, false, false, true, true, false), ZombieMove::Pursue);
    assert_eq!((z.state, z.speed_percent), (ZombieState::Run, 135));
    assert_eq!(z.think(false, false, false, false, false, true), ZombieMove::Wander);
    assert_eq!(z.state, ZombieState::Guard);
    z.rotatable = false;
    assert_eq!(z.think(false, false, false, true, false, true), ZombieMove::Forward);
    assert_eq!((z.state, z.speed_percent), (ZombieState::Guard, 20));
}

#[test]
fn rampage_run_needs_a_living_player() {
    assert!(RustZombie::is_rampage_run(PlayerState::Run, true));
    assert!(!RustZombie::is_rampage_run(PlayerState::Dead, true));
    assert!(!RustZombie::is_rampage_run(PlayerState::Guard, false));
}

#[test]
fn boomer_lifecycle() {
    let mut b = RustBoomer::new();
    assert!(b.detonable);
    assert!(b.run());
    assert_eq!((b.state, b.speed_percent), (ZombieState::Run, 135));
    let r = b.on_hit(40, true);
    assert_eq!(r, (HitResult { killed: false, transitioned: true }, false));
    assert_eq!((b.health, b.state), (60, ZombieState::Hit));
    b.dying();
    assert_eq!((b.state, b.speed_percent), (ZombieState::Attack, 20));
    let r = b.on_hit(60, true);
    assert_eq!(r, (HitResult { killed: true, transitioned: true }, true));
    assert_eq!(b.state, ZombieState::Dead);
    assert_eq!(b.die(true), None);
    assert_eq!(b.on_hit(5, true), (HitResult { killed: true, transitioned: false }, false));
    assert!(!b.rampage());
}

#[test]
fn dying_marks_even_a_dead_boomer_attacking() {
    let mut b = RustBoomer::new();
    assert_eq!(b.die(true), Some(true));
    b.dying();
    assert_eq!((b.state, b.speed_percent), (ZombieState::Attack, 0));
}

#[test]
fn boomer_before_load_uncounts_its_corpse() {
    let mut b = RustBoomer::new();
    let mut bodies = BodyCount::new();
    bodies.add();
    bodies.add();
    assert!(b.before_load(true, &mut bodies));
    assert_eq!(bodies.count, 1);
    assert!(!b.before_load(false, &mut bodies));
    assert_eq!(bodies.count, 1);
}

#[test]
fn boss_lifecycle() {
    let mut b = RustBoss::new();
    let mut bodies = BodyCount::new();
    assert_eq!((b.health, b.state, b.speed_percent), (BOSS_MAX_HEALTH, ZombieState::Guard, 75));
    assert_eq!(b.hp_percent(), 100);
    let r = b.on_hit(3600, &mut bodies);
    assert_eq!(r, HitResult { killed: false, transitioned: true });
    assert_eq!((b.state, b.speed_percent), (ZombieState::Hit, 20));
    assert_eq!(b.hp_percent(), 50);
    assert!(b.bump());
    assert_eq!((b.state, b.speed_percent), (ZombieState::Run, 150));
    assert!(!b.bump());
    assert!(b.attack());
    assert_eq!((b.state, b.speed_percent), (ZombieState::Attack, 75));
    let r = b.on_hit(4000, &mut bodies);
    assert_eq!(r, HitResult { killed: true, transitioned: true });
    assert_eq!(b.state, ZombieState::Dead);
    assert_eq!(bodies.count, 1);
    assert_eq!(b.hp_percent(), 0);
}

#[test]
fn boss_charge_ignores_death() {
    let mut b = RustBoss::new();
    let mut bodies = BodyCount::new();
    assert!(b.die(&mut bodies));
    assert!(!b.guard());
    assert!(b.bump());
    assert_eq!((b.state, b.speed_percent), (ZombieState::Run, 150));
}

#[test]
fn boss_hp_percent_rounds_down() {
    let mut b = RustBoss::new();
    b.health = 71;
    assert_eq!(b.hp_percent(), 0);
    b.health = 72;
    assert_eq!(b.hp_percent(), 1);
}

#[test]
fn boss_bump_knocks_only_when_ready() {
    assert_eq!(boss_bump_damage(true, ZombieState::Run, true, true), Some(32));
    assert_eq!(boss_bump_damage(false, ZombieState::Run, true, true), None);
    assert_eq!(boss_bump_damage(true, ZombieState::Dead, true, true), None);
    assert_eq!(boss_bump_damage(true, ZombieState::Run, false, true), None);
    assert_eq!(boss_bump_damage(true, ZombieState::Run, true, false), None);
}

#[test]
fn pitcher_attack_and_tick() {
    let mut p = RustPitcher::new();
    let bodies = BodyCount::new();
    assert!(p.attack());
    assert_eq!((p.state, p.speed_percent), (ZombieState::Attack, 0));
    p.set_attacking(true);
    assert_eq!(p.tick(false, PlayerState::Guard, &bodies, false), ZombieTick::Hold);
    p.set_attacking(false);
    assert_eq!(p.tick(false, PlayerState::Guard, &bodies, true), ZombieTick::Hold);
    assert_eq!(p.tick(false, PlayerState::Guard, &bodies, false), ZombieTick::Think);
    assert_eq!(p.tick(false, PlayerState::Impact, &bodies, false), ZombieTick::Skip);
    assert_eq!(p.tick(false, PlayerState::Dead, &bodies, false), ZombieTick::MoveBack);
    assert_eq!((p.state, p.speed_percent), (ZombieState::Guard, 20));
}

#[test]
fn pitcher_thinks() {
    let mut p = RustPitcher::new();
    assert_eq!(
        p.think(false, true, true, false, false, false, None, false),
        ZombieMove::Charge
    );
    assert_eq!((p.state, p.speed_percent), (ZombieState::Rampage, 160));
    // Alarmed but within range: no charge.
    assert_eq!(
        p.think(false, false, true, false, true, false, Some(NoiseSource::Weapon), false),
        ZombieMove::Investigate
    );
    assert_eq!((p.state, p.speed_percent), (ZombieState::Run, 150));
    assert_eq!(
        p.think(false, false, false, false, false, false, None, false),
        ZombieMove::Forward
    );
    assert_eq!(p.think(true, false, false, false, false, false, None, false), ZombieMove::Flash);
}

#[test]
fn pitcher_hears_noise() {
    let mut p = RustPitcher::new();
    p.run();
    assert!(p.alarmed_by_sound(true));
    assert_eq!(p.state, ZombieState::Run);
    assert!(!p.alarmed_by_sound(false));
    assert_eq!((p.state, p.speed_percent), (ZombieState::Guard, 20));
}

#[test]
fn pitcher_killed_counts_a_corpse() {
    let mut p = RustPitcher::new();
    let mut bodies = BodyCount::new();
    let r = p.on_hit(100, &mut bodies);
    assert_eq!(r, HitResult { killed: true, transitioned: true });
    assert_eq!(bodies.count, 1);
    assert!(!p.attack());
}

#[test]
fn first_noise_order() {
    assert_eq!(first_noise(true, true, true, true, true), Some(NoiseSource::Grenade));
    assert_eq!(first_noise(false, true, true, true, true), Some(NoiseSource::Boomer));
    assert_eq!(first_noise(false, false, true, true, true), Some(NoiseSource::ZombieGrenade));
    assert_eq!(first_noise(false, false, false, true, true), Some(NoiseSource::Weapon));
    assert_eq!(first_noise(false, false, false, false, true), Some(NoiseSource::Player));
    assert_eq!(first_noise(false, false, false, false, false), None);
}

#[test]
fn attack_animation_hurts_on_its_frames() {
    let mut a = ZombieAnimation::new();
    a.set_hurt_frames(vec![3, 5]);
    a.set_damage(5);
    a.on_change_zombie_state(ZombieState::Attack);
    a.on_player_in_area(true);
    assert!(a.is_hurt_frame(5));
    assert!(!a.is_hurt_frame(4));
    assert_eq!(a.on_frame_changed(PlayerState::Guard, true, 3), Some(5));
    assert_eq!(a.on_frame_changed(PlayerState::Guard, true, 4), None);
    assert_eq!(a.on_frame_changed(PlayerState::Dead, true, 3), None);
    assert_eq!(a.on_frame_changed(PlayerState::Guard, false, 3), None);
    a.on_player_in_area(false);
    assert_eq!(a.on_frame_changed(PlayerState::Guard, true, 3), None);
}

#[test]
fn attack_animation_loops_while_player_lives() {
    let mut a = ZombieAnimation::new();
    assert_eq!(a.attack_loop(PlayerState::Guard), None);
    a.on_change_zombie_state(ZombieState::Attack);
    assert_eq!(a.attack_loop(PlayerState::Guard), Some(true));
    assert_eq!(a.attack_loop(PlayerState::Dead), Some(false));
}

#[test]
fn boomer_explodes_only_when_detonable_and_heard() {
    let mut b = RustBoomer::new();
    b.detonable = false;
    assert_eq!(b.die(true), Some(false));
    let mut c = RustBoomer::new();
    assert_eq!(c.die(false), Some(false));
    let mut d = RustBoomer::new();
    d.detonable = false;
    assert_eq!(d.on_hit(100, true), (HitResult { killed: true, transitioned: true }, false));
}

#[test]
fn boomer_thinks_like_a_zombie() {
    let mut b = RustBoomer::new();
    assert_eq!(b.think(true, false, false, false, false, false), ZombieMove::Flash);
    assert_eq!(b.think(false, false, true, false, false, false), ZombieMove::Charge);
    assert_eq!((b.state, b.speed_percent), (ZombieState::Rampage, 160));
    assert_eq!(b.think(false, false, false, true, true, false), ZombieMove::Pursue);
    assert_eq!((b.state, b.speed_percent), (ZombieState::Run, 135));
    assert_eq!(b.think(false, false, false, false, false, true), ZombieMove::Wander);
    assert_eq!(b.state, ZombieState::Guard);
    b.rotatable = false;
    assert_eq!(b.think(false, false, false, false, false, true), ZombieMove::Forward);
}

#[test]
fn pitcher_corpse_is_cleaned() {
    let mut p = RustPitcher::new();
    let mut bodies = BodyCount::new();
    p.die(&mut bodies);
    assert_eq!(bodies.count, 1);
    p.clean_body(&mut bodies);
    assert_eq!(bodies.count, 0);
    assert_eq!(p.state, ZombieState::Dead);
}

#[test]
fn boss_tick_decisions() {
    let mut b = RustBoss::new();
    let mut bodies = BodyCount::new();
    assert_eq!(b.tick(true, PlayerState::Guard, &bodies), ZombieTick::Skip);
    assert_eq!(b.tick(false, PlayerState::Guard, &bodies), ZombieTick::Think);
    assert_eq!(b.tick(false, PlayerState::Impact, &bodies), ZombieTick::Hold);
    b.bump();
    assert_eq!(b.tick(false, PlayerState::Dead, &bodies), ZombieTick::MoveBack);
    assert_eq!((b.state, b.speed_percent), (ZombieState::Guard, 75));
    b.attack();
    assert_eq!(b.tick(false, PlayerState::Guard, &bodies), ZombieTick::Hold);
    b.die(&mut bodies);
    assert_eq!(b.tick(false, PlayerState::Guard, &bodies), ZombieTick::Rest);
    bodies.count = salvation::zombie::BOSS_MAX_BODY_COUNT;
    assert_eq!(b.tick(false, PlayerState::Guard, &bodies), ZombieTick::CleanBody);
    b.clean_body(&mut bodies);
    assert_eq!(bodies.count, salvation::zombie::BOSS_MAX_BODY_COUNT - 1);
}

#[test]
fn boss_thinks() {
    let mut b = RustBoss::new();
    assert_eq!(b.think(true, true), ZombieMove::Flash);
    assert_eq!(b.think(false, false), ZombieMove::Charge);
    assert_eq!((b.state, b.speed_percent), (ZombieState::Run, 150));
    assert_eq!(b.think(false, true), ZombieMove::Pursue);
    assert_eq!((b.state, b.speed_percent), (ZombieState::Guard, 75));
    assert!(b.move_back());
}

#[test]
fn sidestep_sides() {
    assert!(sidestep(true, false, true, true, false));
    assert!(sidestep(false, true, true, false, false));
    assert!(!sidestep(false, false, true, false, true));
    assert!(!sidestep(false, false, false, true, true));
    assert!(sidestep(false, false, false, false, true));
    assert!(!sidestep(false, false, false, false, false));
}

#[test]
fn boss_knocks_at_most_once_per_cooldown() {
    let mut a = BossBumpArea::new(10_000);
    a.on_change_zombie_state(ZombieState::Run);
    // The first knock comes at once.
    assert_eq!(a.on_area_2d_body_entered(true, true, 5), Some(32));
    assert_eq!(a.last_bump_ms, Some(5));
    // Within the cooldown nothing happens and the last knock stays.
    assert_eq!(a.on_area_2d_body_entered(true, true, 9_999), None);
    assert_eq!(a.last_bump_ms, Some(5));
    // A clock that reads earlier counts as no time passed.
    assert_eq!(a.on_area_2d_body_entered(true, true, 1), None);
    assert_eq!(a.on_area_2d_body_entered(true, true, 10_005), Some(32));
    assert_eq!(a.last_bump_ms, Some(10_005));
}

#[test]
fn boss_knocks_only_the_player_when_living_and_collidable() {
    let mut a = BossBumpArea::new(10_000);
    assert_eq!(a.on_area_2d_body_entered(false, true, 0), None);
    assert_eq!(a.on_area_2d_body_entered(true, false, 0), None);
    a.on_change_zombie_state(ZombieState::Dead);
    assert_eq!(a.on_area_2d_body_entered(true, true, 0), None);
    assert_eq!(a.last_bump_ms, None);
}
