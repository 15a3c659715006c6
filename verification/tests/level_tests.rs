use salvation::level::{
    split_forced_spawns, unlock_weapons, ForcedSpawns, GeneratorRecord, LevelScaling, Music, RustLevel, UnlockableWeapon, Wave, ZombieGenerator,
    BOOMER_MAX_SCREEN_COUNT, BOSS_MAX_SCREEN_COUNT, ZOMBIE_MAX_SCREEN_COUNT,
    ZOMBIE_MAX_SCREEN_COUNT_HELL,
};

fn level() -> RustLevel {
    RustLevel::new(
        ZombieGenerator::new(),
        ZombieGenerator::new(),
        ZombieGenerator::new(),
        ZombieGenerator::new(),
    )
}

fn scaling() -> LevelScaling {
    LevelScaling {
        zombie_total: 30,
        zombie_refresh_count: 3,
        boomer_total: 6,
        boomer_refresh_count: 5,
        pitcher_total: 4,
        pitcher_refresh_count: 1,
        boss_total: 2,
        boss_refresh_count: 1,
    }
}

#[test]
fn generator_defaults() {
    let g = ZombieGenerator::new();
    assert_eq!((g.total, g.refresh_count, g.current_total, g.current_refresh_count), (30, 3, 30, 3));
    assert_eq!((g.refresh_barrier, g.current_refresh_barrier), (40, 40));
    assert_eq!(g.max_screen_count, ZOMBIE_MAX_SCREEN_COUNT);
    assert!(g.timer_stopped);
    assert!(!g.immediate);
}

#[test]
fn wave_spawns_up_to_its_size() {
    let mut g = ZombieGenerator::new();
    g.ready();
    assert!(!g.timer_stopped);
    assert_eq!(g.generate(), Wave { spawned: 3, stopped: false });
    assert_eq!(g.current, 3);
    assert_eq!(g.generate(), Wave { spawned: 3, stopped: false });
    assert_eq!(g.current, 6);
}

#[test]
fn wave_stops_the_spawner_at_its_total() {
    let mut g = ZombieGenerator::new();
    g.ready();
    g.current = 29;
    assert_eq!(g.generate(), Wave { spawned: 1, stopped: true });
    assert_eq!(g.current, 30);
    assert!(g.timer_stopped);
    assert!(!g.start_timer());
    assert!(g.timer_stopped);
}

#[test]
fn wave_is_held_back_between_barriers() {
    let mut g = ZombieGenerator::new();
    g.current_total = 100;
    g.current = 10;
    g.killed = 5;
    // Five kills below the barrier of 40 while five zombies live: no wave.
    assert_eq!(g.generate(), Wave { spawned: 0, stopped: false });
    assert_eq!(g.current, 10);
}

#[test]
fn full_screen_spawns_nothing() {
    let mut g = ZombieGenerator::new();
    g.current_total = 1000;
    g.current = 160;
    assert_eq!(g.generate(), Wave { spawned: 0, stopped: false });
    assert_eq!(g.current, 160);
    assert_eq!(g.hurry(), None);
}

#[test]
fn barrier_moves_past_the_kills() {
    let mut g = ZombieGenerator::new();
    g.killed = 85;
    g.generate();
    assert_eq!(g.current_refresh_barrier, 120);
    assert!(g.current_refresh_barrier > g.killed);
}

#[test]
fn hurry_starts_the_timer_and_brings_a_wave() {
    let mut g = ZombieGenerator::new();
    assert!(g.timer_stopped);
    assert_eq!(g.hurry(), Some(Wave { spawned: 3, stopped: false }));
    assert!(!g.timer_stopped);
}

#[test]
fn timer_controls() {
    let mut g = ZombieGenerator::new();
    g.toggle();
    assert!(!g.timer_stopped);
    g.toggle();
    assert!(g.timer_stopped);
    assert!(g.refresh_timer(false, true));
    assert!(!g.timer_stopped);
    assert!(!g.refresh_timer(false, true));
    assert!(!g.refresh_timer(true, false));
    g.stop_timer();
    assert!(g.timer_stopped);
}

#[test]
fn kill_counting_and_display() {
    let mut g = ZombieGenerator::new();
    g.kill_confirmed();
    g.kill_confirmed();
    assert_eq!(g.get_killed(), 2);
    assert_eq!(g.refresh_display_count(), 3);
    g.current_refresh_count = 50;
    assert_eq!(g.refresh_display_count(), 40);
}

#[test]
fn generator_level_up_resets_and_caps_wave() {
    let mut g = ZombieGenerator::new();
    g.current = 12;
    g.killed = 9;
    let w = g.level_up(false, true, 45, 9, 3, 10);
    assert_eq!(w, Wave { spawned: 0, stopped: false });
    assert_eq!((g.current, g.killed), (0, 0));
    assert_eq!((g.current_total, g.current_refresh_count), (45, 3));
    assert_eq!((g.refresh_barrier, g.current_refresh_barrier, g.max_screen_count), (3, 3, 10));
    assert!(g.timer_stopped);
}

#[test]
fn immediate_generator_brings_first_wave() {
    let mut g = ZombieGenerator::new();
    g.immediate = true;
    let w = g.level_up(false, false, 30, 5, 40, 160);
    assert_eq!(w, Wave { spawned: 5, stopped: false });
    assert_eq!(g.current, 5);
    assert!(!g.timer_stopped);
    let mut h = ZombieGenerator::new();
    h.immediate = true;
    assert_eq!(h.level_up(true, false, 30, 5, 40, 160), Wave { spawned: 0, stopped: false });
}

#[test]
fn unlocks_at_level_three() {
    assert_eq!(unlock_weapons(3), vec![UnlockableWeapon::Deagle]);
    assert_eq!(unlock_weapons(2), vec![]);
}

#[test]
fn unlocks_at_level_twenty_five_strongest_first() {
    assert_eq!(
        unlock_weapons(25),
        vec![
            UnlockableWeapon::Rpg7,
            UnlockableWeapon::Ak4760r,
            UnlockableWeapon::Xm1014,
            UnlockableWeapon::Ak47,
            UnlockableWeapon::M4a1,
            UnlockableWeapon::M79,
            UnlockableWeapon::Awp,
            UnlockableWeapon::M1887,
            UnlockableWeapon::Deagle,
        ]
    );
}

#[test]
fn unlocks_everything_at_level_thirty_three() {
    let all = unlock_weapons(33);
    assert_eq!(all.len(), 17);
    assert_eq!(all[0], UnlockableWeapon::Skull5);
    assert_eq!(all[16], UnlockableWeapon::Deagle);
    assert!(!all.contains(&UnlockableWeapon::Usp));
    assert_eq!(unlock_weapons(u32::MAX).len(), 17);
}

#[test]
fn unlocks_grow_with_level() {
    for low in 0..40u32 {
        let before = unlock_weapons(low);
        let after = unlock_weapons(low + 1);
        for w in before {
            assert!(after.contains(&w));
        }
    }
}

#[test]
fn weapon_slots_and_names() {
    assert_eq!(UnlockableWeapon::Usp.index(), 0);
    assert_eq!(UnlockableWeapon::Skull5.index(), 17);
    assert_eq!(UnlockableWeapon::Rpg7.unlock_level(), 25);
    assert_eq!(UnlockableWeapon::Usp.unlock_level(), u32::MAX);
    assert_eq!(UnlockableWeapon::Ak4760r.scene_name(), "ak47-60r");
    assert_eq!(UnlockableWeapon::Skull6.scene_name(), "skull-6");
    assert_eq!(UnlockableWeapon::Ak4760r.key_hint(), "9");
    assert_eq!(UnlockableWeapon::Rpg7.key_hint(), "[(MAYBE MANY TIMES)");
}

#[test]
fn level_counts_kills() {
    let mut l = level();
    l.kill_confirmed();
    l.kill_confirmed();
    l.kill_boss_confirmed();
    assert_eq!((l.zombie_killed, l.boss_killed), (2, 1));
    l.process(false, false, false);
    assert_eq!(l.get_kill_count(), 2);
    assert_eq!(l.get_kill_boss_count(), 1);
}

#[test]
fn paused_level_does_nothing() {
    let mut l = level();
    assert!(l.process(true, true, true).is_none());
    assert!(!l.is_rampage());
}

#[test]
fn stalled_level_forces_spawns() {
    let mut l = level();
    // All spawners are stopped and the player has been idle: a wave of each
    // kind is forced in (nine zombies over three spawners, three bosses).
    let t = l.process(false, true, false).unwrap();
    assert_eq!(t.spawns.zombie + t.spawns.boomer + t.spawns.pitcher, 9);
    assert_eq!(t.spawns.boss, 3);
    assert_eq!(t.music, Music::Normal);
    assert!(!t.level_done);
    // A running spawner means the level is not stalled.
    l.zombie_generator.ready();
    let t = l.process(false, true, false).unwrap();
    assert_eq!(t.spawns.zombie + t.spawns.boomer + t.spawns.pitcher + t.spawns.boss, 0);
}

#[test]
fn stalled_level_forces_only_missing_zombies() {
    let mut l = level();
    l.zombie_killed = 88;
    l.boss_killed = 30;
    let t = l.process(false, true, false).unwrap();
    assert_eq!(t.spawns.zombie + t.spawns.boomer + t.spawns.pitcher, 2);
    assert_eq!(t.spawns.boss, 0);
}

#[test]
fn rampage_and_music() {
    let mut l = level();
    l.zombie_generator.current = 10;
    l.zombie_killed = 4;
    let t = l.process(false, false, true).unwrap();
    assert_eq!(t.music, Music::Rampage);
    assert!(t.hurry_spawners);
    assert!(l.is_rampage());
    assert_eq!(l.get_live_count(), 6);
    l.boss_generator.current = 1;
    l.zombie_killed = 10;
    let t = l.process(false, false, true).unwrap();
    assert_eq!(t.music, Music::Boss);
    assert!(l.is_rampage());
    l.boss_killed = 1;
    let t = l.process(false, false, true).unwrap();
    assert_eq!(t.music, Music::Normal);
    assert!(!l.is_rampage());
}

#[test]
fn hell_rampage_does_not_hurry_spawners() {
    let mut l = level();
    l.enable_hell();
    l.zombie_generator.current = 10;
    let t = l.process(false, false, true).unwrap();
    assert!(!t.hurry_spawners);
    assert_eq!(t.music, Music::Rampage);
}

#[test]
fn level_done_when_all_killed() {
    let mut l = level();
    l.zombie_killed = 90;
    l.boss_killed = 30;
    assert!(l.process(false, false, false).unwrap().level_done);
    l.boss_killed = 29;
    assert!(!l.process(false, false, false).unwrap().level_done);
}

#[test]
fn progress_sums_the_spawners() {
    let mut l = level();
    l.zombie_generator.current = 4;
    l.boomer_generator.current = 2;
    l.pitcher_generator.current = 1;
    l.boss_generator.current = 1;
    l.zombie_killed = 3;
    let p = l.progress();
    assert_eq!((p.zombie_refreshed, p.zombie_total, p.boss_refreshed, p.boss_total), (7, 90, 1, 30));
    assert_eq!((p.zombie_killed, p.boss_killed), (3, 0));
}

#[test]
fn level_up_restarts_kills_and_unlocks() {
    let mut l = level();
    l.zombie_killed = 5;
    let r = l.level_up(false, false, scaling());
    assert!(!r.save);
    assert_eq!(l.level, 1);
    assert_eq!((l.zombie_killed, l.boss_killed), (0, 0));
    assert!(r.unlocks.is_empty());
    assert_eq!(l.zombie_generator.current_total, 30);
    // The boomer wave never outgrows its barrier.
    assert_eq!(l.boomer_generator.current_refresh_count, 3);
    assert_eq!(l.boomer_generator.max_screen_count, BOOMER_MAX_SCREEN_COUNT);
    assert_eq!(l.boss_generator.max_screen_count, BOSS_MAX_SCREEN_COUNT);
    l.level_up(false, false, scaling());
    let r = l.level_up(false, false, scaling());
    assert!(r.save);
    assert_eq!(l.level, 3);
    assert_eq!(r.unlocks, vec![UnlockableWeapon::Deagle]);
}

#[test]
fn hell_level_up_raises_screen_limits() {
    let mut l = level();
    l.enable_hell();
    l.level_up(false, false, scaling());
    assert_eq!(l.zombie_generator.max_screen_count, ZOMBIE_MAX_SCREEN_COUNT_HELL);
    assert_eq!(l.boss_generator.max_screen_count, BOSS_MAX_SCREEN_COUNT);
}

#[test]
fn start_and_stop_the_level() {
    let mut l = level();
    l.start();
    assert!(!l.zombie_generator.timer_stopped && !l.boss_generator.timer_stopped);
    l.stop();
    assert!(l.zombie_generator.timer_stopped && l.pitcher_generator.timer_stopped);
}

fn record(name: &str, current: u32, stopped: bool) -> GeneratorRecord {
    GeneratorRecord {
        name: name.to_string(),
        immediate: true,
        total: 50,
        refresh_count: 4,
        refresh_barrier: 10,
        max_screen_count: 20,
        current_total: 60,
        current_refresh_count: 5,
        current,
        current_refresh_barrier: 30,
        stopped,
    }
}

#[test]
fn generator_takes_its_own_record() {
    let mut g = ZombieGenerator::new();
    g.kill_confirmed();
    let records = vec![record("BoomerGenerator", 1, true), record("ZombieGenerator", 12, false)];
    assert!(g.on_load(&"ZombieGenerator".to_string(), &records));
    assert!(g.immediate);
    assert_eq!((g.total, g.refresh_count, g.refresh_barrier, g.max_screen_count), (50, 4, 10, 20));
    assert_eq!((g.current_total, g.current_refresh_count, g.current), (60, 5, 12));
    assert_eq!(g.current_refresh_barrier, 30);
    assert_eq!(g.get_killed(), 1);
    assert!(!g.timer_stopped);
}

#[test]
fn generator_without_record_is_unchanged() {
    let mut g = ZombieGenerator::new();
    let records = vec![record("BossGenerator", 1, false)];
    assert!(!g.on_load(&"ZombieGenerator".to_string(), &records));
    assert_eq!((g.total, g.current, g.current_total), (30, 0, 30));
    assert!(g.timer_stopped);
}

#[test]
fn finished_generator_record_keeps_timer() {
    let mut g = ZombieGenerator::new();
    // A record of a spawner that spawned its total does not restart the timer.
    assert!(g.on_load(&"G".to_string(), &vec![record("G", 60, false)]));
    assert!(g.timer_stopped);
    g.ready();
    assert!(g.on_load(&"G".to_string(), &vec![record("G", 60, true)]));
    assert!(g.timer_stopped);
}

#[test]
fn progress_fits_the_counters() {
    let mut l = level();
    assert!(l.progress_fits());
    l.zombie_generator.current_total = u32::MAX;
    assert!(!l.progress_fits());
    l.zombie_generator.current_total = u32::MAX - 60;
    assert!(l.progress_fits());
}

#[test]
fn forced_zombies_follow_their_draws() {
    let r = split_forced_spawns(&vec![-1, 0, 1, 1, 0, 1, 7, -1]);
    assert_eq!(r, ForcedSpawns { zombie: 4, boomer: 2, pitcher: 2, boss: 0 });
    let none = split_forced_spawns(&vec![]);
    assert_eq!(none, ForcedSpawns { zombie: 0, boomer: 0, pitcher: 0, boss: 0 });
}

#[test]
fn generator_without_barrier_levels_up_when_not_immediate() {
    let mut g = ZombieGenerator::new();
    let w = g.level_up(false, false, 30, 3, 0, 10);
    assert_eq!(w, Wave { spawned: 0, stopped: false });
    assert_eq!((g.refresh_barrier, g.current_refresh_barrier, g.current_refresh_count), (0, 0, 0));
    assert!(!g.timer_stopped);
}

#[test]
fn paused_level_needs_no_room_in_its_counts() {
    let mut l = level();
    l.zombie_generator.current = u32::MAX;
    l.boomer_generator.current = 5;
    assert!(!l.progress_fits());
    assert!(l.process(true, true, true).is_none());
    assert_eq!(l.zombie_generator.current, u32::MAX);
}
