use salvation::combat::{
    boomer_blast, bullet_hurts, grenade_blast, health_after_hit, hit_score, knife_strike,
    sat_add_i64, BodyKind, RustBullet, StrikeEffect, BOOMER_DAMAGE,
};

#[test]
fn hit_takes_health_away() {
    assert_eq!(health_after_hit(100, 30), 70);
    assert_eq!(health_after_hit(100, 100), 0);
}

#[test]
fn hit_larger_than_health_leaves_nothing() {
    assert_eq!(health_after_hit(10, 30), 0);
    assert_eq!(health_after_hit(0, 1), 0);
}

#[test]
fn negative_hit_heals() {
    assert_eq!(health_after_hit(100, -30), 130);
    assert_eq!(health_after_hit(70, 0), 70);
}

#[test]
fn heal_saturates_at_ceiling() {
    assert_eq!(health_after_hit(u32::MAX, -5), u32::MAX);
    assert_eq!(health_after_hit(u32::MAX - 2, -5), u32::MAX);
}

#[test]
fn hit_amount_is_taken_modulo_32_bits() {
    // 2^32 truncates to nothing, 2^32 + 7 to seven.
    assert_eq!(health_after_hit(50, 1i64 << 32), 50);
    assert_eq!(health_after_hit(50, (1i64 << 32) + 7), 43);
}

#[test]
fn heal_then_hit_restores_health() {
    let healed = health_after_hit(40, -25);
    assert_eq!(healed, 65);
    assert_eq!(health_after_hit(healed, 25), 40);
}

#[test]
fn saturating_add_clamps() {
    assert_eq!(sat_add_i64(2, 3), 5);
    assert_eq!(sat_add_i64(i64::MAX, 1), i64::MAX);
    assert_eq!(sat_add_i64(i64::MIN, -1), i64::MIN);
    assert_eq!(sat_add_i64(-7, 3), -4);
}

#[test]
fn hit_score_counts_positive_damage_only() {
    assert_eq!(hit_score(120), 120);
    assert_eq!(hit_score(0), 0);
    assert_eq!(hit_score(-5), 0);
}

#[test]
fn grenade_hits_player_and_zombies() {
    assert_eq!(grenade_blast(BodyKind::Player, 240), StrikeEffect::HitPlayer { damage: 240 });
    assert_eq!(
        grenade_blast(BodyKind::Zombie, 240),
        StrikeEffect::HitZombie { damage: 240, score: 240 }
    );
    assert_eq!(
        grenade_blast(BodyKind::Boss, 240),
        StrikeEffect::HitZombie { damage: 240, score: 240 }
    );
    assert_eq!(
        grenade_blast(BodyKind::Boomer, -3),
        StrikeEffect::HitZombie { damage: -3, score: 0 }
    );
    assert_eq!(grenade_blast(BodyKind::Pitcher, 240), StrikeEffect::Ignore);
    assert_eq!(grenade_blast(BodyKind::Grenade, 240), StrikeEffect::Ignore);
    assert_eq!(grenade_blast(BodyKind::Other, 240), StrikeEffect::Ignore);
}

#[test]
fn boomer_blast_effects() {
    assert_eq!(
        boomer_blast(BodyKind::Player, false),
        StrikeEffect::HitPlayer { damage: BOOMER_DAMAGE }
    );
    assert_eq!(
        boomer_blast(BodyKind::Zombie, false),
        StrikeEffect::HitZombie { damage: 50, score: 50 }
    );
    assert_eq!(boomer_blast(BodyKind::Boss, true), StrikeEffect::Ignore);
    assert_eq!(boomer_blast(BodyKind::Grenade, false), StrikeEffect::Ignore);
    assert_eq!(boomer_blast(BodyKind::Pitcher, false), StrikeEffect::Unexpected);
    assert_eq!(boomer_blast(BodyKind::Other, false), StrikeEffect::Unexpected);
}

#[test]
fn knife_triples_damage_from_behind() {
    assert_eq!(
        knife_strike(true, BodyKind::Zombie, 80, true, true),
        StrikeEffect::HitZombie { damage: 240, score: 240 }
    );
    assert_eq!(
        knife_strike(true, BodyKind::Boomer, 80, false, true),
        StrikeEffect::HitZombie { damage: 80, score: 80 }
    );
}

#[test]
fn knife_edge_cases() {
    assert_eq!(knife_strike(false, BodyKind::Zombie, 80, true, true), StrikeEffect::Ignore);
    assert_eq!(knife_strike(true, BodyKind::Zombie, 80, true, false), StrikeEffect::Ignore);
    assert_eq!(
        knife_strike(true, BodyKind::Boss, 80, true, true),
        StrikeEffect::HitZombie { damage: 80, score: 80 }
    );
    assert_eq!(knife_strike(true, BodyKind::Player, 80, false, true), StrikeEffect::Ignore);
    assert_eq!(knife_strike(true, BodyKind::Pitcher, 80, false, true), StrikeEffect::Unexpected);
    assert_eq!(knife_strike(true, BodyKind::Grenade, 80, false, true), StrikeEffect::Unexpected);
}

#[test]
fn bullet_spends_after_its_penetration() {
    let mut b = RustBullet::new();
    assert_eq!((b.final_damage, b.final_max_hit_count, b.hit_count), (0, 0, 0));
    b.set_final_damage(25);
    b.set_final_max_hit_count(2);
    assert_eq!(b.final_damage, 25);
    assert!(!b.on_hit());
    assert!(b.on_hit());
    assert_eq!(b.hit_count, 2);
}

#[test]
fn bullets_hurt_common_zombies_only() {
    assert!(bullet_hurts(BodyKind::Zombie));
    assert!(!bullet_hurts(BodyKind::Boss));
    assert!(!bullet_hurts(BodyKind::Player));
}
