//! Damage arithmetic and what a strike (knife, grenade, boomer explosion,
//! bullet) does to each kind of body it touches.
use vstd::prelude::*;

verus! {

/// Health after a hit of `hit_val`: a positive value takes health away, a
/// zero or negative value gives health back; both saturate at the bounds of
/// `u32`, and the amount is truncated to its low 32 bits.
pub open spec fn spec_health_after_hit(health: u32, hit_val: i64) -> u32 {
    if hit_val > 0 {
        let d = hit_val as u32;
        if health >= d {
            (health - d) as u32
        } else {
            0
        }
    } else {
        let h = (-hit_val) as u32;
        if health + h > u32::MAX {
            u32::MAX
        } else {
            (health + h) as u32
        }
    }
}

/// The health of a body after it was hit for `hit_val`.
pub fn health_after_hit(health: u32, hit_val: i64) -> (r: u32)
    requires
        hit_val > i64::MIN,
    ensures
        r == spec_health_after_hit(health, hit_val),
{
    if hit_val > 0 {
        health.saturating_sub(hit_val as u32)
    } else {
        health.saturating_add(-hit_val as u32)
    }
}

/// `a + b`, clamped to the bounds of `i64`.
pub open spec fn spec_sat_add_i64(a: i64, b: i64) -> i64 {
    if a + b > i64::MAX {
        i64::MAX
    } else if a + b < i64::MIN {
        i64::MIN
    } else {
        (a + b) as i64
    }
}

/// `a + b`, clamped to the bounds of `i64` (as `i64::saturating_add`).
pub fn sat_add_i64(a: i64, b: i64) -> (r: i64)
    ensures
        r == spec_sat_add_i64(a, b),
{
    match a.checked_add(b) {
        Some(v) => v,
        None => if b > 0 {
            i64::MAX
        } else {
            i64::MIN
        },
    }
}

/// The kinds of bodies that a strike can touch.
#[derive(Debug, Clone, Copy, PartialEq, Eq, Structural)]
pub enum BodyKind {
    Player,
    Zombie,
    Boomer,
    Pitcher,
    Boss,
    Grenade,
    Other,
}

/// What a strike does to one body.
#[derive(Debug, Clone, Copy, PartialEq, Eq, Structural)]
pub enum StrikeEffect {
    /// Nothing happens to the body.
    Ignore,
    /// The body is of a kind that the strike does not expect; it is reported.
    Unexpected,
    /// The player takes `damage`.
    HitPlayer { damage: i64 },
    /// A zombie takes `damage`; the player scores `score` points (none when it is zero).
    HitZombie { damage: i64, score: u64 },
}

/// The points that a zombie hit of `damage` is worth: the damage itself when
/// positive, nothing otherwise.
pub open spec fn spec_hit_score(damage: i64) -> u64 {
    if damage > 0 {
        damage as u64
    } else {
        0
    }
}

/// The points that a zombie hit of `damage` is worth.
pub fn hit_score(damage: i64) -> (r: u64)
    ensures
        r == spec_hit_score(damage),
        damage > 0 ==> r == damage,
{
    if damage > 0 {
        damage as u64
    } else {
        0
    }
}

/// Whether a body of this kind is one of the zombies that explosions push
/// (the common zombie, the boss and the boomer).
pub open spec fn spec_is_explodable_zombie(kind: BodyKind) -> bool {
    kind == BodyKind::Zombie || kind == BodyKind::Boss || kind == BodyKind::Boomer
}

/// What an exploding grenade of `final_damage` does to a body in its blast.
pub fn grenade_blast(kind: BodyKind, final_damage: i64) -> (r: StrikeEffect)
    ensures
        kind == BodyKind::Player ==> r == (StrikeEffect::HitPlayer { damage: final_damage }),
        spec_is_explodable_zombie(kind) ==> r == (StrikeEffect::HitZombie {
            damage: final_damage,
            score: spec_hit_score(final_damage),
        }),
        kind != BodyKind::Player && !spec_is_explodable_zombie(kind) ==> r == StrikeEffect::Ignore,
{
    match kind {
        BodyKind::Player => StrikeEffect::HitPlayer { damage: final_damage },
        BodyKind::Zombie | BodyKind::Boss | BodyKind::Boomer => StrikeEffect::HitZombie {
            damage: final_damage,
            score: hit_score(final_damage),
        },
        _ => StrikeEffect::Ignore,
    }
}

/// The damage of a boomer's explosion.
pub const BOOMER_DAMAGE: i64 = 50;

/// What an exploding boomer does to a body in its blast; `same_position` says
/// that the body stands exactly where the boomer stands (it is then spared,
/// since no direction to push it exists).
pub fn boomer_blast(kind: BodyKind, same_position: bool) -> (r: StrikeEffect)
    ensures
        kind == BodyKind::Player ==> r == (StrikeEffect::HitPlayer { damage: BOOMER_DAMAGE }),
        spec_is_explodable_zombie(kind) && !same_position ==> r == (StrikeEffect::HitZombie {
            damage: BOOMER_DAMAGE,
            score: BOOMER_DAMAGE as u64,
        }),
        spec_is_explodable_zombie(kind) && same_position ==> r == StrikeEffect::Ignore,
        kind == BodyKind::Grenade ==> r == StrikeEffect::Ignore,
        kind == BodyKind::Pitcher || kind == BodyKind::Other ==> r == StrikeEffect::Unexpected,
{
    match kind {
        BodyKind::Player => StrikeEffect::HitPlayer { damage: BOOMER_DAMAGE },
        BodyKind::Zombie | BodyKind::Boss | BodyKind::Boomer => {
            if same_position {
                StrikeEffect::Ignore
            } else {
                StrikeEffect::HitZombie { damage: BOOMER_DAMAGE, score: BOOMER_DAMAGE as u64 }
            }
        },
        BodyKind::Grenade => StrikeEffect::Ignore,
        _ => StrikeEffect::Unexpected,
    }
}

/// What a knife swing of `final_damage` does to a body it touches.
///
/// `visible` says whether the knife is out; a hidden knife touches nothing.
/// A common zombie or a boomer that is `assassinated` (struck from behind)
/// takes three times the damage; `still_valid` says whether such a zombie
/// still exists after that check, and a vanished one is neither hit nor
/// scored.
pub fn knife_strike(
    visible: bool,
    kind: BodyKind,
    final_damage: i64,
    assassinated: bool,
    still_valid: bool,
) -> (r: StrikeEffect)
    requires
        visible && assassinated && (kind == BodyKind::Zombie || kind == BodyKind::Boomer) ==> 3
            * final_damage <= i64::MAX && 3 * final_damage >= i64::MIN,
    ensures
        !visible ==> r == StrikeEffect::Ignore,
        visible && (kind == BodyKind::Zombie || kind == BodyKind::Boomer) ==> r == (if !still_valid {
            StrikeEffect::Ignore
        } else {
            let d = if assassinated {
                3 * final_damage
            } else {
                final_damage as int
            };
            StrikeEffect::HitZombie { damage: d as i64, score: spec_hit_score(d as i64) }
        }),
        visible && kind == BodyKind::Boss ==> r == (StrikeEffect::HitZombie {
            damage: final_damage,
            score: spec_hit_score(final_damage),
        }),
        visible && kind == BodyKind::Player ==> r == StrikeEffect::Ignore,
        visible && (kind == BodyKind::Pitcher || kind == BodyKind::Other || kind
            == BodyKind::Grenade) ==> r == StrikeEffect::Unexpected,
{
    if !visible {
        return StrikeEffect::Ignore;
    }
    match kind {
        BodyKind::Zombie | BodyKind::Boomer => {
            let mut damage = final_damage;
            if assassinated {
                damage = damage * 3;
            }
            if !still_valid {
                return StrikeEffect::Ignore;
            }
            StrikeEffect::HitZombie { damage, score: hit_score(damage) }
        },
        BodyKind::Boss => StrikeEffect::HitZombie {
            damage: final_damage,
            score: hit_score(final_damage),
        },
        BodyKind::Player => StrikeEffect::Ignore,
        _ => StrikeEffect::Unexpected,
    }
}

/// A bullet's record of how many bodies it went through.
pub struct RustBullet {
    pub final_damage: i64,
    pub final_max_hit_count: u8,
    pub hit_count: u8,
}

impl RustBullet {
    /// A fresh bullet: no damage, no penetration, nothing hit yet.
    pub fn new() -> (b: Self)
        ensures
            b.final_damage == 0,
            b.final_max_hit_count == 0,
            b.hit_count == 0,
    {
        RustBullet { final_damage: 0, final_max_hit_count: 0, hit_count: 0 }
    }

    pub fn set_final_damage(&mut self, damage: i64)
        ensures
            *final(self) == (RustBullet { final_damage: damage, ..*old(self) }),
    {
        self.final_damage = damage;
    }

    pub fn set_final_max_hit_count(&mut self, max_hit_count: u8)
        ensures
            *final(self) == (RustBullet { final_max_hit_count: max_hit_count, ..*old(self) }),
    {
        self.final_max_hit_count = max_hit_count;
    }

    /// Counts one more body that the bullet went through; the result says
    /// whether the bullet has reached its penetration limit and is spent.
    pub fn on_hit(&mut self) -> (spent: bool)
        requires
            old(self).hit_count < u8::MAX,
        ensures
            final(self).hit_count == old(self).hit_count + 1,
            final(self).final_damage == old(self).final_damage,
            final(self).final_max_hit_count == old(self).final_max_hit_count,
            spent == (final(self).hit_count >= final(self).final_max_hit_count),
    {
        self.hit_count = self.hit_count + 1;
        self.hit_count >= self.final_max_hit_count
    }
}

/// Whether a bullet strike on a body of this kind hurts it: bullets only
/// damage common zombies.
pub fn bullet_hurts(kind: BodyKind) -> (r: bool)
    ensures
        r == (kind == BodyKind::Zombie),
{
    match kind {
        BodyKind::Zombie => true,
        _ => false,
    }
}

/// A hit (a positive value) never adds health.
pub proof fn law_hit_never_heals(health: u32, hit_val: i64)
    requires
        hit_val > 0,
    ensures
        spec_health_after_hit(health, hit_val) <= health,
{
}

/// A heal (a value of zero or below) never takes health away.
pub proof fn law_heal_never_hurts(health: u32, hit_val: i64)
    requires
        hit_val <= 0,
    ensures
        spec_health_after_hit(health, hit_val) >= health,
{
}

/// A hit at least as large as the health left kills (when the hit fits 32 bits).
pub proof fn law_overwhelming_hit_kills(health: u32, hit_val: i64)
    requires
        0 < hit_val <= u32::MAX,
        hit_val >= health,
    ensures
        spec_health_after_hit(health, hit_val) == 0,
{
}

/// A heal followed by a hit of the same size gives the health back, as long
/// as the heal did not reach the ceiling.
pub proof fn law_heal_then_hit_restores(health: u32, amount: i64)
    requires
        0 < amount <= u32::MAX,
        health + amount <= u32::MAX,
    ensures
        spec_health_after_hit(spec_health_after_hit(health, (-amount) as i64), amount) == health,
{
}

/// What a hit that fits 32 bits does to health: a positive hit takes that
/// much away, down to nothing; a heal adds that much, up to the ceiling.
pub proof fn law_hit_arithmetic(health: u32, hit_val: i64)
    requires
        -0xffff_ffff <= hit_val <= 0xffff_ffff,
    ensures
        hit_val > 0 ==> spec_health_after_hit(health, hit_val) == (if health >= hit_val {
            health - hit_val
        } else {
            0
        }),
        hit_val <= 0 ==> spec_health_after_hit(health, hit_val) == (if health - hit_val
            <= 0xffff_ffff {
            health - hit_val
        } else {
            0xffff_ffff
        }),
{
}

/// A zombie hit is worth its damage in points when positive, nothing
/// otherwise; explosions push the common zombie, the boomer and the boss,
/// and no other body.
pub proof fn law_scores_and_explodable_kinds(damage: i64, kind: BodyKind)
    ensures
        damage > 0 ==> spec_hit_score(damage) == damage,
        damage <= 0 ==> spec_hit_score(damage) == 0,
        spec_is_explodable_zombie(kind) <==> (kind == BodyKind::Zombie || kind == BodyKind::Boomer
            || kind == BodyKind::Boss),
{
}

} // verus!
