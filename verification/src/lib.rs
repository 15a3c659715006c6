//! Verified game rules of the "salvation" zombie shooter: the state machines
//! of the player, the zombies and the weapons, the combat arithmetic, the
//! level and spawn bookkeeping, and the save store.
//!
//! The engine side (scene tree, audio, animation, physics and everything that
//! works on floating point) drives these models: it performs the actions that
//! the models decide and hands their results back as plain values.
use vstd::prelude::*;

pub mod combat;
pub mod zombie;
pub mod level;
pub mod weapon;
pub mod player;
pub mod save;
pub mod ground;
pub mod world;
mod random;

verus! {

/// What the player is doing.
#[derive(Debug, Clone, Copy, PartialEq, Eq, PartialOrd, Ord, Hash, Structural)]
pub enum PlayerState {
    Born,
    Guard,
    Run,
    Chop,
    Shoot,
    Reload,
    Reloading,
    Hit,
    Impact,
    Dead,
}

/// The upgrades that the player may pick on a level up.
#[derive(Debug, Clone, Copy, PartialEq, Eq, PartialOrd, Ord, Hash, Structural)]
pub enum PlayerUpgrade {
    Health,
    Penetrate,
    Damage,
    Repel,
    Lives,
    Distance,
}

/// What a zombie (of any kind) is doing.
#[derive(Debug, Clone, Copy, PartialEq, Eq, PartialOrd, Ord, Hash, Structural)]
pub enum ZombieState {
    Guard,
    Run,
    Rampage,
    Hit,
    Attack,
    Dead,
}

/// What a weapon is doing.
#[derive(Debug, Clone, Copy, PartialEq, Eq, Hash, Structural)]
pub enum WeaponState {
    Ready,
    Firing,
    Reloading,
}

impl Default for PlayerState {
    fn default() -> (s: Self)
        ensures
            s == PlayerState::Born,
    {
        PlayerState::Born
    }
}

impl Default for PlayerUpgrade {
    fn default() -> (u: Self)
        ensures
            u == PlayerUpgrade::Health,
    {
        PlayerUpgrade::Health
    }
}

impl Default for ZombieState {
    fn default() -> (s: Self)
        ensures
            s == ZombieState::Guard,
    {
        ZombieState::Guard
    }
}

} // verus!
