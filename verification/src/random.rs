//! The random draws that the game rules make.
use vstd::prelude::*;
use rand::Rng;

verus! {

/// Draws which kind of zombie a forced spawn brings: -1 a pitcher, 0 a
/// boomer, 1 a common zombie.
///
/// Calls `rand::Rng::gen_range(&mut rand::thread_rng(), -1..=1)`; its result
/// is chance, so the contract states only that it lies in the range, which
/// `gen_range` guarantees for a non-empty inclusive range (it panics only on
/// an empty one).
#[verifier::external_body]
pub(crate) fn random_spawn_pick() -> (r: i32)
    ensures
        -1 <= r <= 1,
{
    rand::thread_rng().gen_range(-1i32..=1i32)
}

/// A uniformly drawn `i32`.
///
/// Calls `rand::random::<i32>()`; its result is chance, so the contract states
/// nothing of it beyond its type.
#[verifier::external_body]
pub(crate) fn random_i32() -> (r: i32) {
    rand::random::<i32>()
}

} // verus!
