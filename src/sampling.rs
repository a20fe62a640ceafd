use crate::scene::{in_spawn_region, Vec3, UNIT};
use rand::Rng;
use vstd::prelude::*;

verus! {

#[verifier::external_type_specification]
#[verifier::external_body]
pub struct ExThreadRng(rand::rngs::ThreadRng);

/// Relies on rand::thread_rng for a handle on the thread-local generator; nothing
/// is known of what it will draw.
pub assume_specification[ rand::thread_rng ]() -> rand::rngs::ThreadRng;

/// Relies on rand::Rng::gen_range: a value drawn from the half-open range
/// `low..high` (it panics on an empty range, which `requires` leaves out).
#[verifier::external_body]
fn gen_below(rng: &mut rand::rngs::ThreadRng, low: i64, high: i64) -> (r: i64)
    requires
        low < high,
    ensures
        low <= r < high,
{
    rng.gen_range(low..high)
}

/// A position in the spawn region, each coordinate drawn on its own.
fn random_position(rng: &mut rand::rngs::ThreadRng) -> (p: Vec3)
    ensures
        in_spawn_region(p),
{
    let x = gen_below(rng, 0, 5 * UNIT);
    let y = gen_below(rng, 0, 200 * UNIT);
    let z = gen_below(rng, 0, 5 * UNIT);
    Vec3 { x, y, z }
}

/// `n` positions drawn independently from the spawn region.
pub fn random_positions(n: usize) -> (r: Vec<Vec3>)
    ensures
        r@.len() == n,
        forall|i: int| 0 <= i < n ==> in_spawn_region(#[trigger] r@[i]),
{
    let mut rng = rand::thread_rng();
    let mut r: Vec<Vec3> = Vec::new();
    let mut i: usize = 0;
    while i < n
        invariant
            i <= n,
            r@.len() == i,
            forall|j: int| 0 <= j < i ==> in_spawn_region(#[trigger] r@[j]),
        decreases n - i,
    {
        let p = random_position(&mut rng);
        r.push(p);
        i = i + 1;
    }
    r
}

} // verus!
