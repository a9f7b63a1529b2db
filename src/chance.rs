use vstd::prelude::*;
use rand::Rng;
use crate::world::{FULL_TURN, TURN_RATE};

verus! {

/// Relies on rand's `Rng::gen_range` over `rand::thread_rng()`: a value drawn
/// from a non-empty inclusive integer range lies in that range.
#[verifier::external_body]
fn draw_between(lo: i64, hi: i64) -> (r: i64)
    requires
        lo <= hi,
    ensures
        lo <= r <= hi,
{
    rand::thread_rng().gen_range(lo..=hi)
}

/// One wander turn rate per agent, each in `[-TURN_RATE, TURN_RATE]` µrad/s.
pub fn draw_turns(n: usize) -> (r: Vec<i64>)
    ensures
        r@.len() == n,
        forall|i: int| 0 <= i < n ==> -TURN_RATE <= #[trigger] r@[i] <= TURN_RATE,
{
    let mut r: Vec<i64> = Vec::new();
    let mut i: usize = 0;
    while i < n
        invariant
            i <= n,
            r@.len() == i,
            forall|k: int| 0 <= k < i ==> -TURN_RATE <= #[trigger] r@[k] <= TURN_RATE,
        decreases n - i,
    {
        r.push(draw_between(-TURN_RATE, TURN_RATE));
        i += 1;
    }
    r
}

/// One newborn heading per agent, each in `[0, FULL_TURN)` nanoradians.
pub fn draw_headings(n: usize) -> (r: Vec<i64>)
    ensures
        r@.len() == n,
        forall|i: int| 0 <= i < n ==> 0 <= #[trigger] r@[i] < FULL_TURN,
{
    let mut r: Vec<i64> = Vec::new();
    let mut i: usize = 0;
    while i < n
        invariant
            i <= n,
            r@.len() == i,
            forall|k: int| 0 <= k < i ==> 0 <= #[trigger] r@[k] < FULL_TURN,
        decreases n - i,
    {
        r.push(draw_between(0, FULL_TURN - 1));
        i += 1;
    }
    r
}

} // verus!
