//! Random sample generation. The raw draws come from the `rand` crate
//! through one trusted wrapper; everything built on top is verified to keep
//! samples in their stated ranges, whatever the draws were.

use vstd::prelude::*;

use crate::fixed::{Fx, FX_ONE};
use crate::vector::{Point2, Vec2};

verus! {

/// Relies on rand::random::<u32>: a fresh uniformly distributed 32-bit
/// value from the thread-local generator. Nothing is promised of it.
#[verifier::external_body]
fn random_u32() -> u32 {
    rand::random::<u32>()
}

/// A source of uniform samples in fixed point. It carries no state: draws
/// come from the thread-local generator, so one instance may be shared.
pub struct RngGen {}

impl RngGen {
    pub fn new() -> Self {
        Self {  }
    }

    /// A sample in `[0, 1)`: every one of the scalar's 65536 steps below
    /// one can occur.
    pub fn sample_0_1(&self) -> (r: Fx)
        ensures
            0 <= r < FX_ONE,
    {
        let raw = random_u32();
        (raw % 65536) as i64
    }

    /// A sample in `[-1, 1)`.
    pub fn sample_neg1_1(&self) -> (r: Fx)
        ensures
            -FX_ONE <= r < FX_ONE,
    {
        let u = self.sample_0_1();
        2 * u - FX_ONE
    }

    /// A 2D sample in `[0, 1)^2`.
    pub fn uniform_sample_point2(&self) -> (r: Point2)
        ensures
            0 <= r.x < FX_ONE,
            0 <= r.y < FX_ONE,
    {
        Vec2 { x: self.sample_0_1(), y: self.sample_0_1() }
    }

    /// `n` independent 2D samples in `[0, 1)^2`.
    pub fn get_2d_array(&self, n: usize) -> (r: Vec<Point2>)
        ensures
            r.len() == n,
            forall|i: int| 0 <= i < n ==> 0 <= #[trigger] r[i].x < FX_ONE && 0 <= r[i].y < FX_ONE,
    {
        let mut out: Vec<Point2> = Vec::new();
        let mut k: usize = 0;
        while k < n
            invariant
                k <= n,
                out.len() == k,
                forall|i: int| 0 <= i < k ==> 0 <= #[trigger] out[i].x < FX_ONE && 0 <= out[i].y < FX_ONE,
            decreases n - k,
        {
            out.push(self.uniform_sample_point2());
            k = k + 1;
        }
        out
    }
}

} // verus!
