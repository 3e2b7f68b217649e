//! The random number generator behind the dungeon generator, backed by
//! the rand crate through trusted wrappers.

use vstd::prelude::*;

verus! {

/// Declares rand's ThreadRng so that a field can hold one; the verifier
/// sees nothing of the value, every property of drawn numbers comes from
/// the wrappers below.
#[verifier::external_type_specification]
#[verifier::external_body]
pub struct ExThreadRng(rand::rngs::ThreadRng);

/// A uniform random number generator backed by the operating system's
/// entropy, used by the dungeon generator for room placement.
pub struct RandomNumberGenerator {
    generator: rand::rngs::ThreadRng,
}

/// Relies on rand::Rng::gen_range over an inclusive integer range: it panics
/// on an empty range and otherwise returns a value between the two bounds.
/// Nothing more is assumed of the value, which depends on the thread's
/// random state.
#[verifier::external_body]
fn sample_inclusive(generator: &mut rand::rngs::ThreadRng, low: i32, high: i32) -> (r: i32)
    requires
        low <= high,
    ensures
        low <= r <= high,
{
    rand::Rng::gen_range(generator, low..=high)
}

/// Relies on rand::thread_rng to hand out a generator for the current
/// thread; no property of the generator itself is assumed.
#[verifier::external_body]
fn obtain_thread_rng() -> rand::rngs::ThreadRng {
    rand::thread_rng()
}

impl RandomNumberGenerator {
    /// Creates a new generator based on an OS reliant seed.
    pub fn new() -> Self {
        Self { generator: obtain_thread_rng() }
    }

    /// Picks a value from the inclusive range `low ..= high`, each outcome
    /// possible. The range must not be empty.
    pub fn range(&mut self, low: i32, high: i32) -> (r: i32)
        requires
            low <= high,
        ensures
            low <= r <= high,
    {
        sample_inclusive(&mut self.generator, low, high)
    }

    /// Rolls a dice with the passed amount of `faces` the given `number` of
    /// times and adds the results of the rolls together. Each roll yields a
    /// value between `1` and `faces`.
    pub fn roll_dice(&mut self, number: i32, faces: i32) -> (r: i32)
        requires
            0 <= number <= 46340,
            1 <= faces <= 46340,
        ensures
            number <= r <= number * faces,
    {
        let mut sum: i32 = 0;
        let mut i: i32 = 0;
        while i < number
            invariant
                0 <= i <= number,
                number <= 46340,
                1 <= faces <= 46340,
                i <= sum <= i * faces,
            decreases number - i,
        {
            proof {
                assert((i + 1) * faces == i * faces + faces) by (nonlinear_arith);
                assert(i * faces <= 46340 * 46340) by (nonlinear_arith)
                    requires
                        0 <= i <= 46340,
                        1 <= faces <= 46340,
                {
                }
            }
            let roll = sample_inclusive(&mut self.generator, 1, faces);
            sum = sum + roll;
            i = i + 1;
        }
        sum
    }
}

} // verus!
