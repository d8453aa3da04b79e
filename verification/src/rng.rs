//! Deterministic per-row randomness.
//!
//! Every render worker owns one `SeededRng`, seeded from its row index, so a
//! render is a pure function of the scene, the camera and the image
//! parameters. The generator is rand's `StdRng` (the ChaCha block cipher in
//! this rand version): its output is a deterministic, platform-independent
//! function of the seed, so the draws can be named by the uninterpreted
//! stream `rng_stream` and everything downstream of a draw is verified for
//! the exact values the generator produces.

use vstd::prelude::*;

verus! {

/// The value of draw number `idx` of the pseudo-random stream seeded with `seed`.
pub uninterp spec fn rng_stream(seed: u64, idx: nat) -> u32;

#[verifier::external_type_specification]
#[verifier::external_body]
pub struct ExStdRng(rand::rngs::StdRng);

/// A `StdRng` together with the ghost position of its next draw.
pub struct SeededRng {
    inner: rand::rngs::StdRng,
    seed: Ghost<u64>,
    idx: Ghost<nat>,
}

impl SeededRng {
    /// The seed this generator was created from.
    pub closed spec fn seed(self) -> u64 {
        self.seed@
    }

    /// How many values have been drawn so far.
    pub closed spec fn idx(self) -> nat {
        self.idx@
    }

    /// Relies on rand's `SeedableRng::seed_from_u64` for `StdRng`: it
    /// derives the generator state from the seed alone.
    #[verifier::external_body]
    pub fn from_seed(seed: u64) -> (r: SeededRng)
        ensures
            r.seed() == seed,
            r.idx() == 0,
    {
        SeededRng {
            inner: <rand::rngs::StdRng as rand::SeedableRng>::seed_from_u64(seed),
            seed: Ghost(seed),
            idx: Ghost(0),
        }
    }

    /// Relies on rand's `RngCore::next_u32` for `StdRng`: in this rand
    /// version `StdRng` is the ChaCha12 cipher, whose output stream is a
    /// deterministic, platform-independent function of the seed, here named
    /// `rng_stream`.
    #[verifier::external_body]
    pub fn next_u32(&mut self) -> (r: u32)
        ensures
            r == rng_stream(old(self).seed(), old(self).idx()),
            final(self).seed() == old(self).seed(),
            final(self).idx() == old(self).idx() + 1,
    {
        rand::RngCore::next_u32(&mut self.inner)
    }
}

} // verus!
