//! The seeded random number generator: one managed stream for all
//! randomness, so identical seeds replay identical Runs.
//!
//! The stream is the sequence of 32-bit words a ChaCha8 generator seeded
//! with `seed_from_u64(seed)` produces. Every draw reads the next words of
//! that stream, so what a draw returns, and how far the stream has advanced
//! after it, depend only on the seed and on how many words were read
//! before: the library tracks both.

use vstd::prelude::*;

verus! {

#[verifier::external_type_specification]
#[verifier::external_body]
pub struct ExChaCha8Rng(rand_chacha::ChaCha8Rng);

/// The seed of the current Run.
#[derive(Debug, Clone, Copy, PartialEq, Eq, Structural)]
pub struct Seed(pub u64);

impl Seed {
    /// The Run's seed: the configured one when given, else `fallback` (a
    /// value taken from the clock).
    pub fn resolve(configured: Option<u64>, fallback: u64) -> (s: Seed)
        ensures
            s.0 == match configured {
                Some(v) => v,
                None => fallback,
            },
    {
        match configured {
            Some(v) => Seed(v),
            None => Seed(fallback),
        }
    }
}

/// The value `random_range(0..bound)` draws from the ChaCha8 stream of
/// `seed` once `position` words have been read, and the number of words read
/// after the draw.
pub uninterp spec fn chacha8_range_draw(seed: u64, position: nat, bound: u32) -> (u32, nat);

/// The word at `position` of the ChaCha8 stream of `seed`.
pub uninterp spec fn chacha8_word(seed: u64, position: nat) -> u32;

/// The single managed generator. Every random draw of the Run, the rules'
/// and the presentation's, comes from here.
pub struct GlobalRng {
    rng: rand_chacha::ChaCha8Rng,
    seed: Ghost<u64>,
    position: Ghost<nat>,
}

impl GlobalRng {
    /// The seed the stream was started from.
    pub closed spec fn seed(&self) -> u64 {
        self.seed@
    }

    /// How many words of the stream have been read.
    pub closed spec fn position(&self) -> nat {
        self.position@
    }
}

/// Calls `rand_core::SeedableRng::seed_from_u64` for ChaCha8. Nothing is
/// stated of the generator itself: the library only draws from it.
#[verifier::external_body]
fn chacha8_from_seed(seed: u64) -> rand_chacha::ChaCha8Rng {
    <rand_chacha::ChaCha8Rng as rand::SeedableRng>::seed_from_u64(seed)
}

/// Calls `rand::Rng::random_range` over `0..bound` on the generator. Its
/// documentation and source promise a value in the range (and panic on an
/// empty range, which `requires` rules out). The sampling reads words of the
/// ChaCha8 stream and nothing else, so the value and the words it reads are
/// a function of the seed and the words read before.
#[verifier::external_body]
fn chacha8_below(rng: &mut GlobalRng, bound: u32) -> (r: u32)
    requires
        bound > 0,
    ensures
        r < bound,
        (r, final(rng).position()) == chacha8_range_draw(old(rng).seed(), old(rng).position(), bound),
        final(rng).seed() == old(rng).seed(),
{
    rand::Rng::random_range(&mut rng.rng, 0..bound)
}

/// Calls `rand_core::RngCore::next_u32` on the generator: the next word of
/// the ChaCha8 stream (the block generator reads one word and advances by
/// one).
#[verifier::external_body]
fn chacha8_next_word(rng: &mut GlobalRng) -> (w: u32)
    ensures
        w == chacha8_word(old(rng).seed(), old(rng).position()),
        final(rng).position() == old(rng).position() + 1,
        final(rng).seed() == old(rng).seed(),
{
    rand::RngCore::next_u32(&mut rng.rng)
}

impl GlobalRng {
    /// The generator derived from a Run's seed, at the start of its stream.
    pub fn from_seed(seed: Seed) -> (g: GlobalRng)
        ensures
            g.seed() == seed.0,
            g.position() == 0,
    {
        GlobalRng { rng: chacha8_from_seed(seed.0), seed: Ghost(seed.0), position: Ghost(0) }
    }

    /// A uniform draw below `bound`; equal seeds and equal histories of
    /// draws give equal values.
    pub fn below(&mut self, bound: u32) -> (r: u32)
        requires
            bound > 0,
        ensures
            r < bound,
            (r, final(self).position()) == chacha8_range_draw(old(self).seed(), old(self).position(), bound),
            final(self).seed() == old(self).seed(),
    {
        chacha8_below(self, bound)
    }

    /// The next 32-bit word of the stream, for samplers of the presentation
    /// layer (positions along the field's edges), so every draw of the Run
    /// comes from this one stream.
    pub fn next_word(&mut self) -> (w: u32)
        ensures
            w == chacha8_word(old(self).seed(), old(self).position()),
            final(self).position() == old(self).position() + 1,
            final(self).seed() == old(self).seed(),
    {
        chacha8_next_word(self)
    }
}

/// Identical seeds replay identically: two generators started from the
/// same seed that have read the same number of words draw the same value
/// for the same bound and end at the same place.
pub proof fn law_equal_seeds_replay(a: GlobalRng, b: GlobalRng, bound: u32)
    requires
        a.seed() == b.seed(),
        a.position() == b.position(),
    ensures
        chacha8_range_draw(a.seed(), a.position(), bound) == chacha8_range_draw(b.seed(), b.position(), bound),
        chacha8_word(a.seed(), a.position()) == chacha8_word(b.seed(), b.position()),
{
}

} // verus!
