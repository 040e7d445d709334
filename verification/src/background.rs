//! The integer hashing behind the per-wave background: identical seeds give
//! identical backgrounds, and the Run's random stream is untouched.

use vstd::prelude::*;

verus! {

/// The SplitMix64 finalizer, with wrapping arithmetic.
pub open spec fn spec_splitmix64(x: u64) -> u64 {
    let a = vstd::wrapping::u64_specs::wrapping_add(x, 0x9E37_79B9_7F4A_7C15u64);
    let b = vstd::wrapping::u64_specs::wrapping_mul(a ^ (a >> 30u64), 0xBF58_476D_1CE4_E5B9u64);
    let c = vstd::wrapping::u64_specs::wrapping_mul(b ^ (b >> 27u64), 0x94D0_49BB_1331_11EBu64);
    c ^ (c >> 31u64)
}

/// The SplitMix64 mix of `x`.
pub fn splitmix64(x: u64) -> (h: u64)
    ensures
        h == spec_splitmix64(x),
{
    let a = x.wrapping_add(0x9E37_79B9_7F4A_7C15);
    let b = (a ^ (a >> 30)).wrapping_mul(0xBF58_476D_1CE4_E5B9);
    let c = (b ^ (b >> 27)).wrapping_mul(0x94D0_49BB_1331_11EB);
    c ^ (c >> 31)
}

/// The background variant of wave `wave` of the Run seeded `run_seed`.
pub open spec fn spec_wave_seed(run_seed: u64, wave: u32) -> u64 {
    spec_splitmix64(run_seed ^ vstd::wrapping::u64_specs::wrapping_mul(wave as u64, 0x9E37_79B9_7F4A_7C15u64))
}

/// The background variant of wave `wave` of the Run seeded `run_seed`.
pub fn wave_seed(run_seed: u64, wave: u32) -> (s: u64)
    ensures
        s == spec_wave_seed(run_seed, wave),
{
    splitmix64(run_seed ^ (wave as u64).wrapping_mul(0x9E37_79B9_7F4A_7C15))
}

/// The lattice value of cell (`x`, `y`) for a variant seed: the top 24 bits
/// of the cell's hash (the noise value is this over 2^24).
pub fn cell_value(x: u32, y: u32, seed: u64) -> (v: u32)
    ensures
        v == spec_splitmix64(seed ^ (((x as u64) << 32u64) ^ (y as u64))) >> 40u64,
        v < 0x100_0000,
{
    let h = splitmix64(seed ^ (((x as u64) << 32) ^ y as u64));
    let top = h >> 40;
    assert(top < 0x100_0000) by (bit_vector)
        requires
            top == h >> 40u64,
    ;
    top as u32
}

} // verus!
