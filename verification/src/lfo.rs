//! Integer parts of the per-voice LFO: the seed of each LFO's sample-and-hold
//! generator, and the xorshift step that draws each new held value.

use vstd::prelude::*;

verus! {

/// Seed mix of a voice and LFO position (a splitmix-style finalizer), never 0.
pub open spec fn spec_mix_seed(voice_index: usize, lfo_index: usize) -> u32 {
    let voice = (voice_index as u32).wrapping_add(1);
    let lfo = (lfo_index as u32).wrapping_add(1);
    let z0 = voice.wrapping_mul(0x9E37_79B9) ^ lfo.wrapping_mul(0x85EB_CA6B);
    let z1 = (z0 ^ (z0 >> 16u32)).wrapping_mul(0x7FEB_352D);
    let z2 = (z1 ^ (z1 >> 15u32)).wrapping_mul(0x846C_A68B);
    let mixed = z2 ^ (z2 >> 16u32);
    if mixed == 0 {
        1
    } else {
        mixed
    }
}

/// Starting state of the sample-and-hold generator of one LFO on one voice.
pub fn mix_seed(voice_index: usize, lfo_index: usize) -> (r: u32)
    ensures
        r == spec_mix_seed(voice_index, lfo_index),
        r != 0,
{
    let voice = (voice_index as u32).wrapping_add(1);
    let lfo = (lfo_index as u32).wrapping_add(1);
    let mut z = voice.wrapping_mul(0x9E37_79B9) ^ lfo.wrapping_mul(0x85EB_CA6B);
    z = (z ^ (z >> 16)).wrapping_mul(0x7FEB_352D);
    z = (z ^ (z >> 15)).wrapping_mul(0x846C_A68B);
    let mixed = z ^ (z >> 16);
    if mixed == 0 {
        1
    } else {
        mixed
    }
}

/// One xorshift32 step (shifts 13, 17, 5).
pub open spec fn spec_xorshift(x: u32) -> u32 {
    let a = x ^ (x << 13u32);
    let b = a ^ (a >> 17u32);
    b ^ (b << 5u32)
}

/// Next state of the sample-and-hold generator.
pub fn xorshift_step(x: u32) -> (r: u32)
    ensures
        r == spec_xorshift(x),
{
    let mut y = x;
    y ^= y << 13;
    y ^= y >> 17;
    y ^= y << 5;
    y
}

/// A nonzero generator state stays nonzero, so sample-and-hold never sticks
/// at one value: every step of the xorshift is invertible and maps 0 to 0.
pub proof fn lemma_xorshift_nonzero(x: u32)
    requires
        x != 0,
    ensures
        spec_xorshift(x) != 0,
{
    assert(x != 0 ==> x ^ (x << 13u32) != 0) by (bit_vector);
    let a = x ^ (x << 13u32);
    assert(a != 0 ==> a ^ (a >> 17u32) != 0) by (bit_vector);
    let b = a ^ (a >> 17u32);
    assert(b != 0 ==> b ^ (b << 5u32) != 0) by (bit_vector);
}

} // verus!
