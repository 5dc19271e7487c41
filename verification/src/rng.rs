//! Deterministic pseudo-random stream.
//!
//! Every pixel of every frame owns one 32-bit generator state, derived from
//! the pixel index and a frame-global seed and then advanced by xorshift
//! steps. All operations are pure functions of the state passed in, so
//! re-rendering a frame with the same seed reproduces the same noise pattern.

use vstd::prelude::*;

verus! {

use vstd::wrapping::u32_specs;

/// One xorshift step: the whole behaviour of the generator.
pub open spec fn xorshift_step(s: u32) -> u32 {
    let a = s ^ (s << 13);
    let b = a ^ (a >> 17);
    b ^ (b << 5)
}

/// The generator state after `n` xorshift steps from `s`.
pub open spec fn xorshift_stream(s: u32, n: nat) -> u32
    decreases n,
{
    if n == 0 {
        s
    } else {
        xorshift_step(xorshift_stream(s, (n - 1) as nat))
    }
}

/// The avalanche mix that decorrelates per-pixel seeds derived by simple
/// arithmetic from neighbouring pixel indices.
pub open spec fn wang_hash_step(s: u32) -> u32 {
    let a = (s ^ 61) ^ (s >> 16);
    let b = u32_specs::wrapping_mul(a, 9);
    let c = b ^ (b >> 4);
    let d = u32_specs::wrapping_mul(c, 0x27d4eb2d);
    d ^ (d >> 15)
}

/// The generator state a pixel starts the frame with: a mix of the pixel
/// index and the frame-global seed, avalanched by the wang hash.
pub open spec fn pixel_seed_spec(pixel_index: u32, frame_seed: u32) -> u32 {
    wang_hash_step(
        u32_specs::wrapping_add(
            u32_specs::wrapping_mul(u32_specs::wrapping_add(pixel_index, frame_seed), 17),
            1,
        ),
    )
}

pub struct Math;

impl Math {
    /// Advances the state by one xorshift step and returns the new state.
    /// The result depends on the passed-in state alone.
    pub fn random_uint(seed: &mut u32) -> (r: u32)
        ensures
            *final(seed) == xorshift_step(*old(seed)),
            r == xorshift_step(*old(seed)),
    {
        let mut s: u32 = *seed;
        s = s ^ (s << 13);
        s = s ^ (s >> 17);
        s = s ^ (s << 5);
        *seed = s;
        s
    }

    /// Avalanche-mixes a seed. A pure function of its argument.
    pub fn wang_hash(seed: u32) -> (r: u32)
        ensures
            r == wang_hash_step(seed),
    {
        let mut s: u32 = seed;
        s = (s ^ 61) ^ (s >> 16);
        s = s.wrapping_mul(9);
        s = s ^ (s >> 4);
        s = s.wrapping_mul(0x27d4eb2d);
        s = s ^ (s >> 15);
        s
    }
}

/// Derives the generator state a pixel starts the frame with from the pixel
/// index and the frame-global seed; no other state enters.
pub fn pixel_seed(pixel_index: u32, frame_seed: u32) -> (r: u32)
    ensures
        r == pixel_seed_spec(pixel_index, frame_seed),
{
    Math::wang_hash(pixel_index.wrapping_add(frame_seed).wrapping_mul(17).wrapping_add(1))
}

/// Draws `count` values, advancing the state once per draw. Every drawn value
/// and the state left behind are pinned to the starting state alone.
pub fn random_sequence(seed: &mut u32, count: usize) -> (out: Vec<u32>)
    ensures
        out@.len() == count,
        forall|i: int| 0 <= i < count ==> out@[i] == xorshift_stream(*old(seed), (i + 1) as nat),
        *final(seed) == xorshift_stream(*old(seed), count as nat),
{
    let start: Ghost<u32> = Ghost(*seed);
    let mut out: Vec<u32> = Vec::new();
    let mut k: usize = 0;
    while k < count
        invariant
            k <= count,
            out@.len() == k,
            *seed == xorshift_stream(start@, k as nat),
            forall|i: int| 0 <= i < k ==> out@[i] == xorshift_stream(start@, (i + 1) as nat),
        decreases count - k,
    {
        let v = Math::random_uint(seed);
        out.push(v);
        k = k + 1;
    }
    out
}

/// Law: the stream is a pure function of its state. Two generators started
/// in the same state draw the same value at every position.
pub proof fn lemma_stream_deterministic(s1: u32, s2: u32, n: nat)
    requires
        s1 == s2,
    ensures
        xorshift_stream(s1, n) == xorshift_stream(s2, n),
{
}

} // verus!
