use my_tracer::rng::{pixel_seed, random_sequence, Math};

#[test]
fn xorshift_known_values() {
    let mut s: u32 = 1;
    assert_eq!(Math::random_uint(&mut s), 0x42021);
    assert_eq!(s, 0x42021);
    assert_eq!(Math::random_uint(&mut s), 0x4080601);
    assert_eq!(Math::random_uint(&mut s), 0x9dcca8c5);

    let mut t: u32 = 0x11112222;
    assert_eq!(Math::random_uint(&mut t), 0x9ffa6988);
    let mut u: u32 = 0xDEADBEEF;
    assert_eq!(Math::random_uint(&mut u), 0x477d20b7);
}

#[test]
fn xorshift_same_state_same_stream() {
    // The generator is a pure function of its state: two generators started
    // equal draw identical sequences.
    let mut a: u32 = 0x11112222;
    let mut b: u32 = 0x11112222;
    for _ in 0..100 {
        assert_eq!(Math::random_uint(&mut a), Math::random_uint(&mut b));
        assert_eq!(a, b);
    }
}

#[test]
fn random_sequence_matches_single_draws() {
    let mut a: u32 = 7;
    let seq = random_sequence(&mut a, 16);
    let mut b: u32 = 7;
    for k in 0..16 {
        assert_eq!(seq[k], Math::random_uint(&mut b));
    }
    assert_eq!(a, b);
}

#[test]
fn wang_hash_known_values() {
    assert_eq!(Math::wang_hash(0), 0xc0a9496a);
    assert_eq!(Math::wang_hash(1), 0x27922c9d);
    assert_eq!(Math::wang_hash(0x11112222), 0x0252c5f0);
}

#[test]
fn pixel_seed_known_values() {
    // wang_hash((index + frame seed) * 17 + 1), all wrapping.
    assert_eq!(pixel_seed(0, 0), 0x27922c9d);
    assert_eq!(pixel_seed(5, 0x11112222), 0x8a0dcf00);
}

#[test]
fn pixel_seed_is_reproducible() {
    // Re-rendering a frame with the same global seed gives every pixel the
    // same starting state.
    for i in 0..32 {
        assert_eq!(pixel_seed(i, 0xABCD1234), pixel_seed(i, 0xABCD1234));
    }
    // Adjacent pixels get decorrelated states.
    assert_ne!(pixel_seed(1, 42), pixel_seed(2, 42));
}
