//! Tests for the pseudorandom stream.

use basstrace::rand::{splitmix64_next, xoshiro256pp_next, Rng};

#[test]
fn splitmix64_known_values() {
    let mut state: u64 = 42;
    let w1 = splitmix64_next(&mut state);
    let w2 = splitmix64_next(&mut state);
    assert_eq!(w1, 0xbdd732262feb6e95);
    assert_eq!(w2, 0x28efe333b266f103);
}

#[test]
fn xoshiro256pp_known_sequence() {
    // The state seeded from 42 by four splitmix64 draws, then five outputs.
    let mut state: [u64; 4] = [
        0xbdd732262feb6e95,
        0x28efe333b266f103,
        0x47526757130f9f52,
        0x581ce1ff0e4ae394,
    ];
    let expected: [u64; 5] = [
        15021278609987233951,
        5881210131331364753,
        18149643915985481100,
        12933668939759105464,
        14637574242682825331,
    ];
    for e in expected {
        assert_eq!(xoshiro256pp_next(&mut state), e);
    }
}

#[test]
fn same_seed_same_sequence() {
    let mut a = Rng::new(42);
    let mut b = Rng::new(42);
    for _ in 0..100 {
        assert_eq!(a.next(), b.next());
    }
}

#[test]
fn rng_matches_known_sequence() {
    let mut r = Rng::new(42);
    assert_eq!(r.next(), 15021278609987233951);
    assert_eq!(r.next(), 5881210131331364753);
    assert_eq!(r.next(), 18149643915985481100);
}

#[test]
fn different_seeds_differ() {
    let mut a = Rng::new(1);
    let mut b = Rng::new(2);
    assert_eq!(a.next(), 14971601782005023387);
    assert_eq!(b.next(), 14116099294885116970);
}

#[test]
fn index_stays_in_range() {
    let xs: Vec<u32> = vec![10, 20, 30, 40, 50, 60, 70];
    let mut r = Rng::new(7);
    for _ in 0..200 {
        let i = r.index(&xs);
        assert!(i < xs.len());
    }
    let one: Vec<u32> = vec![99];
    assert_eq!(r.index(&one), 0);
}
