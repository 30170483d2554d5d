// Behavioral properties on concrete values: determinism, skipping versus
// drawing, the capped-draw edge cases, the error, the seed forms, and the
// zero-seed policy.

use xs128::Random;
use xs128::RandomXS128;
use xs128::RngError;
use xs128::SeedInitializer;

fn first_draws_through_trait<T: RandomXS128>(seed: u64) -> (u64, u64) {
    let mut g = T::new(seed);
    let first = g.next_u64();
    g.advance(10);
    let capped = g.next_capped_u64(134).unwrap();
    (first, capped)
}

#[test]
fn same_seed_same_sequence() {
    for seed in [0u64, 1, 42, 12345, u64::MAX, 0x8000_0000_0000_0000] {
        let mut a = Random::new(seed);
        let mut b = Random::new(seed);
        for _ in 0..100 {
            assert_eq!(a.next_u64(), b.next_u64());
        }
        for modulus in 1..50u64 {
            assert_eq!(a.next_capped_u64(modulus), b.next_capped_u64(modulus));
            assert_eq!(
                a.unchecked_next_capped_u64(modulus),
                b.unchecked_next_capped_u64(modulus)
            );
        }
    }
}

#[test]
fn advance_equals_discarded_draws() {
    for seed in [7u64, 1000, 987654321] {
        for n in [0u32, 1, 2, 10, 63] {
            let mut skipped = Random::new(seed);
            skipped.advance(n);
            let mut drawn = Random::new(seed);
            let mut last = 0u64;
            for _ in 0..n + 1 {
                last = drawn.next_u64();
            }
            assert_eq!(skipped.next_u64(), last);
        }
    }
}

#[test]
fn consecutive_advances_add_up() {
    let mut split = Random::new(1000);
    split.advance(2);
    split.advance(3);
    split.advance(4);
    let mut whole = Random::new(1000);
    whole.advance(9);
    assert_eq!(split.next_u64(), whole.next_u64());
}

#[test]
fn modulus_one_always_returns_zero() {
    for seed in [0u64, 3, 42, 1000, u64::MAX] {
        let mut rng = Random::new(seed);
        for _ in 0..25 {
            assert_eq!(rng.next_capped_u64(1).unwrap(), 0);
            assert_eq!(rng.unchecked_next_capped_u64(1).unwrap(), 0);
        }
    }
}

#[test]
fn modulus_zero_is_division_by_zero() {
    let mut rng = Random::new(42);
    assert_eq!(rng.next_capped_u64(0), Err(RngError::DivisionByZero));
    assert_eq!(rng.unchecked_next_capped_u64(0), Err(RngError::DivisionByZero));
    assert_eq!(
        rng.overflowing_next_capped_u64(0),
        Err(RngError::DivisionByZero)
    );
    // The failed draws left the state untouched.
    let mut fresh = Random::new(42);
    assert_eq!(rng.next_u64(), fresh.next_u64());
}

#[test]
fn seed_pair_bypass() {
    for seed in [5u64, 12345, 0xdead_beef] {
        let seed0 = Random::murmur_hash3(seed);
        let seed1 = Random::murmur_hash3(seed0);
        let mut paired = Random::from_pair(seed0, seed1);
        let mut scalar = Random::new(seed);
        for _ in 0..50 {
            assert_eq!(paired.next_u64(), scalar.next_u64());
        }
    }
}

#[test]
fn initializer_forms_agree() {
    let seed = 424242u64;
    let seed0 = Random::murmur_hash3(seed);
    let seed1 = Random::murmur_hash3(seed0);
    let mut by_seed = Random::from_initializer(SeedInitializer::Seed(seed));
    let mut by_seed0 = Random::from_initializer(SeedInitializer::Seed0(seed0));
    let mut by_seed1 = Random::from_initializer(SeedInitializer::Seed1(seed1));
    let mut by_pair = Random::from_initializer(SeedInitializer::SeedPair(seed0, seed1));
    let mut direct = Random::new(seed);
    for _ in 0..50 {
        let expected = direct.next_u64();
        assert_eq!(by_seed.next_u64(), expected);
        assert_eq!(by_seed0.next_u64(), expected);
        assert_eq!(by_seed1.next_u64(), expected);
        assert_eq!(by_pair.next_u64(), expected);
    }
}

#[test]
fn seed1_only_recovers_seed0() {
    // inverse_murmur_hash3 really inverts: seeding from the second word alone
    // rebuilds the exact pair, and hashing the rebuilt first word gives the
    // second word back.
    let seed1 = 0x1234_5678_9abc_def0u64;
    let seed0 = Random::inverse_murmur_hash3(seed1);
    assert_eq!(Random::murmur_hash3(seed0), seed1);
    let mut from_second = Random::from_initializer(SeedInitializer::Seed1(seed1));
    let mut from_both = Random::from_pair(seed0, seed1);
    for _ in 0..20 {
        assert_eq!(from_second.next_u64(), from_both.next_u64());
    }
}

#[test]
fn zero_seed_policy() {
    // With the substitution switched on, seed 0 becomes the minimum signed
    // 64-bit value reinterpreted as unsigned; any other seed is untouched.
    let mut substituted = Random::new_with_zero_policy(0, true);
    let mut minimum = Random::new(i64::MIN as u64);
    for _ in 0..20 {
        assert_eq!(substituted.next_u64(), minimum.next_u64());
    }
    let mut plain = Random::new_with_zero_policy(0, false);
    let mut zero = Random::new(0);
    for _ in 0..20 {
        assert_eq!(plain.next_u64(), zero.next_u64());
    }
    let mut policy_on = Random::new_with_zero_policy(77, true);
    let mut policy_off = Random::new_with_zero_policy(77, false);
    for _ in 0..20 {
        assert_eq!(policy_on.next_u64(), policy_off.next_u64());
    }
}

#[test]
fn trait_surface_matches_inherent() {
    let (first, capped) = first_draws_through_trait::<Random>(12345);
    assert_eq!(first, 1382432690769144372u64);
    assert_eq!(capped, 83);
    let mut through_trait = <Random as RandomXS128>::from_initializer(SeedInitializer::Seed(7));
    let mut inherent = Random::new(7);
    for _ in 0..10 {
        assert_eq!(
            RandomXS128::unchecked_next_capped_u64(&mut through_trait, 999).unwrap(),
            inherent.unchecked_next_capped_u64(999).unwrap()
        );
    }
    assert_eq!(
        RandomXS128::overflowing_next_capped_u64(&mut through_trait, 0),
        Err(RngError::DivisionByZero)
    );
}

#[test]
fn first_draw_from_seed_12345() {
    let mut rng = Random::new(12345);
    assert_eq!(rng.next_u64(), 1382432690769144372u64);
    rng.advance(10);
    assert_eq!(rng.next_capped_u64(134).unwrap(), 83);
    assert_eq!(rng.next_u64(), (-5355119237153046436i64) as u64);
}

#[test]
fn hash_of_inverse_hash_round_trip() {
    for i in 1..1_000_000u64 {
        let unhashed = Random::inverse_murmur_hash3(i);
        assert_eq!(Random::murmur_hash3(unhashed), i);
    }
}

#[test]
fn current_u64_is_the_word_sum() {
    let mut rng = Random::from_pair(3, u64::MAX);
    let drawn = rng.next_u64();
    assert_eq!(rng.current_u64(), drawn);
    assert_eq!(rng.current_u64(), drawn);
    assert_eq!(Random::from_pair(3, u64::MAX).current_u64(), 2);
}

#[test]
fn next_advances_like_next_u64() {
    let mut stepped = Random::new(99);
    stepped.next();
    let mut drawn = Random::new(99);
    let first = drawn.next_u64();
    assert_eq!(stepped.current_u64(), first);
    assert_eq!(stepped.next_u64(), drawn.next_u64());
}

#[test]
fn unchecked_matches_overflowing_residue() {
    let mut a = Random::new(2024);
    let mut b = Random::new(2024);
    for modulus in [1u64, 2, 134, 999, u64::MAX, u64::MAX - 5] {
        let (residue, _) = a.overflowing_next_capped_u64(modulus).unwrap();
        assert_eq!(b.unchecked_next_capped_u64(modulus).unwrap(), residue);
    }
}
