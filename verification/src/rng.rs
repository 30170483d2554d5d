//! The Xorshift128+ generator: two-word state, seed expansion, raw draws,
//! skipping ahead, and the legacy modulo-capped draws.
//!
//! The mathematical model is the pair of state words. `step` gives the state
//! after one transition, `step_output` the 64-bit value that transition
//! yields, and `state_after` iterates `step`; every executable operation is
//! specified against these.

use vstd::prelude::*;

use crate::hash::hash;
use crate::hash::inverse_hash;
use crate::hash::wadd;
use crate::hash::MH3_FACTOR_1;
use crate::hash::MH3_FACTOR_2;
use crate::hash::INV_MH3_FACTOR_1;
use crate::hash::INV_MH3_FACTOR_2;

verus! {

/// The ways the two state words may be supplied: both verbatim, a scalar seed
/// to be expanded by the finalizer, only the first word, or only the second.
#[derive(Debug)]
pub enum SeedInitializer {
    SeedPair(u64, u64),
    Seed(u64),
    Seed0(u64),
    Seed1(u64),
}

/// The one failure a capped draw can report: a modulus of zero.
#[derive(Debug, Clone, Copy, PartialEq, Eq, Structural)]
pub enum RngError {
    DivisionByZero,
}

/// An Xorshift128+ generator. The state is exactly two 64-bit words, owned by
/// this instance and mutated in place by every draw.
#[derive(Debug)]
pub struct Random {
    seed0: u64,
    seed1: u64,
}

impl View for Random {
    type V = (u64, u64);

    closed spec fn view(&self) -> (u64, u64) {
        (self.seed0, self.seed1)
    }
}

/// The state after one transition.
pub open spec fn step(s: (u64, u64)) -> (u64, u64) {
    let t = s.0 ^ (s.0 << 23);
    (s.1, t ^ s.1 ^ (t >> 17) ^ (s.1 >> 26))
}

/// The 64-bit value one transition yields: the sum, modulo 2^64, of the old
/// second word and the new second word.
pub open spec fn step_output(s: (u64, u64)) -> u64 {
    wadd(s.1, step(s).1)
}

/// The state after `n` transitions.
pub open spec fn state_after(s: (u64, u64), n: nat) -> (u64, u64)
    decreases n,
{
    if n == 0 {
        s
    } else {
        step(state_after(s, (n - 1) as nat))
    }
}

/// The value of draw number `n + 1` when drawing repeatedly from state `s`.
pub open spec fn nth_output(s: (u64, u64), n: nat) -> u64 {
    step_output(state_after(s, n))
}

/// The first `k` values drawn from state `s`.
pub open spec fn outputs(s: (u64, u64), k: nat) -> Seq<u64> {
    Seq::new(k, |i: int| nth_output(s, i as nat))
}

/// A capped draw retries at most this many times before it gives up rejecting
/// and returns the residue of its last draw even if that draw was biased. The
/// bound only makes the retry loop provably finite: reaching it would take
/// centuries of drawing.
pub const MAX_CAPPED_DRAW_ATTEMPTS: u64 = 0xffff_ffff_ffff_ffff;

/// The 63-bit quantity a capped draw reduces: the next raw value with its top
/// bit discarded.
pub open spec fn capped_bits(s: (u64, u64)) -> u64 {
    step_output(s) >> 1
}

/// The residue a capped draw from state `s` yields under `modulus`.
pub open spec fn capped_residue(s: (u64, u64), modulus: u64) -> u64
    recommends
        modulus != 0,
{
    capped_bits(s) % modulus
}

/// The legacy boundary-bias flag: the wraparound comparison the reference
/// algorithm uses to detect a draw whose residue is biased, kept in this exact
/// form rather than rewritten as a direct bound check.
pub open spec fn capped_overflowed(s: (u64, u64), modulus: u64) -> bool
    recommends
        modulus != 0,
{
    wadd(capped_bits(s), modulus) < wadd(capped_residue(s, modulus), 1)
}

/// What a rejection-resampling capped draw guarantees, for a nonzero
/// `modulus`: some number `k` of transitions was consumed, every draw before
/// the `k`-th tripped the bias flag, the `k`-th did not (unless the retry
/// bound ran out), the state ends `k` transitions along, and the result is the
/// residue of the `k`-th draw.
pub open spec fn reroll_outcome(
    start: (u64, u64),
    end: (u64, u64),
    modulus: u64,
    r: Result<u64, RngError>,
) -> bool {
    exists|k: nat|
        1 <= k <= MAX_CAPPED_DRAW_ATTEMPTS
        && (forall|j: nat|
            j < k - 1 ==> capped_overflowed(#[trigger] state_after(start, j), modulus))
        && (!capped_overflowed(state_after(start, (k - 1) as nat), modulus)
            || k == MAX_CAPPED_DRAW_ATTEMPTS)
        && end == #[trigger] state_after(start, k)
        && r == Ok::<u64, RngError>(capped_residue(state_after(start, (k - 1) as nat), modulus))
}

/// The state a scalar seed expands to: the first word is the seed hashed, the
/// second word is the first hashed again.
pub open spec fn seed_state(seed: u64) -> (u64, u64) {
    (hash(seed), hash(hash(seed)))
}

/// The state each initializer form denotes.
pub open spec fn init_state(init: SeedInitializer) -> (u64, u64) {
    match init {
        SeedInitializer::SeedPair(seed0, seed1) => (seed0, seed1),
        SeedInitializer::Seed(seed) => seed_state(seed),
        SeedInitializer::Seed0(seed0) => (seed0, hash(seed0)),
        SeedInitializer::Seed1(seed1) => (inverse_hash(seed1), seed1),
    }
}

proof fn lemma_mod_one(x: u64)
    by (bit_vector)
    ensures
        x % 1 == 0,
{
}

proof fn lemma_bits_below_half_range(x: u64)
    by (bit_vector)
    ensures
        (x >> 1) < 0x8000_0000_0000_0000,
{
}

/// A modulus of at most 2^63 can never trip the bias flag: the discarded top
/// bit keeps the drawn quantity below 2^63, so the wraparound comparison
/// cannot come out true.
pub proof fn lemma_small_modulus_never_overflows(s: (u64, u64), modulus: u64)
    requires
        1 <= modulus <= 0x8000_0000_0000_0000,
    ensures
        !capped_overflowed(s, modulus),
{
    let bits = capped_bits(s);
    lemma_bits_below_half_range(step_output(s));
    let r = capped_residue(s, modulus);
    vstd::arithmetic::div_mod::lemma_mod_bound(bits as int, modulus as int);
    vstd::arithmetic::div_mod::lemma_mod_decreases(bits as nat, modulus as nat);
    assert(r <= bits && r < modulus);
    assert(bits + modulus < 0x1_0000_0000_0000_0000);
    assert(wadd(bits, modulus) == bits + modulus);
    assert(wadd(r, 1) == r + 1);
}

impl Random {
    /// The forward seed finalizer on one word.
    pub fn murmur_hash3(x: u64) -> (r: u64)
        ensures
            r == hash(x),
    {
        let mut x = x;
        x = x ^ (x >> 33);
        x = x.wrapping_mul(MH3_FACTOR_1);
        x = x ^ (x >> 33);
        x = x.wrapping_mul(MH3_FACTOR_2);
        x = x ^ (x >> 33);
        x
    }

    /// The inverse seed finalizer on one word.
    pub fn inverse_murmur_hash3(x: u64) -> (r: u64)
        ensures
            r == inverse_hash(x),
    {
        let mut x = x;
        x = x ^ (x >> 33);
        x = x.wrapping_mul(INV_MH3_FACTOR_1);
        x = x ^ (x >> 33);
        x = x.wrapping_mul(INV_MH3_FACTOR_2);
        x = x ^ (x >> 33);
        x
    }

    /// Builds a generator from both state words, bypassing the finalizer.
    pub fn from_pair(seed0: u64, seed1: u64) -> (r: Random)
        ensures
            r@ == (seed0, seed1),
    {
        Random { seed0, seed1 }
    }

    /// Builds a generator from any initializer form. A missing second word is
    /// derived by hashing the first; a missing first word by inverse-hashing
    /// the second.
    pub fn from_initializer(init: SeedInitializer) -> (r: Random)
        ensures
            r@ == init_state(init),
    {
        match init {
            SeedInitializer::SeedPair(seed0, seed1) => Random { seed0, seed1 },
            SeedInitializer::Seed(seed) => {
                let seed0 = Random::murmur_hash3(seed);
                let seed1 = Random::murmur_hash3(seed0);
                Random { seed0, seed1 }
            },
            SeedInitializer::Seed0(seed0) => {
                let seed1 = Random::murmur_hash3(seed0);
                Random { seed0, seed1 }
            },
            SeedInitializer::Seed1(seed1) => {
                let seed0 = Random::inverse_murmur_hash3(seed1);
                Random { seed0, seed1 }
            },
        }
    }

    /// Builds a generator from a scalar seed, used exactly as given.
    pub fn new(seed: u64) -> (r: Random)
        ensures
            r@ == seed_state(seed),
    {
        Random::from_initializer(SeedInitializer::Seed(seed))
    }

    /// Scalar-seed constructor with the zero-seed policy made explicit: when
    /// `substitute_zero_seed` is set, a seed of `0` is replaced by
    /// `0x8000_0000_0000_0000` (the minimum signed 64-bit value reinterpreted
    /// as unsigned) before expansion, so the degenerate seed is avoided; when
    /// it is not set, the seed is used as given.
    pub fn new_with_zero_policy(seed: u64, substitute_zero_seed: bool) -> (r: Random)
        ensures
            r@ == seed_state(
                if substitute_zero_seed && seed == 0 {
                    0x8000_0000_0000_0000u64
                } else {
                    seed
                },
            ),
    {
        let effective: u64 = if substitute_zero_seed && seed == 0 {
            0x8000_0000_0000_0000u64
        } else {
            seed
        };
        Random::new(effective)
    }

    /// Advances the state by one transition without producing a value.
    pub fn next(&mut self)
        ensures
            final(self)@ == step(old(self)@),
    {
        let s1 = self.seed0;
        let s0 = self.seed1;
        self.seed0 = s0;
        let t = s1 ^ (s1 << 23);
        self.seed1 = t ^ s0 ^ (t >> 17) ^ (s0 >> 26);
    }

    /// The value the most recent transition yielded: the sum, modulo 2^64, of
    /// the previous second word (now the first) and the current second word.
    pub fn current_u64(&self) -> (r: u64)
        ensures
            r == wadd(self@.0, self@.1),
    {
        self.seed0.wrapping_add(self.seed1)
    }

    /// Draws the next raw 64-bit value.
    pub fn next_u64(&mut self) -> (r: u64)
        ensures
            final(self)@ == step(old(self)@),
            r == step_output(old(self)@),
    {
        self.next();
        self.current_u64()
    }

    /// Draws once and reduces the draw under `modulus`, returning the residue
    /// together with the legacy bias flag and leaving any retrying to the
    /// caller. A modulus of zero is rejected before the state is touched.
    pub fn overflowing_next_capped_u64(&mut self, modulus: u64) -> (r: Result<
        (u64, bool),
        RngError,
    >)
        ensures
            modulus == 0 ==> r == Err::<(u64, bool), RngError>(RngError::DivisionByZero)
                && final(self)@ == old(self)@,
            modulus != 0 ==> final(self)@ == step(old(self)@) && r == Ok::<(u64, bool), RngError>(
                (capped_residue(old(self)@, modulus), capped_overflowed(old(self)@, modulus)),
            ),
    {
        if modulus == 0 {
            return Err(RngError::DivisionByZero);
        }
        let raw = self.next_u64();
        let bits = raw >> 1;
        let residue = bits % modulus;
        let overflowed = bits.wrapping_add(modulus) < residue.wrapping_add(1);
        Ok((residue, overflowed))
    }

    /// Draws exactly once and returns the residue under `modulus`, biased or
    /// not. This is the capped draw with rejection resampling switched off.
    pub fn unchecked_next_capped_u64(&mut self, modulus: u64) -> (r: Result<u64, RngError>)
        ensures
            modulus == 0 ==> r == Err::<u64, RngError>(RngError::DivisionByZero)
                && final(self)@ == old(self)@,
            modulus != 0 ==> final(self)@ == step(old(self)@) && r == Ok::<u64, RngError>(
                capped_residue(old(self)@, modulus),
            ),
            modulus == 1 ==> r == Ok::<u64, RngError>(0),
    {
        proof {
            lemma_mod_one(capped_bits(old(self)@));
        }
        match self.overflowing_next_capped_u64(modulus) {
            Ok((residue, _)) => Ok(residue),
            Err(e) => Err(e),
        }
    }

    /// Draws with rejection resampling: while the bias flag of a draw is set,
    /// the draw is discarded and a fresh one is taken. The residue returned is
    /// that of the first draw whose flag is clear, so some number `k` of
    /// transitions is consumed: every draw before the `k`-th tripped the flag
    /// and the `k`-th did not (unless the retry bound was exhausted). With a
    /// modulus of at most 2^63 the flag can never trip, so exactly one draw is
    /// consumed; a modulus of zero is rejected before the state is touched.
    pub fn next_capped_u64(&mut self, modulus: u64) -> (r: Result<u64, RngError>)
        ensures
            modulus == 0 ==> r == Err::<u64, RngError>(RngError::DivisionByZero)
                && final(self)@ == old(self)@,
            modulus != 0 ==> reroll_outcome(old(self)@, final(self)@, modulus, r),
            1 <= modulus <= 0x8000_0000_0000_0000 ==> final(self)@ == step(old(self)@)
                && r == Ok::<u64, RngError>(capped_residue(old(self)@, modulus)),
            modulus == 1 ==> r == Ok::<u64, RngError>(0),
    {
        if modulus == 0 {
            return Err(RngError::DivisionByZero);
        }
        let mut attempts: u64 = 1;
        loop
            invariant
                1 <= attempts <= MAX_CAPPED_DRAW_ATTEMPTS,
                modulus != 0,
                self@ == state_after(old(self)@, (attempts - 1) as nat),
                forall|j: nat|
                    j < attempts - 1 ==> capped_overflowed(
                        #[trigger] state_after(old(self)@, j),
                        modulus,
                    ),
            decreases MAX_CAPPED_DRAW_ATTEMPTS - attempts,
        {
            let ghost pre = self@;
            let (residue, overflowed) = match self.overflowing_next_capped_u64(modulus) {
                Ok(p) => p,
                Err(e) => {
                    return Err(e);
                },
            };
            proof {
                assert(state_after(old(self)@, attempts as nat) == step(
                    state_after(old(self)@, (attempts - 1) as nat),
                ));
            }
            if !overflowed || attempts == MAX_CAPPED_DRAW_ATTEMPTS {
                proof {
                    if 1 <= modulus <= 0x8000_0000_0000_0000 {
                        lemma_small_modulus_never_overflows(pre, modulus);
                        if attempts > 1 {
                            assert(capped_overflowed(state_after(old(self)@, 0), modulus));
                            assert(state_after(old(self)@, 0) == old(self)@);
                            lemma_small_modulus_never_overflows(old(self)@, modulus);
                        }
                        assert(attempts == 1);
                    }
                    if modulus == 1 {
                        lemma_mod_one(capped_bits(pre));
                    }
                    let k = attempts as nat;
                    assert(1 <= k <= MAX_CAPPED_DRAW_ATTEMPTS
                        && (forall|j: nat|
                            j < k - 1 ==> capped_overflowed(
                                #[trigger] state_after(old(self)@, j),
                                modulus,
                            ))
                        && (!capped_overflowed(state_after(old(self)@, (k - 1) as nat), modulus)
                            || k == MAX_CAPPED_DRAW_ATTEMPTS)
                        && self@ == state_after(old(self)@, k));
                    assert(reroll_outcome(
                        old(self)@,
                        self@,
                        modulus,
                        Ok::<u64, RngError>(residue),
                    ));
                }
                return Ok(residue);
            }
            attempts = attempts + 1;
        }
    }

    /// Performs exactly `n` single transitions, discarding each value.
    pub fn advance(&mut self, n: u32)
        ensures
            final(self)@ == state_after(old(self)@, n as nat),
    {
        let mut i: u32 = 0;
        while i < n
            invariant
                i <= n,
                self@ == state_after(old(self)@, i as nat),
            decreases n - i,
        {
            self.next();
            i = i + 1;
        }
    }
}

/// The generator interface: seed expansion, raw draws, skipping, and the
/// legacy capped draws, stated over an abstract two-word state.
pub trait RandomXS128: Sized {
    /// The two state words of the generator.
    spec fn state(&self) -> (u64, u64);

    /// Builds a generator from a scalar seed, used exactly as given.
    fn new(seed: u64) -> (r: Self)
        ensures
            r.state() == seed_state(seed),
    ;

    /// Builds a generator from any initializer form.
    fn from_initializer(init: SeedInitializer) -> (r: Self)
        ensures
            r.state() == init_state(init),
    ;

    /// Draws the next raw 64-bit value.
    fn next_u64(&mut self) -> (r: u64)
        ensures
            final(self).state() == step(old(self).state()),
            r == step_output(old(self).state()),
    ;

    /// Performs exactly `n` single transitions, discarding each value.
    fn advance(&mut self, n: u32)
        ensures
            final(self).state() == state_after(old(self).state(), n as nat),
    ;

    /// Draws with rejection resampling, as `Random::next_capped_u64` does.
    fn next_capped_u64(&mut self, modulus: u64) -> (r: Result<u64, RngError>)
        ensures
            modulus == 0 ==> r == Err::<u64, RngError>(RngError::DivisionByZero)
                && final(self).state() == old(self).state(),
            modulus != 0 ==> reroll_outcome(
                old(self).state(),
                final(self).state(),
                modulus,
                r,
            ),
            1 <= modulus <= 0x8000_0000_0000_0000 ==> final(self).state() == step(
                old(self).state(),
            ) && r == Ok::<u64, RngError>(capped_residue(old(self).state(), modulus)),
            modulus == 1 ==> r == Ok::<u64, RngError>(0),
    ;

    /// Draws exactly once and returns the residue, biased or not.
    fn unchecked_next_capped_u64(&mut self, modulus: u64) -> (r: Result<u64, RngError>)
        ensures
            modulus == 0 ==> r == Err::<u64, RngError>(RngError::DivisionByZero)
                && final(self).state() == old(self).state(),
            modulus != 0 ==> final(self).state() == step(old(self).state()) && r == Ok::<
                u64,
                RngError,
            >(capped_residue(old(self).state(), modulus)),
            modulus == 1 ==> r == Ok::<u64, RngError>(0),
    ;

    /// Draws once, returning the residue together with the legacy bias flag.
    fn overflowing_next_capped_u64(&mut self, modulus: u64) -> (r: Result<(u64, bool), RngError>)
        ensures
            modulus == 0 ==> r == Err::<(u64, bool), RngError>(RngError::DivisionByZero)
                && final(self).state() == old(self).state(),
            modulus != 0 ==> final(self).state() == step(old(self).state()) && r == Ok::<
                (u64, bool),
                RngError,
            >((capped_residue(old(self).state(), modulus), capped_overflowed(old(self).state(), modulus))),
    ;
}

impl RandomXS128 for Random {
    open spec fn state(&self) -> (u64, u64) {
        self@
    }

    fn new(seed: u64) -> (r: Self) {
        Random::new(seed)
    }

    fn from_initializer(init: SeedInitializer) -> (r: Self) {
        Random::from_initializer(init)
    }

    fn next_u64(&mut self) -> (r: u64) {
        Random::next_u64(self)
    }

    fn advance(&mut self, n: u32) {
        Random::advance(self, n)
    }

    fn next_capped_u64(&mut self, modulus: u64) -> (r: Result<u64, RngError>) {
        Random::next_capped_u64(self, modulus)
    }

    fn unchecked_next_capped_u64(&mut self, modulus: u64) -> (r: Result<u64, RngError>) {
        Random::unchecked_next_capped_u64(self, modulus)
    }

    fn overflowing_next_capped_u64(&mut self, modulus: u64) -> (r: Result<(u64, bool), RngError>) {
        Random::overflowing_next_capped_u64(self, modulus)
    }
}

/// Transitions compose: iterating `a` steps and then `b` more from the result
/// is the same as iterating `a + b` steps, so consecutive `advance` calls add
/// up.
pub proof fn lemma_state_after_adds(s: (u64, u64), a: nat, b: nat)
    ensures
        state_after(state_after(s, a), b) == state_after(s, a + b),
    decreases b,
{
    if b > 0 {
        lemma_state_after_adds(s, a, (b - 1) as nat);
    }
}

/// Determinism: the state a scalar seed expands to, and every output drawn
/// from a state, are pure functions, so two generators built from the same
/// scalar seed have equal states and produce identical value sequences for
/// any number of draws.
pub proof fn lemma_same_seed_same_outputs(seed_a: u64, seed_b: u64, k: nat)
    requires
        seed_a == seed_b,
    ensures
        seed_state(seed_a) == seed_state(seed_b),
        outputs(seed_state(seed_a), k) == outputs(seed_state(seed_b), k),
{
}

/// Skipping then drawing once equals drawing throughout: after `n`
/// transitions the next value is draw number `n + 1` of the uninterrupted
/// sequence — the last of `n + 1` consecutive draws — and the states agree.
pub proof fn lemma_advance_then_draw(s: (u64, u64), n: nat)
    ensures
        step_output(state_after(s, n)) == outputs(s, n + 1).last(),
        step(state_after(s, n)) == state_after(s, n + 1),
{
    assert(outputs(s, n + 1).last() == nth_output(s, n));
}

/// Seed-pair bypass: a pair `(a, b)` with `b == hash(a)` is exactly the state
/// that the scalar seed `inverse_hash(a)` expands to, so building from the
/// pair verbatim and building from that scalar seed give generators with
/// equal states, and hence identical draw sequences.
pub proof fn lemma_seed_pair_bypass(a: u64, b: u64)
    requires
        b == hash(a),
    ensures
        seed_state(inverse_hash(a)) == (a, b),
{
    crate::hash::lemma_hash_of_inverse_hash(a);
}

} // verus!
