use vstd::prelude::*;
use vstd::arithmetic::div_mod::{lemma_fundamental_div_mod, lemma_fundamental_div_mod_converse};

verus! {

/// Stride sampler of the fixed-step path: counts integrator steps and records one
/// state every `k` of them, that is once per drive period.
#[derive(Clone, Copy, Debug)]
pub struct PoincareSampler {
    /// Sub-steps per drive period.
    pub k: usize,
    /// Steps counted since the sampler was made or reset.
    pub counter: usize,
    /// Wrap the sampled angle into (−π, π].
    pub wrap_to_pi: bool,
}

/// The counter after one more step: one up, wrapping to zero past the largest `usize`.
pub open spec fn next_count(counter: usize) -> usize {
    if counter == usize::MAX {
        0
    } else {
        (counter + 1) as usize
    }
}

impl PoincareSampler {
    /// A sampler that records every `k`-th step, with no step counted yet.
    pub fn new(k: usize, wrap_to_pi: bool) -> (s: Self)
        ensures
            s.k == k,
            s.counter == 0,
            s.wrap_to_pi == wrap_to_pi,
    {
        PoincareSampler { k, counter: 0, wrap_to_pi }
    }

    /// Forgets the steps counted so far.
    pub fn reset(&mut self)
        ensures
            final(self).counter == 0,
            final(self).k == old(self).k,
            final(self).wrap_to_pi == old(self).wrap_to_pi,
    {
        self.counter = 0;
    }

    /// Counts one integrator step and tells whether the state it reached is to be
    /// recorded: exactly when the count is a multiple of `k`.
    pub fn should_record(&mut self) -> (r: bool)
        requires
            old(self).k > 0,
        ensures
            final(self).counter == next_count(old(self).counter),
            r == (final(self).counter % old(self).k == 0),
            final(self).k == old(self).k,
            final(self).wrap_to_pi == old(self).wrap_to_pi,
    {
        self.counter = self.counter.wrapping_add(1);
        self.counter % self.k == 0
    }
}

/// How many of the steps `1..=n` a stride sampler with period `k` records: those
/// whose count is a multiple of `k`.
pub open spec fn recorded_count(k: nat, n: nat) -> nat
    decreases n,
{
    if n == 0 {
        0
    } else {
        recorded_count(k, (n - 1) as nat) + if n % k == 0 {
            1nat
        } else {
            0nat
        }
    }
}

/// A stride sampler started from zero records one state for every `k` steps taken:
/// over `n` steps, exactly `n / k` of them.
pub proof fn lemma_recorded_count(k: nat, n: nat)
    requires
        k > 0,
    ensures
        recorded_count(k, n) == n / k,
    decreases n,
{
    if n > 0 {
        lemma_recorded_count(k, (n - 1) as nat);
        let m = (n - 1) as int;
        lemma_fundamental_div_mod(m, k as int);
        let q = m / (k as int);
        let r = m % (k as int);
        if r + 1 == k {
            assert(n == (q + 1) * k + 0) by (nonlinear_arith)
                requires
                    m == k * q + r,
                    r + 1 == k,
                    n == m + 1,
            ;
            lemma_fundamental_div_mod_converse(n as int, k as int, q + 1, 0);
        } else {
            assert(n == q * k + (r + 1)) by (nonlinear_arith)
                requires
                    m == k * q + r,
                    n == m + 1,
            ;
            lemma_fundamental_div_mod_converse(n as int, k as int, q, r + 1);
        }
    }
}

/// Sampling `periods * k` steps with stride `k` from a fresh sampler gives exactly
/// `periods` points: one per drive period.
pub proof fn lemma_one_sample_per_period(k: nat, periods: nat)
    requires
        k > 0,
    ensures
        recorded_count(k, periods * k) == periods,
{
    lemma_recorded_count(k, periods * k);
    lemma_fundamental_div_mod_converse((periods * k) as int, k as int, periods as int, 0);
}

} // verus!
