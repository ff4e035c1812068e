use vstd::prelude::*;
use crate::types::IntegratorMethod;

verus! {

/// The even integer nearest to `x`, ties going to the larger one; where the larger
/// one does not fit in a `usize`, the smaller one.
pub open spec fn nearest_even(x: int) -> int {
    if x % 2 == 0 {
        x
    } else if x + 1 <= usize::MAX {
        x + 1
    } else {
        x - 1
    }
}

/// Snaps a step count to the nearest even value (ties toward the larger one).
pub fn snap_even(x: usize) -> (r: usize)
    ensures
        r == nearest_even(x as int),
        r % 2 == 0,
        x >= 1 ==> r >= 2,
{
    let lower = if x % 2 == 0 { x } else { x - 1 };
    let higher = match lower.checked_add(2) {
        Some(h) => h,
        None => lower,
    };
    let dist_lower = x - lower;
    let dist_higher = higher.saturating_sub(x);
    if dist_higher <= dist_lower {
        higher
    } else {
        lower
    }
}

/// Euler–Cromer: the semi-implicit fixed-step scheme.
#[derive(Clone, Copy, Debug)]
pub struct EulerCromer;

/// Classical four-stage Runge–Kutta, fixed step.
#[derive(Clone, Copy, Debug)]
pub struct RK4;

/// Embedded Dormand–Prince 5(4) pair with adaptive steps.
#[derive(Clone, Copy, Debug)]
pub struct RK45;

/// Bulirsch–Stoer: modified midpoint with Richardson extrapolation, adaptive steps.
#[derive(Clone, Copy, Debug)]
pub struct BulirschStoer;

/// `x` with its lower bound raised to one.
pub open spec fn at_least_one(x: int) -> int {
    if x < 1 {
        1
    } else {
        x
    }
}

/// `x` capped at the largest `usize`.
pub open spec fn cap_usize(x: int) -> int {
    if x > usize::MAX {
        usize::MAX as int
    } else {
        x
    }
}

/// A base sub-step count raised for a demanding regime: doubled for Euler–Cromer,
/// multiplied by 1.5 and rounded half up for the others.
pub open spec fn raised_count(method: IntegratorMethod, k0: int) -> int {
    if method is EulerCromer {
        cap_usize(2 * k0)
    } else {
        cap_usize(k0 + (k0 + 1) / 2)
    }
}

/// The number of sub-steps per drive period for a fixed-step run without a user step.
pub open spec fn default_count(method: IntegratorMethod, base: int, demanding: bool) -> int {
    let k0 = at_least_one(base);
    nearest_even(if demanding { raised_count(method, k0) } else { k0 })
}

/// The baseline step of a method without a user step, in hundredths of a time
/// unit: Euler–Cromer needs a finer one than the Runge–Kutta family.
pub fn baseline_step_hundredths(method: IntegratorMethod) -> (r: u32)
    ensures
        r == if method is EulerCromer {
            2u32
        } else {
            4u32
        },
{
    match method {
        IntegratorMethod::EulerCromer => 2,
        IntegratorMethod::RK4 | IntegratorMethod::RK45 | IntegratorMethod::BulirschStoer => 4,
    }
}

/// Sub-steps per drive period from a user step size: `rounded` is the drive period
/// divided by that step, rounded to the nearest integer. At least one step, then
/// snapped to even.
pub fn user_substeps(rounded: usize) -> (k: usize)
    ensures
        k == nearest_even(at_least_one(rounded as int)),
        k % 2 == 0,
        k >= 2,
{
    let k = if rounded < 1 { 1 } else { rounded };
    snap_even(k)
}

/// Sub-steps per drive period without a user step. `base` is the drive period over
/// the method's baseline step, rounded; `demanding` tells a strongly driven or
/// weakly damped system, for which the count is raised before it is snapped to even.
pub fn default_substeps(method: IntegratorMethod, base: usize, demanding: bool) -> (k: usize)
    ensures
        k == default_count(method, base as int, demanding),
        k % 2 == 0,
        k >= 2,
{
    let mut k0 = base;
    if k0 == 0 {
        k0 = 1;
    }
    if demanding {
        k0 = match method {
            IntegratorMethod::EulerCromer => k0.saturating_add(k0),
            IntegratorMethod::RK4 | IntegratorMethod::RK45 | IntegratorMethod::BulirschStoer => {
                k0.saturating_add(k0 / 2 + k0 % 2)
            },
        };
    }
    snap_even(k0)
}

/// `n * k`, saturating at the largest `usize`.
pub fn saturating_product(n: usize, k: usize) -> (r: usize)
    ensures
        r == cap_usize(n * k),
{
    match n.checked_mul(k) {
        Some(p) => p,
        None => usize::MAX,
    }
}

/// Integrator steps in the warmup phase: `k` sub-steps for each warmup period,
/// saturating on overflow.
pub fn steps_for_warmup(n_periods_warmup: usize, k: usize) -> (r: usize)
    ensures
        r == cap_usize(n_periods_warmup * k),
{
    saturating_product(n_periods_warmup, k)
}

/// Integrator steps in the sampling phase: `k` sub-steps for each sampled period,
/// saturating on overflow.
pub fn steps_for_sampling(n_periods_samples: usize, k: usize) -> (r: usize)
    ensures
        r == cap_usize(n_periods_samples * k),
{
    saturating_product(n_periods_samples, k)
}

} // verus!
