use vstd::prelude::*;
use crate::integrator::{BulirschStoer, EulerCromer, RK4, RK45};
use crate::types::IntegratorMethod;

verus! {

/// The fixed-step integrators, a closed set.
#[derive(Clone, Copy, Debug)]
pub enum Stepper {
    EulerCromer(EulerCromer),
    RK4(RK4),
}

/// The adaptive-step integrators, a closed set.
#[derive(Clone, Copy, Debug)]
pub enum AdaptiveStepper {
    RK45(RK45),
    BulirschStoer(BulirschStoer),
}

impl Stepper {
    /// The method that this integrator carries out.
    pub open spec fn spec_method(self) -> IntegratorMethod {
        match self {
            Stepper::EulerCromer(_) => IntegratorMethod::EulerCromer,
            Stepper::RK4(_) => IntegratorMethod::RK4,
        }
    }

    /// The method that this integrator carries out.
    #[verifier::when_used_as_spec(spec_method)]
    pub fn method(self) -> (m: IntegratorMethod)
        ensures
            m == self.spec_method(),
    {
        match self {
            Stepper::EulerCromer(_) => IntegratorMethod::EulerCromer,
            Stepper::RK4(_) => IntegratorMethod::RK4,
        }
    }
}

impl AdaptiveStepper {
    /// The method that this integrator carries out.
    pub open spec fn spec_method(self) -> IntegratorMethod {
        match self {
            AdaptiveStepper::RK45(_) => IntegratorMethod::RK45,
            AdaptiveStepper::BulirschStoer(_) => IntegratorMethod::BulirschStoer,
        }
    }

    /// The method that this integrator carries out.
    #[verifier::when_used_as_spec(spec_method)]
    pub fn method(self) -> (m: IntegratorMethod)
        ensures
            m == self.spec_method(),
    {
        match self {
            AdaptiveStepper::RK45(_) => IntegratorMethod::RK45,
            AdaptiveStepper::BulirschStoer(_) => IntegratorMethod::BulirschStoer,
        }
    }
}

/// The fixed-step integrator for a fixed-step method. Asking it for an adaptive
/// method is a contract violation.
pub fn build_stepper(method: IntegratorMethod) -> (s: Stepper)
    requires
        method.is_fixed_step(),
    ensures
        s.method() == method,
{
    match method {
        IntegratorMethod::EulerCromer => Stepper::EulerCromer(EulerCromer),
        _ => Stepper::RK4(RK4),
    }
}

/// The adaptive integrator for an adaptive method. Asking it for a fixed-step
/// method is a contract violation.
pub fn build_adaptive(method: IntegratorMethod) -> (s: AdaptiveStepper)
    requires
        !method.is_fixed_step(),
    ensures
        s.method() == method,
{
    match method {
        IntegratorMethod::RK45 => AdaptiveStepper::RK45(RK45),
        _ => AdaptiveStepper::BulirschStoer(BulirschStoer),
    }
}

} // verus!
