use pendulum_poincare::integrator::{
    baseline_step_hundredths,
    default_substeps, saturating_product, snap_even, steps_for_sampling, steps_for_warmup,
    user_substeps,
};
use pendulum_poincare::simulate::{build_adaptive, build_stepper, AdaptiveStepper, Stepper};
use pendulum_poincare::types::IntegratorMethod;

const ALL_METHODS: [IntegratorMethod; 4] = [
    IntegratorMethod::EulerCromer,
    IntegratorMethod::RK4,
    IntegratorMethod::RK45,
    IntegratorMethod::BulirschStoer,
];

#[test]
fn snap_even_keeps_even_counts() {
    assert_eq!(snap_even(0), 0);
    assert_eq!(snap_even(4), 4);
    assert_eq!(snap_even(158), 158);
}

#[test]
fn snap_even_breaks_ties_upward() {
    assert_eq!(snap_even(1), 2);
    assert_eq!(snap_even(3), 4);
    assert_eq!(snap_even(157), 158);
}

#[test]
fn snap_even_at_the_top_of_usize_goes_down() {
    assert_eq!(snap_even(usize::MAX), usize::MAX - 1);
    assert_eq!(snap_even(usize::MAX - 1), usize::MAX - 1);
}

#[test]
fn user_substeps_floors_at_one_then_snaps() {
    assert_eq!(user_substeps(0), 2);
    assert_eq!(user_substeps(1), 2);
    assert_eq!(user_substeps(2), 2);
    assert_eq!(user_substeps(157), 158);
    assert_eq!(user_substeps(200), 200);
}

#[test]
fn default_substeps_without_demanding_regime() {
    // drive period 2π/(2/3) ≈ 9.42: 9.42 / 0.04 ≈ 236, 9.42 / 0.02 ≈ 471
    assert_eq!(default_substeps(IntegratorMethod::RK4, 236, false), 236);
    assert_eq!(default_substeps(IntegratorMethod::EulerCromer, 471, false), 472);
    assert_eq!(default_substeps(IntegratorMethod::RK45, 157, false), 158);
}

#[test]
fn default_substeps_raised_for_demanding_regime() {
    assert_eq!(default_substeps(IntegratorMethod::RK4, 236, true), 354);
    assert_eq!(default_substeps(IntegratorMethod::RK4, 235, true), 354);
    assert_eq!(default_substeps(IntegratorMethod::BulirschStoer, 3, true), 6);
    assert_eq!(default_substeps(IntegratorMethod::EulerCromer, 471, true), 942);
}

#[test]
fn default_substeps_with_zero_base_uses_one() {
    assert_eq!(default_substeps(IntegratorMethod::RK4, 0, false), 2);
    assert_eq!(default_substeps(IntegratorMethod::RK4, 0, true), 2);
    assert_eq!(default_substeps(IntegratorMethod::EulerCromer, 0, true), 2);
}

#[test]
fn default_substeps_saturate_for_huge_bases() {
    assert_eq!(default_substeps(IntegratorMethod::EulerCromer, usize::MAX, true), usize::MAX - 1);
    assert_eq!(default_substeps(IntegratorMethod::RK45, usize::MAX - 1, true), usize::MAX - 1);
    assert_eq!(default_substeps(IntegratorMethod::RK45, 1usize << 63, true), 3usize << 62);
}

#[test]
fn substep_counts_are_even_and_at_least_two() {
    for base in 0..300usize {
        for method in ALL_METHODS {
            for demanding in [false, true] {
                let k = default_substeps(method, base, demanding);
                assert!(k >= 2 && k % 2 == 0, "base {base} gave {k}");
            }
        }
        let k = user_substeps(base);
        assert!(k >= 2 && k % 2 == 0, "rounded {base} gave {k}");
    }
}

#[test]
fn phase_step_counts_multiply_periods_by_substeps() {
    assert_eq!(steps_for_warmup(200, 354), 70_800);
    assert_eq!(steps_for_sampling(500, 354), 177_000);
    assert_eq!(steps_for_warmup(0, 354), 0);
    assert_eq!(saturating_product(7, 6), 42);
}

#[test]
fn phase_step_counts_saturate() {
    assert_eq!(steps_for_warmup(usize::MAX, 2), usize::MAX);
    assert_eq!(steps_for_sampling(usize::MAX / 2 + 1, 2), usize::MAX);
    assert_eq!(saturating_product(usize::MAX, 0), 0);
}

#[test]
fn methods_split_into_fixed_and_adaptive() {
    assert!(IntegratorMethod::EulerCromer.is_fixed_step());
    assert!(IntegratorMethod::RK4.is_fixed_step());
    assert!(!IntegratorMethod::RK45.is_fixed_step());
    assert!(!IntegratorMethod::BulirschStoer.is_fixed_step());
}

#[test]
fn builders_give_the_requested_method() {
    assert!(matches!(build_stepper(IntegratorMethod::EulerCromer), Stepper::EulerCromer(_)));
    assert!(matches!(build_stepper(IntegratorMethod::RK4), Stepper::RK4(_)));
    assert!(matches!(build_adaptive(IntegratorMethod::RK45), AdaptiveStepper::RK45(_)));
    assert!(matches!(
        build_adaptive(IntegratorMethod::BulirschStoer),
        AdaptiveStepper::BulirschStoer(_)
    ));
    assert_eq!(build_stepper(IntegratorMethod::RK4).method(), IntegratorMethod::RK4);
    assert_eq!(
        build_adaptive(IntegratorMethod::BulirschStoer).method(),
        IntegratorMethod::BulirschStoer
    );
}

#[test]
fn euler_cromer_has_the_finer_baseline() {
    assert_eq!(baseline_step_hundredths(IntegratorMethod::EulerCromer), 2);
    assert_eq!(baseline_step_hundredths(IntegratorMethod::RK4), 4);
    assert_eq!(baseline_step_hundredths(IntegratorMethod::RK45), 4);
    assert_eq!(baseline_step_hundredths(IntegratorMethod::BulirschStoer), 4);
}
