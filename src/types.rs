use vstd::prelude::*;

verus! {

/// The integration method of a run: two fixed-step and two adaptive-step schemes.
#[derive(Clone, Copy, Debug, PartialEq, Eq, Structural)]
pub enum IntegratorMethod {
    EulerCromer,
    RK4,
    RK45,
    BulirschStoer,
}

impl IntegratorMethod {
    /// Fixed-step methods advance by a constant sub-step and are sampled by stride.
    pub open spec fn spec_is_fixed_step(self) -> bool {
        self is EulerCromer || self is RK4
    }

    /// Whether the method belongs to the fixed-step family (Euler–Cromer, RK4);
    /// the others (RK45, Bulirsch–Stoer) take adaptive steps.
    #[verifier::when_used_as_spec(spec_is_fixed_step)]
    pub fn is_fixed_step(self) -> (r: bool)
        ensures
            r == self.spec_is_fixed_step(),
    {
        match self {
            IntegratorMethod::EulerCromer | IntegratorMethod::RK4 => true,
            IntegratorMethod::RK45 | IntegratorMethod::BulirschStoer => false,
        }
    }
}

/// How sampled states are turned into section points.
#[derive(Clone, Copy, Debug, PartialEq, Eq, Structural)]
pub struct PoincareConfig {
    /// Wrap the sampled angle into (−π, π].
    pub wrap_to_pi: bool,
}

/// Where rendered output goes.
#[derive(Clone, Debug)]
pub struct OutputConfig {
    /// Base name of the output files.
    pub out_base: String,
}

/// Layout of the rendered section plot: a square canvas and the sizes drawn on it.
#[derive(Clone, Debug)]
pub struct PlotView {
    /// Chart title.
    pub title: String,
    /// Side of the square canvas, in pixels.
    pub side_px: u32,
    /// Marker radius in pixels; absent means chosen from the canvas size.
    pub marker_size: Option<i32>,
    /// Title font size in pixels.
    pub title_font_px: Option<u32>,
    /// Axis label font size in pixels.
    pub axis_label_font_px: Option<u32>,
    /// Tick label font size in pixels.
    pub tick_font_px: Option<u32>,
}

} // verus!
