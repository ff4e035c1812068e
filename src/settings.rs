use vstd::prelude::*;
use crate::types::{OutputConfig, PlotView};

verus! {

/// What trimming leading and trailing whitespace leaves of a string.
pub uninterp spec fn trimmed(s: Seq<char>) -> Seq<char>;

/// Relies on `str::trim`: the slice without leading and trailing whitespace, which
/// depends on the characters alone.
#[verifier::external_body]
fn trim_str(s: &str) -> (r: &str)
    ensures
        r@ == trimmed(s@),
{
    s.trim()
}

/// A string that holds nothing but whitespace.
pub open spec fn is_blank(s: Seq<char>) -> bool {
    trimmed(s).len() == 0
}

/// The output base name used when none is given.
pub const DEFAULT_OUT_BASE: &'static str = "poincare";

/// Gives the output the default base name where `trimmed_base`, its base name with
/// surrounding whitespace removed, is empty; keeps it otherwise.
pub fn fill_blank_base(output: &mut OutputConfig, trimmed_base: &str)
    ensures
        trimmed_base@.len() == 0 ==> final(output).out_base@ == DEFAULT_OUT_BASE@,
        trimmed_base@.len() != 0 ==> *final(output) == *old(output),
{
    if trimmed_base.is_empty() {
        output.out_base = DEFAULT_OUT_BASE.to_owned();
    }
}

/// Gives a blank output base name the default one; keeps any other.
pub fn derive_outputs(output: &mut OutputConfig)
    ensures
        is_blank(old(output).out_base@) ==> final(output).out_base@ == DEFAULT_OUT_BASE@,
        !is_blank(old(output).out_base@) ==> *final(output) == *old(output),
{
    let base = output.out_base.clone();
    let trimmed_base = trim_str(base.as_str());
    fill_blank_base(output, trimmed_base);
}

/// An optional size read as zero when absent.
pub open spec fn size_or_zero(size: Option<u32>) -> u32 {
    match size {
        Some(s) => s,
        None => 0,
    }
}

/// A font size below `min`, or absent, replaced by `default`.
pub open spec fn font_or_default(size: Option<u32>, min: u32, default: u32) -> Option<u32> {
    if size_or_zero(size) < min {
        Some(default)
    } else {
        size
    }
}

/// A marker size below one pixel dropped, so that the default applies.
pub open spec fn usable_marker(size: Option<i32>) -> Option<i32> {
    match size {
        Some(s) => if s < 1 {
            None
        } else {
            Some(s)
        },
        None => None,
    }
}

fn replace_small_font(size: Option<u32>, min: u32, default: u32) -> (r: Option<u32>)
    ensures
        r == font_or_default(size, min, default),
{
    let current = match size {
        Some(s) => s,
        None => 0,
    };
    if current < min {
        Some(default)
    } else {
        size
    }
}

/// Fills in the plot sizes of a freshly read configuration: a marker size below one
/// is dropped, and a title or axis label font under 8 pixels becomes 64 or 36, a tick
/// font under 6 pixels becomes 28.
pub fn normalize_plot_view(view: &mut PlotView)
    ensures
        final(view).marker_size == usable_marker(old(view).marker_size),
        final(view).title_font_px == font_or_default(old(view).title_font_px, 8, 64),
        final(view).axis_label_font_px == font_or_default(old(view).axis_label_font_px, 8, 36),
        final(view).tick_font_px == font_or_default(old(view).tick_font_px, 6, 28),
        final(view).title == old(view).title,
        final(view).side_px == old(view).side_px,
{
    if let Some(size) = view.marker_size {
        if size < 1 {
            view.marker_size = None;
        }
    }
    view.title_font_px = replace_small_font(view.title_font_px, 8, 64);
    view.axis_label_font_px = replace_small_font(view.axis_label_font_px, 8, 36);
    view.tick_font_px = replace_small_font(view.tick_font_px, 6, 28);
}

/// Why the sampling, plot or output part of a configuration is refused.
#[derive(Clone, Copy, Debug, PartialEq, Eq, Structural)]
pub enum ConfigError {
    /// No drive period is to be sampled.
    NoSamplePeriods,
    /// The canvas side is under 200 pixels.
    PlotTooSmall,
    /// The title font is under 8 pixels.
    TitleFontTooSmall,
    /// The axis label font is under 8 pixels.
    AxisLabelFontTooSmall,
    /// The tick label font is under 6 pixels.
    TickFontTooSmall,
    /// The output base name is blank.
    BlankOutputBase,
}

/// A given size under `min`.
pub open spec fn below(size: Option<u32>, min: u32) -> bool {
    match size {
        Some(s) => s < min,
        None => false,
    }
}

/// The first rule, in the order checked, that the settings break; none where all hold.
pub open spec fn settings_error(n_periods_samples: usize, view: PlotView, blank_base: bool) -> Option<
    ConfigError,
> {
    if n_periods_samples == 0 {
        Some(ConfigError::NoSamplePeriods)
    } else if view.side_px < 200 {
        Some(ConfigError::PlotTooSmall)
    } else if below(view.title_font_px, 8) {
        Some(ConfigError::TitleFontTooSmall)
    } else if below(view.axis_label_font_px, 8) {
        Some(ConfigError::AxisLabelFontTooSmall)
    } else if below(view.tick_font_px, 6) {
        Some(ConfigError::TickFontTooSmall)
    } else if blank_base {
        Some(ConfigError::BlankOutputBase)
    } else {
        None
    }
}

fn is_below(size: Option<u32>, min: u32) -> (r: bool)
    ensures
        r == below(size, min),
{
    match size {
        Some(s) => s < min,
        None => false,
    }
}

/// Checks the sampling, plot and output settings, the output base name being given
/// as `trimmed_base`, with surrounding whitespace removed: at least one sampled
/// period, a canvas of at least 200 pixels, title and axis label fonts of at least 8
/// pixels and tick fonts of at least 6 where given, and a base name that is not empty.
pub fn validate_trimmed(n_periods_samples: usize, view: &PlotView, trimmed_base: &str) -> (r: Result<
    (),
    ConfigError,
>)
    ensures
        r == match settings_error(n_periods_samples, *view, trimmed_base@.len() == 0) {
            None => Ok::<(), ConfigError>(()),
            Some(e) => Err(e),
        },
{
    if n_periods_samples == 0 {
        return Err(ConfigError::NoSamplePeriods);
    }
    if view.side_px < 200 {
        return Err(ConfigError::PlotTooSmall);
    }
    if is_below(view.title_font_px, 8) {
        return Err(ConfigError::TitleFontTooSmall);
    }
    if is_below(view.axis_label_font_px, 8) {
        return Err(ConfigError::AxisLabelFontTooSmall);
    }
    if is_below(view.tick_font_px, 6) {
        return Err(ConfigError::TickFontTooSmall);
    }
    if trimmed_base.is_empty() {
        return Err(ConfigError::BlankOutputBase);
    }
    Ok(())
}

/// Checks the sampling, plot and output settings: at least one sampled period, a
/// canvas of at least 200 pixels, title and axis label fonts of at least 8 pixels and
/// tick fonts of at least 6 where given, and an output base name that is not blank.
pub fn validate_settings(n_periods_samples: usize, view: &PlotView, output: &OutputConfig) -> (r:
    Result<(), ConfigError>)
    ensures
        r == match settings_error(n_periods_samples, *view, is_blank(output.out_base@)) {
            None => Ok::<(), ConfigError>(()),
            Some(e) => Err(e),
        },
{
    validate_trimmed(n_periods_samples, view, trim_str(output.out_base.as_str()))
}

} // verus!
