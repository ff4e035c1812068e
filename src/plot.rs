use vstd::prelude::*;
use crate::types::PlotView;

verus! {

/// Width and height of the canvas: both the configured side.
pub fn square_side(view: &PlotView) -> (r: (u32, u32))
    ensures
        r == (view.side_px, view.side_px),
{
    let side = view.side_px;
    (side, side)
}

/// The default marker radius: 2 pixels on a canvas of 1000 pixels or more, else 1.
pub open spec fn spec_marker_radius(px: u32) -> i32 {
    if px >= 1000 {
        2
    } else {
        1
    }
}

/// The default marker radius for a canvas side of `px` pixels.
#[verifier::when_used_as_spec(spec_marker_radius)]
pub fn marker_radius(px: u32) -> (r: i32)
    ensures
        r == spec_marker_radius(px),
{
    if px >= 1000 {
        2
    } else {
        1
    }
}

/// The marker radius drawn: the configured one, else the default for `side_px`.
pub fn effective_marker_radius(view: &PlotView, side_px: u32) -> (r: i32)
    ensures
        r == match view.marker_size {
            Some(n) => n,
            None => spec_marker_radius(side_px),
        },
{
    match view.marker_size {
        Some(n) => n,
        None => marker_radius(side_px),
    }
}

/// The integers from `first` to `last`, both included, in increasing order; empty
/// where `first > last`.
pub fn integer_ticks(first: i32, last: i32) -> (r: Vec<i32>)
    ensures
        r@.len() == if first <= last { last - first + 1 } else { 0 },
        forall|i: int| 0 <= i < r@.len() ==> r@[i] == first + i,
{
    let mut ticks: Vec<i32> = Vec::new();
    if first > last {
        return ticks;
    }
    let mut value: i32 = first;
    loop
        invariant
            first <= value <= last,
            ticks@.len() == value - first,
            forall|i: int| 0 <= i < ticks@.len() ==> ticks@[i] == first + i,
        decreases last - value,
    {
        ticks.push(value);
        if value == last {
            return ticks;
        }
        value = value + 1;
    }
}

} // verus!
