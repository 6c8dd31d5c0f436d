//! Sample counting for the plotted curves.
//!
//! The curves are drawn as a polyline over evenly spaced samples of a
//! fixed window of two periods. How many samples that takes is a design
//! parameter: a sample density per unit of drawing width times the width
//! itself. The count is exact and proved here; the sample positions and
//! the curve values at them are floating point and live with the caller.

use vstd::prelude::*;

verus! {

/// Widest drawing the sampler is asked to cover.
pub const MAX_PLOT_WIDTH: u64 = 1000000;

/// Densest sampling the sampler is asked for.
pub const MAX_SAMPLES_PER_UNIT: u64 = 1000000;

/// How many samples a drawing of the given width takes at the given
/// density. The bounds keep the product within a `u64`.
pub fn sample_count(width: u64, per_unit: u64) -> (r: u64)
    requires
        width <= MAX_PLOT_WIDTH,
        per_unit <= MAX_SAMPLES_PER_UNIT,
    ensures
        r == width * per_unit,
{
    proof {
        assert(width * per_unit <= 1000000000000) by (nonlinear_arith)
            requires
                width <= 1000000,
                per_unit <= 1000000,
        ;
    }
    width * per_unit
}

} // verus!
