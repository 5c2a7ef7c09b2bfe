//! Calibration of the Mars 2020 PIXL micro-context camera.

use vstd::prelude::*;
use crate::calibrate::CalStep;
use crate::marsimage::{flatfield, flatfield_fits, flatfield_steps};
use crate::enums::Instrument;

verus! {

/// PIXL MCC calibration.
#[derive(Copy, Clone)]
pub struct M20Pixl {}

impl M20Pixl {
    pub fn accepts_instrument(&self, instrument: Instrument) -> (r: bool)
        ensures
            r == (instrument == Instrument::M20Pixl),
    {
        matches!(instrument, Instrument::M20Pixl)
    }
}

/// The steps of a PIXL MCC calibration of a `width` x `height` image: flat
/// fielding as `flatfield_steps` gives it, then the stretch.
pub open spec fn pixl_steps(
    flat_size: Option<(usize, usize)>,
    subframe: Option<(usize, usize, usize, usize)>,
    width: usize,
    height: usize,
) -> Seq<CalStep> {
    flatfield_steps(flat_size, subframe, width, height) + seq![CalStep::Normalize]
}

/// The steps of `pixl_steps`.
pub fn calibration_steps(
    flat_size: Option<(usize, usize)>,
    subframe: Option<(usize, usize, usize, usize)>,
    width: usize,
    height: usize,
) -> (r: Vec<CalStep>)
    requires
        flatfield_fits(flat_size, subframe, width, height),
    ensures
        r@ == pixl_steps(flat_size, subframe, width, height),
{
    let mut steps = flatfield(flat_size, subframe, width, height);
    steps.push(CalStep::Normalize);
    steps
}

} // verus!
