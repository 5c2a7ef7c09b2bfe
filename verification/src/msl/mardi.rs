//! Calibration of the Curiosity descent imager.

use vstd::prelude::*;
use crate::calibrate::{step_if, to_window, window_of, CalStep, ProfileSwitches};
use crate::marsimage::{flatfield, flatfield_fits, flatfield_steps};
use crate::enums::Instrument;

verus! {

/// The window `(x, y, width, height)` kept of a calibrated MARDI image.
pub const MARDI_CROP: (usize, usize, usize, usize) = (24, 6, 1599, 1188);

/// MARDI calibration.
#[derive(Copy, Clone)]
pub struct MslMardi {}

impl MslMardi {
    pub fn accepts_instrument(&self, instrument: Instrument) -> (r: bool)
        ensures
            r == (instrument == Instrument::MslMARDI),
    {
        matches!(instrument, Instrument::MslMARDI)
    }
}

/// The steps of a MARDI calibration of a `width` x `height` image: optional
/// decompanding, flat fielding as `flatfield_steps` gives it, colour
/// weights, the fixed crop and the stretch.
pub open spec fn mardi_steps(
    flat_size: Option<(usize, usize)>,
    subframe: Option<(usize, usize, usize, usize)>,
    width: usize,
    height: usize,
    p: ProfileSwitches,
) -> Seq<CalStep> {
    step_if(p.apply_ilt, CalStep::Decompand) + flatfield_steps(flat_size, subframe, width, height)
        + seq![CalStep::ApplyWeight, CalStep::CropImage(window_of(MARDI_CROP)), CalStep::Normalize]
}

/// The steps of `mardi_steps`.
pub fn calibration_steps(
    flat_size: Option<(usize, usize)>,
    subframe: Option<(usize, usize, usize, usize)>,
    width: usize,
    height: usize,
    p: &ProfileSwitches,
) -> (r: Vec<CalStep>)
    requires
        flatfield_fits(flat_size, subframe, width, height),
    ensures
        r@ == mardi_steps(flat_size, subframe, width, height, *p),
{
    let mut steps: Vec<CalStep> = Vec::new();
    if p.apply_ilt {
        steps.push(CalStep::Decompand);
    }
    let mut flat = flatfield(flat_size, subframe, width, height);
    steps.append(&mut flat);
    steps.push(CalStep::ApplyWeight);
    steps.push(CalStep::CropImage(to_window(MARDI_CROP)));
    steps.push(CalStep::Normalize);
    steps
}

} // verus!
