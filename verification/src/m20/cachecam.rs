//! Calibration of the Mars 2020 CacheCam.

use vstd::prelude::*;
use crate::calibrate::{step_if, CalStep, ProfileSwitches};
use crate::enums::Instrument;

verus! {

/// CacheCam calibration.
#[derive(Copy, Clone)]
pub struct M20CacheCam {}

impl M20CacheCam {
    pub fn accepts_instrument(&self, instrument: Instrument) -> (r: bool)
        ensures
            r == (instrument == Instrument::M20CacheCam),
    {
        matches!(instrument, Instrument::M20CacheCam)
    }
}

/// The steps of a CacheCam calibration: optional decompanding, colour
/// weights and the stretch.
pub open spec fn cachecam_steps(p: ProfileSwitches) -> Seq<CalStep> {
    step_if(p.apply_ilt, CalStep::Decompand) + seq![CalStep::ApplyWeight, CalStep::Normalize]
}

/// The steps of `cachecam_steps`.
pub fn calibration_steps(p: &ProfileSwitches) -> (r: Vec<CalStep>)
    ensures
        r@ == cachecam_steps(*p),
{
    let mut steps: Vec<CalStep> = Vec::new();
    if p.apply_ilt {
        steps.push(CalStep::Decompand);
    }
    steps.push(CalStep::ApplyWeight);
    steps.push(CalStep::Normalize);
    steps
}

} // verus!
