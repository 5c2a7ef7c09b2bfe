//! Calibration of the Mars 2020 SkyCam.

use vstd::prelude::*;
use crate::calibrate::{step_if, to_window, win, CalStep, ProfileSwitches};
use crate::enums::Instrument;

verus! {

/// SkyCam calibration.
#[derive(Copy, Clone)]
pub struct M20SkyCam {}

impl M20SkyCam {
    pub fn accepts_instrument(&self, instrument: Instrument) -> (r: bool)
        ensures
            r == (instrument == Instrument::M20SkyCam),
    {
        matches!(instrument, Instrument::M20SkyCam)
    }
}

/// The window that trims SkyCam border pixels: 18 columns on the left, 16 on
/// the right, one row at top and bottom.
pub fn border_window(width: usize, height: usize) -> (r: (usize, usize, usize, usize))
    requires
        width >= 34,
        height >= 2,
    ensures
        r == (18usize, 1usize, (width - 34) as usize, (height - 2) as usize),
{
    crate::calibrate::trim_window(width, height, 18, 1, 16, 1)
}

/// The steps of a SkyCam calibration of a `width` x `height` image: its flat
/// field applied as it is, optional hot pixel correction, the stretch and
/// the border crop.
pub open spec fn skycam_steps(width: usize, height: usize, p: ProfileSwitches) -> Seq<CalStep> {
    seq![CalStep::Flatfield] + step_if(p.hot_pixel_correction, CalStep::HotPixelCorrection) + seq![
        CalStep::Normalize,
        CalStep::CropImage(win(18, 1, (width - 34) as usize, (height - 2) as usize)),
    ]
}

/// The steps of `skycam_steps`; the image must be at least 34 x 2 pixels.
pub fn calibration_steps(width: usize, height: usize, p: &ProfileSwitches) -> (r: Vec<CalStep>)
    requires
        width >= 34,
        height >= 2,
    ensures
        r@ == skycam_steps(width, height, *p),
{
    let mut steps: Vec<CalStep> = Vec::new();
    steps.push(CalStep::Flatfield);
    if p.hot_pixel_correction {
        steps.push(CalStep::HotPixelCorrection);
    }
    steps.push(CalStep::Normalize);
    steps.push(CalStep::CropImage(to_window(border_window(width, height))));
    assert(steps@ =~= skycam_steps(width, height, *p));
    steps
}

} // verus!
