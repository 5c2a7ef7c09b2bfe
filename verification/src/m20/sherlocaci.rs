//! Calibration of the Mars 2020 SHERLOC context imager.

use vstd::prelude::*;
use crate::calibrate::{to_window, window_of, CalStep};
use crate::marsimage::{flatfield, flatfield_fits, flatfield_steps};
use crate::enums::Instrument;

verus! {

/// SHERLOC ACI calibration.
#[derive(Copy, Clone)]
pub struct M20SherlocAci {}

impl M20SherlocAci {
    pub fn accepts_instrument(&self, instrument: Instrument) -> (r: bool)
        ensures
            r == (instrument == Instrument::M20SherlocAci),
    {
        matches!(instrument, Instrument::M20SherlocAci)
    }
}

/// The crop applied to a calibrated ACI image of the given size when automatic
/// subframing is on: full-frame sizes lose their border.
pub fn auto_subframe(width: usize, height: usize, auto_subframing: bool) -> (r: Option<
    (usize, usize, usize, usize),
>)
    ensures
        r == (if auto_subframing && width == 1648 && height == 1200 {
            Some((23usize, 2usize, 1607usize, 1198usize))
        } else if auto_subframing && width == 1600 && height == 1200 {
            Some((23usize, 2usize, 1577usize, 1198usize))
        } else {
            None
        }),
{
    if auto_subframing {
        if width == 1648 && height == 1200 {
            return Some((23, 2, 1607, 1198));
        } else if width == 1600 && height == 1200 {
            return Some((23, 2, 1577, 1198));
        }
    }
    None
}

/// The steps of an ACI calibration of a `width` x `height` image: flat
/// fielding as `flatfield_steps` gives it, the stretch, and the border crop
/// of automatic subframing for full-frame sizes.
pub open spec fn aci_steps(
    flat_size: Option<(usize, usize)>,
    subframe: Option<(usize, usize, usize, usize)>,
    width: usize,
    height: usize,
    auto_subframing: bool,
) -> Seq<CalStep> {
    flatfield_steps(flat_size, subframe, width, height) + seq![CalStep::Normalize] + (
    if auto_subframing && width == 1648 && height == 1200 {
        seq![CalStep::CropImage(window_of((23usize, 2usize, 1607usize, 1198usize)))]
    } else if auto_subframing && width == 1600 && height == 1200 {
        seq![CalStep::CropImage(window_of((23usize, 2usize, 1577usize, 1198usize)))]
    } else {
        seq![]
    })
}

/// The steps of `aci_steps`.
pub fn calibration_steps(
    flat_size: Option<(usize, usize)>,
    subframe: Option<(usize, usize, usize, usize)>,
    width: usize,
    height: usize,
    auto_subframing: bool,
) -> (r: Vec<CalStep>)
    requires
        flatfield_fits(flat_size, subframe, width, height),
    ensures
        r@ == aci_steps(flat_size, subframe, width, height, auto_subframing),
{
    let mut steps = flatfield(flat_size, subframe, width, height);
    steps.push(CalStep::Normalize);
    match auto_subframe(width, height, auto_subframing) {
        Some(c) => {
            steps.push(CalStep::CropImage(to_window(c)));
        },
        None => {},
    }
    steps
}

} // verus!
