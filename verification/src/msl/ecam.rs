//! Calibration of the Curiosity engineering cameras (NavCams and HazCams).

use vstd::prelude::*;
use crate::calibrate::{step_if, to_window, win, CalStep, ProfileSwitches};
use crate::marsimage::{subframe_window, to_subframe_window};
use crate::enums::Instrument;

verus! {

/// Engineering camera calibration.
#[derive(Copy, Clone)]
pub struct MslEcam {}

impl MslEcam {
    pub fn accepts_instrument(&self, instrument: Instrument) -> (r: bool)
        ensures
            r == (instrument == Instrument::MslNavCamLeft || instrument
                == Instrument::MslNavCamRight || instrument == Instrument::MslFrontHazLeft
                || instrument == Instrument::MslFrontHazRight || instrument
                == Instrument::MslRearHazLeft || instrument == Instrument::MslRearHazRight),
    {
        matches!(
            instrument,
            Instrument::MslNavCamLeft | Instrument::MslNavCamRight | Instrument::MslFrontHazLeft
                | Instrument::MslFrontHazRight | Instrument::MslRearHazLeft
                | Instrument::MslRearHazRight
        )
    }
}

/// Whether a file name starts like a Curiosity engineering camera image:
/// `N`, `F` or `R`.
pub open spec fn is_ecam_file_name(name: Seq<char>) -> bool {
    name.len() >= 2 && (name[0] == 'N' || name[0] == 'F' || name[0] == 'R')
}

/// The camera of an engineering image from its file name: `N`, `F` or `R` for
/// NavCam, front or rear HazCam, then `L` for left (anything else: right).
pub open spec fn ecam_instrument_for(name: Seq<char>) -> Instrument {
    let left = name[1] == 'L';
    if name[0] == 'N' {
        if left {
            Instrument::MslNavCamLeft
        } else {
            Instrument::MslNavCamRight
        }
    } else if name[0] == 'F' {
        if left {
            Instrument::MslFrontHazLeft
        } else {
            Instrument::MslFrontHazRight
        }
    } else {
        if left {
            Instrument::MslRearHazLeft
        } else {
            Instrument::MslRearHazRight
        }
    }
}

/// Determines the camera from an image's file name (without directories).
pub fn instrument_from_file_name(file_name: &str) -> (r: Instrument)
    requires
        is_ecam_file_name(file_name@),
    ensures
        r == ecam_instrument_for(file_name@),
{
    let c0 = file_name.get_char(0);
    let left = file_name.get_char(1) == 'L';
    if c0 == 'N' {
        if left {
            Instrument::MslNavCamLeft
        } else {
            Instrument::MslNavCamRight
        }
    } else if c0 == 'F' {
        if left {
            Instrument::MslFrontHazLeft
        } else {
            Instrument::MslFrontHazRight
        }
    } else {
        if left {
            Instrument::MslRearHazLeft
        } else {
            Instrument::MslRearHazRight
        }
    }
}

/// Inpainting is applied to full-height frames of cameras that have a mask.
pub fn inpaint_applies(mask_available: bool, height: usize) -> (r: bool)
    ensures
        r == (mask_available && height >= 1022),
{
    mask_available && height >= 1022
}

/// The window that trims the one-pixel border of a calibrated image.
pub fn border_window(width: usize, height: usize) -> (r: (usize, usize, usize, usize))
    requires
        width >= 2,
        height >= 2,
    ensures
        r == (1usize, 1usize, (width - 2) as usize, (height - 2) as usize),
{
    crate::calibrate::trim_window(width, height, 1, 1, 1, 1)
}

/// The steps of an engineering camera calibration of a `width` x `height`
/// image with its instrument's flat field, and the metadata's subframe
/// rectangle (corner counted from one) when it has one: inpainting of
/// full-height frames of cameras with a mask, optional hot pixel correction,
/// the flat field cut to the subframe and applied, colour weights, the
/// stretch, and the one-pixel border cut off.
pub open spec fn ecam_steps(
    mask_available: bool,
    subframe: Option<(usize, usize, usize, usize)>,
    width: usize,
    height: usize,
    p: ProfileSwitches,
) -> Seq<CalStep> {
    step_if(mask_available && height >= 1022, CalStep::Inpaint) + step_if(
        p.hot_pixel_correction,
        CalStep::HotPixelCorrection,
    ) + (match subframe {
        Some(r) => seq![CalStep::CropFlat(subframe_window(r))],
        None => seq![],
    }) + seq![
        CalStep::Flatfield,
        CalStep::ApplyWeight,
        CalStep::Normalize,
        CalStep::CropImage(win(1, 1, (width - 2) as usize, (height - 2) as usize)),
    ]
}

/// The steps of `ecam_steps`. A subframe rectangle has its corner counted
/// from one; the image has a one-pixel border to lose.
pub fn calibration_steps(
    mask_available: bool,
    subframe: Option<(usize, usize, usize, usize)>,
    width: usize,
    height: usize,
    p: &ProfileSwitches,
) -> (r: Vec<CalStep>)
    requires
        subframe matches Some(r) ==> r.0 >= 1 && r.1 >= 1,
        width >= 2,
        height >= 2,
    ensures
        r@ == ecam_steps(mask_available, subframe, width, height, *p),
{
    let mut steps: Vec<CalStep> = Vec::new();
    if inpaint_applies(mask_available, height) {
        steps.push(CalStep::Inpaint);
    }
    if p.hot_pixel_correction {
        steps.push(CalStep::HotPixelCorrection);
    }
    match subframe {
        Some(r) => {
            steps.push(CalStep::CropFlat(to_subframe_window(r)));
        },
        None => {},
    }
    steps.push(CalStep::Flatfield);
    steps.push(CalStep::ApplyWeight);
    steps.push(CalStep::Normalize);
    steps.push(CalStep::CropImage(to_window(border_window(width, height))));
    assert(steps@ =~= ecam_steps(mask_available, subframe, width, height, *p));
    steps
}

} // verus!
