//! Calibration of the Mars 2020 engineering cameras (NavCams and HazCams).

use vstd::prelude::*;
use crate::calibrate::{step_if, CalStep, ProfileSwitches};
use crate::marsimage::{flatfield, flatfield_fits, flatfield_steps};
use crate::enums::Instrument;

verus! {

/// Engineering camera calibration.
#[derive(Copy, Clone)]
pub struct M20EECam {}

impl M20EECam {
    pub fn accepts_instrument(&self, instrument: Instrument) -> (r: bool)
        ensures
            r == (instrument == Instrument::M20FrontHazLeft || instrument
                == Instrument::M20FrontHazRight || instrument == Instrument::M20NavcamLeft
                || instrument == Instrument::M20NavcamRight || instrument
                == Instrument::M20RearHazLeft || instrument == Instrument::M20RearHazRight),
    {
        matches!(
            instrument,
            Instrument::M20FrontHazLeft | Instrument::M20FrontHazRight | Instrument::M20NavcamLeft
                | Instrument::M20NavcamRight | Instrument::M20RearHazLeft
                | Instrument::M20RearHazRight
        )
    }
}

/// The camera a Mars 2020 engineering image was taken with, from the first two
/// characters of its file name: `N`, `F` or `R` for NavCam, front or rear
/// HazCam, then `L` for left (anything else: right). Other names are taken
/// for the right NavCam.
pub open spec fn ecam_instrument_for(name: Seq<char>) -> Instrument {
    let left = name[1] == 'L';
    if name[0] == 'N' {
        if left {
            Instrument::M20NavcamLeft
        } else {
            Instrument::M20NavcamRight
        }
    } else if name[0] == 'F' {
        if left {
            Instrument::M20FrontHazLeft
        } else {
            Instrument::M20FrontHazRight
        }
    } else if name[0] == 'R' {
        if left {
            Instrument::M20RearHazLeft
        } else {
            Instrument::M20RearHazRight
        }
    } else {
        Instrument::M20NavcamRight
    }
}

/// Determines the camera from an image's file name (without directories).
pub fn instrument_from_file_name(file_name: &str) -> (r: Instrument)
    requires
        file_name@.len() >= 2,
    ensures
        r == ecam_instrument_for(file_name@),
{
    let c0 = file_name.get_char(0);
    let left = file_name.get_char(1) == 'L';
    if c0 == 'N' {
        if left {
            Instrument::M20NavcamLeft
        } else {
            Instrument::M20NavcamRight
        }
    } else if c0 == 'F' {
        if left {
            Instrument::M20FrontHazLeft
        } else {
            Instrument::M20FrontHazRight
        }
    } else if c0 == 'R' {
        if left {
            Instrument::M20RearHazLeft
        } else {
            Instrument::M20RearHazRight
        }
    } else {
        Instrument::M20NavcamRight
    }
}

/// The steps of an engineering camera calibration of a `width` x `height`
/// image: optional decompanding, debayering of a grayscale image, flat
/// fielding with the instrument's flat field when there is one (`flat_size`)
/// cut to the subframe rectangle and the image, colour weights unless the
/// image is still grayscale after debayering, and the stretch.
pub open spec fn ecam_steps(
    is_grayscale: bool,
    is_grayscale_after_debayer: bool,
    flat_size: Option<(usize, usize)>,
    subframe: Option<(usize, usize, usize, usize)>,
    width: usize,
    height: usize,
    p: ProfileSwitches,
) -> Seq<CalStep> {
    step_if(p.apply_ilt, CalStep::Decompand) + step_if(is_grayscale, CalStep::Debayer)
        + flatfield_steps(flat_size, subframe, width, height) + step_if(
        !is_grayscale_after_debayer,
        CalStep::ApplyWeight,
    ) + seq![CalStep::Normalize]
}

/// The steps of `ecam_steps`.
pub fn calibration_steps(
    is_grayscale: bool,
    is_grayscale_after_debayer: bool,
    flat_size: Option<(usize, usize)>,
    subframe: Option<(usize, usize, usize, usize)>,
    width: usize,
    height: usize,
    p: &ProfileSwitches,
) -> (r: Vec<CalStep>)
    requires
        flatfield_fits(flat_size, subframe, width, height),
    ensures
        r@ == ecam_steps(
            is_grayscale,
            is_grayscale_after_debayer,
            flat_size,
            subframe,
            width,
            height,
            *p,
        ),
{
    let mut steps: Vec<CalStep> = Vec::new();
    if p.apply_ilt {
        steps.push(CalStep::Decompand);
    }
    if is_grayscale {
        steps.push(CalStep::Debayer);
    }
    let mut flat = flatfield(flat_size, subframe, width, height);
    steps.append(&mut flat);
    if !is_grayscale_after_debayer {
        steps.push(CalStep::ApplyWeight);
    }
    steps.push(CalStep::Normalize);
    steps
}

} // verus!
