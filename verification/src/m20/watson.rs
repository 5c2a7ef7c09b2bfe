//! Calibration of the Mars 2020 WATSON camera.

use vstd::prelude::*;
use crate::calibrate::{normalize_for, normalize_step, step_if, to_window, window_of, CalStep, ProfileSwitches};
use crate::util::{contains_sub, str_contains};
use crate::enums::Instrument;

verus! {

/// WATSON calibration.
#[derive(Copy, Clone)]
pub struct M20Watson {}

impl M20Watson {
    pub fn accepts_instrument(&self, instrument: Instrument) -> (r: bool)
        ensures
            r == (instrument == Instrument::M20Watson),
    {
        matches!(instrument, Instrument::M20Watson)
    }
}

/// The part of the full-sensor flat field and inpainting mask that matches an
/// image of the given size: a 1584x1184 image is the sensor without its border.
pub fn calibration_subframe(width: usize, height: usize) -> (r: Option<(usize, usize, usize, usize)>)
    ensures
        r == (if width == 1584 && height == 1184 {
            Some((32usize, 16usize, 1584usize, 1184usize))
        } else {
            None
        }),
{
    if width == 1584 && height == 1184 {
        Some((32, 16, 1584, 1184))
    } else {
        None
    }
}

/// The final crop of a calibrated image: 1648-pixel-wide images lose their
/// border.
pub fn final_crop(width: usize) -> (r: Option<(usize, usize, usize, usize)>)
    ensures
        r == (if width == 1648 {
            Some((24usize, 4usize, 1600usize, 1192usize))
        } else {
            None
        }),
{
    if width == 1648 {
        Some((24, 4, 1600, 1192))
    } else {
        None
    }
}

/// The steps of a WATSON calibration of a `width` x `height` image read from
/// `input_file`: optional decompanding; debayering of a grayscale image whose
/// name marks it as Bayer-patterned (`ECM`); the flat field and the
/// inpainting mask cut to the sensor area of a subframed image; colour
/// weights, the final crop of full-width images, optional sRGB conversion and
/// the stretch.
pub open spec fn watson_steps(
    input_file: Seq<char>,
    is_grayscale: bool,
    width: usize,
    height: usize,
    p: ProfileSwitches,
) -> Seq<CalStep> {
    watson_head_steps(input_file, is_grayscale, p) + watson_flat_steps(width, height)
        + watson_finish_steps(width, p)
}

/// Decompanding and debayering.
pub open spec fn watson_head_steps(input_file: Seq<char>, is_grayscale: bool, p: ProfileSwitches) -> Seq<
    CalStep,
> {
    step_if(p.apply_ilt, CalStep::Decompand) + step_if(
        contains_sub(input_file, "ECM"@) && is_grayscale,
        CalStep::Debayer,
    )
}

/// Flat fielding and inpainting, with the calibration images cut to the
/// sensor area of a subframed image, then the colour weights.
pub open spec fn watson_flat_steps(width: usize, height: usize) -> Seq<CalStep> {
    match watson_subframe(width, height) {
        Some(c) => seq![
            CalStep::CropFlat(window_of(c)),
            CalStep::Flatfield,
            CalStep::SubframeMask(window_of(c)),
            CalStep::Inpaint,
            CalStep::ApplyWeight,
        ],
        None => seq![CalStep::Flatfield, CalStep::Inpaint, CalStep::ApplyWeight],
    }
}

/// The final crop of full-width images, optional sRGB conversion, the stretch.
pub open spec fn watson_finish_steps(width: usize, p: ProfileSwitches) -> Seq<CalStep> {
    (match watson_final_crop(width) {
        Some(c) => seq![CalStep::CropImage(window_of(c))],
        None => seq![],
    }) + step_if(p.srgb_color_correction, CalStep::ConvertToSrgb) + seq![normalize_step(p)]
}

/// The calibration subframe of `calibration_subframe`.
pub open spec fn watson_subframe(width: usize, height: usize) -> Option<(usize, usize, usize, usize)> {
    if width == 1584 && height == 1184 {
        Some((32usize, 16usize, 1584usize, 1184usize))
    } else {
        None
    }
}

/// The final crop of `final_crop`.
pub open spec fn watson_final_crop(width: usize) -> Option<(usize, usize, usize, usize)> {
    if width == 1648 {
        Some((24usize, 4usize, 1600usize, 1192usize))
    } else {
        None
    }
}

/// The steps of `watson_steps`.
pub fn calibration_steps(
    input_file: &str,
    is_grayscale: bool,
    width: usize,
    height: usize,
    p: &ProfileSwitches,
) -> (r: Vec<CalStep>)
    ensures
        r@ == watson_steps(input_file@, is_grayscale, width, height, *p),
{
    let mut steps: Vec<CalStep> = Vec::new();
    if p.apply_ilt {
        steps.push(CalStep::Decompand);
    }
    if str_contains(input_file, "ECM") && is_grayscale {
        steps.push(CalStep::Debayer);
    }
    assert(steps@ =~= watson_head_steps(input_file@, is_grayscale, *p));
    let mut flat = flat_steps(width, height);
    let mut finish = finish_steps(width, p);
    steps.append(&mut flat);
    steps.append(&mut finish);
    steps
}

fn flat_steps(width: usize, height: usize) -> (r: Vec<CalStep>)
    ensures
        r@ == watson_flat_steps(width, height),
{
    let mut steps: Vec<CalStep> = Vec::new();
    match calibration_subframe(width, height) {
        Some(c) => {
            steps.push(CalStep::CropFlat(to_window(c)));
            steps.push(CalStep::Flatfield);
            steps.push(CalStep::SubframeMask(to_window(c)));
        },
        None => {
            steps.push(CalStep::Flatfield);
        },
    }
    steps.push(CalStep::Inpaint);
    steps.push(CalStep::ApplyWeight);
    assert(steps@ =~= watson_flat_steps(width, height));
    steps
}

fn finish_steps(width: usize, p: &ProfileSwitches) -> (r: Vec<CalStep>)
    ensures
        r@ == watson_finish_steps(width, *p),
{
    let mut steps: Vec<CalStep> = Vec::new();
    match final_crop(width) {
        Some(c) => {
            steps.push(CalStep::CropImage(to_window(c)));
        },
        None => {},
    }
    if p.srgb_color_correction {
        steps.push(CalStep::ConvertToSrgb);
    }
    steps.push(normalize_for(p));
    assert(steps@ =~= watson_finish_steps(width, *p));
    steps
}

} // verus!
