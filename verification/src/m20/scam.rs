//! Calibration of the Mars 2020 SuperCam remote micro-imager.

use vstd::prelude::*;
use crate::calibrate::{normalize_for, normalize_step, step_if, to_window, win, CalStep, ProfileSwitches};
use crate::util::{contains_sub, str_contains};
use crate::enums::Instrument;

verus! {

/// SuperCam RMI calibration.
#[derive(Copy, Clone)]
pub struct M20SuperCam {}

impl M20SuperCam {
    pub fn accepts_instrument(&self, instrument: Instrument) -> (r: bool)
        ensures
            r == (instrument == Instrument::M20SuperCam),
    {
        matches!(instrument, Instrument::M20SuperCam)
    }
}

/// The window that drops the one-pixel border of an RMI image, its alpha mask
/// and its flat field.
pub fn border_window(width: usize, height: usize) -> (r: (usize, usize, usize, usize))
    requires
        width >= 2,
        height >= 2,
    ensures
        r == (1usize, 1usize, (width - 2) as usize, (height - 2) as usize),
{
    crate::calibrate::trim_window(width, height, 1, 1, 1, 1)
}

/// The steps of an RMI calibration of a `width` x `height` image read from
/// `input_file`, with a `mask_width` x `mask_height` alpha mask and a
/// `flat_width` x `flat_height` flat field: destretching, the alpha mask
/// without its border, optional decompanding, debayering of a grayscale
/// image whose name marks it as Bayer-patterned (`ECM`), the border cut off
/// the image and the flat, flat fielding, colour weights and the stretch.
pub open spec fn supercam_steps(
    input_file: Seq<char>,
    is_grayscale: bool,
    mask_width: usize,
    mask_height: usize,
    width: usize,
    height: usize,
    flat_width: usize,
    flat_height: usize,
    p: ProfileSwitches,
) -> Seq<CalStep> {
    seq![
        CalStep::Destretch,
        CalStep::ApplyAlphaMask(win(1, 1, (mask_width - 2) as usize, (mask_height - 2) as usize)),
    ] + step_if(p.apply_ilt, CalStep::Decompand) + step_if(
        contains_sub(input_file, "ECM"@) && is_grayscale,
        CalStep::Debayer,
    ) + seq![
        CalStep::CropImage(win(1, 1, (width - 2) as usize, (height - 2) as usize)),
        CalStep::CropFlat(win(1, 1, (flat_width - 2) as usize, (flat_height - 2) as usize)),
        CalStep::Flatfield,
        CalStep::ApplyWeight,
        normalize_step(p),
    ]
}

/// The steps of `supercam_steps`; the image, the mask and the flat field
/// each have a one-pixel border to lose.
pub fn calibration_steps(
    input_file: &str,
    is_grayscale: bool,
    mask_width: usize,
    mask_height: usize,
    width: usize,
    height: usize,
    flat_width: usize,
    flat_height: usize,
    p: &ProfileSwitches,
) -> (r: Vec<CalStep>)
    requires
        mask_width >= 2,
        mask_height >= 2,
        width >= 2,
        height >= 2,
        flat_width >= 2,
        flat_height >= 2,
    ensures
        r@ == supercam_steps(
            input_file@,
            is_grayscale,
            mask_width,
            mask_height,
            width,
            height,
            flat_width,
            flat_height,
            *p,
        ),
{
    let mut steps: Vec<CalStep> = Vec::new();
    steps.push(CalStep::Destretch);
    steps.push(CalStep::ApplyAlphaMask(to_window(border_window(mask_width, mask_height))));
    if p.apply_ilt {
        steps.push(CalStep::Decompand);
    }
    if str_contains(input_file, "ECM") && is_grayscale {
        steps.push(CalStep::Debayer);
    }
    steps.push(CalStep::CropImage(to_window(border_window(width, height))));
    steps.push(CalStep::CropFlat(to_window(border_window(flat_width, flat_height))));
    steps.push(CalStep::Flatfield);
    steps.push(CalStep::ApplyWeight);
    steps.push(normalize_for(p));
    assert(steps@ =~= supercam_steps(
        input_file@,
        is_grayscale,
        mask_width,
        mask_height,
        width,
        height,
        flat_width,
        flat_height,
        *p,
    ));
    steps
}

} // verus!
