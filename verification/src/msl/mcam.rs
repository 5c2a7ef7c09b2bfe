//! Calibration of the Curiosity Mastcam cameras.

use vstd::prelude::*;
use crate::calibrate::{
    centered_subframe, step_if, to_window, win, window_of, CalStep, ProfileSwitches,
};
use crate::enums::Instrument;

verus! {

/// Mastcam calibration.
#[derive(Copy, Clone)]
pub struct MslMastcam {}

impl MslMastcam {
    pub fn accepts_instrument(&self, instrument: Instrument) -> (r: bool)
        ensures
            r == (instrument == Instrument::MslMastcamLeft || instrument
                == Instrument::MslMastcamRight),
    {
        matches!(instrument, Instrument::MslMastcamLeft | Instrument::MslMastcamRight)
    }
}

/// The camera of a Mastcam image: the sixth character of the file name is `R`
/// for the right camera; anything else means the left one.
pub fn instrument_from_file_name(file_name: &str) -> (r: Instrument)
    requires
        file_name@.len() >= 6,
    ensures
        r == (if file_name@[5] == 'R' {
            Instrument::MslMastcamRight
        } else {
            Instrument::MslMastcamLeft
        }),
{
    if file_name.get_char(5) == 'R' {
        Instrument::MslMastcamRight
    } else {
        Instrument::MslMastcamLeft
    }
}

/// The crop that removes the unexposed columns of a 1536-pixel-wide raw image.
pub fn raw_crop(width: usize, height: usize) -> (r: Option<(usize, usize, usize, usize)>)
    ensures
        r == (if width == 1536 {
            Some((161usize, 0usize, 1328usize, height))
        } else {
            None
        }),
{
    if width == 1536 {
        Some((161, 0, 1328, height))
    } else {
        None
    }
}

/// The part of the full-sensor flat field and inpainting mask that matches an
/// image of the given size, per camera; `None` when no known subframe applies.
pub open spec fn sensor_subframe(instrument: Instrument, width: usize, height: usize) -> Option<
    (usize, usize, usize, usize),
> {
    if instrument == Instrument::MslMastcamRight {
        if width == 1328 && height == 1184 {
            Some((160usize, 16usize, 1328usize, 1184usize))
        } else if width == 848 && height == 848 {
            Some((400usize, 192usize, 848usize, 848usize))
        } else if width == 1344 && height == 1200 {
            Some((160usize, 0usize, 1344usize, 1200usize))
        } else {
            None
        }
    } else if instrument == Instrument::MslMastcamLeft {
        if width == 1328 && height == 1184 {
            Some((160usize, 16usize, 1328usize, 1184usize))
        } else if width == 1152 && height == 432 {
            Some((305usize, 385usize, 1152usize, 432usize))
        } else if width == 1600 && height == 1200 {
            Some((33usize, 0usize, 1600usize, 1200usize))
        } else if width == 1456 && height == 640 {
            Some((96usize, 280usize, 1456usize, 640usize))
        } else {
            None
        }
    } else {
        None
    }
}

/// The flat-field and mask subframe of `sensor_subframe`.
pub fn calibration_subframe(instrument: Instrument, width: usize, height: usize) -> (r: Option<
    (usize, usize, usize, usize),
>)
    ensures
        r == sensor_subframe(instrument, width, height),
{
    match instrument {
        Instrument::MslMastcamRight => {
            if width == 1328 && height == 1184 {
                Some((160, 16, 1328, 1184))
            } else if width == 848 && height == 848 {
                Some((400, 192, 848, 848))
            } else if width == 1344 && height == 1200 {
                Some((160, 0, 1344, 1200))
            } else {
                None
            }
        },
        Instrument::MslMastcamLeft => {
            if width == 1328 && height == 1184 {
                Some((160, 16, 1328, 1184))
            } else if width == 1152 && height == 432 {
                Some((305, 385, 1152, 432))
            } else if width == 1600 && height == 1200 {
                Some((33, 0, 1600, 1200))
            } else if width == 1456 && height == 640 {
                Some((96, 280, 1456, 640))
            } else {
                None
            }
        },
        _ => None,
    }
}

/// The final crop: three pixels off each side.
pub fn final_crop(width: usize, height: usize) -> (r: (usize, usize, usize, usize))
    requires
        width >= 6,
        height >= 6,
    ensures
        r == (3usize, 3usize, (width - 6) as usize, (height - 6) as usize),
{
    crate::calibrate::trim_window(width, height, 3, 3, 3, 3)
}

/// The size of an image after an optional crop.
pub open spec fn size_after(c: Option<(usize, usize, usize, usize)>, width: usize, height: usize) -> (
    usize,
    usize,
) {
    match c {
        Some(w) => (w.2, w.3),
        None => (width, height),
    }
}

/// The raw crop of `raw_crop`.
pub open spec fn mastcam_raw_crop(width: usize, height: usize) -> Option<(usize, usize, usize, usize)> {
    if width == 1536 {
        Some((161usize, 0usize, 1328usize, height))
    } else {
        None
    }
}

/// The steps of a Mastcam calibration: optional decompanding, debayering of a
/// grayscale (still Bayer-patterned) image and the raw crop; the flat field
/// and inpainting mask are cut to the sensor area of the image, the flat is
/// companded for 8-bit images and cut around its centre when still wider;
/// then the flat is inpainted and applied, the image inpainted, weighted,
/// optionally noise-reduced, stretched, and three pixels are cropped off
/// each side.
pub open spec fn mastcam_steps(
    instrument: Instrument,
    raw_width: usize,
    raw_height: usize,
    is_grayscale: bool,
    is_8bit: bool,
    flat_width: usize,
    flat_height: usize,
    p: ProfileSwitches,
) -> Seq<CalStep> {
    let (rw, rh) = size_after(mastcam_raw_crop(raw_width, raw_height), raw_width, raw_height);
    mastcam_image_steps(raw_width, raw_height, is_grayscale, p) + mastcam_flat_steps(
        instrument,
        rw,
        rh,
        is_8bit,
        flat_width,
        flat_height,
    ) + mastcam_finish_steps(rw, rh, p)
}

/// The steps on the image before the flat field is prepared.
pub open spec fn mastcam_image_steps(
    raw_width: usize,
    raw_height: usize,
    is_grayscale: bool,
    p: ProfileSwitches,
) -> Seq<CalStep> {
    step_if(p.apply_ilt, CalStep::Decompand) + step_if(is_grayscale, CalStep::Debayer) + (
    match mastcam_raw_crop(raw_width, raw_height) {
        Some(c) => seq![CalStep::CropImage(window_of(c))],
        None => seq![],
    })
}

/// The steps that prepare and apply the flat field and the inpainting mask to
/// an image `rw` x `rh`.
pub open spec fn mastcam_flat_steps(
    instrument: Instrument,
    rw: usize,
    rh: usize,
    is_8bit: bool,
    flat_width: usize,
    flat_height: usize,
) -> Seq<CalStep> {
    let sub = sensor_subframe(instrument, rw, rh);
    let (fw, fh) = size_after(sub, flat_width, flat_height);
    (match sub {
        Some(c) => seq![CalStep::CropFlat(window_of(c)), CalStep::SubframeMask(window_of(c))],
        None => seq![],
    }) + step_if(is_8bit, CalStep::CompandFlat) + (if fw > rw {
        let c = win(((fw - rw) / 2) as usize, ((fh - rh) / 2) as usize, rw, rh);
        seq![CalStep::CropFlat(c), CalStep::SubframeMask(c)]
    } else {
        seq![]
    }) + seq![CalStep::InpaintFlat, CalStep::Flatfield, CalStep::Inpaint, CalStep::ApplyWeight]
}

/// The steps after the colour weights, for an image `rw` x `rh`.
pub open spec fn mastcam_finish_steps(rw: usize, rh: usize, p: ProfileSwitches) -> Seq<CalStep> {
    step_if(
        p.color_noise_reduction && p.color_noise_reduction_amount > 0,
        CalStep::ReduceColorNoise,
    ) + seq![CalStep::Normalize, CalStep::CropImage(win(3, 3, (rw - 6) as usize, (rh - 6) as usize))]
}

/// The steps of `mastcam_steps`. The image after its raw crop must be at
/// least 6 pixels wide and high, and a flat field still wider than the image
/// after its sensor cut must be at least as high.
pub fn calibration_steps(
    instrument: Instrument,
    raw_width: usize,
    raw_height: usize,
    is_grayscale: bool,
    is_8bit: bool,
    flat_width: usize,
    flat_height: usize,
    p: &ProfileSwitches,
) -> (r: Vec<CalStep>)
    requires
        ({
            let (rw, rh) = size_after(mastcam_raw_crop(raw_width, raw_height), raw_width, raw_height);
            let (fw, fh) = size_after(sensor_subframe(instrument, rw, rh), flat_width, flat_height);
            &&& rw >= 6
            &&& rh >= 6
            &&& fw > rw ==> fh >= rh
        }),
    ensures
        r@ == mastcam_steps(
            instrument,
            raw_width,
            raw_height,
            is_grayscale,
            is_8bit,
            flat_width,
            flat_height,
            *p,
        ),
{
    let (rw, rh) = match raw_crop(raw_width, raw_height) {
        Some(c) => (c.2, c.3),
        None => (raw_width, raw_height),
    };
    let mut steps = image_steps(raw_width, raw_height, is_grayscale, p);
    let mut flat = flat_steps(instrument, rw, rh, is_8bit, flat_width, flat_height);
    let mut finish = finish_steps(rw, rh, p);
    steps.append(&mut flat);
    steps.append(&mut finish);
    steps
}

fn image_steps(raw_width: usize, raw_height: usize, is_grayscale: bool, p: &ProfileSwitches) -> (r:
    Vec<CalStep>)
    ensures
        r@ == mastcam_image_steps(raw_width, raw_height, is_grayscale, *p),
{
    let mut steps: Vec<CalStep> = Vec::new();
    if p.apply_ilt {
        steps.push(CalStep::Decompand);
    }
    if is_grayscale {
        steps.push(CalStep::Debayer);
    }
    match raw_crop(raw_width, raw_height) {
        Some(c) => {
            steps.push(CalStep::CropImage(to_window(c)));
        },
        None => {},
    }
    assert(steps@ =~= mastcam_image_steps(raw_width, raw_height, is_grayscale, *p));
    steps
}

fn flat_steps(
    instrument: Instrument,
    rw: usize,
    rh: usize,
    is_8bit: bool,
    flat_width: usize,
    flat_height: usize,
) -> (r: Vec<CalStep>)
    requires
        ({
            let (fw, fh) = size_after(sensor_subframe(instrument, rw, rh), flat_width, flat_height);
            fw > rw ==> fh >= rh
        }),
    ensures
        r@ == mastcam_flat_steps(instrument, rw, rh, is_8bit, flat_width, flat_height),
{
    let mut steps: Vec<CalStep> = Vec::new();
    let (fw, fh) = match calibration_subframe(instrument, rw, rh) {
        Some(c) => {
            steps.push(CalStep::CropFlat(to_window(c)));
            steps.push(CalStep::SubframeMask(to_window(c)));
            (c.2, c.3)
        },
        None => (flat_width, flat_height),
    };
    if is_8bit {
        steps.push(CalStep::CompandFlat);
    }
    match centered_subframe(fw, fh, rw, rh) {
        Some(c) => {
            steps.push(CalStep::CropFlat(to_window(c)));
            steps.push(CalStep::SubframeMask(to_window(c)));
        },
        None => {},
    }
    steps.push(CalStep::InpaintFlat);
    steps.push(CalStep::Flatfield);
    steps.push(CalStep::Inpaint);
    steps.push(CalStep::ApplyWeight);
    assert(steps@ =~= mastcam_flat_steps(instrument, rw, rh, is_8bit, flat_width, flat_height));
    steps
}

fn finish_steps(rw: usize, rh: usize, p: &ProfileSwitches) -> (r: Vec<CalStep>)
    requires
        rw >= 6,
        rh >= 6,
    ensures
        r@ == mastcam_finish_steps(rw, rh, *p),
{
    let mut steps: Vec<CalStep> = Vec::new();
    if p.color_noise_reduction && p.color_noise_reduction_amount > 0 {
        steps.push(CalStep::ReduceColorNoise);
    }
    steps.push(CalStep::Normalize);
    steps.push(CalStep::CropImage(to_window(final_crop(rw, rh))));
    assert(steps@ =~= mastcam_finish_steps(rw, rh, *p));
    steps
}

} // verus!
