//! Calibration of the Curiosity MAHLI camera.

use vstd::prelude::*;
use crate::calibrate::{
    centered_subframe, normalize_for, normalize_step, step_if, to_window, win, window_of, CalStep,
    ProfileSwitches,
};
use crate::enums::Instrument;

verus! {

/// The window `(x, y, width, height)` kept of a calibrated MAHLI image.
pub const MAHLI_FINAL_CROP: (usize, usize, usize, usize) = (2, 3, 1580, 1180);

/// MAHLI calibration.
#[derive(Copy, Clone)]
pub struct MslMahli {}

impl MslMahli {
    pub fn accepts_instrument(&self, instrument: Instrument) -> (r: bool)
        ensures
            r == (instrument == Instrument::MslMAHLI),
    {
        matches!(instrument, Instrument::MslMAHLI)
    }
}

/// The crop that removes the sensor border from a full-frame raw image.
pub fn raw_crop(width: usize, height: usize) -> (r: Option<(usize, usize, usize, usize)>)
    ensures
        r == (if width == 1632 && height == 1200 {
            Some((32usize, 16usize, 1584usize, 1184usize))
        } else if width == 1648 && height == 1200 {
            Some((48usize, 16usize, 1584usize, 1184usize))
        } else {
            None
        }),
{
    if width == 1632 && height == 1200 {
        Some((32, 16, 1584, 1184))
    } else if width == 1648 && height == 1200 {
        Some((48, 16, 1584, 1184))
    } else {
        None
    }
}

/// The crop that removes the sensor border from the full-frame flat field.
pub fn flat_crop(width: usize, height: usize) -> (r: Option<(usize, usize, usize, usize)>)
    ensures
        r == (if width == 1632 && height == 1200 {
            Some((32usize, 16usize, 1584usize, 1184usize))
        } else {
            None
        }),
{
    if width == 1632 && height == 1200 {
        Some((32, 16, 1584, 1184))
    } else {
        None
    }
}

/// The steps of a MAHLI calibration of a `raw_width` x `raw_height` image
/// with a `flat_width` x `flat_height` flat field: the raw border is cropped,
/// the image inpainted, optionally decompanded; the flat field is cropped
/// like the image, inpainted, and cut around its centre when it is still
/// wider; then flat fielding, optional hot pixel correction, the final crop,
/// colour weights, optional sRGB conversion and the stretch.
pub open spec fn mahli_steps(
    raw_width: usize,
    raw_height: usize,
    flat_width: usize,
    flat_height: usize,
    p: ProfileSwitches,
) -> Seq<CalStep> {
    let (rw, rh) = cropped_size(mahli_raw_crop(raw_width, raw_height), raw_width, raw_height);
    mahli_image_steps(raw_width, raw_height, p) + mahli_flat_steps(flat_width, flat_height, rw, rh)
        + mahli_finish_steps(p)
}

/// The steps on the image before flat fielding.
pub open spec fn mahli_image_steps(raw_width: usize, raw_height: usize, p: ProfileSwitches) -> Seq<
    CalStep,
> {
    (match mahli_raw_crop(raw_width, raw_height) {
        Some(c) => seq![CalStep::CropImage(window_of(c))],
        None => seq![],
    }) + seq![CalStep::Inpaint] + step_if(p.apply_ilt, CalStep::Decompand)
}

/// The steps on the flat field, for an image `rw` x `rh` after its crop,
/// ending with flat fielding.
pub open spec fn mahli_flat_steps(flat_width: usize, flat_height: usize, rw: usize, rh: usize) -> Seq<
    CalStep,
> {
    let fc = mahli_flat_crop(flat_width, flat_height);
    let (fw, fh) = cropped_size(fc, flat_width, flat_height);
    (match fc {
        Some(c) => seq![CalStep::CropFlat(window_of(c))],
        None => seq![],
    }) + seq![CalStep::InpaintFlat] + step_if(
        fw > rw,
        CalStep::CropFlat(win(((fw - rw) / 2) as usize, ((fh - rh) / 2) as usize, rw, rh)),
    ) + seq![CalStep::Flatfield]
}

/// The steps after flat fielding.
pub open spec fn mahli_finish_steps(p: ProfileSwitches) -> Seq<CalStep> {
    step_if(p.hot_pixel_correction, CalStep::HotPixelCorrection) + seq![
        CalStep::CropImage(window_of(MAHLI_FINAL_CROP)),
        CalStep::ApplyWeight,
    ] + step_if(p.srgb_color_correction, CalStep::ConvertToSrgb) + seq![normalize_step(p)]
}

/// The raw crop of `raw_crop`.
pub open spec fn mahli_raw_crop(width: usize, height: usize) -> Option<(usize, usize, usize, usize)> {
    if width == 1632 && height == 1200 {
        Some((32usize, 16usize, 1584usize, 1184usize))
    } else if width == 1648 && height == 1200 {
        Some((48usize, 16usize, 1584usize, 1184usize))
    } else {
        None
    }
}

/// The flat field crop of `flat_crop`.
pub open spec fn mahli_flat_crop(width: usize, height: usize) -> Option<(usize, usize, usize, usize)> {
    if width == 1632 && height == 1200 {
        Some((32usize, 16usize, 1584usize, 1184usize))
    } else {
        None
    }
}

/// The size of an image after an optional crop.
pub open spec fn cropped_size(
    c: Option<(usize, usize, usize, usize)>,
    width: usize,
    height: usize,
) -> (usize, usize) {
    match c {
        Some(w) => (w.2, w.3),
        None => (width, height),
    }
}

/// The steps of `mahli_steps`. A flat field that is wider than the cropped
/// image must be at least as high.
pub fn calibration_steps(
    raw_width: usize,
    raw_height: usize,
    flat_width: usize,
    flat_height: usize,
    p: &ProfileSwitches,
) -> (r: Vec<CalStep>)
    requires
        ({
            let (rw, rh) = cropped_size(mahli_raw_crop(raw_width, raw_height), raw_width, raw_height);
            let (fw, fh) = cropped_size(
                mahli_flat_crop(flat_width, flat_height),
                flat_width,
                flat_height,
            );
            fw > rw ==> fh >= rh
        }),
    ensures
        r@ == mahli_steps(raw_width, raw_height, flat_width, flat_height, *p),
{
    let (rw, rh) = match raw_crop(raw_width, raw_height) {
        Some(c) => (c.2, c.3),
        None => (raw_width, raw_height),
    };
    let mut steps = image_steps(raw_width, raw_height, p);
    let mut flat = flat_steps(flat_width, flat_height, rw, rh);
    let mut finish = finish_steps(p);
    steps.append(&mut flat);
    steps.append(&mut finish);
    steps
}

fn image_steps(raw_width: usize, raw_height: usize, p: &ProfileSwitches) -> (r: Vec<CalStep>)
    ensures
        r@ == mahli_image_steps(raw_width, raw_height, *p),
{
    let mut steps: Vec<CalStep> = Vec::new();
    match raw_crop(raw_width, raw_height) {
        Some(c) => {
            steps.push(CalStep::CropImage(to_window(c)));
        },
        None => {},
    }
    steps.push(CalStep::Inpaint);
    if p.apply_ilt {
        steps.push(CalStep::Decompand);
    }
    assert(steps@ =~= mahli_image_steps(raw_width, raw_height, *p));
    steps
}

fn flat_steps(flat_width: usize, flat_height: usize, rw: usize, rh: usize) -> (r: Vec<CalStep>)
    requires
        ({
            let (fw, fh) = cropped_size(
                mahli_flat_crop(flat_width, flat_height),
                flat_width,
                flat_height,
            );
            fw > rw ==> fh >= rh
        }),
    ensures
        r@ == mahli_flat_steps(flat_width, flat_height, rw, rh),
{
    let mut steps: Vec<CalStep> = Vec::new();
    let (fw, fh) = match flat_crop(flat_width, flat_height) {
        Some(c) => {
            steps.push(CalStep::CropFlat(to_window(c)));
            (c.2, c.3)
        },
        None => (flat_width, flat_height),
    };
    steps.push(CalStep::InpaintFlat);
    match centered_subframe(fw, fh, rw, rh) {
        Some(c) => {
            steps.push(CalStep::CropFlat(to_window(c)));
        },
        None => {},
    }
    steps.push(CalStep::Flatfield);
    assert(steps@ =~= mahli_flat_steps(flat_width, flat_height, rw, rh));
    steps
}

fn finish_steps(p: &ProfileSwitches) -> (r: Vec<CalStep>)
    ensures
        r@ == mahli_finish_steps(*p),
{
    let mut steps: Vec<CalStep> = Vec::new();
    if p.hot_pixel_correction {
        steps.push(CalStep::HotPixelCorrection);
    }
    steps.push(CalStep::CropImage(to_window(MAHLI_FINAL_CROP)));
    steps.push(CalStep::ApplyWeight);
    if p.srgb_color_correction {
        steps.push(CalStep::ConvertToSrgb);
    }
    steps.push(normalize_for(p));
    assert(steps@ =~= mahli_finish_steps(*p));
    steps
}

} // verus!
