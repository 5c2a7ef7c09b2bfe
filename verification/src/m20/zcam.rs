//! Calibration of the Mars 2020 Mastcam-Z cameras.

use vstd::prelude::*;
use crate::calibrate::{
    normalize_for, normalize_step, step_if, to_window, win, CalStep, ProfileSwitches, Trim,
};
use crate::marsimage::{subframe_window, to_subframe_window};
use crate::util::{contains_sub, occurs_at, str_contains};
use crate::enums::Instrument;
use crate::util::{replace_all, replace_str, zero_padded, zero_padded_decimal};

verus! {

/// Focus motor counts of the zoom lens' calibrated focal stops, widest first.
pub const MOTOR_COUNT_STOPS: [u16; 7] = [0, 2448, 3834, 5196, 6720, 8652, 9600];

/// Mastcam-Z calibration.
#[derive(Copy, Clone)]
pub struct M20MastcamZ {}

impl M20MastcamZ {
    pub fn accepts_instrument(&self, instrument: Instrument) -> (r: bool)
        ensures
            r == (instrument == Instrument::M20MastcamZLeft || instrument
                == Instrument::M20MastcamZRight),
    {
        matches!(instrument, Instrument::M20MastcamZLeft | Instrument::M20MastcamZRight)
    }
}

/// The camera of a Mastcam-Z image: the second character of the file name is
/// `R` for the right camera; anything else means the left one.
pub fn instrument_from_file_name(file_name: &str) -> (r: Instrument)
    requires
        file_name@.len() >= 2,
    ensures
        r == (if file_name@[1] == 'R' {
            Instrument::M20MastcamZRight
        } else {
            Instrument::M20MastcamZLeft
        }),
{
    if file_name.get_char(1) == 'R' {
        Instrument::M20MastcamZRight
    } else {
        Instrument::M20MastcamZLeft
    }
}

/// The flat field of a focus motor position: the manifest's name template
/// with each `-motorcount-` replaced by the four-digit motor count.
pub fn flat_file_for_motor_stop(template: &str, motor_stop: u16) -> (r: String)
    ensures
        r@ == replace_all(template@, "-motorcount-"@, zero_padded(motor_stop as nat, 4)),
{
    let count = zero_padded_decimal(motor_stop as u64, 4);
    proof {
        reveal_strlit("-motorcount-");
    }
    replace_str(template, "-motorcount-", count.as_str())
}

/// The crop of automatic subframing: 29 columns and 9 rows off each side.
pub fn auto_subframe_window(width: usize, height: usize) -> (r: (usize, usize, usize, usize))
    requires
        width >= 58,
        height >= 18,
    ensures
        r == (29usize, 9usize, (width - 58) as usize, (height - 18) as usize),
{
    crate::calibrate::trim_window(width, height, 29, 9, 29, 9)
}

/// The steps of a Mastcam-Z calibration of a `width` x `height` image read
/// from `input_file`, with the metadata's subframe rectangle (corner counted
/// from one) when it has one: optional decompanding; debayering of a
/// grayscale image whose name marks it as Bayer-patterned (`ECM`); the flat
/// field of the focus motor position and the inpainting mask cut to the
/// subframe; colour weights; automatic subframing of the image and its
/// subframe rectangle;
/// optional sRGB conversion and the stretch.
pub open spec fn zcam_steps(
    input_file: Seq<char>,
    is_grayscale: bool,
    subframe: Option<(usize, usize, usize, usize)>,
    width: usize,
    height: usize,
    p: ProfileSwitches,
) -> Seq<CalStep> {
    zcam_head_steps(input_file, is_grayscale, p) + zcam_flat_steps(subframe) + zcam_finish_steps(
        subframe is Some,
        width,
        height,
        p,
    )
}

/// Decompanding and debayering.
pub open spec fn zcam_head_steps(input_file: Seq<char>, is_grayscale: bool, p: ProfileSwitches) -> Seq<
    CalStep,
> {
    step_if(p.apply_ilt, CalStep::Decompand) + step_if(
        contains_sub(input_file, "ECM"@) && is_grayscale,
        CalStep::Debayer,
    )
}

/// Flat fielding and inpainting with the calibration images cut to the
/// subframe, then the colour weights.
pub open spec fn zcam_flat_steps(subframe: Option<(usize, usize, usize, usize)>) -> Seq<CalStep> {
    match subframe {
        Some(r) => seq![
            CalStep::CropFlat(subframe_window(r)),
            CalStep::Flatfield,
            CalStep::SubframeMask(subframe_window(r)),
            CalStep::Inpaint,
            CalStep::ApplyWeight,
        ],
        None => seq![CalStep::Flatfield, CalStep::Inpaint, CalStep::ApplyWeight],
    }
}

/// Automatic subframing (the metadata's subframe rectangle, when there is
/// one, moved 29 columns and 9 rows in and shrunk by as much on the far
/// sides, then the same border cropped off the image), optional sRGB
/// conversion, the stretch.
pub open spec fn zcam_finish_steps(
    has_subframe: bool,
    width: usize,
    height: usize,
    p: ProfileSwitches,
) -> Seq<CalStep> {
    step_if(
        p.auto_subframing && has_subframe,
        CalStep::TrimSubframeRect(Trim { left: 29, top: 9, right: 29, bottom: 9 }),
    ) + step_if(
        p.auto_subframing,
        CalStep::CropImage(win(29, 9, (width - 58) as usize, (height - 18) as usize)),
    ) + step_if(p.srgb_color_correction, CalStep::ConvertToSrgb) + seq![normalize_step(p)]
}

/// A Mastcam-Z plan debayers exactly when the image is grayscale and its file
/// name contains `ECM` (the mark of a Bayer-patterned frame): no other image,
/// and no name without `ECM`, is ever debayered.
pub proof fn zcam_debayers_only_ecm_grayscale(
    input_file: Seq<char>,
    is_grayscale: bool,
    subframe: Option<(usize, usize, usize, usize)>,
    width: usize,
    height: usize,
    p: ProfileSwitches,
)
    ensures
        (exists|k: int|
            0 <= k < zcam_steps(input_file, is_grayscale, subframe, width, height, p).len()
                && #[trigger] zcam_steps(input_file, is_grayscale, subframe, width, height, p)[k]
                == CalStep::Debayer) <==> (is_grayscale && exists|i: int|
            0 <= i && i + 3 <= input_file.len() && #[trigger] input_file.subrange(i, i + 3)
                == "ECM"@),
{
    let steps = zcam_steps(input_file, is_grayscale, subframe, width, height, p);
    let head = zcam_head_steps(input_file, is_grayscale, p);
    let flat = zcam_flat_steps(subframe);
    let fin = zcam_finish_steps(subframe is Some, width, height, p);
    assert(steps == head + flat + fin);
    let ecm = "ECM"@;
    assert(ecm.len() == 3) by {
        reveal_strlit("ECM");
    }
    let cond = is_grayscale && exists|i: int|
        0 <= i && i + 3 <= input_file.len() && #[trigger] input_file.subrange(i, i + 3) == ecm;
    assert(cond == (contains_sub(input_file, ecm) && is_grayscale)) by {
        if contains_sub(input_file, ecm) {
            let i = choose|i: int| occurs_at(input_file, ecm, i);
            assert(input_file.subrange(i, i + 3) == ecm);
        }
        if exists|i: int|
            0 <= i && i + 3 <= input_file.len() && #[trigger] input_file.subrange(i, i + 3)
                == ecm {
            let i = choose|i: int|
                0 <= i && i + 3 <= input_file.len() && #[trigger] input_file.subrange(i, i + 3)
                    == ecm;
            assert(occurs_at(input_file, ecm, i));
        }
    }
    assert forall|k: int| 0 <= k < flat.len() implies flat[k] != CalStep::Debayer by {}
    assert forall|k: int| 0 <= k < fin.len() implies fin[k] != CalStep::Debayer by {}
    if cond {
        let k = if p.apply_ilt { 1int } else { 0int };
        assert(head[k] == CalStep::Debayer);
        assert(steps[k] == CalStep::Debayer);
    } else {
        assert forall|k: int| 0 <= k < steps.len() implies steps[k] != CalStep::Debayer by {
            if k < head.len() {
                assert(steps[k] == head[k]);
            } else if k < head.len() + flat.len() {
                assert(steps[k] == flat[k - head.len()]);
            } else {
                assert(steps[k] == fin[k - head.len() - flat.len()]);
            }
        }
    }
}

/// The steps of `zcam_steps`. A subframe rectangle has its corner counted
/// from one; automatic subframing needs an image of at least 58 x 18 pixels.
pub fn calibration_steps(
    input_file: &str,
    is_grayscale: bool,
    subframe: Option<(usize, usize, usize, usize)>,
    width: usize,
    height: usize,
    p: &ProfileSwitches,
) -> (r: Vec<CalStep>)
    requires
        subframe matches Some(r) ==> r.0 >= 1 && r.1 >= 1,
        p.auto_subframing ==> width >= 58 && height >= 18,
    ensures
        r@ == zcam_steps(input_file@, is_grayscale, subframe, width, height, *p),
{
    let mut steps: Vec<CalStep> = Vec::new();
    if p.apply_ilt {
        steps.push(CalStep::Decompand);
    }
    if str_contains(input_file, "ECM") && is_grayscale {
        steps.push(CalStep::Debayer);
    }
    assert(steps@ =~= zcam_head_steps(input_file@, is_grayscale, *p));
    let mut flat = flat_steps(subframe);
    let mut finish = finish_steps(subframe.is_some(), width, height, p);
    steps.append(&mut flat);
    steps.append(&mut finish);
    steps
}

fn flat_steps(subframe: Option<(usize, usize, usize, usize)>) -> (r: Vec<CalStep>)
    requires
        subframe matches Some(r) ==> r.0 >= 1 && r.1 >= 1,
    ensures
        r@ == zcam_flat_steps(subframe),
{
    let mut steps: Vec<CalStep> = Vec::new();
    match subframe {
        Some(r) => {
            steps.push(CalStep::CropFlat(to_subframe_window(r)));
            steps.push(CalStep::Flatfield);
            steps.push(CalStep::SubframeMask(to_subframe_window(r)));
        },
        None => {
            steps.push(CalStep::Flatfield);
        },
    }
    steps.push(CalStep::Inpaint);
    steps.push(CalStep::ApplyWeight);
    assert(steps@ =~= zcam_flat_steps(subframe));
    steps
}

fn finish_steps(has_subframe: bool, width: usize, height: usize, p: &ProfileSwitches) -> (r: Vec<
    CalStep,
>)
    requires
        p.auto_subframing ==> width >= 58 && height >= 18,
    ensures
        r@ == zcam_finish_steps(has_subframe, width, height, *p),
{
    let mut steps: Vec<CalStep> = Vec::new();
    if p.auto_subframing && has_subframe {
        steps.push(CalStep::TrimSubframeRect(Trim { left: 29, top: 9, right: 29, bottom: 9 }));
    }
    if p.auto_subframing {
        steps.push(CalStep::CropImage(to_window(auto_subframe_window(width, height))));
    }
    if p.srgb_color_correction {
        steps.push(CalStep::ConvertToSrgb);
    }
    steps.push(normalize_for(p));
    assert(steps@ =~= zcam_finish_steps(has_subframe, width, height, *p));
    steps
}

} // verus!
