//! Calibration of the Curiosity ChemCam remote micro-imager.

use vstd::prelude::*;
use crate::calibrate::{win, CalStep};
use crate::marsimage::{flatfield, flatfield_fits, flatfield_steps};
use crate::enums::Instrument;
use crate::util::{contains_sub, str_contains};

verus! {

/// ChemCam RMI calibration.
#[derive(Copy, Clone)]
pub struct MslChemCam {}

impl MslChemCam {
    pub fn accepts_instrument(&self, instrument: Instrument) -> (r: bool)
        ensures
            r == (instrument == Instrument::MslChemCam),
    {
        matches!(instrument, Instrument::MslChemCam)
    }
}

/// Standard-contrast products (`EDR` in the file name) are flat-fielded;
/// enhanced-contrast products already are.
pub fn needs_flatfield(input_file: &str) -> (r: bool)
    ensures
        r == contains_sub(input_file@, "EDR"@),
{
    str_contains(input_file, "EDR")
}

/// The steps of a ChemCam RMI calibration of a `width` x `height` image read
/// from `input_file`, with a `mask_width` x `mask_height` alpha mask: the
/// mask applied whole, flat fielding of standard-contrast (`EDR`) products
/// as `flatfield_steps` gives it, and the stretch.
pub open spec fn chemcam_steps(
    input_file: Seq<char>,
    mask_width: usize,
    mask_height: usize,
    flat_size: Option<(usize, usize)>,
    subframe: Option<(usize, usize, usize, usize)>,
    width: usize,
    height: usize,
) -> Seq<CalStep> {
    seq![CalStep::ApplyAlphaMask(win(0, 0, mask_width, mask_height))] + (if contains_sub(
        input_file,
        "EDR"@,
    ) {
        flatfield_steps(flat_size, subframe, width, height)
    } else {
        seq![]
    }) + seq![CalStep::Normalize]
}

/// The steps of `chemcam_steps`.
pub fn calibration_steps(
    input_file: &str,
    mask_width: usize,
    mask_height: usize,
    flat_size: Option<(usize, usize)>,
    subframe: Option<(usize, usize, usize, usize)>,
    width: usize,
    height: usize,
) -> (r: Vec<CalStep>)
    requires
        flatfield_fits(flat_size, subframe, width, height),
    ensures
        r@ == chemcam_steps(input_file@, mask_width, mask_height, flat_size, subframe, width, height),
{
    let mut steps: Vec<CalStep> = Vec::new();
    steps.push(CalStep::ApplyAlphaMask(crate::calibrate::Window { x: 0, y: 0, width: mask_width, height: mask_height }));
    if needs_flatfield(input_file) {
        let mut flat = flatfield(flat_size, subframe, width, height);
        steps.append(&mut flat);
    }
    steps.push(CalStep::Normalize);
    steps
}

} // verus!
