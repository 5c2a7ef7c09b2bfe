//! Shared decisions of the per-instrument calibration routines.

use vstd::prelude::*;

verus! {

/// Outcome of calibrating one file.
#[derive(Debug, Copy, Clone, PartialEq, Eq, Structural)]
pub enum CompleteStatus {
    OK,
    WARN,
    FAIL,
}

/// A calibration run skips an input whose output already exists when only new
/// outputs are wanted; it then reports a warning.
pub fn skip_existing_output(output_exists: bool, only_new: bool) -> (r: bool)
    ensures
        r == (output_exists && only_new),
{
    output_exists && only_new
}

/// The window `(x, y, width, height)` of an `outer_width` by `outer_height`
/// image centred on an `inner_width` by `inner_height` image, used when a
/// calibration image (flat field, mask) is wider than the image it applies
/// to; `None` when it is not wider.
pub fn centered_subframe(outer_width: usize, outer_height: usize, inner_width: usize, inner_height: usize) -> (r:
    Option<(usize, usize, usize, usize)>)
    requires
        outer_width > inner_width ==> outer_height >= inner_height,
    ensures
        match r {
            Some(c) => outer_width > inner_width && c == (
                ((outer_width - inner_width) / 2) as usize,
                ((outer_height - inner_height) / 2) as usize,
                inner_width,
                inner_height,
            ),
            None => outer_width <= inner_width,
        },
{
    if outer_width > inner_width {
        Some(((outer_width - inner_width) / 2, (outer_height - inner_height) / 2, inner_width, inner_height))
    } else {
        None
    }
}

/// The window `(x, y, width, height)` that trims `left`, `top`, `right` and
/// `bottom` pixels off a `width` by `height` image.
pub fn trim_window(width: usize, height: usize, left: usize, top: usize, right: usize, bottom: usize) -> (r:
    (usize, usize, usize, usize))
    requires
        left + right <= width,
        top + bottom <= height,
    ensures
        r == (left, top, (width - left - right) as usize, (height - top - bottom) as usize),
{
    (left, top, width - left - right, height - top - bottom)
}

/// The outcome reported for a calibrated file: a failure when its output
/// could not be saved, else a warning when a step could not be applied.
pub fn completion_status(saved: bool, warned: bool) -> (r: CompleteStatus)
    ensures
        r == (if !saved {
            CompleteStatus::FAIL
        } else if warned {
            CompleteStatus::WARN
        } else {
            CompleteStatus::OK
        }),
{
    if !saved {
        CompleteStatus::FAIL
    } else if warned {
        CompleteStatus::WARN
    } else {
        CompleteStatus::OK
    }
}

/// The switches of a calibration profile that decide which steps run. The
/// profile's colour weights are applied as they are; whether its hot pixel
/// threshold is positive is decided where the profile is read.
#[derive(Debug, Copy, Clone, PartialEq, Eq, Structural)]
pub struct ProfileSwitches {
    pub apply_ilt: bool,
    pub color_noise_reduction: bool,
    pub color_noise_reduction_amount: i32,
    pub hot_pixel_correction: bool,
    pub decorrelate_color: bool,
    pub srgb_color_correction: bool,
    pub auto_subframing: bool,
}

/// A rectangle of an image: its top left corner and its size.
#[derive(Debug, Copy, Clone, PartialEq, Eq, Structural)]
pub struct Window {
    pub x: usize,
    pub y: usize,
    pub width: usize,
    pub height: usize,
}

/// The window with corner `(x, y)` and size `width` x `height`.
pub open spec fn win(x: usize, y: usize, width: usize, height: usize) -> Window {
    Window { x, y, width, height }
}

/// The window of an `(x, y, width, height)` tuple.
pub open spec fn window_of(t: (usize, usize, usize, usize)) -> Window {
    Window { x: t.0, y: t.1, width: t.2, height: t.3 }
}

/// The window of an `(x, y, width, height)` tuple.
pub fn to_window(t: (usize, usize, usize, usize)) -> (r: Window)
    ensures
        r == window_of(t),
{
    Window { x: t.0, y: t.1, width: t.2, height: t.3 }
}

/// Margins taken off the sides of a rectangle.
#[derive(Debug, Copy, Clone, PartialEq, Eq, Structural)]
pub struct Trim {
    pub left: usize,
    pub top: usize,
    pub right: usize,
    pub bottom: usize,
}

/// One step of a calibration, in the order the steps are applied.
#[derive(Debug, Copy, Clone, PartialEq, Eq, Structural)]
pub enum CalStep {
    /// Expand the companded 8-bit values with the instrument's look-up table.
    Decompand,
    /// Reconstruct colour from the Bayer pattern.
    Debayer,
    /// Close the histogram gaps of a stretched 8-bit image.
    Destretch,
    /// Apply the instrument's alpha mask, cut to the window.
    ApplyAlphaMask(Window),
    /// Move the metadata's subframe rectangle in by the left and top margins
    /// and shrink it by the margins of both sides.
    TrimSubframeRect(Trim),
    /// Crop the image being calibrated.
    CropImage(Window),
    /// Crop the flat field.
    CropFlat(Window),
    /// Cut the inpainting mask to the window.
    SubframeMask(Window),
    /// Compand the flat field to the 8-bit range of the image.
    CompandFlat,
    /// Inpaint the flat field.
    InpaintFlat,
    /// Divide the image by the flat field.
    Flatfield,
    /// Inpaint the image.
    Inpaint,
    /// Replace hot pixels.
    HotPixelCorrection,
    /// Scale the colour channels by the profile's weights.
    ApplyWeight,
    /// Reduce colour noise by the profile's amount.
    ReduceColorNoise,
    /// Convert from RGB to sRGB.
    ConvertToSrgb,
    /// Stretch to 16 bits with decorrelated channels.
    NormalizeDecorrelated,
    /// Stretch to 16 bits from the data's maximum.
    Normalize,
}

/// A one-step sequence when `b` holds, else the empty sequence.
pub open spec fn step_if(b: bool, s: CalStep) -> Seq<CalStep> {
    if b {
        seq![s]
    } else {
        seq![]
    }
}

/// The final stretch that a profile asks for.
pub open spec fn normalize_step(p: ProfileSwitches) -> CalStep {
    if p.decorrelate_color {
        CalStep::NormalizeDecorrelated
    } else {
        CalStep::Normalize
    }
}

/// The final stretch that a profile asks for.
pub fn normalize_for(p: &ProfileSwitches) -> (r: CalStep)
    ensures
        r == normalize_step(*p),
{
    if p.decorrelate_color {
        CalStep::NormalizeDecorrelated
    } else {
        CalStep::Normalize
    }
}

} // verus!
