//! Constant values.

pub mod url;
pub mod status;

use vstd::prelude::*;

verus! {

/// Suffix appended to calibrated output file names.
pub const OUTPUT_FILENAME_APPEND: &'static str = "rjcal";

} // verus!
