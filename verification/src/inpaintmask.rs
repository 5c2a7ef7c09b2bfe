//! Locating inpainting masks.

use vstd::prelude::*;
use crate::calibfile::{
    get_calibration_file_for_instrument, file_for_type, located, properties_for, CalibrationError,
    Config, SearchContext,
};
use crate::enums::{CalFileType, Instrument};

verus! {

/// Whether an instrument's inpainting mask resolves to an existing file.
pub open spec fn mask_resolves(
    config: Config,
    instrument: Instrument,
    ctx: SearchContext,
    existing: Seq<String>,
) -> bool {
    match properties_for(config, instrument) {
        None => false,
        Some(p) => {
            let name = file_for_type(p, CalFileType::InpaintMask);
            name.len() != 0 && located(name, ctx, existing) is Some
        },
    }
}

/// The path of an instrument's inpainting mask.
pub fn determine_mask_file(
    config: &Config,
    instrument: Instrument,
    ctx: &SearchContext,
    existing: &Vec<String>,
) -> (r: Result<String, CalibrationError>)
    ensures
        r is Ok <==> mask_resolves(*config, instrument, *ctx, existing@),
        r matches Ok(f) ==> located(
            file_for_type(properties_for(*config, instrument).unwrap(), CalFileType::InpaintMask),
            *ctx,
            existing@,
        ) == Some(f@),
{
    get_calibration_file_for_instrument(config, instrument, CalFileType::InpaintMask, ctx, existing)
}

/// Whether inpainting is possible for an instrument: its mask resolves.
pub fn inpaint_supported_for_instrument(
    config: &Config,
    instrument: Instrument,
    ctx: &SearchContext,
    existing: &Vec<String>,
) -> (r: bool)
    ensures
        r == mask_resolves(*config, instrument, *ctx, existing@),
{
    determine_mask_file(config, instrument, ctx, existing).is_ok()
}

/// The part of a loaded mask that applies to an instrument's images, as
/// `(left, top, width, height)`; `None` when the whole mask applies. MAHLI
/// images lack the sensor's border columns and rows.
pub fn mask_subframe_for_instrument(instrument: Instrument) -> (r: Option<(usize, usize, usize, usize)>)
    ensures
        r == (if instrument == Instrument::MslMAHLI {
            Some((32usize, 16usize, 1584usize, 1184usize))
        } else {
            None
        }),
{
    match instrument {
        Instrument::MslMAHLI => Some((32, 16, 1584, 1184)),
        _ => None,
    }
}

} // verus!
