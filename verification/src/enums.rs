//! Missions, instruments and calibration-file kinds.

use vstd::prelude::*;
use crate::util::str_eq;

verus! {

/// Supported missions.
#[derive(Debug, Copy, Clone, PartialEq, Eq, Hash, Structural)]
pub enum Mission {
    /// Mars Science Laboratory, the Curiosity rover
    MSL,
    /// Mars 2020, the Perseverance rover
    Mars2020,
    /// The InSight lander
    InSight,
    /// Mars Exploration Rover Spirit
    MerA,
    /// Mars Exploration Rover Opportunity
    MerB,
}

/// Left or right side of a stereo pair, or neither.
#[derive(Debug, Copy, Clone, PartialEq, Eq, Structural)]
pub enum Eye {
    Right,
    Left,
    DontCare,
}

/// Supported instruments.
#[derive(Debug, Copy, Clone, PartialEq, Eq, Structural)]
pub enum Instrument {
    MslMAHLI,
    MslMastcamLeft,
    MslMastcamRight,
    MslNavCamRight,
    MslNavCamLeft,
    MslFrontHazLeft,
    MslFrontHazRight,
    MslRearHazLeft,
    MslRearHazRight,
    MslMARDI,
    MslChemCam,
    M20MastcamZLeft,
    M20MastcamZRight,
    M20NavcamLeft,
    M20NavcamRight,
    M20FrontHazLeft,
    M20FrontHazRight,
    M20RearHazLeft,
    M20RearHazRight,
    M20Watson,
    M20SuperCam,
    M20Pixl,
    M20SkyCam,
    M20HeliNav,
    M20HeliRte,
    M20SherlocAci,
    M20CacheCam,
    M20EdlRdcam,
    NsytICC,
    NsytIDC,
    NoInstrument,
}

impl Default for Instrument {
    fn default() -> (r: Instrument)
        ensures
            r == Instrument::NoInstrument,
    {
        Instrument::NoInstrument
    }
}

/// Kinds of calibration file an instrument may have.
#[derive(Debug, Copy, Clone, PartialEq, Eq, Structural)]
pub enum CalFileType {
    FlatField,
    InpaintMask,
    Mask,
    Lut,
}

/// `std::num::ParseIntError`, the error type of instrument parsing, which
/// never fails.
#[verifier::external_type_specification]
#[verifier::external_body]
pub struct ExParseIntError(std::num::ParseIntError);

/// What Unicode upper-casing (`str::to_uppercase`) makes of a string.
pub uninterp spec fn uppercase_of(s: Seq<char>) -> Seq<char>;

/// Calls `str::to_uppercase`. The contract only names the result: it is a
/// function of the input characters alone (Rust's case mapping does not depend
/// on a locale); the Unicode mapping itself is not stated.
#[verifier::external_body]
fn to_uppercase(s: &str) -> (r: String)
    ensures
        r@ == uppercase_of(s@),
{
    s.to_uppercase()
}

/// The instrument that an upper-case instrument name from the public raw image
/// APIs designates; unknown names give `Instrument::NoInstrument`.
pub open spec fn instrument_for_upper_name(u: Seq<char>) -> Instrument {
    if u == "MCZ_LEFT"@ {
        Instrument::M20MastcamZLeft
    } else if u == "MCZ_RIGHT"@ {
        Instrument::M20MastcamZRight
    } else if u == "FRONT_HAZCAM_LEFT_A"@ || u == "FRONT_HAZCAM_LEFT_B"@ {
        Instrument::M20FrontHazLeft
    } else if u == "FRONT_HAZCAM_RIGHT_A"@ || u == "FRONT_HAZCAM_RIGHT_B"@ {
        Instrument::M20FrontHazRight
    } else if u == "REAR_HAZCAM_LEFT"@ {
        Instrument::M20RearHazLeft
    } else if u == "REAR_HAZCAM_RIGHT"@ {
        Instrument::M20RearHazRight
    } else if u == "NAVCAM_LEFT"@ {
        Instrument::M20NavcamLeft
    } else if u == "NAVCAM_RIGHT"@ {
        Instrument::M20NavcamRight
    } else if u == "SHERLOC_WATSON"@ {
        Instrument::M20Watson
    } else if u == "HELI_NAV"@ {
        Instrument::M20HeliNav
    } else if u == "HELI_RTE"@ {
        Instrument::M20HeliRte
    } else if u == "PIXL_MCC"@ {
        Instrument::M20Pixl
    } else if u == "SKYCAM"@ {
        Instrument::M20SkyCam
    } else if u == "SUPERCAM_RMI"@ {
        Instrument::M20SuperCam
    } else if u == "SHERLOC_ACI"@ {
        Instrument::M20SherlocAci
    } else if u == "CACHECAM"@ {
        Instrument::M20CacheCam
    } else if u == "EDL_RDCAM"@ {
        Instrument::M20EdlRdcam
    } else if u == "MAST_LEFT"@ {
        Instrument::MslMastcamLeft
    } else if u == "MAST_RIGHT"@ {
        Instrument::MslMastcamRight
    } else if u == "MAHLI"@ {
        Instrument::MslMAHLI
    } else if u == "MARDI"@ {
        Instrument::MslMARDI
    } else if u == "FHAZ_LEFT_A"@ || u == "FHAZ_LEFT_B"@ {
        Instrument::MslFrontHazLeft
    } else if u == "FHAZ_RIGHT_A"@ || u == "FHAZ_RIGHT_B"@ {
        Instrument::MslFrontHazRight
    } else if u == "RHAZ_LEFT_A"@ || u == "RHAZ_LEFT_B"@ {
        Instrument::MslRearHazLeft
    } else if u == "RHAZ_RIGHT_A"@ || u == "RHAZ_RIGHT_B"@ {
        Instrument::MslRearHazRight
    } else if u == "NAV_LEFT_A"@ || u == "NAV_LEFT_B"@ {
        Instrument::MslNavCamLeft
    } else if u == "NAV_RIGHT_A"@ || u == "NAV_RIGHT_B"@ {
        Instrument::MslNavCamRight
    } else if u == "CHEMCAM_RMI"@ {
        Instrument::MslChemCam
    } else if u == "IDC"@ {
        Instrument::NsytIDC
    } else if u == "ICC"@ {
        Instrument::NsytICC
    } else {
        Instrument::NoInstrument
    }
}

/// The names under which the raw image APIs list each camera, written from
/// the camera's side: its mission's spelling of the camera and, for a stereo
/// camera, the side (`LEFT`/`RIGHT`) and, where the rover carries two units,
/// the unit (`_A`/`_B`).
pub open spec fn api_names(i: Instrument) -> Seq<Seq<char>> {
    match i {
        Instrument::MslMAHLI => seq!["MAHLI"@],
        Instrument::MslMastcamLeft => seq!["MAST_LEFT"@],
        Instrument::MslMastcamRight => seq!["MAST_RIGHT"@],
        Instrument::MslNavCamRight => seq!["NAV_RIGHT_A"@, "NAV_RIGHT_B"@],
        Instrument::MslNavCamLeft => seq!["NAV_LEFT_A"@, "NAV_LEFT_B"@],
        Instrument::MslFrontHazLeft => seq!["FHAZ_LEFT_A"@, "FHAZ_LEFT_B"@],
        Instrument::MslFrontHazRight => seq!["FHAZ_RIGHT_A"@, "FHAZ_RIGHT_B"@],
        Instrument::MslRearHazLeft => seq!["RHAZ_LEFT_A"@, "RHAZ_LEFT_B"@],
        Instrument::MslRearHazRight => seq!["RHAZ_RIGHT_A"@, "RHAZ_RIGHT_B"@],
        Instrument::MslMARDI => seq!["MARDI"@],
        Instrument::MslChemCam => seq!["CHEMCAM_RMI"@],
        Instrument::M20MastcamZLeft => seq!["MCZ_LEFT"@],
        Instrument::M20MastcamZRight => seq!["MCZ_RIGHT"@],
        Instrument::M20NavcamLeft => seq!["NAVCAM_LEFT"@],
        Instrument::M20NavcamRight => seq!["NAVCAM_RIGHT"@],
        Instrument::M20FrontHazLeft => seq!["FRONT_HAZCAM_LEFT_A"@, "FRONT_HAZCAM_LEFT_B"@],
        Instrument::M20FrontHazRight => seq!["FRONT_HAZCAM_RIGHT_A"@, "FRONT_HAZCAM_RIGHT_B"@],
        Instrument::M20RearHazLeft => seq!["REAR_HAZCAM_LEFT"@],
        Instrument::M20RearHazRight => seq!["REAR_HAZCAM_RIGHT"@],
        Instrument::M20Watson => seq!["SHERLOC_WATSON"@],
        Instrument::M20SuperCam => seq!["SUPERCAM_RMI"@],
        Instrument::M20Pixl => seq!["PIXL_MCC"@],
        Instrument::M20SkyCam => seq!["SKYCAM"@],
        Instrument::M20HeliNav => seq!["HELI_NAV"@],
        Instrument::M20HeliRte => seq!["HELI_RTE"@],
        Instrument::M20SherlocAci => seq!["SHERLOC_ACI"@],
        Instrument::M20CacheCam => seq!["CACHECAM"@],
        Instrument::M20EdlRdcam => seq!["EDL_RDCAM"@],
        Instrument::NsytICC => seq!["ICC"@],
        Instrument::NsytIDC => seq!["IDC"@],
        Instrument::NoInstrument => seq![],
    }
}

/// Every API name of a camera is recognised as that camera, so in particular
/// distinct cameras never share a name, and each side of a stereo pair is
/// recognised as that side.
pub proof fn api_names_name_their_camera(i: Instrument, k: int)
    requires
        0 <= k < api_names(i).len(),
    ensures
        instrument_for_upper_name(api_names(i)[k]) == i,
{
    reveal_strlit("CACHECAM");
    assert("CACHECAM"@.len() == 8);
    assert("CACHECAM"@[0] == 'C');
    reveal_strlit("CHEMCAM_RMI");
    assert("CHEMCAM_RMI"@.len() == 11);
    assert("CHEMCAM_RMI"@[0] == 'C');
    reveal_strlit("EDL_RDCAM");
    assert("EDL_RDCAM"@.len() == 9);
    assert("EDL_RDCAM"@[0] == 'E');
    reveal_strlit("FHAZ_LEFT_A");
    assert("FHAZ_LEFT_A"@.len() == 11);
    assert("FHAZ_LEFT_A"@[0] == 'F');
    assert("FHAZ_LEFT_A"@[10] == 'A');
    reveal_strlit("FHAZ_LEFT_B");
    assert("FHAZ_LEFT_B"@.len() == 11);
    assert("FHAZ_LEFT_B"@[0] == 'F');
    assert("FHAZ_LEFT_B"@[10] == 'B');
    reveal_strlit("FHAZ_RIGHT_A");
    assert("FHAZ_RIGHT_A"@.len() == 12);
    assert("FHAZ_RIGHT_A"@[0] == 'F');
    assert("FHAZ_RIGHT_A"@[11] == 'A');
    reveal_strlit("FHAZ_RIGHT_B");
    assert("FHAZ_RIGHT_B"@.len() == 12);
    assert("FHAZ_RIGHT_B"@[0] == 'F');
    assert("FHAZ_RIGHT_B"@[11] == 'B');
    reveal_strlit("FRONT_HAZCAM_LEFT_A");
    assert("FRONT_HAZCAM_LEFT_A"@.len() == 19);
    assert("FRONT_HAZCAM_LEFT_A"@[18] == 'A');
    reveal_strlit("FRONT_HAZCAM_LEFT_B");
    assert("FRONT_HAZCAM_LEFT_B"@.len() == 19);
    assert("FRONT_HAZCAM_LEFT_B"@[18] == 'B');
    reveal_strlit("FRONT_HAZCAM_RIGHT_A");
    assert("FRONT_HAZCAM_RIGHT_A"@.len() == 20);
    assert("FRONT_HAZCAM_RIGHT_A"@[19] == 'A');
    reveal_strlit("FRONT_HAZCAM_RIGHT_B");
    assert("FRONT_HAZCAM_RIGHT_B"@.len() == 20);
    assert("FRONT_HAZCAM_RIGHT_B"@[19] == 'B');
    reveal_strlit("HELI_NAV");
    assert("HELI_NAV"@.len() == 8);
    assert("HELI_NAV"@[0] == 'H');
    assert("HELI_NAV"@[5] == 'N');
    reveal_strlit("HELI_RTE");
    assert("HELI_RTE"@.len() == 8);
    assert("HELI_RTE"@[0] == 'H');
    assert("HELI_RTE"@[5] == 'R');
    reveal_strlit("ICC");
    assert("ICC"@.len() == 3);
    assert("ICC"@[1] == 'C');
    reveal_strlit("IDC");
    assert("IDC"@.len() == 3);
    assert("IDC"@[1] == 'D');
    reveal_strlit("MAHLI");
    assert("MAHLI"@.len() == 5);
    assert("MAHLI"@[2] == 'H');
    reveal_strlit("MARDI");
    assert("MARDI"@.len() == 5);
    assert("MARDI"@[2] == 'R');
    reveal_strlit("MAST_LEFT");
    assert("MAST_LEFT"@.len() == 9);
    assert("MAST_LEFT"@[0] == 'M');
    assert("MAST_LEFT"@[1] == 'A');
    reveal_strlit("MAST_RIGHT");
    assert("MAST_RIGHT"@.len() == 10);
    assert("MAST_RIGHT"@[0] == 'M');
    reveal_strlit("MCZ_LEFT");
    assert("MCZ_LEFT"@.len() == 8);
    assert("MCZ_LEFT"@[0] == 'M');
    reveal_strlit("MCZ_RIGHT");
    assert("MCZ_RIGHT"@.len() == 9);
    assert("MCZ_RIGHT"@[0] == 'M');
    assert("MCZ_RIGHT"@[1] == 'C');
    reveal_strlit("NAVCAM_LEFT");
    assert("NAVCAM_LEFT"@.len() == 11);
    assert("NAVCAM_LEFT"@[0] == 'N');
    assert("NAVCAM_LEFT"@[3] == 'C');
    reveal_strlit("NAVCAM_RIGHT");
    assert("NAVCAM_RIGHT"@.len() == 12);
    assert("NAVCAM_RIGHT"@[0] == 'N');
    reveal_strlit("NAV_LEFT_A");
    assert("NAV_LEFT_A"@.len() == 10);
    assert("NAV_LEFT_A"@[0] == 'N');
    assert("NAV_LEFT_A"@[9] == 'A');
    reveal_strlit("NAV_LEFT_B");
    assert("NAV_LEFT_B"@.len() == 10);
    assert("NAV_LEFT_B"@[0] == 'N');
    assert("NAV_LEFT_B"@[9] == 'B');
    reveal_strlit("NAV_RIGHT_A");
    assert("NAV_RIGHT_A"@.len() == 11);
    assert("NAV_RIGHT_A"@[0] == 'N');
    assert("NAV_RIGHT_A"@[3] == '_');
    assert("NAV_RIGHT_A"@[10] == 'A');
    reveal_strlit("NAV_RIGHT_B");
    assert("NAV_RIGHT_B"@.len() == 11);
    assert("NAV_RIGHT_B"@[0] == 'N');
    assert("NAV_RIGHT_B"@[3] == '_');
    assert("NAV_RIGHT_B"@[10] == 'B');
    reveal_strlit("PIXL_MCC");
    assert("PIXL_MCC"@.len() == 8);
    assert("PIXL_MCC"@[0] == 'P');
    reveal_strlit("REAR_HAZCAM_LEFT");
    assert("REAR_HAZCAM_LEFT"@.len() == 16);
    reveal_strlit("REAR_HAZCAM_RIGHT");
    assert("REAR_HAZCAM_RIGHT"@.len() == 17);
    reveal_strlit("RHAZ_LEFT_A");
    assert("RHAZ_LEFT_A"@.len() == 11);
    assert("RHAZ_LEFT_A"@[0] == 'R');
    assert("RHAZ_LEFT_A"@[10] == 'A');
    reveal_strlit("RHAZ_LEFT_B");
    assert("RHAZ_LEFT_B"@.len() == 11);
    assert("RHAZ_LEFT_B"@[0] == 'R');
    assert("RHAZ_LEFT_B"@[10] == 'B');
    reveal_strlit("RHAZ_RIGHT_A");
    assert("RHAZ_RIGHT_A"@.len() == 12);
    assert("RHAZ_RIGHT_A"@[0] == 'R');
    assert("RHAZ_RIGHT_A"@[11] == 'A');
    reveal_strlit("RHAZ_RIGHT_B");
    assert("RHAZ_RIGHT_B"@.len() == 12);
    assert("RHAZ_RIGHT_B"@[0] == 'R');
    assert("RHAZ_RIGHT_B"@[11] == 'B');
    reveal_strlit("SHERLOC_ACI");
    assert("SHERLOC_ACI"@.len() == 11);
    assert("SHERLOC_ACI"@[0] == 'S');
    reveal_strlit("SHERLOC_WATSON");
    assert("SHERLOC_WATSON"@.len() == 14);
    reveal_strlit("SKYCAM");
    assert("SKYCAM"@.len() == 6);
    reveal_strlit("SUPERCAM_RMI");
    assert("SUPERCAM_RMI"@.len() == 12);
    assert("SUPERCAM_RMI"@[0] == 'S');
    match i {
        Instrument::MslMAHLI => { assert(instrument_for_upper_name(api_names(i)[k]) == i); },
        Instrument::MslMastcamLeft => { assert(instrument_for_upper_name(api_names(i)[k]) == i); },
        Instrument::MslMastcamRight => { assert(instrument_for_upper_name(api_names(i)[k]) == i); },
        Instrument::MslNavCamRight => { assert(instrument_for_upper_name(api_names(i)[k]) == i); },
        Instrument::MslNavCamLeft => { assert(instrument_for_upper_name(api_names(i)[k]) == i); },
        Instrument::MslFrontHazLeft => { assert(instrument_for_upper_name(api_names(i)[k]) == i); },
        Instrument::MslFrontHazRight => { assert(instrument_for_upper_name(api_names(i)[k]) == i); },
        Instrument::MslRearHazLeft => { assert(instrument_for_upper_name(api_names(i)[k]) == i); },
        Instrument::MslRearHazRight => { assert(instrument_for_upper_name(api_names(i)[k]) == i); },
        Instrument::MslMARDI => { assert(instrument_for_upper_name(api_names(i)[k]) == i); },
        Instrument::MslChemCam => { assert(instrument_for_upper_name(api_names(i)[k]) == i); },
        Instrument::M20MastcamZLeft => { assert(instrument_for_upper_name(api_names(i)[k]) == i); },
        Instrument::M20MastcamZRight => { assert(instrument_for_upper_name(api_names(i)[k]) == i); },
        Instrument::M20NavcamLeft => { assert(instrument_for_upper_name(api_names(i)[k]) == i); },
        Instrument::M20NavcamRight => { assert(instrument_for_upper_name(api_names(i)[k]) == i); },
        Instrument::M20FrontHazLeft => { assert(instrument_for_upper_name(api_names(i)[k]) == i); },
        Instrument::M20FrontHazRight => { assert(instrument_for_upper_name(api_names(i)[k]) == i); },
        Instrument::M20RearHazLeft => { assert(instrument_for_upper_name(api_names(i)[k]) == i); },
        Instrument::M20RearHazRight => { assert(instrument_for_upper_name(api_names(i)[k]) == i); },
        Instrument::M20Watson => { assert(instrument_for_upper_name(api_names(i)[k]) == i); },
        Instrument::M20SuperCam => { assert(instrument_for_upper_name(api_names(i)[k]) == i); },
        Instrument::M20Pixl => { assert(instrument_for_upper_name(api_names(i)[k]) == i); },
        Instrument::M20SkyCam => { assert(instrument_for_upper_name(api_names(i)[k]) == i); },
        Instrument::M20HeliNav => { assert(instrument_for_upper_name(api_names(i)[k]) == i); },
        Instrument::M20HeliRte => { assert(instrument_for_upper_name(api_names(i)[k]) == i); },
        Instrument::M20SherlocAci => { assert(instrument_for_upper_name(api_names(i)[k]) == i); },
        Instrument::M20CacheCam => { assert(instrument_for_upper_name(api_names(i)[k]) == i); },
        Instrument::M20EdlRdcam => { assert(instrument_for_upper_name(api_names(i)[k]) == i); },
        Instrument::NsytICC => { assert(instrument_for_upper_name(api_names(i)[k]) == i); },
        Instrument::NsytIDC => { assert(instrument_for_upper_name(api_names(i)[k]) == i); },
        Instrument::NoInstrument => {},
    }
}

/// Only the API names of a camera are recognised as it: any other name is
/// `Instrument::NoInstrument`.
pub proof fn only_api_names_are_recognised(u: Seq<char>)
    ensures
        instrument_for_upper_name(u) != Instrument::NoInstrument ==> exists|k: int|
            0 <= k < api_names(instrument_for_upper_name(u)).len() && #[trigger] api_names(
                instrument_for_upper_name(u),
            )[k] == u,
{
    let i = instrument_for_upper_name(u);
    if i != Instrument::NoInstrument {
        let names = api_names(i);
        if names.len() == 1 {
            assert(names[0] == u);
        } else {
            assert(names[0] == u || names[1] == u);
        }
    }
}

impl Instrument {
    /// Recognises an instrument name that is already in upper case.
    pub fn from_upper_name(u: &str) -> (r: Instrument)
        ensures
            r == instrument_for_upper_name(u@),
    {
        if str_eq(u, "MCZ_LEFT") {
            Instrument::M20MastcamZLeft
        } else if str_eq(u, "MCZ_RIGHT") {
            Instrument::M20MastcamZRight
        } else if str_eq(u, "FRONT_HAZCAM_LEFT_A") || str_eq(u, "FRONT_HAZCAM_LEFT_B") {
            Instrument::M20FrontHazLeft
        } else if str_eq(u, "FRONT_HAZCAM_RIGHT_A") || str_eq(u, "FRONT_HAZCAM_RIGHT_B") {
            Instrument::M20FrontHazRight
        } else if str_eq(u, "REAR_HAZCAM_LEFT") {
            Instrument::M20RearHazLeft
        } else if str_eq(u, "REAR_HAZCAM_RIGHT") {
            Instrument::M20RearHazRight
        } else if str_eq(u, "NAVCAM_LEFT") {
            Instrument::M20NavcamLeft
        } else if str_eq(u, "NAVCAM_RIGHT") {
            Instrument::M20NavcamRight
        } else if str_eq(u, "SHERLOC_WATSON") {
            Instrument::M20Watson
        } else if str_eq(u, "HELI_NAV") {
            Instrument::M20HeliNav
        } else if str_eq(u, "HELI_RTE") {
            Instrument::M20HeliRte
        } else if str_eq(u, "PIXL_MCC") {
            Instrument::M20Pixl
        } else if str_eq(u, "SKYCAM") {
            Instrument::M20SkyCam
        } else if str_eq(u, "SUPERCAM_RMI") {
            Instrument::M20SuperCam
        } else if str_eq(u, "SHERLOC_ACI") {
            Instrument::M20SherlocAci
        } else if str_eq(u, "CACHECAM") {
            Instrument::M20CacheCam
        } else if str_eq(u, "EDL_RDCAM") {
            Instrument::M20EdlRdcam
        } else if str_eq(u, "MAST_LEFT") {
            Instrument::MslMastcamLeft
        } else if str_eq(u, "MAST_RIGHT") {
            Instrument::MslMastcamRight
        } else if str_eq(u, "MAHLI") {
            Instrument::MslMAHLI
        } else if str_eq(u, "MARDI") {
            Instrument::MslMARDI
        } else if str_eq(u, "FHAZ_LEFT_A") || str_eq(u, "FHAZ_LEFT_B") {
            Instrument::MslFrontHazLeft
        } else if str_eq(u, "FHAZ_RIGHT_A") || str_eq(u, "FHAZ_RIGHT_B") {
            Instrument::MslFrontHazRight
        } else if str_eq(u, "RHAZ_LEFT_A") || str_eq(u, "RHAZ_LEFT_B") {
            Instrument::MslRearHazLeft
        } else if str_eq(u, "RHAZ_RIGHT_A") || str_eq(u, "RHAZ_RIGHT_B") {
            Instrument::MslRearHazRight
        } else if str_eq(u, "NAV_LEFT_A") || str_eq(u, "NAV_LEFT_B") {
            Instrument::MslNavCamLeft
        } else if str_eq(u, "NAV_RIGHT_A") || str_eq(u, "NAV_RIGHT_B") {
            Instrument::MslNavCamRight
        } else if str_eq(u, "CHEMCAM_RMI") {
            Instrument::MslChemCam
        } else if str_eq(u, "IDC") {
            Instrument::NsytIDC
        } else if str_eq(u, "ICC") {
            Instrument::NsytICC
        } else {
            Instrument::NoInstrument
        }
    }

    /// Parses an instrument name as the raw image APIs spell it, in any case:
    /// the name is upper-cased, then recognised. Every input gives an
    /// instrument; unknown names give `Instrument::NoInstrument`.
    pub fn from_name(s: &str) -> (r: Instrument)
        ensures
            r == instrument_for_upper_name(uppercase_of(s@)),
    {
        let u = to_uppercase(s);
        Instrument::from_upper_name(u.as_str())
    }

    /// Parses an instrument name as `from_name` does; never an error.
    pub fn from_str(s: &str) -> (r: Result<Instrument, std::num::ParseIntError>)
        ensures
            r matches Ok(i) && i == instrument_for_upper_name(uppercase_of(s@)),
    {
        Ok(Instrument::from_name(s))
    }
}

} // verus!
