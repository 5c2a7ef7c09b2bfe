//! Calibration manifest model and calibration-file resolution.
//!
//! The calibration manifest (`caldata.toml`) names, for each instrument, a
//! flat field, an inpainting mask, an alpha mask and a look-up table. A named
//! file is looked for as given, then under each data directory in turn; the
//! first existing path wins.

use vstd::prelude::*;
use crate::enums::{CalFileType, Instrument};
use crate::util::{concat_str, contains_string, to_owned_string};

verus! {

/// The calibration files of one instrument; an empty name means "none".
pub struct InstrumentProperties {
    pub flat: String,
    pub inpaint_mask: String,
    pub mask: String,
    pub lut: String,
}

/// A calibration file name with the kind of file it is.
pub struct CalFilePathAndType {
    pub file: String,
    pub file_type: CalFileType,
}

/// Calibration files of the Curiosity (MSL) instruments.
pub struct MslCalData {
    pub mahli: InstrumentProperties,
    pub nav_right: InstrumentProperties,
    pub nav_left: InstrumentProperties,
    pub fhaz_right: InstrumentProperties,
    pub fhaz_left: InstrumentProperties,
    pub rhaz_right: InstrumentProperties,
    pub rhaz_left: InstrumentProperties,
    pub mastcam_right: InstrumentProperties,
    pub mastcam_left: InstrumentProperties,
    pub chemcam: InstrumentProperties,
    pub mardi: InstrumentProperties,
}

/// Calibration files of the Perseverance (Mars 2020) instruments.
pub struct M20CalData {
    pub mastcamz_right: InstrumentProperties,
    pub mastcamz_left: InstrumentProperties,
    pub watson: InstrumentProperties,
    pub supercam_rmi: InstrumentProperties,
    pub nav_left: InstrumentProperties,
    pub nav_right: InstrumentProperties,
    pub fhaz_right: InstrumentProperties,
    pub fhaz_left: InstrumentProperties,
    pub rhaz_right: InstrumentProperties,
    pub rhaz_left: InstrumentProperties,
    pub heli_nav: InstrumentProperties,
    pub heli_rte: InstrumentProperties,
    pub pixl_mcc: InstrumentProperties,
    pub skycam: InstrumentProperties,
    pub sherloc_aci: InstrumentProperties,
    pub cachecam: InstrumentProperties,
    pub edl_rdcam: InstrumentProperties,
}

/// Calibration files of the InSight instruments.
pub struct NsytCalData {
    pub idc: InstrumentProperties,
    pub icc: InstrumentProperties,
}

/// The whole calibration manifest.
pub struct Config {
    pub msl: MslCalData,
    pub m20: M20CalData,
    pub nsyt: NsytCalData,
}

/// Why a calibration file could not be resolved.
#[derive(Debug)]
pub enum CalibrationError {
    /// The instrument has no calibration entry, or no file of the asked kind.
    UnsupportedInstrument,
    /// No candidate path of the named file exists.
    FileNotFound(String),
}

impl CalibrationError {
    /// The human-readable message of the error.
    pub fn message(&self) -> (r: String)
        ensures
            r@ == match self {
                CalibrationError::UnsupportedInstrument => "Unsupported instrument"@,
                CalibrationError::FileNotFound(f) => "Calibration file not found: "@ + f@,
            },
    {
        match self {
            CalibrationError::UnsupportedInstrument => to_owned_string("Unsupported instrument"),
            CalibrationError::FileNotFound(f) => concat_str(
                "Calibration file not found: ",
                f.as_str(),
            ),
        }
    }
}

/// The default value of an absent manifest entry: the empty name.
pub fn default_blank() -> (r: String)
    ensures
        r@ == Seq::<char>::empty(),
{
    String::new()
}

/// The default value of an absent instrument section: no files at all.
pub fn default_instrument_properties() -> (r: InstrumentProperties)
    ensures
        r.flat@ == Seq::<char>::empty(),
        r.inpaint_mask@ == Seq::<char>::empty(),
        r.mask@ == Seq::<char>::empty(),
        r.lut@ == Seq::<char>::empty(),
{
    InstrumentProperties {
        flat: default_blank(),
        inpaint_mask: default_blank(),
        mask: default_blank(),
        lut: default_blank(),
    }
}

/// The file name of the given kind among an instrument's properties.
pub open spec fn file_for_type(p: InstrumentProperties, t: CalFileType) -> Seq<char> {
    match t {
        CalFileType::FlatField => p.flat@,
        CalFileType::InpaintMask => p.inpaint_mask@,
        CalFileType::Mask => p.mask@,
        CalFileType::Lut => p.lut@,
    }
}

impl InstrumentProperties {
    /// The four calibration files, as flat field, inpainting mask, look-up
    /// table, then mask.
    pub fn into_iter(self) -> (r: Vec<CalFilePathAndType>)
        ensures
            r@.len() == 4,
            r@[0].file@ == self.flat@ && r@[0].file_type == CalFileType::FlatField,
            r@[1].file@ == self.inpaint_mask@ && r@[1].file_type == CalFileType::InpaintMask,
            r@[2].file@ == self.lut@ && r@[2].file_type == CalFileType::Lut,
            r@[3].file@ == self.mask@ && r@[3].file_type == CalFileType::Mask,
    {
        let mut v: Vec<CalFilePathAndType> = Vec::new();
        v.push(CalFilePathAndType { file: self.flat, file_type: CalFileType::FlatField });
        v.push(CalFilePathAndType { file: self.inpaint_mask, file_type: CalFileType::InpaintMask });
        v.push(CalFilePathAndType { file: self.lut, file_type: CalFileType::Lut });
        v.push(CalFilePathAndType { file: self.mask, file_type: CalFileType::Mask });
        v
    }
}

/// The name of the calibration file of the given kind.
pub fn get_calibration_file_for_type(inst_props: &InstrumentProperties, cal_file_type: CalFileType) -> (r:
    String)
    ensures
        r@ == file_for_type(*inst_props, cal_file_type),
{
    match cal_file_type {
        CalFileType::FlatField => inst_props.flat.clone(),
        CalFileType::InpaintMask => inst_props.inpaint_mask.clone(),
        CalFileType::Mask => inst_props.mask.clone(),
        CalFileType::Lut => inst_props.lut.clone(),
    }
}

/// The manifest section that holds an instrument's calibration files.
/// The rear right M20 hazard camera reads the rear left section.
pub open spec fn properties_for(c: Config, i: Instrument) -> Option<InstrumentProperties> {
    match i {
        Instrument::MslMAHLI => Some(c.msl.mahli),
        Instrument::MslMastcamLeft => Some(c.msl.mastcam_left),
        Instrument::MslMastcamRight => Some(c.msl.mastcam_right),
        Instrument::MslNavCamRight => Some(c.msl.nav_right),
        Instrument::MslNavCamLeft => Some(c.msl.nav_left),
        Instrument::MslFrontHazLeft => Some(c.msl.fhaz_left),
        Instrument::MslFrontHazRight => Some(c.msl.fhaz_right),
        Instrument::MslRearHazLeft => Some(c.msl.rhaz_left),
        Instrument::MslRearHazRight => Some(c.msl.rhaz_right),
        Instrument::MslMARDI => Some(c.msl.mardi),
        Instrument::MslChemCam => Some(c.msl.chemcam),
        Instrument::M20MastcamZLeft => Some(c.m20.mastcamz_left),
        Instrument::M20MastcamZRight => Some(c.m20.mastcamz_right),
        Instrument::M20NavcamLeft => Some(c.m20.nav_left),
        Instrument::M20NavcamRight => Some(c.m20.nav_right),
        Instrument::M20FrontHazLeft => Some(c.m20.fhaz_left),
        Instrument::M20FrontHazRight => Some(c.m20.fhaz_right),
        Instrument::M20RearHazLeft => Some(c.m20.rhaz_left),
        Instrument::M20RearHazRight => Some(c.m20.rhaz_left),
        Instrument::M20Watson => Some(c.m20.watson),
        Instrument::M20SuperCam => Some(c.m20.supercam_rmi),
        Instrument::M20HeliNav => Some(c.m20.heli_nav),
        Instrument::M20HeliRte => Some(c.m20.heli_rte),
        Instrument::M20Pixl => Some(c.m20.pixl_mcc),
        Instrument::M20SkyCam => Some(c.m20.skycam),
        Instrument::M20SherlocAci => Some(c.m20.sherloc_aci),
        Instrument::M20CacheCam => Some(c.m20.cachecam),
        Instrument::M20EdlRdcam => Some(c.m20.edl_rdcam),
        Instrument::NsytICC => Some(c.nsyt.icc),
        Instrument::NsytIDC => Some(c.nsyt.idc),
        Instrument::NoInstrument => None,
    }
}

/// The manifest's file name of the given kind for an instrument; an error for
/// `Instrument::NoInstrument`.
pub fn get_calibration_base_file_for_instrument(
    config: &Config,
    instrument: Instrument,
    cal_file_type: CalFileType,
) -> (r: Result<String, CalibrationError>)
    ensures
        match properties_for(*config, instrument) {
            Some(p) => r matches Ok(f) && f@ == file_for_type(p, cal_file_type),
            None => r matches Err(CalibrationError::UnsupportedInstrument),
        },
{
    let p: &InstrumentProperties = match instrument {
        Instrument::MslMAHLI => &config.msl.mahli,
        Instrument::MslMastcamLeft => &config.msl.mastcam_left,
        Instrument::MslMastcamRight => &config.msl.mastcam_right,
        Instrument::MslNavCamRight => &config.msl.nav_right,
        Instrument::MslNavCamLeft => &config.msl.nav_left,
        Instrument::MslFrontHazLeft => &config.msl.fhaz_left,
        Instrument::MslFrontHazRight => &config.msl.fhaz_right,
        Instrument::MslRearHazLeft => &config.msl.rhaz_left,
        Instrument::MslRearHazRight => &config.msl.rhaz_right,
        Instrument::MslMARDI => &config.msl.mardi,
        Instrument::MslChemCam => &config.msl.chemcam,
        Instrument::M20MastcamZLeft => &config.m20.mastcamz_left,
        Instrument::M20MastcamZRight => &config.m20.mastcamz_right,
        Instrument::M20NavcamLeft => &config.m20.nav_left,
        Instrument::M20NavcamRight => &config.m20.nav_right,
        Instrument::M20FrontHazLeft => &config.m20.fhaz_left,
        Instrument::M20FrontHazRight => &config.m20.fhaz_right,
        Instrument::M20RearHazLeft => &config.m20.rhaz_left,
        Instrument::M20RearHazRight => &config.m20.rhaz_left,
        Instrument::M20Watson => &config.m20.watson,
        Instrument::M20SuperCam => &config.m20.supercam_rmi,
        Instrument::M20HeliNav => &config.m20.heli_nav,
        Instrument::M20HeliRte => &config.m20.heli_rte,
        Instrument::M20Pixl => &config.m20.pixl_mcc,
        Instrument::M20SkyCam => &config.m20.skycam,
        Instrument::M20SherlocAci => &config.m20.sherloc_aci,
        Instrument::M20CacheCam => &config.m20.cachecam,
        Instrument::M20EdlRdcam => &config.m20.edl_rdcam,
        Instrument::NsytICC => &config.nsyt.icc,
        Instrument::NsytIDC => &config.nsyt.idc,
        Instrument::NoInstrument => {
            return Err(CalibrationError::UnsupportedInstrument);
        },
    };
    Ok(get_calibration_file_for_type(p, cal_file_type))
}


/// The manifest's file of kind `t` for an instrument, as
/// `get_calibration_base_file_for_instrument` gives it.
pub open spec fn cal_file(c: Config, i: Instrument, t: CalFileType) -> Option<Seq<char>> {
    match properties_for(c, i) {
        Some(p) => Some(file_for_type(p, t)),
        None => None,
    }
}

/// Each kind of calibration file is read from the field of that name.
pub proof fn file_kinds_read_their_own_field(p: InstrumentProperties)
    ensures
        file_for_type(p, CalFileType::FlatField) == p.flat@,
        file_for_type(p, CalFileType::InpaintMask) == p.inpaint_mask@,
        file_for_type(p, CalFileType::Mask) == p.mask@,
        file_for_type(p, CalFileType::Lut) == p.lut@,
{
}

/// Every camera reads its calibration files from the manifest section of the
/// same mission, camera and side (the Mars 2020 rear right hazard camera
/// shares the rear left camera's section); the absent instrument has no
/// files.
pub proof fn each_camera_reads_its_own_section(c: Config, t: CalFileType)
    ensures
        cal_file(c, Instrument::MslMAHLI, t) == Some(file_for_type(c.msl.mahli, t)),
        cal_file(c, Instrument::MslMastcamLeft, t) == Some(file_for_type(c.msl.mastcam_left, t)),
        cal_file(c, Instrument::MslMastcamRight, t) == Some(file_for_type(c.msl.mastcam_right, t)),
        cal_file(c, Instrument::MslNavCamRight, t) == Some(file_for_type(c.msl.nav_right, t)),
        cal_file(c, Instrument::MslNavCamLeft, t) == Some(file_for_type(c.msl.nav_left, t)),
        cal_file(c, Instrument::MslFrontHazLeft, t) == Some(file_for_type(c.msl.fhaz_left, t)),
        cal_file(c, Instrument::MslFrontHazRight, t) == Some(file_for_type(c.msl.fhaz_right, t)),
        cal_file(c, Instrument::MslRearHazLeft, t) == Some(file_for_type(c.msl.rhaz_left, t)),
        cal_file(c, Instrument::MslRearHazRight, t) == Some(file_for_type(c.msl.rhaz_right, t)),
        cal_file(c, Instrument::MslMARDI, t) == Some(file_for_type(c.msl.mardi, t)),
        cal_file(c, Instrument::MslChemCam, t) == Some(file_for_type(c.msl.chemcam, t)),
        cal_file(c, Instrument::M20MastcamZLeft, t) == Some(file_for_type(c.m20.mastcamz_left, t)),
        cal_file(c, Instrument::M20MastcamZRight, t) == Some(file_for_type(c.m20.mastcamz_right, t)),
        cal_file(c, Instrument::M20NavcamLeft, t) == Some(file_for_type(c.m20.nav_left, t)),
        cal_file(c, Instrument::M20NavcamRight, t) == Some(file_for_type(c.m20.nav_right, t)),
        cal_file(c, Instrument::M20FrontHazLeft, t) == Some(file_for_type(c.m20.fhaz_left, t)),
        cal_file(c, Instrument::M20FrontHazRight, t) == Some(file_for_type(c.m20.fhaz_right, t)),
        cal_file(c, Instrument::M20RearHazLeft, t) == Some(file_for_type(c.m20.rhaz_left, t)),
        cal_file(c, Instrument::M20RearHazRight, t) == Some(file_for_type(c.m20.rhaz_left, t)),
        cal_file(c, Instrument::M20Watson, t) == Some(file_for_type(c.m20.watson, t)),
        cal_file(c, Instrument::M20SuperCam, t) == Some(file_for_type(c.m20.supercam_rmi, t)),
        cal_file(c, Instrument::M20HeliNav, t) == Some(file_for_type(c.m20.heli_nav, t)),
        cal_file(c, Instrument::M20HeliRte, t) == Some(file_for_type(c.m20.heli_rte, t)),
        cal_file(c, Instrument::M20Pixl, t) == Some(file_for_type(c.m20.pixl_mcc, t)),
        cal_file(c, Instrument::M20SkyCam, t) == Some(file_for_type(c.m20.skycam, t)),
        cal_file(c, Instrument::M20SherlocAci, t) == Some(file_for_type(c.m20.sherloc_aci, t)),
        cal_file(c, Instrument::M20CacheCam, t) == Some(file_for_type(c.m20.cachecam, t)),
        cal_file(c, Instrument::M20EdlRdcam, t) == Some(file_for_type(c.m20.edl_rdcam, t)),
        cal_file(c, Instrument::NsytICC, t) == Some(file_for_type(c.nsyt.icc, t)),
        cal_file(c, Instrument::NsytIDC, t) == Some(file_for_type(c.nsyt.idc, t)),
        cal_file(c, Instrument::NoInstrument, t) is None,
{
}

/// Where calibration data may live, as the environment of the running
/// program tells it. Each directory is tried in the order of `search_dirs`.
pub struct SearchContext {
    /// The directory named by the `MARS_RAW_DATA` environment variable.
    pub env_data_dir: Option<String>,
    /// The user's home directory.
    pub home_dir: Option<String>,
    /// A path derived from the executable's file name (Windows installations).
    pub exe_file_dir: Option<String>,
    /// The data root fixed when the program was built (`MARSDATAROOT`).
    pub build_data_root: Option<String>,
    /// The `data` directory beside the executable (Windows installations).
    pub exe_data_dir: Option<String>,
}

pub open spec fn opt_dir(o: Option<String>) -> Seq<Seq<char>> {
    match o {
        Some(d) => seq![d@],
        None => seq![],
    }
}

pub open spec fn home_data_dir(o: Option<String>) -> Seq<Seq<char>> {
    match o {
        Some(d) => seq![d@ + "/.marsdata"@],
        None => seq![],
    }
}

/// The data directories, most preferred first.
pub open spec fn search_dirs(ctx: SearchContext) -> Seq<Seq<char>> {
    opt_dir(ctx.env_data_dir) + home_data_dir(ctx.home_dir) + opt_dir(ctx.exe_file_dir) + opt_dir(
        ctx.build_data_root,
    ) + opt_dir(ctx.exe_data_dir) + seq![
        "mars-raw-utils-data/caldata"@,
        "/usr/share/mars_raw_utils/data/"@,
    ]
}

/// The paths at which a calibration file is looked for: as given, then under
/// each data directory.
pub open spec fn candidate_paths(file_path: Seq<char>, ctx: SearchContext) -> Seq<Seq<char>> {
    seq![file_path] + search_dirs(ctx).map_values(|d: Seq<char>| d + "/"@ + file_path)
}

/// The first of `cands` that `existing` holds.
pub open spec fn first_existing(cands: Seq<Seq<char>>, existing: Seq<Seq<char>>) -> Option<Seq<char>>
    decreases cands.len(),
{
    if cands.len() == 0 {
        None
    } else if existing.contains(cands[0]) {
        Some(cands[0])
    } else {
        first_existing(cands.drop_first(), existing)
    }
}

pub open spec fn string_views(v: Seq<String>) -> Seq<Seq<char>> {
    v.map_values(|s: String| s@)
}

/// What locating `file_path` gives, when `existing` lists the paths that exist.
pub open spec fn located(file_path: Seq<char>, ctx: SearchContext, existing: Seq<String>) -> Option<
    Seq<char>,
> {
    first_existing(candidate_paths(file_path, ctx), string_views(existing))
}

fn push_opt(out: &mut Vec<String>, o: &Option<String>)
    ensures
        string_views(final(out)@) == string_views(old(out)@) + opt_dir(*o),
{
    match o {
        Some(d) => {
            out.push(d.clone());
        },
        None => {},
    }
    proof {
        assert(string_views(final(out)@) =~= string_views(old(out)@) + opt_dir(*o));
    }
}

/// The data directories of `search_dirs`.
pub fn calibration_search_dirs(ctx: &SearchContext) -> (r: Vec<String>)
    ensures
        string_views(r@) == search_dirs(*ctx),
{
    let mut out: Vec<String> = Vec::new();
    push_opt(&mut out, &ctx.env_data_dir);
    match &ctx.home_dir {
        Some(h) => {
            out.push(concat_str(h.as_str(), "/.marsdata"));
        },
        None => {},
    }
    proof {
        assert(string_views(out@) =~= opt_dir(ctx.env_data_dir) + home_data_dir(ctx.home_dir));
    }
    push_opt(&mut out, &ctx.exe_file_dir);
    push_opt(&mut out, &ctx.build_data_root);
    push_opt(&mut out, &ctx.exe_data_dir);
    let ghost before = string_views(out@);
    out.push(to_owned_string("mars-raw-utils-data/caldata"));
    out.push(to_owned_string("/usr/share/mars_raw_utils/data/"));
    proof {
        assert(string_views(out@) =~= search_dirs(*ctx));
    }
    out
}

/// The candidate paths of `candidate_paths`, in order.
pub fn calibration_candidates(file_path: &str, ctx: &SearchContext) -> (r: Vec<String>)
    ensures
        string_views(r@) == candidate_paths(file_path@, *ctx),
{
    let dirs = calibration_search_dirs(ctx);
    let mut out: Vec<String> = Vec::new();
    out.push(to_owned_string(file_path));
    let n = dirs.len();
    let ghost sd = search_dirs(*ctx);
    for i in 0..n
        invariant
            n == dirs@.len(),
            string_views(dirs@) == sd,
            string_views(out@) =~= seq![file_path@] + sd.subrange(0, i as int).map_values(
                |d: Seq<char>| d + "/"@ + file_path@,
            ),
    {
        let ghost prev = string_views(out@);
        let with_slash = concat_str(dirs[i].as_str(), "/");
        let full = concat_str(with_slash.as_str(), file_path);
        let ghost fv = full@;
        out.push(full);
        proof {
            assert(sd[i as int] == dirs@[i as int]@);
            assert(string_views(out@) =~= prev.push(fv));
            assert(sd.subrange(0, i + 1) =~= sd.subrange(0, i as int).push(sd[i as int]));
            assert(sd.subrange(0, i + 1).map_values(|d: Seq<char>| d + "/"@ + file_path@)
                =~= sd.subrange(0, i as int).map_values(|d: Seq<char>| d + "/"@ + file_path@).push(
                sd[i as int] + "/"@ + file_path@,
            ));
        }
    }
    proof {
        assert(sd.subrange(0, n as int) =~= sd);
    }
    out
}

/// The first candidate that `existing` lists.
fn first_listed(cands: &Vec<String>, existing: &Vec<String>) -> (r: Option<String>)
    ensures
        match r {
            Some(s) => first_existing(string_views(cands@), string_views(existing@)) == Some(s@),
            None => first_existing(string_views(cands@), string_views(existing@)) is None,
        },
{
    let n = cands.len();
    let ghost cv = string_views(cands@);
    let ghost ev = string_views(existing@);
    proof {
        assert(cv.subrange(0, n as int) =~= cv);
    }
    for i in 0..n
        invariant
            n == cands@.len(),
            cv == string_views(cands@),
            ev == string_views(existing@),
            first_existing(cv, ev) == first_existing(cv.subrange(i as int, n as int), ev),
    {
        proof {
            let rest = cv.subrange(i as int, n as int);
            assert(rest.drop_first() =~= cv.subrange(i + 1, n as int));
            assert(rest[0] == cands@[i as int]@);
        }
        if contains_string(existing, cands[i].as_str()) {
            return Some(cands[i].clone());
        }
    }
    proof {
        assert(cv.subrange(n as int, n as int).len() == 0);
    }
    None
}

/// Looks a calibration file up: as given, then under each data directory;
/// `existing` lists the paths that exist. The first existing candidate wins.
pub fn locate_calibration_file(file_path: &str, ctx: &SearchContext, existing: &Vec<String>) -> (r:
    Result<String, CalibrationError>)
    ensures
        match located(file_path@, *ctx, existing@) {
            Some(p) => r matches Ok(f) && f@ == p,
            None => r matches Err(CalibrationError::FileNotFound(f)) && f@ == file_path@,
        },
{
    let cands = calibration_candidates(file_path, ctx);
    match first_listed(&cands, existing) {
        Some(p) => Ok(p),
        None => Err(CalibrationError::FileNotFound(to_owned_string(file_path))),
    }
}

/// Looks a calibration file up by name; failing that, by the name with
/// `extension` appended.
pub fn locate_calibration_file_no_extention(
    file_path: &String,
    extension: &String,
    ctx: &SearchContext,
    existing: &Vec<String>,
) -> (r: Result<String, CalibrationError>)
    ensures
        match located(file_path@, *ctx, existing@) {
            Some(p) => r matches Ok(f) && f@ == p,
            None => match located(file_path@ + extension@, *ctx, existing@) {
                Some(p) => r matches Ok(f) && f@ == p,
                None => r matches Err(CalibrationError::FileNotFound(f)) && f@ == file_path@
                    + extension@,
            },
        },
{
    match locate_calibration_file(file_path.as_str(), ctx, existing) {
        Ok(fp) => Ok(fp),
        Err(_) => {
            let with_ext = concat_str(file_path.as_str(), extension.as_str());
            locate_calibration_file(with_ext.as_str(), ctx, existing)
        },
    }
}

/// Resolves the calibration file of the given kind for an instrument: the
/// manifest names it, then it is located on disk. An empty name means the
/// instrument has no such file.
pub fn get_calibration_file_for_instrument(
    config: &Config,
    instrument: Instrument,
    cal_file_type: CalFileType,
    ctx: &SearchContext,
    existing: &Vec<String>,
) -> (r: Result<String, CalibrationError>)
    ensures
        match properties_for(*config, instrument) {
            None => r matches Err(CalibrationError::UnsupportedInstrument),
            Some(p) => {
                let name = file_for_type(p, cal_file_type);
                if name.len() == 0 {
                    r matches Err(CalibrationError::UnsupportedInstrument)
                } else {
                    match located(name, *ctx, existing@) {
                        Some(f) => r matches Ok(g) && g@ == f,
                        None => r matches Err(CalibrationError::FileNotFound(g)) && g@ == name,
                    }
                }
            },
        },
{
    match get_calibration_base_file_for_instrument(config, instrument, cal_file_type) {
        Ok(file_name) => {
            if file_name.unicode_len() == 0 {
                Err(CalibrationError::UnsupportedInstrument)
            } else {
                locate_calibration_file(file_name.as_str(), ctx, existing)
            }
        },
        Err(e) => Err(e),
    }
}

proof fn lemma_first_existing(cands: Seq<Seq<char>>, existing: Seq<Seq<char>>)
    ensures
        first_existing(cands, existing) matches Some(p) ==> existing.contains(p) && cands.contains(p),
        cands.len() > 0 && existing.contains(cands[0]) ==> first_existing(cands, existing) == Some(
            cands[0],
        ),
        (exists|i: int| 0 <= i < cands.len() && existing.contains(#[trigger] cands[i]))
            ==> first_existing(cands, existing) is Some,
    decreases cands.len(),
{
    if cands.len() > 0 {
        lemma_first_existing(cands.drop_first(), existing);
        if first_existing(cands, existing) is Some && !existing.contains(cands[0]) {
            let p = first_existing(cands, existing)->0;
            let k = choose|k: int| 0 <= k < cands.drop_first().len() && cands.drop_first()[k] == p;
            assert(cands[k + 1] == p);
        }
        if exists|i: int| 0 <= i < cands.len() && existing.contains(#[trigger] cands[i]) {
            let i = choose|i: int| 0 <= i < cands.len() && existing.contains(#[trigger] cands[i]);
            if i > 0 {
                assert(cands.drop_first()[i - 1] == cands[i]);
            }
        }
    }
}

/// Locating a calibration file finds only paths that exist and that are
/// candidates for it; a file that exists as given is found as given, and a
/// file that exists under some data directory is always found.
pub proof fn located_paths_exist(file_path: Seq<char>, ctx: SearchContext, existing: Seq<String>)
    ensures
        located(file_path, ctx, existing) matches Some(p) ==> string_views(existing).contains(p)
            && candidate_paths(file_path, ctx).contains(p),
        string_views(existing).contains(file_path) ==> located(file_path, ctx, existing) == Some(
            file_path,
        ),
        (exists|i: int|
            0 <= i < candidate_paths(file_path, ctx).len() && string_views(existing).contains(
                #[trigger] candidate_paths(file_path, ctx)[i],
            )) ==> located(file_path, ctx, existing) is Some,
{
    lemma_first_existing(candidate_paths(file_path, ctx), string_views(existing));
    assert(candidate_paths(file_path, ctx)[0] == file_path);
}

} // verus!
