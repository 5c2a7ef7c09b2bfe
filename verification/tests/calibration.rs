use mars_raw_utils::caldata::{
    calibration_file_remote_url, calibration_local_store, calibration_remote_root,
    parse_manifest_file_list, save_without_fetching, saved_after_fetch, update_outcome, SaveResult,
    CALIBRATION_FILE_REMOTE_ROOT,
};
use mars_raw_utils::calibfile::{
    calibration_candidates, calibration_search_dirs, default_blank, default_instrument_properties,
    get_calibration_base_file_for_instrument, get_calibration_file_for_instrument,
    get_calibration_file_for_type, locate_calibration_file, locate_calibration_file_no_extention,
    CalibrationError, Config, InstrumentProperties, M20CalData, MslCalData, NsytCalData,
    SearchContext,
};
use mars_raw_utils::calibrate::{
    centered_subframe, completion_status, skip_existing_output, trim_window, CompleteStatus,
};
use mars_raw_utils::enums::{CalFileType, Instrument};
use mars_raw_utils::inpaintmask::{
    determine_mask_file, inpaint_supported_for_instrument, mask_subframe_for_instrument,
};

fn props(flat: &str, inpaint: &str, mask: &str, lut: &str) -> InstrumentProperties {
    InstrumentProperties {
        flat: flat.to_string(),
        inpaint_mask: inpaint.to_string(),
        mask: mask.to_string(),
        lut: lut.to_string(),
    }
}

fn blank() -> InstrumentProperties {
    default_instrument_properties()
}

fn sample_config() -> Config {
    Config {
        msl: MslCalData {
            mahli: props("MSL_MAHLI_FLAT_Sol2904_V1.png", "MSL_MAHLI_INPAINT_Sol2904_V1.png", "", ""),
            nav_right: blank(),
            nav_left: blank(),
            fhaz_right: blank(),
            fhaz_left: blank(),
            rhaz_right: blank(),
            rhaz_left: blank(),
            mastcam_right: props("MSL_MR_FLAT_V1.png", "MSL_MR_INPAINT_V1.png", "", ""),
            mastcam_left: props("MSL_ML_FLAT_V1.png", "MSL_ML_INPAINT_V1.png", "", ""),
            chemcam: props("MSL_CCAM_FLAT_V1.png", "", "MSL_CCAM_MASK.png", ""),
            mardi: blank(),
        },
        m20: M20CalData {
            mastcamz_right: props("M20_MCZ_RIGHT_FLAT_-motorcount-_V2.png", "M20_MCZ_RIGHT_INPAINT_V1.png", "", "M20_MCZ_LUT.txt"),
            mastcamz_left: props("M20_MCZ_LEFT_FLAT_-motorcount-_V2.png", "M20_MCZ_LEFT_INPAINT_V1.png", "", "M20_MCZ_LUT.txt"),
            watson: props("M20_WATSON_FLAT_V0.png", "M20_WATSON_INPAINT_MASK_V1.png", "", ""),
            supercam_rmi: props("M20_SCAM_FLAT_Sol77_V2.png", "", "M20_SCAM_MASK_Sol1_V1.png", ""),
            nav_left: blank(),
            nav_right: blank(),
            fhaz_right: blank(),
            fhaz_left: blank(),
            rhaz_right: props("RHAZ_RIGHT_FLAT.png", "", "", ""),
            rhaz_left: props("RHAZ_LEFT_FLAT.png", "", "", ""),
            heli_nav: blank(),
            heli_rte: blank(),
            pixl_mcc: blank(),
            skycam: blank(),
            sherloc_aci: blank(),
            cachecam: blank(),
            edl_rdcam: blank(),
        },
        nsyt: NsytCalData { idc: blank(), icc: blank() },
    }
}

fn context() -> SearchContext {
    SearchContext {
        env_data_dir: Some("/data/mru".to_string()),
        home_dir: Some("/home/user".to_string()),
        exe_file_dir: None,
        build_data_root: None,
        exe_data_dir: None,
    }
}

#[test]
fn default_blank_is_empty() {
    assert_eq!(default_blank(), "");
    let p = default_instrument_properties();
    assert_eq!(p.flat, "");
    assert_eq!(p.inpaint_mask, "");
    assert_eq!(p.mask, "");
    assert_eq!(p.lut, "");
}

#[test]
fn file_for_each_type() {
    let p = props("f.png", "i.png", "m.png", "l.txt");
    assert_eq!(get_calibration_file_for_type(&p, CalFileType::FlatField), "f.png");
    assert_eq!(get_calibration_file_for_type(&p, CalFileType::InpaintMask), "i.png");
    assert_eq!(get_calibration_file_for_type(&p, CalFileType::Mask), "m.png");
    assert_eq!(get_calibration_file_for_type(&p, CalFileType::Lut), "l.txt");
}

#[test]
fn properties_into_iter_order() {
    let v = props("f.png", "i.png", "m.png", "l.txt").into_iter();
    assert_eq!(v.len(), 4);
    assert_eq!(v[0].file, "f.png");
    assert_eq!(v[0].file_type, CalFileType::FlatField);
    assert_eq!(v[1].file, "i.png");
    assert_eq!(v[1].file_type, CalFileType::InpaintMask);
    assert_eq!(v[2].file, "l.txt");
    assert_eq!(v[2].file_type, CalFileType::Lut);
    assert_eq!(v[3].file, "m.png");
    assert_eq!(v[3].file_type, CalFileType::Mask);
}

#[test]
fn base_file_for_instruments() {
    let c = sample_config();
    assert_eq!(
        get_calibration_base_file_for_instrument(&c, Instrument::MslMAHLI, CalFileType::FlatField).unwrap(),
        "MSL_MAHLI_FLAT_Sol2904_V1.png"
    );
    assert_eq!(
        get_calibration_base_file_for_instrument(&c, Instrument::M20SuperCam, CalFileType::Mask).unwrap(),
        "M20_SCAM_MASK_Sol1_V1.png"
    );
    // The rear right hazard camera reads the rear left entry.
    assert_eq!(
        get_calibration_base_file_for_instrument(&c, Instrument::M20RearHazRight, CalFileType::FlatField).unwrap(),
        "RHAZ_LEFT_FLAT.png"
    );
    assert_eq!(
        get_calibration_base_file_for_instrument(&c, Instrument::M20NavcamLeft, CalFileType::FlatField).unwrap(),
        ""
    );
    assert!(matches!(
        get_calibration_base_file_for_instrument(&c, Instrument::NoInstrument, CalFileType::FlatField),
        Err(CalibrationError::UnsupportedInstrument)
    ));
}

#[test]
fn search_dirs_in_order() {
    let dirs = calibration_search_dirs(&context());
    assert_eq!(
        dirs,
        vec![
            "/data/mru".to_string(),
            "/home/user/.marsdata".to_string(),
            "mars-raw-utils-data/caldata".to_string(),
            "/usr/share/mars_raw_utils/data/".to_string(),
        ]
    );
    let all = SearchContext {
        env_data_dir: None,
        home_dir: None,
        exe_file_dir: Some("/opt/a".to_string()),
        build_data_root: Some("/opt/b".to_string()),
        exe_data_dir: Some("/opt/c".to_string()),
    };
    assert_eq!(
        calibration_search_dirs(&all),
        vec![
            "/opt/a".to_string(),
            "/opt/b".to_string(),
            "/opt/c".to_string(),
            "mars-raw-utils-data/caldata".to_string(),
            "/usr/share/mars_raw_utils/data/".to_string(),
        ]
    );
}

#[test]
fn candidates_start_with_the_path_itself() {
    let c = calibration_candidates("x.png", &context());
    assert_eq!(c[0], "x.png");
    assert_eq!(c[1], "/data/mru/x.png");
    assert_eq!(c[2], "/home/user/.marsdata/x.png");
    assert_eq!(c.len(), 5);
}

#[test]
fn locate_prefers_first_existing() {
    let existing = vec![
        "/home/user/.marsdata/x.png".to_string(),
        "mars-raw-utils-data/caldata/x.png".to_string(),
    ];
    assert_eq!(
        locate_calibration_file("x.png", &context(), &existing).unwrap(),
        "/home/user/.marsdata/x.png"
    );
    let here = vec!["x.png".to_string(), "/data/mru/x.png".to_string()];
    assert_eq!(locate_calibration_file("x.png", &context(), &here).unwrap(), "x.png");
}

#[test]
fn locate_missing_file_is_not_found() {
    match locate_calibration_file("y.png", &context(), &vec![]) {
        Err(CalibrationError::FileNotFound(f)) => assert_eq!(f, "y.png"),
        _ => panic!("expected a missing file"),
    }
    let e = CalibrationError::FileNotFound("y.png".to_string());
    assert_eq!(e.message(), "Calibration file not found: y.png");
    assert_eq!(CalibrationError::UnsupportedInstrument.message(), "Unsupported instrument");
}

#[test]
fn locate_tries_extension_second() {
    let existing = vec!["/data/mru/lut.txt".to_string()];
    let r = locate_calibration_file_no_extention(
        &"lut".to_string(),
        &".txt".to_string(),
        &context(),
        &existing,
    );
    assert_eq!(r.unwrap(), "/data/mru/lut.txt");
    let r2 = locate_calibration_file_no_extention(
        &"none".to_string(),
        &".txt".to_string(),
        &context(),
        &existing,
    );
    match r2 {
        Err(CalibrationError::FileNotFound(f)) => assert_eq!(f, "none.txt"),
        _ => panic!("expected a missing file"),
    }
}

#[test]
fn file_for_instrument_resolves_on_disk() {
    let c = sample_config();
    let existing = vec!["/data/mru/MSL_MR_FLAT_V1.png".to_string()];
    let r = get_calibration_file_for_instrument(
        &c,
        Instrument::MslMastcamRight,
        CalFileType::FlatField,
        &context(),
        &existing,
    );
    assert_eq!(r.unwrap(), "/data/mru/MSL_MR_FLAT_V1.png");
    let none = get_calibration_file_for_instrument(
        &c,
        Instrument::MslNavCamLeft,
        CalFileType::FlatField,
        &context(),
        &existing,
    );
    assert!(matches!(none, Err(CalibrationError::UnsupportedInstrument)));
}

#[test]
fn inpaint_mask_resolution() {
    let c = sample_config();
    let existing = vec!["/data/mru/M20_WATSON_INPAINT_MASK_V1.png".to_string()];
    assert_eq!(
        determine_mask_file(&c, Instrument::M20Watson, &context(), &existing).unwrap(),
        "/data/mru/M20_WATSON_INPAINT_MASK_V1.png"
    );
    assert!(inpaint_supported_for_instrument(&c, Instrument::M20Watson, &context(), &existing));
    assert!(!inpaint_supported_for_instrument(&c, Instrument::MslMAHLI, &context(), &existing));
    assert!(!inpaint_supported_for_instrument(&c, Instrument::M20SuperCam, &context(), &existing));
    assert!(mars_raw_utils::inpaint::inpaint_supported_for_instrument(
        &c,
        Instrument::M20Watson,
        &context(),
        &existing
    ));
}

#[test]
fn mahli_mask_subframe() {
    assert_eq!(mask_subframe_for_instrument(Instrument::MslMAHLI), Some((32, 16, 1584, 1184)));
    assert_eq!(mask_subframe_for_instrument(Instrument::M20Watson), None);
}

#[test]
fn local_store_precedence() {
    let given = Some("/mine".to_string());
    let env = Some("/env".to_string());
    let home = Some("/home/u".to_string());
    assert_eq!(calibration_local_store(&given, &env, &home), "/mine");
    assert_eq!(calibration_local_store(&given, &None, &None), "/mine");
    assert_eq!(calibration_local_store(&None, &env, &home), "/env");
    assert_eq!(calibration_local_store(&None, &None, &home), "/home/u/.marsdata");
}

#[test]
fn remote_root_and_url() {
    assert_eq!(calibration_remote_root(&None), CALIBRATION_FILE_REMOTE_ROOT);
    assert_eq!(calibration_remote_root(&Some("http://x/".to_string())), "http://x/");
    assert_eq!(
        calibration_file_remote_url(CALIBRATION_FILE_REMOTE_ROOT, "caldata.manifest"),
        Some(
            "https://raw.githubusercontent.com/kmgill/mars-raw-utils-data/main/caldata/caldata.manifest"
                .to_string()
        )
    );
    assert_eq!(
        calibration_file_remote_url("https://example.com/a/b", "c.png"),
        Some("https://example.com/a/c.png".to_string())
    );
    assert_eq!(calibration_file_remote_url("not a url", "c.png"), None);
}

#[test]
fn manifest_lines() {
    assert_eq!(
        parse_manifest_file_list("a.png\nb.png\r\nc.txt"),
        vec!["a.png".to_string(), "b.png".to_string(), "c.txt".to_string()]
    );
    assert_eq!(parse_manifest_file_list("a\n"), vec!["a".to_string()]);
    assert_eq!(parse_manifest_file_list("a\n\nb"), vec!["a".to_string(), "".to_string(), "b".to_string()]);
    assert!(parse_manifest_file_list("").is_empty());
    assert_eq!(parse_manifest_file_list("\n"), vec!["".to_string()]);
    assert_eq!(parse_manifest_file_list("x\r"), vec!["x\r".to_string()]);
}

#[test]
fn manifest_round_trip_of_joined_names() {
    let names = vec!["one.png".to_string(), "two/three.txt".to_string(), "four".to_string()];
    assert_eq!(parse_manifest_file_list(&names.join("\n")), names);
}

#[test]
fn save_decisions() {
    assert_eq!(save_without_fetching(true, false), Some(SaveResult::NotReplaced));
    assert_eq!(save_without_fetching(true, true), None);
    assert_eq!(save_without_fetching(false, false), None);
    assert_eq!(saved_after_fetch(true), SaveResult::Replaced);
    assert_eq!(saved_after_fetch(false), SaveResult::IsNew);
}

#[test]
fn update_reports_first_failure() {
    let ok: Vec<Result<SaveResult, String>> = vec![Ok(SaveResult::IsNew), Ok(SaveResult::NotReplaced)];
    assert_eq!(update_outcome(&ok), Ok(()));
    let bad: Vec<Result<SaveResult, String>> = vec![
        Ok(SaveResult::IsNew),
        Err("first".to_string()),
        Err("second".to_string()),
    ];
    assert_eq!(update_outcome(&bad), Err("first".to_string()));
}

#[test]
fn calibration_outcomes() {
    assert!(skip_existing_output(true, true));
    assert!(!skip_existing_output(true, false));
    assert!(!skip_existing_output(false, true));
    assert_eq!(completion_status(false, false), CompleteStatus::FAIL);
    assert_eq!(completion_status(false, true), CompleteStatus::FAIL);
    assert_eq!(completion_status(true, true), CompleteStatus::WARN);
    assert_eq!(completion_status(true, false), CompleteStatus::OK);
}

#[test]
fn subframe_windows() {
    assert_eq!(centered_subframe(1648, 1200, 1584, 1184), Some((32, 8, 1584, 1184)));
    assert_eq!(centered_subframe(100, 100, 100, 50), None);
    assert_eq!(trim_window(100, 50, 1, 2, 3, 4), (1, 2, 96, 44));
}
