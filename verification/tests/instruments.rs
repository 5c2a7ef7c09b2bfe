use mars_raw_utils::diffgif::{frame_height, ProductType};
use mars_raw_utils::enums::Instrument;
use mars_raw_utils::imagebuffer::Offset;
use mars_raw_utils::httpfetch::{SimpleHttpResponse, SimpleHttpResponseString};
use mars_raw_utils::m20;
use mars_raw_utils::msl;
use mars_raw_utils::util::{
    concat_str, contains_string, int_to_decimal, join_strings, pad_right_str, replace_str,
    str_contains, str_eq, zero_padded_decimal,
};

#[test]
fn instrument_names_any_case() {
    assert_eq!(Instrument::from_name("MCZ_LEFT"), Instrument::M20MastcamZLeft);
    assert_eq!(Instrument::from_name("mcz_right"), Instrument::M20MastcamZRight);
    assert_eq!(Instrument::from_name("Navcam_Left"), Instrument::M20NavcamLeft);
    assert_eq!(Instrument::from_name("fhaz_left_b"), Instrument::MslFrontHazLeft);
    assert_eq!(Instrument::from_name("nav_right_a"), Instrument::MslNavCamRight);
    assert_eq!(Instrument::from_name("chemcam_rmi"), Instrument::MslChemCam);
    assert_eq!(Instrument::from_name("idc"), Instrument::NsytIDC);
    assert_eq!(Instrument::from_name("EDL_DDCAM"), Instrument::NoInstrument);
    assert_eq!(Instrument::from_name(""), Instrument::NoInstrument);
    assert_eq!(Instrument::from_str("supercam_rmi").unwrap(), Instrument::M20SuperCam);
    assert_eq!(Instrument::from_upper_name("mahli"), Instrument::NoInstrument);
    assert_eq!(Instrument::from_upper_name("MAHLI"), Instrument::MslMAHLI);
}

#[test]
fn every_msl_remote_name_is_recognised() {
    let m = msl::remote::make_instrument_map();
    for (_, names) in &m.map {
        for n in names {
            assert_ne!(Instrument::from_name(n), Instrument::NoInstrument);
        }
    }
}

#[test]
fn product_types() {
    assert_eq!(ProductType::_from_str("std"), Some(ProductType::STANDARD));
    assert_eq!(ProductType::_from_str("diff"), Some(ProductType::DIFFERENTIAL));
    assert_eq!(ProductType::_from_str("stacked"), Some(ProductType::STACKED));
    assert_eq!(ProductType::_from_str("Std"), None);
    assert_eq!(ProductType::from_str("diff"), Ok(ProductType::DIFFERENTIAL));
    assert_eq!(ProductType::from_str("x"), Err("Invalid product type"));
    assert_eq!(frame_height(ProductType::STACKED, 1024), 2048);
    assert_eq!(frame_height(ProductType::STANDARD, 1024), 1024);
}

#[test]
fn calibrators_accept_their_instruments() {
    assert!(m20::zcam::M20MastcamZ {}.accepts_instrument(Instrument::M20MastcamZRight));
    assert!(!m20::zcam::M20MastcamZ {}.accepts_instrument(Instrument::M20Watson));
    assert!(m20::watson::M20Watson {}.accepts_instrument(Instrument::M20Watson));
    assert!(m20::ecam::M20EECam {}.accepts_instrument(Instrument::M20RearHazLeft));
    assert!(!m20::ecam::M20EECam {}.accepts_instrument(Instrument::MslNavCamLeft));
    assert!(m20::scam::M20SuperCam {}.accepts_instrument(Instrument::M20SuperCam));
    assert!(m20::skycam::M20SkyCam {}.accepts_instrument(Instrument::M20SkyCam));
    assert!(m20::helinav::M20HeliNav {}.accepts_instrument(Instrument::M20HeliNav));
    assert!(m20::cachecam::M20CacheCam {}.accepts_instrument(Instrument::M20CacheCam));
    assert!(m20::pixlmcc::M20Pixl {}.accepts_instrument(Instrument::M20Pixl));
    assert!(m20::sherlocaci::M20SherlocAci {}.accepts_instrument(Instrument::M20SherlocAci));
    assert!(msl::mcam::MslMastcam {}.accepts_instrument(Instrument::MslMastcamLeft));
    assert!(msl::mahli::MslMahli {}.accepts_instrument(Instrument::MslMAHLI));
    assert!(msl::ecam::MslEcam {}.accepts_instrument(Instrument::MslFrontHazRight));
    assert!(msl::ccam::MslChemCam {}.accepts_instrument(Instrument::MslChemCam));
    assert!(msl::mardi::MslMardi {}.accepts_instrument(Instrument::MslMARDI));
    assert!(!msl::mardi::MslMardi {}.accepts_instrument(Instrument::MslMAHLI));
}

#[test]
fn cameras_from_file_names() {
    assert_eq!(m20::zcam::instrument_from_file_name("ZR0_0001_0667022"), Instrument::M20MastcamZRight);
    assert_eq!(m20::zcam::instrument_from_file_name("ZL0_0001_0667022"), Instrument::M20MastcamZLeft);
    assert_eq!(m20::ecam::instrument_from_file_name("NLF_0001"), Instrument::M20NavcamLeft);
    assert_eq!(m20::ecam::instrument_from_file_name("RRB_0001"), Instrument::M20RearHazRight);
    assert_eq!(m20::ecam::instrument_from_file_name("XX_0001"), Instrument::M20NavcamRight);
    assert_eq!(msl::ecam::instrument_from_file_name("FLB_0001"), Instrument::MslFrontHazLeft);
    assert_eq!(msl::ecam::instrument_from_file_name("NRB_0001"), Instrument::MslNavCamRight);
    assert_eq!(msl::mcam::instrument_from_file_name("3000MR0123"), Instrument::MslMastcamRight);
    assert_eq!(msl::mcam::instrument_from_file_name("3000ML0123"), Instrument::MslMastcamLeft);
}

#[test]
fn mastcam_z_flat_names() {
    assert_eq!(
        m20::zcam::flat_file_for_motor_stop("M20_MCZ_LEFT_FLAT_-motorcount-_V2.png", 2448),
        "M20_MCZ_LEFT_FLAT_2448_V2.png"
    );
    assert_eq!(m20::zcam::flat_file_for_motor_stop("F-motorcount-", 0), "F0000");
    assert_eq!(m20::zcam::flat_file_for_motor_stop("plain.png", 0), "plain.png");
    assert_eq!(m20::zcam::MOTOR_COUNT_STOPS, [0, 2448, 3834, 5196, 6720, 8652, 9600]);
    assert_eq!(m20::zcam::auto_subframe_window(1648, 1200), (29, 9, 1590, 1182));
}

#[test]
fn instrument_windows() {
    assert_eq!(m20::watson::calibration_subframe(1584, 1184), Some((32, 16, 1584, 1184)));
    assert_eq!(m20::watson::calibration_subframe(1600, 1200), None);
    assert_eq!(m20::watson::final_crop(1648), Some((24, 4, 1600, 1192)));
    assert_eq!(m20::watson::final_crop(1600), None);
    assert_eq!(m20::sherlocaci::auto_subframe(1648, 1200, true), Some((23, 2, 1607, 1198)));
    assert_eq!(m20::sherlocaci::auto_subframe(1600, 1200, true), Some((23, 2, 1577, 1198)));
    assert_eq!(m20::sherlocaci::auto_subframe(1648, 1200, false), None);
    assert_eq!(m20::skycam::border_window(100, 50), (18, 1, 66, 48));
    assert_eq!(m20::scam::border_window(2048, 2048), (1, 1, 2046, 2046));
    assert_eq!(msl::ecam::border_window(1024, 1024), (1, 1, 1022, 1022));
    assert!(msl::ecam::inpaint_applies(true, 1024));
    assert!(!msl::ecam::inpaint_applies(true, 512));
    assert!(!msl::ecam::inpaint_applies(false, 1024));
    assert_eq!(msl::mcam::raw_crop(1536, 1200), Some((161, 0, 1328, 1200)));
    assert_eq!(msl::mcam::raw_crop(1344, 1200), None);
    assert_eq!(
        msl::mcam::calibration_subframe(Instrument::MslMastcamLeft, 1152, 432),
        Some((305, 385, 1152, 432))
    );
    assert_eq!(
        msl::mcam::calibration_subframe(Instrument::MslMastcamRight, 848, 848),
        Some((400, 192, 848, 848))
    );
    assert_eq!(msl::mcam::calibration_subframe(Instrument::MslMastcamRight, 1152, 432), None);
    assert_eq!(msl::mcam::final_crop(1344, 1200), (3, 3, 1338, 1194));
    assert_eq!(msl::mahli::raw_crop(1648, 1200), Some((48, 16, 1584, 1184)));
    assert_eq!(msl::mahli::raw_crop(1632, 1200), Some((32, 16, 1584, 1184)));
    assert_eq!(msl::mahli::flat_crop(1648, 1200), None);
    assert_eq!(msl::mahli::MAHLI_FINAL_CROP, (2, 3, 1580, 1180));
    assert_eq!(msl::mardi::MARDI_CROP, (24, 6, 1599, 1188));
    assert!(msl::ccam::needs_flatfield("CR0_123EDR_F"));
    assert!(!msl::ccam::needs_flatfield("CR0_123PRC_F"));
}

#[test]
fn string_helpers() {
    assert!(str_eq("abc", "abc"));
    assert!(!str_eq("abc", "abd"));
    assert_eq!(concat_str("ab", "cd"), "abcd");
    assert!(contains_string(&vec!["a".to_string(), "b".to_string()], "b"));
    assert!(!contains_string(&vec![], "b"));
    assert_eq!(int_to_decimal(0), "0");
    assert_eq!(int_to_decimal(-42), "-42");
    assert_eq!(int_to_decimal(i64::MIN), "-9223372036854775808");
    assert_eq!(join_strings(&vec!["a".to_string(), "b".to_string(), "c".to_string()], ", "), "a, b, c");
    assert_eq!(join_strings(&vec![], ","), "");
    assert!(str_contains("hello", "ell"));
    assert!(str_contains("hello", ""));
    assert!(!str_contains("he", "hello"));
    assert_eq!(pad_right_str("ab", 4), "ab  ");
    assert_eq!(pad_right_str("abcdef", 4), "abcdef");
    assert_eq!(replace_str("a-b-c", "-", "+"), "a+b+c");
    assert_eq!(replace_str("aaa", "aa", "b"), "ba");
    assert_eq!(zero_padded_decimal(42, 4), "0042");
    assert_eq!(zero_padded_decimal(123456, 4), "123456");
}

#[test]
fn plain_records() {
    let r = SimpleHttpResponse { bytes: vec![1, 2, 3], status: 200 };
    assert_eq!(r.bytes.len(), 3);
    assert_eq!(r.status, 200);
    let s = SimpleHttpResponseString { text: "ok".to_string(), status: 404 };
    assert_eq!(s.text, "ok");
    let o = Offset { h: -3, v: 4 };
    assert_eq!(o, Offset { h: -3, v: 4 });
}
