use mars_raw_utils::calibrate::{CalStep, ProfileSwitches, Trim, Window};
use mars_raw_utils::calprofile::{is_calibration_profile, marker_found};
use mars_raw_utils::enums::Instrument;
use mars_raw_utils::m20;
use mars_raw_utils::m20::assemble::tile_coordinates;
use mars_raw_utils::m20::ncamtile::{border_overlap_windows, BorderPair};
use mars_raw_utils::marsimage::flatfield;
use mars_raw_utils::msl;

fn w(x: usize, y: usize, width: usize, height: usize) -> Window {
    Window { x, y, width, height }
}

fn switches() -> ProfileSwitches {
    ProfileSwitches {
        apply_ilt: false,
        color_noise_reduction: false,
        color_noise_reduction_amount: 0,
        hot_pixel_correction: false,
        decorrelate_color: false,
        srgb_color_correction: false,
        auto_subframing: true,
    }
}

#[test]
fn mahli_full_frame_steps() {
    let mut p = switches();
    p.apply_ilt = true;
    p.srgb_color_correction = true;
    let steps = msl::mahli::calibration_steps(1648, 1200, 1632, 1200, &p);
    assert_eq!(
        steps,
        vec![
            CalStep::CropImage(w(48, 16, 1584, 1184)),
            CalStep::Inpaint,
            CalStep::Decompand,
            CalStep::CropFlat(w(32, 16, 1584, 1184)),
            CalStep::InpaintFlat,
            CalStep::Flatfield,
            CalStep::CropImage(w(2, 3, 1580, 1180)),
            CalStep::ApplyWeight,
            CalStep::ConvertToSrgb,
            CalStep::Normalize,
        ]
    );
}

#[test]
fn mahli_subframe_cuts_flat_around_centre() {
    let mut p = switches();
    p.hot_pixel_correction = true;
    p.decorrelate_color = true;
    let steps = msl::mahli::calibration_steps(800, 600, 1632, 1200, &p);
    assert_eq!(
        steps,
        vec![
            CalStep::Inpaint,
            CalStep::CropFlat(w(32, 16, 1584, 1184)),
            CalStep::InpaintFlat,
            CalStep::CropFlat(w(392, 292, 800, 600)),
            CalStep::Flatfield,
            CalStep::HotPixelCorrection,
            CalStep::CropImage(w(2, 3, 1580, 1180)),
            CalStep::ApplyWeight,
            CalStep::NormalizeDecorrelated,
        ]
    );
}

#[test]
fn mastcam_steps_by_camera() {
    let mut p = switches();
    p.color_noise_reduction = true;
    p.color_noise_reduction_amount = 3;
    let steps = msl::mcam::calibration_steps(Instrument::MslMastcamRight, 1536, 1184, true, true, 1648, 1200, &p);
    assert_eq!(
        steps,
        vec![
            CalStep::Debayer,
            CalStep::CropImage(w(161, 0, 1328, 1184)),
            CalStep::CropFlat(w(160, 16, 1328, 1184)),
            CalStep::SubframeMask(w(160, 16, 1328, 1184)),
            CalStep::CompandFlat,
            CalStep::InpaintFlat,
            CalStep::Flatfield,
            CalStep::Inpaint,
            CalStep::ApplyWeight,
            CalStep::ReduceColorNoise,
            CalStep::Normalize,
            CalStep::CropImage(w(3, 3, 1322, 1178)),
        ]
    );
    let mut q = switches();
    q.apply_ilt = true;
    let other = msl::mcam::calibration_steps(Instrument::MslMastcamLeft, 800, 600, false, false, 1648, 1200, &q);
    assert_eq!(
        other,
        vec![
            CalStep::Decompand,
            CalStep::CropFlat(w(424, 300, 800, 600)),
            CalStep::SubframeMask(w(424, 300, 800, 600)),
            CalStep::InpaintFlat,
            CalStep::Flatfield,
            CalStep::Inpaint,
            CalStep::ApplyWeight,
            CalStep::Normalize,
            CalStep::CropImage(w(3, 3, 794, 594)),
        ]
    );
}

#[test]
fn watson_steps() {
    let p = switches();
    let steps = m20::watson::calibration_steps("SI1_0001_ECM_01.png", true, 1584, 1184, &p);
    assert_eq!(
        steps,
        vec![
            CalStep::Debayer,
            CalStep::CropFlat(w(32, 16, 1584, 1184)),
            CalStep::Flatfield,
            CalStep::SubframeMask(w(32, 16, 1584, 1184)),
            CalStep::Inpaint,
            CalStep::ApplyWeight,
            CalStep::Normalize,
        ]
    );
    let full = m20::watson::calibration_steps("SI1_0001_EBY_01.png", true, 1648, 1200, &p);
    assert_eq!(
        full,
        vec![
            CalStep::Flatfield,
            CalStep::Inpaint,
            CalStep::ApplyWeight,
            CalStep::CropImage(w(24, 4, 1600, 1192)),
            CalStep::Normalize,
        ]
    );
}

#[test]
fn mastcam_z_steps() {
    let mut p = switches();
    p.srgb_color_correction = true;
    let steps = m20::zcam::calibration_steps("ZL0_0001_ECM.png", false, Some((1, 1, 1648, 1200)), 1648, 1200, &p);
    assert_eq!(
        steps,
        vec![
            CalStep::CropFlat(w(0, 0, 1648, 1200)),
            CalStep::Flatfield,
            CalStep::SubframeMask(w(0, 0, 1648, 1200)),
            CalStep::Inpaint,
            CalStep::ApplyWeight,
            CalStep::TrimSubframeRect(Trim { left: 29, top: 9, right: 29, bottom: 9 }),
            CalStep::CropImage(w(29, 9, 1590, 1182)),
            CalStep::ConvertToSrgb,
            CalStep::Normalize,
        ]
    );
    let no_rect = m20::zcam::calibration_steps("ZL0_0001.png", false, None, 100, 100, &p);
    assert_eq!(no_rect[3], CalStep::CropImage(w(29, 9, 42, 82)));
    p.auto_subframing = false;
    let plain = m20::zcam::calibration_steps("ZL0_0001_ECM.png", true, None, 10, 10, &p);
    assert_eq!(
        plain,
        vec![
            CalStep::Debayer,
            CalStep::Flatfield,
            CalStep::Inpaint,
            CalStep::ApplyWeight,
            CalStep::ConvertToSrgb,
            CalStep::Normalize,
        ]
    );
}

#[test]
fn supercam_steps() {
    let mut p = switches();
    p.apply_ilt = true;
    let steps = m20::scam::calibration_steps("LRF_0001.png", true, 2048, 2048, 2048, 2048, 2048, 2048, &p);
    assert_eq!(
        steps,
        vec![
            CalStep::Destretch,
            CalStep::ApplyAlphaMask(w(1, 1, 2046, 2046)),
            CalStep::Decompand,
            CalStep::CropImage(w(1, 1, 2046, 2046)),
            CalStep::CropFlat(w(1, 1, 2046, 2046)),
            CalStep::Flatfield,
            CalStep::ApplyWeight,
            CalStep::Normalize,
        ]
    );
}

#[test]
fn engineering_camera_steps() {
    let mut p = switches();
    p.hot_pixel_correction = true;
    let msl_steps = msl::ecam::calibration_steps(true, Some((1, 1, 1024, 1024)), 1024, 1024, &p);
    assert_eq!(
        msl_steps,
        vec![
            CalStep::Inpaint,
            CalStep::HotPixelCorrection,
            CalStep::CropFlat(w(0, 0, 1024, 1024)),
            CalStep::Flatfield,
            CalStep::ApplyWeight,
            CalStep::Normalize,
            CalStep::CropImage(w(1, 1, 1022, 1022)),
        ]
    );
    let small = msl::ecam::calibration_steps(true, None, 512, 512, &switches());
    assert_eq!(small[0], CalStep::Flatfield);
    let m20_steps = m20::ecam::calibration_steps(true, false, Some((5120, 3840)), Some((1, 1, 1280, 960)), 1280, 960, &switches());
    assert_eq!(
        m20_steps,
        vec![
            CalStep::Debayer,
            CalStep::CropFlat(w(0, 0, 1280, 960)),
            CalStep::Flatfield,
            CalStep::ApplyWeight,
            CalStep::Normalize,
        ]
    );
    let no_flat = m20::ecam::calibration_steps(false, true, None, None, 1280, 960, &switches());
    assert_eq!(no_flat, vec![CalStep::Normalize]);
}

#[test]
fn flatfield_cut_to_image() {
    assert_eq!(
        flatfield(Some((1648, 1200)), None, 1600, 1200),
        vec![CalStep::CropFlat(w(24, 0, 1600, 1200)), CalStep::Flatfield]
    );
    assert_eq!(
        flatfield(Some((5120, 3840)), Some((2561, 1, 2560, 1920)), 1280, 960),
        vec![
            CalStep::CropFlat(w(2560, 0, 2560, 1920)),
            CalStep::CropFlat(w(640, 480, 1280, 960)),
            CalStep::Flatfield
        ]
    );
    assert!(flatfield(None, None, 10, 10).is_empty());
}

#[test]
fn small_instrument_steps() {
    let p = switches();
    assert_eq!(
        msl::mardi::calibration_steps(None, None, 1648, 1200, &p),
        vec![CalStep::ApplyWeight, CalStep::CropImage(w(24, 6, 1599, 1188)), CalStep::Normalize]
    );
    assert_eq!(
        msl::ccam::calibration_steps("CR0_EDR.png", 1024, 1024, Some((1024, 1024)), None, 1024, 1024),
        vec![CalStep::ApplyAlphaMask(w(0, 0, 1024, 1024)), CalStep::Flatfield, CalStep::Normalize]
    );
    assert_eq!(
        msl::ccam::calibration_steps("CR0_PRC.png", 1024, 1024, Some((1024, 1024)), None, 1024, 1024),
        vec![CalStep::ApplyAlphaMask(w(0, 0, 1024, 1024)), CalStep::Normalize]
    );
    assert_eq!(
        m20::sherlocaci::calibration_steps(None, None, 1648, 1200, true),
        vec![CalStep::Normalize, CalStep::CropImage(w(23, 2, 1607, 1198))]
    );
    let mut q = switches();
    q.apply_ilt = true;
    assert_eq!(
        m20::cachecam::calibration_steps(&q),
        vec![CalStep::Decompand, CalStep::ApplyWeight, CalStep::Normalize]
    );
    assert_eq!(
        m20::pixlmcc::calibration_steps(Some((100, 100)), None, 100, 100),
        vec![CalStep::Flatfield, CalStep::Normalize]
    );
    assert_eq!(m20::helinav::calibration_steps(None, None, 100, 100), vec![CalStep::Normalize]);
    assert_eq!(
        m20::skycam::calibration_steps(100, 50, &p),
        vec![CalStep::Flatfield, CalStep::Normalize, CalStep::CropImage(w(18, 1, 66, 48))]
    );
}

#[test]
fn tile_geometry() {
    let t = tile_coordinates(2561, 1921, 2, 1280, 960);
    assert_eq!(t.top_left_x, 1282);
    assert_eq!(t.top_left_y, 962);
    assert_eq!(t.bottom_right_x, 2562);
    assert_eq!(t.bottom_right_y, 1922);
    assert_eq!(t.scale, 2);
    assert_eq!(
        border_overlap_windows(BorderPair::RightLeft, (1288, 968), (1288, 968)),
        ((1272, 0, 16, 968), (0, 0, 16, 968))
    );
    assert_eq!(
        border_overlap_windows(BorderPair::BottomTop, (1288, 968), (1000, 968)),
        ((0, 952, 1288, 16), (0, 0, 1000, 16))
    );
}

#[test]
fn profile_marker() {
    assert!(is_calibration_profile("calfiletype = \"profile\"\napply_ilt = true\n"));
    assert!(is_calibration_profile("x\ncalfiletype \t=  \"profile\""));
    assert!(!is_calibration_profile("calfiletype=\"profile\""));
    assert!(!is_calibration_profile("calfiletype = \"manifest\""));
    assert!(marker_found(Some(true)));
    assert!(!marker_found(Some(false)));
    assert!(!marker_found(None));
}
