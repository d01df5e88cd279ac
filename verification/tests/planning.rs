use raw_develop::calibration::{
    camera_matrix, three_rows, white_balance, ColorMatrix, Illuminant, SensorColor,
};
use raw_develop::decode::{
    is_linear_raw_format, orientation_from_exif, Orientation, Photometric, ProcessingStep,
};
use raw_develop::mode::LinearMode;
use raw_develop::plan::{
    clamp_limit, plan_development, undo_gamma, ClampLimit, DemosaicAlgorithm, Request,
};

fn request(fast_demosaic: bool, mode: &str) -> Request {
    Request { fast_demosaic, mode: LinearMode::from_name(mode) }
}

#[test]
fn names_of_modes() {
    let mode = |apply_ungamma, apply_calibration| LinearMode { apply_ungamma, apply_calibration };
    assert_eq!(LinearMode::from_name("gamma"), mode(true, true));
    assert_eq!(LinearMode::from_name("skip_calib"), mode(false, false));
    assert_eq!(LinearMode::from_name("gamma_skip_calib"), mode(true, false));
    for name in ["none", "", "Gamma", "gamma ", "skip_calib_gamma"] {
        assert_eq!(LinearMode::from_name(name), mode(false, true));
    }
}

#[test]
fn orientations() {
    assert_eq!(orientation_from_exif(None), Orientation::Normal);
    let known = [
        Orientation::Normal,
        Orientation::HorizontalFlip,
        Orientation::Rotate180,
        Orientation::VerticalFlip,
        Orientation::Transpose,
        Orientation::Rotate90,
        Orientation::Transverse,
        Orientation::Rotate270,
    ];
    for (i, orientation) in known.iter().enumerate() {
        assert_eq!(orientation_from_exif(Some(i as u16 + 1)), *orientation);
    }
    for tag in [0, 9, 10, u16::MAX] {
        assert_eq!(orientation_from_exif(Some(tag)), Orientation::Unknown);
    }
}

#[test]
fn linear_formats() {
    assert!(is_linear_raw_format(Photometric::LinearRaw));
    assert!(!is_linear_raw_format(Photometric::Cfa));
    assert!(!is_linear_raw_format(Photometric::BlackIsZero));
}

#[test]
fn plans() {
    let finished = vec![
        ProcessingStep::Rescale,
        ProcessingStep::CropActiveArea,
        ProcessingStep::WhiteBalance,
        ProcessingStep::CropDefault,
    ];
    let mosaic = vec![
        ProcessingStep::Rescale,
        ProcessingStep::Demosaic,
        ProcessingStep::CropActiveArea,
        ProcessingStep::WhiteBalance,
        ProcessingStep::CropDefault,
    ];
    for fast in [false, true] {
        for mode in ["", "gamma", "skip_calib", "gamma_skip_calib"] {
            let plan = plan_development(request(fast, mode), Photometric::LinearRaw);
            assert_eq!(plan.steps, finished);
            assert_eq!(plan.demosaic, DemosaicAlgorithm::Quality);
            for photometric in [Photometric::Cfa, Photometric::BlackIsZero] {
                let plan = plan_development(request(fast, mode), photometric);
                assert_eq!(plan.steps, mosaic);
                let speed = plan.demosaic == DemosaicAlgorithm::Speed;
                assert_eq!(speed, fast);
            }
        }
    }
}

#[test]
fn clamp_limits_and_curves() {
    assert_eq!(clamp_limit(request(true, "")), ClampLimit::White);
    assert_eq!(clamp_limit(request(false, "")), ClampLimit::Headroom);
    assert!(undo_gamma(request(false, "gamma"), Photometric::LinearRaw));
    assert!(undo_gamma(request(false, "gamma_skip_calib"), Photometric::LinearRaw));
    assert!(!undo_gamma(request(false, "none"), Photometric::LinearRaw));
    assert!(!undo_gamma(request(false, "gamma"), Photometric::Cfa));
}

fn matrix(illuminant: Illuminant, first: i32, len: i32) -> ColorMatrix<i32> {
    ColorMatrix { illuminant, coefficients: (first..first + len).collect() }
}

#[test]
fn rows_of_a_matrix() {
    let rows = |len: i32| three_rows(&(0..len).collect::<Vec<i32>>());
    assert_eq!(rows(9), Some([[0, 1, 2], [3, 4, 5], [6, 7, 8]]));
    assert_eq!(rows(12), Some([[0, 1, 2], [3, 4, 5], [6, 7, 8]]));
    for len in [0, 1, 3, 6, 8, 10, 11] {
        assert_eq!(rows(len), None);
    }
}

#[test]
fn the_daylight_matrix_is_preferred() {
    let d65 = Some([[50, 51, 52], [53, 54, 55], [56, 57, 58]]);
    let other = Some([[0, 1, 2], [3, 4, 5], [6, 7, 8]]);
    let a = || matrix(Illuminant::Other, 0, 9);
    let b = || matrix(Illuminant::Other, 10, 9);
    let d = || matrix(Illuminant::D65, 50, 9);
    assert_eq!(camera_matrix(&vec![a(), b(), d()]), d65);
    assert_eq!(camera_matrix(&vec![d(), b(), a()]), d65);
    assert_eq!(camera_matrix(&vec![b(), d(), a()]), d65);
    assert_eq!(camera_matrix(&vec![a(), b()]), other);
    assert_eq!(camera_matrix::<i32>(&vec![]), None);
    // A daylight matrix that cannot be used is not replaced by another one.
    assert_eq!(camera_matrix(&vec![a(), matrix(Illuminant::D65, 0, 8)]), None);
    assert_eq!(camera_matrix(&vec![matrix(Illuminant::Other, 0, 6), a()]), None);
}

#[test]
fn white_balance_of_a_file() {
    let color = |wb_undefined| SensorColor {
        wb_coeffs: [2, 1, 3, 9],
        wb_undefined,
        matrices: Vec::new(),
    };
    assert_eq!(white_balance(&color(false), true, 7), [2, 1, 3]);
    assert_eq!(white_balance(&color(true), true, 7), [7, 7, 7]);
    assert_eq!(white_balance(&color(false), false, 7), [7, 7, 7]);
    assert_eq!(white_balance(&color(true), false, 7), [7, 7, 7]);
}
