use std::cell::Cell;
use std::sync::atomic::{AtomicUsize, Ordering};
use std::sync::Arc;

use raw_develop::calibration::{ColorMatrix, Illuminant, SensorColor};
use raw_develop::cancel::{clearance, is_cancelled, is_superseded, read_generation, Clearance};
use raw_develop::decode::{Orientation, Photometric, ProcessingStep};
use raw_develop::error::DevelopError;
use raw_develop::mode::LinearMode;
use raw_develop::pipeline::{
    develop_internal, develop_raw_image, develop_stages, tone_inputs, Operations, Progress, Stage,
    ToneInputs,
};
use raw_develop::plan::{ClampLimit, DemosaicAlgorithm, DevelopPlan, Request};
use raw_develop::planes::{Developed, Planes, RgbaImage};

type Outcome = Result<(RgbaImage<i64>, Orientation), DevelopError<&'static str>>;

fn color() -> SensorColor<i64> {
    SensorColor {
        wb_coeffs: [20, 10, 15, 99],
        wb_undefined: false,
        matrices: vec![
            ColorMatrix { illuminant: Illuminant::Other, coefficients: vec![0; 9] },
            ColorMatrix { illuminant: Illuminant::D65, coefficients: (1..=9).collect() },
        ],
    }
}

fn request(fast_demosaic: bool, mode: &str) -> Request {
    Request { fast_demosaic, mode: LinearMode::from_name(mode) }
}

const STAGES: [Stage; 5] =
    [Stage::Identify, Stage::Decode, Stage::Develop, Stage::Tone, Stage::Assemble];

/// A run over a picture of two pixels that is cancelled before the stage `cancelled_at`.
/// The log says which operations ran. The clearances are numbered from one.
fn run(planes: Planes<i64>, cancelled_at: Option<Stage>, log: &Cell<usize>) -> Outcome {
    let asked = Cell::new(0usize);
    develop_stages(
        b"file",
        request(false, ""),
        1,
        |progress: Progress<'_, &'static str, &'static str, i64>| {
            let stage = match progress {
                Progress::Begun => Stage::Identify,
                Progress::Identified(decoder) => {
                    assert_eq!(*decoder, "decoder");
                    Stage::Decode
                }
                Progress::Read(decoded) => {
                    assert_eq!((decoded.raw, decoded.exif_orientation), ("raw", Some(6)));
                    assert_eq!(decoded.photometric, Photometric::Cfa);
                    Stage::Develop
                }
                Progress::Developed(developed) => {
                    assert_eq!((developed.width, developed.height), (2, 1));
                    Stage::Tone
                }
                Progress::Toned(_) => Stage::Assemble,
            };
            assert_eq!(stage, STAGES[asked.get()]);
            asked.set(asked.get() + 1);
            if Some(stage) == cancelled_at {
                None
            } else {
                Some(asked.get())
            }
        },
        Operations {
            identify: |go: usize, file: &[u8]| {
                assert_eq!(go, 1);
                assert_eq!(file, b"file");
                log.set(log.get() + 1);
                Ok("decoder")
            },
            decode: |go: usize, decoder: &&'static str, file: &[u8]| {
                assert_eq!(go, 2);
                assert_eq!(*decoder, "decoder");
                assert_eq!(file, b"file");
                log.set(log.get() + 10);
                Ok(("image", Photometric::Cfa))
            },
            metadata: |decoder: &&'static str, file: &[u8]| {
                assert_eq!(*decoder, "decoder");
                assert_eq!(file, b"file");
                log.set(log.get() + 100);
                Ok(Some(6))
            },
            color: |image: &'static str, file: &[u8]| {
                assert_eq!(image, "image");
                assert_eq!(file, b"file");
                log.set(log.get() + 1000);
                ("raw", color())
            },
            develop: |go: usize, raw: &'static str, plan: DevelopPlan| {
                assert_eq!(go, 3);
                assert_eq!(raw, "raw");
                assert_eq!(plan.demosaic, DemosaicAlgorithm::Quality);
                log.set(log.get() + 10000);
                Ok(Developed { planes, width: 2, height: 1 })
            },
            tone: |go: usize, inputs: ToneInputs<i64>| {
                assert_eq!(go, 4);
                assert_eq!(inputs.white_balance, [20, 10, 15]);
                assert_eq!(inputs.xyz_to_camera, Some([[1, 2, 3], [4, 5, 6], [7, 8, 9]]));
                assert!(!inputs.ungamma);
                assert_eq!(inputs.clamp, ClampLimit::Headroom);
                log.set(log.get() + 100000);
                100i64
            },
            scalar: |plus: i64, x: i64| x + plus,
            pixel: |plus: i64, [r, g, b]: [i64; 3]| [r + plus, g + 2 * plus, b + 3 * plus],
        },
    )
}

#[test]
fn three_colors_become_an_image() {
    let log = Cell::new(0);
    let (image, orientation) =
        run(Planes::ThreeColor(vec![[1, 2, 3], [4, 5, 6]]), None, &log).unwrap();
    assert_eq!(orientation, Orientation::Rotate90);
    assert_eq!((image.width, image.height), (2, 1));
    assert_eq!(image.samples, vec![101, 202, 303, 1, 104, 205, 306, 1]);
    assert_eq!(log.get(), 111111);
}

#[test]
fn grey_samples_become_a_grey_image() {
    let log = Cell::new(0);
    let (image, _) = run(Planes::Monochrome(vec![7, 8]), None, &log).unwrap();
    assert_eq!(image.samples, vec![107, 107, 107, 1, 108, 108, 108, 1]);
}

#[test]
fn four_colors_are_unsupported() {
    let log = Cell::new(0);
    let planes = Planes::FourColor(vec![[1, 2, 3, 4], [5, 6, 7, 8]]);
    let error = run(planes, None, &log).err().unwrap();
    assert!(matches!(error, DevelopError::UnsupportedFormat));
    assert_eq!(error.message(), Some("Unsupported intermediate format for conversion"));
    assert_eq!(log.get(), 111111);
}

#[test]
fn four_colors_without_extent_are_unsupported() {
    for (width, height) in [(0, 0), (0, 5), (5, 0)] {
        let outcome = outcome_of_planes(Planes::FourColor(vec![]), width, height);
        assert!(matches!(outcome, Err(DevelopError::UnsupportedFormat)));
    }
    assert!(outcome_of_planes(Planes::ThreeColor(vec![]), 0, 5).is_ok());
}

/// What becomes of a developed picture where nothing fails.
fn outcome_of_planes(planes: Planes<i64>, width: usize, height: usize) -> Outcome {
    failing_at(99, planes, width, height)
}

/// A run in which the operation of the given number fails.
fn failing_at(fail: usize, planes: Planes<i64>, width: usize, height: usize) -> Outcome {
    develop_internal(
        &[],
        request(true, ""),
        &None,
        1,
        Operations {
            identify: |_: Clearance, _: &[u8]| if fail == 0 { Err("identify") } else { Ok(()) },
            decode: |_: Clearance, _: &(), _: &[u8]| {
                if fail == 1 {
                    Err("decode")
                } else {
                    Ok(("image", Photometric::Cfa))
                }
            },
            metadata: |_: &(), _: &[u8]| if fail <= 2 { Err("metadata") } else { Ok(None) },
            color: |image: &'static str, _: &[u8]| (image, color()),
            develop: |_: Clearance, _: &'static str, _: DevelopPlan| {
                if fail == 3 {
                    Err("develop")
                } else {
                    Ok(Developed { planes, width, height })
                }
            },
            tone: |_: Clearance, _: ToneInputs<i64>| (),
            scalar: |_: (), x: i64| x,
            pixel: |_: (), x: [i64; 3]| x,
        },
    )
}

#[test]
fn each_stage_can_be_cancelled() {
    for (at, done) in [
        (Stage::Identify, 0),
        (Stage::Decode, 1),
        (Stage::Develop, 1111),
        (Stage::Tone, 11111),
        (Stage::Assemble, 111111),
    ] {
        let log = Cell::new(0);
        let error = run(Planes::Monochrome(vec![7, 8]), Some(at), &log).err().unwrap();
        assert!(matches!(error, DevelopError::Cancelled));
        assert_eq!(error.message(), Some("Load cancelled"));
        assert_eq!(log.get(), done);
    }
    // The last question comes before the layout is looked at.
    let four = Planes::FourColor(vec![[0; 4]; 2]);
    let log = Cell::new(0);
    assert!(matches!(run(four, Some(Stage::Assemble), &log), Err(DevelopError::Cancelled)));
}

#[test]
fn errors_of_the_stages_come_through() {
    // A file that cannot be decoded is not asked for its metadata.
    for (fail, text) in [(0, "identify"), (1, "decode"), (2, "metadata"), (3, "develop")] {
        match failing_at(fail, Planes::Monochrome(vec![1]), 1, 1) {
            Err(DevelopError::Decoder(error)) => assert_eq!(error, text),
            _ => panic!("not the decoder's error"),
        }
    }
    let (image, orientation) = failing_at(4, Planes::Monochrome(vec![1]), 1, 1).unwrap();
    assert_eq!(image.samples, vec![1, 1, 1, 1]);
    assert_eq!(orientation, Orientation::Normal);
    assert!(DevelopError::Decoder("decode").message().is_none());
}

#[test]
fn plans_reach_the_developer() {
    let linear = develop_stages(
        &[],
        request(true, "gamma_skip_calib"),
        1i64,
        |_: Progress<'_, (), &'static str, i64>| Some(()),
        Operations {
            identify: |_: (), _: &[u8]| Ok::<(), ()>(()),
            decode: |_: (), _: &(), _: &[u8]| Ok(("image", Photometric::LinearRaw)),
            metadata: |_: &(), _: &[u8]| Ok(Some(3)),
            color: |image: &'static str, _: &[u8]| (image, color()),
            develop: |_: (), _: &'static str, plan: DevelopPlan| {
                assert_eq!(plan.demosaic, DemosaicAlgorithm::Quality);
                assert!(!plan.steps.contains(&ProcessingStep::Demosaic));
                Ok(Developed { planes: Planes::Monochrome(vec![5; 6]), width: 3, height: 2 })
            },
            tone: |_: (), inputs: ToneInputs<i64>| {
                assert_eq!(inputs.white_balance, [1, 1, 1]);
                assert_eq!(inputs.xyz_to_camera, None);
                assert!(inputs.ungamma);
                assert_eq!(inputs.clamp, ClampLimit::White);
            },
            scalar: |_: (), x: i64| x,
            pixel: |_: (), x: [i64; 3]| x,
        },
    );
    let (image, orientation) = linear.ok().unwrap();
    assert_eq!((image.width, image.height, image.samples.len()), (3, 2, 24));
    assert_eq!(orientation, Orientation::Rotate180);
}

#[test]
fn tone_inputs_without_calibration() {
    let inputs = tone_inputs(request(false, "skip_calib"), Photometric::Cfa, &color(), 1);
    assert_eq!(inputs.white_balance, [1, 1, 1]);
    assert_eq!(inputs.xyz_to_camera, None);
    assert!(!inputs.ungamma);
    // A mosaic has no curve to undo.
    let inputs = tone_inputs(request(false, "gamma"), Photometric::Cfa, &color(), 1);
    assert!(!inputs.ungamma);
    assert_eq!(inputs.white_balance, [20, 10, 15]);
    assert!(inputs.xyz_to_camera.is_some());
}

#[test]
fn generations() {
    assert!(!is_superseded(4, 4));
    assert!(is_superseded(5, 4));
    let tracker = Arc::new(AtomicUsize::new(4));
    let token = Some((tracker.clone(), 4));
    for at_hand in ["a decoder", "a picture"] {
        assert!(!is_cancelled(&None, at_hand));
        assert!(clearance(&None, at_hand).is_some());
        tracker.store(4, Ordering::SeqCst);
        assert_eq!(read_generation(&tracker, at_hand), 4);
        assert!(!is_cancelled(&token, at_hand));
        assert!(clearance(&token, at_hand).is_some());
        tracker.store(5, Ordering::SeqCst);
        assert_eq!(read_generation(&tracker, at_hand), 5);
        assert!(is_cancelled(&token, at_hand));
        assert!(clearance(&token, at_hand).is_none());
    }
}

/// A DNG file of 16-bit linear RGB pixels, little-endian, in one strip.
fn linear_dng(width: u32, height: u32, samples: &[u16], orientation: u16) -> Vec<u8> {
    let mut strip: Vec<u8> = Vec::new();
    for sample in samples {
        strip.extend_from_slice(&sample.to_le_bytes());
    }
    let entries: u16 = 11;
    let bits_at: u32 = 8 + 2 + 12 * entries as u32 + 4;
    let strip_at: u32 = bits_at + 6;
    let mut file: Vec<u8> = Vec::new();
    file.extend_from_slice(b"II");
    file.extend_from_slice(&42u16.to_le_bytes());
    file.extend_from_slice(&8u32.to_le_bytes());
    file.extend_from_slice(&entries.to_le_bytes());
    let mut entry = |tag: u16, kind: u16, count: u32, value: [u8; 4]| {
        file.extend_from_slice(&tag.to_le_bytes());
        file.extend_from_slice(&kind.to_le_bytes());
        file.extend_from_slice(&count.to_le_bytes());
        file.extend_from_slice(&value);
    };
    let short = |v: u16| [v.to_le_bytes()[0], v.to_le_bytes()[1], 0, 0];
    entry(256, 4, 1, width.to_le_bytes());
    entry(257, 4, 1, height.to_le_bytes());
    entry(258, 3, 3, bits_at.to_le_bytes());
    entry(259, 3, 1, short(1));
    entry(262, 3, 1, short(34892));
    entry(273, 4, 1, strip_at.to_le_bytes());
    entry(274, 3, 1, short(orientation));
    entry(277, 3, 1, short(3));
    entry(278, 4, 1, height.to_le_bytes());
    entry(279, 4, 1, (strip.len() as u32).to_le_bytes());
    entry(50706, 1, 4, [1, 4, 0, 0]);
    file.extend_from_slice(&0u32.to_le_bytes());
    for _ in 0..3 {
        file.extend_from_slice(&16u16.to_le_bytes());
    }
    file.extend_from_slice(&strip);
    file
}

/// A file and the decoder that rawler has for it.
struct OpenFile {
    source: rawler::rawsource::RawSource,
    decoder: Box<dyn rawler::decoders::Decoder>,
}

fn open(file: &[u8]) -> Result<OpenFile, rawler::RawlerError> {
    let source = rawler::rawsource::RawSource::new_from_slice(file);
    let decoder = rawler::get_decoder(&source)?;
    Ok(OpenFile { source, decoder })
}

fn decode(file: &OpenFile) -> Result<(rawler::RawImage, Photometric), rawler::RawlerError> {
    let params = rawler::decoders::RawDecodeParams::default();
    let image = file.decoder.raw_image(&file.source, &params, false)?;
    let photometric = match image.photometric {
        rawler::rawimage::RawPhotometricInterpretation::BlackIsZero => Photometric::BlackIsZero,
        rawler::rawimage::RawPhotometricInterpretation::Cfa(_) => Photometric::Cfa,
        rawler::rawimage::RawPhotometricInterpretation::LinearRaw => Photometric::LinearRaw,
    };
    Ok((image, photometric))
}

fn metadata(file: &OpenFile, _: &[u8]) -> Result<Option<u16>, rawler::RawlerError> {
    let params = rawler::decoders::RawDecodeParams::default();
    Ok(file.decoder.raw_metadata(&file.source, &params)?.exif.orientation)
}

/// Develops a file with the real decoder and leaves the samples as they come out of it.
fn develop_file(
    file: &[u8],
    mode: &str,
    token: &Option<(Arc<AtomicUsize>, usize)>,
) -> Result<(RgbaImage<f32>, Orientation), DevelopError<rawler::RawlerError>> {
    develop_internal(
        file,
        request(false, mode),
        token,
        1.0f32,
        Operations {
            identify: |_: Clearance, file: &[u8]| open(file),
            decode: |_: Clearance, file: &OpenFile, _: &[u8]| decode(file),
            metadata,
            color: |image: rawler::RawImage, _: &[u8]| {
                let color = SensorColor {
                    wb_coeffs: image.wb_coeffs,
                    wb_undefined: image.wb_coeffs[0].is_nan(),
                    matrices: vec![],
                };
                (image, color)
            },
            develop: |_: Clearance, image: rawler::RawImage, plan: DevelopPlan| {
                assert_eq!(plan.steps.len(), 4);
                let mut developer = rawler::imgop::develop::RawDevelop::default();
                developer.steps = vec![rawler::imgop::develop::ProcessingStep::Rescale];
                let (planes, width, height) = match developer.develop_intermediate(&image)? {
                    rawler::imgop::develop::Intermediate::ThreeColor(pixels) => {
                        (Planes::ThreeColor(pixels.data), pixels.width, pixels.height)
                    }
                    _ => panic!("not three colours"),
                };
                Ok(Developed { planes, width, height })
            },
            tone: |_: Clearance, inputs: ToneInputs<f32>| {
                // The file says nothing of white balance.
                assert_eq!(inputs.white_balance, [1.0, 1.0, 1.0]);
                assert_eq!(inputs.xyz_to_camera, None);
                inputs.ungamma
            },
            scalar: |_: bool, x: f32| x,
            pixel: |ungamma: bool, p: [f32; 3]| if ungamma { [0.5; 3] } else { p },
        },
    )
}

#[test]
fn a_linear_file_is_developed() {
    let file = linear_dng(2, 2, &[65535, 0, 0, 0, 65535, 0, 0, 0, 65535, 0, 0, 0], 6);
    let (image, orientation) = develop_file(&file, "", &None).ok().unwrap();
    assert_eq!(orientation, Orientation::Rotate90);
    assert_eq!((image.width, image.height), (2, 2));
    assert_eq!(
        image.samples,
        vec![
            1.0, 0.0, 0.0, 1.0, 0.0, 1.0, 0.0, 1.0, 0.0, 0.0, 1.0, 1.0, 0.0, 0.0, 0.0, 1.0
        ]
    );
    let (image, _) = develop_file(&file, "gamma", &None).ok().unwrap();
    assert_eq!(image.samples[..4], [0.5, 0.5, 0.5, 1.0]);
}

#[test]
fn junk_is_the_decoders_error() {
    assert!(matches!(develop_file(b"junk", "", &None), Err(DevelopError::Decoder(_))));
}

#[test]
fn a_superseded_load_stops() {
    let file = linear_dng(1, 1, &[1, 2, 3], 1);
    let tracker = Arc::new(AtomicUsize::new(7));
    assert!(develop_file(&file, "", &Some((tracker.clone(), 7))).is_ok());
    tracker.store(8, Ordering::SeqCst);
    let late = develop_file(&file, "", &Some((tracker, 7)));
    assert!(matches!(late, Err(DevelopError::Cancelled)));
    let late = develop_file(b"junk", "", &Some((Arc::new(AtomicUsize::new(1)), 0)));
    assert!(matches!(late, Err(DevelopError::Cancelled)));
}

/// What becomes of a file whose pixels are swapped and which is named after its turn.
fn develop_and_turn(
    file: &[u8],
    fast: bool,
    mode: &str,
    token: Option<(Arc<AtomicUsize>, usize)>,
) -> Result<(String, Vec<f32>), DevelopError<rawler::RawlerError>> {
    develop_raw_image(
        file,
        fast,
        mode.to_string(),
        token,
        1.0f32,
        Operations {
            identify: |_: Clearance, file: &[u8]| open(file),
            decode: |_: Clearance, file: &OpenFile, _: &[u8]| decode(file),
            metadata,
            color: |image: rawler::RawImage, _: &[u8]| {
                let color = SensorColor {
                    wb_coeffs: [2.0, 3.0, 4.0, 5.0],
                    wb_undefined: false,
                    matrices: vec![],
                };
                (image, color)
            },
            develop: |_: Clearance, image: rawler::RawImage, _: DevelopPlan| {
                let (width, height) = (image.width, image.height);
                let planes = Planes::Monochrome(vec![0.25; width * height]);
                Ok(Developed { planes, width, height })
            },
            tone: |_: Clearance, inputs: ToneInputs<f32>| {
                let limit = if inputs.clamp == ClampLimit::White { 0.0 } else { 8.0 };
                limit + inputs.white_balance[1]
            },
            scalar: |tone: f32, x: f32| tone + x,
            pixel: |_: f32, p: [f32; 3]| p,
        },
        |image: RgbaImage<f32>, orientation: Orientation| {
            (format!("{}x{} {:?}", image.width, image.height, orientation), image.samples)
        },
    )
}

#[test]
fn a_picture_is_turned() {
    let file = linear_dng(2, 1, &[0; 6], 8);
    let (name, samples) = develop_and_turn(&file, false, "none", None).ok().unwrap();
    assert_eq!(name, "2x1 Rotate270");
    assert_eq!(samples, vec![11.25, 11.25, 11.25, 1.0, 11.25, 11.25, 11.25, 1.0]);
    let (_, samples) = develop_and_turn(&file, true, "none", None).ok().unwrap();
    assert_eq!(samples[..4], [3.25, 3.25, 3.25, 1.0]);
    let (_, samples) = develop_and_turn(&file, true, "skip_calib", None).ok().unwrap();
    assert_eq!(samples[..4], [1.25, 1.25, 1.25, 1.0]);
    assert!(matches!(
        develop_and_turn(b"junk", true, "none", None),
        Err(DevelopError::Decoder(_))
    ));
    let token = Some((Arc::new(AtomicUsize::new(2)), 1));
    assert!(matches!(
        develop_and_turn(&file, true, "none", token),
        Err(DevelopError::Cancelled)
    ));
}

#[test]
fn a_load_superseded_on_its_way_gives_no_image() {
    for at in 0..6 {
        let tracker = Arc::new(AtomicUsize::new(3));
        let step = Cell::new(0);
        let move_on = || {
            if step.get() == at {
                tracker.store(4, Ordering::SeqCst);
            }
            step.set(step.get() + 1);
        };
        let outcome = develop_raw_image(
            &[],
            false,
            String::new(),
            Some((tracker.clone(), 3)),
            1i64,
            Operations {
                identify: |_: Clearance, _: &[u8]| {
                    move_on();
                    Ok::<(), ()>(())
                },
                decode: |_: Clearance, _: &(), _: &[u8]| {
                    move_on();
                    Ok(((), Photometric::Cfa))
                },
                metadata: |_: &(), _: &[u8]| {
                    move_on();
                    Ok(None)
                },
                color: |_: (), _: &[u8]| ((), color()),
                develop: |_: Clearance, _: (), _: DevelopPlan| {
                    move_on();
                    Ok(Developed { planes: Planes::Monochrome(vec![5]), width: 1, height: 1 })
                },
                tone: |_: Clearance, _: ToneInputs<i64>| {
                    move_on();
                },
                scalar: |_: (), x: i64| x,
                pixel: |_: (), x: [i64; 3]| x,
            },
            |image: RgbaImage<i64>, _: Orientation| {
                move_on();
                image.samples
            },
        );
        if at < 5 {
            assert!(matches!(outcome, Err(DevelopError::Cancelled)));
        } else {
            // Only turning was left.
            assert_eq!(outcome.ok(), Some(vec![5, 5, 5, 1]));
        }
    }
}

#[test]
fn an_operation_that_fails_comes_before_the_next_question() {
    for fail in 0..3 {
        let tracker = Arc::new(AtomicUsize::new(3));
        let supersede = |number: usize| {
            if number == fail {
                tracker.store(4, Ordering::SeqCst);
            }
            number == fail
        };
        let outcome = develop_internal(
            &[],
            request(false, ""),
            &Some((tracker.clone(), 3)),
            1i64,
            Operations {
                identify: |_: Clearance, _: &[u8]| if supersede(0) { Err(0) } else { Ok(()) },
                decode: |_: Clearance, _: &(), _: &[u8]| {
                    if supersede(1) {
                        Err(1)
                    } else {
                        Ok(((), Photometric::Cfa))
                    }
                },
                metadata: |_: &(), _: &[u8]| Ok(None),
                color: |_: (), _: &[u8]| ((), color()),
                develop: |_: Clearance, _: (), _: DevelopPlan| {
                    if supersede(2) {
                        Err(2)
                    } else {
                        Ok(Developed { planes: Planes::Monochrome(vec![]), width: 0, height: 0 })
                    }
                },
                tone: |_: Clearance, _: ToneInputs<i64>| (),
                scalar: |_: (), x: i64| x,
                pixel: |_: (), x: [i64; 3]| x,
            },
        );
        match outcome {
            Err(DevelopError::Decoder(number)) => assert_eq!(number, fail),
            _ => panic!("not the error of the operation"),
        }
    }
}
