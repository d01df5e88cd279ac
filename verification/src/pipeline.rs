//! From the bytes of a raw file to an image.
//!
//! The stages and their order stand here. What a stage computes in floating point, or
//! asks of the decoder, comes in as a function.
use std::sync::atomic::AtomicUsize;
use std::sync::Arc;

use crate::calibration::{
    camera_matrix, is_camera_matrix, lemma_camera_matrix_is, white_balance, white_balance_of,
    Illuminant, SensorColor,
};
use crate::cancel::{clearance, holds_throughout, may_answer, may_hold, Clearance};
use crate::decode::{
    orientation_from_exif, orientation_of_exif, Orientation, Photometric, ProcessingStep,
};
use crate::error::DevelopError;
use crate::mode::{mode_of_name, LinearMode};
use crate::plan::{
    clamp_limit, clamp_of, is_plan, plan_development, undo_gamma, ungamma_of, ClampLimit,
    lemma_plan_holds, DemosaicAlgorithm, DevelopPlan, Request,
};
use crate::planes::{
    adjust, assemble, is_adjusted, is_complete, is_image_of, Developed, Planes, RgbaImage,
};
use vstd::prelude::*;

verus! {

/// A decoded raw file. `R` is the decoder's image, `T` the type of a coefficient.
pub struct Decoded<R, T> {
    pub raw: R,
    pub photometric: Photometric,
    /// The EXIF orientation tag, where the file has one.
    pub exif_orientation: Option<u16>,
    pub color: SensorColor<T>,
}

/// What the tone stage needs to know beside the samples.
pub struct ToneInputs<T> {
    /// Factors for red, green and blue.
    pub white_balance: [T; 3],
    /// The matrix from XYZ to camera channels, where one is to be applied.
    pub xyz_to_camera: Option<[[T; 3]; 3]>,
    /// The sRGB curve is to be undone first.
    pub ungamma: bool,
    pub clamp: ClampLimit,
}

/// The inputs of the tone stage for a decoded file.
pub open spec fn is_tone_inputs<T>(
    inputs: ToneInputs<T>,
    request: Request,
    photometric: Photometric,
    color: SensorColor<T>,
    one: T,
) -> bool {
    &&& inputs.white_balance@ == white_balance_of(color, request.mode.apply_calibration, one)
    &&& if request.mode.apply_calibration {
        is_camera_matrix(inputs.xyz_to_camera, color.matrices@)
    } else {
        inputs.xyz_to_camera is None
    }
    &&& inputs.ungamma == ungamma_of(request, photometric)
    &&& inputs.clamp == clamp_of(request.fast_demosaic)
}

/// The inputs of the tone stage for a decoded file.
pub fn tone_inputs<T: Copy>(
    request: Request,
    photometric: Photometric,
    color: &SensorColor<T>,
    one: T,
) -> (r: ToneInputs<T>)
    ensures
        is_tone_inputs(r, request, photometric, *color, one),
{
    ToneInputs {
        white_balance: white_balance(color, request.mode.apply_calibration, one),
        xyz_to_camera: if request.mode.apply_calibration {
            camera_matrix(&color.matrices)
        } else {
            None
        },
        ungamma: undo_gamma(request, photometric),
        clamp: clamp_limit(request),
    }
}

/// Without calibration the tone stage gets factors of one and no matrix.
pub proof fn lemma_uncalibrated<T>(
    inputs: ToneInputs<T>,
    request: Request,
    photometric: Photometric,
    color: SensorColor<T>,
    one: T,
)
    requires
        is_tone_inputs(inputs, request, photometric, color, one),
        !request.mode.apply_calibration,
    ensures
        inputs.white_balance@ == seq![one, one, one],
        inputs.xyz_to_camera is None,
{
}

/// The sRGB curve is undone for files of finished pixels only.
pub proof fn lemma_ungamma_only_linear<T>(
    inputs: ToneInputs<T>,
    request: Request,
    photometric: Photometric,
    color: SensorColor<T>,
    one: T,
)
    requires
        is_tone_inputs(inputs, request, photometric, color, one),
    ensures
        inputs.ungamma ==> photometric == Photometric::LinearRaw,
{
}

/// With calibration, the tone stage gets the file's first matrix for D65, or the first of all
/// where there is none for D65, if it is usable.
pub proof fn lemma_tone_matrix<T>(
    inputs: ToneInputs<T>,
    request: Request,
    photometric: Photometric,
    color: SensorColor<T>,
    one: T,
)
    requires
        is_tone_inputs(inputs, request, photometric, color, one),
    ensures
        request.mode.apply_calibration ==> forall|k: int|
            0 <= k < color.matrices@.len() && (#[trigger] color.matrices@[k]).illuminant
                == Illuminant::D65 && (forall|j: int|
                0 <= j < k ==> (#[trigger] color.matrices@[j]).illuminant != Illuminant::D65) ==> (
            inputs.xyz_to_camera is Some <==> color.matrices@[k].coefficients@.len() >= 9
                && color.matrices@[k].coefficients@.len() % 3 == 0) && (inputs.xyz_to_camera is Some
                ==> forall|a: int, b: int|
                0 <= a < 3 && 0 <= b < 3 ==> #[trigger] (inputs.xyz_to_camera->0)@[a]@[b]
                    == color.matrices@[k].coefficients@[3 * a + b]),
        request.mode.apply_calibration && color.matrices@.len() > 0 && (forall|j: int|
            0 <= j < color.matrices@.len() ==> (#[trigger] color.matrices@[j]).illuminant
                != Illuminant::D65) ==> (inputs.xyz_to_camera is Some
            <==> color.matrices@[0].coefficients@.len() >= 9
            && color.matrices@[0].coefficients@.len() % 3 == 0) && (inputs.xyz_to_camera is Some
            ==> forall|a: int, b: int|
            0 <= a < 3 && 0 <= b < 3 ==> #[trigger] (inputs.xyz_to_camera->0)@[a]@[b]
                == color.matrices@[0].coefficients@[3 * a + b]),
{
    if request.mode.apply_calibration {
        lemma_camera_matrix_is(inputs.xyz_to_camera, color.matrices@);
    }
}

/// What the tone stage is told beside the matrix. With calibration, and where the file says
/// something of it, the white balance is that of the file, whatever else was asked for and
/// whatever the file holds. Without calibration there is neither white balance nor matrix. The
/// curve is undone for finished pixels on request, and only a fast load has no room above
/// white.
pub proof fn lemma_tone_inputs_hold<T: Copy>(
    inputs: ToneInputs<T>,
    request: Request,
    photometric: Photometric,
    color: SensorColor<T>,
    one: T,
)
    requires
        is_tone_inputs(inputs, request, photometric, color, one) || call_ensures(
            tone_inputs::<T>,
            (request, photometric, &color, one),
            inputs,
        ),
    ensures
        request.mode.apply_calibration && !color.wb_undefined ==> forall|c: int|
            0 <= c < 3 ==> #[trigger] inputs.white_balance@[c] == color.wb_coeffs@[c],
        !request.mode.apply_calibration || color.wb_undefined ==> forall|c: int|
            0 <= c < 3 ==> #[trigger] inputs.white_balance@[c] == one,
        !request.mode.apply_calibration || color.matrices@.len() == 0
            ==> inputs.xyz_to_camera is None,
        (inputs.ungamma <==> photometric == Photometric::LinearRaw && request.mode.apply_ungamma),
        (inputs.clamp == ClampLimit::White <==> request.fast_demosaic),
{
}

/// The stages of a load.
#[derive(Clone, Copy, Debug, PartialEq, Eq, Structural)]
pub enum Stage {
    /// Find the file's decoder.
    Identify,
    /// Read the file with it.
    Decode,
    /// Carry out the developer's plan.
    Develop,
    /// Rework the samples.
    Tone,
    /// Put the image together.
    Assemble,
}

impl Stage {
    /// The place of the stage among the five.
    pub open spec fn rank(self) -> int {
        match self {
            Stage::Identify => 0,
            Stage::Decode => 1,
            Stage::Develop => 2,
            Stage::Tone => 3,
            Stage::Assemble => 4,
        }
    }
}

/// How far a load has come: what the last stage gave.
pub enum Progress<'a, D, R, T> {
    /// Nothing is done yet.
    Begun,
    /// The decoder is found.
    Identified(&'a D),
    /// The file is read.
    Read(&'a Decoded<R, T>),
    /// The picture is developed.
    Developed(&'a Developed<T>),
    /// The samples are reworked.
    Toned(&'a Planes<T>),
}

impl<'a, D, R, T> Progress<'a, D, R, T> {
    /// The stage that comes next.
    pub open spec fn next(self) -> Stage {
        match self {
            Progress::Begun => Stage::Identify,
            Progress::Identified(_) => Stage::Decode,
            Progress::Read(_) => Stage::Develop,
            Progress::Developed(_) => Stage::Tone,
            Progress::Toned(_) => Stage::Assemble,
        }
    }
}

/// What a load does beside deciding: its calls into the decoder, and its floating-point
/// work. Everything that reads the file is handed the file. The first operation of a stage is
/// handed the clearance that was asked for right before it.
pub struct Operations<I, A, M, K, V, N, F, G> {
    /// Finds the decoder of the file.
    pub identify: I,
    /// Decodes the file: the decoder's image and its photometric interpretation.
    pub decode: A,
    /// Asks the decoder for the EXIF orientation tag of the file.
    pub metadata: M,
    /// Reads what the decoded image says of colour.
    pub color: K,
    /// Carries out the developer's plan.
    pub develop: V,
    /// Prepares what `scalar` and `pixel` need.
    pub tone: N,
    /// Reworks a sample that stands alone.
    pub scalar: F,
    /// Reworks a pixel of red, green and blue.
    pub pixel: G,
}

/// Cleared by `go`, reading the file with `decoder` may give `result`. The metadata are asked
/// for once the image is decoded.
pub open spec fn may_read<L, D, R, T, E, I, A, M, K, V, N, F, G>(
    file_bytes: &[u8],
    operations: Operations<I, A, M, K, V, N, F, G>,
    go: L,
    decoder: D,
    result: Result<Decoded<R, T>, E>,
) -> bool where
    A: FnOnce(L, &D, &[u8]) -> Result<(R, Photometric), E>,
    M: FnOnce(&D, &[u8]) -> Result<Option<u16>, E>,
    K: FnOnce(R, &[u8]) -> (R, SensorColor<T>),
 {
    let Operations { decode, metadata, color, .. } = operations;
    match result {
        Ok(decoded) => exists|image: R|
            {
                &&& #[trigger] call_ensures(
                    decode,
                    (go, &decoder, file_bytes),
                    Ok((image, decoded.photometric)),
                )
                &&& call_ensures(metadata, (&decoder, file_bytes), Ok(decoded.exif_orientation))
                &&& call_ensures(color, (image, file_bytes), (decoded.raw, decoded.color))
            },
        Err(error) => {
            ||| call_ensures(decode, (go, &decoder, file_bytes), Err(error))
            ||| exists|image: R, photometric: Photometric|
                {
                    &&& #[trigger] call_ensures(
                        decode,
                        (go, &decoder, file_bytes),
                        Ok((image, photometric)),
                    )
                    &&& call_ensures(metadata, (&decoder, file_bytes), Err(error))
                }
        },
    }
}

/// Cleared by `go`, developing `decoded` as the plan for it says may give `result`.
pub open spec fn may_develop<L, R, T, E, I, A, M, K, V, N, F, G>(
    request: Request,
    operations: Operations<I, A, M, K, V, N, F, G>,
    go: L,
    decoded: Decoded<R, T>,
    result: Result<Developed<T>, E>,
) -> bool where V: FnOnce(L, R, DevelopPlan) -> Result<Developed<T>, E> {
    exists|plan: DevelopPlan| #[trigger]
        is_plan(plan, request, decoded.photometric) && call_ensures(
            operations.develop,
            (go, decoded.raw, plan),
            result,
        )
}

/// Cleared by `go`, the tone stage may turn the developed picture into `planes`.
pub open spec fn may_tone<L, R, T, P, I, A, M, K, V, N, F, G>(
    request: Request,
    one: T,
    operations: Operations<I, A, M, K, V, N, F, G>,
    go: L,
    decoded: Decoded<R, T>,
    developed: Developed<T>,
    planes: Planes<T>,
) -> bool where
    N: FnOnce(L, ToneInputs<T>) -> P,
    F: Fn(P, T) -> T,
    G: Fn(P, [T; 3]) -> [T; 3],
 {
    exists|inputs: ToneInputs<T>, parameters: P| #[trigger]
        call_ensures(operations.tone, (go, inputs), parameters) && is_tone_inputs(
            inputs,
            request,
            decoded.photometric,
            decoded.color,
            one,
        ) && is_adjusted(
            developed.planes,
            planes,
            parameters,
            operations.scalar,
            operations.pixel,
        )
}

/// The image of `planes` at the size of the developed picture, in 32 bits per dimension.
/// A picture of four channels has none.
pub open spec fn is_finished<T>(
    image: RgbaImage<T>,
    developed: Developed<T>,
    planes: Planes<T>,
    one: T,
) -> bool {
    &&& !(developed.planes is FourColor)
    &&& image.width == developed.width as u32
    &&& image.height == developed.height as u32
    &&& is_image_of(image, planes, one)
}

/// A developed picture that an image can be made of, unless it has four channels.
pub open spec fn is_presentable<T>(developed: Developed<T>) -> bool {
    developed.planes is FourColor || is_complete(
        developed.planes,
        developed.width as u32,
        developed.height as u32,
    )
}

/// The load may come to find `decoder`. `answers` says how the question whether the load is
/// still wanted may be answered, asked with what it has come to at hand: by a clearance, or
/// by none.
pub open spec fn comes_to_identify<'a, L, D, R, T, E, I, A, M, K, V, N, F, G>(
    file_bytes: &[u8],
    answers: spec_fn(Progress<'a, D, R, T>, Option<L>) -> bool,
    operations: Operations<I, A, M, K, V, N, F, G>,
    decoder: D,
) -> bool where I: FnOnce(L, &[u8]) -> Result<D, E> {
    exists|go: L| #[trigger]
        answers(Progress::Begun, Some(go)) && call_ensures(
            operations.identify,
            (go, file_bytes),
            Ok::<D, E>(decoder),
        )
}

/// The load may come to read `decoded`: it was still wanted with the decoder at hand.
pub open spec fn comes_to_read<'a, L, D, R, T, E, I, A, M, K, V, N, F, G>(
    file_bytes: &[u8],
    answers: spec_fn(Progress<'a, D, R, T>, Option<L>) -> bool,
    operations: Operations<I, A, M, K, V, N, F, G>,
    decoded: Decoded<R, T>,
) -> bool where
    I: FnOnce(L, &[u8]) -> Result<D, E>,
    A: FnOnce(L, &D, &[u8]) -> Result<(R, Photometric), E>,
    M: FnOnce(&D, &[u8]) -> Result<Option<u16>, E>,
    K: FnOnce(R, &[u8]) -> (R, SensorColor<T>),
 {
    exists|decoder: D, go: L|
        {
            &&& comes_to_identify(file_bytes, answers, operations, decoder)
            &&& #[trigger] answers(Progress::Identified(&decoder), Some(go))
            &&& may_read(file_bytes, operations, go, decoder, Ok::<Decoded<R, T>, E>(decoded))
        }
}

/// The load may come to develop what it has read, `decoded`, into `developed`: it was still
/// wanted with `decoded` at hand.
pub open spec fn comes_to_develop<'a, L, D, R, T, E, I, A, M, K, V, N, F, G>(
    file_bytes: &[u8],
    request: Request,
    answers: spec_fn(Progress<'a, D, R, T>, Option<L>) -> bool,
    operations: Operations<I, A, M, K, V, N, F, G>,
    decoded: Decoded<R, T>,
    developed: Developed<T>,
) -> bool where
    I: FnOnce(L, &[u8]) -> Result<D, E>,
    A: FnOnce(L, &D, &[u8]) -> Result<(R, Photometric), E>,
    M: FnOnce(&D, &[u8]) -> Result<Option<u16>, E>,
    K: FnOnce(R, &[u8]) -> (R, SensorColor<T>),
    V: FnOnce(L, R, DevelopPlan) -> Result<Developed<T>, E>,
 {
    &&& comes_to_read(file_bytes, answers, operations, decoded)
    &&& exists|go: L| #[trigger]
        answers(Progress::Read(&decoded), Some(go)) && may_develop(
            request,
            operations,
            go,
            decoded,
            Ok::<Developed<T>, E>(developed),
        )
}

/// The load may come to rework what it has developed, `developed`, into `planes`: it was
/// still wanted with `developed` at hand.
pub open spec fn comes_to_tone<'a, L, D, R, T, P, E, I, A, M, K, V, N, F, G>(
    file_bytes: &[u8],
    request: Request,
    one: T,
    answers: spec_fn(Progress<'a, D, R, T>, Option<L>) -> bool,
    operations: Operations<I, A, M, K, V, N, F, G>,
    decoded: Decoded<R, T>,
    developed: Developed<T>,
    planes: Planes<T>,
) -> bool where
    I: FnOnce(L, &[u8]) -> Result<D, E>,
    A: FnOnce(L, &D, &[u8]) -> Result<(R, Photometric), E>,
    M: FnOnce(&D, &[u8]) -> Result<Option<u16>, E>,
    K: FnOnce(R, &[u8]) -> (R, SensorColor<T>),
    V: FnOnce(L, R, DevelopPlan) -> Result<Developed<T>, E>,
    N: FnOnce(L, ToneInputs<T>) -> P,
    F: Fn(P, T) -> T,
    G: Fn(P, [T; 3]) -> [T; 3],
 {
    &&& comes_to_develop(file_bytes, request, answers, operations, decoded, developed)
    &&& exists|go: L| #[trigger]
        answers(Progress::Developed(&developed), Some(go)) && may_tone(
            request,
            one,
            operations,
            go,
            decoded,
            developed,
            planes,
        )
}

/// The load may get past `stage`.
pub open spec fn passes<'a, L, D, R, T, P, E, I, A, M, K, V, N, F, G>(
    file_bytes: &[u8],
    request: Request,
    one: T,
    answers: spec_fn(Progress<'a, D, R, T>, Option<L>) -> bool,
    operations: Operations<I, A, M, K, V, N, F, G>,
    stage: Stage,
) -> bool where
    I: FnOnce(L, &[u8]) -> Result<D, E>,
    A: FnOnce(L, &D, &[u8]) -> Result<(R, Photometric), E>,
    M: FnOnce(&D, &[u8]) -> Result<Option<u16>, E>,
    K: FnOnce(R, &[u8]) -> (R, SensorColor<T>),
    V: FnOnce(L, R, DevelopPlan) -> Result<Developed<T>, E>,
    N: FnOnce(L, ToneInputs<T>) -> P,
    F: Fn(P, T) -> T,
    G: Fn(P, [T; 3]) -> [T; 3],
 {
    match stage {
        Stage::Identify => exists|decoder: D| #[trigger]
            comes_to_identify(file_bytes, answers, operations, decoder),
        Stage::Decode => exists|decoded: Decoded<R, T>| #[trigger]
            comes_to_read(file_bytes, answers, operations, decoded),
        Stage::Develop => exists|decoded: Decoded<R, T>, developed: Developed<T>| #[trigger]
            comes_to_develop(file_bytes, request, answers, operations, decoded, developed),
        Stage::Tone => exists|
            decoded: Decoded<R, T>,
            developed: Developed<T>,
            planes: Planes<T>,
        | #[trigger]
            comes_to_tone(
                file_bytes,
                request,
                one,
                answers,
                operations,
                decoded,
                developed,
                planes,
            ),
        Stage::Assemble => exists|
            decoded: Decoded<R, T>,
            developed: Developed<T>,
            planes: Planes<T>,
            go: L,
        |
            {
                &&& #[trigger] comes_to_tone(
                    file_bytes,
                    request,
                    one,
                    answers,
                    operations,
                    decoded,
                    developed,
                    planes,
                )
                &&& #[trigger] answers(Progress::Toned(&planes), Some(go))
                &&& !(developed.planes is FourColor)
            },
    }
}

/// The load may be found cancelled right before `stage`, with what the stage before it gave
/// at hand.
pub open spec fn is_stopped<'a, L, D, R, T, P, E, I, A, M, K, V, N, F, G>(
    file_bytes: &[u8],
    request: Request,
    one: T,
    answers: spec_fn(Progress<'a, D, R, T>, Option<L>) -> bool,
    operations: Operations<I, A, M, K, V, N, F, G>,
    stage: Stage,
) -> bool where
    I: FnOnce(L, &[u8]) -> Result<D, E>,
    A: FnOnce(L, &D, &[u8]) -> Result<(R, Photometric), E>,
    M: FnOnce(&D, &[u8]) -> Result<Option<u16>, E>,
    K: FnOnce(R, &[u8]) -> (R, SensorColor<T>),
    V: FnOnce(L, R, DevelopPlan) -> Result<Developed<T>, E>,
    N: FnOnce(L, ToneInputs<T>) -> P,
    F: Fn(P, T) -> T,
    G: Fn(P, [T; 3]) -> [T; 3],
 {
    match stage {
        Stage::Identify => answers(Progress::Begun, None),
        Stage::Decode => exists|decoder: D| #[trigger]
            comes_to_identify(file_bytes, answers, operations, decoder) && answers(
                Progress::Identified(&decoder),
                None,
            ),
        Stage::Develop => exists|decoded: Decoded<R, T>| #[trigger]
            comes_to_read(file_bytes, answers, operations, decoded) && answers(
                Progress::Read(&decoded),
                None,
            ),
        Stage::Tone => exists|decoded: Decoded<R, T>, developed: Developed<T>| #[trigger]
            comes_to_develop(file_bytes, request, answers, operations, decoded, developed)
                && answers(Progress::Developed(&developed), None),
        Stage::Assemble => exists|
            decoded: Decoded<R, T>,
            developed: Developed<T>,
            planes: Planes<T>,
        | #[trigger]
            comes_to_tone(
                file_bytes,
                request,
                one,
                answers,
                operations,
                decoded,
                developed,
                planes,
            ) && answers(Progress::Toned(&planes), None),
    }
}

/// An operation of `stage` may fail with `error`, the load having been still wanted right
/// before the stage.
pub open spec fn is_failed<'a, L, D, R, T, E, I, A, M, K, V, N, F, G>(
    file_bytes: &[u8],
    request: Request,
    answers: spec_fn(Progress<'a, D, R, T>, Option<L>) -> bool,
    operations: Operations<I, A, M, K, V, N, F, G>,
    stage: Stage,
    error: E,
) -> bool where
    I: FnOnce(L, &[u8]) -> Result<D, E>,
    A: FnOnce(L, &D, &[u8]) -> Result<(R, Photometric), E>,
    M: FnOnce(&D, &[u8]) -> Result<Option<u16>, E>,
    K: FnOnce(R, &[u8]) -> (R, SensorColor<T>),
    V: FnOnce(L, R, DevelopPlan) -> Result<Developed<T>, E>,
 {
    match stage {
        Stage::Identify => exists|go: L| #[trigger]
            answers(Progress::Begun, Some(go)) && call_ensures(
                operations.identify,
                (go, file_bytes),
                Err::<D, E>(error),
            ),
        Stage::Decode => exists|decoder: D, go: L|
            {
                &&& comes_to_identify(file_bytes, answers, operations, decoder)
                &&& #[trigger] answers(Progress::Identified(&decoder), Some(go))
                &&& may_read(file_bytes, operations, go, decoder, Err::<Decoded<R, T>, E>(error))
            },
        Stage::Develop => exists|decoded: Decoded<R, T>, go: L|
            {
                &&& comes_to_read(file_bytes, answers, operations, decoded)
                &&& #[trigger] answers(Progress::Read(&decoded), Some(go))
                &&& may_develop(request, operations, go, decoded, Err::<Developed<T>, E>(error))
            },
        Stage::Tone | Stage::Assemble => false,
    }
}

/// An operation of `last` or an earlier stage may fail with `error`.
pub open spec fn fails_by<'a, L, D, R, T, E, I, A, M, K, V, N, F, G>(
    file_bytes: &[u8],
    request: Request,
    answers: spec_fn(Progress<'a, D, R, T>, Option<L>) -> bool,
    operations: Operations<I, A, M, K, V, N, F, G>,
    last: Stage,
    error: E,
) -> bool where
    I: FnOnce(L, &[u8]) -> Result<D, E>,
    A: FnOnce(L, &D, &[u8]) -> Result<(R, Photometric), E>,
    M: FnOnce(&D, &[u8]) -> Result<Option<u16>, E>,
    K: FnOnce(R, &[u8]) -> (R, SensorColor<T>),
    V: FnOnce(L, R, DevelopPlan) -> Result<Developed<T>, E>,
 {
    exists|at: Stage|
        at.rank() <= last.rank() && #[trigger] is_failed(
            file_bytes,
            request,
            answers,
            operations,
            at,
            error,
        )
}

/// `outcome` is a possible outcome of developing the file: the image and how it is to be
/// turned, or the error, with all that led to it.
pub open spec fn is_outcome<'a, L, D, R, T, P, E, I, A, M, K, V, N, F, G>(
    file_bytes: &[u8],
    request: Request,
    one: T,
    answers: spec_fn(Progress<'a, D, R, T>, Option<L>) -> bool,
    operations: Operations<I, A, M, K, V, N, F, G>,
    outcome: Result<(RgbaImage<T>, Orientation), DevelopError<E>>,
) -> bool where
    I: FnOnce(L, &[u8]) -> Result<D, E>,
    A: FnOnce(L, &D, &[u8]) -> Result<(R, Photometric), E>,
    M: FnOnce(&D, &[u8]) -> Result<Option<u16>, E>,
    K: FnOnce(R, &[u8]) -> (R, SensorColor<T>),
    V: FnOnce(L, R, DevelopPlan) -> Result<Developed<T>, E>,
    N: FnOnce(L, ToneInputs<T>) -> P,
    F: Fn(P, T) -> T,
    G: Fn(P, [T; 3]) -> [T; 3],
 {
    match outcome {
        Ok((image, orientation)) => exists|
            decoded: Decoded<R, T>,
            developed: Developed<T>,
            planes: Planes<T>,
            go: L,
        |
            {
                &&& #[trigger] comes_to_tone(
                    file_bytes,
                    request,
                    one,
                    answers,
                    operations,
                    decoded,
                    developed,
                    planes,
                )
                &&& #[trigger] answers(Progress::Toned(&planes), Some(go))
                &&& is_finished(image, developed, planes, one)
                &&& orientation == orientation_of_exif(decoded.exif_orientation)
            },
        Err(DevelopError::Cancelled) => exists|stage: Stage| #[trigger]
            is_stopped(file_bytes, request, one, answers, operations, stage),
        Err(DevelopError::Decoder(error)) => fails_by(
            file_bytes,
            request,
            answers,
            operations,
            Stage::Develop,
            error,
        ),
        Err(DevelopError::UnsupportedFormat) => exists|
            decoded: Decoded<R, T>,
            developed: Developed<T>,
            planes: Planes<T>,
            go: L,
        |
            {
                &&& #[trigger] comes_to_tone(
                    file_bytes,
                    request,
                    one,
                    answers,
                    operations,
                    decoded,
                    developed,
                    planes,
                )
                &&& #[trigger] answers(Progress::Toned(&planes), Some(go))
                &&& developed.planes is FourColor
            },
    }
}

/// Right before `stage` the load is given no clearance, whatever the stage before it gave.
pub open spec fn is_surely_cancelled<'a, L, D, R, T>(
    answers: spec_fn(Progress<'a, D, R, T>, Option<L>) -> bool,
    stage: Stage,
) -> bool {
    forall|progress: Progress<'a, D, R, T>, go: L|
        progress.next() == stage ==> !#[trigger] answers(progress, Some(go))
}

/// Right before every stage up to `last` the load is given a clearance, whatever the stage
/// before it gave.
pub open spec fn is_surely_wanted<'a, L, D, R, T>(
    answers: spec_fn(Progress<'a, D, R, T>, Option<L>) -> bool,
    last: Stage,
) -> bool {
    forall|progress: Progress<'a, D, R, T>|
        progress.next().rank() <= last.rank() ==> !#[trigger] answers(progress, None)
}

/// A load may end with `error` without having begun `stage`: it was stopped at that stage or
/// an earlier one, or an operation of an earlier stage failed.
pub open spec fn ends_before<'a, L, D, R, T, P, E, I, A, M, K, V, N, F, G>(
    file_bytes: &[u8],
    request: Request,
    one: T,
    answers: spec_fn(Progress<'a, D, R, T>, Option<L>) -> bool,
    operations: Operations<I, A, M, K, V, N, F, G>,
    stage: Stage,
    error: DevelopError<E>,
) -> bool where
    I: FnOnce(L, &[u8]) -> Result<D, E>,
    A: FnOnce(L, &D, &[u8]) -> Result<(R, Photometric), E>,
    M: FnOnce(&D, &[u8]) -> Result<Option<u16>, E>,
    K: FnOnce(R, &[u8]) -> (R, SensorColor<T>),
    V: FnOnce(L, R, DevelopPlan) -> Result<Developed<T>, E>,
    N: FnOnce(L, ToneInputs<T>) -> P,
    F: Fn(P, T) -> T,
    G: Fn(P, [T; 3]) -> [T; 3],
 {
    match error {
        DevelopError::Cancelled => exists|at: Stage|
            at.rank() <= stage.rank() && #[trigger] is_stopped(
                file_bytes,
                request,
                one,
                answers,
                operations,
                at,
            ),
        DevelopError::Decoder(_) => exists|at: Stage|
            at.rank() < stage.rank() && #[trigger] is_failed(
                file_bytes,
                request,
                answers,
                operations,
                at,
                error->Decoder_0,
            ),
        DevelopError::UnsupportedFormat => false,
    }
}

/// A load that is surely cancelled right before a stage never begins that stage. It ends as
/// cancelled, unless an operation of an earlier stage failed first: then it ends with that
/// error.
pub proof fn lemma_surely_cancelled<'a, L, D, R, T, P, E, I, A, M, K, V, N, F, G>(
    file_bytes: &[u8],
    request: Request,
    one: T,
    answers: spec_fn(Progress<'a, D, R, T>, Option<L>) -> bool,
    stage: Stage,
    operations: Operations<I, A, M, K, V, N, F, G>,
    outcome: Result<(RgbaImage<T>, Orientation), DevelopError<E>>,
) where
    I: FnOnce(L, &[u8]) -> Result<D, E>,
    A: FnOnce(L, &D, &[u8]) -> Result<(R, Photometric), E>,
    M: FnOnce(&D, &[u8]) -> Result<Option<u16>, E>,
    K: FnOnce(R, &[u8]) -> (R, SensorColor<T>),
    V: FnOnce(L, R, DevelopPlan) -> Result<Developed<T>, E>,
    N: FnOnce(L, ToneInputs<T>) -> P,
    F: Fn(P, T) -> T,
    G: Fn(P, [T; 3]) -> [T; 3],

    requires
        is_outcome(file_bytes, request, one, answers, operations, outcome),
        is_surely_cancelled(answers, stage),
    ensures
        outcome is Err,
        ends_before(file_bytes, request, one, answers, operations, stage, outcome->Err_0),
{
}

/// A load that is surely wanted up to a stage, and cannot get past that stage, ends with the
/// error of an operation, of that stage or an earlier one.
pub proof fn lemma_failed_first<'a, L, D, R, T, P, E, I, A, M, K, V, N, F, G>(
    file_bytes: &[u8],
    request: Request,
    one: T,
    answers: spec_fn(Progress<'a, D, R, T>, Option<L>) -> bool,
    last: Stage,
    operations: Operations<I, A, M, K, V, N, F, G>,
    outcome: Result<(RgbaImage<T>, Orientation), DevelopError<E>>,
) where
    I: FnOnce(L, &[u8]) -> Result<D, E>,
    A: FnOnce(L, &D, &[u8]) -> Result<(R, Photometric), E>,
    M: FnOnce(&D, &[u8]) -> Result<Option<u16>, E>,
    K: FnOnce(R, &[u8]) -> (R, SensorColor<T>),
    V: FnOnce(L, R, DevelopPlan) -> Result<Developed<T>, E>,
    N: FnOnce(L, ToneInputs<T>) -> P,
    F: Fn(P, T) -> T,
    G: Fn(P, [T; 3]) -> [T; 3],

    requires
        is_outcome(file_bytes, request, one, answers, operations, outcome),
        is_surely_wanted(answers, last),
        !passes(file_bytes, request, one, answers, operations, last),
        last.rank() <= Stage::Develop.rank(),
    ensures
        outcome is Err,
        outcome->Err_0 is Decoder,
        fails_by(file_bytes, request, answers, operations, last, outcome->Err_0->Decoder_0),
{
}

/// A load that is surely wanted right before every stage does not end as cancelled.
pub proof fn lemma_never_cancelled<'a, L, D, R, T, P, E, I, A, M, K, V, N, F, G>(
    file_bytes: &[u8],
    request: Request,
    one: T,
    answers: spec_fn(Progress<'a, D, R, T>, Option<L>) -> bool,
    operations: Operations<I, A, M, K, V, N, F, G>,
    outcome: Result<(RgbaImage<T>, Orientation), DevelopError<E>>,
) where
    I: FnOnce(L, &[u8]) -> Result<D, E>,
    A: FnOnce(L, &D, &[u8]) -> Result<(R, Photometric), E>,
    M: FnOnce(&D, &[u8]) -> Result<Option<u16>, E>,
    K: FnOnce(R, &[u8]) -> (R, SensorColor<T>),
    V: FnOnce(L, R, DevelopPlan) -> Result<Developed<T>, E>,
    N: FnOnce(L, ToneInputs<T>) -> P,
    F: Fn(P, T) -> T,
    G: Fn(P, [T; 3]) -> [T; 3],

    requires
        is_outcome(file_bytes, request, one, answers, operations, outcome),
        is_surely_wanted(answers, Stage::Assemble),
    ensures
        !(outcome is Err && outcome->Err_0 is Cancelled),
{
}

/// A picture of four channels is never made an image of.
pub proof fn lemma_four_channels_give_no_image<'a, L, D, R, T, P, E, I, A, M, K, V, N, F, G>(
    file_bytes: &[u8],
    request: Request,
    one: T,
    answers: spec_fn(Progress<'a, D, R, T>, Option<L>) -> bool,
    operations: Operations<I, A, M, K, V, N, F, G>,
    outcome: Result<(RgbaImage<T>, Orientation), DevelopError<E>>,
) where
    I: FnOnce(L, &[u8]) -> Result<D, E>,
    A: FnOnce(L, &D, &[u8]) -> Result<(R, Photometric), E>,
    M: FnOnce(&D, &[u8]) -> Result<Option<u16>, E>,
    K: FnOnce(R, &[u8]) -> (R, SensorColor<T>),
    V: FnOnce(L, R, DevelopPlan) -> Result<Developed<T>, E>,
    N: FnOnce(L, ToneInputs<T>) -> P,
    F: Fn(P, T) -> T,
    G: Fn(P, [T; 3]) -> [T; 3],

    requires
        is_outcome(file_bytes, request, one, answers, operations, outcome),
        forall|go: L, raw: R, plan: DevelopPlan, developed: Developed<T>| #[trigger]
            call_ensures(operations.develop, (go, raw, plan), Ok::<Developed<T>, E>(developed))
                ==> developed.planes is FourColor,
    ensures
        outcome is Err,
{
}

/// No operation that may fail does so on the file.
pub open spec fn never_fail<L, D, R, T, E, I, A, M, K, V, N, F, G>(
    file_bytes: &[u8],
    operations: Operations<I, A, M, K, V, N, F, G>,
) -> bool where
    I: FnOnce(L, &[u8]) -> Result<D, E>,
    A: FnOnce(L, &D, &[u8]) -> Result<(R, Photometric), E>,
    M: FnOnce(&D, &[u8]) -> Result<Option<u16>, E>,
    V: FnOnce(L, R, DevelopPlan) -> Result<Developed<T>, E>,
 {
    &&& forall|go: L, error: E| !#[trigger]
        call_ensures(operations.identify, (go, file_bytes), Err::<D, E>(error))
    &&& forall|go: L, decoder: &D, error: E| !#[trigger]
        call_ensures(
            operations.decode,
            (go, decoder, file_bytes),
            Err::<(R, Photometric), E>(error),
        )
    &&& forall|decoder: &D, error: E| !#[trigger]
        call_ensures(operations.metadata, (decoder, file_bytes), Err::<Option<u16>, E>(error))
    &&& forall|go: L, raw: R, plan: DevelopPlan, error: E| !#[trigger]
        call_ensures(operations.develop, (go, raw, plan), Err::<Developed<T>, E>(error))
}

/// A load that is neither cancelled nor let down by an operation is decided by the layout
/// of the developed picture: four channels are unsupported, any other layout gives an image.
pub proof fn lemma_undisturbed<'a, L, D, R, T, P, E, I, A, M, K, V, N, F, G>(
    file_bytes: &[u8],
    request: Request,
    one: T,
    answers: spec_fn(Progress<'a, D, R, T>, Option<L>) -> bool,
    operations: Operations<I, A, M, K, V, N, F, G>,
    outcome: Result<(RgbaImage<T>, Orientation), DevelopError<E>>,
) where
    I: FnOnce(L, &[u8]) -> Result<D, E>,
    A: FnOnce(L, &D, &[u8]) -> Result<(R, Photometric), E>,
    M: FnOnce(&D, &[u8]) -> Result<Option<u16>, E>,
    K: FnOnce(R, &[u8]) -> (R, SensorColor<T>),
    V: FnOnce(L, R, DevelopPlan) -> Result<Developed<T>, E>,
    N: FnOnce(L, ToneInputs<T>) -> P,
    F: Fn(P, T) -> T,
    G: Fn(P, [T; 3]) -> [T; 3],

    requires
        is_outcome(file_bytes, request, one, answers, operations, outcome),
        is_surely_wanted(answers, Stage::Assemble),
        never_fail(file_bytes, operations),
    ensures
        (forall|go: L, raw: R, plan: DevelopPlan, developed: Developed<T>| #[trigger]
            call_ensures(operations.develop, (go, raw, plan), Ok::<Developed<T>, E>(developed))
                ==> developed.planes is FourColor) ==> outcome is Err
            && outcome->Err_0 is UnsupportedFormat,
        (forall|go: L, raw: R, plan: DevelopPlan, developed: Developed<T>| #[trigger]
            call_ensures(operations.develop, (go, raw, plan), Ok::<Developed<T>, E>(developed))
                ==> !(developed.planes is FourColor)) ==> outcome is Ok,
{
}

/// What a load came by on its way: its clearances and what its operations gave.
pub struct Trace<L, D, R, T, P> {
    pub to_identify: L,
    pub decoder: D,
    pub to_decode: L,
    /// The decoder's image, before it was looked at for colour.
    pub image: R,
    pub decoded: Decoded<R, T>,
    pub to_develop: L,
    pub plan: DevelopPlan,
    pub developed: Developed<T>,
    pub to_tone: L,
    pub inputs: ToneInputs<T>,
    pub parameters: P,
    pub planes: Planes<T>,
    pub to_assemble: L,
}

proof fn trace_identified<'a, L, D, R, T, P, E, I, A, M, K, V, N, F, G>(
    file_bytes: &[u8],
    request: Request,
    one: T,
    answers: spec_fn(Progress<'a, D, R, T>, Option<L>) -> bool,
    operations: Operations<I, A, M, K, V, N, F, G>,
    decoder: D,
) -> (t: Trace<L, D, R, T, P>) where
    I: FnOnce(L, &[u8]) -> Result<D, E>,
    A: FnOnce(L, &D, &[u8]) -> Result<(R, Photometric), E>,
    M: FnOnce(&D, &[u8]) -> Result<Option<u16>, E>,
    K: FnOnce(R, &[u8]) -> (R, SensorColor<T>),
    V: FnOnce(L, R, DevelopPlan) -> Result<Developed<T>, E>,
    N: FnOnce(L, ToneInputs<T>) -> P,
    F: Fn(P, T) -> T,
    G: Fn(P, [T; 3]) -> [T; 3],

    requires
        comes_to_identify(file_bytes, answers, operations, decoder),
    ensures
        t.decoder == decoder,
        answers(Progress::Begun, Some(t.to_identify)) && call_ensures(
            operations.identify,
            (t.to_identify, file_bytes),
            Ok::<D, E>(t.decoder),
        ),
{
    let go = choose|go: L| #[trigger]
        answers(Progress::Begun, Some(go)) && call_ensures(
            operations.identify,
            (go, file_bytes),
            Ok::<D, E>(decoder),
        );
    let t: Trace<L, D, R, T, P> = arbitrary();
    Trace { to_identify: go, decoder, ..t }
}

proof fn trace_read<'a, L, D, R, T, P, E, I, A, M, K, V, N, F, G>(
    file_bytes: &[u8],
    request: Request,
    one: T,
    answers: spec_fn(Progress<'a, D, R, T>, Option<L>) -> bool,
    operations: Operations<I, A, M, K, V, N, F, G>,
    decoded: Decoded<R, T>,
) -> (t: Trace<L, D, R, T, P>) where
    I: FnOnce(L, &[u8]) -> Result<D, E>,
    A: FnOnce(L, &D, &[u8]) -> Result<(R, Photometric), E>,
    M: FnOnce(&D, &[u8]) -> Result<Option<u16>, E>,
    K: FnOnce(R, &[u8]) -> (R, SensorColor<T>),
    V: FnOnce(L, R, DevelopPlan) -> Result<Developed<T>, E>,
    N: FnOnce(L, ToneInputs<T>) -> P,
    F: Fn(P, T) -> T,
    G: Fn(P, [T; 3]) -> [T; 3],

    requires
        comes_to_read(file_bytes, answers, operations, decoded),
    ensures
        t.decoded == decoded,
        answers(Progress::Begun, Some(t.to_identify)) && call_ensures(
            operations.identify,
            (t.to_identify, file_bytes),
            Ok::<D, E>(t.decoder),
        ),
        ({
            &&& answers(Progress::Identified(&t.decoder), Some(t.to_decode))
            &&& call_ensures(
                operations.decode,
                (t.to_decode, &t.decoder, file_bytes),
                Ok::<(R, Photometric), E>((t.image, t.decoded.photometric)),
            )
            &&& call_ensures(
                operations.metadata,
                (&t.decoder, file_bytes),
                Ok::<Option<u16>, E>(t.decoded.exif_orientation),
            )
            &&& call_ensures(
                operations.color,
                (t.image, file_bytes),
                (t.decoded.raw, t.decoded.color),
            )
        }),
{
    let (decoder, go) = choose|decoder: D, go: L|
        {
            &&& comes_to_identify(file_bytes, answers, operations, decoder)
            &&& #[trigger] answers(Progress::Identified(&decoder), Some(go))
            &&& may_read(file_bytes, operations, go, decoder, Ok::<Decoded<R, T>, E>(decoded))
        };
    let image = choose|image: R|
        {
            &&& #[trigger] call_ensures(
                operations.decode,
                (go, &decoder, file_bytes),
                Ok::<(R, Photometric), E>((image, decoded.photometric)),
            )
            &&& call_ensures(
                operations.metadata,
                (&decoder, file_bytes),
                Ok::<Option<u16>, E>(decoded.exif_orientation),
            )
            &&& call_ensures(
                operations.color,
                (image, file_bytes),
                (decoded.raw, decoded.color),
            )
        };
    let t: Trace<L, D, R, T, P> = trace_identified(
        file_bytes,
        request,
        one,
        answers,
        operations,
        decoder,
    );
    Trace { to_decode: go, image, decoded, ..t }
}

proof fn trace_developed<'a, L, D, R, T, P, E, I, A, M, K, V, N, F, G>(
    file_bytes: &[u8],
    request: Request,
    one: T,
    answers: spec_fn(Progress<'a, D, R, T>, Option<L>) -> bool,
    operations: Operations<I, A, M, K, V, N, F, G>,
    decoded: Decoded<R, T>,
    developed: Developed<T>,
) -> (t: Trace<L, D, R, T, P>) where
    I: FnOnce(L, &[u8]) -> Result<D, E>,
    A: FnOnce(L, &D, &[u8]) -> Result<(R, Photometric), E>,
    M: FnOnce(&D, &[u8]) -> Result<Option<u16>, E>,
    K: FnOnce(R, &[u8]) -> (R, SensorColor<T>),
    V: FnOnce(L, R, DevelopPlan) -> Result<Developed<T>, E>,
    N: FnOnce(L, ToneInputs<T>) -> P,
    F: Fn(P, T) -> T,
    G: Fn(P, [T; 3]) -> [T; 3],

    requires
        comes_to_develop(file_bytes, request, answers, operations, decoded, developed),
    ensures
        t.decoded == decoded,
        t.developed == developed,
        answers(Progress::Begun, Some(t.to_identify)) && call_ensures(
            operations.identify,
            (t.to_identify, file_bytes),
            Ok::<D, E>(t.decoder),
        ),
        ({
            &&& answers(Progress::Identified(&t.decoder), Some(t.to_decode))
            &&& call_ensures(
                operations.decode,
                (t.to_decode, &t.decoder, file_bytes),
                Ok::<(R, Photometric), E>((t.image, t.decoded.photometric)),
            )
            &&& call_ensures(
                operations.metadata,
                (&t.decoder, file_bytes),
                Ok::<Option<u16>, E>(t.decoded.exif_orientation),
            )
            &&& call_ensures(
                operations.color,
                (t.image, file_bytes),
                (t.decoded.raw, t.decoded.color),
            )
        }),
        ({
            &&& answers(Progress::Read(&t.decoded), Some(t.to_develop))
            &&& is_plan(t.plan, request, t.decoded.photometric)
            &&& call_ensures(
                operations.develop,
                (t.to_develop, t.decoded.raw, t.plan),
                Ok::<Developed<T>, E>(t.developed),
            )
        }),
{
    let go = choose|go: L| #[trigger]
        answers(Progress::Read(&decoded), Some(go)) && may_develop(
            request,
            operations,
            go,
            decoded,
            Ok::<Developed<T>, E>(developed),
        );
    let plan = choose|plan: DevelopPlan| #[trigger]
        is_plan(plan, request, decoded.photometric) && call_ensures(
            operations.develop,
            (go, decoded.raw, plan),
            Ok::<Developed<T>, E>(developed),
        );
    let t: Trace<L, D, R, T, P> = trace_read(
        file_bytes,
        request,
        one,
        answers,
        operations,
        decoded,
    );
    Trace { to_develop: go, plan, developed, ..t }
}

proof fn trace_toned<'a, L, D, R, T, P, E, I, A, M, K, V, N, F, G>(
    file_bytes: &[u8],
    request: Request,
    one: T,
    answers: spec_fn(Progress<'a, D, R, T>, Option<L>) -> bool,
    operations: Operations<I, A, M, K, V, N, F, G>,
    decoded: Decoded<R, T>,
    developed: Developed<T>,
    planes: Planes<T>,
) -> (t: Trace<L, D, R, T, P>) where
    I: FnOnce(L, &[u8]) -> Result<D, E>,
    A: FnOnce(L, &D, &[u8]) -> Result<(R, Photometric), E>,
    M: FnOnce(&D, &[u8]) -> Result<Option<u16>, E>,
    K: FnOnce(R, &[u8]) -> (R, SensorColor<T>),
    V: FnOnce(L, R, DevelopPlan) -> Result<Developed<T>, E>,
    N: FnOnce(L, ToneInputs<T>) -> P,
    F: Fn(P, T) -> T,
    G: Fn(P, [T; 3]) -> [T; 3],

    requires
        comes_to_tone(
            file_bytes,
            request,
            one,
            answers,
            operations,
            decoded,
            developed,
            planes,
        ),
    ensures
        t.decoded == decoded,
        t.developed == developed,
        t.planes == planes,
        answers(Progress::Begun, Some(t.to_identify)) && call_ensures(
            operations.identify,
            (t.to_identify, file_bytes),
            Ok::<D, E>(t.decoder),
        ),
        ({
            &&& answers(Progress::Identified(&t.decoder), Some(t.to_decode))
            &&& call_ensures(
                operations.decode,
                (t.to_decode, &t.decoder, file_bytes),
                Ok::<(R, Photometric), E>((t.image, t.decoded.photometric)),
            )
            &&& call_ensures(
                operations.metadata,
                (&t.decoder, file_bytes),
                Ok::<Option<u16>, E>(t.decoded.exif_orientation),
            )
            &&& call_ensures(
                operations.color,
                (t.image, file_bytes),
                (t.decoded.raw, t.decoded.color),
            )
        }),
        ({
            &&& answers(Progress::Read(&t.decoded), Some(t.to_develop))
            &&& is_plan(t.plan, request, t.decoded.photometric)
            &&& call_ensures(
                operations.develop,
                (t.to_develop, t.decoded.raw, t.plan),
                Ok::<Developed<T>, E>(t.developed),
            )
        }),
        ({
            &&& answers(Progress::Developed(&t.developed), Some(t.to_tone))
            &&& is_tone_inputs(
                t.inputs,
                request,
                t.decoded.photometric,
                t.decoded.color,
                one,
            )
            &&& call_ensures(operations.tone, (t.to_tone, t.inputs), t.parameters)
            &&& is_adjusted(
                t.developed.planes,
                t.planes,
                t.parameters,
                operations.scalar,
                operations.pixel,
            )
        }),
{
    let go = choose|go: L| #[trigger]
        answers(Progress::Developed(&developed), Some(go)) && may_tone(
            request,
            one,
            operations,
            go,
            decoded,
            developed,
            planes,
        );
    let (inputs, parameters) = choose|inputs: ToneInputs<T>, parameters: P| #[trigger]
        call_ensures(operations.tone, (go, inputs), parameters) && is_tone_inputs(
            inputs,
            request,
            decoded.photometric,
            decoded.color,
            one,
        ) && is_adjusted(
            developed.planes,
            planes,
            parameters,
            operations.scalar,
            operations.pixel,
        );
    let t: Trace<L, D, R, T, P> = trace_developed(
        file_bytes,
        request,
        one,
        answers,
        operations,
        decoded,
        developed,
    );
    Trace { to_tone: go, inputs, parameters, planes, ..t }
}

proof fn trace_stopped<'a, L, D, R, T, P, E, I, A, M, K, V, N, F, G>(
    file_bytes: &[u8],
    request: Request,
    one: T,
    answers: spec_fn(Progress<'a, D, R, T>, Option<L>) -> bool,
    operations: Operations<I, A, M, K, V, N, F, G>,
    stage: Stage,
) -> (t: Trace<L, D, R, T, P>) where
    I: FnOnce(L, &[u8]) -> Result<D, E>,
    A: FnOnce(L, &D, &[u8]) -> Result<(R, Photometric), E>,
    M: FnOnce(&D, &[u8]) -> Result<Option<u16>, E>,
    K: FnOnce(R, &[u8]) -> (R, SensorColor<T>),
    V: FnOnce(L, R, DevelopPlan) -> Result<Developed<T>, E>,
    N: FnOnce(L, ToneInputs<T>) -> P,
    F: Fn(P, T) -> T,
    G: Fn(P, [T; 3]) -> [T; 3],

    requires
        is_stopped(file_bytes, request, one, answers, operations, stage),
    ensures
        !(stage is Identify) ==> answers(Progress::Begun, Some(t.to_identify)) && call_ensures(
            operations.identify,
            (t.to_identify, file_bytes),
            Ok::<D, E>(t.decoder),
        ),
        stage is Develop || stage is Tone || stage is Assemble ==> {
            &&& answers(Progress::Identified(&t.decoder), Some(t.to_decode))
            &&& call_ensures(
                operations.decode,
                (t.to_decode, &t.decoder, file_bytes),
                Ok::<(R, Photometric), E>((t.image, t.decoded.photometric)),
            )
            &&& call_ensures(
                operations.metadata,
                (&t.decoder, file_bytes),
                Ok::<Option<u16>, E>(t.decoded.exif_orientation),
            )
            &&& call_ensures(
                operations.color,
                (t.image, file_bytes),
                (t.decoded.raw, t.decoded.color),
            )
        },
        stage is Tone || stage is Assemble ==> {
            &&& answers(Progress::Read(&t.decoded), Some(t.to_develop))
            &&& is_plan(t.plan, request, t.decoded.photometric)
            &&& call_ensures(
                operations.develop,
                (t.to_develop, t.decoded.raw, t.plan),
                Ok::<Developed<T>, E>(t.developed),
            )
        },
        stage is Assemble ==> {
            &&& answers(Progress::Developed(&t.developed), Some(t.to_tone))
            &&& is_tone_inputs(
                t.inputs,
                request,
                t.decoded.photometric,
                t.decoded.color,
                one,
            )
            &&& call_ensures(operations.tone, (t.to_tone, t.inputs), t.parameters)
            &&& is_adjusted(
                t.developed.planes,
                t.planes,
                t.parameters,
                operations.scalar,
                operations.pixel,
            )
        },
        match stage {
            Stage::Identify => answers(Progress::Begun, None),
            Stage::Decode => answers(Progress::Identified(&t.decoder), None),
            Stage::Develop => answers(Progress::Read(&t.decoded), None),
            Stage::Tone => answers(Progress::Developed(&t.developed), None),
            Stage::Assemble => answers(Progress::Toned(&t.planes), None),
        },
{
    match stage {
        Stage::Identify => arbitrary(),
        Stage::Decode => {
            let decoder = choose|decoder: D| #[trigger]
                comes_to_identify(file_bytes, answers, operations, decoder) && answers(
                    Progress::Identified(&decoder),
                    None,
                );
            trace_identified(file_bytes, request, one, answers, operations, decoder)
        },
        Stage::Develop => {
            let decoded = choose|decoded: Decoded<R, T>| #[trigger]
                comes_to_read(file_bytes, answers, operations, decoded) && answers(
                    Progress::Read(&decoded),
                    None,
                );
            trace_read(file_bytes, request, one, answers, operations, decoded)
        },
        Stage::Tone => {
            let (decoded, developed) = choose|decoded: Decoded<R, T>, developed: Developed<T>|
                #[trigger] comes_to_develop(
                    file_bytes,
                    request,
                    answers,
                    operations,
                    decoded,
                    developed,
                ) && answers(Progress::Developed(&developed), None);
            trace_developed(file_bytes, request, one, answers, operations, decoded, developed)
        },
        Stage::Assemble => {
            let (decoded, developed, planes) = choose|
                decoded: Decoded<R, T>,
                developed: Developed<T>,
                planes: Planes<T>,
            | #[trigger]
                comes_to_tone(
                    file_bytes,
                    request,
                    one,
                    answers,
                    operations,
                    decoded,
                    developed,
                    planes,
                ) && answers(Progress::Toned(&planes), None);
            trace_toned(
                file_bytes,
                request,
                one,
                answers,
                operations,
                decoded,
                developed,
                planes,
            )
        },
    }
}

proof fn trace_failed<'a, L, D, R, T, P, E, I, A, M, K, V, N, F, G>(
    file_bytes: &[u8],
    request: Request,
    one: T,
    answers: spec_fn(Progress<'a, D, R, T>, Option<L>) -> bool,
    operations: Operations<I, A, M, K, V, N, F, G>,
    stage: Stage,
    error: E,
) -> (t: Trace<L, D, R, T, P>) where
    I: FnOnce(L, &[u8]) -> Result<D, E>,
    A: FnOnce(L, &D, &[u8]) -> Result<(R, Photometric), E>,
    M: FnOnce(&D, &[u8]) -> Result<Option<u16>, E>,
    K: FnOnce(R, &[u8]) -> (R, SensorColor<T>),
    V: FnOnce(L, R, DevelopPlan) -> Result<Developed<T>, E>,
    N: FnOnce(L, ToneInputs<T>) -> P,
    F: Fn(P, T) -> T,
    G: Fn(P, [T; 3]) -> [T; 3],

    requires
        is_failed(file_bytes, request, answers, operations, stage, error),
    ensures
        !(stage is Identify) ==> answers(Progress::Begun, Some(t.to_identify)) && call_ensures(
            operations.identify,
            (t.to_identify, file_bytes),
            Ok::<D, E>(t.decoder),
        ),
        stage is Develop || stage is Tone || stage is Assemble ==> {
            &&& answers(Progress::Identified(&t.decoder), Some(t.to_decode))
            &&& call_ensures(
                operations.decode,
                (t.to_decode, &t.decoder, file_bytes),
                Ok::<(R, Photometric), E>((t.image, t.decoded.photometric)),
            )
            &&& call_ensures(
                operations.metadata,
                (&t.decoder, file_bytes),
                Ok::<Option<u16>, E>(t.decoded.exif_orientation),
            )
            &&& call_ensures(
                operations.color,
                (t.image, file_bytes),
                (t.decoded.raw, t.decoded.color),
            )
        },
        match stage {
            Stage::Identify => answers(Progress::Begun, Some(t.to_identify)) && call_ensures(
                operations.identify,
                (t.to_identify, file_bytes),
                Err::<D, E>(error),
            ),
            Stage::Decode => {
                &&& answers(Progress::Identified(&t.decoder), Some(t.to_decode))
                &&& call_ensures(
                    operations.decode,
                    (t.to_decode, &t.decoder, file_bytes),
                    Err::<(R, Photometric), E>(error),
                ) || (call_ensures(
                    operations.decode,
                    (t.to_decode, &t.decoder, file_bytes),
                    Ok::<(R, Photometric), E>((t.image, t.decoded.photometric)),
                ) && call_ensures(
                    operations.metadata,
                    (&t.decoder, file_bytes),
                    Err::<Option<u16>, E>(error),
                ))
            },
            Stage::Develop => {
                &&& answers(Progress::Read(&t.decoded), Some(t.to_develop))
                &&& is_plan(t.plan, request, t.decoded.photometric)
                &&& call_ensures(
                    operations.develop,
                    (t.to_develop, t.decoded.raw, t.plan),
                    Err::<Developed<T>, E>(error),
                )
            },
            Stage::Tone | Stage::Assemble => false,
        },
{
    match stage {
        Stage::Identify => {
            let go = choose|go: L| #[trigger]
                answers(Progress::Begun, Some(go)) && call_ensures(
                    operations.identify,
                    (go, file_bytes),
                    Err::<D, E>(error),
                );
            let t: Trace<L, D, R, T, P> = arbitrary();
            Trace { to_identify: go, ..t }
        },
        Stage::Decode => {
            let (decoder, go) = choose|decoder: D, go: L|
                {
                    &&& comes_to_identify(file_bytes, answers, operations, decoder)
                    &&& #[trigger] answers(Progress::Identified(&decoder), Some(go))
                    &&& may_read(
                        file_bytes,
                        operations,
                        go,
                        decoder,
                        Err::<Decoded<R, T>, E>(error),
                    )
                };
            let (image, photometric) = choose|image: R, photometric: Photometric|
                {
                    &&& #[trigger] call_ensures(
                        operations.decode,
                        (go, &decoder, file_bytes),
                        Ok::<(R, Photometric), E>((image, photometric)),
                    )
                    &&& call_ensures(
                        operations.metadata,
                        (&decoder, file_bytes),
                        Err::<Option<u16>, E>(error),
                    )
                };
            let t: Trace<L, D, R, T, P> = trace_identified(
                file_bytes,
                request,
                one,
                answers,
                operations,
                decoder,
            );
            Trace { to_decode: go, image, decoded: Decoded { photometric, ..t.decoded }, ..t }
        },
        Stage::Develop => {
            let (decoded, go) = choose|decoded: Decoded<R, T>, go: L|
                {
                    &&& comes_to_read(file_bytes, answers, operations, decoded)
                    &&& #[trigger] answers(Progress::Read(&decoded), Some(go))
                    &&& may_develop(
                        request,
                        operations,
                        go,
                        decoded,
                        Err::<Developed<T>, E>(error),
                    )
                };
            let plan = choose|plan: DevelopPlan| #[trigger]
                is_plan(plan, request, decoded.photometric) && call_ensures(
                    operations.develop,
                    (go, decoded.raw, plan),
                    Err::<Developed<T>, E>(error),
                );
            let t: Trace<L, D, R, T, P> = trace_read(
                file_bytes,
                request,
                one,
                answers,
                operations,
                decoded,
            );
            Trace { to_develop: go, plan, ..t }
        },
        Stage::Tone | Stage::Assemble => arbitrary(),
    }
}

/// The whole story behind an outcome: the stage that a load came to last, what every stage
/// before it was handed and gave, and how that stage ended the load. Every stage begins with
/// the clearance that was given for it with the result of the stage before at hand, and every
/// operation is handed the file, or what the one before it gave.
pub proof fn lemma_story<'a, L, D, R, T, P, E, I, A, M, K, V, N, F, G>(
    file_bytes: &[u8],
    request: Request,
    one: T,
    answers: spec_fn(Progress<'a, D, R, T>, Option<L>) -> bool,
    operations: Operations<I, A, M, K, V, N, F, G>,
    outcome: Result<(RgbaImage<T>, Orientation), DevelopError<E>>,
) -> (r: (Trace<L, D, R, T, P>, Stage)) where
    I: FnOnce(L, &[u8]) -> Result<D, E>,
    A: FnOnce(L, &D, &[u8]) -> Result<(R, Photometric), E>,
    M: FnOnce(&D, &[u8]) -> Result<Option<u16>, E>,
    K: FnOnce(R, &[u8]) -> (R, SensorColor<T>),
    V: FnOnce(L, R, DevelopPlan) -> Result<Developed<T>, E>,
    N: FnOnce(L, ToneInputs<T>) -> P,
    F: Fn(P, T) -> T,
    G: Fn(P, [T; 3]) -> [T; 3],

    requires
        is_outcome(file_bytes, request, one, answers, operations, outcome),
    ensures
        !(r.1 is Identify) ==> answers(Progress::Begun, Some(r.0.to_identify)) && call_ensures(
            operations.identify,
            (r.0.to_identify, file_bytes),
            Ok::<D, E>(r.0.decoder),
        ),
        r.1 is Develop || r.1 is Tone || r.1 is Assemble ==> {
            &&& answers(Progress::Identified(&r.0.decoder), Some(r.0.to_decode))
            &&& call_ensures(
                operations.decode,
                (r.0.to_decode, &r.0.decoder, file_bytes),
                Ok::<(R, Photometric), E>((r.0.image, r.0.decoded.photometric)),
            )
            &&& call_ensures(
                operations.metadata,
                (&r.0.decoder, file_bytes),
                Ok::<Option<u16>, E>(r.0.decoded.exif_orientation),
            )
            &&& call_ensures(
                operations.color,
                (r.0.image, file_bytes),
                (r.0.decoded.raw, r.0.decoded.color),
            )
        },
        r.1 is Tone || r.1 is Assemble ==> {
            &&& answers(Progress::Read(&r.0.decoded), Some(r.0.to_develop))
            &&& is_plan(r.0.plan, request, r.0.decoded.photometric)
            &&& call_ensures(
                operations.develop,
                (r.0.to_develop, r.0.decoded.raw, r.0.plan),
                Ok::<Developed<T>, E>(r.0.developed),
            )
        },
        r.1 is Assemble ==> {
            &&& answers(Progress::Developed(&r.0.developed), Some(r.0.to_tone))
            &&& is_tone_inputs(
                r.0.inputs,
                request,
                r.0.decoded.photometric,
                r.0.decoded.color,
                one,
            )
            &&& call_ensures(operations.tone, (r.0.to_tone, r.0.inputs), r.0.parameters)
            &&& is_adjusted(
                r.0.developed.planes,
                r.0.planes,
                r.0.parameters,
                operations.scalar,
                operations.pixel,
            )
        },
        outcome matches Ok((image, orientation)) ==> {
            &&& r.1 is Assemble
            &&& answers(Progress::Toned(&r.0.planes), Some(r.0.to_assemble))
            &&& !(r.0.developed.planes is FourColor)
            &&& image.width == r.0.developed.width as u32
            &&& image.height == r.0.developed.height as u32
            &&& is_image_of(image, r.0.planes, one)
            &&& orientation == orientation_of_exif(r.0.decoded.exif_orientation)
        },
        outcome matches Err(DevelopError::UnsupportedFormat) ==> {
            &&& r.1 is Assemble
            &&& answers(Progress::Toned(&r.0.planes), Some(r.0.to_assemble))
            &&& r.0.developed.planes is FourColor
        },
        outcome matches Err(DevelopError::Cancelled) ==> match r.1 {
            Stage::Identify => answers(Progress::Begun, None),
            Stage::Decode => answers(Progress::Identified(&r.0.decoder), None),
            Stage::Develop => answers(Progress::Read(&r.0.decoded), None),
            Stage::Tone => answers(Progress::Developed(&r.0.developed), None),
            Stage::Assemble => answers(Progress::Toned(&r.0.planes), None),
        },
        outcome matches Err(DevelopError::Decoder(error)) ==> match r.1 {
            Stage::Identify => answers(Progress::Begun, Some(r.0.to_identify)) && call_ensures(
                operations.identify,
                (r.0.to_identify, file_bytes),
                Err::<D, E>(error),
            ),
            Stage::Decode => {
                &&& answers(Progress::Identified(&r.0.decoder), Some(r.0.to_decode))
                &&& call_ensures(
                    operations.decode,
                    (r.0.to_decode, &r.0.decoder, file_bytes),
                    Err::<(R, Photometric), E>(error),
                ) || (call_ensures(
                    operations.decode,
                    (r.0.to_decode, &r.0.decoder, file_bytes),
                    Ok::<(R, Photometric), E>((r.0.image, r.0.decoded.photometric)),
                ) && call_ensures(
                    operations.metadata,
                    (&r.0.decoder, file_bytes),
                    Err::<Option<u16>, E>(error),
                ))
            },
            Stage::Develop => {
                &&& answers(Progress::Read(&r.0.decoded), Some(r.0.to_develop))
                &&& is_plan(r.0.plan, request, r.0.decoded.photometric)
                &&& call_ensures(
                    operations.develop,
                    (r.0.to_develop, r.0.decoded.raw, r.0.plan),
                    Err::<Developed<T>, E>(error),
                )
            },
            Stage::Tone | Stage::Assemble => false,
        },
{
    match outcome {
        Ok(finished) => {
            let (decoded, developed, planes, go) = choose|
                decoded: Decoded<R, T>,
                developed: Developed<T>,
                planes: Planes<T>,
                go: L,
            |
                {
                    &&& #[trigger] comes_to_tone(
                        file_bytes,
                        request,
                        one,
                        answers,
                        operations,
                        decoded,
                        developed,
                        planes,
                    )
                    &&& #[trigger] answers(Progress::Toned(&planes), Some(go))
                    &&& is_finished(finished.0, developed, planes, one)
                    &&& finished.1 == orientation_of_exif(decoded.exif_orientation)
                };
            let t: Trace<L, D, R, T, P> = trace_toned(
                file_bytes,
                request,
                one,
                answers,
                operations,
                decoded,
                developed,
                planes,
            );
            (Trace { to_assemble: go, ..t }, Stage::Assemble)
        },
        Err(DevelopError::UnsupportedFormat) => {
            let (decoded, developed, planes, go) = choose|
                decoded: Decoded<R, T>,
                developed: Developed<T>,
                planes: Planes<T>,
                go: L,
            |
                {
                    &&& #[trigger] comes_to_tone(
                        file_bytes,
                        request,
                        one,
                        answers,
                        operations,
                        decoded,
                        developed,
                        planes,
                    )
                    &&& #[trigger] answers(Progress::Toned(&planes), Some(go))
                    &&& developed.planes is FourColor
                };
            let t: Trace<L, D, R, T, P> = trace_toned(
                file_bytes,
                request,
                one,
                answers,
                operations,
                decoded,
                developed,
                planes,
            );
            (Trace { to_assemble: go, ..t }, Stage::Assemble)
        },
        Err(DevelopError::Cancelled) => {
            let stage = choose|stage: Stage| #[trigger]
                is_stopped(file_bytes, request, one, answers, operations, stage);
            (trace_stopped(file_bytes, request, one, answers, operations, stage), stage)
        },
        Err(DevelopError::Decoder(error)) => {
            let stage = choose|stage: Stage|
                stage.rank() <= Stage::Develop.rank() && #[trigger] is_failed(
                    file_bytes,
                    request,
                    answers,
                    operations,
                    stage,
                    error,
                );
            (trace_failed(file_bytes, request, one, answers, operations, stage, error), stage)
        },
    }
}

/// The operations may be called on whatever the stages before them give, and what
/// `develop` gives can be made an image of.
pub open spec fn are_callable<L, D, R, T, P, E, I, A, M, K, V, N, F, G>(
    file_bytes: &[u8],
    operations: Operations<I, A, M, K, V, N, F, G>,
) -> bool where
    I: FnOnce(L, &[u8]) -> Result<D, E>,
    A: FnOnce(L, &D, &[u8]) -> Result<(R, Photometric), E>,
    M: FnOnce(&D, &[u8]) -> Result<Option<u16>, E>,
    K: FnOnce(R, &[u8]) -> (R, SensorColor<T>),
    V: FnOnce(L, R, DevelopPlan) -> Result<Developed<T>, E>,
    N: FnOnce(L, ToneInputs<T>) -> P,
    F: Fn(P, T) -> T,
    G: Fn(P, [T; 3]) -> [T; 3],
 {
    &&& forall|go: L| call_requires(operations.identify, (go, file_bytes))
    &&& forall|go: L, decoder: &D| call_requires(operations.decode, (go, decoder, file_bytes))
    &&& forall|decoder: &D| call_requires(operations.metadata, (decoder, file_bytes))
    &&& forall|image: R| call_requires(operations.color, (image, file_bytes))
    &&& forall|go: L, raw: R, plan: DevelopPlan| call_requires(operations.develop, (go, raw, plan))
    &&& forall|go: L, inputs: ToneInputs<T>| call_requires(operations.tone, (go, inputs))
    &&& forall|parameters: P, x: T| call_requires(operations.scalar, (parameters, x))
    &&& forall|parameters: P, x: [T; 3]| call_requires(operations.pixel, (parameters, x))
    &&& forall|go: L, raw: R, plan: DevelopPlan, developed: Developed<T>| #[trigger]
        call_ensures(operations.develop, (go, raw, plan), Ok::<Developed<T>, E>(developed))
            ==> is_presentable(developed)
}

/// Takes a raw file through its stages: its decoder is found, the file is read with it, the
/// plan is carried out, the samples are reworked, and the image is put together. Right before
/// each of these five stages, with what the stage before it gave at hand, `cleared` is asked
/// whether the load is still wanted. Its clearance goes to the first operation of the stage.
pub fn develop_stages<L, D, R, T, P, E, C, I, A, M, K, V, N, F, G>(
    file_bytes: &[u8],
    request: Request,
    one: T,
    cleared: C,
    operations: Operations<I, A, M, K, V, N, F, G>,
) -> (r: Result<(RgbaImage<T>, Orientation), DevelopError<E>>) where
    T: Copy,
    P: Copy,
    C: Fn(Progress<'_, D, R, T>) -> Option<L>,
    I: FnOnce(L, &[u8]) -> Result<D, E>,
    A: FnOnce(L, &D, &[u8]) -> Result<(R, Photometric), E>,
    M: FnOnce(&D, &[u8]) -> Result<Option<u16>, E>,
    K: FnOnce(R, &[u8]) -> (R, SensorColor<T>),
    V: FnOnce(L, R, DevelopPlan) -> Result<Developed<T>, E>,
    N: FnOnce(L, ToneInputs<T>) -> P,
    F: Fn(P, T) -> T,
    G: Fn(P, [T; 3]) -> [T; 3],

    requires
        forall|progress: Progress<'_, D, R, T>| call_requires(cleared, (progress,)),
        are_callable(file_bytes, operations),
    ensures
        is_outcome(
            file_bytes,
            request,
            one,
            |progress: Progress<'_, D, R, T>, answer: Option<L>|
                call_ensures(cleared, (progress,), answer),
            operations,
            r,
        ),
{
    let ghost answers = |progress: Progress<'_, D, R, T>, answer: Option<L>|
        call_ensures(cleared, (progress,), answer);
    let ghost all = operations;
    let Operations { identify, decode, metadata, color, develop, tone, scalar, pixel } = operations;

    let go: L = match cleared(Progress::Begun) {
        Some(go) => go,
        None => {
            assert(is_stopped(file_bytes, request, one, answers, all, Stage::Identify));
            return Err(DevelopError::Cancelled);
        },
    };
    assert(answers(Progress::Begun, Some(go)));
    let decoder: D = match identify(go, file_bytes) {
        Ok(decoder) => decoder,
        Err(error) => {
            assert(is_failed(file_bytes, request, answers, all, Stage::Identify, error));
            assert(fails_by(file_bytes, request, answers, all, Stage::Develop, error));
            return Err(DevelopError::Decoder(error));
        },
    };
    assert(comes_to_identify(file_bytes, answers, all, decoder));

    let go: L = match cleared(Progress::Identified(&decoder)) {
        Some(go) => go,
        None => {
            assert(is_stopped(file_bytes, request, one, answers, all, Stage::Decode));
            return Err(DevelopError::Cancelled);
        },
    };
    let ghost go_decode = go;
    assert(answers(Progress::Identified(&decoder), Some(go_decode)));
    let (image, photometric) = match decode(go, &decoder, file_bytes) {
        Ok(decoded) => decoded,
        Err(error) => {
            assert(is_failed(file_bytes, request, answers, all, Stage::Decode, error));
            assert(fails_by(file_bytes, request, answers, all, Stage::Develop, error));
            return Err(DevelopError::Decoder(error));
        },
    };
    let exif_orientation: Option<u16> = match metadata(&decoder, file_bytes) {
        Ok(tag) => tag,
        Err(error) => {
            assert(is_failed(file_bytes, request, answers, all, Stage::Decode, error));
            assert(fails_by(file_bytes, request, answers, all, Stage::Develop, error));
            return Err(DevelopError::Decoder(error));
        },
    };
    let orientation: Orientation = orientation_from_exif(exif_orientation);
    let plan: DevelopPlan = plan_development(request, photometric);
    let (raw, description) = color(image, file_bytes);
    let inputs: ToneInputs<T> = tone_inputs(request, photometric, &description, one);
    let file: Decoded<R, T> = Decoded { raw, photometric, exif_orientation, color: description };
    let ghost decoded = file;
    proof {
        assert(call_ensures(
            decode,
            (go_decode, &decoder, file_bytes),
            Ok((image, decoded.photometric)),
        ));
        assert(call_ensures(color, (image, file_bytes), (decoded.raw, decoded.color)));
        assert(comes_to_read(file_bytes, answers, all, decoded));
    }

    let go: L = match cleared(Progress::Read(&file)) {
        Some(go) => go,
        None => {
            assert(is_stopped(file_bytes, request, one, answers, all, Stage::Develop));
            return Err(DevelopError::Cancelled);
        },
    };
    assert(answers(Progress::Read(&decoded), Some(go)));
    let ghost go_develop = go;
    let picture: Developed<T> = match develop(go, file.raw, plan) {
        Ok(developed) => developed,
        Err(error) => {
            assert(may_develop(request, all, go_develop, decoded, Err::<Developed<T>, E>(error)));
            assert(is_failed(file_bytes, request, answers, all, Stage::Develop, error));
            assert(fails_by(file_bytes, request, answers, all, Stage::Develop, error));
            return Err(DevelopError::Decoder(error));
        },
    };
    let ghost developed = picture;
    assert(may_develop(request, all, go_develop, decoded, Ok::<Developed<T>, E>(developed)));
    assert(comes_to_develop(file_bytes, request, answers, all, decoded, developed));

    let go: L = match cleared(Progress::Developed(&picture)) {
        Some(go) => go,
        None => {
            assert(is_stopped(file_bytes, request, one, answers, all, Stage::Tone));
            return Err(DevelopError::Cancelled);
        },
    };
    assert(answers(Progress::Developed(&developed), Some(go)));
    let ghost go_tone = go;
    let Developed { planes: raw_planes, width, height } = picture;
    let parameters: P = tone(go, inputs);
    let planes: Planes<T> = adjust(raw_planes, parameters, &scalar, &pixel);
    assert(may_tone(request, one, all, go_tone, decoded, developed, planes));
    assert(comes_to_tone(file_bytes, request, one, answers, all, decoded, developed, planes));
    let image_width: u32 = #[verifier::truncate] (width as u32);
    let image_height: u32 = #[verifier::truncate] (height as u32);

    let _go: L = match cleared(Progress::Toned(&planes)) {
        Some(go) => go,
        None => {
            assert(is_stopped(file_bytes, request, one, answers, all, Stage::Assemble));
            return Err(DevelopError::Cancelled);
        },
    };
    assert(answers(Progress::Toned(&planes), Some(_go)));
    match assemble(&planes, image_width, image_height, one) {
        Ok(image) => Ok((image, orientation)),
        Err(error) => Err(error),
    }
}

/// What may happen under some answers may happen where more are possible.
proof fn lemma_more_answers<'a, L, D, R, T, P, E, I, A, M, K, V, N, F, G>(
    file_bytes: &[u8],
    request: Request,
    one: T,
    answers: spec_fn(Progress<'a, D, R, T>, Option<L>) -> bool,
    wider: spec_fn(Progress<'a, D, R, T>, Option<L>) -> bool,
    operations: Operations<I, A, M, K, V, N, F, G>,
    outcome: Result<(RgbaImage<T>, Orientation), DevelopError<E>>,
) where
    I: FnOnce(L, &[u8]) -> Result<D, E>,
    A: FnOnce(L, &D, &[u8]) -> Result<(R, Photometric), E>,
    M: FnOnce(&D, &[u8]) -> Result<Option<u16>, E>,
    K: FnOnce(R, &[u8]) -> (R, SensorColor<T>),
    V: FnOnce(L, R, DevelopPlan) -> Result<Developed<T>, E>,
    N: FnOnce(L, ToneInputs<T>) -> P,
    F: Fn(P, T) -> T,
    G: Fn(P, [T; 3]) -> [T; 3],

    requires
        is_outcome(file_bytes, request, one, answers, operations, outcome),
        forall|progress: Progress<'a, D, R, T>, answer: Option<L>| #[trigger]
            answers(progress, answer) ==> wider(progress, answer),
    ensures
        is_outcome(file_bytes, request, one, wider, operations, outcome),
{
    assert forall|decoder: D| #[trigger]
        comes_to_identify(file_bytes, answers, operations, decoder) implies comes_to_identify(
        file_bytes,
        wider,
        operations,
        decoder,
    ) by {}
    assert forall|decoded: Decoded<R, T>| #[trigger]
        comes_to_read(file_bytes, answers, operations, decoded) implies comes_to_read(
        file_bytes,
        wider,
        operations,
        decoded,
    ) by {}
    assert forall|decoded: Decoded<R, T>, developed: Developed<T>| #[trigger]
        comes_to_develop(
            file_bytes,
            request,
            answers,
            operations,
            decoded,
            developed,
        ) implies comes_to_develop(
        file_bytes,
        request,
        wider,
        operations,
        decoded,
        developed,
    ) by {}
    assert forall|decoded: Decoded<R, T>, developed: Developed<T>, planes: Planes<T>| #[trigger]
        comes_to_tone(
            file_bytes,
            request,
            one,
            answers,
            operations,
            decoded,
            developed,
            planes,
        ) implies comes_to_tone(
        file_bytes,
        request,
        one,
        wider,
        operations,
        decoded,
        developed,
        planes,
    ) by {}
    assert forall|stage: Stage| #[trigger]
        is_stopped(file_bytes, request, one, answers, operations, stage) implies is_stopped(
        file_bytes,
        request,
        one,
        wider,
        operations,
        stage,
    ) by {}
    assert forall|stage: Stage, error: E| #[trigger]
        is_failed(file_bytes, request, answers, operations, stage, error) implies is_failed(
        file_bytes,
        request,
        wider,
        operations,
        stage,
        error,
    ) by {}
}

fn call_clearance<S, F: Fn(&Option<(Arc<AtomicUsize>, usize)>, S) -> Option<Clearance>>(
    ask: F,
    token: &Option<(Arc<AtomicUsize>, usize)>,
    at_hand: S,
) -> (r: Option<Clearance>)
    requires
        call_requires(ask, (token, at_hand)),
    ensures
        call_ensures(ask, (token, at_hand), r),
{
    ask(token, at_hand)
}

/// How the load that holds `token` may be answered when it asks for a clearance.
pub open spec fn answers_of<'a, D, R, T>(token: Option<(Arc<AtomicUsize>, usize)>) -> spec_fn(
    Progress<'a, D, R, T>,
    Option<Clearance>,
) -> bool {
    |progress: Progress<'a, D, R, T>, answer: Option<Clearance>|
        call_ensures(clearance::<Progress<'a, D, R, T>>, (&token, progress), answer)
}

/// The load that holds `token` is superseded for sure by the time it asks right before
/// `stage`: a reading of the counter with what the stage before it gave at hand, whatever
/// that is, finds another generation.
pub open spec fn is_superseded_before<D, R, T>(
    token: Option<(Arc<AtomicUsize>, usize)>,
    stage: Stage,
) -> bool {
    token matches Some((tracker, generation)) && forall|
        progress: Progress<'_, D, R, T>,
        current: usize,
    |
        progress.next() == stage && #[trigger] may_hold(*tracker, progress, current) ==> current
            != generation
}

/// The load that holds `token` is not superseded yet when it asks right before `last`, or
/// has none: the readings of the counter up to there find the load's own generation.
pub open spec fn is_current_until<D, R, T>(
    token: Option<(Arc<AtomicUsize>, usize)>,
    last: Stage,
) -> bool {
    token matches Some((tracker, generation)) ==> forall|
        progress: Progress<'_, D, R, T>,
        current: usize,
    |
        progress.next().rank() <= last.rank() && #[trigger] may_hold(*tracker, progress, current)
            ==> current == generation
}

/// What the outcome of a load owes to its token. A load that is superseded by the time a
/// stage is to begin never begins that stage: it gives no image, and ends as cancelled
/// unless an operation of an earlier stage failed first, which is then the error. One that is
/// superseded only after the stage had begun that it could not get past ends with the error
/// of an operation. While the counter stays put, the load ends as cancelled if and only if
/// the counter holds another generation.
pub proof fn lemma_token<'a, D, R, T, P, E, I, A, M, K, V, N, F, G>(
    file_bytes: &[u8],
    request: Request,
    one: T,
    token: Option<(Arc<AtomicUsize>, usize)>,
    operations: Operations<I, A, M, K, V, N, F, G>,
    outcome: Result<(RgbaImage<T>, Orientation), DevelopError<E>>,
) where
    I: FnOnce(Clearance, &[u8]) -> Result<D, E>,
    A: FnOnce(Clearance, &D, &[u8]) -> Result<(R, Photometric), E>,
    M: FnOnce(&D, &[u8]) -> Result<Option<u16>, E>,
    K: FnOnce(R, &[u8]) -> (R, SensorColor<T>),
    V: FnOnce(Clearance, R, DevelopPlan) -> Result<Developed<T>, E>,
    N: FnOnce(Clearance, ToneInputs<T>) -> P,
    F: Fn(P, T) -> T,
    G: Fn(P, [T; 3]) -> [T; 3],

    requires
        is_outcome(file_bytes, request, one, answers_of(token), operations, outcome),
    ensures
        forall|stage: Stage| #[trigger]
            is_superseded_before::<D, R, T>(token, stage) ==> outcome is Err && ends_before(
                file_bytes,
                request,
                one,
                answers_of(token),
                operations,
                stage,
                outcome->Err_0,
            ),
        forall|last: Stage| #[trigger]
            is_current_until::<D, R, T>(token, last) && last.rank() <= Stage::Develop.rank()
                && !passes(file_bytes, request, one, answers_of(token), operations, last)
                ==> outcome is Err && outcome->Err_0 is Decoder && fails_by(
                file_bytes,
                request,
                answers_of(token),
                operations,
                last,
                outcome->Err_0->Decoder_0,
            ),
        forall|value: usize| #[trigger]
            holds_throughout::<Progress<'a, D, R, T>>(token, value) ==> (outcome is Err
                && outcome->Err_0 is Cancelled <==> token is Some && (token->0).1 != value),
{
    let answers = answers_of(token);
    assert forall|stage: Stage| #[trigger]
        is_superseded_before::<D, R, T>(token, stage) implies outcome is Err && ends_before(
        file_bytes,
        request,
        one,
        answers,
        operations,
        stage,
        outcome->Err_0,
    ) by {
        assert(is_surely_cancelled(answers, stage));
        lemma_surely_cancelled(file_bytes, request, one, answers, stage, operations, outcome);
    }
    assert forall|last: Stage| #[trigger]
        is_current_until::<D, R, T>(token, last) && last.rank() <= Stage::Develop.rank()
            && !passes(file_bytes, request, one, answers, operations, last) implies outcome is Err
        && outcome->Err_0 is Decoder && fails_by(
        file_bytes,
        request,
        answers,
        operations,
        last,
        outcome->Err_0->Decoder_0,
    ) by {
        assert(is_surely_wanted(answers, last));
        lemma_failed_first(file_bytes, request, one, answers, last, operations, outcome);
    }
    assert forall|value: usize| #[trigger]
        holds_throughout::<Progress<'a, D, R, T>>(token, value) implies (outcome is Err
        && outcome->Err_0 is Cancelled <==> token is Some && (token->0).1 != value) by {
        if token is Some && (token->0).1 != value {
            assert(is_superseded_before::<D, R, T>(token, Stage::Identify));
        } else {
            assert(is_surely_wanted(answers, Stage::Assemble));
            lemma_never_cancelled(file_bytes, request, one, answers, operations, outcome);
        }
    }
}

/// A load that is superseded while it is developed gives no image. Where a reading of the
/// counter with the developed picture at hand finds another generation, the load ends as
/// cancelled, unless reading the file or developing it failed first: then it ends with that
/// error.
pub proof fn lemma_superseded_while_developed<'a, D, R, T, P, E, I, A, M, K, V, N, F, G>(
    file_bytes: &[u8],
    request: Request,
    one: T,
    tracker: Arc<AtomicUsize>,
    generation: usize,
    operations: Operations<I, A, M, K, V, N, F, G>,
    outcome: Result<(RgbaImage<T>, Orientation), DevelopError<E>>,
) where
    I: FnOnce(Clearance, &[u8]) -> Result<D, E>,
    A: FnOnce(Clearance, &D, &[u8]) -> Result<(R, Photometric), E>,
    M: FnOnce(&D, &[u8]) -> Result<Option<u16>, E>,
    K: FnOnce(R, &[u8]) -> (R, SensorColor<T>),
    V: FnOnce(Clearance, R, DevelopPlan) -> Result<Developed<T>, E>,
    N: FnOnce(Clearance, ToneInputs<T>) -> P,
    F: Fn(P, T) -> T,
    G: Fn(P, [T; 3]) -> [T; 3],

    requires
        is_outcome(
            file_bytes,
            request,
            one,
            answers_of(Some((tracker, generation))),
            operations,
            outcome,
        ),
        forall|decoded: Decoded<R, T>, developed: Developed<T>, current: usize|
            #[trigger] comes_to_develop(
                file_bytes,
                request,
                answers_of(Some((tracker, generation))),
                operations,
                decoded,
                developed,
            ) && #[trigger] may_hold(
                *tracker,
                Progress::<'a, D, R, T>::Developed(&developed),
                current,
            ) ==> current != generation,
    ensures
        outcome is Err,
        outcome->Err_0 is Cancelled || (outcome->Err_0 is Decoder && fails_by(
            file_bytes,
            request,
            answers_of(Some((tracker, generation))),
            operations,
            Stage::Develop,
            outcome->Err_0->Decoder_0,
        )),
{
}

/// Develops the raw file `file_bytes` unless a newer load than the one that holds `token`
/// has been started: the counter is read right before every stage, with what the stage
/// before it gave at hand. The image is not turned yet.
pub fn develop_internal<D, R, T, P, E, I, A, M, K, V, N, F, G>(
    file_bytes: &[u8],
    request: Request,
    token: &Option<(Arc<AtomicUsize>, usize)>,
    one: T,
    operations: Operations<I, A, M, K, V, N, F, G>,
) -> (r: Result<(RgbaImage<T>, Orientation), DevelopError<E>>) where
    T: Copy,
    P: Copy,
    I: FnOnce(Clearance, &[u8]) -> Result<D, E>,
    A: FnOnce(Clearance, &D, &[u8]) -> Result<(R, Photometric), E>,
    M: FnOnce(&D, &[u8]) -> Result<Option<u16>, E>,
    K: FnOnce(R, &[u8]) -> (R, SensorColor<T>),
    V: FnOnce(Clearance, R, DevelopPlan) -> Result<Developed<T>, E>,
    N: FnOnce(Clearance, ToneInputs<T>) -> P,
    F: Fn(P, T) -> T,
    G: Fn(P, [T; 3]) -> [T; 3],

    requires
        are_callable(file_bytes, operations),
    ensures
        is_outcome(file_bytes, request, one, answers_of(*token), operations, r),
        (forall|answer: bool| #[trigger]
            may_answer(*token, Progress::<'_, D, R, T>::Begun, answer) ==> answer) ==> r is Err
            && r->Err_0 is Cancelled,
        forall|stage: Stage| #[trigger]
            is_superseded_before::<D, R, T>(*token, stage) ==> r is Err && ends_before(
                file_bytes,
                request,
                one,
                answers_of(*token),
                operations,
                stage,
                r->Err_0,
            ),
        forall|value: usize| #[trigger]
            holds_throughout::<Progress<'_, D, R, T>>(*token, value) ==> (r is Err
                && r->Err_0 is Cancelled <==> token is Some && (token->0).1 != value),
{
    let cleared = |progress: Progress<'_, D, R, T>| -> (answer: Option<Clearance>)
        ensures
            call_ensures(clearance::<Progress<'_, D, R, T>>, (token, progress), answer),
        { call_clearance(clearance::<Progress<'_, D, R, T>>, token, progress) };
    let ghost asked = |progress: Progress<'_, D, R, T>, answer: Option<Clearance>|
        call_ensures(cleared, (progress,), answer);
    let ghost all = operations;
    let r = develop_stages(file_bytes, request, one, cleared, operations);
    proof {
        lemma_more_answers(file_bytes, request, one, asked, answers_of(*token), all, r);
        lemma_token(file_bytes, request, one, *token, all, r);
        if forall|answer: bool| #[trigger]
            may_answer(*token, Progress::<'_, D, R, T>::Begun, answer) ==> answer {
            assert(is_surely_cancelled(answers_of::<D, R, T>(*token), Stage::Identify));
            lemma_surely_cancelled(
                file_bytes,
                request,
                one,
                answers_of(*token),
                Stage::Identify,
                all,
                r,
            );
        }
    }
    r
}

/// The request of a caller who names the treatment of samples and colours.
pub open spec fn request_of(fast_demosaic: bool, linear_mode: Seq<char>) -> Request {
    Request { fast_demosaic, mode: mode_of_name(linear_mode) }
}

/// Develops the raw file `file_bytes` into an upright picture: `develop_internal`, then
/// `turn`, which brings the image into the orientation that the file asks for. `linear_mode`
/// names the treatment of samples and colours.
pub fn develop_raw_image<D, R, T, P, E, W, I, A, M, K, V, N, F, G, O>(
    file_bytes: &[u8],
    fast_demosaic: bool,
    linear_mode: String,
    cancel_token: Option<(Arc<AtomicUsize>, usize)>,
    one: T,
    operations: Operations<I, A, M, K, V, N, F, G>,
    turn: O,
) -> (r: Result<W, DevelopError<E>>) where
    T: Copy,
    P: Copy,
    I: FnOnce(Clearance, &[u8]) -> Result<D, E>,
    A: FnOnce(Clearance, &D, &[u8]) -> Result<(R, Photometric), E>,
    M: FnOnce(&D, &[u8]) -> Result<Option<u16>, E>,
    K: FnOnce(R, &[u8]) -> (R, SensorColor<T>),
    V: FnOnce(Clearance, R, DevelopPlan) -> Result<Developed<T>, E>,
    N: FnOnce(Clearance, ToneInputs<T>) -> P,
    F: Fn(P, T) -> T,
    G: Fn(P, [T; 3]) -> [T; 3],
    O: FnOnce(RgbaImage<T>, Orientation) -> W,

    requires
        are_callable(file_bytes, operations),
        forall|image: RgbaImage<T>, orientation: Orientation|
            call_requires(turn, (image, orientation)),
    ensures
        match r {
            Ok(picture) => exists|image: RgbaImage<T>, orientation: Orientation|
                call_ensures(turn, (image, orientation), picture) && #[trigger] is_outcome(
                    file_bytes,
                    request_of(fast_demosaic, linear_mode@),
                    one,
                    answers_of(cancel_token),
                    operations,
                    Ok((image, orientation)),
                ),
            Err(error) => is_outcome(
                file_bytes,
                request_of(fast_demosaic, linear_mode@),
                one,
                answers_of(cancel_token),
                operations,
                Err(error),
            ),
        },
        (forall|answer: bool| #[trigger]
            may_answer(cancel_token, Progress::<'_, D, R, T>::Begun, answer) ==> answer)
            ==> r is Err && r->Err_0 is Cancelled,
        forall|stage: Stage| #[trigger]
            is_superseded_before::<D, R, T>(cancel_token, stage) ==> r is Err && ends_before(
                file_bytes,
                request_of(fast_demosaic, linear_mode@),
                one,
                answers_of(cancel_token),
                operations,
                stage,
                r->Err_0,
            ),
        forall|value: usize| #[trigger]
            holds_throughout::<Progress<'_, D, R, T>>(cancel_token, value) ==> (r is Err
                && r->Err_0 is Cancelled <==> cancel_token is Some && (cancel_token->0).1
                != value),
{
    let request = Request { fast_demosaic, mode: LinearMode::from_name(linear_mode.as_str()) };
    assert(request == request_of(fast_demosaic, linear_mode@));
    match develop_internal(file_bytes, request, &cancel_token, one, operations) {
        Ok((image, orientation)) => Ok(turn(image, orientation)),
        Err(error) => Err(error),
    }
}

/// Any file that is not of finished pixels is demosaiced, right after it is rescaled, and fast
/// exactly if that was asked for: where the developer succeeds on other plans only, a load of
/// such a file gives no picture.
pub proof fn lemma_mosaic_is_demosaiced<'a, L, D, R, T, P, E, I, A, M, K, V, N, F, G>(
    file_bytes: &[u8],
    request: Request,
    one: T,
    answers: spec_fn(Progress<'a, D, R, T>, Option<L>) -> bool,
    operations: Operations<I, A, M, K, V, N, F, G>,
    outcome: Result<(RgbaImage<T>, Orientation), DevelopError<E>>,
) where
    I: FnOnce(L, &[u8]) -> Result<D, E>,
    A: FnOnce(L, &D, &[u8]) -> Result<(R, Photometric), E>,
    M: FnOnce(&D, &[u8]) -> Result<Option<u16>, E>,
    K: FnOnce(R, &[u8]) -> (R, SensorColor<T>),
    V: FnOnce(L, R, DevelopPlan) -> Result<Developed<T>, E>,
    N: FnOnce(L, ToneInputs<T>) -> P,
    F: Fn(P, T) -> T,
    G: Fn(P, [T; 3]) -> [T; 3],

    requires
        is_outcome(file_bytes, request, one, answers, operations, outcome),
        forall|go: L, decoder: &D, image: R, photometric: Photometric| #[trigger]
            call_ensures(
                operations.decode,
                (go, decoder, file_bytes),
                Ok::<(R, Photometric), E>((image, photometric)),
            ) ==> photometric != Photometric::LinearRaw,
        forall|go: L, raw: R, plan: DevelopPlan, developed: Developed<T>| #[trigger]
            call_ensures(operations.develop, (go, raw, plan), Ok::<Developed<T>, E>(developed))
                ==> plan.steps@.len() < 2 || plan.steps@[1] != ProcessingStep::Demosaic || (
            plan.demosaic == DemosaicAlgorithm::Speed) != request.fast_demosaic,
    ensures
        outcome is Err,
        !(outcome->Err_0 is UnsupportedFormat),
{
    let (t, last) = lemma_story(file_bytes, request, one, answers, operations, outcome);
    if last is Assemble {
        lemma_plan_holds(t.plan, request, t.decoded.photometric);
    }
}

/// Finished pixels are never demosaiced, and no file gets the developer's own calibration or
/// curve: where the developer succeeds on other plans only, a load of finished pixels gives no
/// picture.
pub proof fn lemma_finished_pixels_are_not_demosaiced<'a, L, D, R, T, P, E, I, A, M, K, V, N, F, G>(
    file_bytes: &[u8],
    request: Request,
    one: T,
    answers: spec_fn(Progress<'a, D, R, T>, Option<L>) -> bool,
    operations: Operations<I, A, M, K, V, N, F, G>,
    outcome: Result<(RgbaImage<T>, Orientation), DevelopError<E>>,
) where
    I: FnOnce(L, &[u8]) -> Result<D, E>,
    A: FnOnce(L, &D, &[u8]) -> Result<(R, Photometric), E>,
    M: FnOnce(&D, &[u8]) -> Result<Option<u16>, E>,
    K: FnOnce(R, &[u8]) -> (R, SensorColor<T>),
    V: FnOnce(L, R, DevelopPlan) -> Result<Developed<T>, E>,
    N: FnOnce(L, ToneInputs<T>) -> P,
    F: Fn(P, T) -> T,
    G: Fn(P, [T; 3]) -> [T; 3],

    requires
        is_outcome(file_bytes, request, one, answers, operations, outcome),
        forall|go: L, decoder: &D, image: R, photometric: Photometric| #[trigger]
            call_ensures(
                operations.decode,
                (go, decoder, file_bytes),
                Ok::<(R, Photometric), E>((image, photometric)),
            ) ==> photometric == Photometric::LinearRaw,
        forall|go: L, raw: R, plan: DevelopPlan, developed: Developed<T>| #[trigger]
            call_ensures(operations.develop, (go, raw, plan), Ok::<Developed<T>, E>(developed))
                ==> plan.steps@ != seq![
                ProcessingStep::Rescale,
                ProcessingStep::CropActiveArea,
                ProcessingStep::WhiteBalance,
                ProcessingStep::CropDefault,
            ] || plan.demosaic == DemosaicAlgorithm::Speed,
    ensures
        outcome is Err,
        !(outcome->Err_0 is UnsupportedFormat),
{
    let (t, last) = lemma_story(file_bytes, request, one, answers, operations, outcome);
    if last is Assemble {
        lemma_plan_holds(t.plan, request, t.decoded.photometric);
    }
}

/// The outcomes of `develop_stages` are those whose story `lemma_story` tells, with the answers
/// that `cleared` gives.
pub proof fn lemma_stages_give<L, D, R, T, P, E, C, I, A, M, K, V, N, F, G>(
    file_bytes: &[u8],
    request: Request,
    one: T,
    cleared: C,
    operations: Operations<I, A, M, K, V, N, F, G>,
    r: Result<(RgbaImage<T>, Orientation), DevelopError<E>>,
) where
    T: Copy,
    P: Copy,
    C: Fn(Progress<'_, D, R, T>) -> Option<L>,
    I: FnOnce(L, &[u8]) -> Result<D, E>,
    A: FnOnce(L, &D, &[u8]) -> Result<(R, Photometric), E>,
    M: FnOnce(&D, &[u8]) -> Result<Option<u16>, E>,
    K: FnOnce(R, &[u8]) -> (R, SensorColor<T>),
    V: FnOnce(L, R, DevelopPlan) -> Result<Developed<T>, E>,
    N: FnOnce(L, ToneInputs<T>) -> P,
    F: Fn(P, T) -> T,
    G: Fn(P, [T; 3]) -> [T; 3],

    requires
        call_ensures(
            develop_stages::<L, D, R, T, P, E, C, I, A, M, K, V, N, F, G>,
            (file_bytes, request, one, cleared, operations),
            r,
        ),
    ensures
        is_outcome(
            file_bytes,
            request,
            one,
            |progress: Progress<'_, D, R, T>, answer: Option<L>|
                call_ensures(cleared, (progress,), answer),
            operations,
            r,
        ),
{
}

/// The outcomes of `develop_internal` are those whose story `lemma_story` tells, with the
/// answers that the token gives.
pub proof fn lemma_internal_gives<D, R, T, P, E, I, A, M, K, V, N, F, G>(
    file_bytes: &[u8],
    request: Request,
    token: &Option<(Arc<AtomicUsize>, usize)>,
    one: T,
    operations: Operations<I, A, M, K, V, N, F, G>,
    r: Result<(RgbaImage<T>, Orientation), DevelopError<E>>,
) where
    T: Copy,
    P: Copy,
    I: FnOnce(Clearance, &[u8]) -> Result<D, E>,
    A: FnOnce(Clearance, &D, &[u8]) -> Result<(R, Photometric), E>,
    M: FnOnce(&D, &[u8]) -> Result<Option<u16>, E>,
    K: FnOnce(R, &[u8]) -> (R, SensorColor<T>),
    V: FnOnce(Clearance, R, DevelopPlan) -> Result<Developed<T>, E>,
    N: FnOnce(Clearance, ToneInputs<T>) -> P,
    F: Fn(P, T) -> T,
    G: Fn(P, [T; 3]) -> [T; 3],

    requires
        call_ensures(
            develop_internal::<D, R, T, P, E, I, A, M, K, V, N, F, G>,
            (file_bytes, request, token, one, operations),
            r,
        ),
    ensures
        is_outcome(
            file_bytes,
            request,
            one,
            |progress: Progress<'_, D, R, T>, answer: Option<Clearance>|
                call_ensures(clearance::<Progress<'_, D, R, T>>, (token, progress), answer),
            operations,
            r,
        ),
{
    let answers = |progress: Progress<'_, D, R, T>, answer: Option<Clearance>|
        call_ensures(clearance::<Progress<'_, D, R, T>>, (token, progress), answer);
    assert(answers_of::<D, R, T>(*token) =~= answers);
}

/// What `develop_raw_image` gives is what `turn` makes of an image and its orientation whose
/// story `lemma_story` tells, or the error of such a load. The speed asked for and the
/// treatment that is named reach it unchanged.
pub proof fn lemma_raw_image_gives<D, R, T, P, E, W, I, A, M, K, V, N, F, G, O>(
    file_bytes: &[u8],
    fast_demosaic: bool,
    linear_mode: String,
    cancel_token: Option<(Arc<AtomicUsize>, usize)>,
    one: T,
    operations: Operations<I, A, M, K, V, N, F, G>,
    turn: O,
    r: Result<W, DevelopError<E>>,
) -> (outcome: Result<(RgbaImage<T>, Orientation), DevelopError<E>>) where
    T: Copy,
    P: Copy,
    I: FnOnce(Clearance, &[u8]) -> Result<D, E>,
    A: FnOnce(Clearance, &D, &[u8]) -> Result<(R, Photometric), E>,
    M: FnOnce(&D, &[u8]) -> Result<Option<u16>, E>,
    K: FnOnce(R, &[u8]) -> (R, SensorColor<T>),
    V: FnOnce(Clearance, R, DevelopPlan) -> Result<Developed<T>, E>,
    N: FnOnce(Clearance, ToneInputs<T>) -> P,
    F: Fn(P, T) -> T,
    G: Fn(P, [T; 3]) -> [T; 3],
    O: FnOnce(RgbaImage<T>, Orientation) -> W,

    requires
        call_ensures(
            develop_raw_image::<D, R, T, P, E, W, I, A, M, K, V, N, F, G, O>,
            (file_bytes, fast_demosaic, linear_mode, cancel_token, one, operations, turn),
            r,
        ),
    ensures
        is_outcome(
            file_bytes,
            (Request {
                fast_demosaic,
                mode: LinearMode {
                    apply_ungamma: linear_mode@ == "gamma"@ || linear_mode@ == "gamma_skip_calib"@,
                    apply_calibration: linear_mode@ != "skip_calib"@ && linear_mode@
                        != "gamma_skip_calib"@,
                },
            }),
            one,
            |progress: Progress<'_, D, R, T>, answer: Option<Clearance>|
                call_ensures(
                    clearance::<Progress<'_, D, R, T>>,
                    (&cancel_token, progress),
                    answer,
                ),
            operations,
            outcome,
        ),
        r is Ok <==> outcome is Ok,
        outcome matches Ok((image, orientation)) ==> call_ensures(
            turn,
            (image, orientation),
            r->Ok_0,
        ),
        outcome matches Err(error) ==> r == Err::<W, DevelopError<E>>(error),
{
    let request = request_of(fast_demosaic, linear_mode@);
    let answers = |progress: Progress<'_, D, R, T>, answer: Option<Clearance>|
        call_ensures(clearance::<Progress<'_, D, R, T>>, (&cancel_token, progress), answer);
    assert(answers_of::<D, R, T>(cancel_token) =~= answers);
    match r {
        Ok(picture) => {
            let (image, orientation) = choose|image: RgbaImage<T>, orientation: Orientation|
                call_ensures(turn, (image, orientation), picture) && #[trigger] is_outcome(
                    file_bytes,
                    request,
                    one,
                    answers_of(cancel_token),
                    operations,
                    Ok((image, orientation)),
                );
            Ok((image, orientation))
        },
        Err(error) => Err(error),
    }
}

/// `tone_inputs` tells the tone stage what `lemma_tone_inputs_hold` and `lemma_tone_matrix`
/// say.
pub proof fn lemma_tone_inputs_gives<T: Copy>(
    request: Request,
    photometric: Photometric,
    color: &SensorColor<T>,
    one: T,
    r: ToneInputs<T>,
)
    requires
        call_ensures(tone_inputs::<T>, (request, photometric, color, one), r),
    ensures
        is_tone_inputs(r, request, photometric, *color, one),
{
}

} // verus!
