//! What the developer and the tone stage are to do with a file.
use crate::decode::{all_steps, default_steps, is_linear_raw_format, Photometric, ProcessingStep};
use crate::mode::LinearMode;
use vstd::prelude::*;

verus! {

/// What the caller asked for.
#[derive(Clone, Copy, Debug, PartialEq, Eq, Structural)]
pub struct Request {
    /// Prefer a quick demosaic over a good one.
    pub fast_demosaic: bool,
    pub mode: LinearMode,
}

/// How to turn a mosaic into pixels.
#[derive(Clone, Copy, Debug, PartialEq, Eq, Structural)]
pub enum DemosaicAlgorithm {
    /// The developer's own choice.
    Quality,
    Speed,
}

/// The largest sample that may leave the tone stage.
#[derive(Clone, Copy, Debug, PartialEq, Eq, Structural)]
pub enum ClampLimit {
    /// The sensor's white level.
    White,
    /// Room above the white level for reconstructed highlights.
    Headroom,
}

/// What the developer is to do.
#[derive(Debug, PartialEq, Eq)]
pub struct DevelopPlan {
    pub steps: Vec<ProcessingStep>,
    pub demosaic: DemosaicAlgorithm,
}

/// Whether a step stays in the plan. The sRGB curve and the calibration never do: the
/// clip test needs linear samples from before white balance. Finished pixels are not
/// demosaiced.
pub open spec fn keeps_step(linear: bool, step: ProcessingStep) -> bool {
    match step {
        ProcessingStep::SRgb => false,
        ProcessingStep::Calibrate => false,
        ProcessingStep::Demosaic => !linear,
        _ => true,
    }
}

pub open spec fn steps_of(linear: bool) -> Seq<ProcessingStep> {
    all_steps().filter(|step: ProcessingStep| keeps_step(linear, step))
}

pub open spec fn demosaic_of(linear: bool, fast: bool) -> DemosaicAlgorithm {
    if !linear && fast {
        DemosaicAlgorithm::Speed
    } else {
        DemosaicAlgorithm::Quality
    }
}

pub open spec fn clamp_of(fast: bool) -> ClampLimit {
    if fast {
        ClampLimit::White
    } else {
        ClampLimit::Headroom
    }
}

/// The plan for a file of the given photometric interpretation.
pub open spec fn is_plan(plan: DevelopPlan, request: Request, photometric: Photometric) -> bool {
    let linear = photometric == Photometric::LinearRaw;
    &&& plan.steps@ == steps_of(linear)
    &&& plan.demosaic == demosaic_of(linear, request.fast_demosaic)
}

/// Whether the sRGB curve is to be undone before anything else.
pub open spec fn ungamma_of(request: Request, photometric: Photometric) -> bool {
    photometric == Photometric::LinearRaw && request.mode.apply_ungamma
}

fn keep_step(linear: bool, step: ProcessingStep) -> (r: bool)
    ensures
        r == keeps_step(linear, step),
{
    match step {
        ProcessingStep::SRgb => false,
        ProcessingStep::Calibrate => false,
        ProcessingStep::Demosaic => !linear,
        _ => true,
    }
}

/// The steps that `keeps_step` leaves, in their order.
fn retain_steps(steps: &Vec<ProcessingStep>, linear: bool) -> (r: Vec<ProcessingStep>)
    ensures
        r@ == steps@.filter(|step: ProcessingStep| keeps_step(linear, step)),
{
    let ghost keep = |step: ProcessingStep| keeps_step(linear, step);
    let mut kept: Vec<ProcessingStep> = Vec::new();
    let mut i: usize = 0;
    proof {
        assert(steps@.take(0) =~= Seq::<ProcessingStep>::empty());
        reveal(Seq::filter);
    }
    while i < steps.len()
        invariant
            i <= steps@.len(),
            keep == (|step: ProcessingStep| keeps_step(linear, step)),
            kept@ == steps@.take(i as int).filter(keep),
        decreases steps.len() - i,
    {
        proof {
            reveal(Seq::filter);
            assert(steps@.take(i + 1).drop_last() =~= steps@.take(i as int));
            assert(steps@.take(i + 1).last() == steps@[i as int]);
        }
        if keep_step(linear, steps[i]) {
            kept.push(steps[i]);
        }
        i = i + 1;
    }
    assert(steps@.take(i as int) =~= steps@);
    kept
}

/// What the developer is to do with a file of the given photometric interpretation.
pub fn plan_development(request: Request, photometric: Photometric) -> (r: DevelopPlan)
    ensures
        is_plan(r, request, photometric),
{
    let linear: bool = is_linear_raw_format(photometric);
    let all: Vec<ProcessingStep> = default_steps();
    let demosaic = if !linear && request.fast_demosaic {
        DemosaicAlgorithm::Speed
    } else {
        DemosaicAlgorithm::Quality
    };
    DevelopPlan { steps: retain_steps(&all, linear), demosaic }
}

/// The largest sample that may leave the tone stage.
pub fn clamp_limit(request: Request) -> (r: ClampLimit)
    ensures
        r == clamp_of(request.fast_demosaic),
{
    if request.fast_demosaic {
        ClampLimit::White
    } else {
        ClampLimit::Headroom
    }
}

/// Whether the sRGB curve is to be undone before anything else.
pub fn undo_gamma(request: Request, photometric: Photometric) -> (r: bool)
    ensures
        r == ungamma_of(request, photometric),
{
    is_linear_raw_format(photometric) && request.mode.apply_ungamma
}

/// The steps that are left, written out.
pub proof fn lemma_steps(linear: bool)
    ensures
        steps_of(linear) == (if linear {
            seq![
                ProcessingStep::Rescale,
                ProcessingStep::CropActiveArea,
                ProcessingStep::WhiteBalance,
                ProcessingStep::CropDefault,
            ]
        } else {
            seq![
                ProcessingStep::Rescale,
                ProcessingStep::Demosaic,
                ProcessingStep::CropActiveArea,
                ProcessingStep::WhiteBalance,
                ProcessingStep::CropDefault,
            ]
        }),
{
    reveal(Seq::filter);
    let keep = |step: ProcessingStep| keeps_step(linear, step);
    let s7 = all_steps();
    let s6 = s7.drop_last();
    let s5 = s6.drop_last();
    let s4 = s5.drop_last();
    let s3 = s4.drop_last();
    let s2 = s3.drop_last();
    let s1 = s2.drop_last();
    let s0 = s1.drop_last();
    assert(s0.filter(keep) =~= Seq::<ProcessingStep>::empty());
    assert(s1.filter(keep) =~= seq![ProcessingStep::Rescale]);
    assert(s2.filter(keep) == if linear {
        s1.filter(keep)
    } else {
        s1.filter(keep).push(ProcessingStep::Demosaic)
    });
    assert(s3.filter(keep) == s2.filter(keep).push(ProcessingStep::CropActiveArea));
    assert(s4.filter(keep) == s3.filter(keep).push(ProcessingStep::WhiteBalance));
    assert(s5.filter(keep) == s4.filter(keep));
    assert(s6.filter(keep) == s5.filter(keep).push(ProcessingStep::CropDefault));
    assert(s7.filter(keep) == s6.filter(keep));
}

/// A file of finished pixels is developed the same way whatever was asked for, and how a
/// mosaic is developed depends on the wanted speed alone.
pub proof fn lemma_plan_depends_on(plan: DevelopPlan, a: Request, b: Request, photometric: Photometric)
    requires
        photometric == Photometric::LinearRaw || a.fast_demosaic == b.fast_demosaic,
    ensures
        is_plan(plan, a, photometric) <==> is_plan(plan, b, photometric),
{
}

/// Speed changes how a mosaic is turned into pixels, never which steps are taken.
pub proof fn lemma_steps_ignore_request(
    p: DevelopPlan,
    q: DevelopPlan,
    a: Request,
    b: Request,
    photometric: Photometric,
)
    requires
        is_plan(p, a, photometric),
        is_plan(q, b, photometric),
    ensures
        p.steps@ == q.steps@,
{
}

/// What the plan for a file holds. Every file is rescaled, cropped, white balanced and cropped
/// again. A file that is not of finished pixels is demosaiced right after it is rescaled,
/// whatever the wanted speed, and with speed before quality exactly if that was asked for.
pub proof fn lemma_plan_holds(plan: DevelopPlan, request: Request, photometric: Photometric)
    requires
        is_plan(plan, request, photometric) || call_ensures(
            plan_development,
            (request, photometric),
            plan,
        ),
    ensures
        photometric == Photometric::LinearRaw ==> plan.steps@ == seq![
            ProcessingStep::Rescale,
            ProcessingStep::CropActiveArea,
            ProcessingStep::WhiteBalance,
            ProcessingStep::CropDefault,
        ],
        photometric != Photometric::LinearRaw ==> plan.steps@ == seq![
            ProcessingStep::Rescale,
            ProcessingStep::Demosaic,
            ProcessingStep::CropActiveArea,
            ProcessingStep::WhiteBalance,
            ProcessingStep::CropDefault,
        ],
        plan.demosaic == DemosaicAlgorithm::Speed <==> request.fast_demosaic && photometric
            != Photometric::LinearRaw,
{
    lemma_steps(photometric == Photometric::LinearRaw);
}

/// A fast load has no room above white and any other has, and the sRGB curve is undone
/// exactly for finished pixels of a caller who asks for it.
pub proof fn lemma_limit_and_curve(
    request: Request,
    photometric: Photometric,
    limit: ClampLimit,
    ungamma: bool,
)
    requires
        call_ensures(clamp_limit, (request,), limit),
        call_ensures(undo_gamma, (request, photometric), ungamma),
    ensures
        limit == ClampLimit::White <==> request.fast_demosaic,
        ungamma <==> photometric == Photometric::LinearRaw && request.mode.apply_ungamma,
{
}

} // verus!
