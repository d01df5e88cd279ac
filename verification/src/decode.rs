//! What raw files and their developer, `rawler`, know.
use vstd::prelude::*;

verus! {

/// How a stored picture is to be turned before it is shown.
#[derive(Clone, Copy, Debug, PartialEq, Eq, Structural)]
pub enum Orientation {
    Normal,
    HorizontalFlip,
    Rotate180,
    VerticalFlip,
    Transpose,
    Rotate90,
    Transverse,
    Rotate270,
    Unknown,
}

/// The orientation behind a value of the EXIF orientation tag.
pub open spec fn orientation_of_tag(tag: u16) -> Orientation {
    match tag {
        1 => Orientation::Normal,
        2 => Orientation::HorizontalFlip,
        3 => Orientation::Rotate180,
        4 => Orientation::VerticalFlip,
        5 => Orientation::Transpose,
        6 => Orientation::Rotate90,
        7 => Orientation::Transverse,
        8 => Orientation::Rotate270,
        _ => Orientation::Unknown,
    }
}

/// `rawler::decoders::Orientation::from_u16`: the values one to eight of the tag stand
/// for the eight orientations in their order, every other value for none that is known.
#[verifier::external_body]
pub(crate) fn orientation_from_tag(tag: u16) -> (r: Orientation)
    ensures
        r == orientation_of_tag(tag),
{
    match rawler::decoders::Orientation::from_u16(tag) {
        rawler::decoders::Orientation::Normal => Orientation::Normal,
        rawler::decoders::Orientation::HorizontalFlip => Orientation::HorizontalFlip,
        rawler::decoders::Orientation::Rotate180 => Orientation::Rotate180,
        rawler::decoders::Orientation::VerticalFlip => Orientation::VerticalFlip,
        rawler::decoders::Orientation::Transpose => Orientation::Transpose,
        rawler::decoders::Orientation::Rotate90 => Orientation::Rotate90,
        rawler::decoders::Orientation::Transverse => Orientation::Transverse,
        rawler::decoders::Orientation::Rotate270 => Orientation::Rotate270,
        rawler::decoders::Orientation::Unknown => Orientation::Unknown,
    }
}

/// The orientation that the metadata of a file ask for.
pub open spec fn orientation_of_exif(tag: Option<u16>) -> Orientation {
    match tag {
        Some(value) => orientation_of_tag(value),
        None => Orientation::Normal,
    }
}

/// The orientation that the metadata of a file ask for: a file without the tag is shown
/// as it is stored.
pub fn orientation_from_exif(tag: Option<u16>) -> (r: Orientation)
    ensures
        r == orientation_of_exif(tag),
{
    match tag {
        Some(value) => orientation_from_tag(value),
        None => Orientation::Normal,
    }
}

/// A step of the developer.
#[derive(Clone, Copy, Debug, PartialEq, Eq, Structural)]
pub enum ProcessingStep {
    Rescale,
    Demosaic,
    CropActiveArea,
    WhiteBalance,
    Calibrate,
    CropDefault,
    SRgb,
}

/// The steps of a developer that nothing was taken out of, in their order.
pub open spec fn all_steps() -> Seq<ProcessingStep> {
    seq![
        ProcessingStep::Rescale,
        ProcessingStep::Demosaic,
        ProcessingStep::CropActiveArea,
        ProcessingStep::WhiteBalance,
        ProcessingStep::Calibrate,
        ProcessingStep::CropDefault,
        ProcessingStep::SRgb,
    ]
}

/// `rawler::imgop::develop::RawDevelop::default`: the steps it holds are all seven, each
/// once, in the order of `all_steps`.
#[verifier::external_body]
pub(crate) fn default_steps() -> (r: Vec<ProcessingStep>)
    ensures
        r@ == all_steps(),
{
    let developer = rawler::imgop::develop::RawDevelop::default();
    developer.steps.iter().map(|step| match step {
        rawler::imgop::develop::ProcessingStep::Rescale => ProcessingStep::Rescale,
        rawler::imgop::develop::ProcessingStep::Demosaic => ProcessingStep::Demosaic,
        rawler::imgop::develop::ProcessingStep::CropActiveArea => ProcessingStep::CropActiveArea,
        rawler::imgop::develop::ProcessingStep::WhiteBalance => ProcessingStep::WhiteBalance,
        rawler::imgop::develop::ProcessingStep::Calibrate => ProcessingStep::Calibrate,
        rawler::imgop::develop::ProcessingStep::CropDefault => ProcessingStep::CropDefault,
        rawler::imgop::develop::ProcessingStep::SRgb => ProcessingStep::SRgb,
    }).collect()
}

/// What the samples of a raw file stand for.
#[derive(Clone, Copy, Debug, PartialEq, Eq, Structural)]
pub enum Photometric {
    /// One grey value per pixel.
    BlackIsZero,
    /// One colour per photosite, behind a colour filter array.
    Cfa,
    /// Finished pixels in linear light.
    LinearRaw,
}

/// Whether the file holds finished pixels in linear light.
pub fn is_linear_raw_format(photometric: Photometric) -> (r: bool)
    ensures
        r == (photometric == Photometric::LinearRaw),
{
    matches!(photometric, Photometric::LinearRaw)
}

/// A file is turned as its tag says: the values one to eight in the order of the EXIF standard,
/// no turn without a tag, and an unknown one for every other value.
pub proof fn lemma_orientation_gives(tag: Option<u16>, r: Orientation)
    requires
        call_ensures(orientation_from_exif, (tag,), r) || r == orientation_of_exif(tag),
    ensures
        r == Orientation::Normal <==> tag is None || tag == Some(1u16),
        r == Orientation::HorizontalFlip <==> tag == Some(2u16),
        r == Orientation::Rotate180 <==> tag == Some(3u16),
        r == Orientation::VerticalFlip <==> tag == Some(4u16),
        r == Orientation::Transpose <==> tag == Some(5u16),
        r == Orientation::Rotate90 <==> tag == Some(6u16),
        r == Orientation::Transverse <==> tag == Some(7u16),
        r == Orientation::Rotate270 <==> tag == Some(8u16),
        r == Orientation::Unknown <==> tag is Some && !(1 <= tag->0 <= 8),
{
}

/// Of the three interpretations one stands for finished pixels.
pub proof fn lemma_linear_raw_format_gives(photometric: Photometric, r: bool)
    requires
        call_ensures(is_linear_raw_format, (photometric,), r),
    ensures
        r <==> photometric != Photometric::BlackIsZero && photometric != Photometric::Cfa,
{
}

} // verus!
