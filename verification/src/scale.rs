//! How much smaller than the sensor a fast demosaic came out.
use crate::binary32::{
    binary32_of, lemma_binary32_double, lemma_binary32_monotone, lemma_binary32_small,
    lemma_quotient_above, lemma_quotient_below, quotient_above, quotient_below, to_binary32,
};
use vstd::arithmetic::power2::{lemma2_to64, pow2};
use vstd::prelude::*;

verus! {

/// The scale of a decoded picture relative to the sensor.
#[derive(Clone, Copy, Debug, PartialEq, Eq, Structural)]
pub enum ScaleFactor {
    /// One fourth of the sensor's size.
    Quarter,
    /// One half of the sensor's size.
    Half,
    /// The sensor's own size, or a size that no fast demosaic produces.
    Full,
}

/// The longer side of a picture, in binary32.
pub open spec fn longer_side(width: nat, height: nat) -> int {
    let w = binary32_of(width);
    let h = binary32_of(height);
    if w >= h {
        w
    } else {
        h
    }
}

/// The scale that belongs to a decoded side and a sensor side: their binary32 quotient
/// is held against the binary32 numbers 0.1 (13421773 / 2^27), 0.35 (11744051 / 2^25)
/// and 0.75 (12582912 / 2^24).
pub open spec fn scale_of_sides(decoded: int, sensor: int) -> ScaleFactor {
    if sensor <= 0 {
        ScaleFactor::Full
    } else if quotient_above(decoded, sensor, 13421773, 27) && quotient_below(
        decoded,
        sensor,
        11744051,
        25,
    ) {
        ScaleFactor::Quarter
    } else if !quotient_below(decoded, sensor, 11744051, 25) && quotient_below(
        decoded,
        sensor,
        12582912,
        24,
    ) {
        ScaleFactor::Half
    } else {
        ScaleFactor::Full
    }
}

/// The scale of a picture of `decoded_width` by `decoded_height` pixels that was
/// decoded from a sensor of `sensor_width` by `sensor_height` photosites.
pub open spec fn scale_of(
    sensor_width: nat,
    sensor_height: nat,
    decoded_width: nat,
    decoded_height: nat,
) -> ScaleFactor {
    scale_of_sides(
        longer_side(decoded_width, decoded_height),
        longer_side(sensor_width, sensor_height),
    )
}

/// The scale by integer comparisons alone: each binary32 comparison is one with the
/// midpoint between two neighbouring binary32 numbers.
pub proof fn lemma_scale_thresholds(decoded: int, sensor: int)
    requires
        decoded >= 0,
        sensor > 0,
    ensures
        scale_of_sides(decoded, sensor) == (if 26843547 * sensor <= 0x1000_0000 * decoded
            && 0x400_0000 * decoded <= 23488101 * sensor {
            ScaleFactor::Quarter
        } else if 23488101 * sensor < 0x400_0000 * decoded && 0x200_0000 * decoded < 25165823
            * sensor {
            ScaleFactor::Half
        } else {
            ScaleFactor::Full
        }),
{
    lemma2_to64();
    lemma_quotient_above(decoded, sensor, 13421773, 27);
    lemma_quotient_below(decoded, sensor, 11744051, 25);
    lemma_quotient_below(decoded, sensor, 12582912, 24);
    assert((2 * 13421774 - 1) * sensor == 26843547 * sensor);
    assert((2 * 11744051 - 1) * sensor == 23488101 * sensor);
    assert((2 * 12582912 - 1) * sensor == 25165823 * sensor);
    assert(decoded * pow2(28) == 0x1000_0000 * decoded);
    assert(decoded * pow2(26) == 0x400_0000 * decoded);
    assert(decoded * pow2(25) == 0x200_0000 * decoded);
}

/// A picture without pixels counts as full size, whatever the sensor.
pub proof fn lemma_empty_picture_is_full(sensor_width: nat, sensor_height: nat)
    ensures
        scale_of(sensor_width, sensor_height, 0, 0) == ScaleFactor::Full,
{
    let sensor = longer_side(sensor_width, sensor_height);
    lemma_binary32_small(0);
    if sensor > 0 {
        lemma_scale_thresholds(longer_side(0, 0), sensor);
    }
}

/// Only the longer side of a picture counts, and it may be either side.
pub proof fn lemma_longer_side(width: nat, height: nat)
    ensures
        longer_side(width, height) == binary32_of(
            if width >= height {
                width
            } else {
                height
            },
        ),
        longer_side(width, height) == longer_side(height, width),
{
    if width >= height {
        lemma_binary32_monotone(height, width);
    } else {
        lemma_binary32_monotone(width, height);
    }
}

proof fn lemma_longer_side_double(width: nat, height: nat)
    ensures
        longer_side(2 * width, 2 * height) == 2 * longer_side(width, height),
{
    lemma_binary32_double(width);
    lemma_binary32_double(height);
}

proof fn lemma_longer_side_positive(width: nat, height: nat)
    requires
        width > 0 || height > 0,
    ensures
        longer_side(width, height) > 0,
{
    lemma_binary32_small(1);
    lemma_longer_side(width, height);
    if width >= height {
        lemma_binary32_monotone(1, width);
    } else {
        lemma_binary32_monotone(1, height);
    }
}

/// A picture as large as the sensor counts as full size, one of half the sensor's size
/// as half and one of a quarter of its size as a quarter.
pub proof fn lemma_exact_scales(width: nat, height: nat)
    requires
        width > 0 || height > 0,
    ensures
        scale_of(width, height, width, height) == ScaleFactor::Full,
        scale_of(2 * width, 2 * height, width, height) == ScaleFactor::Half,
        scale_of(4 * width, 4 * height, width, height) == ScaleFactor::Quarter,
{
    let side = longer_side(width, height);
    lemma_longer_side_positive(width, height);
    lemma_longer_side_double(width, height);
    lemma_longer_side_double(2 * width, 2 * height);
    assert(2 * (2 * width) == 4 * width && 2 * (2 * height) == 4 * height);
    lemma_scale_thresholds(side, side);
    lemma_scale_thresholds(side, 2 * side);
    lemma_scale_thresholds(side, 4 * side);
}

/// The bounds of the ranges: a tenth of the sensor's side is too small for a quarter,
/// 0.35 of it is the least that counts as half, and three quarters of it count as full.
pub proof fn lemma_range_bounds(n: int)
    requires
        n > 0,
    ensures
        scale_of_sides(n, 10 * n) == ScaleFactor::Full,
        scale_of_sides(7 * n, 20 * n) == ScaleFactor::Half,
        scale_of_sides(3 * n, 4 * n) == ScaleFactor::Full,
{
    lemma_scale_thresholds(n, 10 * n);
    lemma_scale_thresholds(7 * n, 20 * n);
    lemma_scale_thresholds(3 * n, 4 * n);
}

/// Between two pictures of one sensor, the smaller one never counts as larger, down to
/// a tenth of the sensor's side.
pub proof fn lemma_scale_monotone(small: int, large: int, sensor: int)
    requires
        0 <= small <= large,
        sensor > 0,
        26843547 * sensor <= 0x1000_0000 * small,
    ensures
        scale_of_sides(small, sensor).spec_reciprocal() >= scale_of_sides(
            large,
            sensor,
        ).spec_reciprocal(),
{
    lemma_scale_thresholds(small, sensor);
    lemma_scale_thresholds(large, sensor);
}

impl ScaleFactor {
    /// How many photosites along one axis stand behind one pixel.
    pub open spec fn spec_reciprocal(self) -> u32 {
        match self {
            ScaleFactor::Quarter => 4,
            ScaleFactor::Half => 2,
            ScaleFactor::Full => 1,
        }
    }

    /// How many photosites along one axis stand behind one pixel: the factor itself is
    /// one divided by this.
    pub fn reciprocal(self) -> (r: u32)
        ensures
            r == self.spec_reciprocal(),
    {
        match self {
            ScaleFactor::Quarter => 4,
            ScaleFactor::Half => 2,
            ScaleFactor::Full => 1,
        }
    }
}

fn longer(width: u64, height: u64) -> (r: u128)
    ensures
        r == longer_side(width as nat, height as nat),
        r <= 0x2_0000_0000_0000_0000,
{
    let w: u128 = to_binary32(width);
    let h: u128 = to_binary32(height);
    if w >= h {
        w
    } else {
        h
    }
}

/// The scale of a decoded picture, from its dimensions and those of the sensor.
pub fn scale_for_dimensions(
    sensor_width: usize,
    sensor_height: usize,
    decoded_width: u32,
    decoded_height: u32,
) -> (r: ScaleFactor)
    ensures
        r == scale_of(
            sensor_width as nat,
            sensor_height as nat,
            decoded_width as nat,
            decoded_height as nat,
        ),
{
    let sensor: u128 = longer(sensor_width as u64, sensor_height as u64);
    let decoded: u128 = longer(decoded_width as u64, decoded_height as u64);
    if sensor == 0 {
        return ScaleFactor::Full;
    }
    proof {
        lemma_scale_thresholds(decoded as int, sensor as int);
    }
    if 0x1000_0000 * decoded >= 26843547 * sensor && 0x400_0000 * decoded <= 23488101 * sensor {
        ScaleFactor::Quarter
    } else if 0x400_0000 * decoded > 23488101 * sensor && 0x200_0000 * decoded < 25165823 * sensor {
        ScaleFactor::Half
    } else {
        ScaleFactor::Full
    }
}

/// The scale that belongs to the outcome of probing a file.
pub open spec fn scale_of_probe(
    dimensions: Option<(usize, usize)>,
    decoded_width: u32,
    decoded_height: u32,
) -> ScaleFactor {
    match dimensions {
        Some((width, height)) => scale_of(
            width as nat,
            height as nat,
            decoded_width as nat,
            decoded_height as nat,
        ),
        None => ScaleFactor::Full,
    }
}

/// The scale at which the raw file `file_bytes` was decoded, given the dimensions of
/// the decoded picture. `probe` finds width and height of the sensor image in the file. A
/// file that cannot be decoded counts as decoded at full size.
pub fn get_fast_demosaic_scale_factor<E, Q: FnOnce(&[u8]) -> Result<(usize, usize), E>>(
    file_bytes: &[u8],
    decoded_width: u32,
    decoded_height: u32,
    probe: Q,
) -> (r: ScaleFactor)
    requires
        call_requires(probe, (file_bytes,)),
    ensures
        exists|outcome: Result<(usize, usize), E>| #[trigger]
            call_ensures(probe, (file_bytes,), outcome) && r == scale_of_probe(
                match outcome {
                    Ok(dimensions) => Some(dimensions),
                    Err(_) => None,
                },
                decoded_width,
                decoded_height,
            ),
        decoded_width == 0 && decoded_height == 0 ==> r == ScaleFactor::Full,
{
    match probe(file_bytes) {
        Ok((sensor_width, sensor_height)) => {
            proof {
                lemma_empty_picture_is_full(sensor_width as nat, sensor_height as nat);
            }
            scale_for_dimensions(sensor_width, sensor_height, decoded_width, decoded_height)
        },
        Err(_) => ScaleFactor::Full,
    }
}

/// The scale goes by the longer side of the picture and the longer side of the sensor alone,
/// for whatever dimensions: up to the tenth of the sensor's side, and from three quarters of it
/// on, the picture counts as full size, below 0.35 of it as a quarter, and between as half.
/// The factors are the midpoints at which binary32 quotients round to these bounds.
pub proof fn lemma_scale_by_longer_sides(
    sensor_width: nat,
    sensor_height: nat,
    decoded_width: nat,
    decoded_height: nat,
)
    ensures
        ({
            let d = binary32_of(
                if decoded_width >= decoded_height {
                    decoded_width
                } else {
                    decoded_height
                },
            );
            let s = binary32_of(
                if sensor_width >= sensor_height {
                    sensor_width
                } else {
                    sensor_height
                },
            );
            let r = scale_of(sensor_width, sensor_height, decoded_width, decoded_height);
            &&& sensor_width == 0 && sensor_height == 0 ==> r == ScaleFactor::Full
            &&& sensor_width > 0 || sensor_height > 0 ==> {
                &&& r == ScaleFactor::Quarter <==> 26843547 * s <= 0x1000_0000 * d && 0x400_0000 * d
                    <= 23488101 * s
                &&& r == ScaleFactor::Half <==> 23488101 * s < 0x400_0000 * d && 0x200_0000 * d
                    < 25165823 * s
                &&& r == ScaleFactor::Full <==> 0x1000_0000 * d < 26843547 * s || 0x200_0000 * d
                    >= 25165823 * s
            }
        }),
{
    lemma_longer_side(decoded_width, decoded_height);
    lemma_longer_side(sensor_width, sensor_height);
    lemma_binary32_small(0);
    if sensor_width > 0 || sensor_height > 0 {
        let d = longer_side(decoded_width, decoded_height);
        let s = longer_side(sensor_width, sensor_height);
        lemma_longer_side_positive(sensor_width, sensor_height);
        if decoded_width >= decoded_height {
            lemma_binary32_monotone(0, decoded_width);
        } else {
            lemma_binary32_monotone(0, decoded_height);
        }
        lemma_scale_thresholds(d, s);
    }
}

/// For pictures and sensors of fewer than 2^24 pixels a side, the scale that
/// `scale_for_dimensions` gives is a comparison of whole numbers.
pub proof fn lemma_scale_for_dimensions_gives(
    sensor_width: usize,
    sensor_height: usize,
    decoded_width: u32,
    decoded_height: u32,
    r: ScaleFactor,
)
    requires
        call_ensures(
            scale_for_dimensions,
            (sensor_width, sensor_height, decoded_width, decoded_height),
            r,
        ),
    ensures
        r == scale_of(
            sensor_width as nat,
            sensor_height as nat,
            decoded_width as nat,
            decoded_height as nat,
        ),
        sensor_width == 0 && sensor_height == 0 ==> r == ScaleFactor::Full,
        forall|s: int, d: int|
            #![trigger 26843547 * s, 0x1000_0000 * d]
            0 < s < 0x100_0000 && 0 <= d < 0x100_0000 && s >= sensor_width && s >= sensor_height
                && (s == sensor_width || s == sensor_height) && d >= decoded_width && d
                >= decoded_height && (d == decoded_width || d == decoded_height) ==> {
                &&& r == ScaleFactor::Quarter <==> 26843547 * s <= 0x1000_0000 * d && 0x400_0000 * d
                    <= 23488101 * s
                &&& r == ScaleFactor::Half <==> 23488101 * s < 0x400_0000 * d && 0x200_0000 * d
                    < 25165823 * s
            },
{
    lemma_scale_by_longer_sides(
        sensor_width as nat,
        sensor_height as nat,
        decoded_width as nat,
        decoded_height as nat,
    );
    let d = if decoded_width >= decoded_height {
        decoded_width as nat
    } else {
        decoded_height as nat
    };
    let s = if sensor_width >= sensor_height {
        sensor_width as nat
    } else {
        sensor_height as nat
    };
    if d < 0x100_0000 {
        lemma_binary32_small(d);
    }
    if s < 0x100_0000 {
        lemma_binary32_small(s);
    }
}

/// A file is as small as the probe's dimensions make it, and full size where the probe fails.
pub proof fn lemma_scale_of_file<E, Q: FnOnce(&[u8]) -> Result<(usize, usize), E>>(
    file_bytes: &[u8],
    decoded_width: u32,
    decoded_height: u32,
    probe: Q,
    r: ScaleFactor,
)
    requires
        call_ensures(
            get_fast_demosaic_scale_factor::<E, Q>,
            (file_bytes, decoded_width, decoded_height, probe),
            r,
        ),
    ensures
        exists|outcome: Result<(usize, usize), E>|
            {
                &&& #[trigger] call_ensures(probe, (file_bytes,), outcome)
                &&& outcome is Err ==> r == ScaleFactor::Full
                &&& outcome matches Ok((width, height)) ==> r == scale_of(
                    width as nat,
                    height as nat,
                    decoded_width as nat,
                    decoded_height as nat,
                )
            },
{
}

/// Four, two or one photosites stand behind a pixel along each axis.
pub proof fn lemma_reciprocal_gives(factor: ScaleFactor, r: u32)
    requires
        call_ensures(ScaleFactor::reciprocal, (factor,), r),
    ensures
        factor == ScaleFactor::Quarter <==> r == 4,
        factor == ScaleFactor::Half <==> r == 2,
        factor == ScaleFactor::Full <==> r == 1,
{
}

} // verus!
