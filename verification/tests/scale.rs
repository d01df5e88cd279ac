use raw_develop::binary32::to_binary32;
use raw_develop::scale::{get_fast_demosaic_scale_factor, scale_for_dimensions, ScaleFactor};

/// A DNG file of 16-bit linear RGB pixels, little-endian, in one strip.
fn linear_dng(width: u32, height: u32, samples: &[u16], orientation: u16) -> Vec<u8> {
    let mut strip: Vec<u8> = Vec::new();
    for sample in samples {
        strip.extend_from_slice(&sample.to_le_bytes());
    }
    let entries: u16 = 11;
    let ifd_end: u32 = 8 + 2 + 12 * entries as u32 + 4;
    let bits_at: u32 = ifd_end;
    let strip_at: u32 = bits_at + 6;
    let mut file: Vec<u8> = Vec::new();
    file.extend_from_slice(b"II");
    file.extend_from_slice(&42u16.to_le_bytes());
    file.extend_from_slice(&8u32.to_le_bytes());
    file.extend_from_slice(&entries.to_le_bytes());
    let mut entry = |tag: u16, kind: u16, count: u32, value: [u8; 4]| {
        file.extend_from_slice(&tag.to_le_bytes());
        file.extend_from_slice(&kind.to_le_bytes());
        file.extend_from_slice(&count.to_le_bytes());
        file.extend_from_slice(&value);
    };
    let short = |v: u16| [v.to_le_bytes()[0], v.to_le_bytes()[1], 0, 0];
    entry(256, 4, 1, width.to_le_bytes());
    entry(257, 4, 1, height.to_le_bytes());
    entry(258, 3, 3, bits_at.to_le_bytes());
    entry(259, 3, 1, short(1));
    entry(262, 3, 1, short(34892));
    entry(273, 4, 1, strip_at.to_le_bytes());
    entry(274, 3, 1, short(orientation));
    entry(277, 3, 1, short(3));
    entry(278, 4, 1, height.to_le_bytes());
    entry(279, 4, 1, (strip.len() as u32).to_le_bytes());
    entry(50706, 1, 4, [1, 4, 0, 0]);
    file.extend_from_slice(&0u32.to_le_bytes());
    for _ in 0..3 {
        file.extend_from_slice(&16u16.to_le_bytes());
    }
    file.extend_from_slice(&strip);
    file
}

/// Width and height of the sensor image in a file, from rawler.
fn probe(file: &[u8]) -> Result<(usize, usize), rawler::RawlerError> {
    let source = rawler::rawsource::RawSource::new_from_slice(file);
    let decoder = rawler::get_decoder(&source)?;
    let image =
        decoder.raw_image(&source, &rawler::decoders::RawDecodeParams::default(), true)?;
    Ok((image.width, image.height))
}

fn scale_of_file(file: &[u8], decoded_width: u32, decoded_height: u32) -> ScaleFactor {
    get_fast_demosaic_scale_factor(file, decoded_width, decoded_height, probe)
}

/// The same decision, in single precision.
fn reference(sensor: (usize, usize), decoded: (u32, u32)) -> ScaleFactor {
    let max_orig = (sensor.0 as f32).max(sensor.1 as f32);
    let max_comp = (decoded.0 as f32).max(decoded.1 as f32);
    if max_orig > 0.0 {
        let ratio = max_comp / max_orig;
        if ratio > 0.1 && ratio < 0.35 {
            return ScaleFactor::Quarter;
        } else if (0.35..0.75).contains(&ratio) {
            return ScaleFactor::Half;
        }
    }
    ScaleFactor::Full
}

#[test]
fn undecodable_files_count_as_full_size() {
    assert_eq!(scale_of_file(&[], 100, 100), ScaleFactor::Full);
    assert_eq!(scale_of_file(&[1, 2, 3], 100, 100), ScaleFactor::Full);
    assert_eq!(scale_of_file(b"II*\0\x08\0\0\0\0\0", 1, 1), ScaleFactor::Full);
}

#[test]
fn scale_of_a_decodable_file() {
    let samples = vec![1000u16; 400 * 200 * 3];
    let file = linear_dng(400, 200, &samples, 1);
    assert_eq!(scale_of_file(&file, 400, 200), ScaleFactor::Full);
    assert_eq!(scale_of_file(&file, 200, 100), ScaleFactor::Half);
    assert_eq!(scale_of_file(&file, 100, 50), ScaleFactor::Quarter);
    assert_eq!(scale_of_file(&file, 50, 100), ScaleFactor::Quarter);
    assert_eq!(scale_of_file(&file, 40, 20), ScaleFactor::Full);
    assert_eq!(scale_of_file(&file, 41, 20), ScaleFactor::Quarter);
    assert_eq!(scale_of_file(&file, 139, 1), ScaleFactor::Quarter);
    assert_eq!(scale_of_file(&file, 140, 1), ScaleFactor::Half);
    assert_eq!(scale_of_file(&file, 299, 1), ScaleFactor::Half);
    assert_eq!(scale_of_file(&file, 300, 1), ScaleFactor::Full);
    assert_eq!(scale_of_file(&file, 0, 0), ScaleFactor::Full);
}

#[test]
fn the_probe_is_handed_the_file() {
    let seen = std::cell::Cell::new(0usize);
    let scale = get_fast_demosaic_scale_factor(&[7, 8, 9], 25, 10, |file: &[u8]| {
        seen.set(file.len());
        Ok::<(usize, usize), ()>((file[0] as usize, 100))
    });
    assert_eq!(scale, ScaleFactor::Quarter);
    assert_eq!(seen.get(), 3);
    let scale = get_fast_demosaic_scale_factor(&[7], 25, 10, |_: &[u8]| {
        Err::<(usize, usize), &str>("no raw file")
    });
    assert_eq!(scale, ScaleFactor::Full);
}

#[test]
fn a_sensor_without_extent_counts_as_full_size() {
    assert_eq!(scale_for_dimensions(0, 0, 100, 100), ScaleFactor::Full);
    assert_eq!(scale_for_dimensions(0, 0, 0, 0), ScaleFactor::Full);
}

#[test]
fn reciprocals() {
    assert_eq!(ScaleFactor::Quarter.reciprocal(), 4);
    assert_eq!(ScaleFactor::Half.reciprocal(), 2);
    assert_eq!(ScaleFactor::Full.reciprocal(), 1);
    assert_eq!(1.0 / ScaleFactor::Quarter.reciprocal() as f32, 0.25);
    assert_eq!(1.0 / ScaleFactor::Half.reciprocal() as f32, 0.5);
}

#[test]
fn exact_scales() {
    for n in [1usize, 3, 4000, 6000, 16_777_217, 40_000_001] {
        assert_eq!(scale_for_dimensions(n, 1, n as u32, 1), ScaleFactor::Full);
        assert_eq!(scale_for_dimensions(2 * n, 2, n as u32, 1), ScaleFactor::Half);
        assert_eq!(scale_for_dimensions(4 * n, 4, n as u32, 1), ScaleFactor::Quarter);
    }
}

#[test]
fn range_bounds() {
    for n in [1u32, 7, 123, 4567] {
        assert_eq!(scale_for_dimensions(10 * n as usize, 1, n, 1), ScaleFactor::Full);
        assert_eq!(scale_for_dimensions(20 * n as usize, 1, 7 * n, 1), ScaleFactor::Half);
        assert_eq!(scale_for_dimensions(4 * n as usize, 1, 3 * n, 1), ScaleFactor::Full);
    }
}

#[test]
fn only_the_longer_side_counts() {
    assert_eq!(scale_for_dimensions(6000, 4000, 1500, 1000), ScaleFactor::Quarter);
    assert_eq!(scale_for_dimensions(4000, 6000, 1500, 1000), ScaleFactor::Quarter);
    assert_eq!(scale_for_dimensions(6000, 4000, 1000, 1500), ScaleFactor::Quarter);
}

#[test]
fn smaller_pictures_never_count_as_larger() {
    let mut last = 1;
    for decoded in (700..=6000u32).rev() {
        let now = scale_for_dimensions(6000, 4000, decoded, 1).reciprocal();
        assert!(now >= last);
        last = now;
    }
    assert_eq!(last, 4);
}

#[test]
fn decisions_agree_with_single_precision() {
    for sensor in 1..400usize {
        for decoded in 0..500u32 {
            let got = scale_for_dimensions(sensor, 1, decoded, 1);
            assert_eq!(got, reference((sensor, 1), (decoded, 1)), "{} of {}", decoded, sensor);
        }
    }
    // Pseudo-random pairs, and pairs close to the three bounds.
    let mut state: u64 = 0x2545_f491_4f6c_dd1d;
    for _ in 0..300_000 {
        state ^= state << 13;
        state ^= state >> 7;
        state ^= state << 17;
        let sensor = (state >> 20) as usize >> (state % 40);
        let decoded = (state >> 5) as u32 >> (state % 31);
        let got = scale_for_dimensions(sensor, 0, decoded, 0);
        assert_eq!(got, reference((sensor, 0), (decoded, 0)), "{} of {}", decoded, sensor);
        for tenths in [1.0f64, 3.5, 7.5] {
            let wide = (state >> 33) as usize + 1;
            let close = (wide as f64 * tenths / 10.0) as u32;
            for near in [close.saturating_sub(1), close, close.saturating_add(1)] {
                let got = scale_for_dimensions(wide, 0, near, 0);
                assert_eq!(got, reference((wide, 0), (near, 0)), "{} of {}", near, wide);
            }
        }
    }
}

#[test]
fn integers_in_single_precision() {
    assert_eq!(to_binary32(0), 0);
    assert_eq!(to_binary32(16_777_215), 16_777_215);
    assert_eq!(to_binary32(16_777_217), 16_777_216);
    assert_eq!(to_binary32(16_777_219), 16_777_220);
    assert_eq!(to_binary32(u64::MAX), 1 << 64);
    let mut state: u64 = 88172645463325252;
    for _ in 0..200_000 {
        state ^= state << 13;
        state ^= state >> 7;
        state ^= state << 17;
        let n = state >> (state % 60);
        assert_eq!(to_binary32(n), n as f32 as u128, "{}", n);
        assert_eq!(to_binary32(n >> 1) * 2, to_binary32((n >> 1) * 2));
    }
}

#[test]
fn conversion_keeps_the_order() {
    let mut last = 0;
    for n in (16_777_200u64..16_777_300).chain(33_554_400..33_554_500) {
        assert!(to_binary32(n) >= last);
        last = to_binary32(n);
    }
}
