use raw_develop::error::DevelopError;
use raw_develop::planes::{adjust, assemble, Planes, RgbaImage};

fn image(planes: &Planes<i32>, width: u32, height: u32) -> RgbaImage<i32> {
    let result: Result<RgbaImage<i32>, DevelopError<()>> = assemble(planes, width, height, -1);
    result.ok().unwrap()
}

#[test]
fn samples_are_reworked_one_by_one() {
    let adjusted = adjust(Planes::Monochrome(vec![1, 2, 3]), 10, &|k, x| k * x, &|_, p| p);
    assert!(matches!(adjusted, Planes::Monochrome(v) if v == vec![10, 20, 30]));
    let four = Planes::FourColor(vec![[1, 2, 3, 4], [5, 6, 7, 8]]);
    let adjusted = adjust(four, 10, &|k, x| k * x, &|_, p| p);
    let expected = vec![[10, 20, 30, 40], [50, 60, 70, 80]];
    assert!(matches!(adjusted, Planes::FourColor(v) if v == expected));
}

#[test]
fn colours_are_reworked_together() {
    let three = Planes::ThreeColor(vec![[1, 2, 3], [4, 5, 6]]);
    let adjusted = adjust(three, 1, &|_, x| x, &|k, [r, g, b]: [i32; 3]| [b + k, g, r]);
    assert!(matches!(adjusted, Planes::ThreeColor(v) if v == vec![[4, 2, 1], [7, 5, 4]]));
}

#[test]
fn nothing_stays_nothing() {
    let adjusted = adjust(Planes::Monochrome(Vec::<i32>::new()), 0, &|_, x| x, &|_, p| p);
    assert!(matches!(adjusted, Planes::Monochrome(v) if v.is_empty()));
    assert_eq!(image(&Planes::Monochrome(vec![]), 0, 5).samples, Vec::<i32>::new());
}

#[test]
fn pixels_keep_their_place() {
    let (width, height) = (5u32, 3u32);
    let pixels: Vec<[i32; 3]> = (0..15).map(|i| [i, 100 + i, 200 + i]).collect();
    let built = image(&Planes::ThreeColor(pixels.clone()), width, height);
    assert_eq!((built.width, built.height), (width, height));
    assert_eq!(built.samples.len(), 60);
    for y in 0..height {
        for x in 0..width {
            let p = pixels[(y * width + x) as usize];
            let at = 4 * (y * width + x) as usize;
            assert_eq!(built.samples[at..at + 4], [p[0], p[1], p[2], -1]);
        }
    }
}

#[test]
fn grey_pixels_have_three_equal_channels() {
    let built = image(&Planes::Monochrome(vec![3, 4]), 1, 2);
    assert_eq!(built.samples, vec![3, 3, 3, -1, 4, 4, 4, -1]);
}

#[test]
fn samples_beyond_the_image_are_left_out() {
    let built = image(&Planes::Monochrome(vec![3, 4, 5]), 2, 1);
    assert_eq!(built.samples, vec![3, 3, 3, -1, 4, 4, 4, -1]);
}

#[test]
fn four_channels_make_no_image() {
    let planes = Planes::FourColor(vec![[1, 2, 3, 4]]);
    let result: Result<RgbaImage<i32>, DevelopError<()>> = assemble(&planes, 1, 1, -1);
    assert!(matches!(result, Err(DevelopError::UnsupportedFormat)));
}
