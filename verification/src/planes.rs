//! The samples of a developed picture.
//!
//! Samples are floating-point numbers to the rest of the program. Nothing here computes
//! with them, so they may be of any type.
use crate::error::DevelopError;
use vstd::prelude::*;

verus! {

/// The pixels of a developed picture, row by row from the top.
pub enum Planes<T> {
    /// One grey sample per pixel.
    Monochrome(Vec<T>),
    /// Red, green and blue.
    ThreeColor(Vec<[T; 3]>),
    /// Four camera channels.
    FourColor(Vec<[T; 4]>),
}

/// A developed picture.
pub struct Developed<T> {
    pub planes: Planes<T>,
    pub width: usize,
    pub height: usize,
}

/// A finished picture: red, green, blue and opacity of each pixel, row by row from the
/// top.
pub struct RgbaImage<T> {
    pub width: u32,
    pub height: u32,
    pub samples: Vec<T>,
}

impl<T> Planes<T> {
    /// The number of pixels.
    pub open spec fn count(self) -> nat {
        match self {
            Planes::Monochrome(pixels) => pixels@.len(),
            Planes::ThreeColor(pixels) => pixels@.len(),
            Planes::FourColor(pixels) => pixels@.len(),
        }
    }

    /// Red, green and blue of the pixel at `i`, for the layouts that have them.
    pub open spec fn rgb(self, i: int) -> Seq<T> {
        match self {
            Planes::Monochrome(pixels) => seq![pixels@[i], pixels@[i], pixels@[i]],
            Planes::ThreeColor(pixels) => pixels@[i]@,
            Planes::FourColor(_) => Seq::empty(),
        }
    }
}

/// The number of pixels of an image.
pub open spec fn area(width: u32, height: u32) -> nat {
    (width * height) as nat
}

/// A picture whose pixels all exist and whose pixels and samples can be counted. Image
/// dimensions have 32 bits, and so has the position of a pixel.
pub open spec fn is_complete<T>(planes: Planes<T>, width: u32, height: u32) -> bool {
    &&& area(width, height) <= planes.count()
    &&& area(width, height) <= 0x1_0000_0000
    &&& 4 * area(width, height) <= usize::MAX
}

/// The image of a picture: every pixel becomes its red, green and blue and an opaque
/// sample.
pub open spec fn is_image_of<T>(image: RgbaImage<T>, planes: Planes<T>, opaque: T) -> bool {
    &&& image.samples@.len() == 4 * area(image.width, image.height)
    &&& forall|i: int|
        #![trigger planes.rgb(i)]
        0 <= i < area(image.width, image.height) ==> image.samples@.subrange(4 * i, 4 * i + 4)
            == planes.rgb(i).push(opaque)
}

/// `after` holds, pixel for pixel, what `scalar` and `pixel` made of `before`: red, green
/// and blue are reworked together, other samples one by one.
pub open spec fn is_adjusted<T, P, F: Fn(P, T) -> T, G: Fn(P, [T; 3]) -> [T; 3]>(
    before: Planes<T>,
    after: Planes<T>,
    tone: P,
    scalar: F,
    pixel: G,
) -> bool {
    match (before, after) {
        (Planes::Monochrome(a), Planes::Monochrome(b)) => {
            &&& a@.len() == b@.len()
            &&& forall|i: int|
                0 <= i < a@.len() ==> call_ensures(scalar, (tone, a@[i]), #[trigger] b@[i])
        },
        (Planes::ThreeColor(a), Planes::ThreeColor(b)) => {
            &&& a@.len() == b@.len()
            &&& forall|i: int|
                0 <= i < a@.len() ==> call_ensures(pixel, (tone, a@[i]), #[trigger] b@[i])
        },
        (Planes::FourColor(a), Planes::FourColor(b)) => {
            &&& a@.len() == b@.len()
            &&& forall|i: int, c: int|
                0 <= i < a@.len() && 0 <= c < 4 ==> call_ensures(
                    scalar,
                    (tone, a@[i]@[c]),
                    #[trigger] b@[i]@[c],
                )
        },
        _ => false,
    }
}

/// Reworks every pixel of a picture.
pub fn adjust<T: Copy, P: Copy, F: Fn(P, T) -> T, G: Fn(P, [T; 3]) -> [T; 3]>(
    planes: Planes<T>,
    tone: P,
    scalar: &F,
    pixel: &G,
) -> (r: Planes<T>)
    requires
        forall|x: T| call_requires(*scalar, (tone, x)),
        forall|x: [T; 3]| call_requires(*pixel, (tone, x)),
    ensures
        is_adjusted(planes, r, tone, *scalar, *pixel),
{
    match planes {
        Planes::Monochrome(before) => {
            let mut pixels = before;
            let mut i: usize = 0;
            while i < pixels.len()
                invariant
                    i <= before@.len(),
                    pixels@.len() == before@.len(),
                    forall|x: T| call_requires(*scalar, (tone, x)),
                    forall|j: int|
                        0 <= j < i ==> call_ensures(
                            *scalar,
                            (tone, before@[j]),
                            #[trigger] pixels@[j],
                        ),
                    forall|j: int| i <= j < before@.len() ==> pixels@[j] == before@[j],
                decreases before@.len() - i,
            {
                let sample: T = scalar(tone, pixels[i]);
                pixels.set(i, sample);
                i = i + 1;
            }
            Planes::Monochrome(pixels)
        },
        Planes::ThreeColor(before) => {
            let mut pixels = before;
            let mut i: usize = 0;
            while i < pixels.len()
                invariant
                    i <= before@.len(),
                    pixels@.len() == before@.len(),
                    forall|x: [T; 3]| call_requires(*pixel, (tone, x)),
                    forall|j: int|
                        0 <= j < i ==> call_ensures(
                            *pixel,
                            (tone, before@[j]),
                            #[trigger] pixels@[j],
                        ),
                    forall|j: int| i <= j < before@.len() ==> pixels@[j] == before@[j],
                decreases before@.len() - i,
            {
                let rgb: [T; 3] = pixel(tone, pixels[i]);
                pixels.set(i, rgb);
                i = i + 1;
            }
            Planes::ThreeColor(pixels)
        },
        Planes::FourColor(before) => {
            let mut pixels = before;
            let mut i: usize = 0;
            while i < pixels.len()
                invariant
                    i <= before@.len(),
                    pixels@.len() == before@.len(),
                    forall|x: T| call_requires(*scalar, (tone, x)),
                    forall|j: int, c: int|
                        0 <= j < i && 0 <= c < 4 ==> call_ensures(
                            *scalar,
                            (tone, before@[j]@[c]),
                            #[trigger] pixels@[j]@[c],
                        ),
                    forall|j: int| i <= j < before@.len() ==> pixels@[j] == before@[j],
                decreases before@.len() - i,
            {
                let p: [T; 4] = pixels[i];
                let channels: [T; 4] = [
                    scalar(tone, p[0]),
                    scalar(tone, p[1]),
                    scalar(tone, p[2]),
                    scalar(tone, p[3]),
                ];
                pixels.set(i, channels);
                i = i + 1;
            }
            Planes::FourColor(pixels)
        },
    }
}

/// Builds the image of a picture. A picture of four camera channels has none.
pub fn assemble<T: Copy, E>(planes: &Planes<T>, width: u32, height: u32, opaque: T) -> (r: Result<
    RgbaImage<T>,
    DevelopError<E>,
>)
    requires
        !(planes is FourColor) ==> is_complete(*planes, width, height),
    ensures
        planes is FourColor <==> r is Err,
        r is Err ==> r->Err_0 is UnsupportedFormat,
        r is Ok ==> {
            &&& r->Ok_0.width == width
            &&& r->Ok_0.height == height
            &&& is_image_of(r->Ok_0, *planes, opaque)
        },
{
    match planes {
        Planes::FourColor(_) => Err(DevelopError::UnsupportedFormat),
        Planes::Monochrome(pixels) => {
            let count: usize = pixel_count(width, height);
            let mut samples: Vec<T> = Vec::with_capacity(4 * count);
            let mut i: usize = 0;
            while i < count
                invariant
                    i <= count <= pixels@.len(),
                    *planes == Planes::Monochrome(*pixels),
                    samples@.len() == 4 * i,
                    holds_pixels(samples@, *planes, opaque, i as int),
                decreases count - i,
            {
                let p: T = pixels[i];
                let ghost before = samples@;
                samples.push(p);
                samples.push(p);
                samples.push(p);
                samples.push(opaque);
                proof {
                    lemma_holds_next(before, samples@, *planes, opaque, i as int);
                }
                i = i + 1;
            }
            Ok(RgbaImage { width, height, samples })
        },
        Planes::ThreeColor(pixels) => {
            let count: usize = pixel_count(width, height);
            let mut samples: Vec<T> = Vec::with_capacity(4 * count);
            let mut i: usize = 0;
            while i < count
                invariant
                    i <= count <= pixels@.len(),
                    *planes == Planes::ThreeColor(*pixels),
                    samples@.len() == 4 * i,
                    holds_pixels(samples@, *planes, opaque, i as int),
                decreases count - i,
            {
                let p: [T; 3] = pixels[i];
                let ghost before = samples@;
                samples.push(p[0]);
                samples.push(p[1]);
                samples.push(p[2]);
                samples.push(opaque);
                proof {
                    assert(p@ =~= seq![p@[0], p@[1], p@[2]]);
                    lemma_holds_next(before, samples@, *planes, opaque, i as int);
                }
                i = i + 1;
            }
            Ok(RgbaImage { width, height, samples })
        },
    }
}

/// The first `count` pixels of an image that is being built.
spec fn holds_pixels<T>(samples: Seq<T>, planes: Planes<T>, opaque: T, count: int) -> bool {
    forall|i: int|
        #![trigger planes.rgb(i)]
        0 <= i < count ==> samples.subrange(4 * i, 4 * i + 4) == planes.rgb(i).push(opaque)
}

proof fn lemma_holds_next<T>(
    before: Seq<T>,
    after: Seq<T>,
    planes: Planes<T>,
    opaque: T,
    count: int,
)
    requires
        0 <= count,
        before.len() == 4 * count,
        after =~= before + planes.rgb(count).push(opaque),
        planes.rgb(count).len() == 3,
        holds_pixels(before, planes, opaque, count),
    ensures
        holds_pixels(after, planes, opaque, count + 1),
{
    assert forall|i: int|
        #![trigger planes.rgb(i)]
        0 <= i < count + 1 implies after.subrange(4 * i, 4 * i + 4) == planes.rgb(i).push(
        opaque,
    ) by {
        if i < count {
            assert(after.subrange(4 * i, 4 * i + 4) =~= before.subrange(4 * i, 4 * i + 4));
        } else {
            assert(after.subrange(4 * i, 4 * i + 4) =~= planes.rgb(i).push(opaque));
        }
    }
}

/// The number of pixels of an image.
fn pixel_count(width: u32, height: u32) -> (r: usize)
    requires
        4 * area(width, height) <= usize::MAX,
    ensures
        r == area(width, height),
{
    proof {
        assert(0 <= width * height <= 0xffff_ffff * 0xffff_ffff) by (nonlinear_arith)
            requires
                0 <= width <= 0xffff_ffff,
                0 <= height <= 0xffff_ffff,
        ;
    }
    (width as u64 * height as u64) as usize
}

/// Column `x` of row `y` of the image shows column `x` of row `y` of the picture, and is
/// opaque.
pub proof fn lemma_pixel_at<T>(image: RgbaImage<T>, planes: Planes<T>, opaque: T, x: int, y: int)
    requires
        is_image_of(image, planes, opaque),
        is_complete(planes, image.width, image.height),
        !(planes is FourColor),
        0 <= x < image.width,
        0 <= y < image.height,
    ensures
        ({
            let i = y * image.width + x;
            &&& 0 <= i < planes.count()
            &&& 4 * i + 3 < image.samples@.len()
            &&& image.samples@[4 * i] == planes.rgb(i)[0]
            &&& image.samples@[4 * i + 1] == planes.rgb(i)[1]
            &&& image.samples@[4 * i + 2] == planes.rgb(i)[2]
            &&& image.samples@[4 * i + 3] == opaque
        }),
{
    let w = image.width as int;
    let h = image.height as int;
    let i = y * w + x;
    assert(0 <= i < w * h) by (nonlinear_arith)
        requires
            0 <= x < w,
            0 <= y < h,
            i == y * w + x,
    ;
    let quad = image.samples@.subrange(4 * i, 4 * i + 4);
    assert(quad == planes.rgb(i).push(opaque));
    assert(planes.rgb(i).len() == 3);
    assert(quad[0] == image.samples@[4 * i]);
    assert(quad[1] == image.samples@[4 * i + 1]);
    assert(quad[2] == image.samples@[4 * i + 2]);
    assert(quad[3] == image.samples@[4 * i + 3]);
}

/// A picture of grey samples becomes a grey image.
pub proof fn lemma_monochrome_is_grey<T>(
    image: RgbaImage<T>,
    planes: Planes<T>,
    opaque: T,
    x: int,
    y: int,
)
    requires
        is_image_of(image, planes, opaque),
        is_complete(planes, image.width, image.height),
        planes is Monochrome,
        0 <= x < image.width,
        0 <= y < image.height,
    ensures
        ({
            let i = y * image.width + x;
            &&& image.samples@[4 * i] == image.samples@[4 * i + 1]
            &&& image.samples@[4 * i] == image.samples@[4 * i + 2]
        }),
{
    lemma_pixel_at(image, planes, opaque, x, y);
}

/// A picture has one image at most.
pub proof fn lemma_image_unique<T>(
    a: RgbaImage<T>,
    b: RgbaImage<T>,
    planes: Planes<T>,
    opaque: T,
)
    requires
        is_image_of(a, planes, opaque),
        is_image_of(b, planes, opaque),
        a.width == b.width,
        a.height == b.height,
    ensures
        a.samples@ == b.samples@,
{
    assert forall|k: int| 0 <= k < a.samples@.len() implies a.samples@[k] == b.samples@[k] by {
        let i = k / 4;
        let c = k % 4;
        assert(planes.rgb(i) == planes.rgb(i));
        let qa = a.samples@.subrange(4 * i, 4 * i + 4);
        let qb = b.samples@.subrange(4 * i, 4 * i + 4);
        assert(qa == qb);
        assert(qa[c] == a.samples@[k] && qb[c] == b.samples@[k]);
    }
}

/// Reworking keeps the layout and the number of pixels, and leaves no pixel out: every pixel
/// of three colours is what `pixel` made of the pixel at the same place, every grey sample
/// and every sample of four channels what `scalar` made of it.
pub proof fn lemma_adjust_every_pixel<T: Copy, P: Copy, F, G>(
    planes: Planes<T>,
    tone: P,
    scalar: F,
    pixel: G,
    r: Planes<T>,
) where F: Fn(P, T) -> T, G: Fn(P, [T; 3]) -> [T; 3]
    requires
        call_ensures(adjust::<T, P, F, G>, (planes, tone, &scalar, &pixel), r) || is_adjusted(
            planes,
            r,
            tone,
            scalar,
            pixel,
        ),
    ensures
        planes matches Planes::Monochrome(a) ==> (r matches Planes::Monochrome(b) && a@.len()
            == b@.len() && (forall|i: int|
            0 <= i < a@.len() ==> call_ensures(scalar, (tone, a@[i]), #[trigger] b@[i]))),
        planes matches Planes::ThreeColor(a) ==> (r matches Planes::ThreeColor(b) && a@.len()
            == b@.len() && (forall|i: int|
            0 <= i < a@.len() ==> call_ensures(pixel, (tone, a@[i]), #[trigger] b@[i]))),
        planes matches Planes::FourColor(a) ==> (r matches Planes::FourColor(b) && a@.len()
            == b@.len() && (forall|i: int, c: int|
            0 <= i < a@.len() && 0 <= c < 4 ==> call_ensures(
                scalar,
                (tone, a@[i]@[c]),
                #[trigger] b@[i]@[c],
            ))),
{
}

/// Where red, green, blue and opacity of every pixel of an image come from: column `x` of row
/// `y` shows the pixel that is stored `y` rows and `x` columns on, its three colours in their
/// order, or its grey sample three times.
pub proof fn lemma_samples_of_pixels<T>(image: RgbaImage<T>, planes: Planes<T>, opaque: T)
    requires
        is_image_of(image, planes, opaque),
        !(planes is FourColor),
    ensures
        image.samples@.len() == 4 * (image.width * image.height),
        planes matches Planes::ThreeColor(pixels) ==> forall|x: int, y: int, c: int|
            0 <= x < image.width && 0 <= y < image.height && 0 <= c < 3
                ==> #[trigger] image.samples@[4 * (y * image.width + x) + c] == pixels@[y
                * image.width + x]@[c],
        planes matches Planes::Monochrome(pixels) ==> forall|x: int, y: int, c: int|
            0 <= x < image.width && 0 <= y < image.height && 0 <= c < 3
                ==> #[trigger] image.samples@[4 * (y * image.width + x) + c] == pixels@[y
                * image.width + x],
        forall|x: int, y: int|
            0 <= x < image.width && 0 <= y < image.height ==> #[trigger] image.samples@[4 * (y
                * image.width + x) + 3] == opaque,
{
    let w = image.width as int;
    let h = image.height as int;
    assert(0 <= w * h) by (nonlinear_arith)
        requires
            0 <= w,
            0 <= h,
    ;
    assert forall|x: int, y: int, c: int|
        0 <= x < w && 0 <= y < h && 0 <= c < 4 implies #[trigger] image.samples@[4 * (y * w + x)
        + c] == planes.rgb(y * w + x).push(opaque)[c] by {
        let i = y * w + x;
        assert(0 <= i < w * h) by (nonlinear_arith)
            requires
                0 <= x < w,
                0 <= y < h,
                i == y * w + x,
        ;
        let quad = image.samples@.subrange(4 * i, 4 * i + 4);
        assert(quad == planes.rgb(i).push(opaque));
        assert(quad[c] == image.samples@[4 * i + c]);
    }
}

/// What `assemble` gives: an error for four camera channels and for nothing else, and else an
/// image of the dimensions asked for whose samples are those of the stored pixels.
pub proof fn lemma_assemble_gives<T: Copy, E>(
    planes: &Planes<T>,
    width: u32,
    height: u32,
    opaque: T,
    r: Result<RgbaImage<T>, DevelopError<E>>,
)
    requires
        call_ensures(assemble::<T, E>, (planes, width, height, opaque), r),
    ensures
        *planes is FourColor ==> r matches Err(DevelopError::UnsupportedFormat),
        !(*planes is FourColor) ==> (r matches Ok(image) && image.width == width && image.height
            == height && image.samples@.len() == 4 * (width * height)),
        *planes matches Planes::ThreeColor(pixels) ==> (r matches Ok(image) && (forall|
            x: int,
            y: int,
            c: int,
        |
            0 <= x < width && 0 <= y < height && 0 <= c < 3 ==> #[trigger] image.samples@[4 * (y
                * width + x) + c] == pixels@[y * width + x]@[c])),
        *planes matches Planes::Monochrome(pixels) ==> (r matches Ok(image) && (forall|
            x: int,
            y: int,
            c: int,
        |
            0 <= x < width && 0 <= y < height && 0 <= c < 3 ==> #[trigger] image.samples@[4 * (y
                * width + x) + c] == pixels@[y * width + x])),
        !(*planes is FourColor) ==> (r matches Ok(image) && (forall|x: int, y: int|
            0 <= x < width && 0 <= y < height ==> #[trigger] image.samples@[4 * (y * width + x)
                + 3] == opaque)),
{
    if let Ok(image) = r {
        lemma_samples_of_pixels(image, *planes, opaque);
    }
}

} // verus!
