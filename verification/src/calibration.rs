//! White balance and the camera's colour matrix.
//!
//! The coefficients are floating-point numbers to the rest of the program. Nothing here
//! computes with them, so they may be of any type.
use vstd::prelude::*;

verus! {

/// The light under which a colour matrix was measured.
#[derive(Clone, Copy, Debug, PartialEq, Eq, Structural)]
pub enum Illuminant {
    /// Daylight of 6500 K, under which sRGB is defined.
    D65,
    Other,
}

/// A colour matrix of a camera, from XYZ to camera channels, row by row.
pub struct ColorMatrix<T> {
    pub illuminant: Illuminant,
    pub coefficients: Vec<T>,
}

/// What a raw file says of colour.
pub struct SensorColor<T> {
    /// White balance in the order red, green, blue, emerald.
    pub wb_coeffs: [T; 4],
    /// The file says nothing of white balance.
    pub wb_undefined: bool,
    /// The colour matrices, in no particular order, each illuminant at most once.
    pub matrices: Vec<ColorMatrix<T>>,
}

/// The position of the matrix to use: the first one for D65 if there is one, else the
/// first.
pub open spec fn chosen_matrix<T>(matrices: Seq<ColorMatrix<T>>) -> int {
    if exists|i: int| 0 <= i < matrices.len() && (#[trigger] matrices[i]).illuminant == Illuminant::D65 {
        first_d65(matrices)
    } else {
        0
    }
}

/// The position of the first matrix for D65.
pub open spec fn first_d65<T>(matrices: Seq<ColorMatrix<T>>) -> int {
    choose|i: int|
        {
            &&& 0 <= i < matrices.len()
            &&& (#[trigger] matrices[i]).illuminant == Illuminant::D65
            &&& forall|j: int| 0 <= j < i ==> (#[trigger] matrices[j]).illuminant != Illuminant::D65
        }
}

/// Whole rows of three, and at least three of them.
pub open spec fn is_usable<T>(coefficients: Seq<T>) -> bool {
    coefficients.len() % 3 == 0 && coefficients.len() >= 9
}

/// The first three rows of a matrix that is stored row by row.
pub open spec fn is_three_rows<T>(rows: [[T; 3]; 3], coefficients: Seq<T>) -> bool {
    forall|i: int, j: int|
        0 <= i < 3 && 0 <= j < 3 ==> #[trigger] rows@[i]@[j] == coefficients[3 * i + j]
}

/// The matrix that `camera_matrix` picks, or none.
pub open spec fn is_camera_matrix<T>(
    r: Option<[[T; 3]; 3]>,
    matrices: Seq<ColorMatrix<T>>,
) -> bool {
    if matrices.len() == 0 {
        r is None
    } else {
        let coefficients = matrices[chosen_matrix(matrices)].coefficients@;
        &&& r is Some <==> is_usable(coefficients)
        &&& r is Some ==> is_three_rows(r->0, coefficients)
    }
}

proof fn lemma_first_d65<T>(matrices: Seq<ColorMatrix<T>>, i: int)
    requires
        0 <= i < matrices.len(),
        matrices[i].illuminant == Illuminant::D65,
        forall|j: int| 0 <= j < i ==> (#[trigger] matrices[j]).illuminant != Illuminant::D65,
    ensures
        chosen_matrix(matrices) == i,
{
    let k = first_d65(matrices);
    assert(matrices[k].illuminant == Illuminant::D65);
    if k < i {
        assert(matrices[k].illuminant != Illuminant::D65);
    } else if i < k {
        assert(matrices[i].illuminant != Illuminant::D65);
    }
}

/// The position of the matrix to use.
fn choose_matrix<T>(matrices: &Vec<ColorMatrix<T>>) -> (r: usize)
    ensures
        r == chosen_matrix(matrices@),
        matrices@.len() > 0 ==> r < matrices@.len(),
{
    let mut i: usize = 0;
    while i < matrices.len()
        invariant
            i <= matrices@.len(),
            forall|j: int| 0 <= j < i ==> (#[trigger] matrices@[j]).illuminant != Illuminant::D65,
        decreases matrices.len() - i,
    {
        if matches!(matrices[i].illuminant, Illuminant::D65) {
            proof {
                lemma_first_d65(matrices@, i as int);
            }
            return i;
        }
        i = i + 1;
    }
    0
}

/// The first three rows of a matrix that is stored row by row, if it is made of whole
/// rows and has that many.
pub fn three_rows<T: Copy>(coefficients: &Vec<T>) -> (r: Option<[[T; 3]; 3]>)
    ensures
        r is Some <==> is_usable(coefficients@),
        r is Some ==> is_three_rows(r->0, coefficients@),
{
    if coefficients.len() % 3 != 0 || coefficients.len() < 9 {
        return None;
    }
    let rows = [
        [coefficients[0], coefficients[1], coefficients[2]],
        [coefficients[3], coefficients[4], coefficients[5]],
        [coefficients[6], coefficients[7], coefficients[8]],
    ];
    Some(rows)
}

/// The matrix from XYZ to camera channels: that for D65 where the file has one, since
/// sRGB is defined under that light, and otherwise the first of those it has.
pub fn camera_matrix<T: Copy>(matrices: &Vec<ColorMatrix<T>>) -> (r: Option<[[T; 3]; 3]>)
    ensures
        is_camera_matrix(r, matrices@),
{
    if matrices.len() == 0 {
        return None;
    }
    let chosen: usize = choose_matrix(matrices);
    three_rows(&matrices[chosen].coefficients)
}

/// The factors by which red, green and blue are multiplied.
pub open spec fn white_balance_of<T>(
    color: SensorColor<T>,
    apply_calibration: bool,
    one: T,
) -> Seq<T> {
    if color.wb_undefined || !apply_calibration {
        seq![one, one, one]
    } else {
        color.wb_coeffs@.take(3)
    }
}

/// The factors by which red, green and blue are multiplied: those of the file, or all
/// one where the file has none or calibration is off.
pub fn white_balance<T: Copy>(color: &SensorColor<T>, apply_calibration: bool, one: T) -> (r: [T;
    3])
    ensures
        r@ == white_balance_of(*color, apply_calibration, one),
{
    if color.wb_undefined || !apply_calibration {
        [one, one, one]
    } else {
        [color.wb_coeffs[0], color.wb_coeffs[1], color.wb_coeffs[2]]
    }
}

/// With a matrix for D65 in the file, the order in which the matrices come does not
/// matter.
pub proof fn lemma_d65_order_free<T>(a: Seq<ColorMatrix<T>>, b: Seq<ColorMatrix<T>>, i: int, j: int)
    requires
        0 <= i < a.len(),
        0 <= j < b.len(),
        a[i].illuminant == Illuminant::D65,
        b[j] == a[i],
        forall|k: int| 0 <= k < a.len() && k != i ==> (#[trigger] a[k]).illuminant != Illuminant::D65,
        forall|k: int| 0 <= k < b.len() && k != j ==> (#[trigger] b[k]).illuminant != Illuminant::D65,
    ensures
        a[chosen_matrix(a)] == b[chosen_matrix(b)],
        forall|r: Option<[[T; 3]; 3]>| is_camera_matrix(r, a) <==> is_camera_matrix(r, b),
{
    lemma_first_d65(a, i);
    lemma_first_d65(b, j);
}

/// The factors of white balance are those of the file, red, green and blue in their order, if
/// the file has some and calibration is on, and one otherwise.
pub proof fn lemma_white_balance_gives<T: Copy>(
    color: &SensorColor<T>,
    apply_calibration: bool,
    one: T,
    r: [T; 3],
)
    requires
        call_ensures(white_balance::<T>, (color, apply_calibration, one), r),
    ensures
        apply_calibration && !color.wb_undefined ==> forall|c: int|
            0 <= c < 3 ==> #[trigger] r@[c] == color.wb_coeffs@[c],
        !apply_calibration || color.wb_undefined ==> forall|c: int|
            0 <= c < 3 ==> #[trigger] r@[c] == one,
{
}

/// Which matrix is picked: one for D65 that no other for D65 stands before, or the first of
/// all where there is none for D65. It is used if it has at least three rows and no broken
/// one, and then row by row as it is stored.
pub proof fn lemma_camera_matrix_is<T>(r: Option<[[T; 3]; 3]>, matrices: Seq<ColorMatrix<T>>)
    requires
        is_camera_matrix(r, matrices),
    ensures
        matrices.len() == 0 ==> r is None,
        forall|k: int|
            0 <= k < matrices.len() && (#[trigger] matrices[k]).illuminant == Illuminant::D65 && (
            forall|j: int|
                0 <= j < k ==> (#[trigger] matrices[j]).illuminant != Illuminant::D65) ==> (r is Some
                <==> matrices[k].coefficients@.len() >= 9 && matrices[k].coefficients@.len() % 3
                == 0) && (r is Some ==> forall|i: int, j: int|
                0 <= i < 3 && 0 <= j < 3 ==> #[trigger] (r->0)@[i]@[j]
                    == matrices[k].coefficients@[3 * i + j]),
        matrices.len() > 0 && (forall|j: int|
            0 <= j < matrices.len() ==> (#[trigger] matrices[j]).illuminant != Illuminant::D65)
            ==> (r is Some <==> matrices[0].coefficients@.len() >= 9
            && matrices[0].coefficients@.len() % 3 == 0) && (r is Some ==> forall|i: int, j: int|
            0 <= i < 3 && 0 <= j < 3 ==> #[trigger] (r->0)@[i]@[j]
                == matrices[0].coefficients@[3 * i + j]),
{
    assert forall|k: int|
        0 <= k < matrices.len() && (#[trigger] matrices[k]).illuminant == Illuminant::D65 && (
        forall|j: int|
            0 <= j < k ==> (#[trigger] matrices[j]).illuminant != Illuminant::D65) implies (r is Some
        <==> matrices[k].coefficients@.len() >= 9 && matrices[k].coefficients@.len() % 3 == 0) && (
    r is Some ==> forall|i: int, j: int|
        0 <= i < 3 && 0 <= j < 3 ==> #[trigger] (r->0)@[i]@[j] == matrices[k].coefficients@[3 * i
            + j]) by {
        lemma_first_d65(matrices, k);
    }
}

/// `camera_matrix` picks as `lemma_camera_matrix_is` says: a matrix for D65 wins over every
/// other, and a file without one is served by its first.
pub proof fn lemma_camera_matrix_gives<T: Copy>(
    matrices: &Vec<ColorMatrix<T>>,
    k: int,
    r: Option<[[T; 3]; 3]>,
)
    requires
        call_ensures(camera_matrix::<T>, (matrices,), r),
        0 <= k < matrices@.len(),
        forall|j: int|
            0 <= j < k ==> (#[trigger] matrices@[j]).illuminant != Illuminant::D65,
        matrices@[k].illuminant == Illuminant::D65 || (k == 0 && forall|j: int|
            0 <= j < matrices@.len() ==> (#[trigger] matrices@[j]).illuminant
                != Illuminant::D65),
    ensures
        r is Some <==> matrices@[k].coefficients@.len() >= 9 && matrices@[k].coefficients@.len()
            % 3 == 0,
        r is Some ==> forall|i: int, j: int|
            0 <= i < 3 && 0 <= j < 3 ==> #[trigger] (r->0)@[i]@[j]
                == matrices@[k].coefficients@[3 * i + j],
{
    lemma_camera_matrix_is(r, matrices@);
}

/// A file without matrices has none to pick.
pub proof fn lemma_no_matrices<T: Copy>(matrices: &Vec<ColorMatrix<T>>, r: Option<[[T; 3]; 3]>)
    requires
        call_ensures(camera_matrix::<T>, (matrices,), r),
        matrices@.len() == 0,
    ensures
        r is None,
{
}

/// A stored matrix is cut to its first three rows if it has them and no broken one.
pub proof fn lemma_three_rows_gives<T: Copy>(coefficients: &Vec<T>, r: Option<[[T; 3]; 3]>)
    requires
        call_ensures(three_rows::<T>, (coefficients,), r),
    ensures
        r is Some <==> coefficients@.len() >= 9 && coefficients@.len() % 3 == 0,
        r is Some ==> forall|i: int, j: int|
            0 <= i < 3 && 0 <= j < 3 ==> #[trigger] (r->0)@[i]@[j] == coefficients@[3 * i + j],
{
}

} // verus!
