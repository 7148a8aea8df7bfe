//! Affine transforms: a 4x4 matrix kept together with its inverse.
use vstd::prelude::*;
use vstd::arithmetic::mul::{
    lemma_mul_is_associative, lemma_mul_is_distributive_add,
    lemma_mul_is_distributive_add_other_way,
};
use crate::point::Point3;
use crate::scalar::{div_trunc, div_trunc_i64, fits};
use crate::vector::{cross3, dot3, fits3, lemma_small_cross, negatable3, neg3, sub3, unit_along3, Tuple3, Vector3};

verus! {

/// The entry in row `i`, column `j` of a row-major 4x4 matrix.
pub open spec fn mentry(m: Seq<i64>, i: int, j: int) -> int {
    m[4 * i + j] as int
}

pub open spec fn identity_entry(i: int, j: int) -> int {
    if i == j {
        1
    } else {
        0
    }
}

/// Entry `(i, j)` of the product `a * b`.
pub open spec fn row_col(a: Seq<i64>, b: Seq<i64>, i: int, j: int) -> int {
    mentry(a, i, 0) * mentry(b, 0, j) + mentry(a, i, 1) * mentry(b, 1, j) + mentry(a, i, 2) * mentry(
        b,
        2,
        j,
    ) + mentry(a, i, 3) * mentry(b, 3, j)
}

/// Each product and partial sum of entry `(i, j)` of `a * b` fits a coordinate.
pub open spec fn row_col_fits(a: Seq<i64>, b: Seq<i64>, i: int, j: int) -> bool {
    &&& fits(mentry(a, i, 0) * mentry(b, 0, j))
    &&& fits(mentry(a, i, 1) * mentry(b, 1, j))
    &&& fits(mentry(a, i, 2) * mentry(b, 2, j))
    &&& fits(mentry(a, i, 3) * mentry(b, 3, j))
    &&& fits(mentry(a, i, 0) * mentry(b, 0, j) + mentry(a, i, 1) * mentry(b, 1, j))
    &&& fits(
        mentry(a, i, 0) * mentry(b, 0, j) + mentry(a, i, 1) * mentry(b, 1, j) + mentry(a, i, 2)
            * mentry(b, 2, j),
    )
    &&& fits(row_col(a, b, i, j))
}

/// Every entry of `a * b` can be computed with machine integers.
pub open spec fn mul_fits(a: Seq<i64>, b: Seq<i64>) -> bool {
    row_col_fits(a, b, 0, 0)
    && row_col_fits(a, b, 0, 1)
    && row_col_fits(a, b, 0, 2)
    && row_col_fits(a, b, 0, 3)
    && row_col_fits(a, b, 1, 0)
    && row_col_fits(a, b, 1, 1)
    && row_col_fits(a, b, 1, 2)
    && row_col_fits(a, b, 1, 3)
    && row_col_fits(a, b, 2, 0)
    && row_col_fits(a, b, 2, 1)
    && row_col_fits(a, b, 2, 2)
    && row_col_fits(a, b, 2, 3)
    && row_col_fits(a, b, 3, 0)
    && row_col_fits(a, b, 3, 1)
    && row_col_fits(a, b, 3, 2)
    && row_col_fits(a, b, 3, 3)
}

/// `r` holds the product `a * b`.
pub open spec fn is_product(r: Seq<i64>, a: Seq<i64>, b: Seq<i64>) -> bool {
    mentry(r, 0, 0) == row_col(a, b, 0, 0)
    && mentry(r, 0, 1) == row_col(a, b, 0, 1)
    && mentry(r, 0, 2) == row_col(a, b, 0, 2)
    && mentry(r, 0, 3) == row_col(a, b, 0, 3)
    && mentry(r, 1, 0) == row_col(a, b, 1, 0)
    && mentry(r, 1, 1) == row_col(a, b, 1, 1)
    && mentry(r, 1, 2) == row_col(a, b, 1, 2)
    && mentry(r, 1, 3) == row_col(a, b, 1, 3)
    && mentry(r, 2, 0) == row_col(a, b, 2, 0)
    && mentry(r, 2, 1) == row_col(a, b, 2, 1)
    && mentry(r, 2, 2) == row_col(a, b, 2, 2)
    && mentry(r, 2, 3) == row_col(a, b, 2, 3)
    && mentry(r, 3, 0) == row_col(a, b, 3, 0)
    && mentry(r, 3, 1) == row_col(a, b, 3, 1)
    && mentry(r, 3, 2) == row_col(a, b, 3, 2)
    && mentry(r, 3, 3) == row_col(a, b, 3, 3)
}

/// The product `a * b` is the identity matrix.
pub open spec fn is_identity_product(a: Seq<i64>, b: Seq<i64>) -> bool {
    row_col(a, b, 0, 0) == 1
    && row_col(a, b, 0, 1) == 0
    && row_col(a, b, 0, 2) == 0
    && row_col(a, b, 0, 3) == 0
    && row_col(a, b, 1, 0) == 0
    && row_col(a, b, 1, 1) == 1
    && row_col(a, b, 1, 2) == 0
    && row_col(a, b, 1, 3) == 0
    && row_col(a, b, 2, 0) == 0
    && row_col(a, b, 2, 1) == 0
    && row_col(a, b, 2, 2) == 1
    && row_col(a, b, 2, 3) == 0
    && row_col(a, b, 3, 0) == 0
    && row_col(a, b, 3, 1) == 0
    && row_col(a, b, 3, 2) == 0
    && row_col(a, b, 3, 3) == 1
}

/// `r` is the transpose of `m`.
pub open spec fn is_transpose(r: Seq<i64>, m: Seq<i64>) -> bool {
    mentry(r, 0, 0) == mentry(m, 0, 0)
    && mentry(r, 0, 1) == mentry(m, 1, 0)
    && mentry(r, 0, 2) == mentry(m, 2, 0)
    && mentry(r, 0, 3) == mentry(m, 3, 0)
    && mentry(r, 1, 0) == mentry(m, 0, 1)
    && mentry(r, 1, 1) == mentry(m, 1, 1)
    && mentry(r, 1, 2) == mentry(m, 2, 1)
    && mentry(r, 1, 3) == mentry(m, 3, 1)
    && mentry(r, 2, 0) == mentry(m, 0, 2)
    && mentry(r, 2, 1) == mentry(m, 1, 2)
    && mentry(r, 2, 2) == mentry(m, 2, 2)
    && mentry(r, 2, 3) == mentry(m, 3, 2)
    && mentry(r, 3, 0) == mentry(m, 0, 3)
    && mentry(r, 3, 1) == mentry(m, 1, 3)
    && mentry(r, 3, 2) == mentry(m, 2, 3)
    && mentry(r, 3, 3) == mentry(m, 3, 3)
}

/// `m` and `n` are each other's inverse.
pub open spec fn mutually_inverse(m: Seq<i64>, n: Seq<i64>) -> bool {
    is_identity_product(m, n) && is_identity_product(n, m)
}

/// The 4x4 identity matrix.
pub open spec fn identity_seq() -> Seq<i64> {
    seq![1i64, 0i64, 0i64, 0i64, 0i64, 1i64, 0i64, 0i64, 0i64, 0i64, 1i64, 0i64, 0i64, 0i64, 0i64, 1i64]
}

/// `m` is the identity matrix.
pub open spec fn is_identity_matrix(m: Seq<i64>) -> bool {
    mentry(m, 0, 0) == 1
    && mentry(m, 0, 1) == 0
    && mentry(m, 0, 2) == 0
    && mentry(m, 0, 3) == 0
    && mentry(m, 1, 0) == 0
    && mentry(m, 1, 1) == 1
    && mentry(m, 1, 2) == 0
    && mentry(m, 1, 3) == 0
    && mentry(m, 2, 0) == 0
    && mentry(m, 2, 1) == 0
    && mentry(m, 2, 2) == 1
    && mentry(m, 2, 3) == 0
    && mentry(m, 3, 0) == 0
    && mentry(m, 3, 1) == 0
    && mentry(m, 3, 2) == 0
    && mentry(m, 3, 3) == 1
}

proof fn lemma_identity_product(r: Seq<i64>, a: Seq<i64>, b: Seq<i64>)
    requires
        is_product(r, a, b),
        is_identity_matrix(r),
    ensures
        is_identity_product(a, b),
{
}

/// `x * y`, which always fits 128 bits.
fn mul_wide(x: i64, y: i64) -> (r: i128)
    ensures
        r == x * y,
{
    proof {
        assert(-0x4000_0000_0000_0000_0000_0000_0000_0000 <= x * y
            <= 0x4000_0000_0000_0000_0000_0000_0000_0000) by (nonlinear_arith)
            requires
                -0x8000_0000_0000_0000 <= x <= 0x7fff_ffff_ffff_ffff,
                -0x8000_0000_0000_0000 <= y <= 0x7fff_ffff_ffff_ffff,
        ;
    }
    (x as i128) * (y as i128)
}

fn fits_i64(v: i128) -> (r: bool)
    ensures
        r == fits(v as int),
{
    i64::MIN as i128 <= v && v <= i64::MAX as i128
}

/// Entry `(i, j)` of `a * b`, or `None` where a product or partial sum
/// does not fit a coordinate.
fn row_col_checked(a: &[i64; 16], b: &[i64; 16], i: usize, j: usize) -> (r: Option<i64>)
    requires
        i < 4,
        j < 4,
    ensures
        r.is_some() == row_col_fits(a@, b@, i as int, j as int),
        r.is_some() ==> r.unwrap() == row_col(a@, b@, i as int, j as int),
{
    let t0 = mul_wide(a[4 * i], b[j]);
    let t1 = mul_wide(a[4 * i + 1], b[4 + j]);
    let t2 = mul_wide(a[4 * i + 2], b[8 + j]);
    let t3 = mul_wide(a[4 * i + 3], b[12 + j]);
    if !fits_i64(t0) || !fits_i64(t1) || !fits_i64(t2) || !fits_i64(t3) {
        return None;
    }
    let s1 = t0 + t1;
    if !fits_i64(s1) {
        return None;
    }
    let s2 = s1 + t2;
    if !fits_i64(s2) {
        return None;
    }
    let s3 = s2 + t3;
    if !fits_i64(s3) {
        return None;
    }
    Some(s3 as i64)
}

/// A 4x4 matrix of integers, row by row.
#[derive(Clone, Copy, Debug, PartialEq, Eq)]
pub struct Matrix4x4 {
    pub m: [i64; 16],
}

impl View for Matrix4x4 {
    type V = Seq<i64>;

    open spec fn view(&self) -> Seq<i64> {
        self.m@
    }
}

impl Matrix4x4 {
    /// The matrix with rows `(t00, t01, t02, t03)` to `(t30, t31, t32, t33)`.
    pub fn new(t00: i64, t01: i64, t02: i64, t03: i64, t10: i64, t11: i64, t12: i64, t13: i64, t20: i64, t21: i64, t22: i64, t23: i64, t30: i64, t31: i64, t32: i64, t33: i64) -> (r: Self)
        ensures
            r@ == seq![t00, t01, t02, t03, t10, t11, t12, t13, t20, t21, t22, t23, t30, t31, t32, t33],
    {
        Matrix4x4 { m: [t00, t01, t02, t03, t10, t11, t12, t13, t20, t21, t22, t23, t30, t31, t32, t33] }
    }

    pub fn zeros() -> (r: Self)
        ensures
            r@ == seq![0i64, 0i64, 0i64, 0i64, 0i64, 0i64, 0i64, 0i64, 0i64, 0i64, 0i64, 0i64, 0i64, 0i64, 0i64, 0i64],
    {
        Matrix4x4 { m: [0, 0, 0, 0, 0, 0, 0, 0, 0, 0, 0, 0, 0, 0, 0, 0] }
    }

    pub fn identity() -> (r: Self)
        ensures
            r@ == identity_seq(),
    {
        Matrix4x4 { m: [1, 0, 0, 0, 0, 1, 0, 0, 0, 0, 1, 0, 0, 0, 0, 1] }
    }

    /// The entry in row `i`, column `j`.
    pub fn get(&self, i: usize, j: usize) -> (r: i64)
        requires
            i < 4,
            j < 4,
        ensures
            r == mentry(self@, i as int, j as int),
    {
        self.m[4 * i + j]
    }

    /// Sets the entry in row `i`, column `j`.
    pub fn set(&mut self, i: usize, j: usize, v: i64)
        requires
            i < 4,
            j < 4,
        ensures
            final(self)@ == old(self)@.update(4 * i + j, v),
    {
        self.m[4 * i + j] = v;
    }

    pub fn transpose(&self) -> (r: Matrix4x4)
        ensures
            is_transpose(r@, self@),
    {
        Matrix4x4 { m: [self.m[0], self.m[4], self.m[8], self.m[12], self.m[1], self.m[5], self.m[9], self.m[13], self.m[2], self.m[6], self.m[10], self.m[14], self.m[3], self.m[7], self.m[11], self.m[15]] }
    }

    /// The product `self * other`, or `None` where some entry cannot be
    /// computed with machine integers.
    pub fn checked_mul(&self, other: &Matrix4x4) -> (r: Option<Matrix4x4>)
        ensures
            r.is_some() == mul_fits(self@, other@),
            r.is_some() ==> is_product(r.unwrap()@, self@, other@),
    {
        let e00 = match row_col_checked(&self.m, &other.m, 0, 0) {
            Some(v) => v,
            None => return None,
        };
        let e01 = match row_col_checked(&self.m, &other.m, 0, 1) {
            Some(v) => v,
            None => return None,
        };
        let e02 = match row_col_checked(&self.m, &other.m, 0, 2) {
            Some(v) => v,
            None => return None,
        };
        let e03 = match row_col_checked(&self.m, &other.m, 0, 3) {
            Some(v) => v,
            None => return None,
        };
        let e10 = match row_col_checked(&self.m, &other.m, 1, 0) {
            Some(v) => v,
            None => return None,
        };
        let e11 = match row_col_checked(&self.m, &other.m, 1, 1) {
            Some(v) => v,
            None => return None,
        };
        let e12 = match row_col_checked(&self.m, &other.m, 1, 2) {
            Some(v) => v,
            None => return None,
        };
        let e13 = match row_col_checked(&self.m, &other.m, 1, 3) {
            Some(v) => v,
            None => return None,
        };
        let e20 = match row_col_checked(&self.m, &other.m, 2, 0) {
            Some(v) => v,
            None => return None,
        };
        let e21 = match row_col_checked(&self.m, &other.m, 2, 1) {
            Some(v) => v,
            None => return None,
        };
        let e22 = match row_col_checked(&self.m, &other.m, 2, 2) {
            Some(v) => v,
            None => return None,
        };
        let e23 = match row_col_checked(&self.m, &other.m, 2, 3) {
            Some(v) => v,
            None => return None,
        };
        let e30 = match row_col_checked(&self.m, &other.m, 3, 0) {
            Some(v) => v,
            None => return None,
        };
        let e31 = match row_col_checked(&self.m, &other.m, 3, 1) {
            Some(v) => v,
            None => return None,
        };
        let e32 = match row_col_checked(&self.m, &other.m, 3, 2) {
            Some(v) => v,
            None => return None,
        };
        let e33 = match row_col_checked(&self.m, &other.m, 3, 3) {
            Some(v) => v,
            None => return None,
        };
        Some(Matrix4x4 { m: [e00, e01, e02, e03, e10, e11, e12, e13, e20, e21, e22, e23, e30, e31, e32, e33] })
    }

    /// The product `self * other`.
    pub fn mul(&self, other: &Matrix4x4) -> (r: Matrix4x4)
        requires
            mul_fits(self@, other@),
        ensures
            is_product(r@, self@, other@),
    {
        self.checked_mul(other).unwrap()
    }

    pub fn is_identity(&self) -> (r: bool)
        ensures
            r == is_identity_matrix(self@),
    {
        self.m[0] == 1 && self.m[1] == 0 && self.m[2] == 0 && self.m[3] == 0 && self.m[4] == 0 && self.m[5] == 1 && self.m[6] == 0 && self.m[7] == 0 && self.m[8] == 0 && self.m[9] == 0 && self.m[10] == 1 && self.m[11] == 0 && self.m[12] == 0 && self.m[13] == 0 && self.m[14] == 0 && self.m[15] == 1
    }
}

/// Why a transform cannot be built.
#[derive(Clone, Copy, Debug, PartialEq, Eq, Structural)]
pub enum DegenerateTransform {
    /// The matrix has no inverse.
    Singular,
    /// The transform or its inverse has entries that are not whole numbers.
    NotIntegral,
    /// The two matrices given are not each other's inverse, or checking it
    /// overflows.
    NotInverse,
}

/// The matrix that moves points by `v`.
pub open spec fn shift_matrix(v: Tuple3) -> Seq<i64> {
    seq![
        1i64, 0, 0, v.0 as i64,
        0, 1, 0, v.1 as i64,
        0, 0, 1, v.2 as i64,
        0, 0, 0, 1,
    ]
}

pub open spec fn scaling(x: i64, y: i64, z: i64) -> Seq<i64> {
    seq![x, 0, 0, 0, 0, y, 0, 0, 0, 0, z, 0, 0, 0, 0, 1i64]
}

/// The number of quarter turns in `theta` degrees, from 0 to 3.
pub open spec fn quarter_turns(theta: int) -> int {
    (theta / 90) % 4
}

/// The cosine of a whole number of quarter turns.
pub open spec fn quarter_cos(k: int) -> i64 {
    if k == 0 {
        1
    } else if k == 2 {
        -1i64
    } else {
        0
    }
}

/// The sine of a whole number of quarter turns.
pub open spec fn quarter_sin(k: int) -> i64 {
    if k == 1 {
        1
    } else if k == 3 {
        -1i64
    } else {
        0
    }
}

pub open spec fn rotation_x(c: i64, s: i64) -> Seq<i64> {
    seq![1i64, 0, 0, 0, 0, c, (-s) as i64, 0, 0, s, c, 0, 0, 0, 0, 1]
}

pub open spec fn rotation_y(c: i64, s: i64) -> Seq<i64> {
    seq![c, 0, s, 0, 0, 1i64, 0, 0, (-s) as i64, 0, c, 0, 0, 0, 0, 1]
}

pub open spec fn rotation_z(c: i64, s: i64) -> Seq<i64> {
    seq![c, (-s) as i64, 0, 0, s, c, 0, 0, 0, 0, 1i64, 0, 0, 0, 0, 1]
}

/// The quarter-turn count of `theta` degrees, where `theta` is a whole
/// number of quarter turns.
fn quarter_turns_exec(theta: i64) -> (r: Option<i64>)
    ensures
        r.is_some() == (theta % 90 == 0),
        r.is_some() ==> r.unwrap() == quarter_turns(theta as int) && 0 <= r.unwrap() < 4,
{
    // Shift by a multiple of 360 degrees so that the angle is not negative.
    let shifted: i128 = theta as i128 + 360 * 0x100_0000_0000_0000i128;
    let u = shifted as u128;
    if u % 90 != 0 {
        return None;
    }
    let k = (u / 90) % 4;
    Some(k as i64)
}

fn quarter_cos_sin(k: i64) -> (r: (i64, i64))
    requires
        0 <= k < 4,
    ensures
        r == (quarter_cos(k as int), quarter_sin(k as int)),
{
    if k == 0 {
        (1, 0)
    } else if k == 1 {
        (0, 1)
    } else if k == 2 {
        (-1, 0)
    } else {
        (0, -1)
    }
}

/// Entry `(i, j)` of `a * b` from the entries it is made of.
proof fn lemma_row_col_values(
    a: Seq<i64>,
    b: Seq<i64>,
    i: int,
    j: int,
    a0: int,
    a1: int,
    a2: int,
    a3: int,
    b0: int,
    b1: int,
    b2: int,
    b3: int,
)
    requires
        mentry(a, i, 0) == a0,
        mentry(a, i, 1) == a1,
        mentry(a, i, 2) == a2,
        mentry(a, i, 3) == a3,
        mentry(b, 0, j) == b0,
        mentry(b, 1, j) == b1,
        mentry(b, 2, j) == b2,
        mentry(b, 3, j) == b3,
    ensures
        row_col(a, b, i, j) == a0 * b0 + a1 * b1 + a2 * b2 + a3 * b3,
{
}

/// Entry `(i, j)` of `a * b` and whether it can be computed, from the
/// entries it is made of.
proof fn lemma_row_col_fits_values(
    a: Seq<i64>,
    b: Seq<i64>,
    i: int,
    j: int,
    a0: int,
    a1: int,
    a2: int,
    a3: int,
    b0: int,
    b1: int,
    b2: int,
    b3: int,
)
    requires
        mentry(a, i, 0) == a0,
        mentry(a, i, 1) == a1,
        mentry(a, i, 2) == a2,
        mentry(a, i, 3) == a3,
        mentry(b, 0, j) == b0,
        mentry(b, 1, j) == b1,
        mentry(b, 2, j) == b2,
        mentry(b, 3, j) == b3,
    ensures
        row_col(a, b, i, j) == a0 * b0 + a1 * b1 + a2 * b2 + a3 * b3,
        row_col_fits(a, b, i, j) == (fits(a0 * b0) && fits(a1 * b1) && fits(a2 * b2) && fits(
            a3 * b3,
        ) && fits(a0 * b0 + a1 * b1) && fits(a0 * b0 + a1 * b1 + a2 * b2) && fits(
            a0 * b0 + a1 * b1 + a2 * b2 + a3 * b3,
        )),
{
}

#[verifier::spinoff_prover]
proof fn lemma_shift_inverse(v: Tuple3)
    requires
        fits3(v),
        negatable3(v),
    ensures
        mutually_inverse(shift_matrix(v), shift_matrix(neg3(v))),
{
    let a = shift_matrix(v);
    let b = shift_matrix(neg3(v));
    lemma_row_col_values(a, b, 0, 0, 1, 0, 0, v.0, 1, 0, 0, 0);
    lemma_row_col_values(a, b, 0, 1, 1, 0, 0, v.0, 0, 1, 0, 0);
    lemma_row_col_values(a, b, 0, 2, 1, 0, 0, v.0, 0, 0, 1, 0);
    lemma_row_col_values(a, b, 0, 3, 1, 0, 0, v.0, -v.0, -v.1, -v.2, 1);
    lemma_row_col_values(a, b, 1, 0, 0, 1, 0, v.1, 1, 0, 0, 0);
    lemma_row_col_values(a, b, 1, 1, 0, 1, 0, v.1, 0, 1, 0, 0);
    lemma_row_col_values(a, b, 1, 2, 0, 1, 0, v.1, 0, 0, 1, 0);
    lemma_row_col_values(a, b, 1, 3, 0, 1, 0, v.1, -v.0, -v.1, -v.2, 1);
    lemma_row_col_values(a, b, 2, 0, 0, 0, 1, v.2, 1, 0, 0, 0);
    lemma_row_col_values(a, b, 2, 1, 0, 0, 1, v.2, 0, 1, 0, 0);
    lemma_row_col_values(a, b, 2, 2, 0, 0, 1, v.2, 0, 0, 1, 0);
    lemma_row_col_values(a, b, 2, 3, 0, 0, 1, v.2, -v.0, -v.1, -v.2, 1);
    lemma_row_col_values(a, b, 3, 0, 0, 0, 0, 1, 1, 0, 0, 0);
    lemma_row_col_values(a, b, 3, 1, 0, 0, 0, 1, 0, 1, 0, 0);
    lemma_row_col_values(a, b, 3, 2, 0, 0, 0, 1, 0, 0, 1, 0);
    lemma_row_col_values(a, b, 3, 3, 0, 0, 0, 1, -v.0, -v.1, -v.2, 1);
    lemma_row_col_values(b, a, 0, 0, 1, 0, 0, -v.0, 1, 0, 0, 0);
    lemma_row_col_values(b, a, 0, 1, 1, 0, 0, -v.0, 0, 1, 0, 0);
    lemma_row_col_values(b, a, 0, 2, 1, 0, 0, -v.0, 0, 0, 1, 0);
    lemma_row_col_values(b, a, 0, 3, 1, 0, 0, -v.0, v.0, v.1, v.2, 1);
    lemma_row_col_values(b, a, 1, 0, 0, 1, 0, -v.1, 1, 0, 0, 0);
    lemma_row_col_values(b, a, 1, 1, 0, 1, 0, -v.1, 0, 1, 0, 0);
    lemma_row_col_values(b, a, 1, 2, 0, 1, 0, -v.1, 0, 0, 1, 0);
    lemma_row_col_values(b, a, 1, 3, 0, 1, 0, -v.1, v.0, v.1, v.2, 1);
    lemma_row_col_values(b, a, 2, 0, 0, 0, 1, -v.2, 1, 0, 0, 0);
    lemma_row_col_values(b, a, 2, 1, 0, 0, 1, -v.2, 0, 1, 0, 0);
    lemma_row_col_values(b, a, 2, 2, 0, 0, 1, -v.2, 0, 0, 1, 0);
    lemma_row_col_values(b, a, 2, 3, 0, 0, 1, -v.2, v.0, v.1, v.2, 1);
    lemma_row_col_values(b, a, 3, 0, 0, 0, 0, 1, 1, 0, 0, 0);
    lemma_row_col_values(b, a, 3, 1, 0, 0, 0, 1, 0, 1, 0, 0);
    lemma_row_col_values(b, a, 3, 2, 0, 0, 0, 1, 0, 0, 1, 0);
    lemma_row_col_values(b, a, 3, 3, 0, 0, 0, 1, v.0, v.1, v.2, 1);
}

#[verifier::spinoff_prover]
proof fn lemma_scaling_inverse(x: i64, y: i64, z: i64)
    requires
        x == 1 || x == -1,
        y == 1 || y == -1,
        z == 1 || z == -1,
    ensures
        mutually_inverse(scaling(x, y, z), scaling(x, y, z)),
{
    let a = scaling(x, y, z);
    assert(x * x == 1 && y * y == 1 && z * z == 1);
    lemma_row_col_values(a, a, 0, 0, x as int, 0, 0, 0, x as int, 0, 0, 0);
    lemma_row_col_values(a, a, 0, 1, x as int, 0, 0, 0, 0, y as int, 0, 0);
    lemma_row_col_values(a, a, 0, 2, x as int, 0, 0, 0, 0, 0, z as int, 0);
    lemma_row_col_values(a, a, 0, 3, x as int, 0, 0, 0, 0, 0, 0, 1);
    lemma_row_col_values(a, a, 1, 0, 0, y as int, 0, 0, x as int, 0, 0, 0);
    lemma_row_col_values(a, a, 1, 1, 0, y as int, 0, 0, 0, y as int, 0, 0);
    lemma_row_col_values(a, a, 1, 2, 0, y as int, 0, 0, 0, 0, z as int, 0);
    lemma_row_col_values(a, a, 1, 3, 0, y as int, 0, 0, 0, 0, 0, 1);
    lemma_row_col_values(a, a, 2, 0, 0, 0, z as int, 0, x as int, 0, 0, 0);
    lemma_row_col_values(a, a, 2, 1, 0, 0, z as int, 0, 0, y as int, 0, 0);
    lemma_row_col_values(a, a, 2, 2, 0, 0, z as int, 0, 0, 0, z as int, 0);
    lemma_row_col_values(a, a, 2, 3, 0, 0, z as int, 0, 0, 0, 0, 1);
    lemma_row_col_values(a, a, 3, 0, 0, 0, 0, 1, x as int, 0, 0, 0);
    lemma_row_col_values(a, a, 3, 1, 0, 0, 0, 1, 0, y as int, 0, 0);
    lemma_row_col_values(a, a, 3, 2, 0, 0, 0, 1, 0, 0, z as int, 0);
    lemma_row_col_values(a, a, 3, 3, 0, 0, 0, 1, 0, 0, 0, 1);
    lemma_row_col_values(a, a, 0, 0, x as int, 0, 0, 0, x as int, 0, 0, 0);
    lemma_row_col_values(a, a, 0, 1, x as int, 0, 0, 0, 0, y as int, 0, 0);
    lemma_row_col_values(a, a, 0, 2, x as int, 0, 0, 0, 0, 0, z as int, 0);
    lemma_row_col_values(a, a, 0, 3, x as int, 0, 0, 0, 0, 0, 0, 1);
    lemma_row_col_values(a, a, 1, 0, 0, y as int, 0, 0, x as int, 0, 0, 0);
    lemma_row_col_values(a, a, 1, 1, 0, y as int, 0, 0, 0, y as int, 0, 0);
    lemma_row_col_values(a, a, 1, 2, 0, y as int, 0, 0, 0, 0, z as int, 0);
    lemma_row_col_values(a, a, 1, 3, 0, y as int, 0, 0, 0, 0, 0, 1);
    lemma_row_col_values(a, a, 2, 0, 0, 0, z as int, 0, x as int, 0, 0, 0);
    lemma_row_col_values(a, a, 2, 1, 0, 0, z as int, 0, 0, y as int, 0, 0);
    lemma_row_col_values(a, a, 2, 2, 0, 0, z as int, 0, 0, 0, z as int, 0);
    lemma_row_col_values(a, a, 2, 3, 0, 0, z as int, 0, 0, 0, 0, 1);
    lemma_row_col_values(a, a, 3, 0, 0, 0, 0, 1, x as int, 0, 0, 0);
    lemma_row_col_values(a, a, 3, 1, 0, 0, 0, 1, 0, y as int, 0, 0);
    lemma_row_col_values(a, a, 3, 2, 0, 0, 0, 1, 0, 0, z as int, 0);
    lemma_row_col_values(a, a, 3, 3, 0, 0, 0, 1, 0, 0, 0, 1);
}

#[verifier::spinoff_prover]
proof fn lemma_rotation_inverse(k: int)
    requires
        0 <= k < 4,
    ensures
        mutually_inverse(
            rotation_x(quarter_cos(k), quarter_sin(k)),
            rotation_x(quarter_cos(k), (-quarter_sin(k)) as i64),
        ),
        mutually_inverse(
            rotation_y(quarter_cos(k), quarter_sin(k)),
            rotation_y(quarter_cos(k), (-quarter_sin(k)) as i64),
        ),
        mutually_inverse(
            rotation_z(quarter_cos(k), quarter_sin(k)),
            rotation_z(quarter_cos(k), (-quarter_sin(k)) as i64),
        ),
{
    let c = quarter_cos(k);
    let s = quarter_sin(k);
    let ns = (-s) as i64;
    let ax = rotation_x(c, s);
    let bx = rotation_x(c, ns);
    let ay = rotation_y(c, s);
    let by = rotation_y(c, ns);
    let az = rotation_z(c, s);
    let bz = rotation_z(c, ns);
    if k == 0 {
        lemma_row_col_values(ax, bx, 0, 0, 1, 0, 0, 0, 1, 0, 0, 0);
        lemma_row_col_values(ax, bx, 0, 1, 1, 0, 0, 0, 0, 1, 0, 0);
        lemma_row_col_values(ax, bx, 0, 2, 1, 0, 0, 0, 0, 0, 1, 0);
        lemma_row_col_values(ax, bx, 0, 3, 1, 0, 0, 0, 0, 0, 0, 1);
        lemma_row_col_values(ax, bx, 1, 0, 0, 1, 0, 0, 1, 0, 0, 0);
        lemma_row_col_values(ax, bx, 1, 1, 0, 1, 0, 0, 0, 1, 0, 0);
        lemma_row_col_values(ax, bx, 1, 2, 0, 1, 0, 0, 0, 0, 1, 0);
        lemma_row_col_values(ax, bx, 1, 3, 0, 1, 0, 0, 0, 0, 0, 1);
        lemma_row_col_values(ax, bx, 2, 0, 0, 0, 1, 0, 1, 0, 0, 0);
        lemma_row_col_values(ax, bx, 2, 1, 0, 0, 1, 0, 0, 1, 0, 0);
        lemma_row_col_values(ax, bx, 2, 2, 0, 0, 1, 0, 0, 0, 1, 0);
        lemma_row_col_values(ax, bx, 2, 3, 0, 0, 1, 0, 0, 0, 0, 1);
        lemma_row_col_values(ax, bx, 3, 0, 0, 0, 0, 1, 1, 0, 0, 0);
        lemma_row_col_values(ax, bx, 3, 1, 0, 0, 0, 1, 0, 1, 0, 0);
        lemma_row_col_values(ax, bx, 3, 2, 0, 0, 0, 1, 0, 0, 1, 0);
        lemma_row_col_values(ax, bx, 3, 3, 0, 0, 0, 1, 0, 0, 0, 1);
        lemma_row_col_values(bx, ax, 0, 0, 1, 0, 0, 0, 1, 0, 0, 0);
        lemma_row_col_values(bx, ax, 0, 1, 1, 0, 0, 0, 0, 1, 0, 0);
        lemma_row_col_values(bx, ax, 0, 2, 1, 0, 0, 0, 0, 0, 1, 0);
        lemma_row_col_values(bx, ax, 0, 3, 1, 0, 0, 0, 0, 0, 0, 1);
        lemma_row_col_values(bx, ax, 1, 0, 0, 1, 0, 0, 1, 0, 0, 0);
        lemma_row_col_values(bx, ax, 1, 1, 0, 1, 0, 0, 0, 1, 0, 0);
        lemma_row_col_values(bx, ax, 1, 2, 0, 1, 0, 0, 0, 0, 1, 0);
        lemma_row_col_values(bx, ax, 1, 3, 0, 1, 0, 0, 0, 0, 0, 1);
        lemma_row_col_values(bx, ax, 2, 0, 0, 0, 1, 0, 1, 0, 0, 0);
        lemma_row_col_values(bx, ax, 2, 1, 0, 0, 1, 0, 0, 1, 0, 0);
        lemma_row_col_values(bx, ax, 2, 2, 0, 0, 1, 0, 0, 0, 1, 0);
        lemma_row_col_values(bx, ax, 2, 3, 0, 0, 1, 0, 0, 0, 0, 1);
        lemma_row_col_values(bx, ax, 3, 0, 0, 0, 0, 1, 1, 0, 0, 0);
        lemma_row_col_values(bx, ax, 3, 1, 0, 0, 0, 1, 0, 1, 0, 0);
        lemma_row_col_values(bx, ax, 3, 2, 0, 0, 0, 1, 0, 0, 1, 0);
        lemma_row_col_values(bx, ax, 3, 3, 0, 0, 0, 1, 0, 0, 0, 1);
        lemma_row_col_values(ay, by, 0, 0, 1, 0, 0, 0, 1, 0, 0, 0);
        lemma_row_col_values(ay, by, 0, 1, 1, 0, 0, 0, 0, 1, 0, 0);
        lemma_row_col_values(ay, by, 0, 2, 1, 0, 0, 0, 0, 0, 1, 0);
        lemma_row_col_values(ay, by, 0, 3, 1, 0, 0, 0, 0, 0, 0, 1);
        lemma_row_col_values(ay, by, 1, 0, 0, 1, 0, 0, 1, 0, 0, 0);
        lemma_row_col_values(ay, by, 1, 1, 0, 1, 0, 0, 0, 1, 0, 0);
        lemma_row_col_values(ay, by, 1, 2, 0, 1, 0, 0, 0, 0, 1, 0);
        lemma_row_col_values(ay, by, 1, 3, 0, 1, 0, 0, 0, 0, 0, 1);
        lemma_row_col_values(ay, by, 2, 0, 0, 0, 1, 0, 1, 0, 0, 0);
        lemma_row_col_values(ay, by, 2, 1, 0, 0, 1, 0, 0, 1, 0, 0);
        lemma_row_col_values(ay, by, 2, 2, 0, 0, 1, 0, 0, 0, 1, 0);
        lemma_row_col_values(ay, by, 2, 3, 0, 0, 1, 0, 0, 0, 0, 1);
        lemma_row_col_values(ay, by, 3, 0, 0, 0, 0, 1, 1, 0, 0, 0);
        lemma_row_col_values(ay, by, 3, 1, 0, 0, 0, 1, 0, 1, 0, 0);
        lemma_row_col_values(ay, by, 3, 2, 0, 0, 0, 1, 0, 0, 1, 0);
        lemma_row_col_values(ay, by, 3, 3, 0, 0, 0, 1, 0, 0, 0, 1);
        lemma_row_col_values(by, ay, 0, 0, 1, 0, 0, 0, 1, 0, 0, 0);
        lemma_row_col_values(by, ay, 0, 1, 1, 0, 0, 0, 0, 1, 0, 0);
        lemma_row_col_values(by, ay, 0, 2, 1, 0, 0, 0, 0, 0, 1, 0);
        lemma_row_col_values(by, ay, 0, 3, 1, 0, 0, 0, 0, 0, 0, 1);
        lemma_row_col_values(by, ay, 1, 0, 0, 1, 0, 0, 1, 0, 0, 0);
        lemma_row_col_values(by, ay, 1, 1, 0, 1, 0, 0, 0, 1, 0, 0);
        lemma_row_col_values(by, ay, 1, 2, 0, 1, 0, 0, 0, 0, 1, 0);
        lemma_row_col_values(by, ay, 1, 3, 0, 1, 0, 0, 0, 0, 0, 1);
        lemma_row_col_values(by, ay, 2, 0, 0, 0, 1, 0, 1, 0, 0, 0);
        lemma_row_col_values(by, ay, 2, 1, 0, 0, 1, 0, 0, 1, 0, 0);
        lemma_row_col_values(by, ay, 2, 2, 0, 0, 1, 0, 0, 0, 1, 0);
        lemma_row_col_values(by, ay, 2, 3, 0, 0, 1, 0, 0, 0, 0, 1);
        lemma_row_col_values(by, ay, 3, 0, 0, 0, 0, 1, 1, 0, 0, 0);
        lemma_row_col_values(by, ay, 3, 1, 0, 0, 0, 1, 0, 1, 0, 0);
        lemma_row_col_values(by, ay, 3, 2, 0, 0, 0, 1, 0, 0, 1, 0);
        lemma_row_col_values(by, ay, 3, 3, 0, 0, 0, 1, 0, 0, 0, 1);
        lemma_row_col_values(az, bz, 0, 0, 1, 0, 0, 0, 1, 0, 0, 0);
        lemma_row_col_values(az, bz, 0, 1, 1, 0, 0, 0, 0, 1, 0, 0);
        lemma_row_col_values(az, bz, 0, 2, 1, 0, 0, 0, 0, 0, 1, 0);
        lemma_row_col_values(az, bz, 0, 3, 1, 0, 0, 0, 0, 0, 0, 1);
        lemma_row_col_values(az, bz, 1, 0, 0, 1, 0, 0, 1, 0, 0, 0);
        lemma_row_col_values(az, bz, 1, 1, 0, 1, 0, 0, 0, 1, 0, 0);
        lemma_row_col_values(az, bz, 1, 2, 0, 1, 0, 0, 0, 0, 1, 0);
        lemma_row_col_values(az, bz, 1, 3, 0, 1, 0, 0, 0, 0, 0, 1);
        lemma_row_col_values(az, bz, 2, 0, 0, 0, 1, 0, 1, 0, 0, 0);
        lemma_row_col_values(az, bz, 2, 1, 0, 0, 1, 0, 0, 1, 0, 0);
        lemma_row_col_values(az, bz, 2, 2, 0, 0, 1, 0, 0, 0, 1, 0);
        lemma_row_col_values(az, bz, 2, 3, 0, 0, 1, 0, 0, 0, 0, 1);
        lemma_row_col_values(az, bz, 3, 0, 0, 0, 0, 1, 1, 0, 0, 0);
        lemma_row_col_values(az, bz, 3, 1, 0, 0, 0, 1, 0, 1, 0, 0);
        lemma_row_col_values(az, bz, 3, 2, 0, 0, 0, 1, 0, 0, 1, 0);
        lemma_row_col_values(az, bz, 3, 3, 0, 0, 0, 1, 0, 0, 0, 1);
        lemma_row_col_values(bz, az, 0, 0, 1, 0, 0, 0, 1, 0, 0, 0);
        lemma_row_col_values(bz, az, 0, 1, 1, 0, 0, 0, 0, 1, 0, 0);
        lemma_row_col_values(bz, az, 0, 2, 1, 0, 0, 0, 0, 0, 1, 0);
        lemma_row_col_values(bz, az, 0, 3, 1, 0, 0, 0, 0, 0, 0, 1);
        lemma_row_col_values(bz, az, 1, 0, 0, 1, 0, 0, 1, 0, 0, 0);
        lemma_row_col_values(bz, az, 1, 1, 0, 1, 0, 0, 0, 1, 0, 0);
        lemma_row_col_values(bz, az, 1, 2, 0, 1, 0, 0, 0, 0, 1, 0);
        lemma_row_col_values(bz, az, 1, 3, 0, 1, 0, 0, 0, 0, 0, 1);
        lemma_row_col_values(bz, az, 2, 0, 0, 0, 1, 0, 1, 0, 0, 0);
        lemma_row_col_values(bz, az, 2, 1, 0, 0, 1, 0, 0, 1, 0, 0);
        lemma_row_col_values(bz, az, 2, 2, 0, 0, 1, 0, 0, 0, 1, 0);
        lemma_row_col_values(bz, az, 2, 3, 0, 0, 1, 0, 0, 0, 0, 1);
        lemma_row_col_values(bz, az, 3, 0, 0, 0, 0, 1, 1, 0, 0, 0);
        lemma_row_col_values(bz, az, 3, 1, 0, 0, 0, 1, 0, 1, 0, 0);
        lemma_row_col_values(bz, az, 3, 2, 0, 0, 0, 1, 0, 0, 1, 0);
        lemma_row_col_values(bz, az, 3, 3, 0, 0, 0, 1, 0, 0, 0, 1);
    } else if k == 1 {
        lemma_row_col_values(ax, bx, 0, 0, 1, 0, 0, 0, 1, 0, 0, 0);
        lemma_row_col_values(ax, bx, 0, 1, 1, 0, 0, 0, 0, 0, -1, 0);
        lemma_row_col_values(ax, bx, 0, 2, 1, 0, 0, 0, 0, 1, 0, 0);
        lemma_row_col_values(ax, bx, 0, 3, 1, 0, 0, 0, 0, 0, 0, 1);
        lemma_row_col_values(ax, bx, 1, 0, 0, 0, -1, 0, 1, 0, 0, 0);
        lemma_row_col_values(ax, bx, 1, 1, 0, 0, -1, 0, 0, 0, -1, 0);
        lemma_row_col_values(ax, bx, 1, 2, 0, 0, -1, 0, 0, 1, 0, 0);
        lemma_row_col_values(ax, bx, 1, 3, 0, 0, -1, 0, 0, 0, 0, 1);
        lemma_row_col_values(ax, bx, 2, 0, 0, 1, 0, 0, 1, 0, 0, 0);
        lemma_row_col_values(ax, bx, 2, 1, 0, 1, 0, 0, 0, 0, -1, 0);
        lemma_row_col_values(ax, bx, 2, 2, 0, 1, 0, 0, 0, 1, 0, 0);
        lemma_row_col_values(ax, bx, 2, 3, 0, 1, 0, 0, 0, 0, 0, 1);
        lemma_row_col_values(ax, bx, 3, 0, 0, 0, 0, 1, 1, 0, 0, 0);
        lemma_row_col_values(ax, bx, 3, 1, 0, 0, 0, 1, 0, 0, -1, 0);
        lemma_row_col_values(ax, bx, 3, 2, 0, 0, 0, 1, 0, 1, 0, 0);
        lemma_row_col_values(ax, bx, 3, 3, 0, 0, 0, 1, 0, 0, 0, 1);
        lemma_row_col_values(bx, ax, 0, 0, 1, 0, 0, 0, 1, 0, 0, 0);
        lemma_row_col_values(bx, ax, 0, 1, 1, 0, 0, 0, 0, 0, 1, 0);
        lemma_row_col_values(bx, ax, 0, 2, 1, 0, 0, 0, 0, -1, 0, 0);
        lemma_row_col_values(bx, ax, 0, 3, 1, 0, 0, 0, 0, 0, 0, 1);
        lemma_row_col_values(bx, ax, 1, 0, 0, 0, 1, 0, 1, 0, 0, 0);
        lemma_row_col_values(bx, ax, 1, 1, 0, 0, 1, 0, 0, 0, 1, 0);
        lemma_row_col_values(bx, ax, 1, 2, 0, 0, 1, 0, 0, -1, 0, 0);
        lemma_row_col_values(bx, ax, 1, 3, 0, 0, 1, 0, 0, 0, 0, 1);
        lemma_row_col_values(bx, ax, 2, 0, 0, -1, 0, 0, 1, 0, 0, 0);
        lemma_row_col_values(bx, ax, 2, 1, 0, -1, 0, 0, 0, 0, 1, 0);
        lemma_row_col_values(bx, ax, 2, 2, 0, -1, 0, 0, 0, -1, 0, 0);
        lemma_row_col_values(bx, ax, 2, 3, 0, -1, 0, 0, 0, 0, 0, 1);
        lemma_row_col_values(bx, ax, 3, 0, 0, 0, 0, 1, 1, 0, 0, 0);
        lemma_row_col_values(bx, ax, 3, 1, 0, 0, 0, 1, 0, 0, 1, 0);
        lemma_row_col_values(bx, ax, 3, 2, 0, 0, 0, 1, 0, -1, 0, 0);
        lemma_row_col_values(bx, ax, 3, 3, 0, 0, 0, 1, 0, 0, 0, 1);
        lemma_row_col_values(ay, by, 0, 0, 0, 0, 1, 0, 0, 0, 1, 0);
        lemma_row_col_values(ay, by, 0, 1, 0, 0, 1, 0, 0, 1, 0, 0);
        lemma_row_col_values(ay, by, 0, 2, 0, 0, 1, 0, -1, 0, 0, 0);
        lemma_row_col_values(ay, by, 0, 3, 0, 0, 1, 0, 0, 0, 0, 1);
        lemma_row_col_values(ay, by, 1, 0, 0, 1, 0, 0, 0, 0, 1, 0);
        lemma_row_col_values(ay, by, 1, 1, 0, 1, 0, 0, 0, 1, 0, 0);
        lemma_row_col_values(ay, by, 1, 2, 0, 1, 0, 0, -1, 0, 0, 0);
        lemma_row_col_values(ay, by, 1, 3, 0, 1, 0, 0, 0, 0, 0, 1);
        lemma_row_col_values(ay, by, 2, 0, -1, 0, 0, 0, 0, 0, 1, 0);
        lemma_row_col_values(ay, by, 2, 1, -1, 0, 0, 0, 0, 1, 0, 0);
        lemma_row_col_values(ay, by, 2, 2, -1, 0, 0, 0, -1, 0, 0, 0);
        lemma_row_col_values(ay, by, 2, 3, -1, 0, 0, 0, 0, 0, 0, 1);
        lemma_row_col_values(ay, by, 3, 0, 0, 0, 0, 1, 0, 0, 1, 0);
        lemma_row_col_values(ay, by, 3, 1, 0, 0, 0, 1, 0, 1, 0, 0);
        lemma_row_col_values(ay, by, 3, 2, 0, 0, 0, 1, -1, 0, 0, 0);
        lemma_row_col_values(ay, by, 3, 3, 0, 0, 0, 1, 0, 0, 0, 1);
        lemma_row_col_values(by, ay, 0, 0, 0, 0, -1, 0, 0, 0, -1, 0);
        lemma_row_col_values(by, ay, 0, 1, 0, 0, -1, 0, 0, 1, 0, 0);
        lemma_row_col_values(by, ay, 0, 2, 0, 0, -1, 0, 1, 0, 0, 0);
        lemma_row_col_values(by, ay, 0, 3, 0, 0, -1, 0, 0, 0, 0, 1);
        lemma_row_col_values(by, ay, 1, 0, 0, 1, 0, 0, 0, 0, -1, 0);
        lemma_row_col_values(by, ay, 1, 1, 0, 1, 0, 0, 0, 1, 0, 0);
        lemma_row_col_values(by, ay, 1, 2, 0, 1, 0, 0, 1, 0, 0, 0);
        lemma_row_col_values(by, ay, 1, 3, 0, 1, 0, 0, 0, 0, 0, 1);
        lemma_row_col_values(by, ay, 2, 0, 1, 0, 0, 0, 0, 0, -1, 0);
        lemma_row_col_values(by, ay, 2, 1, 1, 0, 0, 0, 0, 1, 0, 0);
        lemma_row_col_values(by, ay, 2, 2, 1, 0, 0, 0, 1, 0, 0, 0);
        lemma_row_col_values(by, ay, 2, 3, 1, 0, 0, 0, 0, 0, 0, 1);
        lemma_row_col_values(by, ay, 3, 0, 0, 0, 0, 1, 0, 0, -1, 0);
        lemma_row_col_values(by, ay, 3, 1, 0, 0, 0, 1, 0, 1, 0, 0);
        lemma_row_col_values(by, ay, 3, 2, 0, 0, 0, 1, 1, 0, 0, 0);
        lemma_row_col_values(by, ay, 3, 3, 0, 0, 0, 1, 0, 0, 0, 1);
        lemma_row_col_values(az, bz, 0, 0, 0, -1, 0, 0, 0, -1, 0, 0);
        lemma_row_col_values(az, bz, 0, 1, 0, -1, 0, 0, 1, 0, 0, 0);
        lemma_row_col_values(az, bz, 0, 2, 0, -1, 0, 0, 0, 0, 1, 0);
        lemma_row_col_values(az, bz, 0, 3, 0, -1, 0, 0, 0, 0, 0, 1);
        lemma_row_col_values(az, bz, 1, 0, 1, 0, 0, 0, 0, -1, 0, 0);
        lemma_row_col_values(az, bz, 1, 1, 1, 0, 0, 0, 1, 0, 0, 0);
        lemma_row_col_values(az, bz, 1, 2, 1, 0, 0, 0, 0, 0, 1, 0);
        lemma_row_col_values(az, bz, 1, 3, 1, 0, 0, 0, 0, 0, 0, 1);
        lemma_row_col_values(az, bz, 2, 0, 0, 0, 1, 0, 0, -1, 0, 0);
        lemma_row_col_values(az, bz, 2, 1, 0, 0, 1, 0, 1, 0, 0, 0);
        lemma_row_col_values(az, bz, 2, 2, 0, 0, 1, 0, 0, 0, 1, 0);
        lemma_row_col_values(az, bz, 2, 3, 0, 0, 1, 0, 0, 0, 0, 1);
        lemma_row_col_values(az, bz, 3, 0, 0, 0, 0, 1, 0, -1, 0, 0);
        lemma_row_col_values(az, bz, 3, 1, 0, 0, 0, 1, 1, 0, 0, 0);
        lemma_row_col_values(az, bz, 3, 2, 0, 0, 0, 1, 0, 0, 1, 0);
        lemma_row_col_values(az, bz, 3, 3, 0, 0, 0, 1, 0, 0, 0, 1);
        lemma_row_col_values(bz, az, 0, 0, 0, 1, 0, 0, 0, 1, 0, 0);
        lemma_row_col_values(bz, az, 0, 1, 0, 1, 0, 0, -1, 0, 0, 0);
        lemma_row_col_values(bz, az, 0, 2, 0, 1, 0, 0, 0, 0, 1, 0);
        lemma_row_col_values(bz, az, 0, 3, 0, 1, 0, 0, 0, 0, 0, 1);
        lemma_row_col_values(bz, az, 1, 0, -1, 0, 0, 0, 0, 1, 0, 0);
        lemma_row_col_values(bz, az, 1, 1, -1, 0, 0, 0, -1, 0, 0, 0);
        lemma_row_col_values(bz, az, 1, 2, -1, 0, 0, 0, 0, 0, 1, 0);
        lemma_row_col_values(bz, az, 1, 3, -1, 0, 0, 0, 0, 0, 0, 1);
        lemma_row_col_values(bz, az, 2, 0, 0, 0, 1, 0, 0, 1, 0, 0);
        lemma_row_col_values(bz, az, 2, 1, 0, 0, 1, 0, -1, 0, 0, 0);
        lemma_row_col_values(bz, az, 2, 2, 0, 0, 1, 0, 0, 0, 1, 0);
        lemma_row_col_values(bz, az, 2, 3, 0, 0, 1, 0, 0, 0, 0, 1);
        lemma_row_col_values(bz, az, 3, 0, 0, 0, 0, 1, 0, 1, 0, 0);
        lemma_row_col_values(bz, az, 3, 1, 0, 0, 0, 1, -1, 0, 0, 0);
        lemma_row_col_values(bz, az, 3, 2, 0, 0, 0, 1, 0, 0, 1, 0);
        lemma_row_col_values(bz, az, 3, 3, 0, 0, 0, 1, 0, 0, 0, 1);
    } else if k == 2 {
        lemma_row_col_values(ax, bx, 0, 0, 1, 0, 0, 0, 1, 0, 0, 0);
        lemma_row_col_values(ax, bx, 0, 1, 1, 0, 0, 0, 0, -1, 0, 0);
        lemma_row_col_values(ax, bx, 0, 2, 1, 0, 0, 0, 0, 0, -1, 0);
        lemma_row_col_values(ax, bx, 0, 3, 1, 0, 0, 0, 0, 0, 0, 1);
        lemma_row_col_values(ax, bx, 1, 0, 0, -1, 0, 0, 1, 0, 0, 0);
        lemma_row_col_values(ax, bx, 1, 1, 0, -1, 0, 0, 0, -1, 0, 0);
        lemma_row_col_values(ax, bx, 1, 2, 0, -1, 0, 0, 0, 0, -1, 0);
        lemma_row_col_values(ax, bx, 1, 3, 0, -1, 0, 0, 0, 0, 0, 1);
        lemma_row_col_values(ax, bx, 2, 0, 0, 0, -1, 0, 1, 0, 0, 0);
        lemma_row_col_values(ax, bx, 2, 1, 0, 0, -1, 0, 0, -1, 0, 0);
        lemma_row_col_values(ax, bx, 2, 2, 0, 0, -1, 0, 0, 0, -1, 0);
        lemma_row_col_values(ax, bx, 2, 3, 0, 0, -1, 0, 0, 0, 0, 1);
        lemma_row_col_values(ax, bx, 3, 0, 0, 0, 0, 1, 1, 0, 0, 0);
        lemma_row_col_values(ax, bx, 3, 1, 0, 0, 0, 1, 0, -1, 0, 0);
        lemma_row_col_values(ax, bx, 3, 2, 0, 0, 0, 1, 0, 0, -1, 0);
        lemma_row_col_values(ax, bx, 3, 3, 0, 0, 0, 1, 0, 0, 0, 1);
        lemma_row_col_values(bx, ax, 0, 0, 1, 0, 0, 0, 1, 0, 0, 0);
        lemma_row_col_values(bx, ax, 0, 1, 1, 0, 0, 0, 0, -1, 0, 0);
        lemma_row_col_values(bx, ax, 0, 2, 1, 0, 0, 0, 0, 0, -1, 0);
        lemma_row_col_values(bx, ax, 0, 3, 1, 0, 0, 0, 0, 0, 0, 1);
        lemma_row_col_values(bx, ax, 1, 0, 0, -1, 0, 0, 1, 0, 0, 0);
        lemma_row_col_values(bx, ax, 1, 1, 0, -1, 0, 0, 0, -1, 0, 0);
        lemma_row_col_values(bx, ax, 1, 2, 0, -1, 0, 0, 0, 0, -1, 0);
        lemma_row_col_values(bx, ax, 1, 3, 0, -1, 0, 0, 0, 0, 0, 1);
        lemma_row_col_values(bx, ax, 2, 0, 0, 0, -1, 0, 1, 0, 0, 0);
        lemma_row_col_values(bx, ax, 2, 1, 0, 0, -1, 0, 0, -1, 0, 0);
        lemma_row_col_values(bx, ax, 2, 2, 0, 0, -1, 0, 0, 0, -1, 0);
        lemma_row_col_values(bx, ax, 2, 3, 0, 0, -1, 0, 0, 0, 0, 1);
        lemma_row_col_values(bx, ax, 3, 0, 0, 0, 0, 1, 1, 0, 0, 0);
        lemma_row_col_values(bx, ax, 3, 1, 0, 0, 0, 1, 0, -1, 0, 0);
        lemma_row_col_values(bx, ax, 3, 2, 0, 0, 0, 1, 0, 0, -1, 0);
        lemma_row_col_values(bx, ax, 3, 3, 0, 0, 0, 1, 0, 0, 0, 1);
        lemma_row_col_values(ay, by, 0, 0, -1, 0, 0, 0, -1, 0, 0, 0);
        lemma_row_col_values(ay, by, 0, 1, -1, 0, 0, 0, 0, 1, 0, 0);
        lemma_row_col_values(ay, by, 0, 2, -1, 0, 0, 0, 0, 0, -1, 0);
        lemma_row_col_values(ay, by, 0, 3, -1, 0, 0, 0, 0, 0, 0, 1);
        lemma_row_col_values(ay, by, 1, 0, 0, 1, 0, 0, -1, 0, 0, 0);
        lemma_row_col_values(ay, by, 1, 1, 0, 1, 0, 0, 0, 1, 0, 0);
        lemma_row_col_values(ay, by, 1, 2, 0, 1, 0, 0, 0, 0, -1, 0);
        lemma_row_col_values(ay, by, 1, 3, 0, 1, 0, 0, 0, 0, 0, 1);
        lemma_row_col_values(ay, by, 2, 0, 0, 0, -1, 0, -1, 0, 0, 0);
        lemma_row_col_values(ay, by, 2, 1, 0, 0, -1, 0, 0, 1, 0, 0);
        lemma_row_col_values(ay, by, 2, 2, 0, 0, -1, 0, 0, 0, -1, 0);
        lemma_row_col_values(ay, by, 2, 3, 0, 0, -1, 0, 0, 0, 0, 1);
        lemma_row_col_values(ay, by, 3, 0, 0, 0, 0, 1, -1, 0, 0, 0);
        lemma_row_col_values(ay, by, 3, 1, 0, 0, 0, 1, 0, 1, 0, 0);
        lemma_row_col_values(ay, by, 3, 2, 0, 0, 0, 1, 0, 0, -1, 0);
        lemma_row_col_values(ay, by, 3, 3, 0, 0, 0, 1, 0, 0, 0, 1);
        lemma_row_col_values(by, ay, 0, 0, -1, 0, 0, 0, -1, 0, 0, 0);
        lemma_row_col_values(by, ay, 0, 1, -1, 0, 0, 0, 0, 1, 0, 0);
        lemma_row_col_values(by, ay, 0, 2, -1, 0, 0, 0, 0, 0, -1, 0);
        lemma_row_col_values(by, ay, 0, 3, -1, 0, 0, 0, 0, 0, 0, 1);
        lemma_row_col_values(by, ay, 1, 0, 0, 1, 0, 0, -1, 0, 0, 0);
        lemma_row_col_values(by, ay, 1, 1, 0, 1, 0, 0, 0, 1, 0, 0);
        lemma_row_col_values(by, ay, 1, 2, 0, 1, 0, 0, 0, 0, -1, 0);
        lemma_row_col_values(by, ay, 1, 3, 0, 1, 0, 0, 0, 0, 0, 1);
        lemma_row_col_values(by, ay, 2, 0, 0, 0, -1, 0, -1, 0, 0, 0);
        lemma_row_col_values(by, ay, 2, 1, 0, 0, -1, 0, 0, 1, 0, 0);
        lemma_row_col_values(by, ay, 2, 2, 0, 0, -1, 0, 0, 0, -1, 0);
        lemma_row_col_values(by, ay, 2, 3, 0, 0, -1, 0, 0, 0, 0, 1);
        lemma_row_col_values(by, ay, 3, 0, 0, 0, 0, 1, -1, 0, 0, 0);
        lemma_row_col_values(by, ay, 3, 1, 0, 0, 0, 1, 0, 1, 0, 0);
        lemma_row_col_values(by, ay, 3, 2, 0, 0, 0, 1, 0, 0, -1, 0);
        lemma_row_col_values(by, ay, 3, 3, 0, 0, 0, 1, 0, 0, 0, 1);
        lemma_row_col_values(az, bz, 0, 0, -1, 0, 0, 0, -1, 0, 0, 0);
        lemma_row_col_values(az, bz, 0, 1, -1, 0, 0, 0, 0, -1, 0, 0);
        lemma_row_col_values(az, bz, 0, 2, -1, 0, 0, 0, 0, 0, 1, 0);
        lemma_row_col_values(az, bz, 0, 3, -1, 0, 0, 0, 0, 0, 0, 1);
        lemma_row_col_values(az, bz, 1, 0, 0, -1, 0, 0, -1, 0, 0, 0);
        lemma_row_col_values(az, bz, 1, 1, 0, -1, 0, 0, 0, -1, 0, 0);
        lemma_row_col_values(az, bz, 1, 2, 0, -1, 0, 0, 0, 0, 1, 0);
        lemma_row_col_values(az, bz, 1, 3, 0, -1, 0, 0, 0, 0, 0, 1);
        lemma_row_col_values(az, bz, 2, 0, 0, 0, 1, 0, -1, 0, 0, 0);
        lemma_row_col_values(az, bz, 2, 1, 0, 0, 1, 0, 0, -1, 0, 0);
        lemma_row_col_values(az, bz, 2, 2, 0, 0, 1, 0, 0, 0, 1, 0);
        lemma_row_col_values(az, bz, 2, 3, 0, 0, 1, 0, 0, 0, 0, 1);
        lemma_row_col_values(az, bz, 3, 0, 0, 0, 0, 1, -1, 0, 0, 0);
        lemma_row_col_values(az, bz, 3, 1, 0, 0, 0, 1, 0, -1, 0, 0);
        lemma_row_col_values(az, bz, 3, 2, 0, 0, 0, 1, 0, 0, 1, 0);
        lemma_row_col_values(az, bz, 3, 3, 0, 0, 0, 1, 0, 0, 0, 1);
        lemma_row_col_values(bz, az, 0, 0, -1, 0, 0, 0, -1, 0, 0, 0);
        lemma_row_col_values(bz, az, 0, 1, -1, 0, 0, 0, 0, -1, 0, 0);
        lemma_row_col_values(bz, az, 0, 2, -1, 0, 0, 0, 0, 0, 1, 0);
        lemma_row_col_values(bz, az, 0, 3, -1, 0, 0, 0, 0, 0, 0, 1);
        lemma_row_col_values(bz, az, 1, 0, 0, -1, 0, 0, -1, 0, 0, 0);
        lemma_row_col_values(bz, az, 1, 1, 0, -1, 0, 0, 0, -1, 0, 0);
        lemma_row_col_values(bz, az, 1, 2, 0, -1, 0, 0, 0, 0, 1, 0);
        lemma_row_col_values(bz, az, 1, 3, 0, -1, 0, 0, 0, 0, 0, 1);
        lemma_row_col_values(bz, az, 2, 0, 0, 0, 1, 0, -1, 0, 0, 0);
        lemma_row_col_values(bz, az, 2, 1, 0, 0, 1, 0, 0, -1, 0, 0);
        lemma_row_col_values(bz, az, 2, 2, 0, 0, 1, 0, 0, 0, 1, 0);
        lemma_row_col_values(bz, az, 2, 3, 0, 0, 1, 0, 0, 0, 0, 1);
        lemma_row_col_values(bz, az, 3, 0, 0, 0, 0, 1, -1, 0, 0, 0);
        lemma_row_col_values(bz, az, 3, 1, 0, 0, 0, 1, 0, -1, 0, 0);
        lemma_row_col_values(bz, az, 3, 2, 0, 0, 0, 1, 0, 0, 1, 0);
        lemma_row_col_values(bz, az, 3, 3, 0, 0, 0, 1, 0, 0, 0, 1);
    } else {
        lemma_row_col_values(ax, bx, 0, 0, 1, 0, 0, 0, 1, 0, 0, 0);
        lemma_row_col_values(ax, bx, 0, 1, 1, 0, 0, 0, 0, 0, 1, 0);
        lemma_row_col_values(ax, bx, 0, 2, 1, 0, 0, 0, 0, -1, 0, 0);
        lemma_row_col_values(ax, bx, 0, 3, 1, 0, 0, 0, 0, 0, 0, 1);
        lemma_row_col_values(ax, bx, 1, 0, 0, 0, 1, 0, 1, 0, 0, 0);
        lemma_row_col_values(ax, bx, 1, 1, 0, 0, 1, 0, 0, 0, 1, 0);
        lemma_row_col_values(ax, bx, 1, 2, 0, 0, 1, 0, 0, -1, 0, 0);
        lemma_row_col_values(ax, bx, 1, 3, 0, 0, 1, 0, 0, 0, 0, 1);
        lemma_row_col_values(ax, bx, 2, 0, 0, -1, 0, 0, 1, 0, 0, 0);
        lemma_row_col_values(ax, bx, 2, 1, 0, -1, 0, 0, 0, 0, 1, 0);
        lemma_row_col_values(ax, bx, 2, 2, 0, -1, 0, 0, 0, -1, 0, 0);
        lemma_row_col_values(ax, bx, 2, 3, 0, -1, 0, 0, 0, 0, 0, 1);
        lemma_row_col_values(ax, bx, 3, 0, 0, 0, 0, 1, 1, 0, 0, 0);
        lemma_row_col_values(ax, bx, 3, 1, 0, 0, 0, 1, 0, 0, 1, 0);
        lemma_row_col_values(ax, bx, 3, 2, 0, 0, 0, 1, 0, -1, 0, 0);
        lemma_row_col_values(ax, bx, 3, 3, 0, 0, 0, 1, 0, 0, 0, 1);
        lemma_row_col_values(bx, ax, 0, 0, 1, 0, 0, 0, 1, 0, 0, 0);
        lemma_row_col_values(bx, ax, 0, 1, 1, 0, 0, 0, 0, 0, -1, 0);
        lemma_row_col_values(bx, ax, 0, 2, 1, 0, 0, 0, 0, 1, 0, 0);
        lemma_row_col_values(bx, ax, 0, 3, 1, 0, 0, 0, 0, 0, 0, 1);
        lemma_row_col_values(bx, ax, 1, 0, 0, 0, -1, 0, 1, 0, 0, 0);
        lemma_row_col_values(bx, ax, 1, 1, 0, 0, -1, 0, 0, 0, -1, 0);
        lemma_row_col_values(bx, ax, 1, 2, 0, 0, -1, 0, 0, 1, 0, 0);
        lemma_row_col_values(bx, ax, 1, 3, 0, 0, -1, 0, 0, 0, 0, 1);
        lemma_row_col_values(bx, ax, 2, 0, 0, 1, 0, 0, 1, 0, 0, 0);
        lemma_row_col_values(bx, ax, 2, 1, 0, 1, 0, 0, 0, 0, -1, 0);
        lemma_row_col_values(bx, ax, 2, 2, 0, 1, 0, 0, 0, 1, 0, 0);
        lemma_row_col_values(bx, ax, 2, 3, 0, 1, 0, 0, 0, 0, 0, 1);
        lemma_row_col_values(bx, ax, 3, 0, 0, 0, 0, 1, 1, 0, 0, 0);
        lemma_row_col_values(bx, ax, 3, 1, 0, 0, 0, 1, 0, 0, -1, 0);
        lemma_row_col_values(bx, ax, 3, 2, 0, 0, 0, 1, 0, 1, 0, 0);
        lemma_row_col_values(bx, ax, 3, 3, 0, 0, 0, 1, 0, 0, 0, 1);
        lemma_row_col_values(ay, by, 0, 0, 0, 0, -1, 0, 0, 0, -1, 0);
        lemma_row_col_values(ay, by, 0, 1, 0, 0, -1, 0, 0, 1, 0, 0);
        lemma_row_col_values(ay, by, 0, 2, 0, 0, -1, 0, 1, 0, 0, 0);
        lemma_row_col_values(ay, by, 0, 3, 0, 0, -1, 0, 0, 0, 0, 1);
        lemma_row_col_values(ay, by, 1, 0, 0, 1, 0, 0, 0, 0, -1, 0);
        lemma_row_col_values(ay, by, 1, 1, 0, 1, 0, 0, 0, 1, 0, 0);
        lemma_row_col_values(ay, by, 1, 2, 0, 1, 0, 0, 1, 0, 0, 0);
        lemma_row_col_values(ay, by, 1, 3, 0, 1, 0, 0, 0, 0, 0, 1);
        lemma_row_col_values(ay, by, 2, 0, 1, 0, 0, 0, 0, 0, -1, 0);
        lemma_row_col_values(ay, by, 2, 1, 1, 0, 0, 0, 0, 1, 0, 0);
        lemma_row_col_values(ay, by, 2, 2, 1, 0, 0, 0, 1, 0, 0, 0);
        lemma_row_col_values(ay, by, 2, 3, 1, 0, 0, 0, 0, 0, 0, 1);
        lemma_row_col_values(ay, by, 3, 0, 0, 0, 0, 1, 0, 0, -1, 0);
        lemma_row_col_values(ay, by, 3, 1, 0, 0, 0, 1, 0, 1, 0, 0);
        lemma_row_col_values(ay, by, 3, 2, 0, 0, 0, 1, 1, 0, 0, 0);
        lemma_row_col_values(ay, by, 3, 3, 0, 0, 0, 1, 0, 0, 0, 1);
        lemma_row_col_values(by, ay, 0, 0, 0, 0, 1, 0, 0, 0, 1, 0);
        lemma_row_col_values(by, ay, 0, 1, 0, 0, 1, 0, 0, 1, 0, 0);
        lemma_row_col_values(by, ay, 0, 2, 0, 0, 1, 0, -1, 0, 0, 0);
        lemma_row_col_values(by, ay, 0, 3, 0, 0, 1, 0, 0, 0, 0, 1);
        lemma_row_col_values(by, ay, 1, 0, 0, 1, 0, 0, 0, 0, 1, 0);
        lemma_row_col_values(by, ay, 1, 1, 0, 1, 0, 0, 0, 1, 0, 0);
        lemma_row_col_values(by, ay, 1, 2, 0, 1, 0, 0, -1, 0, 0, 0);
        lemma_row_col_values(by, ay, 1, 3, 0, 1, 0, 0, 0, 0, 0, 1);
        lemma_row_col_values(by, ay, 2, 0, -1, 0, 0, 0, 0, 0, 1, 0);
        lemma_row_col_values(by, ay, 2, 1, -1, 0, 0, 0, 0, 1, 0, 0);
        lemma_row_col_values(by, ay, 2, 2, -1, 0, 0, 0, -1, 0, 0, 0);
        lemma_row_col_values(by, ay, 2, 3, -1, 0, 0, 0, 0, 0, 0, 1);
        lemma_row_col_values(by, ay, 3, 0, 0, 0, 0, 1, 0, 0, 1, 0);
        lemma_row_col_values(by, ay, 3, 1, 0, 0, 0, 1, 0, 1, 0, 0);
        lemma_row_col_values(by, ay, 3, 2, 0, 0, 0, 1, -1, 0, 0, 0);
        lemma_row_col_values(by, ay, 3, 3, 0, 0, 0, 1, 0, 0, 0, 1);
        lemma_row_col_values(az, bz, 0, 0, 0, 1, 0, 0, 0, 1, 0, 0);
        lemma_row_col_values(az, bz, 0, 1, 0, 1, 0, 0, -1, 0, 0, 0);
        lemma_row_col_values(az, bz, 0, 2, 0, 1, 0, 0, 0, 0, 1, 0);
        lemma_row_col_values(az, bz, 0, 3, 0, 1, 0, 0, 0, 0, 0, 1);
        lemma_row_col_values(az, bz, 1, 0, -1, 0, 0, 0, 0, 1, 0, 0);
        lemma_row_col_values(az, bz, 1, 1, -1, 0, 0, 0, -1, 0, 0, 0);
        lemma_row_col_values(az, bz, 1, 2, -1, 0, 0, 0, 0, 0, 1, 0);
        lemma_row_col_values(az, bz, 1, 3, -1, 0, 0, 0, 0, 0, 0, 1);
        lemma_row_col_values(az, bz, 2, 0, 0, 0, 1, 0, 0, 1, 0, 0);
        lemma_row_col_values(az, bz, 2, 1, 0, 0, 1, 0, -1, 0, 0, 0);
        lemma_row_col_values(az, bz, 2, 2, 0, 0, 1, 0, 0, 0, 1, 0);
        lemma_row_col_values(az, bz, 2, 3, 0, 0, 1, 0, 0, 0, 0, 1);
        lemma_row_col_values(az, bz, 3, 0, 0, 0, 0, 1, 0, 1, 0, 0);
        lemma_row_col_values(az, bz, 3, 1, 0, 0, 0, 1, -1, 0, 0, 0);
        lemma_row_col_values(az, bz, 3, 2, 0, 0, 0, 1, 0, 0, 1, 0);
        lemma_row_col_values(az, bz, 3, 3, 0, 0, 0, 1, 0, 0, 0, 1);
        lemma_row_col_values(bz, az, 0, 0, 0, -1, 0, 0, 0, -1, 0, 0);
        lemma_row_col_values(bz, az, 0, 1, 0, -1, 0, 0, 1, 0, 0, 0);
        lemma_row_col_values(bz, az, 0, 2, 0, -1, 0, 0, 0, 0, 1, 0);
        lemma_row_col_values(bz, az, 0, 3, 0, -1, 0, 0, 0, 0, 0, 1);
        lemma_row_col_values(bz, az, 1, 0, 1, 0, 0, 0, 0, -1, 0, 0);
        lemma_row_col_values(bz, az, 1, 1, 1, 0, 0, 0, 1, 0, 0, 0);
        lemma_row_col_values(bz, az, 1, 2, 1, 0, 0, 0, 0, 0, 1, 0);
        lemma_row_col_values(bz, az, 1, 3, 1, 0, 0, 0, 0, 0, 0, 1);
        lemma_row_col_values(bz, az, 2, 0, 0, 0, 1, 0, 0, -1, 0, 0);
        lemma_row_col_values(bz, az, 2, 1, 0, 0, 1, 0, 1, 0, 0, 0);
        lemma_row_col_values(bz, az, 2, 2, 0, 0, 1, 0, 0, 0, 1, 0);
        lemma_row_col_values(bz, az, 2, 3, 0, 0, 1, 0, 0, 0, 0, 1);
        lemma_row_col_values(bz, az, 3, 0, 0, 0, 0, 1, 0, -1, 0, 0);
        lemma_row_col_values(bz, az, 3, 1, 0, 0, 0, 1, 1, 0, 0, 0);
        lemma_row_col_values(bz, az, 3, 2, 0, 0, 0, 1, 0, 0, 1, 0);
        lemma_row_col_values(bz, az, 3, 3, 0, 0, 0, 1, 0, 0, 0, 1);
    }
}

/// The whole unit vector along axis `k` (0 for x, 1 for y, 2 for z) with
/// sign `s`.
pub open spec fn axis_unit(k: int, s: int) -> Tuple3 {
    (
        if k == 0 {
            s
        } else {
            0
        },
        if k == 1 {
            s
        } else {
            0
        },
        if k == 2 {
            s
        } else {
            0
        },
    )
}

/// The inverse of `frame_matrix(pos, right, up, dir)` for an orthonormal
/// frame: the transposed frame, then the move by `-pos` in frame terms.
pub open spec fn frame_inverse(pos: Tuple3, right: Tuple3, up: Tuple3, dir: Tuple3) -> Seq<i64> {
    seq![
        right.0 as i64, right.1 as i64, right.2 as i64, (-dot3(right, pos)) as i64,
        up.0 as i64, up.1 as i64, up.2 as i64, (-dot3(up, pos)) as i64,
        dir.0 as i64, dir.1 as i64, dir.2 as i64, (-dot3(dir, pos)) as i64,
        0, 0, 0, 1,
    ]
}

proof fn lemma_sign_facts(s: int, p: Tuple3)
    requires
        s == 1 || s == -1,
        fits3(p),
        negatable3(p),
    ensures
        s * s == 1,
        s * (-(s * p.0)) == -p.0,
        s * (-(s * p.1)) == -p.1,
        s * (-(s * p.2)) == -p.2,
        fits(s * p.0) && fits(s * p.1) && fits(s * p.2),
        fits(-(s * p.0)) && fits(-(s * p.1)) && fits(-(s * p.2)),
{
    if s == 1 {
        assert(s * p.0 == p.0 && s * p.1 == p.1 && s * p.2 == p.2);
    } else {
        assert(s * p.0 == -p.0 && s * p.1 == -p.1 && s * p.2 == -p.2);
    }
}

proof fn lemma_dot_axis(k: int, s: int, p: Tuple3)
    requires
        0 <= k < 3,
    ensures
        dot3(axis_unit(k, s), p) == (if k == 0 {
            s * p.0
        } else if k == 1 {
            s * p.1
        } else {
            s * p.2
        }),
{
    if k == 0 {
        assert(dot3(axis_unit(k, s), p) == s * p.0 + 0 * p.1 + 0 * p.2);
    } else if k == 1 {
        assert(dot3(axis_unit(k, s), p) == 0 * p.0 + s * p.1 + 0 * p.2);
    } else {
        assert(dot3(axis_unit(k, s), p) == 0 * p.0 + 0 * p.1 + s * p.2);
    }
}

/// The index of the axis that the whole unit vector `u` lies along.
pub open spec fn unit_index(u: Tuple3) -> int {
    if u.0 != 0 {
        0
    } else if u.1 != 0 {
        1
    } else {
        2
    }
}

/// The sign of the whole unit vector `u` along its axis.
pub open spec fn unit_sign(u: Tuple3) -> int {
    if u.0 != 0 {
        u.0
    } else if u.1 != 0 {
        u.1
    } else {
        u.2
    }
}

proof fn lemma_unit_is_axis(v: Tuple3)
    requires
        unit_along3(v).is_some(),
    ensures
        ({
            let u = unit_along3(v).unwrap();
            &&& u == axis_unit(unit_index(u), unit_sign(u))
            &&& 0 <= unit_index(u) < 3
            &&& unit_sign(u) == 1 || unit_sign(u) == -1
        }),
{
}

/// The cross product of two axis units is zero on a common axis; otherwise
/// it is the unit on the third axis, and crossing back gives the first.
#[verifier::spinoff_prover]
proof fn lemma_axis_cross(ku: int, su: int, kd: int, sd: int)
    requires
        0 <= ku < 3,
        0 <= kd < 3,
        su == 1 || su == -1,
        sd == 1 || sd == -1,
    ensures
        ku == kd ==> cross3(axis_unit(ku, su), axis_unit(kd, sd)) == (0int, 0int, 0int),
        ku != kd ==> ({
            let c = cross3(axis_unit(ku, su), axis_unit(kd, sd));
            &&& c == axis_unit(3 - ku - kd, unit_sign(c))
            &&& unit_sign(c) == 1 || unit_sign(c) == -1
            &&& cross3(axis_unit(kd, sd), c) == axis_unit(ku, su)
        }),
{
    if ku == 0 && kd == 0 && su == 1 && sd == 1 {
    } else if ku == 0 && kd == 0 && su == 1 && sd == -1 {
    } else if ku == 0 && kd == 0 && su == -1 && sd == 1 {
    } else if ku == 0 && kd == 0 && su == -1 && sd == -1 {
    } else if ku == 0 && kd == 1 && su == 1 && sd == 1 {
    } else if ku == 0 && kd == 1 && su == 1 && sd == -1 {
    } else if ku == 0 && kd == 1 && su == -1 && sd == 1 {
    } else if ku == 0 && kd == 1 && su == -1 && sd == -1 {
    } else if ku == 0 && kd == 2 && su == 1 && sd == 1 {
    } else if ku == 0 && kd == 2 && su == 1 && sd == -1 {
    } else if ku == 0 && kd == 2 && su == -1 && sd == 1 {
    } else if ku == 0 && kd == 2 && su == -1 && sd == -1 {
    } else if ku == 1 && kd == 0 && su == 1 && sd == 1 {
    } else if ku == 1 && kd == 0 && su == 1 && sd == -1 {
    } else if ku == 1 && kd == 0 && su == -1 && sd == 1 {
    } else if ku == 1 && kd == 0 && su == -1 && sd == -1 {
    } else if ku == 1 && kd == 1 && su == 1 && sd == 1 {
    } else if ku == 1 && kd == 1 && su == 1 && sd == -1 {
    } else if ku == 1 && kd == 1 && su == -1 && sd == 1 {
    } else if ku == 1 && kd == 1 && su == -1 && sd == -1 {
    } else if ku == 1 && kd == 2 && su == 1 && sd == 1 {
    } else if ku == 1 && kd == 2 && su == 1 && sd == -1 {
    } else if ku == 1 && kd == 2 && su == -1 && sd == 1 {
    } else if ku == 1 && kd == 2 && su == -1 && sd == -1 {
    } else if ku == 2 && kd == 0 && su == 1 && sd == 1 {
    } else if ku == 2 && kd == 0 && su == 1 && sd == -1 {
    } else if ku == 2 && kd == 0 && su == -1 && sd == 1 {
    } else if ku == 2 && kd == 0 && su == -1 && sd == -1 {
    } else if ku == 2 && kd == 1 && su == 1 && sd == 1 {
    } else if ku == 2 && kd == 1 && su == 1 && sd == -1 {
    } else if ku == 2 && kd == 1 && su == -1 && sd == 1 {
    } else if ku == 2 && kd == 1 && su == -1 && sd == -1 {
    } else if ku == 2 && kd == 2 && su == 1 && sd == 1 {
    } else if ku == 2 && kd == 2 && su == 1 && sd == -1 {
    } else if ku == 2 && kd == 2 && su == -1 && sd == 1 {
    } else {
    }
}

/// A frame of whole unit vectors along three different axes, with any
/// position, and its inverse multiply to the identity in either order,
/// and both products can be computed with machine integers.
#[verifier::spinoff_prover]
proof fn lemma_frame_inverse(p: Tuple3, kr: int, ku: int, kd: int, sr: int, su: int, sd: int)
    requires
        0 <= kr < 3,
        0 <= ku < 3,
        0 <= kd < 3,
        kr != ku,
        kr != kd,
        ku != kd,
        sr == 1 || sr == -1,
        su == 1 || su == -1,
        sd == 1 || sd == -1,
        fits3(p),
        negatable3(p),
    ensures
        ({
            let r = axis_unit(kr, sr);
            let u = axis_unit(ku, su);
            let d = axis_unit(kd, sd);
            let m = frame_matrix(p, r, u, d);
            let mi = frame_inverse(p, r, u, d);
            &&& is_identity_product(m, mi)
            &&& is_identity_product(mi, m)
            &&& mul_fits(m, mi)
            &&& mul_fits(mi, m)
        }),
{
    let r = axis_unit(kr, sr);
    let u = axis_unit(ku, su);
    let d = axis_unit(kd, sd);
    let m = frame_matrix(p, r, u, d);
    let mi = frame_inverse(p, r, u, d);
    lemma_sign_facts(sr, p);
    lemma_sign_facts(su, p);
    lemma_sign_facts(sd, p);
    lemma_dot_axis(kr, sr, p);
    lemma_dot_axis(ku, su, p);
    lemma_dot_axis(kd, sd, p);
    if kr == 0 && ku == 1 && kd == 2 {
        assert(r == axis_unit(0, sr) && u == axis_unit(1, su) && d == axis_unit(2, sd));
        lemma_row_col_fits_values(m, mi, 0, 0, sr, 0, 0, p.0, sr, 0, 0, 0);
        lemma_row_col_fits_values(m, mi, 0, 1, sr, 0, 0, p.0, 0, su, 0, 0);
        lemma_row_col_fits_values(m, mi, 0, 2, sr, 0, 0, p.0, 0, 0, sd, 0);
        lemma_row_col_fits_values(m, mi, 0, 3, sr, 0, 0, p.0, -(sr * p.0), -(su * p.1), -(sd * p.2), 1);
        lemma_row_col_fits_values(m, mi, 1, 0, 0, su, 0, p.1, sr, 0, 0, 0);
        lemma_row_col_fits_values(m, mi, 1, 1, 0, su, 0, p.1, 0, su, 0, 0);
        lemma_row_col_fits_values(m, mi, 1, 2, 0, su, 0, p.1, 0, 0, sd, 0);
        lemma_row_col_fits_values(m, mi, 1, 3, 0, su, 0, p.1, -(sr * p.0), -(su * p.1), -(sd * p.2), 1);
        lemma_row_col_fits_values(m, mi, 2, 0, 0, 0, sd, p.2, sr, 0, 0, 0);
        lemma_row_col_fits_values(m, mi, 2, 1, 0, 0, sd, p.2, 0, su, 0, 0);
        lemma_row_col_fits_values(m, mi, 2, 2, 0, 0, sd, p.2, 0, 0, sd, 0);
        lemma_row_col_fits_values(m, mi, 2, 3, 0, 0, sd, p.2, -(sr * p.0), -(su * p.1), -(sd * p.2), 1);
        lemma_row_col_fits_values(m, mi, 3, 0, 0, 0, 0, 1, sr, 0, 0, 0);
        lemma_row_col_fits_values(m, mi, 3, 1, 0, 0, 0, 1, 0, su, 0, 0);
        lemma_row_col_fits_values(m, mi, 3, 2, 0, 0, 0, 1, 0, 0, sd, 0);
        lemma_row_col_fits_values(m, mi, 3, 3, 0, 0, 0, 1, -(sr * p.0), -(su * p.1), -(sd * p.2), 1);
        lemma_row_col_fits_values(mi, m, 0, 0, sr, 0, 0, -(sr * p.0), sr, 0, 0, 0);
        lemma_row_col_fits_values(mi, m, 0, 1, sr, 0, 0, -(sr * p.0), 0, su, 0, 0);
        lemma_row_col_fits_values(mi, m, 0, 2, sr, 0, 0, -(sr * p.0), 0, 0, sd, 0);
        lemma_row_col_fits_values(mi, m, 0, 3, sr, 0, 0, -(sr * p.0), p.0, p.1, p.2, 1);
        lemma_row_col_fits_values(mi, m, 1, 0, 0, su, 0, -(su * p.1), sr, 0, 0, 0);
        lemma_row_col_fits_values(mi, m, 1, 1, 0, su, 0, -(su * p.1), 0, su, 0, 0);
        lemma_row_col_fits_values(mi, m, 1, 2, 0, su, 0, -(su * p.1), 0, 0, sd, 0);
        lemma_row_col_fits_values(mi, m, 1, 3, 0, su, 0, -(su * p.1), p.0, p.1, p.2, 1);
        lemma_row_col_fits_values(mi, m, 2, 0, 0, 0, sd, -(sd * p.2), sr, 0, 0, 0);
        lemma_row_col_fits_values(mi, m, 2, 1, 0, 0, sd, -(sd * p.2), 0, su, 0, 0);
        lemma_row_col_fits_values(mi, m, 2, 2, 0, 0, sd, -(sd * p.2), 0, 0, sd, 0);
        lemma_row_col_fits_values(mi, m, 2, 3, 0, 0, sd, -(sd * p.2), p.0, p.1, p.2, 1);
        lemma_row_col_fits_values(mi, m, 3, 0, 0, 0, 0, 1, sr, 0, 0, 0);
        lemma_row_col_fits_values(mi, m, 3, 1, 0, 0, 0, 1, 0, su, 0, 0);
        lemma_row_col_fits_values(mi, m, 3, 2, 0, 0, 0, 1, 0, 0, sd, 0);
        lemma_row_col_fits_values(mi, m, 3, 3, 0, 0, 0, 1, p.0, p.1, p.2, 1);
    } else if kr == 0 && ku == 2 && kd == 1 {
        assert(r == axis_unit(0, sr) && u == axis_unit(2, su) && d == axis_unit(1, sd));
        lemma_row_col_fits_values(m, mi, 0, 0, sr, 0, 0, p.0, sr, 0, 0, 0);
        lemma_row_col_fits_values(m, mi, 0, 1, sr, 0, 0, p.0, 0, 0, sd, 0);
        lemma_row_col_fits_values(m, mi, 0, 2, sr, 0, 0, p.0, 0, su, 0, 0);
        lemma_row_col_fits_values(m, mi, 0, 3, sr, 0, 0, p.0, -(sr * p.0), -(su * p.2), -(sd * p.1), 1);
        lemma_row_col_fits_values(m, mi, 1, 0, 0, 0, sd, p.1, sr, 0, 0, 0);
        lemma_row_col_fits_values(m, mi, 1, 1, 0, 0, sd, p.1, 0, 0, sd, 0);
        lemma_row_col_fits_values(m, mi, 1, 2, 0, 0, sd, p.1, 0, su, 0, 0);
        lemma_row_col_fits_values(m, mi, 1, 3, 0, 0, sd, p.1, -(sr * p.0), -(su * p.2), -(sd * p.1), 1);
        lemma_row_col_fits_values(m, mi, 2, 0, 0, su, 0, p.2, sr, 0, 0, 0);
        lemma_row_col_fits_values(m, mi, 2, 1, 0, su, 0, p.2, 0, 0, sd, 0);
        lemma_row_col_fits_values(m, mi, 2, 2, 0, su, 0, p.2, 0, su, 0, 0);
        lemma_row_col_fits_values(m, mi, 2, 3, 0, su, 0, p.2, -(sr * p.0), -(su * p.2), -(sd * p.1), 1);
        lemma_row_col_fits_values(m, mi, 3, 0, 0, 0, 0, 1, sr, 0, 0, 0);
        lemma_row_col_fits_values(m, mi, 3, 1, 0, 0, 0, 1, 0, 0, sd, 0);
        lemma_row_col_fits_values(m, mi, 3, 2, 0, 0, 0, 1, 0, su, 0, 0);
        lemma_row_col_fits_values(m, mi, 3, 3, 0, 0, 0, 1, -(sr * p.0), -(su * p.2), -(sd * p.1), 1);
        lemma_row_col_fits_values(mi, m, 0, 0, sr, 0, 0, -(sr * p.0), sr, 0, 0, 0);
        lemma_row_col_fits_values(mi, m, 0, 1, sr, 0, 0, -(sr * p.0), 0, 0, su, 0);
        lemma_row_col_fits_values(mi, m, 0, 2, sr, 0, 0, -(sr * p.0), 0, sd, 0, 0);
        lemma_row_col_fits_values(mi, m, 0, 3, sr, 0, 0, -(sr * p.0), p.0, p.1, p.2, 1);
        lemma_row_col_fits_values(mi, m, 1, 0, 0, 0, su, -(su * p.2), sr, 0, 0, 0);
        lemma_row_col_fits_values(mi, m, 1, 1, 0, 0, su, -(su * p.2), 0, 0, su, 0);
        lemma_row_col_fits_values(mi, m, 1, 2, 0, 0, su, -(su * p.2), 0, sd, 0, 0);
        lemma_row_col_fits_values(mi, m, 1, 3, 0, 0, su, -(su * p.2), p.0, p.1, p.2, 1);
        lemma_row_col_fits_values(mi, m, 2, 0, 0, sd, 0, -(sd * p.1), sr, 0, 0, 0);
        lemma_row_col_fits_values(mi, m, 2, 1, 0, sd, 0, -(sd * p.1), 0, 0, su, 0);
        lemma_row_col_fits_values(mi, m, 2, 2, 0, sd, 0, -(sd * p.1), 0, sd, 0, 0);
        lemma_row_col_fits_values(mi, m, 2, 3, 0, sd, 0, -(sd * p.1), p.0, p.1, p.2, 1);
        lemma_row_col_fits_values(mi, m, 3, 0, 0, 0, 0, 1, sr, 0, 0, 0);
        lemma_row_col_fits_values(mi, m, 3, 1, 0, 0, 0, 1, 0, 0, su, 0);
        lemma_row_col_fits_values(mi, m, 3, 2, 0, 0, 0, 1, 0, sd, 0, 0);
        lemma_row_col_fits_values(mi, m, 3, 3, 0, 0, 0, 1, p.0, p.1, p.2, 1);
    } else if kr == 1 && ku == 0 && kd == 2 {
        assert(r == axis_unit(1, sr) && u == axis_unit(0, su) && d == axis_unit(2, sd));
        lemma_row_col_fits_values(m, mi, 0, 0, 0, su, 0, p.0, 0, su, 0, 0);
        lemma_row_col_fits_values(m, mi, 0, 1, 0, su, 0, p.0, sr, 0, 0, 0);
        lemma_row_col_fits_values(m, mi, 0, 2, 0, su, 0, p.0, 0, 0, sd, 0);
        lemma_row_col_fits_values(m, mi, 0, 3, 0, su, 0, p.0, -(sr * p.1), -(su * p.0), -(sd * p.2), 1);
        lemma_row_col_fits_values(m, mi, 1, 0, sr, 0, 0, p.1, 0, su, 0, 0);
        lemma_row_col_fits_values(m, mi, 1, 1, sr, 0, 0, p.1, sr, 0, 0, 0);
        lemma_row_col_fits_values(m, mi, 1, 2, sr, 0, 0, p.1, 0, 0, sd, 0);
        lemma_row_col_fits_values(m, mi, 1, 3, sr, 0, 0, p.1, -(sr * p.1), -(su * p.0), -(sd * p.2), 1);
        lemma_row_col_fits_values(m, mi, 2, 0, 0, 0, sd, p.2, 0, su, 0, 0);
        lemma_row_col_fits_values(m, mi, 2, 1, 0, 0, sd, p.2, sr, 0, 0, 0);
        lemma_row_col_fits_values(m, mi, 2, 2, 0, 0, sd, p.2, 0, 0, sd, 0);
        lemma_row_col_fits_values(m, mi, 2, 3, 0, 0, sd, p.2, -(sr * p.1), -(su * p.0), -(sd * p.2), 1);
        lemma_row_col_fits_values(m, mi, 3, 0, 0, 0, 0, 1, 0, su, 0, 0);
        lemma_row_col_fits_values(m, mi, 3, 1, 0, 0, 0, 1, sr, 0, 0, 0);
        lemma_row_col_fits_values(m, mi, 3, 2, 0, 0, 0, 1, 0, 0, sd, 0);
        lemma_row_col_fits_values(m, mi, 3, 3, 0, 0, 0, 1, -(sr * p.1), -(su * p.0), -(sd * p.2), 1);
        lemma_row_col_fits_values(mi, m, 0, 0, 0, sr, 0, -(sr * p.1), 0, sr, 0, 0);
        lemma_row_col_fits_values(mi, m, 0, 1, 0, sr, 0, -(sr * p.1), su, 0, 0, 0);
        lemma_row_col_fits_values(mi, m, 0, 2, 0, sr, 0, -(sr * p.1), 0, 0, sd, 0);
        lemma_row_col_fits_values(mi, m, 0, 3, 0, sr, 0, -(sr * p.1), p.0, p.1, p.2, 1);
        lemma_row_col_fits_values(mi, m, 1, 0, su, 0, 0, -(su * p.0), 0, sr, 0, 0);
        lemma_row_col_fits_values(mi, m, 1, 1, su, 0, 0, -(su * p.0), su, 0, 0, 0);
        lemma_row_col_fits_values(mi, m, 1, 2, su, 0, 0, -(su * p.0), 0, 0, sd, 0);
        lemma_row_col_fits_values(mi, m, 1, 3, su, 0, 0, -(su * p.0), p.0, p.1, p.2, 1);
        lemma_row_col_fits_values(mi, m, 2, 0, 0, 0, sd, -(sd * p.2), 0, sr, 0, 0);
        lemma_row_col_fits_values(mi, m, 2, 1, 0, 0, sd, -(sd * p.2), su, 0, 0, 0);
        lemma_row_col_fits_values(mi, m, 2, 2, 0, 0, sd, -(sd * p.2), 0, 0, sd, 0);
        lemma_row_col_fits_values(mi, m, 2, 3, 0, 0, sd, -(sd * p.2), p.0, p.1, p.2, 1);
        lemma_row_col_fits_values(mi, m, 3, 0, 0, 0, 0, 1, 0, sr, 0, 0);
        lemma_row_col_fits_values(mi, m, 3, 1, 0, 0, 0, 1, su, 0, 0, 0);
        lemma_row_col_fits_values(mi, m, 3, 2, 0, 0, 0, 1, 0, 0, sd, 0);
        lemma_row_col_fits_values(mi, m, 3, 3, 0, 0, 0, 1, p.0, p.1, p.2, 1);
    } else if kr == 1 && ku == 2 && kd == 0 {
        assert(r == axis_unit(1, sr) && u == axis_unit(2, su) && d == axis_unit(0, sd));
        lemma_row_col_fits_values(m, mi, 0, 0, 0, 0, sd, p.0, 0, 0, sd, 0);
        lemma_row_col_fits_values(m, mi, 0, 1, 0, 0, sd, p.0, sr, 0, 0, 0);
        lemma_row_col_fits_values(m, mi, 0, 2, 0, 0, sd, p.0, 0, su, 0, 0);
        lemma_row_col_fits_values(m, mi, 0, 3, 0, 0, sd, p.0, -(sr * p.1), -(su * p.2), -(sd * p.0), 1);
        lemma_row_col_fits_values(m, mi, 1, 0, sr, 0, 0, p.1, 0, 0, sd, 0);
        lemma_row_col_fits_values(m, mi, 1, 1, sr, 0, 0, p.1, sr, 0, 0, 0);
        lemma_row_col_fits_values(m, mi, 1, 2, sr, 0, 0, p.1, 0, su, 0, 0);
        lemma_row_col_fits_values(m, mi, 1, 3, sr, 0, 0, p.1, -(sr * p.1), -(su * p.2), -(sd * p.0), 1);
        lemma_row_col_fits_values(m, mi, 2, 0, 0, su, 0, p.2, 0, 0, sd, 0);
        lemma_row_col_fits_values(m, mi, 2, 1, 0, su, 0, p.2, sr, 0, 0, 0);
        lemma_row_col_fits_values(m, mi, 2, 2, 0, su, 0, p.2, 0, su, 0, 0);
        lemma_row_col_fits_values(m, mi, 2, 3, 0, su, 0, p.2, -(sr * p.1), -(su * p.2), -(sd * p.0), 1);
        lemma_row_col_fits_values(m, mi, 3, 0, 0, 0, 0, 1, 0, 0, sd, 0);
        lemma_row_col_fits_values(m, mi, 3, 1, 0, 0, 0, 1, sr, 0, 0, 0);
        lemma_row_col_fits_values(m, mi, 3, 2, 0, 0, 0, 1, 0, su, 0, 0);
        lemma_row_col_fits_values(m, mi, 3, 3, 0, 0, 0, 1, -(sr * p.1), -(su * p.2), -(sd * p.0), 1);
        lemma_row_col_fits_values(mi, m, 0, 0, 0, sr, 0, -(sr * p.1), 0, sr, 0, 0);
        lemma_row_col_fits_values(mi, m, 0, 1, 0, sr, 0, -(sr * p.1), 0, 0, su, 0);
        lemma_row_col_fits_values(mi, m, 0, 2, 0, sr, 0, -(sr * p.1), sd, 0, 0, 0);
        lemma_row_col_fits_values(mi, m, 0, 3, 0, sr, 0, -(sr * p.1), p.0, p.1, p.2, 1);
        lemma_row_col_fits_values(mi, m, 1, 0, 0, 0, su, -(su * p.2), 0, sr, 0, 0);
        lemma_row_col_fits_values(mi, m, 1, 1, 0, 0, su, -(su * p.2), 0, 0, su, 0);
        lemma_row_col_fits_values(mi, m, 1, 2, 0, 0, su, -(su * p.2), sd, 0, 0, 0);
        lemma_row_col_fits_values(mi, m, 1, 3, 0, 0, su, -(su * p.2), p.0, p.1, p.2, 1);
        lemma_row_col_fits_values(mi, m, 2, 0, sd, 0, 0, -(sd * p.0), 0, sr, 0, 0);
        lemma_row_col_fits_values(mi, m, 2, 1, sd, 0, 0, -(sd * p.0), 0, 0, su, 0);
        lemma_row_col_fits_values(mi, m, 2, 2, sd, 0, 0, -(sd * p.0), sd, 0, 0, 0);
        lemma_row_col_fits_values(mi, m, 2, 3, sd, 0, 0, -(sd * p.0), p.0, p.1, p.2, 1);
        lemma_row_col_fits_values(mi, m, 3, 0, 0, 0, 0, 1, 0, sr, 0, 0);
        lemma_row_col_fits_values(mi, m, 3, 1, 0, 0, 0, 1, 0, 0, su, 0);
        lemma_row_col_fits_values(mi, m, 3, 2, 0, 0, 0, 1, sd, 0, 0, 0);
        lemma_row_col_fits_values(mi, m, 3, 3, 0, 0, 0, 1, p.0, p.1, p.2, 1);
    } else if kr == 2 && ku == 0 && kd == 1 {
        assert(r == axis_unit(2, sr) && u == axis_unit(0, su) && d == axis_unit(1, sd));
        lemma_row_col_fits_values(m, mi, 0, 0, 0, su, 0, p.0, 0, su, 0, 0);
        lemma_row_col_fits_values(m, mi, 0, 1, 0, su, 0, p.0, 0, 0, sd, 0);
        lemma_row_col_fits_values(m, mi, 0, 2, 0, su, 0, p.0, sr, 0, 0, 0);
        lemma_row_col_fits_values(m, mi, 0, 3, 0, su, 0, p.0, -(sr * p.2), -(su * p.0), -(sd * p.1), 1);
        lemma_row_col_fits_values(m, mi, 1, 0, 0, 0, sd, p.1, 0, su, 0, 0);
        lemma_row_col_fits_values(m, mi, 1, 1, 0, 0, sd, p.1, 0, 0, sd, 0);
        lemma_row_col_fits_values(m, mi, 1, 2, 0, 0, sd, p.1, sr, 0, 0, 0);
        lemma_row_col_fits_values(m, mi, 1, 3, 0, 0, sd, p.1, -(sr * p.2), -(su * p.0), -(sd * p.1), 1);
        lemma_row_col_fits_values(m, mi, 2, 0, sr, 0, 0, p.2, 0, su, 0, 0);
        lemma_row_col_fits_values(m, mi, 2, 1, sr, 0, 0, p.2, 0, 0, sd, 0);
        lemma_row_col_fits_values(m, mi, 2, 2, sr, 0, 0, p.2, sr, 0, 0, 0);
        lemma_row_col_fits_values(m, mi, 2, 3, sr, 0, 0, p.2, -(sr * p.2), -(su * p.0), -(sd * p.1), 1);
        lemma_row_col_fits_values(m, mi, 3, 0, 0, 0, 0, 1, 0, su, 0, 0);
        lemma_row_col_fits_values(m, mi, 3, 1, 0, 0, 0, 1, 0, 0, sd, 0);
        lemma_row_col_fits_values(m, mi, 3, 2, 0, 0, 0, 1, sr, 0, 0, 0);
        lemma_row_col_fits_values(m, mi, 3, 3, 0, 0, 0, 1, -(sr * p.2), -(su * p.0), -(sd * p.1), 1);
        lemma_row_col_fits_values(mi, m, 0, 0, 0, 0, sr, -(sr * p.2), 0, 0, sr, 0);
        lemma_row_col_fits_values(mi, m, 0, 1, 0, 0, sr, -(sr * p.2), su, 0, 0, 0);
        lemma_row_col_fits_values(mi, m, 0, 2, 0, 0, sr, -(sr * p.2), 0, sd, 0, 0);
        lemma_row_col_fits_values(mi, m, 0, 3, 0, 0, sr, -(sr * p.2), p.0, p.1, p.2, 1);
        lemma_row_col_fits_values(mi, m, 1, 0, su, 0, 0, -(su * p.0), 0, 0, sr, 0);
        lemma_row_col_fits_values(mi, m, 1, 1, su, 0, 0, -(su * p.0), su, 0, 0, 0);
        lemma_row_col_fits_values(mi, m, 1, 2, su, 0, 0, -(su * p.0), 0, sd, 0, 0);
        lemma_row_col_fits_values(mi, m, 1, 3, su, 0, 0, -(su * p.0), p.0, p.1, p.2, 1);
        lemma_row_col_fits_values(mi, m, 2, 0, 0, sd, 0, -(sd * p.1), 0, 0, sr, 0);
        lemma_row_col_fits_values(mi, m, 2, 1, 0, sd, 0, -(sd * p.1), su, 0, 0, 0);
        lemma_row_col_fits_values(mi, m, 2, 2, 0, sd, 0, -(sd * p.1), 0, sd, 0, 0);
        lemma_row_col_fits_values(mi, m, 2, 3, 0, sd, 0, -(sd * p.1), p.0, p.1, p.2, 1);
        lemma_row_col_fits_values(mi, m, 3, 0, 0, 0, 0, 1, 0, 0, sr, 0);
        lemma_row_col_fits_values(mi, m, 3, 1, 0, 0, 0, 1, su, 0, 0, 0);
        lemma_row_col_fits_values(mi, m, 3, 2, 0, 0, 0, 1, 0, sd, 0, 0);
        lemma_row_col_fits_values(mi, m, 3, 3, 0, 0, 0, 1, p.0, p.1, p.2, 1);
    } else {
        assert(r == axis_unit(2, sr) && u == axis_unit(1, su) && d == axis_unit(0, sd));
        lemma_row_col_fits_values(m, mi, 0, 0, 0, 0, sd, p.0, 0, 0, sd, 0);
        lemma_row_col_fits_values(m, mi, 0, 1, 0, 0, sd, p.0, 0, su, 0, 0);
        lemma_row_col_fits_values(m, mi, 0, 2, 0, 0, sd, p.0, sr, 0, 0, 0);
        lemma_row_col_fits_values(m, mi, 0, 3, 0, 0, sd, p.0, -(sr * p.2), -(su * p.1), -(sd * p.0), 1);
        lemma_row_col_fits_values(m, mi, 1, 0, 0, su, 0, p.1, 0, 0, sd, 0);
        lemma_row_col_fits_values(m, mi, 1, 1, 0, su, 0, p.1, 0, su, 0, 0);
        lemma_row_col_fits_values(m, mi, 1, 2, 0, su, 0, p.1, sr, 0, 0, 0);
        lemma_row_col_fits_values(m, mi, 1, 3, 0, su, 0, p.1, -(sr * p.2), -(su * p.1), -(sd * p.0), 1);
        lemma_row_col_fits_values(m, mi, 2, 0, sr, 0, 0, p.2, 0, 0, sd, 0);
        lemma_row_col_fits_values(m, mi, 2, 1, sr, 0, 0, p.2, 0, su, 0, 0);
        lemma_row_col_fits_values(m, mi, 2, 2, sr, 0, 0, p.2, sr, 0, 0, 0);
        lemma_row_col_fits_values(m, mi, 2, 3, sr, 0, 0, p.2, -(sr * p.2), -(su * p.1), -(sd * p.0), 1);
        lemma_row_col_fits_values(m, mi, 3, 0, 0, 0, 0, 1, 0, 0, sd, 0);
        lemma_row_col_fits_values(m, mi, 3, 1, 0, 0, 0, 1, 0, su, 0, 0);
        lemma_row_col_fits_values(m, mi, 3, 2, 0, 0, 0, 1, sr, 0, 0, 0);
        lemma_row_col_fits_values(m, mi, 3, 3, 0, 0, 0, 1, -(sr * p.2), -(su * p.1), -(sd * p.0), 1);
        lemma_row_col_fits_values(mi, m, 0, 0, 0, 0, sr, -(sr * p.2), 0, 0, sr, 0);
        lemma_row_col_fits_values(mi, m, 0, 1, 0, 0, sr, -(sr * p.2), 0, su, 0, 0);
        lemma_row_col_fits_values(mi, m, 0, 2, 0, 0, sr, -(sr * p.2), sd, 0, 0, 0);
        lemma_row_col_fits_values(mi, m, 0, 3, 0, 0, sr, -(sr * p.2), p.0, p.1, p.2, 1);
        lemma_row_col_fits_values(mi, m, 1, 0, 0, su, 0, -(su * p.1), 0, 0, sr, 0);
        lemma_row_col_fits_values(mi, m, 1, 1, 0, su, 0, -(su * p.1), 0, su, 0, 0);
        lemma_row_col_fits_values(mi, m, 1, 2, 0, su, 0, -(su * p.1), sd, 0, 0, 0);
        lemma_row_col_fits_values(mi, m, 1, 3, 0, su, 0, -(su * p.1), p.0, p.1, p.2, 1);
        lemma_row_col_fits_values(mi, m, 2, 0, sd, 0, 0, -(sd * p.0), 0, 0, sr, 0);
        lemma_row_col_fits_values(mi, m, 2, 1, sd, 0, 0, -(sd * p.0), 0, su, 0, 0);
        lemma_row_col_fits_values(mi, m, 2, 2, sd, 0, 0, -(sd * p.0), sd, 0, 0, 0);
        lemma_row_col_fits_values(mi, m, 2, 3, sd, 0, 0, -(sd * p.0), p.0, p.1, p.2, 1);
        lemma_row_col_fits_values(mi, m, 3, 0, 0, 0, 0, 1, 0, 0, sr, 0);
        lemma_row_col_fits_values(mi, m, 3, 1, 0, 0, 0, 1, 0, su, 0, 0);
        lemma_row_col_fits_values(mi, m, 3, 2, 0, 0, 0, 1, sd, 0, 0, 0);
        lemma_row_col_fits_values(mi, m, 3, 3, 0, 0, 0, 1, p.0, p.1, p.2, 1);
    }
}

proof fn lemma_dist4(x0: int, x1: int, x2: int, x3: int, y: int)
    ensures
        (x0 + x1 + x2 + x3) * y == x0 * y + x1 * y + x2 * y + x3 * y,
{
    lemma_mul_is_distributive_add_other_way(y, x0 + x1 + x2, x3);
    lemma_mul_is_distributive_add_other_way(y, x0 + x1, x2);
    lemma_mul_is_distributive_add_other_way(y, x0, x1);
}

proof fn lemma_dist4r(y: int, x0: int, x1: int, x2: int, x3: int)
    ensures
        y * (x0 + x1 + x2 + x3) == y * x0 + y * x1 + y * x2 + y * x3,
{
    lemma_mul_is_distributive_add(y, x0 + x1 + x2, x3);
    lemma_mul_is_distributive_add(y, x0 + x1, x2);
    lemma_mul_is_distributive_add(y, x0, x1);
}

proof fn lemma_mul_congruence(x: int, y: int, z: int)
    requires
        x == y,
    ensures
        x * z == y * z,
{
}

/// Reassociates a row-by-column product of three 4x4 factors:
/// `sum_k (a . B_k) (D_k . c) == sum_l sum_m a_l (B_l . D_m) c_m`.
proof fn lemma_reassociate(a0: int, a1: int, a2: int, a3: int, b00: int, b01: int, b02: int, b03: int, b10: int, b11: int, b12: int, b13: int, b20: int, b21: int, b22: int, b23: int, b30: int, b31: int, b32: int, b33: int, d00: int, d01: int, d02: int, d03: int, d10: int, d11: int, d12: int, d13: int, d20: int, d21: int, d22: int, d23: int, d30: int, d31: int, d32: int, d33: int, c0: int, c1: int, c2: int, c3: int)
    ensures
        (a0 * b00 + a1 * b10 + a2 * b20 + a3 * b30) * (d00 * c0 + d01 * c1 + d02 * c2 + d03 * c3) + (a0 * b01 + a1 * b11 + a2 * b21 + a3 * b31) * (d10 * c0 + d11 * c1 + d12 * c2 + d13 * c3) + (a0 * b02 + a1 * b12 + a2 * b22 + a3 * b32) * (d20 * c0 + d21 * c1 + d22 * c2 + d23 * c3) + (a0 * b03 + a1 * b13 + a2 * b23 + a3 * b33) * (d30 * c0 + d31 * c1 + d32 * c2 + d33 * c3) == a0 * (b00 * d00 + b01 * d10 + b02 * d20 + b03 * d30) * c0 + a0 * (b00 * d01 + b01 * d11 + b02 * d21 + b03 * d31) * c1 + a0 * (b00 * d02 + b01 * d12 + b02 * d22 + b03 * d32) * c2 + a0 * (b00 * d03 + b01 * d13 + b02 * d23 + b03 * d33) * c3 + a1 * (b10 * d00 + b11 * d10 + b12 * d20 + b13 * d30) * c0 + a1 * (b10 * d01 + b11 * d11 + b12 * d21 + b13 * d31) * c1 + a1 * (b10 * d02 + b11 * d12 + b12 * d22 + b13 * d32) * c2 + a1 * (b10 * d03 + b11 * d13 + b12 * d23 + b13 * d33) * c3 + a2 * (b20 * d00 + b21 * d10 + b22 * d20 + b23 * d30) * c0 + a2 * (b20 * d01 + b21 * d11 + b22 * d21 + b23 * d31) * c1 + a2 * (b20 * d02 + b21 * d12 + b22 * d22 + b23 * d32) * c2 + a2 * (b20 * d03 + b21 * d13 + b22 * d23 + b23 * d33) * c3 + a3 * (b30 * d00 + b31 * d10 + b32 * d20 + b33 * d30) * c0 + a3 * (b30 * d01 + b31 * d11 + b32 * d21 + b33 * d31) * c1 + a3 * (b30 * d02 + b31 * d12 + b32 * d22 + b33 * d32) * c2 + a3 * (b30 * d03 + b31 * d13 + b32 * d23 + b33 * d33) * c3,
{
    lemma_dist4(a0 * b00, a1 * b10, a2 * b20, a3 * b30, (d00 * c0 + d01 * c1 + d02 * c2 + d03 * c3));
    lemma_dist4r(a0 * b00, d00 * c0, d01 * c1, d02 * c2, d03 * c3);
    lemma_mul_is_associative(a0 * b00, d00, c0);
    lemma_mul_is_associative(a0 * b00, d01, c1);
    lemma_mul_is_associative(a0 * b00, d02, c2);
    lemma_mul_is_associative(a0 * b00, d03, c3);
    lemma_dist4r(a1 * b10, d00 * c0, d01 * c1, d02 * c2, d03 * c3);
    lemma_mul_is_associative(a1 * b10, d00, c0);
    lemma_mul_is_associative(a1 * b10, d01, c1);
    lemma_mul_is_associative(a1 * b10, d02, c2);
    lemma_mul_is_associative(a1 * b10, d03, c3);
    lemma_dist4r(a2 * b20, d00 * c0, d01 * c1, d02 * c2, d03 * c3);
    lemma_mul_is_associative(a2 * b20, d00, c0);
    lemma_mul_is_associative(a2 * b20, d01, c1);
    lemma_mul_is_associative(a2 * b20, d02, c2);
    lemma_mul_is_associative(a2 * b20, d03, c3);
    lemma_dist4r(a3 * b30, d00 * c0, d01 * c1, d02 * c2, d03 * c3);
    lemma_mul_is_associative(a3 * b30, d00, c0);
    lemma_mul_is_associative(a3 * b30, d01, c1);
    lemma_mul_is_associative(a3 * b30, d02, c2);
    lemma_mul_is_associative(a3 * b30, d03, c3);
    lemma_dist4(a0 * b01, a1 * b11, a2 * b21, a3 * b31, (d10 * c0 + d11 * c1 + d12 * c2 + d13 * c3));
    lemma_dist4r(a0 * b01, d10 * c0, d11 * c1, d12 * c2, d13 * c3);
    lemma_mul_is_associative(a0 * b01, d10, c0);
    lemma_mul_is_associative(a0 * b01, d11, c1);
    lemma_mul_is_associative(a0 * b01, d12, c2);
    lemma_mul_is_associative(a0 * b01, d13, c3);
    lemma_dist4r(a1 * b11, d10 * c0, d11 * c1, d12 * c2, d13 * c3);
    lemma_mul_is_associative(a1 * b11, d10, c0);
    lemma_mul_is_associative(a1 * b11, d11, c1);
    lemma_mul_is_associative(a1 * b11, d12, c2);
    lemma_mul_is_associative(a1 * b11, d13, c3);
    lemma_dist4r(a2 * b21, d10 * c0, d11 * c1, d12 * c2, d13 * c3);
    lemma_mul_is_associative(a2 * b21, d10, c0);
    lemma_mul_is_associative(a2 * b21, d11, c1);
    lemma_mul_is_associative(a2 * b21, d12, c2);
    lemma_mul_is_associative(a2 * b21, d13, c3);
    lemma_dist4r(a3 * b31, d10 * c0, d11 * c1, d12 * c2, d13 * c3);
    lemma_mul_is_associative(a3 * b31, d10, c0);
    lemma_mul_is_associative(a3 * b31, d11, c1);
    lemma_mul_is_associative(a3 * b31, d12, c2);
    lemma_mul_is_associative(a3 * b31, d13, c3);
    lemma_dist4(a0 * b02, a1 * b12, a2 * b22, a3 * b32, (d20 * c0 + d21 * c1 + d22 * c2 + d23 * c3));
    lemma_dist4r(a0 * b02, d20 * c0, d21 * c1, d22 * c2, d23 * c3);
    lemma_mul_is_associative(a0 * b02, d20, c0);
    lemma_mul_is_associative(a0 * b02, d21, c1);
    lemma_mul_is_associative(a0 * b02, d22, c2);
    lemma_mul_is_associative(a0 * b02, d23, c3);
    lemma_dist4r(a1 * b12, d20 * c0, d21 * c1, d22 * c2, d23 * c3);
    lemma_mul_is_associative(a1 * b12, d20, c0);
    lemma_mul_is_associative(a1 * b12, d21, c1);
    lemma_mul_is_associative(a1 * b12, d22, c2);
    lemma_mul_is_associative(a1 * b12, d23, c3);
    lemma_dist4r(a2 * b22, d20 * c0, d21 * c1, d22 * c2, d23 * c3);
    lemma_mul_is_associative(a2 * b22, d20, c0);
    lemma_mul_is_associative(a2 * b22, d21, c1);
    lemma_mul_is_associative(a2 * b22, d22, c2);
    lemma_mul_is_associative(a2 * b22, d23, c3);
    lemma_dist4r(a3 * b32, d20 * c0, d21 * c1, d22 * c2, d23 * c3);
    lemma_mul_is_associative(a3 * b32, d20, c0);
    lemma_mul_is_associative(a3 * b32, d21, c1);
    lemma_mul_is_associative(a3 * b32, d22, c2);
    lemma_mul_is_associative(a3 * b32, d23, c3);
    lemma_dist4(a0 * b03, a1 * b13, a2 * b23, a3 * b33, (d30 * c0 + d31 * c1 + d32 * c2 + d33 * c3));
    lemma_dist4r(a0 * b03, d30 * c0, d31 * c1, d32 * c2, d33 * c3);
    lemma_mul_is_associative(a0 * b03, d30, c0);
    lemma_mul_is_associative(a0 * b03, d31, c1);
    lemma_mul_is_associative(a0 * b03, d32, c2);
    lemma_mul_is_associative(a0 * b03, d33, c3);
    lemma_dist4r(a1 * b13, d30 * c0, d31 * c1, d32 * c2, d33 * c3);
    lemma_mul_is_associative(a1 * b13, d30, c0);
    lemma_mul_is_associative(a1 * b13, d31, c1);
    lemma_mul_is_associative(a1 * b13, d32, c2);
    lemma_mul_is_associative(a1 * b13, d33, c3);
    lemma_dist4r(a2 * b23, d30 * c0, d31 * c1, d32 * c2, d33 * c3);
    lemma_mul_is_associative(a2 * b23, d30, c0);
    lemma_mul_is_associative(a2 * b23, d31, c1);
    lemma_mul_is_associative(a2 * b23, d32, c2);
    lemma_mul_is_associative(a2 * b23, d33, c3);
    lemma_dist4r(a3 * b33, d30 * c0, d31 * c1, d32 * c2, d33 * c3);
    lemma_mul_is_associative(a3 * b33, d30, c0);
    lemma_mul_is_associative(a3 * b33, d31, c1);
    lemma_mul_is_associative(a3 * b33, d32, c2);
    lemma_mul_is_associative(a3 * b33, d33, c3);
    lemma_dist4r(a0, b00 * d00, b01 * d10, b02 * d20, b03 * d30);
    lemma_dist4(a0 * (b00 * d00), a0 * (b01 * d10), a0 * (b02 * d20), a0 * (b03 * d30), c0);
    lemma_mul_is_associative(a0, b00, d00);
    lemma_mul_congruence(a0 * (b00 * d00), a0 * b00 * d00, c0);
    lemma_mul_is_associative(a0, b01, d10);
    lemma_mul_congruence(a0 * (b01 * d10), a0 * b01 * d10, c0);
    lemma_mul_is_associative(a0, b02, d20);
    lemma_mul_congruence(a0 * (b02 * d20), a0 * b02 * d20, c0);
    lemma_mul_is_associative(a0, b03, d30);
    lemma_mul_congruence(a0 * (b03 * d30), a0 * b03 * d30, c0);
    lemma_dist4r(a0, b00 * d01, b01 * d11, b02 * d21, b03 * d31);
    lemma_dist4(a0 * (b00 * d01), a0 * (b01 * d11), a0 * (b02 * d21), a0 * (b03 * d31), c1);
    lemma_mul_is_associative(a0, b00, d01);
    lemma_mul_congruence(a0 * (b00 * d01), a0 * b00 * d01, c1);
    lemma_mul_is_associative(a0, b01, d11);
    lemma_mul_congruence(a0 * (b01 * d11), a0 * b01 * d11, c1);
    lemma_mul_is_associative(a0, b02, d21);
    lemma_mul_congruence(a0 * (b02 * d21), a0 * b02 * d21, c1);
    lemma_mul_is_associative(a0, b03, d31);
    lemma_mul_congruence(a0 * (b03 * d31), a0 * b03 * d31, c1);
    lemma_dist4r(a0, b00 * d02, b01 * d12, b02 * d22, b03 * d32);
    lemma_dist4(a0 * (b00 * d02), a0 * (b01 * d12), a0 * (b02 * d22), a0 * (b03 * d32), c2);
    lemma_mul_is_associative(a0, b00, d02);
    lemma_mul_congruence(a0 * (b00 * d02), a0 * b00 * d02, c2);
    lemma_mul_is_associative(a0, b01, d12);
    lemma_mul_congruence(a0 * (b01 * d12), a0 * b01 * d12, c2);
    lemma_mul_is_associative(a0, b02, d22);
    lemma_mul_congruence(a0 * (b02 * d22), a0 * b02 * d22, c2);
    lemma_mul_is_associative(a0, b03, d32);
    lemma_mul_congruence(a0 * (b03 * d32), a0 * b03 * d32, c2);
    lemma_dist4r(a0, b00 * d03, b01 * d13, b02 * d23, b03 * d33);
    lemma_dist4(a0 * (b00 * d03), a0 * (b01 * d13), a0 * (b02 * d23), a0 * (b03 * d33), c3);
    lemma_mul_is_associative(a0, b00, d03);
    lemma_mul_congruence(a0 * (b00 * d03), a0 * b00 * d03, c3);
    lemma_mul_is_associative(a0, b01, d13);
    lemma_mul_congruence(a0 * (b01 * d13), a0 * b01 * d13, c3);
    lemma_mul_is_associative(a0, b02, d23);
    lemma_mul_congruence(a0 * (b02 * d23), a0 * b02 * d23, c3);
    lemma_mul_is_associative(a0, b03, d33);
    lemma_mul_congruence(a0 * (b03 * d33), a0 * b03 * d33, c3);
    lemma_dist4r(a1, b10 * d00, b11 * d10, b12 * d20, b13 * d30);
    lemma_dist4(a1 * (b10 * d00), a1 * (b11 * d10), a1 * (b12 * d20), a1 * (b13 * d30), c0);
    lemma_mul_is_associative(a1, b10, d00);
    lemma_mul_congruence(a1 * (b10 * d00), a1 * b10 * d00, c0);
    lemma_mul_is_associative(a1, b11, d10);
    lemma_mul_congruence(a1 * (b11 * d10), a1 * b11 * d10, c0);
    lemma_mul_is_associative(a1, b12, d20);
    lemma_mul_congruence(a1 * (b12 * d20), a1 * b12 * d20, c0);
    lemma_mul_is_associative(a1, b13, d30);
    lemma_mul_congruence(a1 * (b13 * d30), a1 * b13 * d30, c0);
    lemma_dist4r(a1, b10 * d01, b11 * d11, b12 * d21, b13 * d31);
    lemma_dist4(a1 * (b10 * d01), a1 * (b11 * d11), a1 * (b12 * d21), a1 * (b13 * d31), c1);
    lemma_mul_is_associative(a1, b10, d01);
    lemma_mul_congruence(a1 * (b10 * d01), a1 * b10 * d01, c1);
    lemma_mul_is_associative(a1, b11, d11);
    lemma_mul_congruence(a1 * (b11 * d11), a1 * b11 * d11, c1);
    lemma_mul_is_associative(a1, b12, d21);
    lemma_mul_congruence(a1 * (b12 * d21), a1 * b12 * d21, c1);
    lemma_mul_is_associative(a1, b13, d31);
    lemma_mul_congruence(a1 * (b13 * d31), a1 * b13 * d31, c1);
    lemma_dist4r(a1, b10 * d02, b11 * d12, b12 * d22, b13 * d32);
    lemma_dist4(a1 * (b10 * d02), a1 * (b11 * d12), a1 * (b12 * d22), a1 * (b13 * d32), c2);
    lemma_mul_is_associative(a1, b10, d02);
    lemma_mul_congruence(a1 * (b10 * d02), a1 * b10 * d02, c2);
    lemma_mul_is_associative(a1, b11, d12);
    lemma_mul_congruence(a1 * (b11 * d12), a1 * b11 * d12, c2);
    lemma_mul_is_associative(a1, b12, d22);
    lemma_mul_congruence(a1 * (b12 * d22), a1 * b12 * d22, c2);
    lemma_mul_is_associative(a1, b13, d32);
    lemma_mul_congruence(a1 * (b13 * d32), a1 * b13 * d32, c2);
    lemma_dist4r(a1, b10 * d03, b11 * d13, b12 * d23, b13 * d33);
    lemma_dist4(a1 * (b10 * d03), a1 * (b11 * d13), a1 * (b12 * d23), a1 * (b13 * d33), c3);
    lemma_mul_is_associative(a1, b10, d03);
    lemma_mul_congruence(a1 * (b10 * d03), a1 * b10 * d03, c3);
    lemma_mul_is_associative(a1, b11, d13);
    lemma_mul_congruence(a1 * (b11 * d13), a1 * b11 * d13, c3);
    lemma_mul_is_associative(a1, b12, d23);
    lemma_mul_congruence(a1 * (b12 * d23), a1 * b12 * d23, c3);
    lemma_mul_is_associative(a1, b13, d33);
    lemma_mul_congruence(a1 * (b13 * d33), a1 * b13 * d33, c3);
    lemma_dist4r(a2, b20 * d00, b21 * d10, b22 * d20, b23 * d30);
    lemma_dist4(a2 * (b20 * d00), a2 * (b21 * d10), a2 * (b22 * d20), a2 * (b23 * d30), c0);
    lemma_mul_is_associative(a2, b20, d00);
    lemma_mul_congruence(a2 * (b20 * d00), a2 * b20 * d00, c0);
    lemma_mul_is_associative(a2, b21, d10);
    lemma_mul_congruence(a2 * (b21 * d10), a2 * b21 * d10, c0);
    lemma_mul_is_associative(a2, b22, d20);
    lemma_mul_congruence(a2 * (b22 * d20), a2 * b22 * d20, c0);
    lemma_mul_is_associative(a2, b23, d30);
    lemma_mul_congruence(a2 * (b23 * d30), a2 * b23 * d30, c0);
    lemma_dist4r(a2, b20 * d01, b21 * d11, b22 * d21, b23 * d31);
    lemma_dist4(a2 * (b20 * d01), a2 * (b21 * d11), a2 * (b22 * d21), a2 * (b23 * d31), c1);
    lemma_mul_is_associative(a2, b20, d01);
    lemma_mul_congruence(a2 * (b20 * d01), a2 * b20 * d01, c1);
    lemma_mul_is_associative(a2, b21, d11);
    lemma_mul_congruence(a2 * (b21 * d11), a2 * b21 * d11, c1);
    lemma_mul_is_associative(a2, b22, d21);
    lemma_mul_congruence(a2 * (b22 * d21), a2 * b22 * d21, c1);
    lemma_mul_is_associative(a2, b23, d31);
    lemma_mul_congruence(a2 * (b23 * d31), a2 * b23 * d31, c1);
    lemma_dist4r(a2, b20 * d02, b21 * d12, b22 * d22, b23 * d32);
    lemma_dist4(a2 * (b20 * d02), a2 * (b21 * d12), a2 * (b22 * d22), a2 * (b23 * d32), c2);
    lemma_mul_is_associative(a2, b20, d02);
    lemma_mul_congruence(a2 * (b20 * d02), a2 * b20 * d02, c2);
    lemma_mul_is_associative(a2, b21, d12);
    lemma_mul_congruence(a2 * (b21 * d12), a2 * b21 * d12, c2);
    lemma_mul_is_associative(a2, b22, d22);
    lemma_mul_congruence(a2 * (b22 * d22), a2 * b22 * d22, c2);
    lemma_mul_is_associative(a2, b23, d32);
    lemma_mul_congruence(a2 * (b23 * d32), a2 * b23 * d32, c2);
    lemma_dist4r(a2, b20 * d03, b21 * d13, b22 * d23, b23 * d33);
    lemma_dist4(a2 * (b20 * d03), a2 * (b21 * d13), a2 * (b22 * d23), a2 * (b23 * d33), c3);
    lemma_mul_is_associative(a2, b20, d03);
    lemma_mul_congruence(a2 * (b20 * d03), a2 * b20 * d03, c3);
    lemma_mul_is_associative(a2, b21, d13);
    lemma_mul_congruence(a2 * (b21 * d13), a2 * b21 * d13, c3);
    lemma_mul_is_associative(a2, b22, d23);
    lemma_mul_congruence(a2 * (b22 * d23), a2 * b22 * d23, c3);
    lemma_mul_is_associative(a2, b23, d33);
    lemma_mul_congruence(a2 * (b23 * d33), a2 * b23 * d33, c3);
    lemma_dist4r(a3, b30 * d00, b31 * d10, b32 * d20, b33 * d30);
    lemma_dist4(a3 * (b30 * d00), a3 * (b31 * d10), a3 * (b32 * d20), a3 * (b33 * d30), c0);
    lemma_mul_is_associative(a3, b30, d00);
    lemma_mul_congruence(a3 * (b30 * d00), a3 * b30 * d00, c0);
    lemma_mul_is_associative(a3, b31, d10);
    lemma_mul_congruence(a3 * (b31 * d10), a3 * b31 * d10, c0);
    lemma_mul_is_associative(a3, b32, d20);
    lemma_mul_congruence(a3 * (b32 * d20), a3 * b32 * d20, c0);
    lemma_mul_is_associative(a3, b33, d30);
    lemma_mul_congruence(a3 * (b33 * d30), a3 * b33 * d30, c0);
    lemma_dist4r(a3, b30 * d01, b31 * d11, b32 * d21, b33 * d31);
    lemma_dist4(a3 * (b30 * d01), a3 * (b31 * d11), a3 * (b32 * d21), a3 * (b33 * d31), c1);
    lemma_mul_is_associative(a3, b30, d01);
    lemma_mul_congruence(a3 * (b30 * d01), a3 * b30 * d01, c1);
    lemma_mul_is_associative(a3, b31, d11);
    lemma_mul_congruence(a3 * (b31 * d11), a3 * b31 * d11, c1);
    lemma_mul_is_associative(a3, b32, d21);
    lemma_mul_congruence(a3 * (b32 * d21), a3 * b32 * d21, c1);
    lemma_mul_is_associative(a3, b33, d31);
    lemma_mul_congruence(a3 * (b33 * d31), a3 * b33 * d31, c1);
    lemma_dist4r(a3, b30 * d02, b31 * d12, b32 * d22, b33 * d32);
    lemma_dist4(a3 * (b30 * d02), a3 * (b31 * d12), a3 * (b32 * d22), a3 * (b33 * d32), c2);
    lemma_mul_is_associative(a3, b30, d02);
    lemma_mul_congruence(a3 * (b30 * d02), a3 * b30 * d02, c2);
    lemma_mul_is_associative(a3, b31, d12);
    lemma_mul_congruence(a3 * (b31 * d12), a3 * b31 * d12, c2);
    lemma_mul_is_associative(a3, b32, d22);
    lemma_mul_congruence(a3 * (b32 * d22), a3 * b32 * d22, c2);
    lemma_mul_is_associative(a3, b33, d32);
    lemma_mul_congruence(a3 * (b33 * d32), a3 * b33 * d32, c2);
    lemma_dist4r(a3, b30 * d03, b31 * d13, b32 * d23, b33 * d33);
    lemma_dist4(a3 * (b30 * d03), a3 * (b31 * d13), a3 * (b32 * d23), a3 * (b33 * d33), c3);
    lemma_mul_is_associative(a3, b30, d03);
    lemma_mul_congruence(a3 * (b30 * d03), a3 * b30 * d03, c3);
    lemma_mul_is_associative(a3, b31, d13);
    lemma_mul_congruence(a3 * (b31 * d13), a3 * b31 * d13, c3);
    lemma_mul_is_associative(a3, b32, d23);
    lemma_mul_congruence(a3 * (b32 * d23), a3 * b32 * d23, c3);
    lemma_mul_is_associative(a3, b33, d33);
    lemma_mul_congruence(a3 * (b33 * d33), a3 * b33 * d33, c3);
}

/// `sum_l sum_m a_l e_lm c_m == a . c` when `e` is the identity.
proof fn lemma_collapse_identity(a0: int, a1: int, a2: int, a3: int, e00: int, e01: int, e02: int, e03: int, e10: int, e11: int, e12: int, e13: int, e20: int, e21: int, e22: int, e23: int, e30: int, e31: int, e32: int, e33: int, c0: int, c1: int, c2: int, c3: int)
    requires
        e00 == 1,
        e01 == 0,
        e02 == 0,
        e03 == 0,
        e10 == 0,
        e11 == 1,
        e12 == 0,
        e13 == 0,
        e20 == 0,
        e21 == 0,
        e22 == 1,
        e23 == 0,
        e30 == 0,
        e31 == 0,
        e32 == 0,
        e33 == 1,
    ensures
        a0 * e00 * c0 + a0 * e01 * c1 + a0 * e02 * c2 + a0 * e03 * c3 + a1 * e10 * c0 + a1 * e11 * c1 + a1 * e12 * c2 + a1 * e13 * c3 + a2 * e20 * c0 + a2 * e21 * c1 + a2 * e22 * c2 + a2 * e23 * c3 + a3 * e30 * c0 + a3 * e31 * c1 + a3 * e32 * c2 + a3 * e33 * c3 == a0 * c0 + a1 * c1 + a2 * c2 + a3 * c3,
{
    assert(a0 * e00 * c0 + a0 * e01 * c1 + a0 * e02 * c2 + a0 * e03 * c3 + a1 * e10 * c0 + a1 * e11 * c1 + a1 * e12 * c2 + a1 * e13 * c3 + a2 * e20 * c0 + a2 * e21 * c1 + a2 * e22 * c2 + a2 * e23 * c3 + a3 * e30 * c0 + a3 * e31 * c1 + a3 * e32 * c2 + a3 * e33 * c3 == a0 * c0 + a1 * c1 + a2 * c2 + a3 * c3) by (nonlinear_arith)
        requires
            e00 == 1,
            e01 == 0,
            e02 == 0,
            e03 == 0,
            e10 == 0,
            e11 == 1,
            e12 == 0,
            e13 == 0,
            e20 == 0,
            e21 == 0,
            e22 == 1,
            e23 == 0,
            e30 == 0,
            e31 == 0,
            e32 == 0,
            e33 == 1,
    ;
}

/// If `p = a b` and `q = b' a'` where `b b' = I` and `a a' = I`, then `p q = I`.
#[verifier::spinoff_prover]
proof fn lemma_pair_product(a: Seq<i64>, ai: Seq<i64>, b: Seq<i64>, bi: Seq<i64>, p: Seq<i64>, q: Seq<i64>)
    requires
        is_identity_product(a, ai),
        is_identity_product(b, bi),
        is_product(p, a, b),
        is_product(q, bi, ai),
    ensures
        is_identity_product(p, q),
{
    lemma_row_col_values(p, q, 0, 0, row_col(a, b, 0, 0), row_col(a, b, 0, 1), row_col(a, b, 0, 2), row_col(a, b, 0, 3), row_col(bi, ai, 0, 0), row_col(bi, ai, 1, 0), row_col(bi, ai, 2, 0), row_col(bi, ai, 3, 0));
    lemma_reassociate(mentry(a, 0, 0), mentry(a, 0, 1), mentry(a, 0, 2), mentry(a, 0, 3), mentry(b, 0, 0), mentry(b, 0, 1), mentry(b, 0, 2), mentry(b, 0, 3), mentry(b, 1, 0), mentry(b, 1, 1), mentry(b, 1, 2), mentry(b, 1, 3), mentry(b, 2, 0), mentry(b, 2, 1), mentry(b, 2, 2), mentry(b, 2, 3), mentry(b, 3, 0), mentry(b, 3, 1), mentry(b, 3, 2), mentry(b, 3, 3), mentry(bi, 0, 0), mentry(bi, 0, 1), mentry(bi, 0, 2), mentry(bi, 0, 3), mentry(bi, 1, 0), mentry(bi, 1, 1), mentry(bi, 1, 2), mentry(bi, 1, 3), mentry(bi, 2, 0), mentry(bi, 2, 1), mentry(bi, 2, 2), mentry(bi, 2, 3), mentry(bi, 3, 0), mentry(bi, 3, 1), mentry(bi, 3, 2), mentry(bi, 3, 3), mentry(ai, 0, 0), mentry(ai, 1, 0), mentry(ai, 2, 0), mentry(ai, 3, 0));
    lemma_collapse_identity(mentry(a, 0, 0), mentry(a, 0, 1), mentry(a, 0, 2), mentry(a, 0, 3), row_col(b, bi, 0, 0), row_col(b, bi, 0, 1), row_col(b, bi, 0, 2), row_col(b, bi, 0, 3), row_col(b, bi, 1, 0), row_col(b, bi, 1, 1), row_col(b, bi, 1, 2), row_col(b, bi, 1, 3), row_col(b, bi, 2, 0), row_col(b, bi, 2, 1), row_col(b, bi, 2, 2), row_col(b, bi, 2, 3), row_col(b, bi, 3, 0), row_col(b, bi, 3, 1), row_col(b, bi, 3, 2), row_col(b, bi, 3, 3), mentry(ai, 0, 0), mentry(ai, 1, 0), mentry(ai, 2, 0), mentry(ai, 3, 0));
    lemma_row_col_values(p, q, 0, 1, row_col(a, b, 0, 0), row_col(a, b, 0, 1), row_col(a, b, 0, 2), row_col(a, b, 0, 3), row_col(bi, ai, 0, 1), row_col(bi, ai, 1, 1), row_col(bi, ai, 2, 1), row_col(bi, ai, 3, 1));
    lemma_reassociate(mentry(a, 0, 0), mentry(a, 0, 1), mentry(a, 0, 2), mentry(a, 0, 3), mentry(b, 0, 0), mentry(b, 0, 1), mentry(b, 0, 2), mentry(b, 0, 3), mentry(b, 1, 0), mentry(b, 1, 1), mentry(b, 1, 2), mentry(b, 1, 3), mentry(b, 2, 0), mentry(b, 2, 1), mentry(b, 2, 2), mentry(b, 2, 3), mentry(b, 3, 0), mentry(b, 3, 1), mentry(b, 3, 2), mentry(b, 3, 3), mentry(bi, 0, 0), mentry(bi, 0, 1), mentry(bi, 0, 2), mentry(bi, 0, 3), mentry(bi, 1, 0), mentry(bi, 1, 1), mentry(bi, 1, 2), mentry(bi, 1, 3), mentry(bi, 2, 0), mentry(bi, 2, 1), mentry(bi, 2, 2), mentry(bi, 2, 3), mentry(bi, 3, 0), mentry(bi, 3, 1), mentry(bi, 3, 2), mentry(bi, 3, 3), mentry(ai, 0, 1), mentry(ai, 1, 1), mentry(ai, 2, 1), mentry(ai, 3, 1));
    lemma_collapse_identity(mentry(a, 0, 0), mentry(a, 0, 1), mentry(a, 0, 2), mentry(a, 0, 3), row_col(b, bi, 0, 0), row_col(b, bi, 0, 1), row_col(b, bi, 0, 2), row_col(b, bi, 0, 3), row_col(b, bi, 1, 0), row_col(b, bi, 1, 1), row_col(b, bi, 1, 2), row_col(b, bi, 1, 3), row_col(b, bi, 2, 0), row_col(b, bi, 2, 1), row_col(b, bi, 2, 2), row_col(b, bi, 2, 3), row_col(b, bi, 3, 0), row_col(b, bi, 3, 1), row_col(b, bi, 3, 2), row_col(b, bi, 3, 3), mentry(ai, 0, 1), mentry(ai, 1, 1), mentry(ai, 2, 1), mentry(ai, 3, 1));
    lemma_row_col_values(p, q, 0, 2, row_col(a, b, 0, 0), row_col(a, b, 0, 1), row_col(a, b, 0, 2), row_col(a, b, 0, 3), row_col(bi, ai, 0, 2), row_col(bi, ai, 1, 2), row_col(bi, ai, 2, 2), row_col(bi, ai, 3, 2));
    lemma_reassociate(mentry(a, 0, 0), mentry(a, 0, 1), mentry(a, 0, 2), mentry(a, 0, 3), mentry(b, 0, 0), mentry(b, 0, 1), mentry(b, 0, 2), mentry(b, 0, 3), mentry(b, 1, 0), mentry(b, 1, 1), mentry(b, 1, 2), mentry(b, 1, 3), mentry(b, 2, 0), mentry(b, 2, 1), mentry(b, 2, 2), mentry(b, 2, 3), mentry(b, 3, 0), mentry(b, 3, 1), mentry(b, 3, 2), mentry(b, 3, 3), mentry(bi, 0, 0), mentry(bi, 0, 1), mentry(bi, 0, 2), mentry(bi, 0, 3), mentry(bi, 1, 0), mentry(bi, 1, 1), mentry(bi, 1, 2), mentry(bi, 1, 3), mentry(bi, 2, 0), mentry(bi, 2, 1), mentry(bi, 2, 2), mentry(bi, 2, 3), mentry(bi, 3, 0), mentry(bi, 3, 1), mentry(bi, 3, 2), mentry(bi, 3, 3), mentry(ai, 0, 2), mentry(ai, 1, 2), mentry(ai, 2, 2), mentry(ai, 3, 2));
    lemma_collapse_identity(mentry(a, 0, 0), mentry(a, 0, 1), mentry(a, 0, 2), mentry(a, 0, 3), row_col(b, bi, 0, 0), row_col(b, bi, 0, 1), row_col(b, bi, 0, 2), row_col(b, bi, 0, 3), row_col(b, bi, 1, 0), row_col(b, bi, 1, 1), row_col(b, bi, 1, 2), row_col(b, bi, 1, 3), row_col(b, bi, 2, 0), row_col(b, bi, 2, 1), row_col(b, bi, 2, 2), row_col(b, bi, 2, 3), row_col(b, bi, 3, 0), row_col(b, bi, 3, 1), row_col(b, bi, 3, 2), row_col(b, bi, 3, 3), mentry(ai, 0, 2), mentry(ai, 1, 2), mentry(ai, 2, 2), mentry(ai, 3, 2));
    lemma_row_col_values(p, q, 0, 3, row_col(a, b, 0, 0), row_col(a, b, 0, 1), row_col(a, b, 0, 2), row_col(a, b, 0, 3), row_col(bi, ai, 0, 3), row_col(bi, ai, 1, 3), row_col(bi, ai, 2, 3), row_col(bi, ai, 3, 3));
    lemma_reassociate(mentry(a, 0, 0), mentry(a, 0, 1), mentry(a, 0, 2), mentry(a, 0, 3), mentry(b, 0, 0), mentry(b, 0, 1), mentry(b, 0, 2), mentry(b, 0, 3), mentry(b, 1, 0), mentry(b, 1, 1), mentry(b, 1, 2), mentry(b, 1, 3), mentry(b, 2, 0), mentry(b, 2, 1), mentry(b, 2, 2), mentry(b, 2, 3), mentry(b, 3, 0), mentry(b, 3, 1), mentry(b, 3, 2), mentry(b, 3, 3), mentry(bi, 0, 0), mentry(bi, 0, 1), mentry(bi, 0, 2), mentry(bi, 0, 3), mentry(bi, 1, 0), mentry(bi, 1, 1), mentry(bi, 1, 2), mentry(bi, 1, 3), mentry(bi, 2, 0), mentry(bi, 2, 1), mentry(bi, 2, 2), mentry(bi, 2, 3), mentry(bi, 3, 0), mentry(bi, 3, 1), mentry(bi, 3, 2), mentry(bi, 3, 3), mentry(ai, 0, 3), mentry(ai, 1, 3), mentry(ai, 2, 3), mentry(ai, 3, 3));
    lemma_collapse_identity(mentry(a, 0, 0), mentry(a, 0, 1), mentry(a, 0, 2), mentry(a, 0, 3), row_col(b, bi, 0, 0), row_col(b, bi, 0, 1), row_col(b, bi, 0, 2), row_col(b, bi, 0, 3), row_col(b, bi, 1, 0), row_col(b, bi, 1, 1), row_col(b, bi, 1, 2), row_col(b, bi, 1, 3), row_col(b, bi, 2, 0), row_col(b, bi, 2, 1), row_col(b, bi, 2, 2), row_col(b, bi, 2, 3), row_col(b, bi, 3, 0), row_col(b, bi, 3, 1), row_col(b, bi, 3, 2), row_col(b, bi, 3, 3), mentry(ai, 0, 3), mentry(ai, 1, 3), mentry(ai, 2, 3), mentry(ai, 3, 3));
    lemma_row_col_values(p, q, 1, 0, row_col(a, b, 1, 0), row_col(a, b, 1, 1), row_col(a, b, 1, 2), row_col(a, b, 1, 3), row_col(bi, ai, 0, 0), row_col(bi, ai, 1, 0), row_col(bi, ai, 2, 0), row_col(bi, ai, 3, 0));
    lemma_reassociate(mentry(a, 1, 0), mentry(a, 1, 1), mentry(a, 1, 2), mentry(a, 1, 3), mentry(b, 0, 0), mentry(b, 0, 1), mentry(b, 0, 2), mentry(b, 0, 3), mentry(b, 1, 0), mentry(b, 1, 1), mentry(b, 1, 2), mentry(b, 1, 3), mentry(b, 2, 0), mentry(b, 2, 1), mentry(b, 2, 2), mentry(b, 2, 3), mentry(b, 3, 0), mentry(b, 3, 1), mentry(b, 3, 2), mentry(b, 3, 3), mentry(bi, 0, 0), mentry(bi, 0, 1), mentry(bi, 0, 2), mentry(bi, 0, 3), mentry(bi, 1, 0), mentry(bi, 1, 1), mentry(bi, 1, 2), mentry(bi, 1, 3), mentry(bi, 2, 0), mentry(bi, 2, 1), mentry(bi, 2, 2), mentry(bi, 2, 3), mentry(bi, 3, 0), mentry(bi, 3, 1), mentry(bi, 3, 2), mentry(bi, 3, 3), mentry(ai, 0, 0), mentry(ai, 1, 0), mentry(ai, 2, 0), mentry(ai, 3, 0));
    lemma_collapse_identity(mentry(a, 1, 0), mentry(a, 1, 1), mentry(a, 1, 2), mentry(a, 1, 3), row_col(b, bi, 0, 0), row_col(b, bi, 0, 1), row_col(b, bi, 0, 2), row_col(b, bi, 0, 3), row_col(b, bi, 1, 0), row_col(b, bi, 1, 1), row_col(b, bi, 1, 2), row_col(b, bi, 1, 3), row_col(b, bi, 2, 0), row_col(b, bi, 2, 1), row_col(b, bi, 2, 2), row_col(b, bi, 2, 3), row_col(b, bi, 3, 0), row_col(b, bi, 3, 1), row_col(b, bi, 3, 2), row_col(b, bi, 3, 3), mentry(ai, 0, 0), mentry(ai, 1, 0), mentry(ai, 2, 0), mentry(ai, 3, 0));
    lemma_row_col_values(p, q, 1, 1, row_col(a, b, 1, 0), row_col(a, b, 1, 1), row_col(a, b, 1, 2), row_col(a, b, 1, 3), row_col(bi, ai, 0, 1), row_col(bi, ai, 1, 1), row_col(bi, ai, 2, 1), row_col(bi, ai, 3, 1));
    lemma_reassociate(mentry(a, 1, 0), mentry(a, 1, 1), mentry(a, 1, 2), mentry(a, 1, 3), mentry(b, 0, 0), mentry(b, 0, 1), mentry(b, 0, 2), mentry(b, 0, 3), mentry(b, 1, 0), mentry(b, 1, 1), mentry(b, 1, 2), mentry(b, 1, 3), mentry(b, 2, 0), mentry(b, 2, 1), mentry(b, 2, 2), mentry(b, 2, 3), mentry(b, 3, 0), mentry(b, 3, 1), mentry(b, 3, 2), mentry(b, 3, 3), mentry(bi, 0, 0), mentry(bi, 0, 1), mentry(bi, 0, 2), mentry(bi, 0, 3), mentry(bi, 1, 0), mentry(bi, 1, 1), mentry(bi, 1, 2), mentry(bi, 1, 3), mentry(bi, 2, 0), mentry(bi, 2, 1), mentry(bi, 2, 2), mentry(bi, 2, 3), mentry(bi, 3, 0), mentry(bi, 3, 1), mentry(bi, 3, 2), mentry(bi, 3, 3), mentry(ai, 0, 1), mentry(ai, 1, 1), mentry(ai, 2, 1), mentry(ai, 3, 1));
    lemma_collapse_identity(mentry(a, 1, 0), mentry(a, 1, 1), mentry(a, 1, 2), mentry(a, 1, 3), row_col(b, bi, 0, 0), row_col(b, bi, 0, 1), row_col(b, bi, 0, 2), row_col(b, bi, 0, 3), row_col(b, bi, 1, 0), row_col(b, bi, 1, 1), row_col(b, bi, 1, 2), row_col(b, bi, 1, 3), row_col(b, bi, 2, 0), row_col(b, bi, 2, 1), row_col(b, bi, 2, 2), row_col(b, bi, 2, 3), row_col(b, bi, 3, 0), row_col(b, bi, 3, 1), row_col(b, bi, 3, 2), row_col(b, bi, 3, 3), mentry(ai, 0, 1), mentry(ai, 1, 1), mentry(ai, 2, 1), mentry(ai, 3, 1));
    lemma_row_col_values(p, q, 1, 2, row_col(a, b, 1, 0), row_col(a, b, 1, 1), row_col(a, b, 1, 2), row_col(a, b, 1, 3), row_col(bi, ai, 0, 2), row_col(bi, ai, 1, 2), row_col(bi, ai, 2, 2), row_col(bi, ai, 3, 2));
    lemma_reassociate(mentry(a, 1, 0), mentry(a, 1, 1), mentry(a, 1, 2), mentry(a, 1, 3), mentry(b, 0, 0), mentry(b, 0, 1), mentry(b, 0, 2), mentry(b, 0, 3), mentry(b, 1, 0), mentry(b, 1, 1), mentry(b, 1, 2), mentry(b, 1, 3), mentry(b, 2, 0), mentry(b, 2, 1), mentry(b, 2, 2), mentry(b, 2, 3), mentry(b, 3, 0), mentry(b, 3, 1), mentry(b, 3, 2), mentry(b, 3, 3), mentry(bi, 0, 0), mentry(bi, 0, 1), mentry(bi, 0, 2), mentry(bi, 0, 3), mentry(bi, 1, 0), mentry(bi, 1, 1), mentry(bi, 1, 2), mentry(bi, 1, 3), mentry(bi, 2, 0), mentry(bi, 2, 1), mentry(bi, 2, 2), mentry(bi, 2, 3), mentry(bi, 3, 0), mentry(bi, 3, 1), mentry(bi, 3, 2), mentry(bi, 3, 3), mentry(ai, 0, 2), mentry(ai, 1, 2), mentry(ai, 2, 2), mentry(ai, 3, 2));
    lemma_collapse_identity(mentry(a, 1, 0), mentry(a, 1, 1), mentry(a, 1, 2), mentry(a, 1, 3), row_col(b, bi, 0, 0), row_col(b, bi, 0, 1), row_col(b, bi, 0, 2), row_col(b, bi, 0, 3), row_col(b, bi, 1, 0), row_col(b, bi, 1, 1), row_col(b, bi, 1, 2), row_col(b, bi, 1, 3), row_col(b, bi, 2, 0), row_col(b, bi, 2, 1), row_col(b, bi, 2, 2), row_col(b, bi, 2, 3), row_col(b, bi, 3, 0), row_col(b, bi, 3, 1), row_col(b, bi, 3, 2), row_col(b, bi, 3, 3), mentry(ai, 0, 2), mentry(ai, 1, 2), mentry(ai, 2, 2), mentry(ai, 3, 2));
    lemma_row_col_values(p, q, 1, 3, row_col(a, b, 1, 0), row_col(a, b, 1, 1), row_col(a, b, 1, 2), row_col(a, b, 1, 3), row_col(bi, ai, 0, 3), row_col(bi, ai, 1, 3), row_col(bi, ai, 2, 3), row_col(bi, ai, 3, 3));
    lemma_reassociate(mentry(a, 1, 0), mentry(a, 1, 1), mentry(a, 1, 2), mentry(a, 1, 3), mentry(b, 0, 0), mentry(b, 0, 1), mentry(b, 0, 2), mentry(b, 0, 3), mentry(b, 1, 0), mentry(b, 1, 1), mentry(b, 1, 2), mentry(b, 1, 3), mentry(b, 2, 0), mentry(b, 2, 1), mentry(b, 2, 2), mentry(b, 2, 3), mentry(b, 3, 0), mentry(b, 3, 1), mentry(b, 3, 2), mentry(b, 3, 3), mentry(bi, 0, 0), mentry(bi, 0, 1), mentry(bi, 0, 2), mentry(bi, 0, 3), mentry(bi, 1, 0), mentry(bi, 1, 1), mentry(bi, 1, 2), mentry(bi, 1, 3), mentry(bi, 2, 0), mentry(bi, 2, 1), mentry(bi, 2, 2), mentry(bi, 2, 3), mentry(bi, 3, 0), mentry(bi, 3, 1), mentry(bi, 3, 2), mentry(bi, 3, 3), mentry(ai, 0, 3), mentry(ai, 1, 3), mentry(ai, 2, 3), mentry(ai, 3, 3));
    lemma_collapse_identity(mentry(a, 1, 0), mentry(a, 1, 1), mentry(a, 1, 2), mentry(a, 1, 3), row_col(b, bi, 0, 0), row_col(b, bi, 0, 1), row_col(b, bi, 0, 2), row_col(b, bi, 0, 3), row_col(b, bi, 1, 0), row_col(b, bi, 1, 1), row_col(b, bi, 1, 2), row_col(b, bi, 1, 3), row_col(b, bi, 2, 0), row_col(b, bi, 2, 1), row_col(b, bi, 2, 2), row_col(b, bi, 2, 3), row_col(b, bi, 3, 0), row_col(b, bi, 3, 1), row_col(b, bi, 3, 2), row_col(b, bi, 3, 3), mentry(ai, 0, 3), mentry(ai, 1, 3), mentry(ai, 2, 3), mentry(ai, 3, 3));
    lemma_row_col_values(p, q, 2, 0, row_col(a, b, 2, 0), row_col(a, b, 2, 1), row_col(a, b, 2, 2), row_col(a, b, 2, 3), row_col(bi, ai, 0, 0), row_col(bi, ai, 1, 0), row_col(bi, ai, 2, 0), row_col(bi, ai, 3, 0));
    lemma_reassociate(mentry(a, 2, 0), mentry(a, 2, 1), mentry(a, 2, 2), mentry(a, 2, 3), mentry(b, 0, 0), mentry(b, 0, 1), mentry(b, 0, 2), mentry(b, 0, 3), mentry(b, 1, 0), mentry(b, 1, 1), mentry(b, 1, 2), mentry(b, 1, 3), mentry(b, 2, 0), mentry(b, 2, 1), mentry(b, 2, 2), mentry(b, 2, 3), mentry(b, 3, 0), mentry(b, 3, 1), mentry(b, 3, 2), mentry(b, 3, 3), mentry(bi, 0, 0), mentry(bi, 0, 1), mentry(bi, 0, 2), mentry(bi, 0, 3), mentry(bi, 1, 0), mentry(bi, 1, 1), mentry(bi, 1, 2), mentry(bi, 1, 3), mentry(bi, 2, 0), mentry(bi, 2, 1), mentry(bi, 2, 2), mentry(bi, 2, 3), mentry(bi, 3, 0), mentry(bi, 3, 1), mentry(bi, 3, 2), mentry(bi, 3, 3), mentry(ai, 0, 0), mentry(ai, 1, 0), mentry(ai, 2, 0), mentry(ai, 3, 0));
    lemma_collapse_identity(mentry(a, 2, 0), mentry(a, 2, 1), mentry(a, 2, 2), mentry(a, 2, 3), row_col(b, bi, 0, 0), row_col(b, bi, 0, 1), row_col(b, bi, 0, 2), row_col(b, bi, 0, 3), row_col(b, bi, 1, 0), row_col(b, bi, 1, 1), row_col(b, bi, 1, 2), row_col(b, bi, 1, 3), row_col(b, bi, 2, 0), row_col(b, bi, 2, 1), row_col(b, bi, 2, 2), row_col(b, bi, 2, 3), row_col(b, bi, 3, 0), row_col(b, bi, 3, 1), row_col(b, bi, 3, 2), row_col(b, bi, 3, 3), mentry(ai, 0, 0), mentry(ai, 1, 0), mentry(ai, 2, 0), mentry(ai, 3, 0));
    lemma_row_col_values(p, q, 2, 1, row_col(a, b, 2, 0), row_col(a, b, 2, 1), row_col(a, b, 2, 2), row_col(a, b, 2, 3), row_col(bi, ai, 0, 1), row_col(bi, ai, 1, 1), row_col(bi, ai, 2, 1), row_col(bi, ai, 3, 1));
    lemma_reassociate(mentry(a, 2, 0), mentry(a, 2, 1), mentry(a, 2, 2), mentry(a, 2, 3), mentry(b, 0, 0), mentry(b, 0, 1), mentry(b, 0, 2), mentry(b, 0, 3), mentry(b, 1, 0), mentry(b, 1, 1), mentry(b, 1, 2), mentry(b, 1, 3), mentry(b, 2, 0), mentry(b, 2, 1), mentry(b, 2, 2), mentry(b, 2, 3), mentry(b, 3, 0), mentry(b, 3, 1), mentry(b, 3, 2), mentry(b, 3, 3), mentry(bi, 0, 0), mentry(bi, 0, 1), mentry(bi, 0, 2), mentry(bi, 0, 3), mentry(bi, 1, 0), mentry(bi, 1, 1), mentry(bi, 1, 2), mentry(bi, 1, 3), mentry(bi, 2, 0), mentry(bi, 2, 1), mentry(bi, 2, 2), mentry(bi, 2, 3), mentry(bi, 3, 0), mentry(bi, 3, 1), mentry(bi, 3, 2), mentry(bi, 3, 3), mentry(ai, 0, 1), mentry(ai, 1, 1), mentry(ai, 2, 1), mentry(ai, 3, 1));
    lemma_collapse_identity(mentry(a, 2, 0), mentry(a, 2, 1), mentry(a, 2, 2), mentry(a, 2, 3), row_col(b, bi, 0, 0), row_col(b, bi, 0, 1), row_col(b, bi, 0, 2), row_col(b, bi, 0, 3), row_col(b, bi, 1, 0), row_col(b, bi, 1, 1), row_col(b, bi, 1, 2), row_col(b, bi, 1, 3), row_col(b, bi, 2, 0), row_col(b, bi, 2, 1), row_col(b, bi, 2, 2), row_col(b, bi, 2, 3), row_col(b, bi, 3, 0), row_col(b, bi, 3, 1), row_col(b, bi, 3, 2), row_col(b, bi, 3, 3), mentry(ai, 0, 1), mentry(ai, 1, 1), mentry(ai, 2, 1), mentry(ai, 3, 1));
    lemma_row_col_values(p, q, 2, 2, row_col(a, b, 2, 0), row_col(a, b, 2, 1), row_col(a, b, 2, 2), row_col(a, b, 2, 3), row_col(bi, ai, 0, 2), row_col(bi, ai, 1, 2), row_col(bi, ai, 2, 2), row_col(bi, ai, 3, 2));
    lemma_reassociate(mentry(a, 2, 0), mentry(a, 2, 1), mentry(a, 2, 2), mentry(a, 2, 3), mentry(b, 0, 0), mentry(b, 0, 1), mentry(b, 0, 2), mentry(b, 0, 3), mentry(b, 1, 0), mentry(b, 1, 1), mentry(b, 1, 2), mentry(b, 1, 3), mentry(b, 2, 0), mentry(b, 2, 1), mentry(b, 2, 2), mentry(b, 2, 3), mentry(b, 3, 0), mentry(b, 3, 1), mentry(b, 3, 2), mentry(b, 3, 3), mentry(bi, 0, 0), mentry(bi, 0, 1), mentry(bi, 0, 2), mentry(bi, 0, 3), mentry(bi, 1, 0), mentry(bi, 1, 1), mentry(bi, 1, 2), mentry(bi, 1, 3), mentry(bi, 2, 0), mentry(bi, 2, 1), mentry(bi, 2, 2), mentry(bi, 2, 3), mentry(bi, 3, 0), mentry(bi, 3, 1), mentry(bi, 3, 2), mentry(bi, 3, 3), mentry(ai, 0, 2), mentry(ai, 1, 2), mentry(ai, 2, 2), mentry(ai, 3, 2));
    lemma_collapse_identity(mentry(a, 2, 0), mentry(a, 2, 1), mentry(a, 2, 2), mentry(a, 2, 3), row_col(b, bi, 0, 0), row_col(b, bi, 0, 1), row_col(b, bi, 0, 2), row_col(b, bi, 0, 3), row_col(b, bi, 1, 0), row_col(b, bi, 1, 1), row_col(b, bi, 1, 2), row_col(b, bi, 1, 3), row_col(b, bi, 2, 0), row_col(b, bi, 2, 1), row_col(b, bi, 2, 2), row_col(b, bi, 2, 3), row_col(b, bi, 3, 0), row_col(b, bi, 3, 1), row_col(b, bi, 3, 2), row_col(b, bi, 3, 3), mentry(ai, 0, 2), mentry(ai, 1, 2), mentry(ai, 2, 2), mentry(ai, 3, 2));
    lemma_row_col_values(p, q, 2, 3, row_col(a, b, 2, 0), row_col(a, b, 2, 1), row_col(a, b, 2, 2), row_col(a, b, 2, 3), row_col(bi, ai, 0, 3), row_col(bi, ai, 1, 3), row_col(bi, ai, 2, 3), row_col(bi, ai, 3, 3));
    lemma_reassociate(mentry(a, 2, 0), mentry(a, 2, 1), mentry(a, 2, 2), mentry(a, 2, 3), mentry(b, 0, 0), mentry(b, 0, 1), mentry(b, 0, 2), mentry(b, 0, 3), mentry(b, 1, 0), mentry(b, 1, 1), mentry(b, 1, 2), mentry(b, 1, 3), mentry(b, 2, 0), mentry(b, 2, 1), mentry(b, 2, 2), mentry(b, 2, 3), mentry(b, 3, 0), mentry(b, 3, 1), mentry(b, 3, 2), mentry(b, 3, 3), mentry(bi, 0, 0), mentry(bi, 0, 1), mentry(bi, 0, 2), mentry(bi, 0, 3), mentry(bi, 1, 0), mentry(bi, 1, 1), mentry(bi, 1, 2), mentry(bi, 1, 3), mentry(bi, 2, 0), mentry(bi, 2, 1), mentry(bi, 2, 2), mentry(bi, 2, 3), mentry(bi, 3, 0), mentry(bi, 3, 1), mentry(bi, 3, 2), mentry(bi, 3, 3), mentry(ai, 0, 3), mentry(ai, 1, 3), mentry(ai, 2, 3), mentry(ai, 3, 3));
    lemma_collapse_identity(mentry(a, 2, 0), mentry(a, 2, 1), mentry(a, 2, 2), mentry(a, 2, 3), row_col(b, bi, 0, 0), row_col(b, bi, 0, 1), row_col(b, bi, 0, 2), row_col(b, bi, 0, 3), row_col(b, bi, 1, 0), row_col(b, bi, 1, 1), row_col(b, bi, 1, 2), row_col(b, bi, 1, 3), row_col(b, bi, 2, 0), row_col(b, bi, 2, 1), row_col(b, bi, 2, 2), row_col(b, bi, 2, 3), row_col(b, bi, 3, 0), row_col(b, bi, 3, 1), row_col(b, bi, 3, 2), row_col(b, bi, 3, 3), mentry(ai, 0, 3), mentry(ai, 1, 3), mentry(ai, 2, 3), mentry(ai, 3, 3));
    lemma_row_col_values(p, q, 3, 0, row_col(a, b, 3, 0), row_col(a, b, 3, 1), row_col(a, b, 3, 2), row_col(a, b, 3, 3), row_col(bi, ai, 0, 0), row_col(bi, ai, 1, 0), row_col(bi, ai, 2, 0), row_col(bi, ai, 3, 0));
    lemma_reassociate(mentry(a, 3, 0), mentry(a, 3, 1), mentry(a, 3, 2), mentry(a, 3, 3), mentry(b, 0, 0), mentry(b, 0, 1), mentry(b, 0, 2), mentry(b, 0, 3), mentry(b, 1, 0), mentry(b, 1, 1), mentry(b, 1, 2), mentry(b, 1, 3), mentry(b, 2, 0), mentry(b, 2, 1), mentry(b, 2, 2), mentry(b, 2, 3), mentry(b, 3, 0), mentry(b, 3, 1), mentry(b, 3, 2), mentry(b, 3, 3), mentry(bi, 0, 0), mentry(bi, 0, 1), mentry(bi, 0, 2), mentry(bi, 0, 3), mentry(bi, 1, 0), mentry(bi, 1, 1), mentry(bi, 1, 2), mentry(bi, 1, 3), mentry(bi, 2, 0), mentry(bi, 2, 1), mentry(bi, 2, 2), mentry(bi, 2, 3), mentry(bi, 3, 0), mentry(bi, 3, 1), mentry(bi, 3, 2), mentry(bi, 3, 3), mentry(ai, 0, 0), mentry(ai, 1, 0), mentry(ai, 2, 0), mentry(ai, 3, 0));
    lemma_collapse_identity(mentry(a, 3, 0), mentry(a, 3, 1), mentry(a, 3, 2), mentry(a, 3, 3), row_col(b, bi, 0, 0), row_col(b, bi, 0, 1), row_col(b, bi, 0, 2), row_col(b, bi, 0, 3), row_col(b, bi, 1, 0), row_col(b, bi, 1, 1), row_col(b, bi, 1, 2), row_col(b, bi, 1, 3), row_col(b, bi, 2, 0), row_col(b, bi, 2, 1), row_col(b, bi, 2, 2), row_col(b, bi, 2, 3), row_col(b, bi, 3, 0), row_col(b, bi, 3, 1), row_col(b, bi, 3, 2), row_col(b, bi, 3, 3), mentry(ai, 0, 0), mentry(ai, 1, 0), mentry(ai, 2, 0), mentry(ai, 3, 0));
    lemma_row_col_values(p, q, 3, 1, row_col(a, b, 3, 0), row_col(a, b, 3, 1), row_col(a, b, 3, 2), row_col(a, b, 3, 3), row_col(bi, ai, 0, 1), row_col(bi, ai, 1, 1), row_col(bi, ai, 2, 1), row_col(bi, ai, 3, 1));
    lemma_reassociate(mentry(a, 3, 0), mentry(a, 3, 1), mentry(a, 3, 2), mentry(a, 3, 3), mentry(b, 0, 0), mentry(b, 0, 1), mentry(b, 0, 2), mentry(b, 0, 3), mentry(b, 1, 0), mentry(b, 1, 1), mentry(b, 1, 2), mentry(b, 1, 3), mentry(b, 2, 0), mentry(b, 2, 1), mentry(b, 2, 2), mentry(b, 2, 3), mentry(b, 3, 0), mentry(b, 3, 1), mentry(b, 3, 2), mentry(b, 3, 3), mentry(bi, 0, 0), mentry(bi, 0, 1), mentry(bi, 0, 2), mentry(bi, 0, 3), mentry(bi, 1, 0), mentry(bi, 1, 1), mentry(bi, 1, 2), mentry(bi, 1, 3), mentry(bi, 2, 0), mentry(bi, 2, 1), mentry(bi, 2, 2), mentry(bi, 2, 3), mentry(bi, 3, 0), mentry(bi, 3, 1), mentry(bi, 3, 2), mentry(bi, 3, 3), mentry(ai, 0, 1), mentry(ai, 1, 1), mentry(ai, 2, 1), mentry(ai, 3, 1));
    lemma_collapse_identity(mentry(a, 3, 0), mentry(a, 3, 1), mentry(a, 3, 2), mentry(a, 3, 3), row_col(b, bi, 0, 0), row_col(b, bi, 0, 1), row_col(b, bi, 0, 2), row_col(b, bi, 0, 3), row_col(b, bi, 1, 0), row_col(b, bi, 1, 1), row_col(b, bi, 1, 2), row_col(b, bi, 1, 3), row_col(b, bi, 2, 0), row_col(b, bi, 2, 1), row_col(b, bi, 2, 2), row_col(b, bi, 2, 3), row_col(b, bi, 3, 0), row_col(b, bi, 3, 1), row_col(b, bi, 3, 2), row_col(b, bi, 3, 3), mentry(ai, 0, 1), mentry(ai, 1, 1), mentry(ai, 2, 1), mentry(ai, 3, 1));
    lemma_row_col_values(p, q, 3, 2, row_col(a, b, 3, 0), row_col(a, b, 3, 1), row_col(a, b, 3, 2), row_col(a, b, 3, 3), row_col(bi, ai, 0, 2), row_col(bi, ai, 1, 2), row_col(bi, ai, 2, 2), row_col(bi, ai, 3, 2));
    lemma_reassociate(mentry(a, 3, 0), mentry(a, 3, 1), mentry(a, 3, 2), mentry(a, 3, 3), mentry(b, 0, 0), mentry(b, 0, 1), mentry(b, 0, 2), mentry(b, 0, 3), mentry(b, 1, 0), mentry(b, 1, 1), mentry(b, 1, 2), mentry(b, 1, 3), mentry(b, 2, 0), mentry(b, 2, 1), mentry(b, 2, 2), mentry(b, 2, 3), mentry(b, 3, 0), mentry(b, 3, 1), mentry(b, 3, 2), mentry(b, 3, 3), mentry(bi, 0, 0), mentry(bi, 0, 1), mentry(bi, 0, 2), mentry(bi, 0, 3), mentry(bi, 1, 0), mentry(bi, 1, 1), mentry(bi, 1, 2), mentry(bi, 1, 3), mentry(bi, 2, 0), mentry(bi, 2, 1), mentry(bi, 2, 2), mentry(bi, 2, 3), mentry(bi, 3, 0), mentry(bi, 3, 1), mentry(bi, 3, 2), mentry(bi, 3, 3), mentry(ai, 0, 2), mentry(ai, 1, 2), mentry(ai, 2, 2), mentry(ai, 3, 2));
    lemma_collapse_identity(mentry(a, 3, 0), mentry(a, 3, 1), mentry(a, 3, 2), mentry(a, 3, 3), row_col(b, bi, 0, 0), row_col(b, bi, 0, 1), row_col(b, bi, 0, 2), row_col(b, bi, 0, 3), row_col(b, bi, 1, 0), row_col(b, bi, 1, 1), row_col(b, bi, 1, 2), row_col(b, bi, 1, 3), row_col(b, bi, 2, 0), row_col(b, bi, 2, 1), row_col(b, bi, 2, 2), row_col(b, bi, 2, 3), row_col(b, bi, 3, 0), row_col(b, bi, 3, 1), row_col(b, bi, 3, 2), row_col(b, bi, 3, 3), mentry(ai, 0, 2), mentry(ai, 1, 2), mentry(ai, 2, 2), mentry(ai, 3, 2));
    lemma_row_col_values(p, q, 3, 3, row_col(a, b, 3, 0), row_col(a, b, 3, 1), row_col(a, b, 3, 2), row_col(a, b, 3, 3), row_col(bi, ai, 0, 3), row_col(bi, ai, 1, 3), row_col(bi, ai, 2, 3), row_col(bi, ai, 3, 3));
    lemma_reassociate(mentry(a, 3, 0), mentry(a, 3, 1), mentry(a, 3, 2), mentry(a, 3, 3), mentry(b, 0, 0), mentry(b, 0, 1), mentry(b, 0, 2), mentry(b, 0, 3), mentry(b, 1, 0), mentry(b, 1, 1), mentry(b, 1, 2), mentry(b, 1, 3), mentry(b, 2, 0), mentry(b, 2, 1), mentry(b, 2, 2), mentry(b, 2, 3), mentry(b, 3, 0), mentry(b, 3, 1), mentry(b, 3, 2), mentry(b, 3, 3), mentry(bi, 0, 0), mentry(bi, 0, 1), mentry(bi, 0, 2), mentry(bi, 0, 3), mentry(bi, 1, 0), mentry(bi, 1, 1), mentry(bi, 1, 2), mentry(bi, 1, 3), mentry(bi, 2, 0), mentry(bi, 2, 1), mentry(bi, 2, 2), mentry(bi, 2, 3), mentry(bi, 3, 0), mentry(bi, 3, 1), mentry(bi, 3, 2), mentry(bi, 3, 3), mentry(ai, 0, 3), mentry(ai, 1, 3), mentry(ai, 2, 3), mentry(ai, 3, 3));
    lemma_collapse_identity(mentry(a, 3, 0), mentry(a, 3, 1), mentry(a, 3, 2), mentry(a, 3, 3), row_col(b, bi, 0, 0), row_col(b, bi, 0, 1), row_col(b, bi, 0, 2), row_col(b, bi, 0, 3), row_col(b, bi, 1, 0), row_col(b, bi, 1, 1), row_col(b, bi, 1, 2), row_col(b, bi, 1, 3), row_col(b, bi, 2, 0), row_col(b, bi, 2, 1), row_col(b, bi, 2, 2), row_col(b, bi, 2, 3), row_col(b, bi, 3, 0), row_col(b, bi, 3, 1), row_col(b, bi, 3, 2), row_col(b, bi, 3, 3), mentry(ai, 0, 3), mentry(ai, 1, 3), mentry(ai, 2, 3), mentry(ai, 3, 3));
}

/// The product `a * b` as a matrix, where its entries fit.
pub open spec fn mat_product(a: Seq<i64>, b: Seq<i64>) -> Seq<i64> {
    Seq::new(16, |k: int| row_col(a, b, k / 4, k % 4) as i64)
}

proof fn lemma_product_is(p: Seq<i64>, a: Seq<i64>, b: Seq<i64>)
    requires
        p.len() == 16,
        is_product(p, a, b),
        mul_fits(a, b),
    ensures
        p == mat_product(a, b),
{
    assert forall|k: int| 0 <= k < 16 implies p[k] == mat_product(a, b)[k] by {
        if k == 0 {
            assert(mentry(p, 0, 0) == row_col(a, b, 0, 0));
        } else if k == 1 {
            assert(mentry(p, 0, 1) == row_col(a, b, 0, 1));
        } else if k == 2 {
            assert(mentry(p, 0, 2) == row_col(a, b, 0, 2));
        } else if k == 3 {
            assert(mentry(p, 0, 3) == row_col(a, b, 0, 3));
        } else if k == 4 {
            assert(mentry(p, 1, 0) == row_col(a, b, 1, 0));
        } else if k == 5 {
            assert(mentry(p, 1, 1) == row_col(a, b, 1, 1));
        } else if k == 6 {
            assert(mentry(p, 1, 2) == row_col(a, b, 1, 2));
        } else if k == 7 {
            assert(mentry(p, 1, 3) == row_col(a, b, 1, 3));
        } else if k == 8 {
            assert(mentry(p, 2, 0) == row_col(a, b, 2, 0));
        } else if k == 9 {
            assert(mentry(p, 2, 1) == row_col(a, b, 2, 1));
        } else if k == 10 {
            assert(mentry(p, 2, 2) == row_col(a, b, 2, 2));
        } else if k == 11 {
            assert(mentry(p, 2, 3) == row_col(a, b, 2, 3));
        } else if k == 12 {
            assert(mentry(p, 3, 0) == row_col(a, b, 3, 0));
        } else if k == 13 {
            assert(mentry(p, 3, 1) == row_col(a, b, 3, 1));
        } else if k == 14 {
            assert(mentry(p, 3, 2) == row_col(a, b, 3, 2));
        } else {
            assert(mentry(p, 3, 3) == row_col(a, b, 3, 3));
        }
    }
    assert(p =~= mat_product(a, b));
}

/// An affine transform: a matrix together with its inverse. Both are fixed
/// at construction and always multiply to the identity, in either order.
#[derive(Clone, Copy, Debug)]
pub struct Transform {
    mat: Matrix4x4,
    mat_inv: Matrix4x4,
}

impl View for Transform {
    type V = (Seq<i64>, Seq<i64>);

    /// The matrix and its inverse.
    closed spec fn view(&self) -> (Seq<i64>, Seq<i64>) {
        (self.mat@, self.mat_inv@)
    }
}

impl Transform {
    #[verifier::type_invariant]
    spec fn inverse_pair(self) -> bool {
        mutually_inverse(self.mat@, self.mat_inv@)
    }

    /// The transform with matrix `mat` and inverse `mat_inv`; fails unless
    /// the two multiply to the identity in either order.
    pub fn new(mat: Matrix4x4, mat_inv: Matrix4x4) -> (r: Result<Transform, DegenerateTransform>)
        ensures
            r is Ok <==> (mul_fits(mat@, mat_inv@) && mul_fits(mat_inv@, mat@) && mutually_inverse(
                mat@,
                mat_inv@,
            )),
            r is Ok ==> r.unwrap()@ == (mat@, mat_inv@),
            r is Err ==> r == Err::<Transform, DegenerateTransform>(DegenerateTransform::NotInverse),
    {
        let p = mat.checked_mul(&mat_inv);
        let q = mat_inv.checked_mul(&mat);
        match (p, q) {
            (Some(p), Some(q)) => {
                if p.is_identity() && q.is_identity() {
                    proof {
                        lemma_identity_product(p@, mat@, mat_inv@);
                        lemma_identity_product(q@, mat_inv@, mat@);
                    }
                    Ok(Transform { mat, mat_inv })
                } else {
                    Err(DegenerateTransform::NotInverse)
                }
            },
            _ => Err(DegenerateTransform::NotInverse),
        }
    }

    /// The matrix; it and the inverse multiply to the identity.
    pub fn mat(&self) -> (r: Matrix4x4)
        ensures
            r@ == self@.0,
            mutually_inverse(self@.0, self@.1),
    {
        proof {
            use_type_invariant(self);
        }
        self.mat
    }

    /// The inverse matrix; it and the matrix multiply to the identity.
    pub fn mat_inv(&self) -> (r: Matrix4x4)
        ensures
            r@ == self@.1,
            mutually_inverse(self@.0, self@.1),
    {
        proof {
            use_type_invariant(self);
        }
        self.mat_inv
    }

    /// The inverse transform: the two matrices swapped.
    pub fn inverse(&self) -> (r: Transform)
        ensures
            r@ == (self@.1, self@.0),
    {
        proof {
            use_type_invariant(self);
        }
        Transform { mat: self.mat_inv, mat_inv: self.mat }
    }

    /// Moves points by `v`; the inverse moves them by `-v`.
    pub fn translate(v: &Vector3) -> (r: Transform)
        requires
            negatable3(v@),
        ensures
            r@ == (shift_matrix(v@), shift_matrix(neg3(v@))),
    {
        let mat = Matrix4x4 { m: [1, 0, 0, v.x, 0, 1, 0, v.y, 0, 0, 1, v.z, 0, 0, 0, 1] };
        let mat_inv = Matrix4x4 { m: [1, 0, 0, -v.x, 0, 1, 0, -v.y, 0, 0, 1, -v.z, 0, 0, 0, 1] };
        proof {
            assert(mat@ =~= shift_matrix(v@));
            assert(mat_inv@ =~= shift_matrix(neg3(v@)));
            lemma_shift_inverse(v@);
        }
        Transform { mat, mat_inv }
    }

    /// The scaling by `x`, `y` and `z` along the axes. Its inverse scales by
    /// the reciprocals, which are whole numbers only for `1` and `-1`.
    pub fn scale(x: i64, y: i64, z: i64) -> (r: Result<Transform, DegenerateTransform>)
        ensures
            (x == 0 || y == 0 || z == 0) ==> r == Err::<Transform, DegenerateTransform>(
                DegenerateTransform::Singular,
            ),
            (x != 0 && y != 0 && z != 0 && !((x == 1 || x == -1) && (y == 1 || y == -1) && (z
                == 1 || z == -1))) ==> r == Err::<Transform, DegenerateTransform>(
                DegenerateTransform::NotIntegral,
            ),
            ((x == 1 || x == -1) && (y == 1 || y == -1) && (z == 1 || z == -1)) ==> (r is Ok
                && r.unwrap()@ == (scaling(x, y, z), scaling(x, y, z))),
    {
        if x == 0 || y == 0 || z == 0 {
            return Err(DegenerateTransform::Singular);
        }
        if !((x == 1 || x == -1) && (y == 1 || y == -1) && (z == 1 || z == -1)) {
            return Err(DegenerateTransform::NotIntegral);
        }
        let m = Matrix4x4 { m: [x, 0, 0, 0, 0, y, 0, 0, 0, 0, z, 0, 0, 0, 0, 1] };
        proof {
            assert(m@ =~= scaling(x, y, z));
            lemma_scaling_inverse(x, y, z);
        }
        Ok(Transform { mat: m, mat_inv: m })
    }

    /// The rotation by `theta` degrees about the x axis. Its entries are
    /// whole numbers only for whole quarter turns.
    pub fn rotate_x(theta: i64) -> (r: Result<Transform, DegenerateTransform>)
        ensures
            theta % 90 != 0 ==> r == Err::<Transform, DegenerateTransform>(
                DegenerateTransform::NotIntegral,
            ),
            theta % 90 == 0 ==> ({
                let k = quarter_turns(theta as int);
                r is Ok && r.unwrap()@ == (
                    rotation_x(quarter_cos(k), quarter_sin(k)),
                    rotation_x(quarter_cos(k), (-quarter_sin(k)) as i64),
                )
            }),
    {
        let k = match quarter_turns_exec(theta) {
            Some(k) => k,
            None => return Err(DegenerateTransform::NotIntegral),
        };
        let (c, s) = quarter_cos_sin(k);
        let mat = Matrix4x4 { m: [1, 0, 0, 0, 0, c, -s, 0, 0, s, c, 0, 0, 0, 0, 1] };
        let mat_inv = Matrix4x4 { m: [1, 0, 0, 0, 0, c, s, 0, 0, -s, c, 0, 0, 0, 0, 1] };
        proof {
            assert(mat@ =~= rotation_x(c, s));
            assert(mat_inv@ =~= rotation_x(c, (-s) as i64));
            lemma_rotation_inverse(k as int);
        }
        Ok(Transform { mat, mat_inv })
    }

    /// The rotation by `theta` degrees about the y axis. Its entries are
    /// whole numbers only for whole quarter turns.
    pub fn rotate_y(theta: i64) -> (r: Result<Transform, DegenerateTransform>)
        ensures
            theta % 90 != 0 ==> r == Err::<Transform, DegenerateTransform>(
                DegenerateTransform::NotIntegral,
            ),
            theta % 90 == 0 ==> ({
                let k = quarter_turns(theta as int);
                r is Ok && r.unwrap()@ == (
                    rotation_y(quarter_cos(k), quarter_sin(k)),
                    rotation_y(quarter_cos(k), (-quarter_sin(k)) as i64),
                )
            }),
    {
        let k = match quarter_turns_exec(theta) {
            Some(k) => k,
            None => return Err(DegenerateTransform::NotIntegral),
        };
        let (c, s) = quarter_cos_sin(k);
        let mat = Matrix4x4 { m: [c, 0, s, 0, 0, 1, 0, 0, -s, 0, c, 0, 0, 0, 0, 1] };
        let mat_inv = Matrix4x4 { m: [c, 0, -s, 0, 0, 1, 0, 0, s, 0, c, 0, 0, 0, 0, 1] };
        proof {
            assert(mat@ =~= rotation_y(c, s));
            assert(mat_inv@ =~= rotation_y(c, (-s) as i64));
            lemma_rotation_inverse(k as int);
        }
        Ok(Transform { mat, mat_inv })
    }

    /// The rotation by `theta` degrees about the z axis. Its entries are
    /// whole numbers only for whole quarter turns.
    pub fn rotate_z(theta: i64) -> (r: Result<Transform, DegenerateTransform>)
        ensures
            theta % 90 != 0 ==> r == Err::<Transform, DegenerateTransform>(
                DegenerateTransform::NotIntegral,
            ),
            theta % 90 == 0 ==> ({
                let k = quarter_turns(theta as int);
                r is Ok && r.unwrap()@ == (
                    rotation_z(quarter_cos(k), quarter_sin(k)),
                    rotation_z(quarter_cos(k), (-quarter_sin(k)) as i64),
                )
            }),
    {
        let k = match quarter_turns_exec(theta) {
            Some(k) => k,
            None => return Err(DegenerateTransform::NotIntegral),
        };
        let (c, s) = quarter_cos_sin(k);
        let mat = Matrix4x4 { m: [c, -s, 0, 0, s, c, 0, 0, 0, 0, 1, 0, 0, 0, 0, 1] };
        let mat_inv = Matrix4x4 { m: [c, s, 0, 0, -s, c, 0, 0, 0, 0, 1, 0, 0, 0, 0, 1] };
        proof {
            assert(mat@ =~= rotation_z(c, s));
            assert(mat_inv@ =~= rotation_z(c, (-s) as i64));
            lemma_rotation_inverse(k as int);
        }
        Ok(Transform { mat, mat_inv })
    }
}

/// The rotation by `theta` degrees about axis `axis` (0 for x, 1 for y,
/// 2 for z), with its inverse, for whole quarter turns.
pub open spec fn rotation_about(axis: int, theta: int) -> (Seq<i64>, Seq<i64>) {
    let k = quarter_turns(theta);
    let c = quarter_cos(k);
    let s = quarter_sin(k);
    if axis == 0 {
        (rotation_x(c, s), rotation_x(c, (-s) as i64))
    } else if axis == 1 {
        (rotation_y(c, s), rotation_y(c, (-s) as i64))
    } else {
        (rotation_z(c, s), rotation_z(c, (-s) as i64))
    }
}

/// The index of the axis that the whole unit vector `u` lies along, and
/// whether it points the positive way.
pub open spec fn axis_of(u: Tuple3) -> (int, bool) {
    if u.0 != 0 {
        (0, u.0 > 0)
    } else if u.1 != 0 {
        (1, u.1 > 0)
    } else {
        (2, u.2 > 0)
    }
}

/// The camera-to-world matrix with columns `right`, `up`, `dir` and the
/// position `pos`.
pub open spec fn frame_matrix(pos: Tuple3, right: Tuple3, up: Tuple3, dir: Tuple3) -> Seq<i64> {
    seq![
        right.0 as i64, up.0 as i64, dir.0 as i64, pos.0 as i64,
        right.1 as i64, up.1 as i64, dir.1 as i64, pos.1 as i64,
        right.2 as i64, up.2 as i64, dir.2 as i64, pos.2 as i64,
        0, 0, 0, 1,
    ]
}

/// Row `i` of `m` applied to the point `p` in homogeneous coordinates.
pub open spec fn affine_row(m: Seq<i64>, i: int, p: Tuple3) -> int {
    mentry(m, i, 0) * p.0 + mentry(m, i, 1) * p.1 + mentry(m, i, 2) * p.2 + mentry(m, i, 3)
}

pub open spec fn affine_row_fits(m: Seq<i64>, i: int, p: Tuple3) -> bool {
    &&& fits(mentry(m, i, 0) * p.0)
    &&& fits(mentry(m, i, 1) * p.1)
    &&& fits(mentry(m, i, 2) * p.2)
    &&& fits(mentry(m, i, 0) * p.0 + mentry(m, i, 1) * p.1)
    &&& fits(mentry(m, i, 0) * p.0 + mentry(m, i, 1) * p.1 + mentry(m, i, 2) * p.2)
    &&& fits(affine_row(m, i, p))
}

/// `m` applied to `p`: the homogeneous result divided by its weight
/// (rounding toward zero) unless the weight is one.
pub open spec fn apply_point3(m: Seq<i64>, p: Tuple3) -> Tuple3 {
    let w = affine_row(m, 3, p);
    let x = affine_row(m, 0, p);
    let y = affine_row(m, 1, p);
    let z = affine_row(m, 2, p);
    if w == 1 {
        (x, y, z)
    } else {
        (div_trunc(x, w), div_trunc(y, w), div_trunc(z, w))
    }
}

/// What applying `m` to `p` computes fits a coordinate, and the weight is
/// a valid divisor.
pub open spec fn apply_fits(m: Seq<i64>, p: Tuple3) -> bool {
    &&& affine_row_fits(m, 0, p)
    &&& affine_row_fits(m, 1, p)
    &&& affine_row_fits(m, 2, p)
    &&& affine_row_fits(m, 3, p)
    &&& affine_row(m, 3, p) != 0
    &&& (affine_row(m, 3, p) == -1 ==> (affine_row(m, 0, p) != i64::MIN && affine_row(m, 1, p)
        != i64::MIN && affine_row(m, 2, p) != i64::MIN))
}

fn apply_row(m: &[i64; 16], i: usize, p: &Point3) -> (r: i64)
    requires
        i < 4,
        affine_row_fits(m@, i as int, p@),
    ensures
        r == affine_row(m@, i as int, p@),
{
    m[4 * i] * p.x + m[4 * i + 1] * p.y + m[4 * i + 2] * p.z + m[4 * i + 3]
}

/// `-(r . p)` for a vector with small entries, where it fits a coordinate.
fn neg_small_dot(r: &Vector3, p: &Point3) -> (out: Option<i64>)
    requires
        -4 <= r.x <= 4,
        -4 <= r.y <= 4,
        -4 <= r.z <= 4,
    ensures
        out.is_some() == fits(-(r.x * p.x + r.y * p.y + r.z * p.z)),
        out.is_some() ==> out.unwrap() == -(r.x * p.x + r.y * p.y + r.z * p.z),
{
    proof {
        assert(-0x2_0000_0000_0000_0000 <= r.x * p.x <= 0x2_0000_0000_0000_0000) by (nonlinear_arith)
            requires
                -4 <= r.x <= 4,
                -0x8000_0000_0000_0000 <= p.x <= 0x7fff_ffff_ffff_ffff,
        ;
        assert(-0x2_0000_0000_0000_0000 <= r.y * p.y <= 0x2_0000_0000_0000_0000) by (nonlinear_arith)
            requires
                -4 <= r.y <= 4,
                -0x8000_0000_0000_0000 <= p.y <= 0x7fff_ffff_ffff_ffff,
        ;
        assert(-0x2_0000_0000_0000_0000 <= r.z * p.z <= 0x2_0000_0000_0000_0000) by (nonlinear_arith)
            requires
                -4 <= r.z <= 4,
                -0x8000_0000_0000_0000 <= p.z <= 0x7fff_ffff_ffff_ffff,
        ;
    }
    let d: i128 = (r.x as i128) * (p.x as i128) + (r.y as i128) * (p.y as i128) + (r.z as i128) * (
    p.z as i128);
    if -d < i64::MIN as i128 || -d > i64::MAX as i128 {
        None
    } else {
        Some((-d) as i64)
    }
}

impl Transform {
    /// The rotation by `theta` degrees about `axis`. Its entries are whole
    /// numbers only for whole quarter turns about a coordinate axis: the
    /// rotation about the negative x axis by `theta` is the rotation about
    /// x by `-theta`, and likewise for y and z.
    pub fn rotate(theta: i64, axis: &Vector3) -> (r: Result<Transform, DegenerateTransform>)
        requires
            theta != i64::MIN,
        ensures
            axis@ == (0int, 0int, 0int) ==> r == Err::<Transform, DegenerateTransform>(
                DegenerateTransform::Singular,
            ),
            axis@ != (0int, 0int, 0int) && (unit_along3(axis@).is_none() || theta % 90 != 0)
                ==> r == Err::<Transform, DegenerateTransform>(DegenerateTransform::NotIntegral),
            unit_along3(axis@).is_some() && theta % 90 == 0 ==> ({
                let (idx, positive) = axis_of(unit_along3(axis@).unwrap());
                r is Ok && r.unwrap()@ == rotation_about(
                    idx,
                    if positive {
                        theta as int
                    } else {
                        -theta
                    },
                )
            }),
    {
        if axis.x == 0 && axis.y == 0 && axis.z == 0 {
            return Err(DegenerateTransform::Singular);
        }
        let a = match axis.normalize() {
            Some(a) => a,
            None => return Err(DegenerateTransform::NotIntegral),
        };
        if a.x != 0 {
            Transform::rotate_x(if a.x > 0 { theta } else { -theta })
        } else if a.y != 0 {
            Transform::rotate_y(if a.y > 0 { theta } else { -theta })
        } else {
            Transform::rotate_z(if a.z > 0 { theta } else { -theta })
        }
    }

    /// The camera-to-world transform of a camera at `pos` looking at `look`
    /// with `up` as its up hint: the columns are `right = up x dir`, the
    /// recomputed up `dir x right`, `dir` and `pos`, where `dir` and `up` are
    /// taken to unit length. Whole unit vectors exist only along the axes.
    pub fn look_at(pos: Point3, look: Point3, up: &Vector3) -> (r: Result<Transform, DegenerateTransform>)
        requires
            fits3(sub3(look@, pos@)),
        ensures
            ({
                let d = sub3(look@, pos@);
                let dir = unit_along3(d);
                let upn = unit_along3(up@);
                &&& d == (0int, 0int, 0int) ==> r == Err::<Transform, DegenerateTransform>(
                    DegenerateTransform::Singular,
                )
                &&& d != (0int, 0int, 0int) && dir.is_none() ==> r == Err::<
                    Transform,
                    DegenerateTransform,
                >(DegenerateTransform::NotIntegral)
                &&& dir.is_some() && up@ == (0int, 0int, 0int) ==> r == Err::<
                    Transform,
                    DegenerateTransform,
                >(DegenerateTransform::Singular)
                &&& dir.is_some() && up@ != (0int, 0int, 0int) && upn.is_none() ==> r == Err::<
                    Transform,
                    DegenerateTransform,
                >(DegenerateTransform::NotIntegral)
                &&& dir.is_some() && upn.is_some() && cross3(upn.unwrap(), dir.unwrap()) == (
                    0int,
                    0int,
                    0int,
                ) ==> r == Err::<Transform, DegenerateTransform>(DegenerateTransform::Singular)
                &&& dir.is_some() && upn.is_some() && cross3(upn.unwrap(), dir.unwrap()) != (
                    0int,
                    0int,
                    0int,
                ) ==> (r is Ok || r == Err::<Transform, DegenerateTransform>(
                    DegenerateTransform::NotInverse,
                ))
                &&& dir.is_some() && upn.is_some() && cross3(upn.unwrap(), dir.unwrap()) != (
                    0int,
                    0int,
                    0int,
                ) && negatable3(pos@) ==> r is Ok
                &&& r is Ok ==> ({
                    let right = cross3(upn.unwrap(), dir.unwrap());
                    r.unwrap()@.0 == frame_matrix(
                        pos@,
                        right,
                        cross3(dir.unwrap(), right),
                        dir.unwrap(),
                    )
                })
            }),
    {
        let d = look.sub_point(pos);
        if d.x == 0 && d.y == 0 && d.z == 0 {
            return Err(DegenerateTransform::Singular);
        }
        let dir = match d.normalize() {
            Some(v) => v,
            None => return Err(DegenerateTransform::NotIntegral),
        };
        if up.x == 0 && up.y == 0 && up.z == 0 {
            return Err(DegenerateTransform::Singular);
        }
        let upn = match up.normalize() {
            Some(v) => v,
            None => return Err(DegenerateTransform::NotIntegral),
        };
        proof {
            lemma_small_cross(upn@, dir@, 1);
        }
        let right = upn.cross(&dir);
        if right.x == 0 && right.y == 0 && right.z == 0 {
            return Err(DegenerateTransform::Singular);
        }
        let ghost ku = unit_index(upn@);
        let ghost su = unit_sign(upn@);
        let ghost kd = unit_index(dir@);
        let ghost sd = unit_sign(dir@);
        let ghost sr = unit_sign(right@);
        proof {
            lemma_small_cross(dir@, right@, 2);
            lemma_unit_is_axis(d@);
            lemma_unit_is_axis(up@);
            lemma_axis_cross(ku, su, kd, sd);
            if negatable3(pos@) {
                lemma_dot_axis(3 - ku - kd, sr, pos@);
                lemma_dot_axis(ku, su, pos@);
                lemma_dot_axis(kd, sd, pos@);
                lemma_sign_facts(sr, pos@);
                lemma_sign_facts(su, pos@);
                lemma_sign_facts(sd, pos@);
            }
        }
        let new_up = dir.cross(&right);
        let mat = Matrix4x4 {
            m: [
                right.x, new_up.x, dir.x, pos.x,
                right.y, new_up.y, dir.y, pos.y,
                right.z, new_up.z, dir.z, pos.z,
                0, 0, 0, 1,
            ],
        };
        proof {
            assert(mat@ =~= frame_matrix(pos@, right@, new_up@, dir@));
        }
        let (tx, ty, tz) = match (
            neg_small_dot(&right, &pos),
            neg_small_dot(&new_up, &pos),
            neg_small_dot(&dir, &pos),
        ) {
            (Some(tx), Some(ty), Some(tz)) => (tx, ty, tz),
            _ => return Err(DegenerateTransform::NotInverse),
        };
        let mat_inv = Matrix4x4 {
            m: [
                right.x, right.y, right.z, tx,
                new_up.x, new_up.y, new_up.z, ty,
                dir.x, dir.y, dir.z, tz,
                0, 0, 0, 1,
            ],
        };
        proof {
            if negatable3(pos@) {
                assert(mat_inv@ =~= frame_inverse(pos@, right@, new_up@, dir@));
                lemma_frame_inverse(pos@, 3 - ku - kd, ku, kd, sr, su, sd);
            }
        }
        Transform::new(mat, mat_inv)
    }

    /// The transform that applies `other` first, then `self`: its matrix is
    /// `self.mat * other.mat` and its inverse `other.mat_inv * self.mat_inv`,
    /// the inverses multiplied in the reverse order. It succeeds exactly when
    /// both products, and the products that check them, can be computed with
    /// machine integers.
    pub fn compose(&self, other: &Transform) -> (r: Result<Transform, DegenerateTransform>)
        ensures
            r is Ok <==> ({
                let m = mat_product(self@.0, other@.0);
                let mi = mat_product(other@.1, self@.1);
                &&& mul_fits(self@.0, other@.0)
                &&& mul_fits(other@.1, self@.1)
                &&& mul_fits(m, mi)
                &&& mul_fits(mi, m)
            }),
            r is Ok ==> r.unwrap()@ == (mat_product(self@.0, other@.0), mat_product(
                other@.1,
                self@.1,
            )),
            r is Err ==> r == Err::<Transform, DegenerateTransform>(DegenerateTransform::NotInverse),
    {
        proof {
            use_type_invariant(self);
            use_type_invariant(other);
        }
        let m = match self.mat.checked_mul(&other.mat) {
            Some(m) => m,
            None => return Err(DegenerateTransform::NotInverse),
        };
        let mi = match other.mat_inv.checked_mul(&self.mat_inv) {
            Some(mi) => mi,
            None => return Err(DegenerateTransform::NotInverse),
        };
        proof {
            lemma_product_is(m@, self.mat@, other.mat@);
            lemma_product_is(mi@, other.mat_inv@, self.mat_inv@);
            lemma_pair_product(self.mat@, self.mat_inv@, other.mat@, other.mat_inv@, m@, mi@);
            lemma_pair_product(other.mat_inv@, other.mat@, self.mat_inv@, self.mat@, mi@, m@);
        }
        Transform::new(m, mi)
    }

    /// The transform applied to the point `p`.
    pub fn apply_point(&self, p: &Point3) -> (r: Point3)
        requires
            apply_fits(self@.0, p@),
        ensures
            r@ == apply_point3(self@.0, p@),
    {
        let x = apply_row(&self.mat.m, 0, p);
        let y = apply_row(&self.mat.m, 1, p);
        let z = apply_row(&self.mat.m, 2, p);
        let w = apply_row(&self.mat.m, 3, p);
        if w == 1 {
            Point3 { x, y, z }
        } else {
            Point3 { x: div_trunc_i64(x, w), y: div_trunc_i64(y, w), z: div_trunc_i64(z, w) }
        }
    }
}

} // verus!
