//! Fixed-point scalars.
//!
//! A scalar is stored as a signed integer `raw` and stands for the rational
//! number `raw / ONE`. Sums and differences of scalars are sums and
//! differences of their raw values; a product of two scalars carries twice the
//! fractional bits and is brought back by [`rescale`].

use vstd::prelude::*;

verus! {

/// Number of fractional bits of a scalar.
pub const FRAC_BITS: u32 = 16;

/// Raw value of the scalar 1.
pub const ONE: i32 = 0x1_0000;

/// Raw value of the scalar 1/2, the offset of a pixel's center from its corner.
pub const HALF: i32 = 0x8000;

/// The value nearest to `n` that an `i64` can hold.
pub open spec fn saturate(n: int) -> int {
    if n < i64::MIN {
        i64::MIN as int
    } else if n > i64::MAX {
        i64::MAX as int
    } else {
        n
    }
}

/// Brings a product of two scalars back to the scale of one scalar, rounding
/// to the nearest raw value and a tie towards positive infinity.
pub open spec fn rescale(n: int) -> int {
    (n + HALF) / (ONE as int)
}

/// The largest whole number of pixels not above the scalar `v`.
pub open spec fn floor_px(v: int) -> int {
    v / (ONE as int)
}

/// The smallest whole number of pixels not below the scalar `v`.
pub open spec fn ceil_px(v: int) -> int {
    (v + ONE - 1) / (ONE as int)
}

/// Raw coordinate of the center of the pixel column (or row) `i`.
pub open spec fn center(i: int) -> int {
    i * ONE + HALF
}

/// The larger of `v` and zero.
pub open spec fn at_least_zero(v: int) -> int {
    if v < 0 {
        0
    } else {
        v
    }
}

/// `saturate(n)` as an `i64`.
pub(crate) fn saturate_i64(n: i128) -> (r: i64)
    ensures
        r == saturate(n as int),
{
    if n < i64::MIN as i128 {
        i64::MIN
    } else if n > i64::MAX as i128 {
        i64::MAX
    } else {
        n as i64
    }
}

/// `rescale(n)`, for every sum of four products of a matrix entry with a
/// vector component.
pub(crate) fn rescale_i128(n: i128) -> (r: i128)
    requires
        -0x1_0000_0000_0000_0000_0000_0000_0000 <= n <= 0x1_0000_0000_0000_0000_0000_0000_0000,
    ensures
        r == rescale(n as int),
{
    let shifted: i128 = n + HALF as i128;
    if shifted >= 0 {
        shifted / (ONE as i128)
    } else {
        -((-shifted + (ONE as i128 - 1)) / (ONE as i128))
    }
}

/// Raw coordinate of the center of the pixel column (or row) `i`.
pub(crate) fn pixel_center(i: u32) -> (c: i64)
    ensures
        c == center(i as int),
{
    (i as i64) * 0x1_0000 + (HALF as i64)
}

/// `floor_px(v)`, or zero where that is negative.
pub(crate) fn floor_pixel(v: i64) -> (r: u64)
    ensures
        r == at_least_zero(floor_px(v as int)),
{
    if v <= 0 {
        0
    } else {
        (v / (ONE as i64)) as u64
    }
}

/// `ceil_px(v)`, or zero where that is negative.
pub(crate) fn ceil_pixel(v: i64) -> (r: u64)
    ensures
        r == at_least_zero(ceil_px(v as int)),
{
    if v <= 0 {
        0
    } else {
        ((v - 1) / (ONE as i64) + 1) as u64
    }
}

/// A product of two bounded integers is bounded by the product of the bounds.
pub(crate) proof fn lemma_product_bound(a: int, b: int, p: int, q: int)
    by (nonlinear_arith)
    requires
        -p <= a <= p,
        -q <= b <= q,
    ensures
        -(p * q) <= a * b <= p * q,
{
}

} // verus!
