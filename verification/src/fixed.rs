//! Fixed-point scalars.
//!
//! Every time and every trace value of the pipeline is a [`Real`]: a signed
//! count of millionths of a unit. Sums, differences and products saturate at
//! the ends of the representable range, so that every operation is total.
use vstd::prelude::*;

verus! {

/// A scalar of the pipeline: a count of millionths of a unit.
pub type Real = i64;

/// A time, in whole ticks, as it leaves the pipeline.
pub type Time = u32;

/// A trace sample or pulse height, as it enters and leaves the pipeline.
pub type Intensity = u16;

/// The raw value of one unit.
pub const SCALE: i64 = 1_000_000;

/// The representable value nearest to an unbounded integer.
pub open spec fn clamp(x: int) -> Real {
    if x < i64::MIN {
        i64::MIN
    } else if x > i64::MAX {
        i64::MAX
    } else {
        x as i64
    }
}

/// The quotient of `a` by a positive `b`, rounded toward zero.
pub open spec fn trunc_div(a: int, b: int) -> int
    recommends
        b > 0,
{
    if a >= 0 {
        a / b
    } else {
        -((-a) / b)
    }
}

/// The saturating sum of two scalars.
pub open spec fn real_add_spec(a: Real, b: Real) -> Real {
    clamp(a + b)
}

/// The saturating difference of two scalars.
pub open spec fn real_sub_spec(a: Real, b: Real) -> Real {
    clamp(a - b)
}

/// The saturating product of two scalars, rounded toward zero.
pub open spec fn real_mul_spec(a: Real, b: Real) -> Real {
    clamp(trunc_div(a * b, SCALE as int))
}

/// A scalar multiplied by a whole number, saturating.
pub open spec fn real_scale_spec(a: Real, n: int) -> Real {
    clamp(a * n)
}

/// A scalar divided by a positive whole number, rounded toward zero.
pub open spec fn real_div_int_spec(a: Real, n: int) -> Real
    recommends
        n > 0,
{
    clamp(trunc_div(a as int, n))
}

/// The scalar that stands for a whole number, saturating.
pub open spec fn real_from_int_spec(n: int) -> Real {
    clamp(n * SCALE)
}

/// The whole ticks of a scalar time: its integer part, held to the range of [`Time`].
pub open spec fn to_time_spec(x: Real) -> Time {
    let whole = trunc_div(x as int, SCALE as int);
    if whole < 0 {
        0
    } else if whole > u32::MAX {
        u32::MAX
    } else {
        whole as u32
    }
}

/// The whole units of a scalar height: its integer part, held to the range of [`Intensity`].
pub open spec fn to_intensity_spec(x: Real) -> Intensity {
    let whole = trunc_div(x as int, SCALE as int);
    if whole < 0 {
        0
    } else if whole > u16::MAX {
        u16::MAX
    } else {
        whole as u16
    }
}

/// Narrows a 128-bit intermediate result to a scalar, saturating.
pub fn clamp_wide(x: i128) -> (r: Real)
    ensures
        r == clamp(x as int),
{
    if x < i64::MIN as i128 {
        i64::MIN
    } else if x > i64::MAX as i128 {
        i64::MAX
    } else {
        x as i64
    }
}

/// Adds two scalars, saturating at the ends of the range.
pub fn real_add(a: Real, b: Real) -> (r: Real)
    ensures
        r == real_add_spec(a, b),
{
    clamp_wide(a as i128 + b as i128)
}

/// Subtracts `b` from `a`, saturating at the ends of the range.
pub fn real_sub(a: Real, b: Real) -> (r: Real)
    ensures
        r == real_sub_spec(a, b),
{
    clamp_wide(a as i128 - b as i128)
}

/// The product of two 64-bit integers fits in 128 bits.
proof fn lemma_product_fits(a: int, b: int)
    requires
        -0x8000_0000_0000_0000 <= a <= 0x8000_0000_0000_0000,
        0 <= b <= u64::MAX,
    ensures
        i128::MIN < a * b < i128::MAX,
        a >= 0 ==> a * b >= 0,
        a <= 0 ==> a * b <= 0,
{
    assert(a * b <= 0x8000_0000_0000_0000 * 0xffff_ffff_ffff_ffff && a * b >= -0x8000_0000_0000_0000
        * 0xffff_ffff_ffff_ffff && (a >= 0 ==> a * b >= 0) && (a <= 0 ==> a * b <= 0))
        by (nonlinear_arith)
        requires
            -0x8000_0000_0000_0000 <= a <= 0x8000_0000_0000_0000,
            0 <= b <= 0xffff_ffff_ffff_ffff,
    ;
}

/// Divides a 128-bit value by a positive one, rounding toward zero.
pub fn trunc_div_wide(a: i128, b: i128) -> (r: i128)
    requires
        b > 0,
        a > i128::MIN,
    ensures
        r == trunc_div(a as int, b as int),
{
    if a >= 0 {
        a / b
    } else {
        let q: i128 = (-a) / b;
        -q
    }
}

/// Multiplies two scalars, rounding toward zero and saturating.
pub fn real_mul(a: Real, b: Real) -> (r: Real)
    ensures
        r == real_mul_spec(a, b),
{
    proof {
        if b >= 0 {
            lemma_product_fits(a as int, b as int);
        } else {
            lemma_product_fits(-(a as int), -(b as int));
            assert((-(a as int)) * (-(b as int)) == a * b) by (nonlinear_arith);
        }
    }
    let wide: i128 = (a as i128) * (b as i128);
    clamp_wide(trunc_div_wide(wide, SCALE as i128))
}

/// Multiplies a scalar by a count, saturating.
pub fn real_scale(a: Real, n: usize) -> (r: Real)
    ensures
        r == real_scale_spec(a, n as int),
{
    proof {
        lemma_product_fits(a as int, n as int);
    }
    clamp_wide((a as i128) * (n as i128))
}

/// Divides a scalar by a positive count, rounding toward zero.
pub fn real_div_int(a: Real, n: u64) -> (r: Real)
    requires
        n > 0,
    ensures
        r == real_div_int_spec(a, n as int),
{
    clamp_wide(trunc_div_wide(a as i128, n as i128))
}

/// The scalar that stands for a whole number, saturating.
pub fn real_from_int(n: i64) -> (r: Real)
    ensures
        r == real_from_int_spec(n as int),
{
    proof {
        lemma_product_fits(n as int, SCALE as int);
    }
    clamp_wide((n as i128) * (SCALE as i128))
}

/// The whole ticks of a scalar time.
pub fn to_time(x: Real) -> (r: Time)
    ensures
        r == to_time_spec(x),
{
    let whole: i128 = trunc_div_wide(x as i128, SCALE as i128);
    if whole < 0 {
        0
    } else if whole > u32::MAX as i128 {
        u32::MAX
    } else {
        whole as u32
    }
}

/// The whole units of a scalar height.
pub fn to_intensity(x: Real) -> (r: Intensity)
    ensures
        r == to_intensity_spec(x),
{
    let whole: i128 = trunc_div_wide(x as i128, SCALE as i128);
    if whole < 0 {
        0
    } else if whole > u16::MAX as i128 {
        u16::MAX
    } else {
        whole as u16
    }
}

} // verus!
