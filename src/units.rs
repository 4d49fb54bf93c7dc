//! Conversion of imperial measurements into the metric units of a profile.
use vstd::prelude::*;

verus! {

/// Millionths of a kilogram in one thousandth of a pound (1 lb = 0.453592 kg).
pub const MICRO_KG_PER_MILLI_POUND: i128 = 453_592;

/// Hundred-thousandths of a centimetre in one thousandth of an inch (1 in = 2.54 cm).
pub const CENTI_MILLI_CM_PER_MILLI_INCH: i128 = 254;

/// `num / den` truncated toward zero, for a positive `den`.
pub open spec fn toward_zero(num: int, den: int) -> int {
    if num >= 0 {
        num / den
    } else {
        -((-num) / den)
    }
}

/// Thousandths of a kilogram in `milli_pounds` thousandths of a pound,
/// truncated toward zero.
pub open spec fn spec_lbs_to_kg(milli_pounds: int) -> int {
    toward_zero(milli_pounds * 453_592, 1_000_000)
}

/// Thousandths of a centimetre in `milli_inches` thousandths of an inch,
/// truncated toward zero, and held within the range of `i64` (about
/// 9.2 * 10^10 km either way).
pub open spec fn spec_inches_to_cm(milli_inches: int) -> int {
    let exact = toward_zero(milli_inches * 254, 100);
    if exact > i64::MAX {
        i64::MAX as int
    } else if exact < i64::MIN {
        i64::MIN as int
    } else {
        exact
    }
}

/// `num / den` truncated toward zero, on machine integers.
fn div_toward_zero(num: i128, den: i128) -> (r: i128)
    requires
        den > 0,
        num > i128::MIN,
    ensures
        r == toward_zero(num as int, den as int),
{
    if num >= 0 {
        num / den
    } else {
        let magnitude: u128 = (-num) as u128;
        proof {
            assert(magnitude / (den as u128) <= magnitude) by {
                vstd::arithmetic::div_mod::lemma_div_is_ordered_by_denominator(
                    magnitude as int,
                    1,
                    den as int,
                );
            }
        }
        let q: u128 = magnitude / den as u128;
        0 - q as i128
    }
}

/// Converts a mass in thousandths of a pound into thousandths of a kilogram.
pub fn lbs_to_kg(milli_pounds: i64) -> (milli_kg: i64)
    ensures
        milli_kg == spec_lbs_to_kg(milli_pounds as int),
{
    let wide: i128 = milli_pounds as i128 * MICRO_KG_PER_MILLI_POUND;
    let r: i128 = div_toward_zero(wide, 1_000_000);
    proof {
        lemma_toward_zero_shrinks(milli_pounds as int, 453_592, 1_000_000);
    }
    r as i64
}

/// Converts a length in thousandths of an inch into thousandths of a
/// centimetre; a result beyond the range of `i64` is held at its bound.
pub fn inches_to_cm(milli_inches: i64) -> (milli_cm: i64)
    ensures
        milli_cm == spec_inches_to_cm(milli_inches as int),
{
    let wide: i128 = milli_inches as i128 * CENTI_MILLI_CM_PER_MILLI_INCH;
    let r: i128 = div_toward_zero(wide, 100);
    if r > i64::MAX as i128 {
        i64::MAX
    } else if r < i64::MIN as i128 {
        i64::MIN
    } else {
        r as i64
    }
}

proof fn lemma_toward_zero_shrinks(x: int, k: int, d: int)
    requires
        0 < k <= d,
    ensures
        -(if x >= 0 { x } else { -x }) <= toward_zero(x * k, d) <= (if x >= 0 { x } else { -x }),
{
    let a: int = if x >= 0 { x } else { -x };
    assert(a * k <= a * d) by (nonlinear_arith)
        requires
            0 <= a,
            0 < k <= d,
    ;
    assert(0 <= a * k) by (nonlinear_arith)
        requires
            0 <= a,
            0 < k,
    ;
    assert((a * d) / d == a) by {
        vstd::arithmetic::div_mod::lemma_div_by_multiple(a, d);
    }
    lemma_div_monotone(a * k, a * d, d);
    vstd::arithmetic::div_mod::lemma_div_pos_is_pos(a * k, d);
    if x < 0 {
        assert(-(x * k) == a * k) by (nonlinear_arith)
            requires
                a == -x,
        ;
    } else {
        assert(x * k == a * k);
    }
}

/// Both conversions map zero to zero and never decrease as their input
/// grows, over negative inputs too.
pub proof fn lemma_conversions_monotonic(x: int, y: int)
    requires
        x <= y,
    ensures
        spec_lbs_to_kg(0) == 0,
        spec_inches_to_cm(0) == 0,
        spec_lbs_to_kg(x) <= spec_lbs_to_kg(y),
        spec_inches_to_cm(x) <= spec_inches_to_cm(y),
{
    assert(x * 453_592 <= y * 453_592) by (nonlinear_arith)
        requires
            x <= y,
    ;
    assert(x * 254 <= y * 254) by (nonlinear_arith)
        requires
            x <= y,
    ;
    lemma_toward_zero_monotone(x * 453_592, y * 453_592, 1_000_000);
    lemma_toward_zero_monotone(x * 254, y * 254, 100);
}

proof fn lemma_toward_zero_monotone(a: int, b: int, d: int)
    requires
        a <= b,
        0 < d,
    ensures
        toward_zero(a, d) <= toward_zero(b, d),
{
    if a >= 0 {
        lemma_div_monotone(a, b, d);
    } else if b < 0 {
        lemma_div_monotone(-b, -a, d);
    } else {
        vstd::arithmetic::div_mod::lemma_div_pos_is_pos(-a, d);
        vstd::arithmetic::div_mod::lemma_div_pos_is_pos(b, d);
    }
}

proof fn lemma_div_monotone(a: int, b: int, d: int)
    requires
        0 <= a <= b,
        0 < d,
    ensures
        a / d <= b / d,
{
    vstd::arithmetic::div_mod::lemma_div_is_ordered(a, b, d);
}

} // verus!
