//! The linear remapping law shared by every proportional actuator.
use vstd::arithmetic::div_mod::lemma_div_by_multiple;
use vstd::prelude::*;

verus! {

/// `value` limited to `[lo, hi]`.
pub open spec fn clamp(value: int, lo: int, hi: int) -> int {
    if value < lo {
        lo
    } else if value > hi {
        hi
    } else {
        value
    }
}

/// Integer quotient rounded toward zero, for a positive divisor.
pub open spec fn div_toward_zero(a: int, b: int) -> int {
    if a >= 0 {
        a / b
    } else {
        -((-a) / b)
    }
}

/// The remapping law: clamp the input to `[in_min, in_max]`, then scale it
/// proportionally onto `[out_min, out_max]`, truncating toward zero.
pub open spec fn remap(value: int, in_min: int, in_max: int, out_min: int, out_max: int) -> int {
    out_min + div_toward_zero(
        (clamp(value, in_min, in_max) - in_min) * (out_max - out_min),
        in_max - in_min,
    )
}

/// Whether the remapping of `[in_min, in_max]` onto `[out_min, out_max]`
/// can be computed in 32-bit arithmetic.
pub open spec fn remap_fits(in_min: int, in_max: int, out_min: int, out_max: int) -> bool {
    &&& in_min < in_max
    &&& in_max - in_min <= i32::MAX
    &&& i32::MIN <= out_max - out_min <= i32::MAX
    &&& -i32::MAX <= (in_max - in_min) * (out_max - out_min) <= i32::MAX
}

/// Maps `val` from `[in_min, in_max]` onto `[out_min, out_max]` by the
/// remapping law.
pub fn map_range(val: i32, in_min: i32, in_max: i32, out_min: i32, out_max: i32) -> (r: i32)
    requires
        remap_fits(in_min as int, in_max as int, out_min as int, out_max as int),
    ensures
        r == remap(val as int, in_min as int, in_max as int, out_min as int, out_max as int),
        out_min <= out_max ==> out_min <= r <= out_max,
        out_max <= out_min ==> out_max <= r <= out_min,
{
    let clamped: i32 = if val < in_min {
        in_min
    } else if val > in_max {
        in_max
    } else {
        val
    };
    let offset: i32 = clamped - in_min;
    let span: i32 = in_max - in_min;
    let out_span: i32 = out_max - out_min;
    assert(-i32::MAX <= offset * out_span <= i32::MAX) by (nonlinear_arith)
        requires
            0 <= offset <= span,
            -i32::MAX <= span * out_span <= i32::MAX,
    ;
    let numerator: i32 = offset * out_span;
    let quotient: i32 = if numerator >= 0 {
        numerator / span
    } else {
        -((-numerator) / span)
    };
    proof {
        let n = numerator as int;
        let s = span as int;
        let o = out_span as int;
        let f = offset as int;
        if o >= 0 {
            assert(0 <= n / s <= o) by (nonlinear_arith)
                requires
                    n == f * o,
                    0 <= f <= s,
                    0 <= o,
                    0 < s,
            ;
        } else {
            assert(n <= 0 && 0 <= (-n) / s <= -o) by (nonlinear_arith)
                requires
                    n == f * o,
                    0 <= f <= s,
                    o < 0,
                    0 < s,
            ;
            assert(n == 0 ==> n / s == 0);
        }
        assert(quotient as int == div_toward_zero(n, s));
    }
    out_min + quotient
}

/// Remapping a signed byte onto `[0, 255]` and back recovers it, so within
/// one unit in particular.
pub proof fn lemma_remap_round_trip(x: int)
    requires
        -128 <= x <= 127,
    ensures
        0 <= remap(x, -128, 127, 0, 255) <= 255,
        remap(remap(x, -128, 127, 0, 255), 0, 255, -128, 127) == x,
{
    lemma_div_by_multiple(x + 128, 255);
    let p = remap(x, -128, 127, 0, 255);
    assert(p == x + 128);
    lemma_div_by_multiple(p, 255);
}

} // verus!
