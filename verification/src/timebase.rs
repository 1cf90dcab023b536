//! Scaling of stream timestamps to milliseconds.

use vstd::prelude::*;

verus! {

/// A stream time base: one timestamp unit lasts `num / den` seconds.
#[derive(Clone, Copy, Debug, PartialEq, Eq, Structural)]
pub struct TimeBase {
    pub num: i32,
    pub den: i32,
}

/// Absolute value of an integer.
pub open spec fn abs(x: int) -> int {
    if x < 0 {
        -x
    } else {
        x
    }
}

/// `n / d` rounded to the nearest integer, halves away from zero.
/// Zero when `d` is zero.
pub open spec fn round_div(n: int, d: int) -> int {
    if d == 0 {
        0
    } else {
        let m = (2 * abs(n) + abs(d)) / (2 * abs(d));
        if (n < 0) != (d < 0) {
            -m
        } else {
            m
        }
    }
}

/// Milliseconds that `ts` units of `tb` last, before narrowing to 64 bits.
pub open spec fn scaled_ms(ts: int, tb: TimeBase) -> int {
    round_div(ts * 1000 * tb.num, tb.den as int)
}

/// The value `ts_to_ms` returns: `scaled_ms` narrowed to 64 bits, which
/// keeps every value that fits.
pub open spec fn ts_to_ms_spec(ts: i64, tb: TimeBase) -> i64 {
    scaled_ms(ts as int, tb) as i64
}

/// Scales a timestamp of up to 65 bits, such as the sum of two timestamps.
pub(crate) fn scale_wide(ts: i128, tb: TimeBase) -> (ms: i64)
    requires
        -0x1_0000_0000_0000_0000 <= ts <= 0x1_0000_0000_0000_0000,
    ensures
        ms == scaled_ms(ts as int, tb) as i64,
{
    if tb.den == 0 {
        return 0;
    }
    let num: i128 = tb.num as i128;
    let den: i128 = tb.den as i128;
    let thousand: i128 = ts * 1000;
    assert(-0x1_0000_0000_0000_0000 * 1000 * 0x8000_0000 <= thousand * num
        <= 0x1_0000_0000_0000_0000 * 1000 * 0x8000_0000) by (nonlinear_arith)
        requires
            -0x1_0000_0000_0000_0000 * 1000 <= thousand <= 0x1_0000_0000_0000_0000 * 1000,
            -0x8000_0000 <= num <= 0x8000_0000,
    ;
    let n: i128 = thousand * num;
    let a: i128 = if n < 0 {
        -n
    } else {
        n
    };
    let b: i128 = if den < 0 {
        -den
    } else {
        den
    };
    let m: i128 = (2 * a + b) / (2 * b);
    assert(0 <= m <= 2 * a + b) by (nonlinear_arith)
        requires
            m == (2 * a + b) / (2 * b),
            a >= 0,
            b > 0,
    ;
    let q: i128 = if (n < 0) != (den < 0) {
        -m
    } else {
        m
    };
    assert(q == scaled_ms(ts as int, tb));
    #[verifier::truncate]
    (q as i64)
}

/// Converts a timestamp counted in units of `tb` to milliseconds:
/// `ts * 1000 * num / den`, rounded to the nearest millisecond. A zero
/// denominator gives 0. A result outside the 64-bit range keeps its low
/// 64 bits.
pub fn ts_to_ms(ts: i64, tb: TimeBase) -> (ms: i64)
    ensures
        ms == ts_to_ms_spec(ts, tb),
        i64::MIN <= scaled_ms(ts as int, tb) <= i64::MAX ==> ms == scaled_ms(ts as int, tb),
{
    scale_wide(ts as i128, tb)
}

/// The timestamp of a decoded frame in milliseconds, where the frame has a
/// timestamp and the time base of its stream is known.
pub fn frame_pts_ms(ts: Option<i64>, tb: Option<TimeBase>) -> (pts: Option<i64>)
    ensures
        pts == match (ts, tb) {
            (Some(t), Some(b)) => Some(ts_to_ms_spec(t, b)),
            _ => None,
        },
{
    match (ts, tb) {
        (Some(t), Some(b)) => Some(ts_to_ms(t, b)),
        _ => None,
    }
}

/// Scaling keeps the order of timestamps: with a time base that is not
/// negative, a later timestamp never maps to an earlier millisecond, as
/// long as both results fit in 64 bits. A time base is not negative when
/// its numerator and denominator do not differ in sign; a zero denominator
/// maps every timestamp to zero.
pub proof fn lemma_ts_to_ms_monotonic(ts1: i64, ts2: i64, tb: TimeBase)
    requires
        ts1 <= ts2,
        (tb.num >= 0 && tb.den >= 0) || (tb.num <= 0 && tb.den <= 0),
        i64::MIN <= scaled_ms(ts1 as int, tb) <= i64::MAX,
        i64::MIN <= scaled_ms(ts2 as int, tb) <= i64::MAX,
    ensures
        ts_to_ms_spec(ts1, tb) <= ts_to_ms_spec(ts2, tb),
{
    lemma_scaled_ms_monotonic(ts1 as int, ts2 as int, tb);
}

/// `scaled_ms` is monotone in the timestamp for a time base that is not
/// negative.
pub proof fn lemma_scaled_ms_monotonic(ts1: int, ts2: int, tb: TimeBase)
    requires
        ts1 <= ts2,
        (tb.num >= 0 && tb.den >= 0) || (tb.num <= 0 && tb.den <= 0),
    ensures
        scaled_ms(ts1, tb) <= scaled_ms(ts2, tb),
{
    let n1 = ts1 * 1000 * tb.num;
    let n2 = ts2 * 1000 * tb.num;
    let d = tb.den as int;
    if d > 0 {
        assert(n1 <= n2) by (nonlinear_arith)
            requires
                ts1 <= ts2,
                tb.num >= 0,
                n1 == ts1 * 1000 * tb.num,
                n2 == ts2 * 1000 * tb.num,
        ;
        lemma_round_div_monotonic(n1, n2, d);
    } else if d < 0 {
        assert(-n1 <= -n2) by (nonlinear_arith)
            requires
                ts1 <= ts2,
                tb.num <= 0,
                n1 == ts1 * 1000 * tb.num,
                n2 == ts2 * 1000 * tb.num,
        ;
        lemma_round_div_monotonic(-n1, -n2, -d);
        lemma_round_div_mirror(n1, d);
        lemma_round_div_mirror(n2, d);
    }
}

/// Changing the sign of both the numerator and the denominator leaves the
/// rounded quotient as it is.
pub proof fn lemma_round_div_mirror(n: int, d: int)
    ensures
        round_div(n, d) == round_div(-n, -d),
{
    if d != 0 && n == 0 {
        assert((2 * 0 + abs(d)) / (2 * abs(d)) == 0) by (nonlinear_arith)
            requires
                abs(d) > 0,
        ;
    }
}

/// `round_div` is monotone in its numerator for a positive denominator.
pub proof fn lemma_round_div_monotonic(n1: int, n2: int, d: int)
    requires
        n1 <= n2,
        d > 0,
    ensures
        round_div(n1, d) <= round_div(n2, d),
{
    let m1 = (2 * abs(n1) + d) / (2 * d);
    let m2 = (2 * abs(n2) + d) / (2 * d);
    assert(m1 >= 0 && m2 >= 0) by (nonlinear_arith)
        requires
            m1 == (2 * abs(n1) + d) / (2 * d),
            m2 == (2 * abs(n2) + d) / (2 * d),
            abs(n1) >= 0,
            abs(n2) >= 0,
            d > 0,
    ;
    if n1 < 0 && n2 < 0 {
        assert(m2 <= m1) by (nonlinear_arith)
            requires
                m1 == (2 * abs(n1) + d) / (2 * d),
                m2 == (2 * abs(n2) + d) / (2 * d),
                abs(n2) <= abs(n1),
                d > 0,
        ;
    } else if n1 >= 0 {
        assert(m1 <= m2) by (nonlinear_arith)
            requires
                m1 == (2 * abs(n1) + d) / (2 * d),
                m2 == (2 * abs(n2) + d) / (2 * d),
                abs(n1) <= abs(n2),
                d > 0,
        ;
    }
}

} // verus!
