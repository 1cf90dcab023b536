//! Decimal text for the numbers the pipeline hands to the engine.

use vstd::prelude::*;

verus! {

/// The character of a decimal digit.
pub open spec fn digit_char(d: int) -> char {
    if d == 0 {
        '0'
    } else if d == 1 {
        '1'
    } else if d == 2 {
        '2'
    } else if d == 3 {
        '3'
    } else if d == 4 {
        '4'
    } else if d == 5 {
        '5'
    } else if d == 6 {
        '6'
    } else if d == 7 {
        '7'
    } else if d == 8 {
        '8'
    } else {
        '9'
    }
}

/// The decimal digits of `n`, most significant first, without leading
/// zeros.
pub open spec fn decimal_digits(n: nat) -> Seq<char>
    decreases n,
{
    if n < 10 {
        seq![digit_char(n as int)]
    } else {
        decimal_digits(n / 10).push(digit_char((n % 10) as int))
    }
}

/// The decimal text of an integer, with a minus sign when it is negative.
pub open spec fn decimal_text(n: int) -> Seq<char> {
    if n < 0 {
        seq!['-'] + decimal_digits((-n) as nat)
    } else {
        decimal_digits(n as nat)
    }
}

/// A count of thousandths written as a decimal number with exactly three
/// fractional digits.
pub open spec fn thousandths_text(n: int) -> Seq<char> {
    let a: nat = if n < 0 {
        (-n) as nat
    } else {
        n as nat
    };
    let sign: Seq<char> = if n < 0 {
        seq!['-']
    } else {
        Seq::empty()
    };
    sign + decimal_digits(a / 1000) + seq![
        '.',
        digit_char((a / 100 % 10) as int),
        digit_char((a / 10 % 10) as int),
        digit_char((a % 10) as int),
    ]
}

/// A whole number written with one fractional digit, which is zero.
pub open spec fn one_decimal_text(n: nat) -> Seq<char> {
    decimal_digits(n) + seq!['.', '0']
}

fn digit_str(d: u64) -> (s: &'static str)
    requires
        d < 10,
    ensures
        s@ == seq![digit_char(d as int)],
{
    proof {
        reveal_strlit("0");
        reveal_strlit("1");
        reveal_strlit("2");
        reveal_strlit("3");
        reveal_strlit("4");
        reveal_strlit("5");
        reveal_strlit("6");
        reveal_strlit("7");
        reveal_strlit("8");
        reveal_strlit("9");
    }
    let s = if d == 0 {
        "0"
    } else if d == 1 {
        "1"
    } else if d == 2 {
        "2"
    } else if d == 3 {
        "3"
    } else if d == 4 {
        "4"
    } else if d == 5 {
        "5"
    } else if d == 6 {
        "6"
    } else if d == 7 {
        "7"
    } else if d == 8 {
        "8"
    } else {
        "9"
    };
    assert(s@ =~= seq![digit_char(d as int)]);
    s
}

/// Appends the decimal digits of `n` to `out`.
pub fn push_decimal(out: &mut String, n: u64)
    ensures
        final(out)@ == old(out)@ + decimal_digits(n as nat),
    decreases n,
{
    if n >= 10 {
        push_decimal(out, n / 10);
    }
    let ghost before = out@;
    out.append(digit_str(n % 10));
    assert(out@ =~= old(out)@ + decimal_digits(n as nat));
}

/// Appends the decimal text of `n`, with its sign, to `out`.
pub fn push_signed(out: &mut String, n: i64)
    ensures
        final(out)@ == old(out)@ + decimal_text(n as int),
{
    if n < 0 {
        proof {
            reveal_strlit("-");
        }
        out.append("-");
        let magnitude: u64 = ((-(n as i128)) as u128) as u64;
        push_decimal(out, magnitude);
        assert(out@ =~= old(out)@ + decimal_text(n as int));
    } else {
        push_decimal(out, n as u64);
    }
}

/// Writes a count of thousandths as a decimal number with three fractional
/// digits: 1500 gives `1.500`, -250 gives `-0.250`.
pub fn format_thousandths(n: i64) -> (s: String)
    ensures
        s@ == thousandths_text(n as int),
{
    let mut s = String::new();
    let a: u64 = if n < 0 {
        proof {
            reveal_strlit("-");
        }
        s.append("-");
        ((-(n as i128)) as u128) as u64
    } else {
        n as u64
    };
    push_decimal(&mut s, a / 1000);
    proof {
        reveal_strlit(".");
    }
    s.append(".");
    s.append(digit_str(a / 100 % 10));
    s.append(digit_str(a / 10 % 10));
    s.append(digit_str(a % 10));
    assert(s@ =~= thousandths_text(n as int));
    s
}

/// Writes a whole number with one fractional digit: 50 gives `50.0`.
pub fn format_one_decimal(n: u32) -> (s: String)
    ensures
        s@ == one_decimal_text(n as nat),
{
    let mut s = String::new();
    push_decimal(&mut s, n as u64);
    proof {
        reveal_strlit(".0");
    }
    s.append(".0");
    assert(s@ =~= one_decimal_text(n as nat));
    s
}

/// A number below a hundred in at least two characters: a leading zero
/// fills up a single digit, a minus sign counts as a character.
pub open spec fn two_wide(x: int) -> Seq<char> {
    if 0 <= x < 10 {
        seq!['0', digit_char(x)]
    } else {
        decimal_text(x)
    }
}

/// A span of milliseconds as hours, minutes and seconds. The hours are
/// left out while there is none; minutes and seconds stay below sixty. Of
/// a negative span the minutes and the seconds are negative.
pub open spec fn clock_text(ms: int) -> Seq<char> {
    let a: int = if ms < 0 {
        -ms
    } else {
        ms
    };
    let h = a / 3_600_000;
    let m = a / 60_000 % 60;
    let s = a / 1000 % 60;
    if ms >= 3_600_000 {
        decimal_text(h) + seq![':'] + two_wide(m) + seq![':'] + two_wide(s)
    } else if ms < 0 {
        decimal_text(-m) + seq![':'] + two_wide(-s)
    } else {
        decimal_text(m) + seq![':'] + two_wide(s)
    }
}

fn push_two_wide(out: &mut String, x: i64)
    requires
        -100 < x < 100,
    ensures
        final(out)@ == old(out)@ + two_wide(x as int),
{
    if 0 <= x && x < 10 {
        proof {
            reveal_strlit("0");
        }
        out.append("0");
        out.append(digit_str(x as u64));
        assert(out@ =~= old(out)@ + two_wide(x as int));
    } else {
        push_signed(out, x);
    }
}

/// Writes a span of milliseconds as a clock reading: 83_000 gives `1:23`,
/// 3_723_000 gives `1:02:03`.
pub fn format_time(ms: i64) -> (s: String)
    ensures
        s@ == clock_text(ms as int),
{
    let a: u64 = if ms < 0 {
        ((-(ms as i128)) as u128) as u64
    } else {
        ms as u64
    };
    let hours: i64 = (a / 3_600_000) as i64;
    let minutes: i64 = (a / 60_000 % 60) as i64;
    let seconds: i64 = (a / 1000 % 60) as i64;
    let mut s = String::new();
    proof {
        reveal_strlit(":");
    }
    if ms >= 3_600_000 {
        push_signed(&mut s, hours);
        s.append(":");
        push_two_wide(&mut s, minutes);
        s.append(":");
        push_two_wide(&mut s, seconds);
    } else if ms < 0 {
        push_signed(&mut s, -minutes);
        s.append(":");
        push_two_wide(&mut s, -seconds);
    } else {
        push_signed(&mut s, minutes);
        s.append(":");
        push_two_wide(&mut s, seconds);
    }
    assert(s@ =~= clock_text(ms as int));
    s
}

} // verus!
