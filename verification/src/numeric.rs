//! Exact decimal rounding on scaled integers.
//!
//! A quantity rounded to two decimal places is represented as a whole number
//! of hundredths; the rounding rule throughout is "half away from zero",
//! matching the flight manual's arithmetic.

use vstd::prelude::*;
use vstd::string::StringExecFns;

verus! {

/// `p / q` rounded to the nearest integer, halves away from zero.
pub open spec fn round_half_away(p: int, q: int) -> int
    recommends
        q > 0,
{
    if p >= 0 {
        (2 * p + q) / (2 * q)
    } else {
        -((2 * (-p) + q) / (2 * q))
    }
}

/// A bound on the dividend gives the same bound, from above, on the rounded
/// quotient.
pub proof fn lemma_round_half_away_le(p: int, q: int, b: int)
    requires
        q > 0,
        b >= 0,
        p <= q * b,
    ensures
        round_half_away(p, q) <= b,
{
    if p >= 0 {
        lemma_div_round_nonneg_bound(p, q, b);
    } else {
        vstd::arithmetic::div_mod::lemma_div_pos_is_pos(2 * (-p) + q, 2 * q);
    }
}

/// A bound on the dividend gives the same bound, from below, on the rounded
/// quotient.
pub proof fn lemma_round_half_away_ge(p: int, q: int, b: int)
    requires
        q > 0,
        b >= 0,
        p >= -(q * b),
    ensures
        round_half_away(p, q) >= -b,
{
    if p >= 0 {
        vstd::arithmetic::div_mod::lemma_div_pos_is_pos(2 * p + q, 2 * q);
    } else {
        lemma_div_round_nonneg_bound(-p, q, b);
    }
}

/// Rounding a quotient keeps it within any integer bound on the quotient itself.
pub proof fn lemma_round_half_away_bound(p: int, q: int, b: int)
    requires
        q > 0,
        b >= 0,
        -(q * b) <= p <= q * b,
    ensures
        -b <= round_half_away(p, q) <= b,
{
    lemma_round_half_away_le(p, q, b);
    lemma_round_half_away_ge(p, q, b);
}

proof fn lemma_div_round_nonneg_bound(p: int, q: int, b: int)
    requires
        q > 0,
        b >= 0,
        0 <= p <= q * b,
    ensures
        0 <= (2 * p + q) / (2 * q) <= b,
{
    let x = 2 * p + q;
    let d = 2 * q;
    vstd::arithmetic::div_mod::lemma_fundamental_div_mod(x, d);
    assert(0 <= x % d < d) by {
        vstd::arithmetic::div_mod::lemma_mod_bound(x, d);
    }
    assert(x < d * (b + 1)) by (nonlinear_arith)
        requires
            q > 0,
            b >= 0,
            p <= q * b,
            x == 2 * p + q,
            d == 2 * q,
    ;
    assert(x / d <= b) by {
        if x / d > b {
            assert(x / d >= b + 1);
            assert(d * (x / d) >= d * (b + 1)) by (nonlinear_arith)
                requires
                    d > 0,
                    x / d >= b + 1,
            ;
        }
    }
    assert(x / d >= 0) by {
        if x / d < 0 {
            assert(d * (x / d) <= d * (-1)) by (nonlinear_arith)
                requires
                    d > 0,
                    x / d <= -1,
            ;
        }
    }
}

/// Scaling numerator and denominator by a common positive factor does not
/// change the rounded quotient.
pub proof fn lemma_round_half_away_scale(p: int, q: int, c: int)
    requires
        q > 0,
        c > 0,
    ensures
        round_half_away(p * c, q * c) == round_half_away(p, q),
{
    assert(q * c > 0) by (nonlinear_arith)
        requires
            q > 0,
            c > 0,
    ;
    if p >= 0 {
        assert(p * c >= 0) by (nonlinear_arith)
            requires
                p >= 0,
                c > 0,
        ;
        lemma_scale_nonneg(p, q, c);
    } else {
        assert(p * c < 0 && -(p * c) == (-p) * c) by (nonlinear_arith)
            requires
                p < 0,
                c > 0,
        ;
        lemma_scale_nonneg(-p, q, c);
    }
}

proof fn lemma_scale_nonneg(p: int, q: int, c: int)
    requires
        p >= 0,
        q > 0,
        c > 0,
    ensures
        (2 * (p * c) + q * c) / (2 * (q * c)) == (2 * p + q) / (2 * q),
{
    let x = 2 * p + q;
    let d = 2 * q;
    assert(2 * (p * c) + q * c == x * c) by (nonlinear_arith)
        requires
            x == 2 * p + q,
    ;
    assert(2 * (q * c) == d * c) by (nonlinear_arith)
        requires
            d == 2 * q,
    ;
    assert((x * c) / (d * c) == x / d) by {
        vstd::arithmetic::div_mod::lemma_div_multiples_vanish_quotient(c, x, d);
    }
}

/// Multiplying an exact fraction `n / d` by a factor `a / b` multiplies a
/// ratio bound `c` on the fraction by a ratio bound `f` on the factor,
/// multiplies absolute bounds `nn` and `aa` on the numerators, and keeps the
/// denominator below the product of its bounds `dd` and `bb`.
pub proof fn lemma_frac_mul_bounds(
    n: int,
    d: int,
    a: int,
    b: int,
    c: int,
    f: int,
    nn: int,
    aa: int,
    dd: int,
    bb: int,
)
    requires
        d > 0,
        b > 0,
        c >= 0,
        f >= 0,
        nn >= 0,
        aa >= 0,
        -(c * d) <= n <= c * d,
        -(f * b) <= a <= f * b,
        -nn <= n <= nn,
        -aa <= a <= aa,
        d <= dd,
        b <= bb,
    ensures
        0 < d * b <= dd * bb,
        -((c * f) * (d * b)) <= n * a <= (c * f) * (d * b),
        -(nn * aa) <= n * a <= nn * aa,
{
    assert(0 < d * b <= dd * bb) by (nonlinear_arith)
        requires
            0 < d <= dd,
            0 < b <= bb,
    ;
    assert(-((c * f) * (d * b)) <= n * a <= (c * f) * (d * b)) by (nonlinear_arith)
        requires
            d > 0,
            b > 0,
            c >= 0,
            f >= 0,
            -(c * d) <= n <= c * d,
            -(f * b) <= a <= f * b,
    ;
    assert(-(nn * aa) <= n * a <= nn * aa) by (nonlinear_arith)
        requires
            nn >= 0,
            aa >= 0,
            -nn <= n <= nn,
            -aa <= a <= aa,
    ;
}

/// Rounding preserves order on the dividend.
pub proof fn lemma_round_half_away_monotone(p1: int, p2: int, q: int)
    requires
        q > 0,
        p1 <= p2,
    ensures
        round_half_away(p1, q) <= round_half_away(p2, q),
{
    if p1 >= 0 {
        vstd::arithmetic::div_mod::lemma_div_is_ordered(2 * p1 + q, 2 * p2 + q, 2 * q);
    } else if p2 < 0 {
        vstd::arithmetic::div_mod::lemma_div_is_ordered(2 * (-p2) + q, 2 * (-p1) + q, 2 * q);
    } else {
        vstd::arithmetic::div_mod::lemma_div_pos_is_pos(2 * (-p1) + q, 2 * q);
        vstd::arithmetic::div_mod::lemma_div_pos_is_pos(2 * p2 + q, 2 * q);
    }
}

/// A fixed-point product `t * f / 10^12` shrinks `t` at least by the factor
/// `h` when the multiplier `f` is at most `g` and `g * h` is the scale.
pub proof fn lemma_fixed_mul_shrink(t: int, f: int, g: int, h: int)
    requires
        t >= 0,
        0 <= f <= g,
        g > 0,
        h > 0,
        g * h == 1_000_000_000_000,
    ensures
        0 <= t * f / 1_000_000_000_000 <= t / h,
        h * (t * f / 1_000_000_000_000) <= t,
        t / h <= t,
{
    assert(t * f <= t * g && t * f >= 0) by (nonlinear_arith)
        requires
            t >= 0,
            0 <= f <= g,
    ;
    vstd::arithmetic::div_mod::lemma_div_is_ordered(t * f, t * g, 1_000_000_000_000);
    vstd::arithmetic::div_mod::lemma_div_multiples_vanish_quotient(g, t, h);
    assert(g * t == t * g) by (nonlinear_arith);
    vstd::arithmetic::div_mod::lemma_div_pos_is_pos(t * f, 1_000_000_000_000);
    vstd::arithmetic::div_mod::lemma_fundamental_div_mod(t, h);
    vstd::arithmetic::div_mod::lemma_mod_bound(t, h);
    assert(h * (t * f / 1_000_000_000_000) <= h * (t / h)) by (nonlinear_arith)
        requires
            h > 0,
            t * f / 1_000_000_000_000 <= t / h,
    ;
    vstd::arithmetic::div_mod::lemma_div_is_ordered_by_denominator(t, 1, h);
    vstd::arithmetic::div_mod::lemma_div_basics(t);
}

/// Computes `round_half_away` on machine integers.
pub fn div_round_half_away(p: i128, q: i128) -> (r: i128)
    requires
        0 < q <= 1_000_000_000_000_000_000_000_000_000_000_000,
        -120_000_000_000_000_000_000_000_000_000_000_000_000 <= p
            <= 120_000_000_000_000_000_000_000_000_000_000_000_000,
    ensures
        r == round_half_away(p as int, q as int),
{
    let pu: u128 = if p >= 0 {
        p as u128
    } else {
        (-p) as u128
    };
    let qu = q as u128;
    let ru = (2 * pu + qu) / (2 * qu);
    proof {
        vstd::arithmetic::div_mod::lemma_div_is_ordered_by_denominator(
            (2 * pu + qu) as int,
            2,
            (2 * qu) as int,
        );
    }
    if p >= 0 {
        ru as i128
    } else {
        -(ru as i128)
    }
}

/// The character for one decimal digit.
pub open spec fn digit_char(d: int) -> char {
    if d == 0 {
        '0'
    } else if d == 1 {
        '1'
    } else if d == 2 {
        '2'
    } else if d == 3 {
        '3'
    } else if d == 4 {
        '4'
    } else if d == 5 {
        '5'
    } else if d == 6 {
        '6'
    } else if d == 7 {
        '7'
    } else if d == 8 {
        '8'
    } else {
        '9'
    }
}

/// Powers of ten.
pub open spec fn pow10(w: nat) -> nat
    decreases w,
{
    if w == 0 {
        1
    } else {
        10 * pow10((w - 1) as nat)
    }
}

/// The decimal digits of `n`, most significant first, without leading zeros
/// (a single zero for `n == 0`).
pub open spec fn decimal_digits(n: nat) -> Seq<char>
    decreases n,
{
    if n < 10 {
        seq![digit_char(n as int)]
    } else {
        decimal_digits(n / 10) + seq![digit_char((n % 10) as int)]
    }
}

/// The last `width` decimal digits of `n`, most significant first, with
/// leading zeros.
pub open spec fn padded_digits(n: nat, width: nat) -> Seq<char>
    decreases width,
{
    if width == 0 {
        Seq::empty()
    } else {
        padded_digits(n / 10, (width - 1) as nat) + seq![digit_char((n % 10) as int)]
    }
}

/// `s` without its trailing zero characters.
pub open spec fn trim_trailing_zeros(s: Seq<char>) -> Seq<char>
    decreases s.len(),
{
    if s.len() > 0 && s.last() == '0' {
        trim_trailing_zeros(s.drop_last())
    } else {
        s
    }
}

/// The shortest decimal rendering of the scaled integer `value / 10^width`:
/// an optional minus sign, the whole part, and the fractional digits with
/// trailing zeros removed, preceded by a point when any remain.  This is the
/// rendering `{}` gives a floating-point number that is exactly such a
/// scaled decimal.
pub open spec fn decimal_string(value: int, width: nat) -> Seq<char> {
    let magnitude = (if value < 0 {
        -value
    } else {
        value
    }) as nat;
    let sign: Seq<char> = if value < 0 {
        seq!['-']
    } else {
        Seq::empty()
    };
    let whole = magnitude / pow10(width);
    let fraction = trim_trailing_zeros(padded_digits(magnitude % pow10(width), width));
    sign + decimal_digits(whole) + (if fraction.len() == 0 {
        Seq::empty()
    } else {
        seq!['.'] + fraction
    })
}

proof fn lemma_padded_digits_len(n: nat, width: nat)
    ensures
        padded_digits(n, width).len() == width,
    decreases width,
{
    if width > 0 {
        lemma_padded_digits_len(n / 10, (width - 1) as nat);
    }
}

proof fn lemma_trim_zero_step(n: nat, width: nat)
    requires
        width >= 1,
        n % 10 == 0,
    ensures
        trim_trailing_zeros(padded_digits(n, width)) == trim_trailing_zeros(
            padded_digits(n / 10, (width - 1) as nat),
        ),
{
    let p = padded_digits(n, width);
    let q = padded_digits(n / 10, (width - 1) as nat);
    lemma_padded_digits_len(n / 10, (width - 1) as nat);
    assert(p.last() == '0');
    assert(p.drop_last() =~= q);
}

proof fn lemma_trim_stops(n: nat, width: nat)
    requires
        width >= 1,
        n % 10 != 0,
    ensures
        trim_trailing_zeros(padded_digits(n, width)) == padded_digits(n, width),
        padded_digits(n, width).len() > 0,
{
    lemma_padded_digits_len(n / 10, (width - 1) as nat);
    assert(padded_digits(n, width).last() == digit_char((n % 10) as int));
}

proof fn lemma_trim_of_zero(width: nat)
    ensures
        trim_trailing_zeros(padded_digits(0, width)) == Seq::<char>::empty(),
    decreases width,
{
    if width > 0 {
        vstd::arithmetic::div_mod::lemma_div_of0(10);
        vstd::arithmetic::div_mod::lemma_small_mod(0, 10);
        lemma_trim_zero_step(0, width);
        lemma_trim_of_zero((width - 1) as nat);
    }
}

/// Appends one decimal digit character.
fn push_digit(s: &mut String, d: u64)
    requires
        d < 10,
    ensures
        final(s)@ == old(s)@ + seq![digit_char(d as int)],
{
    proof {
        reveal_strlit("0");
        reveal_strlit("1");
        reveal_strlit("2");
        reveal_strlit("3");
        reveal_strlit("4");
        reveal_strlit("5");
        reveal_strlit("6");
        reveal_strlit("7");
        reveal_strlit("8");
        reveal_strlit("9");
    }
    match d {
        0 => s.append("0"),
        1 => s.append("1"),
        2 => s.append("2"),
        3 => s.append("3"),
        4 => s.append("4"),
        5 => s.append("5"),
        6 => s.append("6"),
        7 => s.append("7"),
        8 => s.append("8"),
        _ => s.append("9"),
    }
    proof {
        assert(final(s)@ =~= old(s)@ + seq![digit_char(d as int)]);
    }
}

/// Appends the decimal digits of `n`, most significant first.
fn push_decimal_digits(s: &mut String, n: u64)
    ensures
        final(s)@ == old(s)@ + decimal_digits(n as nat),
    decreases n,
{
    if n >= 10 {
        proof {
            vstd::arithmetic::div_mod::lemma_div_decreases(n as int, 10);
            vstd::arithmetic::div_mod::lemma_div_pos_is_pos(n as int, 10);
        }
        push_decimal_digits(s, n / 10);
    }
    push_digit(s, n % 10);
    proof {
        if n < 10 {
            assert(n % 10 == n as nat);
        }
        assert(final(s)@ =~= old(s)@ + decimal_digits(n as nat));
    }
}

/// Appends the last `width` decimal digits of `n`, with leading zeros.
fn push_padded_digits(s: &mut String, n: u64, width: u64)
    ensures
        final(s)@ == old(s)@ + padded_digits(n as nat, width as nat),
    decreases width,
{
    if width > 0 {
        push_padded_digits(s, n / 10, width - 1);
        push_digit(s, n % 10);
    }
    proof {
        assert(final(s)@ =~= old(s)@ + padded_digits(n as nat, width as nat));
    }
}

/// Renders the scaled integer `value / pow` as its shortest decimal string,
/// where `pow` is ten to the `width`.
fn scaled_string(value: i64, pow: u64, width: u64) -> (r: String)
    requires
        pow == pow10(width as nat),
        pow >= 1,
        1 <= width <= 12,
    ensures
        r@ == decimal_string(value as int, width as nat),
{
    let mut s = String::new();
    if value < 0 {
        proof {
            reveal_strlit("-");
        }
        s.append("-");
        proof {
            assert(s@ =~= seq!['-']);
        }
    }
    let magnitude: u64 = if value < 0 {
        (-(value as i128)) as u64
    } else {
        value as u64
    };
    let whole: u64 = magnitude / pow;
    let mut fraction: u64 = magnitude % pow;
    let mut fraction_width: u64 = width;
    push_decimal_digits(&mut s, whole);
    let ghost rendered = decimal_string(value as int, width as nat);
    if fraction == 0 {
        proof {
            lemma_trim_of_zero(width as nat);
            assert(s@ =~= rendered);
        }
        return s;
    }
    while fraction % 10 == 0
        invariant
            fraction_width >= 1,
            trim_trailing_zeros(padded_digits(fraction as nat, fraction_width as nat))
                == trim_trailing_zeros(
                padded_digits((magnitude % pow) as nat, width as nat),
            ),
            fraction > 0,
            (fraction as nat) < pow10(fraction_width as nat),
        decreases fraction,
    {
        proof {
            lemma_trim_zero_step(fraction as nat, fraction_width as nat);
            vstd::arithmetic::div_mod::lemma_div_decreases(fraction as int, 10);
            vstd::arithmetic::div_mod::lemma_div_pos_is_pos(fraction as int, 10);
            vstd::arithmetic::div_mod::lemma_fundamental_div_mod(fraction as int, 10);
            assert((fraction as nat / 10) < pow10((fraction_width - 1) as nat)) by {
                assert(10 * (fraction as int / 10) <= fraction as int);
                assert(pow10(fraction_width as nat) == 10 * pow10((fraction_width - 1) as nat));
                assert(10 * (fraction as int / 10) < 10 * pow10((fraction_width - 1) as nat));
            }
        }
        fraction = fraction / 10;
        fraction_width = fraction_width - 1;
    }
    proof {
        lemma_trim_stops(fraction as nat, fraction_width as nat);
        reveal_strlit(".");
    }
    s.append(".");
    push_padded_digits(&mut s, fraction, fraction_width);
    proof {
        assert(s@ =~= rendered);
    }
    s
}

/// Renders a value held in hundredths (two decimal places) as its shortest
/// decimal string.
pub fn hundredths_string(value: i64) -> (r: String)
    ensures
        r@ == decimal_string(value as int, 2),
{
    proof {
        reveal_with_fuel(pow10, 3);
    }
    scaled_string(value, 100, 2)
}

/// Renders a value held in millionths (six decimal places) as its shortest
/// decimal string.
pub fn millionths_string(value: i64) -> (r: String)
    ensures
        r@ == decimal_string(value as int, 6),
{
    proof {
        reveal_with_fuel(pow10, 7);
    }
    scaled_string(value, 1_000_000, 6)
}

} // verus!
