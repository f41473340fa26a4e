//! ICAO Standard Atmosphere model.
//!
//! Geopotential pressure altitudes are given in millionths of a meter and
//! temperatures in hundredths of a degree Celsius, so the piecewise-linear
//! temperature profile is evaluated exactly.  The atmosphere is defined from
//! -1000 m to 80000 m; four bands cover the troposphere, the tropopause and
//! two stratosphere segments.

use vstd::prelude::*;
use vstd::string::StringExecFns;

use crate::numeric::{
    decimal_string, div_round_half_away, lemma_fixed_mul_shrink, lemma_round_half_away_bound,
    lemma_round_half_away_ge, lemma_round_half_away_le, millionths_string, round_half_away,
};

verus! {

/// Lowest altitude (millionths of a meter) the model defines.
pub const MIN_PRESSURE_ALTITUDE: i64 = -1_000_000_000;

/// Highest altitude (millionths of a meter) the model defines.
pub const MAX_PRESSURE_ALTITUDE: i64 = 80_000_000_000;

/// Base altitude of the tropopause band, in millionths of a meter.
pub const TROPOPAUSE_BASE: i64 = 11_000_000_000;

/// Base altitude of the lower stratosphere band, in millionths of a meter.
pub const LOWER_STRATOSPHERE_BASE: i64 = 20_000_000_000;

/// Base altitude of the upper stratosphere band, in millionths of a meter.
pub const UPPER_STRATOSPHERE_BASE: i64 = 32_000_000_000;

/// The altitude asked of the atmosphere model lies outside the envelope it
/// defines.  Altitudes are in millionths of a meter.
#[derive(Debug, Clone, Copy, PartialEq, Eq, Structural)]
pub enum UndefinedPressureAltitudeError {
    BelowMinimum { min: i64, pressure_altitude: i64 },
    AboveMaximum { max: i64, pressure_altitude: i64 },
}

/// The message text for an undefined pressure altitude, with the altitude
/// and the violated bound rendered in meters.
pub open spec fn undefined_pressure_altitude_message(e: UndefinedPressureAltitudeError) -> Seq<
    char,
> {
    match e {
        UndefinedPressureAltitudeError::BelowMinimum { min, pressure_altitude } => "The pressure altitude "@
            + decimal_string(pressure_altitude as int, 6) + " m is below the minimum defined ("@
            + decimal_string(min as int, 6) + " m) in the ICAO Standard Atmosphere"@,
        UndefinedPressureAltitudeError::AboveMaximum { max, pressure_altitude } => "The pressure altitude "@
            + decimal_string(pressure_altitude as int, 6) + " m is above the maximum defined ("@
            + decimal_string(max as int, 6) + " m) in the ICAO Standard Atmosphere"@,
    }
}

impl UndefinedPressureAltitudeError {
    /// The message describing the undefined altitude, in meters.
    pub fn message(&self) -> (m: String)
        ensures
            m@ == undefined_pressure_altitude_message(*self),
    {
        match self {
            UndefinedPressureAltitudeError::BelowMinimum { min, pressure_altitude } => {
                let mut s = "The pressure altitude ".to_owned();
                s.append(millionths_string(*pressure_altitude).as_str());
                s.append(" m is below the minimum defined (");
                s.append(millionths_string(*min).as_str());
                s.append(" m) in the ICAO Standard Atmosphere");
                s
            },
            UndefinedPressureAltitudeError::AboveMaximum { max, pressure_altitude } => {
                let mut s = "The pressure altitude ".to_owned();
                s.append(millionths_string(*pressure_altitude).as_str());
                s.append(" m is above the maximum defined (");
                s.append(millionths_string(*max).as_str());
                s.append(" m) in the ICAO Standard Atmosphere");
                s
            },
        }
    }
}

/// Base altitude (millionths of a meter) of the atmospheric band that
/// contains `altitude`: the highest band base that does not exceed it.
/// Altitudes below the first band base fall into the first band.
pub open spec fn band_base(altitude: int) -> int {
    if altitude >= UPPER_STRATOSPHERE_BASE as int {
        UPPER_STRATOSPHERE_BASE as int
    } else if altitude >= LOWER_STRATOSPHERE_BASE as int {
        LOWER_STRATOSPHERE_BASE as int
    } else if altitude >= TROPOPAUSE_BASE as int {
        TROPOPAUSE_BASE as int
    } else {
        0
    }
}

/// Temperature lapse rate of the band containing `altitude`, in units of
/// 10^-7 kelvin per meter; positive means temperature falls with altitude.
pub open spec fn band_lapse(altitude: int) -> int {
    if altitude >= UPPER_STRATOSPHERE_BASE as int {
        0
    } else if altitude >= LOWER_STRATOSPHERE_BASE as int {
        10_000
    } else if altitude >= TROPOPAUSE_BASE as int {
        0
    } else {
        65_000
    }
}

/// Temperature at the base of the band containing `altitude`, in hundredths
/// of a degree Celsius.
pub open spec fn band_base_temperature(altitude: int) -> int {
    if altitude >= UPPER_STRATOSPHERE_BASE as int {
        -4450
    } else if altitude >= LOWER_STRATOSPHERE_BASE as int {
        -5650
    } else if altitude >= TROPOPAUSE_BASE as int {
        -5650
    } else {
        1500
    }
}

/// The standard temperature at `altitude` (millionths of a meter), in
/// hundredths of a degree Celsius, rounded half away from zero:
/// `base_temperature - (altitude - base_altitude) * lapse_rate`.
///
/// The scale factor 10^11 converts micrometers times 10^-7 K/m into
/// hundredths of a kelvin.
pub open spec fn standard_temperature(altitude: int) -> int {
    round_half_away(
        band_base_temperature(altitude) * 100_000_000_000 - (altitude - band_base(altitude))
            * band_lapse(altitude),
        100_000_000_000,
    )
}

/// What `icao_temperature` returns, as a function of its input.
pub open spec fn icao_temperature_spec(pressure_altitude: i64) -> Result<
    i64,
    UndefinedPressureAltitudeError,
> {
    if pressure_altitude < MIN_PRESSURE_ALTITUDE {
        Err(
            UndefinedPressureAltitudeError::BelowMinimum {
                min: MIN_PRESSURE_ALTITUDE,
                pressure_altitude,
            },
        )
    } else if pressure_altitude > MAX_PRESSURE_ALTITUDE {
        Err(
            UndefinedPressureAltitudeError::AboveMaximum {
                max: MAX_PRESSURE_ALTITUDE,
                pressure_altitude,
            },
        )
    } else {
        Ok(standard_temperature(pressure_altitude as int) as i64)
    }
}

/// Within the defined envelope the standard temperature stays between the
/// coldest point of the lower stratosphere and the warmest point below sea
/// level.
pub proof fn lemma_standard_temperature_range(altitude: int)
    requires
        MIN_PRESSURE_ALTITUDE <= altitude <= MAX_PRESSURE_ALTITUDE,
    ensures
        -6850 <= standard_temperature(altitude) <= 2150,
{
    let num = band_base_temperature(altitude) * 100_000_000_000 - (altitude - band_base(altitude))
        * band_lapse(altitude);
    assert(-685_000_000_000_000 <= num <= 215_000_000_000_000);
    lemma_round_half_away_le(num, 100_000_000_000, 2150);
    lemma_round_half_away_ge(num, 100_000_000_000, 6850);
}

/// ICAO standard temperature for a pressure altitude given in millionths of
/// a meter, in hundredths of a degree Celsius, or an error when the altitude
/// lies outside [-1000 m, 80000 m].
pub fn icao_temperature(pressure_altitude: i64) -> (r: Result<
    i64,
    UndefinedPressureAltitudeError,
>)
    ensures
        r == icao_temperature_spec(pressure_altitude),
        r is Ok <==> MIN_PRESSURE_ALTITUDE <= pressure_altitude <= MAX_PRESSURE_ALTITUDE,
        pressure_altitude < MIN_PRESSURE_ALTITUDE ==> r == Err::<
            i64,
            UndefinedPressureAltitudeError,
        >(
            UndefinedPressureAltitudeError::BelowMinimum {
                min: MIN_PRESSURE_ALTITUDE,
                pressure_altitude,
            },
        ),
        pressure_altitude > MAX_PRESSURE_ALTITUDE ==> r == Err::<
            i64,
            UndefinedPressureAltitudeError,
        >(
            UndefinedPressureAltitudeError::AboveMaximum {
                max: MAX_PRESSURE_ALTITUDE,
                pressure_altitude,
            },
        ),
        r matches Ok(t) ==> t == standard_temperature(pressure_altitude as int) && -6850 <= t
            <= 2150,
{
    if pressure_altitude < MIN_PRESSURE_ALTITUDE {
        return Err(
            UndefinedPressureAltitudeError::BelowMinimum {
                min: MIN_PRESSURE_ALTITUDE,
                pressure_altitude,
            },
        );
    }
    if pressure_altitude > MAX_PRESSURE_ALTITUDE {
        return Err(
            UndefinedPressureAltitudeError::AboveMaximum {
                max: MAX_PRESSURE_ALTITUDE,
                pressure_altitude,
            },
        );
    }
    let (base, lapse, base_temperature): (i64, i128, i128) = if pressure_altitude
        >= UPPER_STRATOSPHERE_BASE {
        (UPPER_STRATOSPHERE_BASE, 0, -4450)
    } else if pressure_altitude >= LOWER_STRATOSPHERE_BASE {
        (LOWER_STRATOSPHERE_BASE, 10_000, -5650)
    } else if pressure_altitude >= TROPOPAUSE_BASE {
        (TROPOPAUSE_BASE, 0, -5650)
    } else {
        (0, 65_000, 1500)
    };
    let num: i128 = base_temperature * 100_000_000_000 - (pressure_altitude - base) as i128
        * lapse;
    let rounded = div_round_half_away(num, 100_000_000_000);
    proof {
        lemma_standard_temperature_range(pressure_altitude as int);
    }
    Ok(rounded as i64)
}

/// What `calculate_temperature_deviation` returns, as a function of its
/// inputs.
pub open spec fn temperature_deviation_spec(pressure_altitude: i64, temperature: i64) -> Result<
    i64,
    UndefinedPressureAltitudeError,
> {
    match icao_temperature_spec(pressure_altitude) {
        Ok(standard) => Ok((temperature - standard) as i64),
        Err(e) => Err(e),
    }
}

/// Deviation of the actual temperature from the standard temperature at the
/// given pressure altitude (millionths of a meter), in hundredths of a
/// kelvin; the altitude-range error propagates unchanged.  The temperature
/// bound keeps the subtraction within machine integers.
pub fn calculate_temperature_deviation(pressure_altitude: i64, temperature: i64) -> (r: Result<
    i64,
    UndefinedPressureAltitudeError,
>)
    requires
        -1_000_000_000_000_000 <= temperature <= 1_000_000_000_000_000,
    ensures
        r == temperature_deviation_spec(pressure_altitude, temperature),
        r is Ok <==> MIN_PRESSURE_ALTITUDE <= pressure_altitude <= MAX_PRESSURE_ALTITUDE,
        r matches Ok(d) ==> d == temperature - standard_temperature(pressure_altitude as int),
{
    match icao_temperature(pressure_altitude) {
        Ok(standard) => Ok(temperature - standard),
        Err(e) => Err(e),
    }
}

/// One term of the inverse-hyperbolic-tangent series in fixed point with
/// scale 10^12 and truncating division: term 0 is `x`, and each later term
/// multiplies by `x2` (the scaled square of `x`).
pub open spec fn atanh_term(x: int, x2: int, k: nat) -> int
    decreases k,
{
    if k == 0 {
        x
    } else {
        atanh_term(x, x2, (k - 1) as nat) * x2 / 1_000_000_000_000
    }
}

/// Partial sum of the first `k` series terms of `atanh`, each term `i`
/// divided by `2 i + 1`.
pub open spec fn atanh_sum(x: int, x2: int, k: nat) -> int
    decreases k,
{
    if k == 0 {
        0
    } else {
        atanh_sum(x, x2, (k - 1) as nat) + atanh_term(x, x2, (k - 1) as nat) / (2 * (k - 1) + 1)
    }
}

/// One term of the exponential series in fixed point with scale 10^12 and
/// truncating division: term 0 is 1, and term `k` is term `k - 1` times
/// `y / k`.
pub open spec fn exp_term(y: int, k: nat) -> int
    decreases k,
{
    if k == 0 {
        1_000_000_000_000
    } else {
        exp_term(y, (k - 1) as nat) * y / 1_000_000_000_000 / (k as int)
    }
}

/// Partial sum of the first `k` terms of the exponential series.
pub open spec fn exp_sum(y: int, k: nat) -> int
    decreases k,
{
    if k == 0 {
        0
    } else {
        exp_sum(y, (k - 1) as nat) + exp_term(y, (k - 1) as nat)
    }
}

/// `(qnh / 1013.25) ^ (R L / g)` in fixed point with scale 10^12, for `qnh`
/// in hundredths of a hectopascal: the power is evaluated as
/// `exp(e * ln(r))`, with `ln` through the `atanh` series at
/// `x = (r - 1) / (r + 1)` and the exponent `R L / g` as the exact fraction
/// `621959 / 3270000` (from R = 287.058, L = 0.0065, g = 9.81).
pub open spec fn pow_fraction(qnh: i64) -> int {
    let dq: int = if qnh >= 101_325 {
        qnh - 101_325
    } else {
        101_325 - qnh
    };
    let x = dq * 1_000_000_000_000 / (qnh + 101_325);
    let x2 = x * x / 1_000_000_000_000;
    let lnm = 2 * atanh_sum(x, x2, 19);
    let ym = lnm * 621_959 / 3_270_000;
    let e = exp_sum(ym, 25);
    if qnh >= 101_325 {
        e
    } else {
        1_000_000_000_000int * 1_000_000_000_000 / e
    }
}

/// What `pressure_altitude_by_qnh` returns: the barometric formula
/// `elevation + (T0 / L) * (1 - (qnh / P0) ^ (R L / g))` over the fixed-point
/// power, rounded half away from zero to hundredths of a meter.  With
/// T0 = 288.15 K and L = 0.0065 K/m the leading factor is the exact fraction
/// `2881500 / 65`.
pub open spec fn pressure_altitude_by_qnh_spec(qnh: i64, field_elevation: i64) -> int {
    round_half_away(
        field_elevation * 6_500_000_000 + 288_150_000 * (1_000_000_000_000 - pow_fraction(qnh)),
        65_000_000_000_000,
    )
}

proof fn lemma_atanh_series_at_zero(k: nat)
    ensures
        atanh_term(0, 0, k) == 0,
        atanh_sum(0, 0, k) == 0,
    decreases k,
{
    if k != 0 {
        lemma_atanh_series_at_zero((k - 1) as nat);
        vstd::arithmetic::div_mod::lemma_div_of0(1_000_000_000_000);
        vstd::arithmetic::div_mod::lemma_div_of0(2 * (k - 1) + 1);
    }
}

proof fn lemma_exp_series_at_zero(k: nat)
    ensures
        k >= 1 ==> exp_term(0, k) == 0,
        k >= 1 ==> exp_sum(0, k) == 1_000_000_000_000,
    decreases k,
{
    if k == 1 {
        vstd::arithmetic::div_mod::lemma_div_of0(1_000_000_000_000);
        vstd::arithmetic::div_mod::lemma_div_of0(1);
        assert(exp_sum(0, 0) == 0);
        assert(exp_term(0, 0) == 1_000_000_000_000);
        assert(exp_term(0, 1) == 1_000_000_000_000int * 0 / 1_000_000_000_000 / 1);
        assert(exp_sum(0, 1) == 1_000_000_000_000);
    } else if k > 1 {
        lemma_exp_series_at_zero((k - 1) as nat);
        vstd::arithmetic::div_mod::lemma_div_of0(1_000_000_000_000);
        vstd::arithmetic::div_mod::lemma_div_of0(k as int);
        assert(exp_term(0, k) == exp_term(0, (k - 1) as nat) * 0 / 1_000_000_000_000 / (
        k as int));
    }
}

/// Law: at the ISA reference pressure of 1013.25 hPa, the pressure altitude
/// equals the field elevation, rounded from millionths to hundredths of a
/// meter: the power term is exactly 1 and the barometric correction exactly
/// zero.
pub proof fn lemma_pressure_altitude_identity_at_isa(field_elevation: i64)
    ensures
        pressure_altitude_by_qnh_spec(101_325, field_elevation) == round_half_away(
            field_elevation as int,
            10_000,
        ),
{
    vstd::arithmetic::div_mod::lemma_div_of0(101_325int + 101_325);
    lemma_atanh_series_at_zero(19);
    vstd::arithmetic::div_mod::lemma_div_of0(3_270_000);
    lemma_exp_series_at_zero(25);
    assert(pow_fraction(101_325) == 1_000_000_000_000);
    crate::numeric::lemma_round_half_away_scale(field_elevation as int, 10_000, 6_500_000_000);
}

/// Pressure altitude from a barometric setting: `qnh` in hundredths of a
/// hectopascal and the field elevation in millionths of a meter give the
/// pressure altitude in hundredths of a meter, by the barometric formula
/// `elevation + (T0 / L) * (1 - (qnh / P0) ^ (R L / g))` evaluated exactly in
/// integer fixed point and rounded half away from zero.  At the ISA
/// reference pressure of 1013.25 hPa the result is the field elevation
/// itself, rounded to hundredths of a meter.
///
/// The series evaluation is defined for a QNH between 500 hPa and 1500 hPa
/// (sea-level pressure never leaves roughly 870 hPa to 1085 hPa) and
/// elevations within a million meters.
pub fn pressure_altitude_by_qnh(qnh: i64, field_elevation: i64) -> (r: i64)
    requires
        50_000 <= qnh <= 150_000,
        -1_000_000_000_000 <= field_elevation <= 1_000_000_000_000,
    ensures
        r == pressure_altitude_by_qnh_spec(qnh, field_elevation),
        qnh == 101_325 ==> r == round_half_away(field_elevation as int, 10_000),
{
    let negative = qnh < 101_325;
    let dq: u128 = if negative {
        (101_325 - qnh) as u128
    } else {
        (qnh - 101_325) as u128
    };
    let qsum: u128 = (qnh + 101_325) as u128;
    let x: u128 = dq * 1_000_000_000_000 / qsum;
    proof {
        vstd::arithmetic::div_mod::lemma_div_is_ordered_by_denominator(
            dq as int * 1_000_000_000_000,
            151_325,
            qsum as int,
        );
        vstd::arithmetic::div_mod::lemma_div_is_ordered(
            dq as int * 1_000_000_000_000,
            51_325int * 1_000_000_000_000,
            151_325,
        );
        assert(x <= 340_000_000_000);
    }
    proof {
        assert(x as int * x as int <= 340_000_000_000int * 340_000_000_000) by (nonlinear_arith)
            requires
                x <= 340_000_000_000,
        ;
        assert(x as int * x as int >= 0) by (nonlinear_arith);
        vstd::arithmetic::div_mod::lemma_div_is_ordered(
            x as int * x as int,
            340_000_000_000int * 340_000_000_000,
            1_000_000_000_000,
        );
        vstd::arithmetic::div_mod::lemma_div_pos_is_pos(x as int * x as int, 1_000_000_000_000);
    }
    let x2: u128 = x * x / 1_000_000_000_000;
    proof {
        assert(8 * (x2 as int) <= 1_000_000_000_000);
    }
    let mut term: u128 = x;
    let mut acc: u128 = 0;
    let mut k: usize = 0;
    while k < 19
        invariant
            k <= 19,
            x <= 340_000_000_000,
            x2 == x as int * x as int / 1_000_000_000_000,
            0 <= x2,
            8 * (x2 as int) <= 1_000_000_000_000,
            term == atanh_term(x as int, x2 as int, k as nat),
            acc == atanh_sum(x as int, x2 as int, k as nat),
            term <= x,
            7 * (acc as int) + 8 * (term as int) <= 15 * (x as int),
        decreases 19 - k,
    {
        proof {
            vstd::arithmetic::div_mod::lemma_div_is_ordered_by_denominator(
                term as int,
                1,
                2 * (k as int) + 1,
            );
            vstd::arithmetic::div_mod::lemma_div_basics(term as int);
            lemma_fixed_mul_shrink(term as int, x2 as int, 125_000_000_000, 8);
        }
        acc = acc + term / (2 * (k as u128) + 1);
        term = term * x2 / 1_000_000_000_000;
        k = k + 1;
    }
    let lnm: u128 = 2 * acc;
    let ym: u128 = lnm * 621_959 / 3_270_000;
    proof {
        assert(lnm as int * 621_959 <= 1_457_142_857_142int * 621_959) by (nonlinear_arith)
            requires
                lnm <= 1_457_142_857_142,
        ;
        vstd::arithmetic::div_mod::lemma_div_is_ordered(
            lnm as int * 621_959,
            1_457_142_857_142int * 621_959,
            3_270_000,
        );
        assert(ym <= 500_000_000_000);
    }
    let mut power: u128 = 1_000_000_000_000;
    let mut t: u128 = 1_000_000_000_000;
    let mut j: usize = 1;
    proof {
        assert(exp_sum(ym as int, 0) == 0);
        assert(exp_term(ym as int, 0) == 1_000_000_000_000);
        assert(exp_sum(ym as int, 1) == 1_000_000_000_000);
    }
    while j <= 24
        invariant
            1 <= j <= 25,
            ym <= 500_000_000_000,
            power == exp_sum(ym as int, j as nat),
            t == exp_term(ym as int, (j - 1) as nat),
            power >= 1_000_000_000_000,
            2 * (power as int) + 3 * (t as int) <= 5 * 1_000_000_000_000,
        decreases 25 - j,
    {
        proof {
            lemma_fixed_mul_shrink(t as int, ym as int, 500_000_000_000, 2);
            vstd::arithmetic::div_mod::lemma_div_is_ordered_by_denominator(
                t as int * ym as int / 1_000_000_000_000,
                1,
                j as int,
            );
            vstd::arithmetic::div_mod::lemma_div_basics(
                t as int * ym as int / 1_000_000_000_000,
            );
            vstd::arithmetic::div_mod::lemma_div_pos_is_pos(
                t as int * ym as int / 1_000_000_000_000,
                j as int,
            );
        }
        t = t * ym / 1_000_000_000_000 / (j as u128);
        power = power + t;
        j = j + 1;
    }
    let pow_value: u128 = if negative {
        proof {
            vstd::arithmetic::div_mod::lemma_div_is_ordered_by_denominator(
                1_000_000_000_000int * 1_000_000_000_000,
                1_000_000_000_000,
                power as int,
            );
            vstd::arithmetic::div_mod::lemma_div_multiples_vanish(
                1_000_000_000_000,
                1_000_000_000_000,
            );
            vstd::arithmetic::div_mod::lemma_div_pos_is_pos(
                1_000_000_000_000int * 1_000_000_000_000,
                power as int,
            );
        }
        1_000_000_000_000 * 1_000_000_000_000 / power
    } else {
        power
    };
    proof {
        assert(pow_value <= 2_500_000_000_000);
    }
    let difference: i128 = 1_000_000_000_000i128 - pow_value as i128;
    let numerator: i128 = field_elevation as i128 * 6_500_000_000 + 288_150_000 * difference;
    proof {
        lemma_round_half_away_bound(numerator as int, 65_000_000_000_000, 110_000_000);
        if qnh == 101_325 {
            lemma_pressure_altitude_identity_at_isa(field_elevation);
        }
    }
    let rounded = div_round_half_away(numerator, 65_000_000_000_000);
    rounded as i64
}

/// Law: at a fixed QNH the pressure altitude does not decrease when the
/// field elevation increases.
pub proof fn lemma_pressure_altitude_monotone_in_elevation(
    qnh: i64,
    lower_elevation: i64,
    higher_elevation: i64,
)
    requires
        lower_elevation <= higher_elevation,
    ensures
        pressure_altitude_by_qnh_spec(qnh, lower_elevation) <= pressure_altitude_by_qnh_spec(
            qnh,
            higher_elevation,
        ),
{
    crate::numeric::lemma_round_half_away_monotone(
        lower_elevation * 6_500_000_000 + 288_150_000 * (1_000_000_000_000 - pow_fraction(qnh)),
        higher_elevation * 6_500_000_000 + 288_150_000 * (1_000_000_000_000 - pow_fraction(qnh)),
        65_000_000_000_000,
    );
}

} // verus!
