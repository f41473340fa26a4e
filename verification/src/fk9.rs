//! Takeoff performance for the FK9 Mk VI.
//!
//! A baseline distance is interpolated from a per-engine mass table, rescaled
//! from its 120 m calibration to a 100 m reference, and then corrected in a
//! fixed order for pressure altitude, temperature deviation, runway slope,
//! grass surface and surface contamination.  Masses are in hundredths of a
//! kilogram, pressure altitudes in hundredths of a foot, temperatures in
//! hundredths of a degree Celsius, slopes in hundredths of a percent, and
//! distances in hundredths of a meter.
//!
//! The running distance is carried through the correction chain as an exact
//! fraction and rounded once, half away from zero, at the end.

use vstd::prelude::*;
use vstd::string::StringExecFns;

use crate::meteorology;
use crate::meteorology::UndefinedPressureAltitudeError;
use crate::numeric::{
    decimal_string, div_round_half_away, hundredths_string, lemma_frac_mul_bounds,
    lemma_round_half_away_bound, round_half_away,
};

verus! {

/// Highest valid runway temperature, in hundredths of a degree Celsius.
pub const MAX_TEMPERATURE: i64 = 7000;

/// Lowest valid runway temperature, in hundredths of a degree Celsius.
pub const MIN_TEMPERATURE: i64 = -9000;

/// Largest valid slope magnitude, in hundredths of a percent.
pub const MAX_SLOPE: i64 = 2500;

/// Engine variant of the aircraft.
#[derive(Debug, Clone, Copy, PartialEq, Eq, Structural)]
pub enum Engine {
    Rotax912Ul,
    Rotax912Uls,
}

/// General contamination of the runway surface.
#[derive(Debug, Clone, Copy, PartialEq, Eq, Structural)]
pub enum SurfaceCondition {
    Inconspicuous,
    Slush,
    Snow,
    PowderSnow,
}

/// Condition of a grass runway; absent when the runway is paved.
#[derive(Debug, Default, Clone, Copy, PartialEq, Eq, Structural)]
pub struct GrassSurface {
    pub wet: bool,
    pub soft_ground: bool,
    pub damaged_turf: bool,
    pub high_grass: bool,
}

/// An input to the takeoff calculation lies outside the data the flight
/// manual provides.  Masses, temperatures and slopes are in the hundredths
/// scale of their inputs; the wrapped atmosphere error carries altitudes in
/// millionths of a meter.
#[derive(Debug, Clone, Copy, PartialEq, Eq, Structural)]
pub enum TakeoffCalculationError {
    MassTooLow { min: i64, mass: i64 },
    MassTooHigh { max: i64, mass: i64 },
    TemperatureTooLow { min: i64, temperature: i64 },
    TemperatureTooHigh { max: i64, temperature: i64 },
    SlopeTooSteep { max: i64, slope: i64 },
    InvalidPressureAltitude { source: UndefinedPressureAltitudeError },
}

/// Ground roll and distance to 50 ft, both in hundredths of a meter, or the
/// first input fault found.
pub type TakeoffResult = Result<(i64, i64), TakeoffCalculationError>;

/// An unrounded distance in hundredths of a meter, kept as the exact
/// fraction `num / den`.
#[derive(Debug, Clone, Copy)]
pub struct ExactDistance {
    pub num: i128,
    pub den: i128,
}

impl ExactDistance {
    /// The fraction is well formed: its denominator is positive.
    pub open spec fn wf(self) -> bool {
        self.den > 0
    }

    /// The exact value `hundredths`, as a fraction.
    pub fn from_hundredths(hundredths: i64) -> (r: ExactDistance)
        ensures
            r.num == hundredths,
            r.den == 1,
            r.wf(),
    {
        ExactDistance { num: hundredths as i128, den: 1 }
    }

    /// Whether this fraction equals the whole number `hundredths`.
    pub fn equals_hundredths(&self, hundredths: i64) -> (r: bool)
        requires
            self.wf(),
        ensures
            r <==> self.num == hundredths * self.den,
    {
        match (hundredths as i128).checked_mul(self.den) {
            Some(product) => self.num == product,
            None => false,
        }
    }
}

/// The message text for each takeoff-calculation fault, with values and
/// bounds rendered in their natural units.
pub open spec fn takeoff_error_message(e: TakeoffCalculationError) -> Seq<char> {
    match e {
        TakeoffCalculationError::MassTooLow { min, mass } => "Mass "@ + decimal_string(
            mass as int,
            2,
        ) + " kg is below the minimum available data ("@ + decimal_string(min as int, 2)
            + " kg)"@,
        TakeoffCalculationError::MassTooHigh { max, mass } => "Mass "@ + decimal_string(
            mass as int,
            2,
        ) + " kg is above the maximum available data ("@ + decimal_string(max as int, 2)
            + " kg)"@,
        TakeoffCalculationError::TemperatureTooLow { min, temperature } => "Temperature "@
            + decimal_string(temperature as int, 2) + " \u{b0}C is below the minimum sensible data ("@
            + decimal_string(min as int, 2) + " \u{b0}C)"@,
        TakeoffCalculationError::TemperatureTooHigh { max, temperature } => "Temperature "@
            + decimal_string(temperature as int, 2) + " \u{b0}C is above the maximum sensible data ("@
            + decimal_string(max as int, 2) + " \u{b0}C)"@,
        TakeoffCalculationError::SlopeTooSteep { max, slope } => "Slope "@ + decimal_string(
            slope as int,
            2,
        ) + " % is is too steep to provide sensible data (Maximum "@ + decimal_string(
            max as int,
            2,
        ) + " %)"@,
        TakeoffCalculationError::InvalidPressureAltitude { source } => "The given pressure altitude is not defined by the ICAO standard atmosphere: "@
            + meteorology::undefined_pressure_altitude_message(source),
    }
}

impl TakeoffCalculationError {
    /// The message describing the fault, with the offending value and the
    /// violated bound.
    pub fn message(&self) -> (m: String)
        ensures
            m@ == takeoff_error_message(*self),
    {
        match self {
            TakeoffCalculationError::MassTooLow { min, mass } => {
                let mut s = "Mass ".to_owned();
                s.append(hundredths_string(*mass).as_str());
                s.append(" kg is below the minimum available data (");
                s.append(hundredths_string(*min).as_str());
                s.append(" kg)");
                s
            },
            TakeoffCalculationError::MassTooHigh { max, mass } => {
                let mut s = "Mass ".to_owned();
                s.append(hundredths_string(*mass).as_str());
                s.append(" kg is above the maximum available data (");
                s.append(hundredths_string(*max).as_str());
                s.append(" kg)");
                s
            },
            TakeoffCalculationError::TemperatureTooLow { min, temperature } => {
                let mut s = "Temperature ".to_owned();
                s.append(hundredths_string(*temperature).as_str());
                s.append(" \u{b0}C is below the minimum sensible data (");
                s.append(hundredths_string(*min).as_str());
                s.append(" \u{b0}C)");
                s
            },
            TakeoffCalculationError::TemperatureTooHigh { max, temperature } => {
                let mut s = "Temperature ".to_owned();
                s.append(hundredths_string(*temperature).as_str());
                s.append(" \u{b0}C is above the maximum sensible data (");
                s.append(hundredths_string(*max).as_str());
                s.append(" \u{b0}C)");
                s
            },
            TakeoffCalculationError::SlopeTooSteep { max, slope } => {
                let mut s = "Slope ".to_owned();
                s.append(hundredths_string(*slope).as_str());
                s.append(" % is is too steep to provide sensible data (Maximum ");
                s.append(hundredths_string(*max).as_str());
                s.append(" %)");
                s
            },
            TakeoffCalculationError::InvalidPressureAltitude { source } => {
                let mut s =
                    "The given pressure altitude is not defined by the ICAO standard atmosphere: ".to_owned();
                s.append(source.message().as_str());
                s
            },
        }
    }
}

/// The mass entries (hundredths of a kilogram) of the performance table for
/// `engine`, strictly ascending.
pub open spec fn table_masses(engine: Engine) -> Seq<i64> {
    match engine {
        Engine::Rotax912Ul => seq![47250i64, 52500i64, 54000i64],
        Engine::Rotax912Uls => seq![47250i64, 52500i64, 54000i64, 57000i64, 60000i64],
    }
}

/// The ground-roll entries (hundredths of a meter) of the performance table.
pub open spec fn table_takeoff_runs(engine: Engine) -> Seq<i64> {
    match engine {
        Engine::Rotax912Ul => seq![10600i64, 14000i64, 14700i64],
        Engine::Rotax912Uls => seq![10000i64, 12800i64, 13600i64, 14100i64, 15300i64],
    }
}

/// The 50-ft-obstacle entries (hundredths of a meter) of the performance
/// table.
pub open spec fn table_to_50_feet(engine: Engine) -> Seq<i64> {
    match engine {
        Engine::Rotax912Ul => seq![26500i64, 35000i64, 36700i64],
        Engine::Rotax912Uls => seq![22500i64, 32000i64, 33800i64, 35200i64, 37500i64],
    }
}

/// Entries are strictly ascending.
pub open spec fn strictly_ascending(s: Seq<i64>) -> bool {
    forall|i: int, j: int| 0 <= i < j < s.len() ==> s[i] < s[j]
}

/// Entries all lie in `[0, 100000]`.
pub open spec fn entries_bounded(s: Seq<i64>) -> bool {
    forall|i: int| 0 <= i < s.len() ==> 0 <= #[trigger] s[i] <= 100_000
}

struct TakeoffDistances {
    mass: Vec<i64>,
    takeoff_run: Vec<i64>,
    to_50_feet: Vec<i64>,
}

fn takeoff_distances_by_engine(engine: Engine) -> (t: TakeoffDistances)
    ensures
        t.mass@ == table_masses(engine),
        t.takeoff_run@ == table_takeoff_runs(engine),
        t.to_50_feet@ == table_to_50_feet(engine),
{
    match engine {
        Engine::Rotax912Ul => {
            let t = TakeoffDistances {
                mass: vec![47250i64, 52500, 54000],
                takeoff_run: vec![10600i64, 14000, 14700],
                to_50_feet: vec![26500i64, 35000, 36700],
            };
            proof {
                assert(t.mass@ =~= table_masses(engine));
                assert(t.takeoff_run@ =~= table_takeoff_runs(engine));
                assert(t.to_50_feet@ =~= table_to_50_feet(engine));
            }
            t
        },
        Engine::Rotax912Uls => {
            let t = TakeoffDistances {
                mass: vec![47250i64, 52500, 54000, 57000, 60000],
                takeoff_run: vec![10000i64, 12800, 13600, 14100, 15300],
                to_50_feet: vec![22500i64, 32000, 33800, 35200, 37500],
            };
            proof {
                assert(t.mass@ =~= table_masses(engine));
                assert(t.takeoff_run@ =~= table_takeoff_runs(engine));
                assert(t.to_50_feet@ =~= table_to_50_feet(engine));
            }
            t
        },
    }
}

/// Every per-engine table is well formed: the three columns have one length,
/// at least two points, masses strictly ascending, and all entries within
/// `[0, 100000]`.
pub proof fn lemma_tables_well_formed(engine: Engine)
    ensures
        table_masses(engine).len() >= 2,
        table_takeoff_runs(engine).len() == table_masses(engine).len(),
        table_to_50_feet(engine).len() == table_masses(engine).len(),
        strictly_ascending(table_masses(engine)),
        entries_bounded(table_masses(engine)),
        entries_bounded(table_takeoff_runs(engine)),
        entries_bounded(table_to_50_feet(engine)),
{
    match engine {
        Engine::Rotax912Ul => {
            assert forall|i: int, j: int|
                0 <= i < j < table_masses(engine).len() implies table_masses(engine)[i]
                < table_masses(engine)[j] by {}
        },
        Engine::Rotax912Uls => {
            assert forall|i: int, j: int|
                0 <= i < j < table_masses(engine).len() implies table_masses(engine)[i]
                < table_masses(engine)[j] by {}
        },
    }
}

/// Index of the lower end of the bracketing pair for `mass`, scanning down
/// from `i`: the largest index at most `i` whose entry does not exceed
/// `mass`, or 0 when there is none.
pub open spec fn bracket_from(masses: Seq<i64>, mass: i64, i: nat) -> nat
    recommends
        i < masses.len(),
    decreases i,
{
    if i == 0 {
        0
    } else if masses[i as int] <= mass {
        i
    } else {
        bracket_from(masses, mass, (i - 1) as nat)
    }
}

/// Index of the lower end of the bracketing pair of table entries for
/// `mass`: the largest `i <= len - 2` with `masses[i] <= mass`, or 0.
pub open spec fn bracket(masses: Seq<i64>, mass: i64) -> nat
    recommends
        masses.len() >= 2,
{
    bracket_from(masses, mass, (masses.len() - 2) as nat)
}

proof fn lemma_bracket_from_props(masses: Seq<i64>, mass: i64, i: nat)
    requires
        i < masses.len(),
        masses.len() >= 1,
        masses[0] <= mass,
    ensures
        bracket_from(masses, mass, i) <= i,
        masses[bracket_from(masses, mass, i) as int] <= mass,
        forall|k: int| bracket_from(masses, mass, i) < k <= i ==> masses[k] > mass,
    decreases i,
{
    if i != 0 && masses[i as int] > mass {
        lemma_bracket_from_props(masses, mass, (i - 1) as nat);
    }
}

/// Within a strictly ascending table that brackets `mass`, the bracketing
/// pair `(bracket, bracket + 1)` straddles `mass`.
pub proof fn lemma_bracket_props(masses: Seq<i64>, mass: i64)
    requires
        masses.len() >= 2,
        strictly_ascending(masses),
        masses[0] <= mass <= masses[masses.len() - 1],
    ensures
        bracket(masses, mass) <= masses.len() - 2,
        masses[bracket(masses, mass) as int] <= mass,
        mass <= masses[bracket(masses, mass) as int + 1],
        forall|k: int| bracket(masses, mass) < k <= masses.len() - 2 ==> masses[k] > mass,
{
    let b = bracket(masses, mass);
    lemma_bracket_from_props(masses, mass, (masses.len() - 2) as nat);
    if b < masses.len() - 2 {
        assert(masses[b as int + 1] > mass);
    }
}

/// Numerator of the interpolated and rescaled baseline distance for `mass`:
/// linear interpolation between the bracketing entries of `column`, times
/// the `100 / 120` rescale.
pub open spec fn base_distance_num(masses: Seq<i64>, column: Seq<i64>, mass: i64) -> int {
    let i = bracket(masses, mass) as int;
    (column[i] * (masses[i + 1] - masses[i]) + (mass - masses[i]) * (column[i + 1] - column[i]))
        * 5
}

/// Denominator of the interpolated and rescaled baseline distance.
pub open spec fn base_distance_den(masses: Seq<i64>, mass: i64) -> int {
    let i = bracket(masses, mass) as int;
    (masses[i + 1] - masses[i]) * 6
}

/// Linear interpolation of `distances` over `masses` at `mass`, rescaled by
/// `100 / 120`, as an exact fraction.  Entries are bounded by 1000 kg and
/// 1000 m, well above the tables, to keep the products within machine
/// integers.
pub fn calculate_base_distance(mass: i64, masses: &Vec<i64>, distances: &Vec<i64>) -> (d:
    ExactDistance)
    requires
        masses@.len() >= 2,
        distances@.len() == masses@.len(),
        strictly_ascending(masses@),
        entries_bounded(masses@),
        entries_bounded(distances@),
        masses@[0] <= mass <= masses@[masses@.len() - 1],
    ensures
        d.num == base_distance_num(masses@, distances@, mass),
        d.den == base_distance_den(masses@, mass),
        d.wf(),
        -200_000_000_000 <= d.num <= 200_000_000_000,
        d.den <= 200_000_000_000,
{
    let n = masses.len();
    let mut i: usize = n - 2;
    while i > 0 && masses[i] > mass
        invariant
            masses@.len() >= 2,
            n == masses@.len(),
            i <= n - 2,
            bracket(masses@, mass) == bracket_from(masses@, mass, i as nat),
        decreases i,
    {
        i = i - 1;
    }
    assert(bracket(masses@, mass) == i);
    proof {
        lemma_bracket_props(masses@, mass);
    }
    let m0 = masses[i];
    let m1 = masses[i + 1];
    let d0 = distances[i];
    let d1 = distances[i + 1];
    proof {
        assert(d0 * (m1 - m0) <= 100_000int * 100_000 && d0 * (m1 - m0) >= 0) by (nonlinear_arith)
            requires
                0 <= d0 <= 100_000,
                0 <= m1 - m0 <= 100_000,
        ;
        assert(-(100_000int * 200_000) <= (mass - m0) * (d1 - d0) <= 100_000int * 200_000)
            by (nonlinear_arith)
            requires
                0 <= mass - m0 <= 100_000,
                -200_000 <= d1 - d0 <= 200_000,
        ;
    }
    let num: i128 = (d0 as i128 * (m1 - m0) as i128 + (mass - m0) as i128 * (d1 - d0) as i128)
        * 5;
    let den: i128 = (m1 - m0) as i128 * 6;
    ExactDistance { num, den }
}

/// Pressure-altitude multiplier tier, in hundredths: 0.18 above 3000 ft,
/// 0.13 above 1000 ft, else 0.10.
pub open spec fn pressure_altitude_tier(pressure_altitude: i64) -> int {
    if pressure_altitude > 300_000 {
        18
    } else if pressure_altitude > 100_000 {
        13
    } else {
        10
    }
}

/// Numerator of the pressure-altitude correction factor over the fixed
/// denominator 10^7: `max(1, 1 + tier/100 * altitude_ft/1000)`; the factor
/// never reduces the distance.
pub open spec fn pressure_altitude_factor_num(pressure_altitude: i64) -> int {
    let raw = 10_000_000 + pressure_altitude_tier(pressure_altitude) * pressure_altitude;
    if raw < 10_000_000 {
        10_000_000
    } else {
        raw
    }
}

/// Multiplies the running distance by the pressure-altitude correction
/// factor, floored at 1.  The bounds keep the exact product within machine
/// integers.
pub fn apply_pressure_altitude_correction(takeoff_distance: ExactDistance, pressure_altitude: i64)
    -> (r: ExactDistance)
    requires
        takeoff_distance.wf(),
        -1_000_000_000_000_000 <= takeoff_distance.num <= 1_000_000_000_000_000,
        takeoff_distance.den <= 1_000_000_000_000_000,
        -3_000_000_000_000 <= pressure_altitude <= 3_000_000_000_000,
    ensures
        r.num == takeoff_distance.num * pressure_altitude_factor_num(pressure_altitude),
        r.den == takeoff_distance.den * 10_000_000,
        r.wf(),
{
    let tier: i128 = if pressure_altitude > 300_000 {
        18
    } else if pressure_altitude > 100_000 {
        13
    } else {
        10
    };
    let mut factor: i128 = 10_000_000 + tier * pressure_altitude as i128;
    if factor < 10_000_000 {
        factor = 10_000_000;
    }
    proof {
        lemma_frac_mul_bounds(
            takeoff_distance.num as int,
            takeoff_distance.den as int,
            factor as int,
            10_000_000,
            1_000_000_000_000_000,
            5_400_100,
            1_000_000_000_000_000,
            54_001_000_000_000,
            1_000_000_000_000_000,
            10_000_000,
        );
    }
    ExactDistance {
        num: takeoff_distance.num * factor,
        den: takeoff_distance.den * 10_000_000,
    }
}

/// The runway temperature used for the deviation correction: sub-freezing
/// temperatures are clamped to zero.
pub open spec fn clamped_temperature(temperature: i64) -> i64 {
    if temperature > 0 {
        temperature
    } else {
        0
    }
}

/// What `calculate_temperature_deviation_for_correction` returns: the
/// deviation of the clamped temperature from the standard temperature at the
/// pressure altitude (hundredths of a foot, converted exactly to millionths
/// of a meter), with the atmosphere error wrapped.
pub open spec fn temperature_deviation_for_correction_spec(
    pressure_altitude: i64,
    temperature: i64,
) -> Result<i64, TakeoffCalculationError>
    recommends
        -3_000_000_000_000 <= pressure_altitude <= 3_000_000_000_000,
{
    match meteorology::temperature_deviation_spec(
        (pressure_altitude * 3048) as i64,
        clamped_temperature(temperature),
    ) {
        Ok(d) => Ok(d),
        Err(e) => Err(TakeoffCalculationError::InvalidPressureAltitude { source: e }),
    }
}

/// Temperature deviation used by the correction chain, in hundredths of a
/// kelvin: actual (clamped at zero) minus standard at the given pressure
/// altitude in hundredths of a foot.
pub fn calculate_temperature_deviation_for_correction(
    pressure_altitude: i64,
    temperature: i64,
) -> (r: Result<i64, TakeoffCalculationError>)
    requires
        -3_000_000_000_000 <= pressure_altitude <= 3_000_000_000_000,
        -1_000_000_000_000_000 <= temperature <= 1_000_000_000_000_000,
    ensures
        r == temperature_deviation_for_correction_spec(pressure_altitude, temperature),
        r is Ok <==> meteorology::MIN_PRESSURE_ALTITUDE <= pressure_altitude * 3048
            <= meteorology::MAX_PRESSURE_ALTITUDE,
        r matches Ok(d) ==> d == clamped_temperature(temperature)
            - meteorology::standard_temperature(pressure_altitude * 3048),
{
    let altitude: i64 = pressure_altitude * 3048;
    let clamped: i64 = if temperature > 0 {
        temperature
    } else {
        0
    };
    match meteorology::calculate_temperature_deviation(altitude, clamped) {
        Ok(d) => Ok(d),
        Err(e) => Err(TakeoffCalculationError::InvalidPressureAltitude { source: e }),
    }
}

/// Multiplies the running distance by `1 + deviation / 100` (deviation in
/// hundredths of a kelvin).  The bounds keep the exact product within
/// machine integers.
pub fn apply_temperature_correction(takeoff_distance: ExactDistance, temperature_deviation: i64)
    -> (r: ExactDistance)
    requires
        takeoff_distance.wf(),
        -1_000_000_000_000_000_000_000_000_000_000 <= takeoff_distance.num
            <= 1_000_000_000_000_000_000_000_000_000_000,
        takeoff_distance.den <= 1_000_000_000_000_000_000_000_000_000_000,
        -1_000_000 <= temperature_deviation <= 1_000_000,
    ensures
        r.num == takeoff_distance.num * (10_000 + temperature_deviation),
        r.den == takeoff_distance.den * 10_000,
        r.wf(),
{
    proof {
        lemma_frac_mul_bounds(
            takeoff_distance.num as int,
            takeoff_distance.den as int,
            10_000 + temperature_deviation as int,
            10_000,
            1_000_000_000_000_000_000_000_000_000_000,
            101,
            1_000_000_000_000_000_000_000_000_000_000,
            1_010_000,
            1_000_000_000_000_000_000_000_000_000_000,
            10_000,
        );
    }
    ExactDistance {
        num: takeoff_distance.num * (10_000 + temperature_deviation as i128),
        den: takeoff_distance.den * 10_000,
    }
}

/// What `apply_environmental_corrections` returns: the distance times the
/// pressure-altitude factor and the temperature-deviation factor, or the
/// wrapped atmosphere error.
pub open spec fn environmental_corrections_spec(
    takeoff_distance: ExactDistance,
    pressure_altitude: i64,
    temperature: i64,
) -> Result<ExactDistance, TakeoffCalculationError> {
    match temperature_deviation_for_correction_spec(pressure_altitude, temperature) {
        Ok(deviation) => Ok(
            ExactDistance {
                num: (takeoff_distance.num * pressure_altitude_factor_num(pressure_altitude) * (
                10_000 + deviation)) as i128,
                den: (takeoff_distance.den * 10_000_000 * 10_000) as i128,
            },
        ),
        Err(e) => Err(e),
    }
}

/// Applies the pressure-altitude correction, then the temperature-deviation
/// correction; fails when the altitude leaves the standard atmosphere.
pub fn apply_environmental_corrections(
    takeoff_distance: ExactDistance,
    pressure_altitude: i64,
    temperature: i64,
) -> (r: Result<ExactDistance, TakeoffCalculationError>)
    requires
        takeoff_distance.wf(),
        -1_000_000_000_000_000 <= takeoff_distance.num <= 1_000_000_000_000_000,
        takeoff_distance.den <= 1_000_000_000_000_000,
        -3_000_000_000_000 <= pressure_altitude <= 3_000_000_000_000,
        -100_000 <= temperature <= 100_000,
    ensures
        r == environmental_corrections_spec(takeoff_distance, pressure_altitude, temperature),
        r matches Ok(d) ==> d.wf(),
{
    let distance = apply_pressure_altitude_correction(takeoff_distance, pressure_altitude);
    proof {
        lemma_frac_mul_bounds(
            takeoff_distance.num as int,
            takeoff_distance.den as int,
            pressure_altitude_factor_num(pressure_altitude),
            10_000_000,
            1_000_000_000_000_000,
            5_400_100,
            1_000_000_000_000_000,
            54_001_000_000_000,
            1_000_000_000_000_000,
            10_000_000,
        );
    }
    match calculate_temperature_deviation_for_correction(pressure_altitude, temperature) {
        Ok(deviation) => {
            proof {
                meteorology::lemma_standard_temperature_range(pressure_altitude * 3048);
            }
            Ok(apply_temperature_correction(distance, deviation))
        },
        Err(e) => Err(e),
    }
}

/// Numerator of the combined grass-surface factor over
/// `grass_surface_factor_den`: a 1.2 base penalty, then 1.1 when wet, 1.5 on
/// soft ground, 1.1 on damaged turf, and 1.2 in high grass, multiplied
/// cumulatively.
pub open spec fn grass_surface_factor_num(grass_surface: GrassSurface) -> int {
    12int * (if grass_surface.wet {
        11int
    } else {
        1int
    }) * (if grass_surface.soft_ground {
        15int
    } else {
        1int
    }) * (if grass_surface.damaged_turf {
        11int
    } else {
        1int
    }) * (if grass_surface.high_grass {
        12int
    } else {
        1int
    })
}

/// Denominator of the combined grass-surface factor.
pub open spec fn grass_surface_factor_den(grass_surface: GrassSurface) -> int {
    10int * (if grass_surface.wet {
        10int
    } else {
        1int
    }) * (if grass_surface.soft_ground {
        10int
    } else {
        1int
    }) * (if grass_surface.damaged_turf {
        10int
    } else {
        1int
    }) * (if grass_surface.high_grass {
        10int
    } else {
        1int
    })
}

/// Multiplies the running distance by the grass-surface penalties.  The
/// bounds keep the exact product within machine integers.
pub fn apply_grass_surface_corrections(takeoff_distance: ExactDistance, grass_surface: GrassSurface)
    -> (r: ExactDistance)
    requires
        takeoff_distance.wf(),
        -100_000_000_000_000_000_000_000_000_000_000 <= takeoff_distance.num
            <= 100_000_000_000_000_000_000_000_000_000_000,
        takeoff_distance.den <= 100_000_000_000_000_000_000_000_000_000_000,
    ensures
        r.num == takeoff_distance.num * grass_surface_factor_num(grass_surface),
        r.den == takeoff_distance.den * grass_surface_factor_den(grass_surface),
        r.wf(),
{
    let mut factor_num: i128 = 12;
    let mut factor_den: i128 = 10;
    if grass_surface.wet {
        factor_num = factor_num * 11;
        factor_den = factor_den * 10;
    }
    if grass_surface.soft_ground {
        factor_num = factor_num * 15;
        factor_den = factor_den * 10;
    }
    if grass_surface.damaged_turf {
        factor_num = factor_num * 11;
        factor_den = factor_den * 10;
    }
    if grass_surface.high_grass {
        factor_num = factor_num * 12;
        factor_den = factor_den * 10;
    }
    proof {
        assert(factor_num <= 3 * factor_den && factor_num <= 261_360 && factor_den <= 100_000);
        lemma_frac_mul_bounds(
            takeoff_distance.num as int,
            takeoff_distance.den as int,
            factor_num as int,
            factor_den as int,
            100_000_000_000_000_000_000_000_000_000_000,
            3,
            100_000_000_000_000_000_000_000_000_000_000,
            261_360,
            100_000_000_000_000_000_000_000_000_000_000,
            100_000,
        );
    }
    ExactDistance {
        num: takeoff_distance.num * factor_num,
        den: takeoff_distance.den * factor_den,
    }
}

/// Numerator of the grass factor for an optional grass surface: 1 on a paved
/// runway.
pub open spec fn grass_option_factor_num(grass_surface: Option<GrassSurface>) -> int {
    match grass_surface {
        Some(g) => grass_surface_factor_num(g),
        None => 1,
    }
}

/// Denominator of the grass factor for an optional grass surface.
pub open spec fn grass_option_factor_den(grass_surface: Option<GrassSurface>) -> int {
    match grass_surface {
        Some(g) => grass_surface_factor_den(g),
        None => 1,
    }
}

/// Numerator of the surface-contamination factor: 1.0, 1.3, 1.5 or 1.25.
pub open spec fn contamination_factor_num(surface_condition: SurfaceCondition) -> int {
    match surface_condition {
        SurfaceCondition::Inconspicuous => 1,
        SurfaceCondition::Slush => 13,
        SurfaceCondition::Snow => 3,
        SurfaceCondition::PowderSnow => 5,
    }
}

/// Denominator of the surface-contamination factor.
pub open spec fn contamination_factor_den(surface_condition: SurfaceCondition) -> int {
    match surface_condition {
        SurfaceCondition::Inconspicuous => 1,
        SurfaceCondition::Slush => 10,
        SurfaceCondition::Snow => 2,
        SurfaceCondition::PowderSnow => 4,
    }
}

/// Numerator of the fully corrected distance: the base numerator times, in
/// order, the pressure-altitude factor, the temperature-deviation factor,
/// the slope factor, the grass factor and the contamination factor.
pub open spec fn corrected_num(
    num: int,
    pressure_altitude: i64,
    deviation: int,
    slope: i64,
    grass_surface: Option<GrassSurface>,
    surface_condition: SurfaceCondition,
) -> int {
    num * pressure_altitude_factor_num(pressure_altitude) * (10_000 + deviation) * (1000
        + slope) * grass_option_factor_num(grass_surface) * contamination_factor_num(
        surface_condition,
    )
}

/// Denominator of the fully corrected distance.
pub open spec fn corrected_den(
    den: int,
    grass_surface: Option<GrassSurface>,
    surface_condition: SurfaceCondition,
) -> int {
    den * 10_000_000 * 10_000 * 1000 * grass_option_factor_den(grass_surface)
        * contamination_factor_den(surface_condition)
}

/// What `apply_corrections` returns: the corrected distance rounded half
/// away from zero to whole hundredths of a meter, or the wrapped atmosphere
/// error.
pub open spec fn apply_corrections_spec(
    takeoff_distance: ExactDistance,
    pressure_altitude: i64,
    temperature: i64,
    slope: i64,
    grass_surface: Option<GrassSurface>,
    surface_condition: SurfaceCondition,
) -> Result<i64, TakeoffCalculationError> {
    match temperature_deviation_for_correction_spec(pressure_altitude, temperature) {
        Ok(deviation) => Ok(
            round_half_away(
                corrected_num(
                    takeoff_distance.num as int,
                    pressure_altitude,
                    deviation as int,
                    slope,
                    grass_surface,
                    surface_condition,
                ),
                corrected_den(takeoff_distance.den as int, grass_surface, surface_condition),
            ) as i64,
        ),
        Err(e) => Err(e),
    }
}

/// Applies the full correction chain to a baseline distance and rounds the
/// result, half away from zero, to whole hundredths of a meter.
///
/// The bounds on the fraction, altitude, temperature and slope admit every
/// value the flight manual's data can produce; they keep the exact running
/// product within machine integers.
pub fn apply_corrections(
    takeoff_distance: ExactDistance,
    pressure_altitude: i64,
    temperature: i64,
    slope: i64,
    grass_surface: Option<GrassSurface>,
    surface_condition: SurfaceCondition,
) -> (r: Result<i64, TakeoffCalculationError>)
    requires
        takeoff_distance.wf(),
        -200_000_000_000 <= takeoff_distance.num <= 200_000_000_000,
        takeoff_distance.den <= 200_000_000_000,
        -30_000_000_000 <= pressure_altitude <= 30_000_000_000,
        -10_000 <= temperature <= 10_000,
        -10_000 <= slope <= 10_000,
    ensures
        r == apply_corrections_spec(
            takeoff_distance,
            pressure_altitude,
            temperature,
            slope,
            grass_surface,
            surface_condition,
        ),
{
    let environmental = match apply_environmental_corrections(
        takeoff_distance,
        pressure_altitude,
        temperature,
    ) {
        Ok(d) => d,
        Err(e) => {
            return Err(e);
        },
    };
    let ghost deviation = clamped_temperature(temperature) - meteorology::standard_temperature(
        pressure_altitude * 3048,
    );
    proof {
        meteorology::lemma_standard_temperature_range(pressure_altitude * 3048);
        // Ratio and magnitude bounds of the running fraction after the
        // environmental stage: the altitude factor, then the deviation factor.
        lemma_frac_mul_bounds(
            takeoff_distance.num as int,
            takeoff_distance.den as int,
            pressure_altitude_factor_num(pressure_altitude),
            10_000_000,
            200_000_000_000,
            54_001,
            200_000_000_000,
            540_010_000_000,
            200_000_000_000,
            10_000_000,
        );
        lemma_frac_mul_bounds(
            takeoff_distance.num as int * pressure_altitude_factor_num(pressure_altitude),
            takeoff_distance.den as int * 10_000_000,
            10_000 + deviation,
            10_000,
            200_000_000_000int * 54_001,
            3,
            200_000_000_000int * 540_010_000_000,
            26_850,
            200_000_000_000int * 10_000_000,
            10_000,
        );
    }
    let mut num: i128 = environmental.num;
    let mut den: i128 = environmental.den;
    proof {
        lemma_frac_mul_bounds(
            num as int,
            den as int,
            1000 + slope as int,
            1000,
            200_000_000_000int * 54_001 * 3,
            11,
            200_000_000_000int * 540_010_000_000 * 26_850,
            11_000,
            200_000_000_000int * 10_000_000 * 10_000,
            1000,
        );
    }
    num = num * (1000 + slope as i128);
    den = den * 1000;
    if let Some(g) = grass_surface {
        proof {
            lemma_frac_mul_bounds(
                num as int,
                den as int,
                grass_surface_factor_num(g),
                grass_surface_factor_den(g),
                200_000_000_000int * 54_001 * 3 * 11,
                3,
                200_000_000_000int * 540_010_000_000 * 26_850 * 11_000,
                261_360,
                200_000_000_000int * 10_000_000 * 10_000 * 1000,
                100_000,
            );
        }
        let corrected = apply_grass_surface_corrections(ExactDistance { num, den }, g);
        num = corrected.num;
        den = corrected.den;
    }
    proof {
        lemma_frac_mul_bounds(
            num as int,
            den as int,
            contamination_factor_num(surface_condition),
            contamination_factor_den(surface_condition),
            200_000_000_000int * 54_001 * 3 * 11 * 3,
            2,
            200_000_000_000int * 540_010_000_000 * 26_850 * 11_000 * 261_360,
            13,
            200_000_000_000int * 10_000_000 * 10_000 * 1000 * 100_000,
            10,
        );
    }
    let (contamination_num, contamination_den): (i128, i128) = match surface_condition {
        SurfaceCondition::Inconspicuous => (1, 1),
        SurfaceCondition::Slush => (13, 10),
        SurfaceCondition::Snow => (3, 2),
        SurfaceCondition::PowderSnow => (5, 4),
    };
    num = num * contamination_num;
    den = den * contamination_den;
    proof {
        lemma_round_half_away_bound(
            num as int,
            den as int,
            200_000_000_000int * 54_001 * 3 * 11 * 3 * 2,
        );
    }
    let rounded = div_round_half_away(num, den);
    Ok(rounded as i64)
}

/// Law: interpolating exactly at a table point returns that point's
/// rescaled value, with no error.  Stated as an equality of exact fractions:
/// the interpolated value `num / den` equals `column[j] * 5 / 6`.
pub proof fn lemma_interpolation_exact_at_table_point(masses: Seq<i64>, column: Seq<i64>, j: int)
    requires
        masses.len() >= 2,
        column.len() == masses.len(),
        strictly_ascending(masses),
        0 <= j < masses.len(),
    ensures
        base_distance_den(masses, masses[j]) > 0,
        base_distance_num(masses, column, masses[j]) * 6 == column[j] * 5 * base_distance_den(
            masses,
            masses[j],
        ),
{
    let mass = masses[j];
    let b = bracket(masses, mass) as int;
    lemma_bracket_props(masses, mass);
    let dm = masses[b + 1] - masses[b];
    let dc = column[b + 1] - column[b];
    if j <= masses.len() - 2 {
        assert(b == j);
        assert((column[j] * dm + (mass - masses[j]) * dc) * 5 * 6 == column[j] * 5 * (dm * 6))
            by (nonlinear_arith)
            requires
                mass == masses[j],
        ;
    } else {
        assert(b == masses.len() - 2);
        assert(mass == masses[b + 1]);
        assert((column[b] * dm + (mass - masses[b]) * dc) * 5 * 6 == column[b + 1] * 5 * (dm * 6))
            by (nonlinear_arith)
            requires
                mass - masses[b] == dm,
                dc == column[b + 1] - column[b],
        ;
    }
}

/// Law: for a mass strictly between two adjacent table points, the
/// interpolated and rescaled value lies between the two points' rescaled
/// values.  Stated over exact fractions: with `v = num / den` the
/// interpolated value and `lo`, `hi` the rescaled entries in order,
/// `lo <= v <= hi`.
pub proof fn lemma_interpolation_between_table_points(
    masses: Seq<i64>,
    column: Seq<i64>,
    mass: i64,
    j: int,
)
    requires
        masses.len() >= 2,
        column.len() == masses.len(),
        strictly_ascending(masses),
        0 <= j < masses.len() - 1,
        masses[j] < mass < masses[j + 1],
    ensures
        base_distance_den(masses, mass) > 0,
        column[j] <= column[j + 1] ==> column[j] * 5 * base_distance_den(masses, mass)
            <= base_distance_num(masses, column, mass) * 6 <= column[j + 1] * 5
            * base_distance_den(masses, mass),
        column[j + 1] <= column[j] ==> column[j + 1] * 5 * base_distance_den(masses, mass)
            <= base_distance_num(masses, column, mass) * 6 <= column[j] * 5 * base_distance_den(
            masses,
            mass,
        ),
{
    let b = bracket(masses, mass) as int;
    lemma_bracket_props(masses, mass);
    assert(masses[0] <= masses[j]);
    assert(mass <= masses[j + 1] && masses[j + 1] <= masses[masses.len() - 1]);
    if b < j {
        assert(masses[j] > mass);
        assert(false);
    }
    if b > j {
        assert(masses[b] >= masses[j + 1]);
        assert(false);
    }
    let dm = masses[j + 1] - masses[j];
    let dc = column[j + 1] - column[j];
    let t = mass - masses[j];
    assert((column[j] * dm + t * dc) * 5 * 6 - column[j] * 5 * (dm * 6) == 30 * (t * dc))
        by (nonlinear_arith);
    assert(column[j + 1] * 5 * (dm * 6) - (column[j] * dm + t * dc) * 5 * 6 == 30 * ((dm - t)
        * dc)) by (nonlinear_arith)
        requires
            dc == column[j + 1] - column[j],
    ;
    assert(dc >= 0 ==> t * dc >= 0 && (dm - t) * dc >= 0) by (nonlinear_arith)
        requires
            0 < t < dm,
    ;
    assert(dc <= 0 ==> t * dc <= 0 && (dm - t) * dc <= 0) by (nonlinear_arith)
        requires
            0 < t < dm,
    ;
}

/// What `calculate_takeoff_distance` returns, as a function of its inputs:
/// the validations in order (temperature, slope, mass), then the pair of
/// corrected column distances, with atmosphere failures wrapped.
pub open spec fn calculate_takeoff_distance_spec(
    engine: Engine,
    mass: i64,
    pressure_altitude: i64,
    temperature: i64,
    slope: i64,
    grass_surface: Option<GrassSurface>,
    surface_condition: SurfaceCondition,
) -> TakeoffResult {
    let masses = table_masses(engine);
    if temperature > MAX_TEMPERATURE {
        Err(TakeoffCalculationError::TemperatureTooHigh { max: MAX_TEMPERATURE, temperature })
    } else if temperature < MIN_TEMPERATURE {
        Err(TakeoffCalculationError::TemperatureTooLow { min: MIN_TEMPERATURE, temperature })
    } else if slope > MAX_SLOPE || slope < -MAX_SLOPE {
        Err(TakeoffCalculationError::SlopeTooSteep { max: MAX_SLOPE, slope })
    } else if mass < masses[0] {
        Err(TakeoffCalculationError::MassTooLow { min: masses[0], mass })
    } else if mass > masses[masses.len() - 1] {
        Err(TakeoffCalculationError::MassTooHigh { max: masses[masses.len() - 1], mass })
    } else {
        match temperature_deviation_for_correction_spec(pressure_altitude, temperature) {
            Ok(deviation) => Ok(
                (
                    column_distance(
                        masses,
                        table_takeoff_runs(engine),
                        mass,
                        pressure_altitude,
                        deviation as int,
                        slope,
                        grass_surface,
                        surface_condition,
                    ),
                    column_distance(
                        masses,
                        table_to_50_feet(engine),
                        mass,
                        pressure_altitude,
                        deviation as int,
                        slope,
                        grass_surface,
                        surface_condition,
                    ),
                ),
            ),
            Err(e) => Err(e),
        }
    }
}

/// One output column: the interpolated, rescaled baseline run through the
/// correction chain and rounded to whole hundredths of a meter.
pub open spec fn column_distance(
    masses: Seq<i64>,
    column: Seq<i64>,
    mass: i64,
    pressure_altitude: i64,
    deviation: int,
    slope: i64,
    grass_surface: Option<GrassSurface>,
    surface_condition: SurfaceCondition,
) -> i64 {
    round_half_away(
        corrected_num(
            base_distance_num(masses, column, mass),
            pressure_altitude,
            deviation,
            slope,
            grass_surface,
            surface_condition,
        ),
        corrected_den(base_distance_den(masses, mass), grass_surface, surface_condition),
    ) as i64
}

/// Takeoff distances for the FK9 Mk VI: ground roll and distance to clear a
/// 50 ft obstacle, both in hundredths of a meter, for the given engine, mass
/// (hundredths of a kilogram), pressure altitude (hundredths of a foot),
/// runway temperature (hundredths of a degree Celsius), slope (hundredths of
/// a percent), grass condition and surface contamination.
///
/// Validation order: temperature within [-90 °C, 70 °C], slope magnitude at
/// most 25 %, mass within the engine's table envelope; then the atmosphere
/// must define the pressure altitude.  The first failing check decides the
/// error.
///
/// The altitude bound admits pressure altitudes far beyond the atmosphere's
/// envelope (which ends near 262 500 ft); it only keeps the exact conversion
/// to millionths of a meter within machine integers.
pub fn calculate_takeoff_distance(
    engine: Engine,
    mass: i64,
    pressure_altitude: i64,
    temperature: i64,
    slope: i64,
    grass_surface: Option<GrassSurface>,
    surface_condition: SurfaceCondition,
) -> (r: TakeoffResult)
    requires
        -30_000_000_000 <= pressure_altitude <= 30_000_000_000,
    ensures
        r == calculate_takeoff_distance_spec(
            engine,
            mass,
            pressure_altitude,
            temperature,
            slope,
            grass_surface,
            surface_condition,
        ),
        temperature > MAX_TEMPERATURE ==> r == Err::<(i64, i64), TakeoffCalculationError>(
            TakeoffCalculationError::TemperatureTooHigh { max: MAX_TEMPERATURE, temperature },
        ),
        temperature < MIN_TEMPERATURE ==> r == Err::<(i64, i64), TakeoffCalculationError>(
            TakeoffCalculationError::TemperatureTooLow { min: MIN_TEMPERATURE, temperature },
        ),
        MIN_TEMPERATURE <= temperature <= MAX_TEMPERATURE && (slope > MAX_SLOPE || slope
            < -MAX_SLOPE) ==> r == Err::<(i64, i64), TakeoffCalculationError>(
            TakeoffCalculationError::SlopeTooSteep { max: MAX_SLOPE, slope },
        ),
        MIN_TEMPERATURE <= temperature <= MAX_TEMPERATURE && -MAX_SLOPE <= slope <= MAX_SLOPE
            && mass < table_masses(engine)[0] ==> r == Err::<(i64, i64), TakeoffCalculationError>(
            TakeoffCalculationError::MassTooLow { min: table_masses(engine)[0], mass },
        ),
        MIN_TEMPERATURE <= temperature <= MAX_TEMPERATURE && -MAX_SLOPE <= slope <= MAX_SLOPE
            && mass > table_masses(engine)[table_masses(engine).len() - 1] ==> r
            == Err::<(i64, i64), TakeoffCalculationError>(
            TakeoffCalculationError::MassTooHigh {
                max: table_masses(engine)[table_masses(engine).len() - 1],
                mass,
            },
        ),
        MIN_TEMPERATURE <= temperature <= MAX_TEMPERATURE && -MAX_SLOPE <= slope <= MAX_SLOPE
            && table_masses(engine)[0] <= mass <= table_masses(engine)[table_masses(engine).len()
            - 1] && pressure_altitude * 3048 < meteorology::MIN_PRESSURE_ALTITUDE ==> r
            == Err::<(i64, i64), TakeoffCalculationError>(
            TakeoffCalculationError::InvalidPressureAltitude {
                source: UndefinedPressureAltitudeError::BelowMinimum {
                    min: meteorology::MIN_PRESSURE_ALTITUDE,
                    pressure_altitude: (pressure_altitude * 3048) as i64,
                },
            },
        ),
        MIN_TEMPERATURE <= temperature <= MAX_TEMPERATURE && -MAX_SLOPE <= slope <= MAX_SLOPE
            && table_masses(engine)[0] <= mass <= table_masses(engine)[table_masses(engine).len()
            - 1] && pressure_altitude * 3048 > meteorology::MAX_PRESSURE_ALTITUDE ==> r
            == Err::<(i64, i64), TakeoffCalculationError>(
            TakeoffCalculationError::InvalidPressureAltitude {
                source: UndefinedPressureAltitudeError::AboveMaximum {
                    max: meteorology::MAX_PRESSURE_ALTITUDE,
                    pressure_altitude: (pressure_altitude * 3048) as i64,
                },
            },
        ),
        r is Ok <==> MIN_TEMPERATURE <= temperature <= MAX_TEMPERATURE && -MAX_SLOPE <= slope
            <= MAX_SLOPE && table_masses(engine)[0] <= mass <= table_masses(engine)[table_masses(
            engine,
        ).len() - 1] && meteorology::MIN_PRESSURE_ALTITUDE <= pressure_altitude * 3048
            <= meteorology::MAX_PRESSURE_ALTITUDE,
{
    proof {
        lemma_tables_well_formed(engine);
    }
    if temperature > MAX_TEMPERATURE {
        return Err(
            TakeoffCalculationError::TemperatureTooHigh { max: MAX_TEMPERATURE, temperature },
        );
    }
    if temperature < MIN_TEMPERATURE {
        return Err(
            TakeoffCalculationError::TemperatureTooLow { min: MIN_TEMPERATURE, temperature },
        );
    }
    if slope > MAX_SLOPE || slope < -MAX_SLOPE {
        return Err(TakeoffCalculationError::SlopeTooSteep { max: MAX_SLOPE, slope });
    }
    let table = takeoff_distances_by_engine(engine);
    let min = table.mass[0];
    let max = table.mass[table.mass.len() - 1];
    if mass < min {
        return Err(TakeoffCalculationError::MassTooLow { min, mass });
    }
    if mass > max {
        return Err(TakeoffCalculationError::MassTooHigh { max, mass });
    }
    let base_run = calculate_base_distance(mass, &table.mass, &table.takeoff_run);
    let run = match apply_corrections(
        base_run,
        pressure_altitude,
        temperature,
        slope,
        grass_surface,
        surface_condition,
    ) {
        Ok(d) => d,
        Err(e) => {
            return Err(e);
        },
    };
    let base_to_50 = calculate_base_distance(mass, &table.mass, &table.to_50_feet);
    let to_50 = match apply_corrections(
        base_to_50,
        pressure_altitude,
        temperature,
        slope,
        grass_surface,
        surface_condition,
    ) {
        Ok(d) => d,
        Err(e) => {
            return Err(e);
        },
    };
    Ok((run, to_50))
}

/// Law: the takeoff calculation is a pure function of its inputs.  Any two
/// results obtained from identical inputs are identical, bit for bit: both
/// equal the one value `calculate_takeoff_distance_spec` assigns to those
/// inputs.
pub proof fn lemma_takeoff_calculation_deterministic(
    first: TakeoffResult,
    second: TakeoffResult,
    engine: Engine,
    mass: i64,
    pressure_altitude: i64,
    temperature: i64,
    slope: i64,
    grass_surface: Option<GrassSurface>,
    surface_condition: SurfaceCondition,
)
    requires
        first == calculate_takeoff_distance_spec(
            engine,
            mass,
            pressure_altitude,
            temperature,
            slope,
            grass_surface,
            surface_condition,
        ),
        second == calculate_takeoff_distance_spec(
            engine,
            mass,
            pressure_altitude,
            temperature,
            slope,
            grass_surface,
            surface_condition,
        ),
    ensures
        first == second,
{
}

} // verus!

