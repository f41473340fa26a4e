//! Takeoff calculation tests: masses in hundredths of a kilogram, pressure
//! altitudes in hundredths of a foot, temperatures in hundredths of a degree
//! Celsius, slopes in hundredths of a percent, distances in hundredths of a
//! meter.

use aviation_calculator::fk9::{
    apply_corrections, apply_pressure_altitude_correction, apply_temperature_correction,
    calculate_takeoff_distance, calculate_temperature_deviation_for_correction, Engine,
    ExactDistance, GrassSurface, SurfaceCondition, TakeoffCalculationError,
};

#[test]
fn uls_472_weight_too_low() {
    let result = calculate_takeoff_distance(
        Engine::Rotax912Uls,
        47200,
        0,
        1500,
        0,
        Some(GrassSurface::default()),
        SurfaceCondition::Inconspicuous,
    );
    assert!(result.is_err());
    assert_eq!(
        "Mass 472 kg is below the minimum available data (472.5 kg)",
        result.unwrap_err().message()
    );
}

#[test]
fn uls_472_weight_too_high() {
    let result = calculate_takeoff_distance(
        Engine::Rotax912Uls,
        60010,
        0,
        1500,
        0,
        Some(GrassSurface::default()),
        SurfaceCondition::Inconspicuous,
    );
    assert!(result.is_err());
    assert_eq!(
        "Mass 600.1 kg is above the maximum available data (600 kg)",
        result.unwrap_err().message()
    );
}

#[test]
fn uls_472_pressure_altitude_too_low() {
    let result = calculate_takeoff_distance(
        Engine::Rotax912Uls,
        52000,
        -500000,
        1500,
        0,
        Some(GrassSurface::default()),
        SurfaceCondition::Inconspicuous,
    );
    assert!(result.is_err());
    assert_eq!(
        "The given pressure altitude is not defined by the ICAO standard atmosphere: The pressure altitude -1524 m is below the minimum defined (-1000 m) in the ICAO Standard Atmosphere",
        result.unwrap_err().message()
    );
}

#[test]
fn uls_472_negative_pressure_altitude() {
    let result = calculate_takeoff_distance(
        Engine::Rotax912Uls,
        47250,
        -50,
        1500,
        0,
        Some(GrassSurface::default()),
        SurfaceCondition::Inconspicuous,
    );
    assert_eq!(result.unwrap(), (10000, 22500));
}

#[test]
fn uls_472() {
    let result = calculate_takeoff_distance(
        Engine::Rotax912Uls,
        47250,
        0,
        1500,
        0,
        Some(GrassSurface::default()),
        SurfaceCondition::Inconspicuous,
    );
    assert_eq!(result.unwrap(), (10000, 22500));
}

#[test]
fn uls_472_slush() {
    let result = calculate_takeoff_distance(
        Engine::Rotax912Uls,
        47250,
        0,
        1500,
        0,
        Some(GrassSurface::default()),
        SurfaceCondition::Slush,
    );
    assert_eq!(result.unwrap(), (13000, 29250));
}

#[test]
fn uls_472_snow() {
    let result = calculate_takeoff_distance(
        Engine::Rotax912Uls,
        47250,
        0,
        1500,
        0,
        Some(GrassSurface::default()),
        SurfaceCondition::Snow,
    );
    assert_eq!(result.unwrap(), (15000, 33750));
}

#[test]
fn uls_472_powder_snow() {
    let result = calculate_takeoff_distance(
        Engine::Rotax912Uls,
        47250,
        0,
        1500,
        0,
        Some(GrassSurface::default()),
        SurfaceCondition::PowderSnow,
    );
    assert_eq!(result.unwrap(), (12500, 28125));
}

#[test]
fn ul_472() {
    let result = calculate_takeoff_distance(
        Engine::Rotax912Ul,
        47250,
        0,
        1500,
        0,
        Some(GrassSurface::default()),
        SurfaceCondition::Inconspicuous,
    );
    assert_eq!(result.unwrap(), (10600, 26500));
}

#[test]
fn uls_472_temp() {
    let result = calculate_takeoff_distance(
        Engine::Rotax912Uls,
        47250,
        0,
        1500,
        0,
        Some(GrassSurface::default()),
        SurfaceCondition::Inconspicuous,
    );
    assert_eq!(result.unwrap(), (10000, 22500));
}

#[test]
fn uls_472_pressure() {
    let result = calculate_takeoff_distance(
        Engine::Rotax912Uls,
        47250,
        300000,
        1500,
        0,
        Some(GrassSurface::default()),
        SurfaceCondition::Inconspicuous,
    );
    assert_eq!(result.unwrap(), (14726, 33133));
}

#[test]
fn uls_472_pressure2() {
    let result = calculate_takeoff_distance(
        Engine::Rotax912Uls,
        47250,
        320050,
        1500,
        0,
        Some(GrassSurface::default()),
        SurfaceCondition::Inconspicuous,
    );
    assert_eq!(result.unwrap(), (16760, 37710));
}

#[test]
fn uls_525() {
    let result = calculate_takeoff_distance(
        Engine::Rotax912Uls,
        52500,
        0,
        1500,
        0,
        Some(GrassSurface::default()),
        SurfaceCondition::Inconspicuous,
    );
    assert_eq!(result.unwrap(), (12800, 32000));
}

#[test]
fn uls_525_temp() {
    let result = calculate_takeoff_distance(
        Engine::Rotax912Uls,
        52500,
        0,
        300,
        0,
        Some(GrassSurface::default()),
        SurfaceCondition::Inconspicuous,
    );
    assert_eq!(result.unwrap(), (11264, 28160));
}

#[test]
fn uls_525_slope() {
    let result = calculate_takeoff_distance(
        Engine::Rotax912Uls,
        52500,
        0,
        1500,
        -220,
        Some(GrassSurface::default()),
        SurfaceCondition::Inconspicuous,
    );
    assert_eq!(result.unwrap(), (9984, 24960));
}

#[test]
fn uls_550() {
    let result = calculate_takeoff_distance(
        Engine::Rotax912Uls,
        55000,
        0,
        1500,
        0,
        Some(GrassSurface::default()),
        SurfaceCondition::Inconspicuous,
    );
    assert_eq!(result.unwrap(), (13767, 34267));
}

#[test]
fn uls_600() {
    let result = calculate_takeoff_distance(
        Engine::Rotax912Uls,
        60000,
        0,
        1500,
        0,
        Some(GrassSurface::default()),
        SurfaceCondition::Inconspicuous,
    );
    assert_eq!(result.unwrap(), (15300, 37500));
}

#[test]
fn uls_600_wet() {
    let result = calculate_takeoff_distance(
        Engine::Rotax912Uls,
        60000,
        0,
        1500,
        0,
        Some(GrassSurface { wet: true, ..GrassSurface::default() }),
        SurfaceCondition::Inconspicuous,
    );
    assert_eq!(result.unwrap(), (16830, 41250));
}

#[test]
fn uls_600_wet_and_soft() {
    let result = calculate_takeoff_distance(
        Engine::Rotax912Uls,
        60000,
        0,
        1500,
        0,
        Some(GrassSurface { wet: true, soft_ground: true, damaged_turf: false, high_grass: false }),
        SurfaceCondition::Inconspicuous,
    );
    assert_eq!(result.unwrap(), (25245, 61875));
}

#[test]
fn uls_600_combined() {
    let result = calculate_takeoff_distance(
        Engine::Rotax912Uls,
        60000,
        200050,
        -200,
        300,
        Some(GrassSurface { wet: true, soft_ground: true, damaged_turf: true, high_grass: true }),
        SurfaceCondition::Inconspicuous,
    );
    assert_eq!(result.unwrap(), (48560, 119020));
}

#[test]
fn uls_600_max_pressure_altitude() {
    let result = calculate_takeoff_distance(
        Engine::Rotax912Uls,
        60000,
        26246710,
        1500,
        0,
        Some(GrassSurface::default()),
        SurfaceCondition::Inconspicuous,
    );
    assert_eq!(result.unwrap(), (1177324, 2885599));
}

#[test]
fn uls_600_above_max_pressure_altitude() {
    let result = calculate_takeoff_distance(
        Engine::Rotax912Uls,
        60000,
        26246720,
        1500,
        0,
        Some(GrassSurface::default()),
        SurfaceCondition::Inconspicuous,
    );
    assert!(result.is_err());
}

#[test]
fn uls_600_min_pressure_altitude() {
    let result = calculate_takeoff_distance(
        Engine::Rotax912Uls,
        60000,
        -328080,
        1500,
        0,
        Some(GrassSurface::default()),
        SurfaceCondition::Inconspicuous,
    );
    // The exact ground roll here is 143.055 m: a half, rounded away from zero.
    assert_eq!(result.unwrap(), (14306, 35063));
}

#[test]
fn uls_600_below_min_pressure_altitude() {
    let result = calculate_takeoff_distance(
        Engine::Rotax912Uls,
        60000,
        -328090,
        1500,
        0,
        Some(GrassSurface::default()),
        SurfaceCondition::Inconspicuous,
    );
    assert!(result.is_err());
}

#[test]
fn uls_600_min_temperature() {
    let result = calculate_takeoff_distance(
        Engine::Rotax912Uls,
        60000,
        0,
        -9000,
        0,
        Some(GrassSurface::default()),
        SurfaceCondition::Inconspicuous,
    );
    assert_eq!(result.unwrap(), (13005, 31875));
}

#[test]
fn uls_600_below_min_temperature() {
    let result = calculate_takeoff_distance(
        Engine::Rotax912Uls,
        60000,
        0,
        -9010,
        0,
        Some(GrassSurface::default()),
        SurfaceCondition::Inconspicuous,
    );
    assert!(result.is_err());
}

#[test]
fn uls_600_max_temperature() {
    let result = calculate_takeoff_distance(
        Engine::Rotax912Uls,
        60000,
        0,
        7000,
        0,
        Some(GrassSurface::default()),
        SurfaceCondition::Inconspicuous,
    );
    assert_eq!(result.unwrap(), (23715, 58125));
}

#[test]
fn uls_600_above_max_temperature() {
    let result = calculate_takeoff_distance(
        Engine::Rotax912Uls,
        60000,
        0,
        7010,
        0,
        Some(GrassSurface::default()),
        SurfaceCondition::Inconspicuous,
    );
    assert!(result.is_err());
}

#[test]
fn uls_600_above_max_negative_slope() {
    let result = calculate_takeoff_distance(
        Engine::Rotax912Uls,
        60000,
        0,
        1300,
        -2510,
        Some(GrassSurface::default()),
        SurfaceCondition::Inconspicuous,
    );
    assert!(result.is_err());
}

#[test]
fn uls_600_above_max_slope() {
    let result = calculate_takeoff_distance(
        Engine::Rotax912Uls,
        60000,
        0,
        1300,
        2510,
        Some(GrassSurface::default()),
        SurfaceCondition::Inconspicuous,
    );
    assert!(result.is_err());
}

#[test]
fn apply_corrections_fsm75_3_example1() {
    let result = apply_corrections(
        ExactDistance::from_hundredths(31600),
        60000,
        -300,
        0,
        None,
        SurfaceCondition::Snow,
    );
    assert_eq!(result.unwrap(), 43305);
}

#[test]
fn apply_corrections_fsm75_3_example2() {
    let result = apply_corrections(
        ExactDistance::from_hundredths(46500),
        200000,
        100,
        0,
        Some(GrassSurface { wet: true, soft_ground: false, damaged_turf: false, high_grass: false }),
        SurfaceCondition::Slush,
    );
    assert_eq!(result.unwrap(), 90446);
}

#[test]
fn apply_corrections_fsm75_3_example3() {
    let result = apply_corrections(
        ExactDistance::from_hundredths(46500),
        115000,
        3500,
        0,
        None,
        SurfaceCondition::Inconspicuous,
    );
    assert_eq!(result.unwrap(), 65361);
}

#[test]
fn apply_corrections_fsm75_3_example4() {
    let result = apply_corrections(
        ExactDistance::from_hundredths(46500),
        60000,
        2800,
        0,
        Some(GrassSurface { wet: true, soft_ground: false, damaged_turf: false, high_grass: false }),
        SurfaceCondition::Slush,
    );
    assert_eq!(result.unwrap(), 96584);
}

#[test]
fn pressure_altitude() {
    let result = apply_pressure_altitude_correction(ExactDistance::from_hundredths(46500), 200000);
    assert!(result.equals_hundredths(58590));
}

#[test]
fn temperature_deviation_below_zero() {
    let result1 = calculate_temperature_deviation_for_correction(20000, -300);
    let result2 = calculate_temperature_deviation_for_correction(20000, 0);
    assert_eq!(result1.unwrap(), result2.unwrap());
}

#[test]
fn temperature_deviation_fsm_75_3_example1() {
    let result = calculate_temperature_deviation_for_correction(60000, -300);
    assert_eq!(
        result.unwrap(),
        -1381,
        "Temperature deviation does not comply with example 1 of FSM 3/75, expected to be ~-14°C"
    );
}

#[test]
fn temperature_deviation_fsm_75_3_example2() {
    let result = calculate_temperature_deviation_for_correction(200000, 100);
    assert_eq!(
        result.unwrap(),
        -1004,
        "Temperature deviation does not comply with example 2 of FSM 3/75, expected to be ~-10°C"
    );
}

#[test]
fn temperature_deviation_fsm_75_3_example3() {
    let result = calculate_temperature_deviation_for_correction(115000, 3500);
    assert_eq!(
        result.unwrap(),
        2228,
        "Temperature deviation does not comply with example 3 of FSM 3/75, expected to be ~22°C"
    );
}

#[test]
fn temperature_deviation_fsm_75_3_example4() {
    let result = calculate_temperature_deviation_for_correction(60000, 2800);
    assert_eq!(
        result.unwrap(),
        1419,
        "Temperature deviation does not comply with example 4 of FSM 3/75, expected to be ~14°C"
    );
}

#[test]
fn apply_temperature_correction_negative() {
    let result = apply_temperature_correction(ExactDistance::from_hundredths(12000), -1000);
    assert!(result.equals_hundredths(10800));
}

#[test]
fn apply_temperature_correction_neutral() {
    let result = apply_temperature_correction(ExactDistance::from_hundredths(12000), 0);
    assert!(result.equals_hundredths(12000));
}

#[test]
fn apply_temperature_correction_positive() {
    let result = apply_temperature_correction(ExactDistance::from_hundredths(12000), 1000);
    assert!(result.equals_hundredths(13200));
}

#[test]
fn uls_boundary_masses_succeed() {
    let low = calculate_takeoff_distance(
        Engine::Rotax912Uls,
        47250,
        0,
        1500,
        0,
        None,
        SurfaceCondition::Inconspicuous,
    );
    assert_eq!(low.unwrap(), (8333, 18750));
    let high = calculate_takeoff_distance(
        Engine::Rotax912Uls,
        60000,
        0,
        1500,
        0,
        None,
        SurfaceCondition::Inconspicuous,
    );
    assert_eq!(high.unwrap(), (12750, 31250));
}

#[test]
fn uls_boundary_slopes_succeed() {
    let up = calculate_takeoff_distance(
        Engine::Rotax912Uls,
        60000,
        0,
        1500,
        2500,
        Some(GrassSurface::default()),
        SurfaceCondition::Inconspicuous,
    );
    assert_eq!(up.unwrap(), (53550, 131250));
    let down = calculate_takeoff_distance(
        Engine::Rotax912Uls,
        60000,
        0,
        1500,
        -2500,
        Some(GrassSurface::default()),
        SurfaceCondition::Inconspicuous,
    );
    assert_eq!(down.unwrap(), (-22950, -56250));
}

#[test]
fn interpolated_mass_lies_between_table_points() {
    let below = calculate_takeoff_distance(
        Engine::Rotax912Uls,
        52500,
        0,
        1500,
        0,
        None,
        SurfaceCondition::Inconspicuous,
    )
    .unwrap();
    let between = calculate_takeoff_distance(
        Engine::Rotax912Uls,
        55000,
        0,
        1500,
        0,
        None,
        SurfaceCondition::Inconspicuous,
    )
    .unwrap();
    let above = calculate_takeoff_distance(
        Engine::Rotax912Uls,
        60000,
        0,
        1500,
        0,
        None,
        SurfaceCondition::Inconspicuous,
    )
    .unwrap();
    assert_eq!(between, (11472, 28556));
    assert!(below.0 <= between.0 && between.0 <= above.0);
    assert!(below.1 <= between.1 && between.1 <= above.1);
}

#[test]
fn error_values_carry_exact_bounds() {
    let temperature_high = calculate_takeoff_distance(
        Engine::Rotax912Uls,
        60000,
        0,
        7010,
        0,
        None,
        SurfaceCondition::Inconspicuous,
    );
    assert_eq!(
        temperature_high.unwrap_err(),
        TakeoffCalculationError::TemperatureTooHigh { max: 7000, temperature: 7010 }
    );
    let temperature_low = calculate_takeoff_distance(
        Engine::Rotax912Uls,
        60000,
        0,
        -9010,
        0,
        None,
        SurfaceCondition::Inconspicuous,
    );
    assert_eq!(
        temperature_low.unwrap_err(),
        TakeoffCalculationError::TemperatureTooLow { min: -9000, temperature: -9010 }
    );
    let slope = calculate_takeoff_distance(
        Engine::Rotax912Uls,
        60000,
        0,
        1500,
        -2510,
        None,
        SurfaceCondition::Inconspicuous,
    );
    assert_eq!(
        slope.unwrap_err(),
        TakeoffCalculationError::SlopeTooSteep { max: 2500, slope: -2510 }
    );
    let mass_low = calculate_takeoff_distance(
        Engine::Rotax912Uls,
        47200,
        0,
        1500,
        0,
        None,
        SurfaceCondition::Inconspicuous,
    );
    assert_eq!(
        mass_low.unwrap_err(),
        TakeoffCalculationError::MassTooLow { min: 47250, mass: 47200 }
    );
    let mass_high = calculate_takeoff_distance(
        Engine::Rotax912Uls,
        60010,
        0,
        1500,
        0,
        None,
        SurfaceCondition::Inconspicuous,
    );
    assert_eq!(
        mass_high.unwrap_err(),
        TakeoffCalculationError::MassTooHigh { max: 60000, mass: 60010 }
    );
}

#[test]
fn slope_error_message_text() {
    let result = calculate_takeoff_distance(
        Engine::Rotax912Uls,
        60000,
        0,
        1500,
        2510,
        None,
        SurfaceCondition::Inconspicuous,
    );
    assert_eq!(
        "Slope 25.1 % is is too steep to provide sensible data (Maximum 25 %)",
        result.unwrap_err().message()
    );
}

#[test]
fn repeated_calls_are_identical() {
    let first = calculate_takeoff_distance(
        Engine::Rotax912Uls,
        55000,
        200050,
        2100,
        -120,
        Some(GrassSurface { wet: true, soft_ground: false, damaged_turf: true, high_grass: false }),
        SurfaceCondition::Slush,
    );
    let second = calculate_takeoff_distance(
        Engine::Rotax912Uls,
        55000,
        200050,
        2100,
        -120,
        Some(GrassSurface { wet: true, soft_ground: false, damaged_turf: true, high_grass: false }),
        SurfaceCondition::Slush,
    );
    assert_eq!(first, second);
}
