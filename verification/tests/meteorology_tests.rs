//! Atmosphere model tests: altitudes in millionths of a meter, temperatures
//! in hundredths of a degree Celsius, QNH in hundredths of a hectopascal,
//! pressure altitudes out of the barometric formula in hundredths of a
//! meter.

use aviation_calculator::meteorology::{
    calculate_temperature_deviation, icao_temperature, pressure_altitude_by_qnh,
    UndefinedPressureAltitudeError,
};

#[test]
fn meteorology_pressure_altitude_example_1() {
    let result = pressure_altitude_by_qnh(102100, 113_000_000);
    assert_eq!(result, 4871);
}

#[test]
fn meteorology_pressure_altitude_example_2() {
    let result = pressure_altitude_by_qnh(101325, 113_000_000);
    assert_eq!(result, 11300);
}

#[test]
fn meteorology_pressure_altitude_example_3() {
    let result = pressure_altitude_by_qnh(102100, 113_000_000);
    assert_eq!(result, 4871);
}

#[test]
fn meteorology_isa_temperature_out_or_range_negative() {
    let result = icao_temperature(-1_000_010_000);
    assert!(result.is_err());
}

#[test]
fn meteorology_isa_temperature_negative_1000() {
    let result = icao_temperature(-1_000_000_000);
    assert_eq!(result.unwrap(), 2150);
}

#[test]
fn meteorology_isa_temperature_0() {
    let result = icao_temperature(0);
    assert_eq!(result.unwrap(), 1500);
}

#[test]
fn meteorology_isa_temperature_113() {
    let result = icao_temperature(113_700_000);
    assert_eq!(result.unwrap(), 1426);
}

#[test]
fn meteorology_isa_temperature_1000() {
    let result = icao_temperature(1_000_000_000);
    assert_eq!(result.unwrap(), 850);
}

#[test]
fn meteorology_isa_temperature_2000() {
    let result = icao_temperature(2_000_000_000);
    assert_eq!(result.unwrap(), 200);
}

#[test]
fn meteorology_isa_temperature_3000() {
    let result = icao_temperature(3_000_000_000);
    assert_eq!(result.unwrap(), -450);
}

#[test]
fn meteorology_isa_temperature_5000() {
    let result = icao_temperature(5_000_000_000);
    assert_eq!(result.unwrap(), -1750);
}

#[test]
fn meteorology_isa_temperature_7000() {
    let result = icao_temperature(7_000_000_000);
    assert_eq!(result.unwrap(), -3050);
}

#[test]
fn meteorology_isa_temperature_9000() {
    let result = icao_temperature(9_000_000_000);
    assert_eq!(result.unwrap(), -4350);
}

#[test]
fn meteorology_isa_temperature_11000() {
    let result = icao_temperature(11_000_000_000);
    assert_eq!(result.unwrap(), -5650);
}

#[test]
fn meteorology_isa_temperature_13000() {
    let result = icao_temperature(13_000_000_000);
    assert_eq!(result.unwrap(), -5650);
}

#[test]
fn meteorology_isa_temperature_20000() {
    let result = icao_temperature(20_000_000_000);
    assert_eq!(result.unwrap(), -5650);
}

#[test]
fn meteorology_isa_temperature_25000() {
    let result = icao_temperature(25_000_000_000);
    assert_eq!(result.unwrap(), -6150);
}

#[test]
fn meteorology_isa_temperature_32000() {
    let result = icao_temperature(32_000_000_000);
    assert_eq!(result.unwrap(), -4450);
}

#[test]
fn meteorology_isa_temperature_80000() {
    let result = icao_temperature(80_000_000_000);
    assert_eq!(result.unwrap(), -4450);
}

#[test]
fn meteorology_isa_temperature_out_of_range_positive() {
    let result = icao_temperature(80_000_010_000);
    assert!(result.is_err());
}

#[test]
fn fsm75_3_example1() {
    let result = icao_temperature(182_880_000);
    assert_eq!(result.unwrap(), 1381);
}

#[test]
fn fsm75_3_example2() {
    let result = icao_temperature(609_600_000);
    assert_eq!(result.unwrap(), 1104);
}

#[test]
fn fsm75_3_example3() {
    let result = icao_temperature(350_520_000);
    assert_eq!(result.unwrap(), 1272);
}

#[test]
fn temperature_deviation_msl() {
    let result = calculate_temperature_deviation(0, 1500);
    assert_eq!(result.unwrap(), 0);
}

#[test]
fn temperature_deviation_positive() {
    let result = calculate_temperature_deviation(0, 1600);
    assert_eq!(result.unwrap(), 100);
}

#[test]
fn temperature_deviation_negative() {
    let result = calculate_temperature_deviation(0, 1400);
    assert_eq!(result.unwrap(), -100);
}

#[test]
fn temperature_deviation_below_msl() {
    let result = calculate_temperature_deviation(-200_000_000, 1500);
    assert_eq!(result.unwrap(), -130);
}

#[test]
fn temperature_deviation_above_msl() {
    let result = calculate_temperature_deviation(200_000_000, 1500);
    assert_eq!(result.unwrap(), 130);
}

#[test]
fn atmosphere_error_values_carry_exact_bounds() {
    let below = icao_temperature(-1_000_000_001);
    assert_eq!(
        below.unwrap_err(),
        UndefinedPressureAltitudeError::BelowMinimum {
            min: -1_000_000_000,
            pressure_altitude: -1_000_000_001,
        }
    );
    let above = icao_temperature(80_000_000_001);
    assert_eq!(
        above.unwrap_err(),
        UndefinedPressureAltitudeError::AboveMaximum {
            max: 80_000_000_000,
            pressure_altitude: 80_000_000_001,
        }
    );
}

#[test]
fn above_maximum_message_text() {
    let result = icao_temperature(80_000_010_000);
    assert_eq!(
        "The pressure altitude 80000.01 m is above the maximum defined (80000 m) in the ICAO Standard Atmosphere",
        result.unwrap_err().message()
    );
}

#[test]
fn qnh_identity_holds_for_any_elevation() {
    assert_eq!(pressure_altitude_by_qnh(101325, 123_456_789), 12346);
    assert_eq!(pressure_altitude_by_qnh(101325, -987_654_321), -98765);
    assert_eq!(pressure_altitude_by_qnh(101325, 0), 0);
}

#[test]
fn deviation_propagates_range_error() {
    let result = calculate_temperature_deviation(-1_000_000_001, 1500);
    assert_eq!(
        result.unwrap_err(),
        UndefinedPressureAltitudeError::BelowMinimum {
            min: -1_000_000_000,
            pressure_altitude: -1_000_000_001,
        }
    );
}
