//! Tests of the older atmosphere interface: elevations in millionths of a
//! meter, temperatures in hundredths of a degree Celsius.

use aviation_calculator::meterology::icao_temperature_by_elevation;

#[test]
fn meterology_isa_temperature_out_or_range_negative() {
    let result = icao_temperature_by_elevation(-1_000_010_000);
    assert!(result.is_err());
}

#[test]
fn meterology_isa_temperature_negative_1000() {
    let result = icao_temperature_by_elevation(-1_000_000_000);
    assert_eq!(result.unwrap(), 2150);
}

#[test]
fn meterology_isa_temperature_0() {
    let result = icao_temperature_by_elevation(0);
    assert_eq!(result.unwrap(), 1500);
}

#[test]
fn meterology_isa_temperature_113() {
    let result = icao_temperature_by_elevation(113_700_000);
    assert_eq!(result.unwrap(), 1426);
}

#[test]
fn meterology_isa_temperature_1000() {
    let result = icao_temperature_by_elevation(1_000_000_000);
    assert_eq!(result.unwrap(), 850);
}

#[test]
fn meterology_isa_temperature_2000() {
    let result = icao_temperature_by_elevation(2_000_000_000);
    assert_eq!(result.unwrap(), 200);
}

#[test]
fn meterology_isa_temperature_3000() {
    let result = icao_temperature_by_elevation(3_000_000_000);
    assert_eq!(result.unwrap(), -450);
}

#[test]
fn meterology_isa_temperature_5000() {
    let result = icao_temperature_by_elevation(5_000_000_000);
    assert_eq!(result.unwrap(), -1750);
}

#[test]
fn meterology_isa_temperature_7000() {
    let result = icao_temperature_by_elevation(7_000_000_000);
    assert_eq!(result.unwrap(), -3050);
}

#[test]
fn meterology_isa_temperature_9000() {
    let result = icao_temperature_by_elevation(9_000_000_000);
    assert_eq!(result.unwrap(), -4350);
}

#[test]
fn meterology_isa_temperature_11000() {
    let result = icao_temperature_by_elevation(11_000_000_000);
    assert_eq!(result.unwrap(), -5650);
}

#[test]
fn meterology_isa_temperature_13000() {
    let result = icao_temperature_by_elevation(13_000_000_000);
    assert_eq!(result.unwrap(), -5650);
}

#[test]
fn meterology_isa_temperature_20000() {
    let result = icao_temperature_by_elevation(20_000_000_000);
    assert_eq!(result.unwrap(), -5650);
}

#[test]
fn meterology_isa_temperature_25000() {
    let result = icao_temperature_by_elevation(25_000_000_000);
    assert_eq!(result.unwrap(), -6150);
}

#[test]
fn meterology_isa_temperature_32000() {
    let result = icao_temperature_by_elevation(32_000_000_000);
    assert_eq!(result.unwrap(), -4450);
}

#[test]
fn meterology_isa_temperature_80000() {
    let result = icao_temperature_by_elevation(80_000_000_000);
    assert_eq!(result.unwrap(), -4450);
}

#[test]
fn meterology_isa_temperature_out_of_range_positive() {
    let result = icao_temperature_by_elevation(80_000_010_000);
    assert!(result.is_err());
}

#[test]
fn meterology_error_messages() {
    let below = icao_temperature_by_elevation(-1_000_010_000);
    assert_eq!(
        "The ICAO standard atmosphere below -1 kilometer (-3,280 feet) is not defined.",
        below.unwrap_err().message()
    );
    let above = icao_temperature_by_elevation(80_000_010_000);
    assert_eq!(
        "The ICAO standard atmosphere above 80 kilometers (262,500 feet) is not defined.",
        above.unwrap_err().message()
    );
}
