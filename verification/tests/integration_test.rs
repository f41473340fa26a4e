//! End-to-end calculations on real airfields, and unit handling around the
//! barometric formula.  Feet/meter conversions and one-decimal rounding at
//! the edges are done here in floating point, on the exact hundredths the
//! library returns.

use aviation_calculator::fk9::{
    calculate_takeoff_distance, Engine, GrassSurface, SurfaceCondition, TakeoffResult,
};
use aviation_calculator::meteorology::pressure_altitude_by_qnh;

#[test]
fn common_takeoff_calculation_zellhausen() {
    let result: TakeoffResult = calculate_takeoff_distance(
        Engine::Rotax912Uls,
        52000,
        37073,
        2100,
        0,
        Some(GrassSurface { wet: true, ..GrassSurface::default() }),
        SurfaceCondition::Inconspicuous,
    );
    let takeoff_distances = result.expect("No error is expected for this takeoff calculation!");
    // 138.73 m and 344.18 m before the wet-grass factor; with the 1.1 wet
    // penalty the manual's chain prescribes, 152.60 m and 378.60 m.
    assert_eq!(takeoff_distances, (15260, 37860));
}

#[test]
fn common_takeoff_calculation_frankfurt() {
    let result: TakeoffResult = calculate_takeoff_distance(
        Engine::Rotax912Uls,
        52000,
        36400,
        2100,
        0,
        None,
        SurfaceCondition::Inconspicuous,
    );
    let takeoff_distances = result.expect("No error is expected for this takeoff calculation!");
    assert_eq!(takeoff_distances, (11552, 28661));
}

#[test]
fn common_pressure_altitude() {
    let result = pressure_altitude_by_qnh(99600, 113_700_000);
    assert_eq!(result, 25825);
}

#[test]
fn pressure_altitude_in_feet() {
    // Field elevation 364 ft = 110.9472 m; the result is converted back to
    // feet and rounded to one decimal.
    let hundredths = pressure_altitude_by_qnh(99600, 110_947_200);
    let feet = hundredths as f64 / 100.0 / 0.3048;
    assert_eq!((feet * 10.0).round() / 10.0, 838.2);
}

#[test]
fn pressure_altitude_in_feed_check_rounding() {
    let hundredths = pressure_altitude_by_qnh(101325, 110_947_200);
    let feet = hundredths as f64 / 100.0 / 0.3048;
    assert_eq!((feet * 10.0).round() / 10.0, 364.0);
}
