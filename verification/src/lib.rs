//! Aviation performance calculations for a light aircraft: an ICAO standard
//! atmosphere model and a takeoff distance calculator.
//!
//! All physical quantities are carried as scaled integers so that every
//! computation is exact: masses in hundredths of a kilogram, temperatures in
//! hundredths of a degree Celsius, slopes in hundredths of a percent,
//! pressure altitudes in hundredths of a foot, geopotential altitudes in
//! millionths of a meter, and distances in hundredths of a meter.  Results
//! that the flight manual rounds to two decimal places are returned as whole
//! hundredths, rounded half away from zero.

pub mod fk9;
pub mod meteorology;
pub mod meterology;
pub mod numeric;
