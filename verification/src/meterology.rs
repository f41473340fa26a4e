//! Older interface to the standard atmosphere model, kept for callers that
//! still use it: the same four-band temperature profile, with a plain
//! message-carrying error type.

use vstd::prelude::*;

use crate::meteorology;

verus! {

/// The elevation asked of the atmosphere model is not defined by the ICAO
/// standard atmosphere; carries a ready-made message.
#[derive(Debug, Clone)]
pub struct UndefinedError(String);

impl View for UndefinedError {
    type V = Seq<char>;

    closed spec fn view(&self) -> Seq<char> {
        self.0@
    }
}

impl UndefinedError {
    /// The message describing the undefined elevation.
    pub fn message(&self) -> (m: String)
        ensures
            m@ == self@,
    {
        self.0.clone()
    }
}

/// ICAO standard temperature for an elevation given in millionths of a
/// meter, in hundredths of a degree Celsius, or an error when the elevation
/// lies outside [-1000 m, 80000 m].
pub fn icao_temperature_by_elevation(elevation: i64) -> (r: Result<i64, UndefinedError>)
    ensures
        r is Ok <==> meteorology::MIN_PRESSURE_ALTITUDE <= elevation
            <= meteorology::MAX_PRESSURE_ALTITUDE,
        r matches Ok(t) ==> t == meteorology::standard_temperature(elevation as int),
        elevation < meteorology::MIN_PRESSURE_ALTITUDE ==> (r matches Err(e) && e@
            == "The ICAO standard atmosphere below -1 kilometer (-3,280 feet) is not defined."@),
        elevation > meteorology::MAX_PRESSURE_ALTITUDE ==> (r matches Err(e) && e@
            == "The ICAO standard atmosphere above 80 kilometers (262,500 feet) is not defined."@),
{
    if elevation < meteorology::MIN_PRESSURE_ALTITUDE {
        return Err(
            UndefinedError(
                "The ICAO standard atmosphere below -1 kilometer (-3,280 feet) is not defined.".to_owned(),
            ),
        );
    }
    if elevation > meteorology::MAX_PRESSURE_ALTITUDE {
        return Err(
            UndefinedError(
                "The ICAO standard atmosphere above 80 kilometers (262,500 feet) is not defined.".to_owned(),
            ),
        );
    }
    match meteorology::icao_temperature(elevation) {
        Ok(t) => Ok(t),
        Err(_) => vstd::pervasive::unreached(),
    }
}

} // verus!
