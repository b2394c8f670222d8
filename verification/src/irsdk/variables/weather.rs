//! Ambient weather and track-condition variables.
use vstd::prelude::*;
use crate::irsdk::key::ScalarKey;
use crate::irsdk::frame::F32Bits;

verus! {

#[allow(non_snake_case)]
pub fn AIR_DENSITY() -> (r: ScalarKey<F32Bits>)
    ensures
        r.spec_name() == "AirDensity"@,
{
    ScalarKey::new("AirDensity")
}

#[allow(non_snake_case)]
pub fn AIR_PRESSURE() -> (r: ScalarKey<F32Bits>)
    ensures
        r.spec_name() == "AirPressure"@,
{
    ScalarKey::new("AirPressure")
}

#[allow(non_snake_case)]
pub fn AIR_TEMP() -> (r: ScalarKey<F32Bits>)
    ensures
        r.spec_name() == "AirTemp"@,
{
    ScalarKey::new("AirTemp")
}

#[allow(non_snake_case)]
pub fn FOG_LEVEL() -> (r: ScalarKey<F32Bits>)
    ensures
        r.spec_name() == "FogLevel"@,
{
    ScalarKey::new("FogLevel")
}

#[allow(non_snake_case)]
pub fn RELATIVE_HUMIDITY() -> (r: ScalarKey<F32Bits>)
    ensures
        r.spec_name() == "RelativeHumidity"@,
{
    ScalarKey::new("RelativeHumidity")
}

#[allow(non_snake_case)]
pub fn SKIES() -> (r: ScalarKey<i32>)
    ensures
        r.spec_name() == "Skies"@,
{
    ScalarKey::new("Skies")
}

/// Legacy live variable; use `WeekendInfo::track_weather_type` on current builds.
#[allow(non_snake_case)]
pub fn WEATHER_TYPE() -> (r: ScalarKey<i32>)
    ensures
        r.spec_name() == "WeatherType"@,
{
    ScalarKey::new("WeatherType")
}

#[allow(non_snake_case)]
pub fn WEATHER_DECLARED_WET() -> (r: ScalarKey<bool>)
    ensures
        r.spec_name() == "WeatherDeclaredWet"@,
{
    ScalarKey::new("WeatherDeclaredWet")
}

#[allow(non_snake_case)]
pub fn TRACK_TEMP() -> (r: ScalarKey<F32Bits>)
    ensures
        r.spec_name() == "TrackTemp"@,
{
    ScalarKey::new("TrackTemp")
}

#[allow(non_snake_case)]
pub fn TRACK_TEMP_CREW() -> (r: ScalarKey<F32Bits>)
    ensures
        r.spec_name() == "TrackTempCrew"@,
{
    ScalarKey::new("TrackTempCrew")
}

#[allow(non_snake_case)]
pub fn TRACK_WETNESS() -> (r: ScalarKey<i32>)
    ensures
        r.spec_name() == "TrackWetness"@,
{
    ScalarKey::new("TrackWetness")
}

#[allow(non_snake_case)]
pub fn WIND_DIR() -> (r: ScalarKey<F32Bits>)
    ensures
        r.spec_name() == "WindDir"@,
{
    ScalarKey::new("WindDir")
}

#[allow(non_snake_case)]
pub fn WIND_VEL() -> (r: ScalarKey<F32Bits>)
    ensures
        r.spec_name() == "WindVel"@,
{
    ScalarKey::new("WindVel")
}

} // verus!
