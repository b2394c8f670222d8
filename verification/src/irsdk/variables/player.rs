//! Player-car controls, lap timing, scoring, and track position.
use vstd::prelude::*;
use crate::irsdk::key::ScalarKey;
use crate::irsdk::frame::F32Bits;

verus! {

#[allow(non_snake_case)]
pub fn PLAYER_CAR_IDX() -> (r: ScalarKey<i32>)
    ensures
        r.spec_name() == "PlayerCarIdx"@,
{
    ScalarKey::new("PlayerCarIdx")
}

#[allow(non_snake_case)]
pub fn IS_ON_TRACK() -> (r: ScalarKey<bool>)
    ensures
        r.spec_name() == "IsOnTrack"@,
{
    ScalarKey::new("IsOnTrack")
}

#[allow(non_snake_case)]
pub fn IS_ON_TRACK_CAR() -> (r: ScalarKey<bool>)
    ensures
        r.spec_name() == "IsOnTrackCar"@,
{
    ScalarKey::new("IsOnTrackCar")
}

#[allow(non_snake_case)]
pub fn IS_IN_GARAGE() -> (r: ScalarKey<bool>)
    ensures
        r.spec_name() == "IsInGarage"@,
{
    ScalarKey::new("IsInGarage")
}

#[allow(non_snake_case)]
pub fn DRIVER_MARKER() -> (r: ScalarKey<bool>)
    ensures
        r.spec_name() == "DriverMarker"@,
{
    ScalarKey::new("DriverMarker")
}

#[allow(non_snake_case)]
pub fn SPEED() -> (r: ScalarKey<F32Bits>)
    ensures
        r.spec_name() == "Speed"@,
{
    ScalarKey::new("Speed")
}

#[allow(non_snake_case)]
pub fn RPM() -> (r: ScalarKey<F32Bits>)
    ensures
        r.spec_name() == "RPM"@,
{
    ScalarKey::new("RPM")
}

#[allow(non_snake_case)]
pub fn GEAR() -> (r: ScalarKey<i32>)
    ensures
        r.spec_name() == "Gear"@,
{
    ScalarKey::new("Gear")
}

#[allow(non_snake_case)]
pub fn THROTTLE() -> (r: ScalarKey<F32Bits>)
    ensures
        r.spec_name() == "Throttle"@,
{
    ScalarKey::new("Throttle")
}

#[allow(non_snake_case)]
pub fn BRAKE() -> (r: ScalarKey<F32Bits>)
    ensures
        r.spec_name() == "Brake"@,
{
    ScalarKey::new("Brake")
}

#[allow(non_snake_case)]
pub fn CLUTCH() -> (r: ScalarKey<F32Bits>)
    ensures
        r.spec_name() == "Clutch"@,
{
    ScalarKey::new("Clutch")
}

#[allow(non_snake_case)]
pub fn STEERING_WHEEL_ANGLE() -> (r: ScalarKey<F32Bits>)
    ensures
        r.spec_name() == "SteeringWheelAngle"@,
{
    ScalarKey::new("SteeringWheelAngle")
}

#[allow(non_snake_case)]
pub fn FUEL_LEVEL() -> (r: ScalarKey<F32Bits>)
    ensures
        r.spec_name() == "FuelLevel"@,
{
    ScalarKey::new("FuelLevel")
}

#[allow(non_snake_case)]
pub fn FUEL_LEVEL_PCT() -> (r: ScalarKey<F32Bits>)
    ensures
        r.spec_name() == "FuelLevelPct"@,
{
    ScalarKey::new("FuelLevelPct")
}

#[allow(non_snake_case)]
pub fn LAP() -> (r: ScalarKey<i32>)
    ensures
        r.spec_name() == "Lap"@,
{
    ScalarKey::new("Lap")
}

#[allow(non_snake_case)]
pub fn LAP_COMPLETED() -> (r: ScalarKey<i32>)
    ensures
        r.spec_name() == "LapCompleted"@,
{
    ScalarKey::new("LapCompleted")
}

#[allow(non_snake_case)]
pub fn LAP_DIST() -> (r: ScalarKey<F32Bits>)
    ensures
        r.spec_name() == "LapDist"@,
{
    ScalarKey::new("LapDist")
}

#[allow(non_snake_case)]
pub fn LAP_DIST_PCT() -> (r: ScalarKey<F32Bits>)
    ensures
        r.spec_name() == "LapDistPct"@,
{
    ScalarKey::new("LapDistPct")
}

#[allow(non_snake_case)]
pub fn LAP_BEST_LAP() -> (r: ScalarKey<i32>)
    ensures
        r.spec_name() == "LapBestLap"@,
{
    ScalarKey::new("LapBestLap")
}

#[allow(non_snake_case)]
pub fn LAP_BEST_LAP_TIME() -> (r: ScalarKey<F32Bits>)
    ensures
        r.spec_name() == "LapBestLapTime"@,
{
    ScalarKey::new("LapBestLapTime")
}

#[allow(non_snake_case)]
pub fn LAP_LAST_LAP_TIME() -> (r: ScalarKey<F32Bits>)
    ensures
        r.spec_name() == "LapLastLapTime"@,
{
    ScalarKey::new("LapLastLapTime")
}

#[allow(non_snake_case)]
pub fn LAP_CURRENT_LAP_TIME() -> (r: ScalarKey<F32Bits>)
    ensures
        r.spec_name() == "LapCurrentLapTime"@,
{
    ScalarKey::new("LapCurrentLapTime")
}

#[allow(non_snake_case)]
pub fn PLAYER_CAR_POSITION() -> (r: ScalarKey<i32>)
    ensures
        r.spec_name() == "PlayerCarPosition"@,
{
    ScalarKey::new("PlayerCarPosition")
}

#[allow(non_snake_case)]
pub fn PLAYER_CAR_CLASS_POSITION() -> (r: ScalarKey<i32>)
    ensures
        r.spec_name() == "PlayerCarClassPosition"@,
{
    ScalarKey::new("PlayerCarClassPosition")
}

#[allow(non_snake_case)]
pub fn ON_PIT_ROAD() -> (r: ScalarKey<bool>)
    ensures
        r.spec_name() == "OnPitRoad"@,
{
    ScalarKey::new("OnPitRoad")
}

#[allow(non_snake_case)]
pub fn PLAYER_TRACK_SURFACE() -> (r: ScalarKey<i32>)
    ensures
        r.spec_name() == "PlayerTrackSurface"@,
{
    ScalarKey::new("PlayerTrackSurface")
}

#[allow(non_snake_case)]
pub fn PLAYER_TRACK_SURFACE_MATERIAL() -> (r: ScalarKey<i32>)
    ensures
        r.spec_name() == "PlayerTrackSurfaceMaterial"@,
{
    ScalarKey::new("PlayerTrackSurfaceMaterial")
}

#[allow(non_snake_case)]
pub fn CAR_LEFT_RIGHT() -> (r: ScalarKey<u32>)
    ensures
        r.spec_name() == "CarLeftRight"@,
{
    ScalarKey::new("CarLeftRight")
}

#[allow(non_snake_case)]
pub fn PLAYER_INCIDENTS() -> (r: ScalarKey<u32>)
    ensures
        r.spec_name() == "PlayerIncidents"@,
{
    ScalarKey::new("PlayerIncidents")
}

} // verus!
