//! Per-car arrays indexed by iRacing car index.
use vstd::prelude::*;
use crate::irsdk::key::ArrayKey;
use crate::irsdk::frame::F32Bits;

verus! {

#[allow(non_snake_case)]
pub fn CAR_IDX_LAP() -> (r: ArrayKey<i32>)
    ensures
        r.spec_name() == "CarIdxLap"@,
{
    ArrayKey::new("CarIdxLap")
}

#[allow(non_snake_case)]
pub fn CAR_IDX_LAP_COMPLETED() -> (r: ArrayKey<i32>)
    ensures
        r.spec_name() == "CarIdxLapCompleted"@,
{
    ArrayKey::new("CarIdxLapCompleted")
}

#[allow(non_snake_case)]
pub fn CAR_IDX_LAP_DIST_PCT() -> (r: ArrayKey<F32Bits>)
    ensures
        r.spec_name() == "CarIdxLapDistPct"@,
{
    ArrayKey::new("CarIdxLapDistPct")
}

#[allow(non_snake_case)]
pub fn CAR_IDX_POSITION() -> (r: ArrayKey<i32>)
    ensures
        r.spec_name() == "CarIdxPosition"@,
{
    ArrayKey::new("CarIdxPosition")
}

#[allow(non_snake_case)]
pub fn CAR_IDX_CLASS_POSITION() -> (r: ArrayKey<i32>)
    ensures
        r.spec_name() == "CarIdxClassPosition"@,
{
    ArrayKey::new("CarIdxClassPosition")
}

#[allow(non_snake_case)]
pub fn CAR_IDX_TRACK_SURFACE() -> (r: ArrayKey<i32>)
    ensures
        r.spec_name() == "CarIdxTrackSurface"@,
{
    ArrayKey::new("CarIdxTrackSurface")
}

#[allow(non_snake_case)]
pub fn CAR_IDX_TRACK_SURFACE_MATERIAL() -> (r: ArrayKey<i32>)
    ensures
        r.spec_name() == "CarIdxTrackSurfaceMaterial"@,
{
    ArrayKey::new("CarIdxTrackSurfaceMaterial")
}

#[allow(non_snake_case)]
pub fn CAR_IDX_ON_PIT_ROAD() -> (r: ArrayKey<bool>)
    ensures
        r.spec_name() == "CarIdxOnPitRoad"@,
{
    ArrayKey::new("CarIdxOnPitRoad")
}

#[allow(non_snake_case)]
pub fn CAR_IDX_EST_TIME() -> (r: ArrayKey<F32Bits>)
    ensures
        r.spec_name() == "CarIdxEstTime"@,
{
    ArrayKey::new("CarIdxEstTime")
}

#[allow(non_snake_case)]
pub fn CAR_IDX_F2_TIME() -> (r: ArrayKey<F32Bits>)
    ensures
        r.spec_name() == "CarIdxF2Time"@,
{
    ArrayKey::new("CarIdxF2Time")
}

#[allow(non_snake_case)]
pub fn CAR_IDX_GEAR() -> (r: ArrayKey<i32>)
    ensures
        r.spec_name() == "CarIdxGear"@,
{
    ArrayKey::new("CarIdxGear")
}

#[allow(non_snake_case)]
pub fn CAR_IDX_RPM() -> (r: ArrayKey<F32Bits>)
    ensures
        r.spec_name() == "CarIdxRPM"@,
{
    ArrayKey::new("CarIdxRPM")
}

#[allow(non_snake_case)]
pub fn CAR_IDX_STEER() -> (r: ArrayKey<F32Bits>)
    ensures
        r.spec_name() == "CarIdxSteer"@,
{
    ArrayKey::new("CarIdxSteer")
}

#[allow(non_snake_case)]
pub fn CAR_IDX_LAST_LAP_TIME() -> (r: ArrayKey<F32Bits>)
    ensures
        r.spec_name() == "CarIdxLastLapTime"@,
{
    ArrayKey::new("CarIdxLastLapTime")
}

#[allow(non_snake_case)]
pub fn CAR_IDX_BEST_LAP_TIME() -> (r: ArrayKey<F32Bits>)
    ensures
        r.spec_name() == "CarIdxBestLapTime"@,
{
    ArrayKey::new("CarIdxBestLapTime")
}

#[allow(non_snake_case)]
pub fn CAR_IDX_BEST_LAP_NUM() -> (r: ArrayKey<i32>)
    ensures
        r.spec_name() == "CarIdxBestLapNum"@,
{
    ArrayKey::new("CarIdxBestLapNum")
}

#[allow(non_snake_case)]
pub fn CAR_IDX_SESSION_FLAGS() -> (r: ArrayKey<u32>)
    ensures
        r.spec_name() == "CarIdxSessionFlags"@,
{
    ArrayKey::new("CarIdxSessionFlags")
}

#[allow(non_snake_case)]
pub fn CAR_IDX_PACE_FLAGS() -> (r: ArrayKey<i32>)
    ensures
        r.spec_name() == "CarIdxPaceFlags"@,
{
    ArrayKey::new("CarIdxPaceFlags")
}

#[allow(non_snake_case)]
pub fn CAR_IDX_PACE_LINE() -> (r: ArrayKey<i32>)
    ensures
        r.spec_name() == "CarIdxPaceLine"@,
{
    ArrayKey::new("CarIdxPaceLine")
}

#[allow(non_snake_case)]
pub fn CAR_IDX_PACE_ROW() -> (r: ArrayKey<i32>)
    ensures
        r.spec_name() == "CarIdxPaceRow"@,
{
    ArrayKey::new("CarIdxPaceRow")
}

} // verus!
