//! Session timing, state, and race-control variables.
use vstd::prelude::*;
use crate::irsdk::key::ScalarKey;
use crate::irsdk::frame::{F32Bits, F64Bits};

verus! {

#[allow(non_snake_case)]
pub fn SESSION_TIME() -> (r: ScalarKey<F64Bits>)
    ensures
        r.spec_name() == "SessionTime"@,
{
    ScalarKey::new("SessionTime")
}

#[allow(non_snake_case)]
pub fn SESSION_TICK() -> (r: ScalarKey<i32>)
    ensures
        r.spec_name() == "SessionTick"@,
{
    ScalarKey::new("SessionTick")
}

#[allow(non_snake_case)]
pub fn SESSION_NUM() -> (r: ScalarKey<i32>)
    ensures
        r.spec_name() == "SessionNum"@,
{
    ScalarKey::new("SessionNum")
}

#[allow(non_snake_case)]
pub fn SESSION_STATE() -> (r: ScalarKey<i32>)
    ensures
        r.spec_name() == "SessionState"@,
{
    ScalarKey::new("SessionState")
}

#[allow(non_snake_case)]
pub fn SESSION_UNIQUE_ID() -> (r: ScalarKey<i32>)
    ensures
        r.spec_name() == "SessionUniqueID"@,
{
    ScalarKey::new("SessionUniqueID")
}

#[allow(non_snake_case)]
pub fn SESSION_FLAGS() -> (r: ScalarKey<u32>)
    ensures
        r.spec_name() == "SessionFlags"@,
{
    ScalarKey::new("SessionFlags")
}

#[allow(non_snake_case)]
pub fn SESSION_TIME_REMAIN() -> (r: ScalarKey<F64Bits>)
    ensures
        r.spec_name() == "SessionTimeRemain"@,
{
    ScalarKey::new("SessionTimeRemain")
}

#[allow(non_snake_case)]
pub fn SESSION_LAPS_REMAIN() -> (r: ScalarKey<i32>)
    ensures
        r.spec_name() == "SessionLapsRemain"@,
{
    ScalarKey::new("SessionLapsRemain")
}

#[allow(non_snake_case)]
pub fn SESSION_LAPS_REMAIN_EX() -> (r: ScalarKey<i32>)
    ensures
        r.spec_name() == "SessionLapsRemainEx"@,
{
    ScalarKey::new("SessionLapsRemainEx")
}

#[allow(non_snake_case)]
pub fn SESSION_TIME_OF_DAY() -> (r: ScalarKey<F32Bits>)
    ensures
        r.spec_name() == "SessionTimeOfDay"@,
{
    ScalarKey::new("SessionTimeOfDay")
}

#[allow(non_snake_case)]
pub fn RACE_LAPS() -> (r: ScalarKey<i32>)
    ensures
        r.spec_name() == "RaceLaps"@,
{
    ScalarKey::new("RaceLaps")
}

#[allow(non_snake_case)]
pub fn PITS_OPEN() -> (r: ScalarKey<bool>)
    ensures
        r.spec_name() == "PitsOpen"@,
{
    ScalarKey::new("PitsOpen")
}

#[allow(non_snake_case)]
pub fn PACE_MODE() -> (r: ScalarKey<i32>)
    ensures
        r.spec_name() == "PaceMode"@,
{
    ScalarKey::new("PaceMode")
}

} // verus!
