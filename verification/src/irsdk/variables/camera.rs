//! Camera selection and replay-state variables.
use vstd::prelude::*;
use crate::irsdk::key::ScalarKey;
use crate::irsdk::frame::F64Bits;

verus! {

#[allow(non_snake_case)]
pub fn CAM_CAR_IDX() -> (r: ScalarKey<i32>)
    ensures
        r.spec_name() == "CamCarIdx"@,
{
    ScalarKey::new("CamCarIdx")
}

#[allow(non_snake_case)]
pub fn CAM_CAMERA_NUMBER() -> (r: ScalarKey<i32>)
    ensures
        r.spec_name() == "CamCameraNumber"@,
{
    ScalarKey::new("CamCameraNumber")
}

#[allow(non_snake_case)]
pub fn CAM_GROUP_NUMBER() -> (r: ScalarKey<i32>)
    ensures
        r.spec_name() == "CamGroupNumber"@,
{
    ScalarKey::new("CamGroupNumber")
}

#[allow(non_snake_case)]
pub fn CAM_CAMERA_STATE() -> (r: ScalarKey<u32>)
    ensures
        r.spec_name() == "CamCameraState"@,
{
    ScalarKey::new("CamCameraState")
}

#[allow(non_snake_case)]
pub fn IS_REPLAY_PLAYING() -> (r: ScalarKey<bool>)
    ensures
        r.spec_name() == "IsReplayPlaying"@,
{
    ScalarKey::new("IsReplayPlaying")
}

#[allow(non_snake_case)]
pub fn REPLAY_FRAME_NUM() -> (r: ScalarKey<i32>)
    ensures
        r.spec_name() == "ReplayFrameNum"@,
{
    ScalarKey::new("ReplayFrameNum")
}

#[allow(non_snake_case)]
pub fn REPLAY_FRAME_NUM_END() -> (r: ScalarKey<i32>)
    ensures
        r.spec_name() == "ReplayFrameNumEnd"@,
{
    ScalarKey::new("ReplayFrameNumEnd")
}

#[allow(non_snake_case)]
pub fn REPLAY_PLAY_SLOW_MOTION() -> (r: ScalarKey<bool>)
    ensures
        r.spec_name() == "ReplayPlaySlowMotion"@,
{
    ScalarKey::new("ReplayPlaySlowMotion")
}

#[allow(non_snake_case)]
pub fn REPLAY_PLAY_SPEED() -> (r: ScalarKey<i32>)
    ensures
        r.spec_name() == "ReplayPlaySpeed"@,
{
    ScalarKey::new("ReplayPlaySpeed")
}

#[allow(non_snake_case)]
pub fn REPLAY_SESSION_NUM() -> (r: ScalarKey<i32>)
    ensures
        r.spec_name() == "ReplaySessionNum"@,
{
    ScalarKey::new("ReplaySessionNum")
}

#[allow(non_snake_case)]
pub fn REPLAY_SESSION_TIME() -> (r: ScalarKey<F64Bits>)
    ensures
        r.spec_name() == "ReplaySessionTime"@,
{
    ScalarKey::new("ReplaySessionTime")
}

} // verus!
