//! Player-car motion, powertrain, wheel, tyre, and suspension variables.
use vstd::prelude::*;
use crate::irsdk::key::ScalarKey;
use crate::irsdk::frame::F32Bits;

verus! {

#[allow(non_snake_case)]
pub fn LAT_ACCEL() -> (r: ScalarKey<F32Bits>)
    ensures
        r.spec_name() == "LatAccel"@,
{
    ScalarKey::new("LatAccel")
}

#[allow(non_snake_case)]
pub fn LONG_ACCEL() -> (r: ScalarKey<F32Bits>)
    ensures
        r.spec_name() == "LongAccel"@,
{
    ScalarKey::new("LongAccel")
}

#[allow(non_snake_case)]
pub fn VERT_ACCEL() -> (r: ScalarKey<F32Bits>)
    ensures
        r.spec_name() == "VertAccel"@,
{
    ScalarKey::new("VertAccel")
}

#[allow(non_snake_case)]
pub fn VELOCITY_X() -> (r: ScalarKey<F32Bits>)
    ensures
        r.spec_name() == "VelocityX"@,
{
    ScalarKey::new("VelocityX")
}

#[allow(non_snake_case)]
pub fn VELOCITY_Y() -> (r: ScalarKey<F32Bits>)
    ensures
        r.spec_name() == "VelocityY"@,
{
    ScalarKey::new("VelocityY")
}

#[allow(non_snake_case)]
pub fn VELOCITY_Z() -> (r: ScalarKey<F32Bits>)
    ensures
        r.spec_name() == "VelocityZ"@,
{
    ScalarKey::new("VelocityZ")
}

#[allow(non_snake_case)]
pub fn YAW() -> (r: ScalarKey<F32Bits>)
    ensures
        r.spec_name() == "Yaw"@,
{
    ScalarKey::new("Yaw")
}

#[allow(non_snake_case)]
pub fn YAW_NORTH() -> (r: ScalarKey<F32Bits>)
    ensures
        r.spec_name() == "YawNorth"@,
{
    ScalarKey::new("YawNorth")
}

#[allow(non_snake_case)]
pub fn YAW_RATE() -> (r: ScalarKey<F32Bits>)
    ensures
        r.spec_name() == "YawRate"@,
{
    ScalarKey::new("YawRate")
}

#[allow(non_snake_case)]
pub fn PITCH() -> (r: ScalarKey<F32Bits>)
    ensures
        r.spec_name() == "Pitch"@,
{
    ScalarKey::new("Pitch")
}

#[allow(non_snake_case)]
pub fn PITCH_RATE() -> (r: ScalarKey<F32Bits>)
    ensures
        r.spec_name() == "PitchRate"@,
{
    ScalarKey::new("PitchRate")
}

#[allow(non_snake_case)]
pub fn ROLL() -> (r: ScalarKey<F32Bits>)
    ensures
        r.spec_name() == "Roll"@,
{
    ScalarKey::new("Roll")
}

#[allow(non_snake_case)]
pub fn ROLL_RATE() -> (r: ScalarKey<F32Bits>)
    ensures
        r.spec_name() == "RollRate"@,
{
    ScalarKey::new("RollRate")
}

#[allow(non_snake_case)]
pub fn ENGINE_WARNINGS() -> (r: ScalarKey<u32>)
    ensures
        r.spec_name() == "EngineWarnings"@,
{
    ScalarKey::new("EngineWarnings")
}

#[allow(non_snake_case)]
pub fn MANIFOLD_PRESS() -> (r: ScalarKey<F32Bits>)
    ensures
        r.spec_name() == "ManifoldPress"@,
{
    ScalarKey::new("ManifoldPress")
}

#[allow(non_snake_case)]
pub fn FUEL_PRESS() -> (r: ScalarKey<F32Bits>)
    ensures
        r.spec_name() == "FuelPress"@,
{
    ScalarKey::new("FuelPress")
}

#[allow(non_snake_case)]
pub fn FUEL_USE_PER_HOUR() -> (r: ScalarKey<F32Bits>)
    ensures
        r.spec_name() == "FuelUsePerHour"@,
{
    ScalarKey::new("FuelUsePerHour")
}

#[allow(non_snake_case)]
pub fn OIL_LEVEL() -> (r: ScalarKey<F32Bits>)
    ensures
        r.spec_name() == "OilLevel"@,
{
    ScalarKey::new("OilLevel")
}

#[allow(non_snake_case)]
pub fn OIL_PRESS() -> (r: ScalarKey<F32Bits>)
    ensures
        r.spec_name() == "OilPress"@,
{
    ScalarKey::new("OilPress")
}

#[allow(non_snake_case)]
pub fn OIL_TEMP() -> (r: ScalarKey<F32Bits>)
    ensures
        r.spec_name() == "OilTemp"@,
{
    ScalarKey::new("OilTemp")
}

#[allow(non_snake_case)]
pub fn WATER_LEVEL() -> (r: ScalarKey<F32Bits>)
    ensures
        r.spec_name() == "WaterLevel"@,
{
    ScalarKey::new("WaterLevel")
}

#[allow(non_snake_case)]
pub fn WATER_TEMP() -> (r: ScalarKey<F32Bits>)
    ensures
        r.spec_name() == "WaterTemp"@,
{
    ScalarKey::new("WaterTemp")
}

#[allow(non_snake_case)]
pub fn VOLTAGE() -> (r: ScalarKey<F32Bits>)
    ensures
        r.spec_name() == "Voltage"@,
{
    ScalarKey::new("Voltage")
}

#[allow(non_snake_case)]
pub fn STEERING_WHEEL_ANGLE_MAX() -> (r: ScalarKey<F32Bits>)
    ensures
        r.spec_name() == "SteeringWheelAngleMax"@,
{
    ScalarKey::new("SteeringWheelAngleMax")
}

#[allow(non_snake_case)]
pub fn STEERING_WHEEL_TORQUE() -> (r: ScalarKey<F32Bits>)
    ensures
        r.spec_name() == "SteeringWheelTorque"@,
{
    ScalarKey::new("SteeringWheelTorque")
}

#[allow(non_snake_case)]
pub fn STEERING_WHEEL_PCT_TORQUE() -> (r: ScalarKey<F32Bits>)
    ensures
        r.spec_name() == "SteeringWheelPctTorque"@,
{
    ScalarKey::new("SteeringWheelPctTorque")
}

#[allow(non_snake_case)]
pub fn STEERING_WHEEL_PEAK_FORCE_NM() -> (r: ScalarKey<F32Bits>)
    ensures
        r.spec_name() == "SteeringWheelPeakForceNm"@,
{
    ScalarKey::new("SteeringWheelPeakForceNm")
}

#[allow(non_snake_case)]
pub fn LF_SPEED() -> (r: ScalarKey<F32Bits>)
    ensures
        r.spec_name() == "LFspeed"@,
{
    ScalarKey::new("LFspeed")
}

#[allow(non_snake_case)]
pub fn RF_SPEED() -> (r: ScalarKey<F32Bits>)
    ensures
        r.spec_name() == "RFspeed"@,
{
    ScalarKey::new("RFspeed")
}

#[allow(non_snake_case)]
pub fn LR_SPEED() -> (r: ScalarKey<F32Bits>)
    ensures
        r.spec_name() == "LRspeed"@,
{
    ScalarKey::new("LRspeed")
}

#[allow(non_snake_case)]
pub fn RR_SPEED() -> (r: ScalarKey<F32Bits>)
    ensures
        r.spec_name() == "RRspeed"@,
{
    ScalarKey::new("RRspeed")
}

#[allow(non_snake_case)]
pub fn LF_TEMP_CM() -> (r: ScalarKey<F32Bits>)
    ensures
        r.spec_name() == "LFtempCM"@,
{
    ScalarKey::new("LFtempCM")
}

#[allow(non_snake_case)]
pub fn RF_TEMP_CM() -> (r: ScalarKey<F32Bits>)
    ensures
        r.spec_name() == "RFtempCM"@,
{
    ScalarKey::new("RFtempCM")
}

#[allow(non_snake_case)]
pub fn LR_TEMP_CM() -> (r: ScalarKey<F32Bits>)
    ensures
        r.spec_name() == "LRtempCM"@,
{
    ScalarKey::new("LRtempCM")
}

#[allow(non_snake_case)]
pub fn RR_TEMP_CM() -> (r: ScalarKey<F32Bits>)
    ensures
        r.spec_name() == "RRtempCM"@,
{
    ScalarKey::new("RRtempCM")
}

#[allow(non_snake_case)]
pub fn LF_SHOCK_DEFL() -> (r: ScalarKey<F32Bits>)
    ensures
        r.spec_name() == "LFshockDefl"@,
{
    ScalarKey::new("LFshockDefl")
}

#[allow(non_snake_case)]
pub fn RF_SHOCK_DEFL() -> (r: ScalarKey<F32Bits>)
    ensures
        r.spec_name() == "RFshockDefl"@,
{
    ScalarKey::new("RFshockDefl")
}

#[allow(non_snake_case)]
pub fn LR_SHOCK_DEFL() -> (r: ScalarKey<F32Bits>)
    ensures
        r.spec_name() == "LRshockDefl"@,
{
    ScalarKey::new("LRshockDefl")
}

#[allow(non_snake_case)]
pub fn RR_SHOCK_DEFL() -> (r: ScalarKey<F32Bits>)
    ensures
        r.spec_name() == "RRshockDefl"@,
{
    ScalarKey::new("RRshockDefl")
}

#[allow(non_snake_case)]
pub fn LF_SHOCK_VEL() -> (r: ScalarKey<F32Bits>)
    ensures
        r.spec_name() == "LFshockVel"@,
{
    ScalarKey::new("LFshockVel")
}

#[allow(non_snake_case)]
pub fn RF_SHOCK_VEL() -> (r: ScalarKey<F32Bits>)
    ensures
        r.spec_name() == "RFshockVel"@,
{
    ScalarKey::new("RFshockVel")
}

#[allow(non_snake_case)]
pub fn LR_SHOCK_VEL() -> (r: ScalarKey<F32Bits>)
    ensures
        r.spec_name() == "LRshockVel"@,
{
    ScalarKey::new("LRshockVel")
}

#[allow(non_snake_case)]
pub fn RR_SHOCK_VEL() -> (r: ScalarKey<F32Bits>)
    ensures
        r.spec_name() == "RRshockVel"@,
{
    ScalarKey::new("RRshockVel")
}

} // verus!
