//! Player pit-service request and progress variables.
use vstd::prelude::*;
use crate::irsdk::key::ScalarKey;
use crate::irsdk::frame::F32Bits;

verus! {

#[allow(non_snake_case)]
pub fn PLAYER_CAR_PIT_SV_STATUS() -> (r: ScalarKey<i32>)
    ensures
        r.spec_name() == "PlayerCarPitSvStatus"@,
{
    ScalarKey::new("PlayerCarPitSvStatus")
}

#[allow(non_snake_case)]
pub fn PIT_SV_FLAGS() -> (r: ScalarKey<u32>)
    ensures
        r.spec_name() == "PitSvFlags"@,
{
    ScalarKey::new("PitSvFlags")
}

#[allow(non_snake_case)]
pub fn PIT_SV_FUEL() -> (r: ScalarKey<F32Bits>)
    ensures
        r.spec_name() == "PitSvFuel"@,
{
    ScalarKey::new("PitSvFuel")
}

#[allow(non_snake_case)]
pub fn PIT_SV_LFP() -> (r: ScalarKey<F32Bits>)
    ensures
        r.spec_name() == "PitSvLFP"@,
{
    ScalarKey::new("PitSvLFP")
}

#[allow(non_snake_case)]
pub fn PIT_SV_RFP() -> (r: ScalarKey<F32Bits>)
    ensures
        r.spec_name() == "PitSvRFP"@,
{
    ScalarKey::new("PitSvRFP")
}

#[allow(non_snake_case)]
pub fn PIT_SV_LRP() -> (r: ScalarKey<F32Bits>)
    ensures
        r.spec_name() == "PitSvLRP"@,
{
    ScalarKey::new("PitSvLRP")
}

#[allow(non_snake_case)]
pub fn PIT_SV_RRP() -> (r: ScalarKey<F32Bits>)
    ensures
        r.spec_name() == "PitSvRRP"@,
{
    ScalarKey::new("PitSvRRP")
}

#[allow(non_snake_case)]
pub fn PIT_REPAIR_LEFT() -> (r: ScalarKey<F32Bits>)
    ensures
        r.spec_name() == "PitRepairLeft"@,
{
    ScalarKey::new("PitRepairLeft")
}

#[allow(non_snake_case)]
pub fn PIT_OPT_REPAIR_LEFT() -> (r: ScalarKey<F32Bits>)
    ensures
        r.spec_name() == "PitOptRepairLeft"@,
{
    ScalarKey::new("PitOptRepairLeft")
}

} // verus!
