//! Live voice-radio transmitter identifiers.
use vstd::prelude::*;
use crate::irsdk::key::ScalarKey;

verus! {

#[allow(non_snake_case)]
pub fn RADIO_TRANSMIT_CAR_IDX() -> (r: ScalarKey<i32>)
    ensures
        r.spec_name() == "RadioTransmitCarIdx"@,
{
    ScalarKey::new("RadioTransmitCarIdx")
}

#[allow(non_snake_case)]
pub fn RADIO_TRANSMIT_RADIO_IDX() -> (r: ScalarKey<i32>)
    ensures
        r.spec_name() == "RadioTransmitRadioIdx"@,
{
    ScalarKey::new("RadioTransmitRadioIdx")
}

#[allow(non_snake_case)]
pub fn RADIO_TRANSMIT_FREQUENCY_IDX() -> (r: ScalarKey<i32>)
    ensures
        r.spec_name() == "RadioTransmitFrequencyIdx"@,
{
    ScalarKey::new("RadioTransmitFrequencyIdx")
}

} // verus!
