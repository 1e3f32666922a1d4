use super::{Register, WritableRegister};
use vstd::prelude::*;
use vstd::std_specs::convert::FromSpecImpl;

verus! {

/// RSSI carrier detect threshold (write side of address 0x1D).
#[derive(PartialEq, Debug, Copy, Clone)]
pub struct RssiCarrierDetectThreshold {
    pub threshold: u8,
}

impl Default for RssiCarrierDetectThreshold {
    fn default() -> (r: Self)
        ensures
            r == (RssiCarrierDetectThreshold { threshold: 0b1001_0001 }),
    {
        Self { threshold: 0b1001_0001 }
    }
}

impl Register for RssiCarrierDetectThreshold {
    open spec fn address() -> u8 {
        0x1D
    }

    fn id() -> (r: u8) {
        0x1D
    }
}

impl WritableRegister<1> for RssiCarrierDetectThreshold {

}

impl FromSpecImpl<RssiCarrierDetectThreshold> for u8 {
    open spec fn obeys_from_spec() -> bool {
        true
    }

    open spec fn from_spec(val: RssiCarrierDetectThreshold) -> u8 {
        val.threshold
    }
}

impl From<RssiCarrierDetectThreshold> for u8 {
    fn from(val: RssiCarrierDetectThreshold) -> u8 {
        val.threshold
    }
}

} // verus!
