use super::{ReadableRegister, Register, WritableRegister};
use vstd::prelude::*;
use vstd::std_specs::convert::{FromSpec, FromSpecImpl};

verus! {

/// Data rate divider register.
#[derive(PartialEq, Debug, Copy, Clone, Default)]
pub struct DataRate {
    pub rate: u8,
}

impl Register for DataRate {
    open spec fn address() -> u8 {
        0x0E
    }

    fn id() -> (r: u8) {
        0x0E
    }
}

impl ReadableRegister<1> for DataRate {

}

impl WritableRegister<1> for DataRate {

}

impl FromSpecImpl<u8> for DataRate {
    open spec fn obeys_from_spec() -> bool {
        true
    }

    open spec fn from_spec(rate: u8) -> DataRate {
        DataRate { rate }
    }
}

impl From<u8> for DataRate {
    fn from(rate: u8) -> Self {
        Self { rate }
    }
}

impl FromSpecImpl<DataRate> for u8 {
    open spec fn obeys_from_spec() -> bool {
        true
    }

    open spec fn from_spec(val: DataRate) -> u8 {
        val.rate
    }
}

impl From<DataRate> for u8 {
    fn from(val: DataRate) -> u8 {
        val.rate
    }
}

/// Every data rate survives a write and a read back unchanged, and so does every byte
/// read back and written again.
pub proof fn lemma_data_rate_round_trip(d: DataRate, b: u8)
    ensures
        <DataRate as FromSpec<u8>>::from_spec(<u8 as FromSpec<DataRate>>::from_spec(d)) == d,
        <u8 as FromSpec<DataRate>>::from_spec(<DataRate as FromSpec<u8>>::from_spec(b)) == b,
{
}

} // verus!
