use super::{
    lemma_width4_register_round_trip, FromSlice, IntoSlice, ReadableRegister, Register,
    WritableRegister,
};
use vstd::prelude::*;
use vstd::std_specs::convert::FromSpecImpl;

verus! {

/// The four byte ID code register.
#[derive(PartialEq, Debug, Copy, Clone, Default)]
pub struct IdData {
    pub id: u32,
}

impl Register for IdData {
    open spec fn address() -> u8 {
        0x06
    }

    fn id() -> (r: u8) {
        0x06
    }
}

impl ReadableRegister<4> for IdData {

}

impl WritableRegister<4> for IdData {

}

impl FromSpecImpl<u32> for IdData {
    open spec fn obeys_from_spec() -> bool {
        true
    }

    open spec fn from_spec(id: u32) -> IdData {
        IdData { id }
    }
}

impl From<u32> for IdData {
    fn from(id: u32) -> Self {
        Self { id }
    }
}

impl FromSpecImpl<IdData> for u32 {
    open spec fn obeys_from_spec() -> bool {
        true
    }

    open spec fn from_spec(val: IdData) -> u32 {
        val.id
    }
}

impl From<IdData> for u32 {
    fn from(val: IdData) -> u32 {
        val.id
    }
}

/// Every ID survives a write and a read back unchanged, through the four little-endian
/// bytes that carry it.
pub proof fn lemma_id_data_round_trip(d: IdData)
    ensures
        <IdData as FromSlice<4>>::from_slice_spec(<IdData as IntoSlice<4>>::into_slice_spec(d)) == d,
{
    lemma_width4_register_round_trip(d);
}

} // verus!
