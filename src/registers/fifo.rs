use super::{Register, WritableRegister};
use vstd::prelude::*;
use vstd::std_specs::convert::FromSpecImpl;

verus! {

/// FIFO register 1 (write only).
#[derive(PartialEq, Debug, Copy, Clone)]
pub struct Fifo1 {
    /// FIFO End Pointer for TX FIFO and Rx FIFO
    pub end_pointer: u8,
}

impl Default for Fifo1 {
    fn default() -> (r: Self)
        ensures
            r == (Fifo1 { end_pointer: 0b0011_1111 }),
    {
        Self { end_pointer: 0b0011_1111 }
    }
}

impl Register for Fifo1 {
    open spec fn address() -> u8 {
        0x03
    }

    fn id() -> (r: u8) {
        0x03
    }
}

impl WritableRegister<1> for Fifo1 {

}

impl FromSpecImpl<Fifo1> for u8 {
    open spec fn obeys_from_spec() -> bool {
        true
    }

    open spec fn from_spec(val: Fifo1) -> u8 {
        val.end_pointer
    }
}

impl From<Fifo1> for u8 {
    fn from(val: Fifo1) -> u8 {
        val.end_pointer
    }
}

/// FIFO register 2 (write only).
#[derive(PartialEq, Debug, Copy, Clone)]
pub struct Fifo2 {
    /// FIFO Pointer Margin; only its low two bits are carried
    pub margin: u8,
    /// Used for Segment FIFO (see the chip's segment FIFO description); only its low six
    /// bits are carried
    pub segment: u8,
}

impl Default for Fifo2 {
    fn default() -> (r: Self)
        ensures
            r == (Fifo2 { margin: 1, segment: 0 }),
    {
        Self { margin: 1, segment: 0 }
    }
}

impl Register for Fifo2 {
    open spec fn address() -> u8 {
        0x04
    }

    fn id() -> (r: u8) {
        0x04
    }
}

impl WritableRegister<1> for Fifo2 {

}

impl FromSpecImpl<Fifo2> for u8 {
    open spec fn obeys_from_spec() -> bool {
        true
    }

    /// Margin in bits 7..6, segment in bits 5..0.
    open spec fn from_spec(val: Fifo2) -> u8 {
        (val.segment & 0b0011_1111) | (val.margin << 6u8)
    }
}

impl From<Fifo2> for u8 {
    fn from(val: Fifo2) -> u8 {
        (val.segment & 0b0011_1111) | (val.margin << 6u8)
    }
}

} // verus!
