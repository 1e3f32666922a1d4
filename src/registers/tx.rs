use super::{Register, WritableRegister};
use vstd::prelude::*;
use vstd::std_specs::convert::FromSpecImpl;

verus! {

#[derive(PartialEq, Debug, Copy, Clone)]
pub enum MovingAverage {
    TwoBit,
    FourBit,
    EightBit,
}

/// TX register 1 (write only).
#[derive(PartialEq, Debug, Copy, Clone)]
pub struct Tx1 {
    /// Moving average for non-filter select
    pub moving_average: Option<MovingAverage>,
    pub data_invert: bool,
    pub modulation_enable: bool,
    pub filter_enable: bool,
    /// Frequency deviation power; only the low three bits are carried, higher bits are
    /// masked off when written.
    pub fdp: u8,
}

impl Default for Tx1 {
    fn default() -> (r: Self)
        ensures
            r == (Tx1 {
                moving_average: None,
                data_invert: false,
                modulation_enable: true,
                filter_enable: false,
                fdp: 0b110,
            }),
    {
        Self {
            moving_average: None,
            data_invert: false,
            modulation_enable: true,
            filter_enable: false,
            fdp: 0b110,
        }
    }
}

impl Register for Tx1 {
    open spec fn address() -> u8 {
        0x14
    }

    fn id() -> (r: u8) {
        0x14
    }
}

impl WritableRegister<1> for Tx1 {

}

impl FromSpecImpl<Tx1> for u8 {
    open spec fn obeys_from_spec() -> bool {
        true
    }

    /// Moving average in bits 7..6, data inversion in bit 5, modulation in bit 4, filter in
    /// bit 3, frequency deviation power in bits 2..0.
    open spec fn from_spec(val: Tx1) -> u8 {
        (val.data_invert as u8) << 5u8 | (val.modulation_enable as u8) << 4u8 | (val.filter_enable as u8)
            << 3u8 | (val.fdp & 0b111) | match val.moving_average {
            None => 0b00u8,
            Some(MovingAverage::TwoBit) => 0b01,
            Some(MovingAverage::FourBit) => 0b10,
            Some(MovingAverage::EightBit) => 0b11,
        } << 6u8
    }
}

impl From<Tx1> for u8 {
    fn from(val: Tx1) -> u8 {
        (val.data_invert as u8) << 5u8 | (val.modulation_enable as u8) << 4u8 | (val.filter_enable as u8)
            << 3u8 | (val.fdp & 0b111) | match val.moving_average {
            None => 0b00u8,
            Some(MovingAverage::TwoBit) => 0b01,
            Some(MovingAverage::FourBit) => 0b10,
            Some(MovingAverage::EightBit) => 0b11,
        } << 6u8
    }
}

/// TX register 2 (write only).
#[derive(PartialEq, Debug, Copy, Clone)]
pub struct Tx2 {
    /// Frequency deviation; only the low five bits are carried, higher bits are masked off
    /// when written.
    pub fd: u8,
}

impl Default for Tx2 {
    fn default() -> (r: Self)
        ensures
            r == (Tx2 { fd: 0b01011 }),
    {
        Self { fd: 0b01011 }
    }
}

impl Register for Tx2 {
    open spec fn address() -> u8 {
        0x15
    }

    fn id() -> (r: u8) {
        0x15
    }
}

impl WritableRegister<1> for Tx2 {

}

impl FromSpecImpl<Tx2> for u8 {
    open spec fn obeys_from_spec() -> bool {
        true
    }

    /// Deviation in bits 4..0 with bit 5 always set.
    open spec fn from_spec(val: Tx2) -> u8 {
        (val.fd & 0b11111) | 0b0010_0000
    }
}

impl From<Tx2> for u8 {
    fn from(val: Tx2) -> u8 {
        (val.fd & 0b11111) | 0b0010_0000
    }
}

} // verus!
