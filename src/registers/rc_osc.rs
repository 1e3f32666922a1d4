use super::{Register, WritableRegister};
use vstd::prelude::*;
use vstd::std_specs::convert::FromSpecImpl;

verus! {

#[derive(PartialEq, Debug, Copy, Clone, Default)]
pub enum ClockSelect {
    #[default]
    FSyncDiv8,
    FSyncDiv16,
    FSyncDiv32,
    FSyncDiv64,
}

/// RC oscillator register 3 (write only).
#[derive(PartialEq, Debug, Copy, Clone, Default)]
pub struct RcOsc3 {
    /// Clock select for internal digital block Recommend [`ClockSelect::FSyncDiv8`]
    pub clock_select: ClockSelect,
    // The register's other fields are for the chip's internal use and keep fixed values.
}

impl Register for RcOsc3 {
    open spec fn address() -> u8 {
        0x09
    }

    fn id() -> (r: u8) {
        0x09
    }
}

impl WritableRegister<1> for RcOsc3 {

}

impl FromSpecImpl<RcOsc3> for u8 {
    open spec fn obeys_from_spec() -> bool {
        true
    }

    /// Clock select in bits 7..6; the low bits hold the fixed value `0b0101`.
    open spec fn from_spec(val: RcOsc3) -> u8 {
        match val.clock_select {
            ClockSelect::FSyncDiv8 => 0b0000_0101u8,
            ClockSelect::FSyncDiv16 => 0b0100_0101,
            ClockSelect::FSyncDiv32 => 0b1000_0101,
            ClockSelect::FSyncDiv64 => 0b1100_0101,
        }
    }
}

impl From<RcOsc3> for u8 {
    fn from(val: RcOsc3) -> u8 {
        match val.clock_select {
            ClockSelect::FSyncDiv8 => 0b0000_0101u8,
            ClockSelect::FSyncDiv16 => 0b0100_0101,
            ClockSelect::FSyncDiv32 => 0b1000_0101,
            ClockSelect::FSyncDiv64 => 0b1100_0101,
        }
    }
}

} // verus!
