use super::{ReadableRegister, Register, WritableRegister};
use vstd::prelude::*;
use vstd::std_specs::convert::FromSpecImpl;

verus! {

/// The mode register read back as a status: the validity flags of the packet last received.
///
/// The register holds further state flags (RF, PLL and TRX enables, TRX direction) that
/// are not decoded here.
#[derive(PartialEq, Debug, Copy, Clone)]
pub struct Mode {
    /// Forward error correction passed on the received packet; updated by the chip on
    /// every packet.
    pub fec_pass: bool,
    /// CRC check passed on the received packet; updated by the chip on every packet.
    pub crc_pass: bool,
}

impl Register for Mode {
    open spec fn address() -> u8 {
        0x00
    }

    fn id() -> (r: u8) {
        0x00
    }
}

impl ReadableRegister<1> for Mode {

}

impl FromSpecImpl<u8> for Mode {
    open spec fn obeys_from_spec() -> bool {
        true
    }

    /// The FEC flag is bit 6, the CRC flag bit 5.
    open spec fn from_spec(val: u8) -> Mode {
        Mode { fec_pass: 0b0100_0000 & val != 0, crc_pass: 0b0010_0000 & val != 0 }
    }
}

impl From<u8> for Mode {
    fn from(val: u8) -> Self {
        Self { fec_pass: 0b0100_0000 & val != 0, crc_pass: 0b0010_0000 & val != 0 }
    }
}

/// Writing this register makes the chip perform a software reset.
#[derive(PartialEq, Debug, Copy, Clone, Default)]
#[non_exhaustive]
pub struct Reset {}

impl Register for Reset {
    open spec fn address() -> u8 {
        0x00
    }

    fn id() -> (r: u8) {
        0x00
    }
}

impl WritableRegister<1> for Reset {

}

impl FromSpecImpl<Reset> for u8 {
    open spec fn obeys_from_spec() -> bool {
        true
    }

    open spec fn from_spec(_val: Reset) -> u8 {
        0
    }
}

impl From<Reset> for u8 {
    fn from(_val: Reset) -> u8 {
        0
    }
}

} // verus!
