use super::{Register, WritableRegister};
use vstd::prelude::*;
use vstd::std_specs::convert::FromSpecImpl;

verus! {

#[derive(PartialEq, Debug, Copy, Clone, Default)]
pub enum PinOutputMode {
    DckInTxRckInRx,
    FifoPointerFlag,
    Fsync,
    FsyncDiv2,
    FsyncDiv4,
    #[default]
    FsyncDiv8,
}

/// CKO pin control register (write only).
#[derive(PartialEq, Debug, Copy, Clone)]
pub struct CkoPinControl {
    pub external_clock_output_enabled: bool,
    pub pin_output_mode: PinOutputMode,
    pub invert_output: bool,
    pub output_enabled: bool,
    pub invert_spi_clk_input: bool,
}

impl Default for CkoPinControl {
    fn default() -> (r: Self)
        ensures
            r == (CkoPinControl {
                external_clock_output_enabled: true,
                pin_output_mode: PinOutputMode::FsyncDiv8,
                invert_output: false,
                output_enabled: true,
                invert_spi_clk_input: false,
            }),
    {
        Self {
            external_clock_output_enabled: true,
            pin_output_mode: PinOutputMode::FsyncDiv8,
            invert_output: false,
            output_enabled: true,
            invert_spi_clk_input: false,
        }
    }
}

impl Register for CkoPinControl {
    open spec fn address() -> u8 {
        0x0A
    }

    fn id() -> (r: u8) {
        0x0A
    }
}

impl WritableRegister<1> for CkoPinControl {

}

impl FromSpecImpl<CkoPinControl> for u8 {
    open spec fn obeys_from_spec() -> bool {
        true
    }

    /// Clock output enable in bit 7, pin mode in bits 5..3, output inversion in bit 2,
    /// output enable in bit 1, SPI clock inversion in bit 0.
    open spec fn from_spec(val: CkoPinControl) -> u8 {
        (val.external_clock_output_enabled as u8) << 7u8 | match val.pin_output_mode {
            PinOutputMode::DckInTxRckInRx => 0b0000_0000u8,
            PinOutputMode::FifoPointerFlag => 0b0001_0000,
            PinOutputMode::Fsync => 0b0010_0000,
            PinOutputMode::FsyncDiv2 => 0b0010_1000,
            PinOutputMode::FsyncDiv4 => 0b0011_0000,
            PinOutputMode::FsyncDiv8 => 0b0011_1000,
        } | (val.invert_output as u8) << 2u8 | (val.output_enabled as u8) << 1u8
            | val.invert_spi_clk_input as u8
    }
}

impl From<CkoPinControl> for u8 {
    fn from(val: CkoPinControl) -> u8 {
        (val.external_clock_output_enabled as u8) << 7u8 | match val.pin_output_mode {
            PinOutputMode::DckInTxRckInRx => 0b0000_0000u8,
            PinOutputMode::FifoPointerFlag => 0b0001_0000,
            PinOutputMode::Fsync => 0b0010_0000,
            PinOutputMode::FsyncDiv2 => 0b0010_1000,
            PinOutputMode::FsyncDiv4 => 0b0011_0000,
            PinOutputMode::FsyncDiv8 => 0b0011_1000,
        } | (val.invert_output as u8) << 2u8 | (val.output_enabled as u8) << 1u8
            | val.invert_spi_clk_input as u8
    }
}

} // verus!
