//! Operating modes and one-shot commands of the radio.
use vstd::prelude::*;
use vstd::std_specs::convert::FromSpecImpl;

verus! {

/// A one-shot command that changes the internal state of the A7105
#[derive(PartialEq, Debug, Copy, Clone)]
pub enum Command {
    /// Instructs the A7105 to perform a software reset, resulting in the A7105 returning
    /// to its power-on-reset default state.
    Reset,
    /// Resets the write pointer for the TX FIFO to the beginning of the FIFO
    ResetFifoWritePointer,
    /// Resets the read pointer for the RX FIFO to the beginning of the FIFO
    ResetFifoReadPointer,
}

impl Command {
    /// The bytes written to the chip to issue the command.
    pub open spec fn spec_bytes(self) -> Seq<u8> {
        match self {
            Command::Reset => seq![0x00u8, 0x00u8],
            Command::ResetFifoReadPointer => seq![0b1111_0000u8],
            Command::ResetFifoWritePointer => seq![0b1110_0000u8],
        }
    }

    /// The bytes written to the chip to issue the command.
    pub fn bytes(self) -> (r: Vec<u8>)
        ensures
            r@ == self.spec_bytes(),
    {
        match self {
            Command::Reset => vec![0x00, 0x00],
            Command::ResetFifoReadPointer => vec![0b1111_0000],
            Command::ResetFifoWritePointer => vec![0b1110_0000],
        }
    }
}

/// The operating modes of the A7105; each is selected by writing a single strobe byte.
///
/// | Mode    | Regulator | Crystal | VCO | PLL | RX  | TX  |
/// |---------|-----------|---------|-----|-----|-----|-----|
/// | Sleep   | Off       | Off     | Off | Off | Off | Off |
/// | Idle    | On        | Off     | Off | Off | Off | Off |
/// | Standby | On        | On      | Off | Off | Off | Off |
/// | Pll     | On        | On      | On  | On  | Off | Off |
/// | Rx      | On        | On      | On  | On  | On  | Off |
/// | Tx      | On        | On      | On  | On  | Off | On  |
#[derive(PartialEq, Debug, Copy, Clone)]
pub enum Mode {
    /// A low power mode that powers off all internal circuitry except what is required to
    /// respond to SPI commands. The FIFO buffers can not be accessed in this mode.
    Sleep,
    /// A low power mode that is not as aggressive as [`Sleep`](Mode::Sleep). The FIFO
    /// buffers can be accessed like normal, but the RX/TX circuitry is powered down.
    Idle,
    /// The mode the A7105 is in after a power-on reset or a software reset.
    Standby,
    /// Powers up the VCO and PLL circuits but keeps the RX/TX circuits powered down. This
    /// mode must be active to perform VCO and IF filter calibration.
    Pll,
    /// The A7105 attempts to receive packets over the air. In FIFO mode the chip falls
    /// back to its previous mode once a complete packet has been received; in direct mode
    /// it stays in RX.
    Rx,
    /// The A7105 transmits. In FIFO mode the chip falls back to its previous mode once a
    /// complete packet has been sent; in direct mode it stays in TX.
    Tx,
}

impl FromSpecImpl<Mode> for u8 {
    open spec fn obeys_from_spec() -> bool {
        true
    }

    /// The mode's strobe byte: the mode in the high nibble, the low nibble zero.
    open spec fn from_spec(val: Mode) -> u8 {
        match val {
            Mode::Sleep => 0x80,
            Mode::Idle => 0x90,
            Mode::Standby => 0xA0,
            Mode::Pll => 0xB0,
            Mode::Rx => 0xC0,
            Mode::Tx => 0xD0,
        }
    }
}

impl From<Mode> for u8 {
    fn from(val: Mode) -> u8 {
        match val {
            Mode::Sleep => 0b1000_0000,
            Mode::Idle => 0b1001_0000,
            Mode::Standby => 0b1010_0000,
            Mode::Pll => 0b1011_0000,
            Mode::Rx => 0b1100_0000,
            Mode::Tx => 0b1101_0000,
        }
    }
}

} // verus!
