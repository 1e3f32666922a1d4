use super::{Register, WritableRegister};
use vstd::prelude::*;
use vstd::std_specs::convert::{FromSpec, FromSpecImpl};

verus! {

#[derive(PartialEq, Debug, Copy, Clone)]
pub enum GpioPinFunction {
    /// Wait until TX or RX finished
    Wtr,
    /// (TX) end of access code / (RX) Frame Sync
    EoacOrFsync,
    /// (TX) TX modulation enable / (RX) Carrier Detect
    TmeoOrCd,
    PreableDetectOutput,
    Default,
    InPhaseDemodulatorInput,
    Sdo,
    Trxd,
    Rxd,
    Txd,
    InPhaseDemodulatorExternalInput,
    ExternalFsyncInput,
}

impl FromSpecImpl<GpioPinFunction> for u8 {
    open spec fn obeys_from_spec() -> bool {
        true
    }

    /// The pin function's code, already placed in bits 5..2.
    open spec fn from_spec(val: GpioPinFunction) -> u8 {
        match val {
            GpioPinFunction::Wtr => 0b0000_0000u8,
            GpioPinFunction::EoacOrFsync => 0b0000_0100,
            GpioPinFunction::TmeoOrCd => 0b0000_1000,
            GpioPinFunction::PreableDetectOutput => 0b0000_1100,
            GpioPinFunction::Default => 0b0001_0000,
            GpioPinFunction::InPhaseDemodulatorInput => 0b0001_0100,
            GpioPinFunction::Sdo => 0b0001_1000,
            GpioPinFunction::Trxd => 0b0011_1000,
            GpioPinFunction::Rxd => 0b0010_0000,
            GpioPinFunction::Txd => 0b0010_0100,
            GpioPinFunction::InPhaseDemodulatorExternalInput => 0b0010_1000,
            GpioPinFunction::ExternalFsyncInput => 0b0010_1100,
        }
    }
}

impl From<GpioPinFunction> for u8 {
    fn from(val: GpioPinFunction) -> u8 {
        match val {
            GpioPinFunction::Wtr => 0b0000_0000u8,
            GpioPinFunction::EoacOrFsync => 0b0000_0100,
            GpioPinFunction::TmeoOrCd => 0b0000_1000,
            GpioPinFunction::PreableDetectOutput => 0b0000_1100,
            GpioPinFunction::Default => 0b0001_0000,
            GpioPinFunction::InPhaseDemodulatorInput => 0b0001_0100,
            GpioPinFunction::Sdo => 0b0001_1000,
            GpioPinFunction::Trxd => 0b0011_1000,
            GpioPinFunction::Rxd => 0b0010_0000,
            GpioPinFunction::Txd => 0b0010_0100,
            GpioPinFunction::InPhaseDemodulatorExternalInput => 0b0010_1000,
            GpioPinFunction::ExternalFsyncInput => 0b0010_1100,
        }
    }
}

/// GPIO1 pin control register (write only).
#[derive(PartialEq, Debug, Copy, Clone)]
pub struct Gpio1PinControl {
    pub pin_function: GpioPinFunction,
    pub invert_output: bool,
    pub output_enabled: bool,
}

impl Default for Gpio1PinControl {
    fn default() -> (r: Self)
        ensures
            r == (Gpio1PinControl {
                pin_function: GpioPinFunction::Wtr,
                invert_output: false,
                output_enabled: true,
            }),
    {
        Self { pin_function: GpioPinFunction::Wtr, invert_output: false, output_enabled: true }
    }
}

impl Register for Gpio1PinControl {
    open spec fn address() -> u8 {
        0x0B
    }

    fn id() -> (r: u8) {
        0x0B
    }
}

impl WritableRegister<1> for Gpio1PinControl {

}

impl FromSpecImpl<Gpio1PinControl> for u8 {
    open spec fn obeys_from_spec() -> bool {
        true
    }

    /// Pin function in bits 5..2, output inversion in bit 1, output enable in bit 0.
    open spec fn from_spec(val: Gpio1PinControl) -> u8 {
        <u8 as FromSpec<GpioPinFunction>>::from_spec(val.pin_function) | (val.invert_output as u8)
            << 1u8 | val.output_enabled as u8
    }
}

impl From<Gpio1PinControl> for u8 {
    fn from(val: Gpio1PinControl) -> u8 {
        u8::from(val.pin_function) | (val.invert_output as u8) << 1u8 | val.output_enabled as u8
    }
}

/// GPIO2 pin control register (write only).
#[derive(PartialEq, Debug, Copy, Clone)]
pub struct Gpio2PinControl {
    pub pin_function: GpioPinFunction,
    pub invert_output: bool,
    pub output_enabled: bool,
}

impl Default for Gpio2PinControl {
    fn default() -> (r: Self)
        ensures
            r == (Gpio2PinControl {
                pin_function: GpioPinFunction::Default,
                invert_output: false,
                output_enabled: true,
            }),
    {
        Self { pin_function: GpioPinFunction::Default, invert_output: false, output_enabled: true }
    }
}

impl Register for Gpio2PinControl {
    open spec fn address() -> u8 {
        0x0C
    }

    fn id() -> (r: u8) {
        0x0C
    }
}

impl WritableRegister<1> for Gpio2PinControl {

}

impl FromSpecImpl<Gpio2PinControl> for u8 {
    open spec fn obeys_from_spec() -> bool {
        true
    }

    /// Pin function in bits 5..2, output inversion in bit 1, output enable in bit 0.
    open spec fn from_spec(val: Gpio2PinControl) -> u8 {
        <u8 as FromSpec<GpioPinFunction>>::from_spec(val.pin_function) | (val.invert_output as u8)
            << 1u8 | val.output_enabled as u8
    }
}

impl From<Gpio2PinControl> for u8 {
    fn from(val: Gpio2PinControl) -> u8 {
        u8::from(val.pin_function) | (val.invert_output as u8) << 1u8 | val.output_enabled as u8
    }
}

} // verus!
