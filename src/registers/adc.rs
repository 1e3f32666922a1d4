use super::{Register, WritableRegister};
use vstd::prelude::*;
use vstd::std_specs::convert::FromSpecImpl;

verus! {

#[derive(PartialEq, Debug, Copy, Clone, Default)]
pub enum RssiMargin {
    Five,
    Ten,
    Fifteen,
    #[default]
    Twenty,
}

#[derive(PartialEq, Debug, Copy, Clone, Default)]
pub enum AdcClockSpeed {
    #[default]
    Mhz4,
    Mhz8,
}

#[derive(PartialEq, Debug, Copy, Clone, Default)]
pub enum AdcCaptureMode {
    Single,
    #[default]
    Continuous,
}

/// ADC control register (write only).
#[derive(PartialEq, Debug, Copy, Clone, Default)]
pub struct AdcControl {
    pub margin: RssiMargin,
    /// If `true`, RSSI measurement will end when carrier detected and ID code word received
    pub rssi_end_early: bool,
    pub adc_clock_speed: AdcClockSpeed,
    pub capture_mode: AdcCaptureMode,
}

impl Register for AdcControl {
    open spec fn address() -> u8 {
        0x1E
    }

    fn id() -> (r: u8) {
        0x1E
    }
}

impl WritableRegister<1> for AdcControl {

}

impl FromSpecImpl<AdcControl> for u8 {
    open spec fn obeys_from_spec() -> bool {
        true
    }

    /// Margin in bits 7..6, early end in bit 5, clock speed in bit 4, bit 1 always set,
    /// capture mode in bit 0.
    open spec fn from_spec(val: AdcControl) -> u8 {
        0b0000_0010 | match val.margin {
            RssiMargin::Five => 0b0000_0000u8,
            RssiMargin::Ten => 0b0100_0000,
            RssiMargin::Fifteen => 0b1000_0000,
            RssiMargin::Twenty => 0b1100_0000,
        } | if val.rssi_end_early {
            0b0010_0000u8
        } else {
            0
        } | match val.adc_clock_speed {
            AdcClockSpeed::Mhz4 => 0b0000_0000u8,
            AdcClockSpeed::Mhz8 => 0b0001_0000,
        } | match val.capture_mode {
            AdcCaptureMode::Single => 0b0000_0000u8,
            AdcCaptureMode::Continuous => 0b0000_0001,
        }
    }
}

impl From<AdcControl> for u8 {
    fn from(val: AdcControl) -> u8 {
        0b0000_0010 | match val.margin {
            RssiMargin::Five => 0b0000_0000u8,
            RssiMargin::Ten => 0b0100_0000,
            RssiMargin::Fifteen => 0b1000_0000,
            RssiMargin::Twenty => 0b1100_0000,
        } | if val.rssi_end_early {
            0b0010_0000u8
        } else {
            0
        } | match val.adc_clock_speed {
            AdcClockSpeed::Mhz4 => 0b0000_0000u8,
            AdcClockSpeed::Mhz8 => 0b0001_0000,
        } | match val.capture_mode {
            AdcCaptureMode::Single => 0b0000_0000u8,
            AdcCaptureMode::Continuous => 0b0000_0001,
        }
    }
}

} // verus!
