use super::{ReadableRegister, Register, WritableRegister};
use vstd::prelude::*;
use vstd::std_specs::convert::FromSpecImpl;

verus! {

/// Battery detect configuration (write side of address 0x27).
#[derive(PartialEq, Debug, Copy, Clone, Default)]
pub struct BatteryDetectConfig {
    /// VDD D voltage setting in Sleep mode
    pub sleep_voltage_setting: SleepModeVoltageSetting,
    /// VDD D and VDD A voltage setting in non-Sleep mode
    pub nonsleep_voltage_setting: NonSleepModeVoltageSetting,
    /// Battery voltage detect threshold
    pub detect_threshold: DetectThreshold,
    /// Battery detect threshold enabled
    pub detect_enabled: bool,
}

impl Register for BatteryDetectConfig {
    open spec fn address() -> u8 {
        0x27
    }

    fn id() -> (r: u8) {
        0x27
    }
}

impl WritableRegister<1> for BatteryDetectConfig {

}

impl FromSpecImpl<BatteryDetectConfig> for u8 {
    open spec fn obeys_from_spec() -> bool {
        true
    }

    /// Sleep setting in bit 7, non-sleep setting in bits 6..5, threshold in bits 3..1,
    /// enable flag in bit 0.
    open spec fn from_spec(val: BatteryDetectConfig) -> u8 {
        val.detect_enabled as u8 | match val.detect_threshold {
            DetectThreshold::V20 => 0b000u8,
            DetectThreshold::V21 => 0b001,
            DetectThreshold::V22 => 0b010,
            DetectThreshold::V23 => 0b011,
            DetectThreshold::V24 => 0b100,
            DetectThreshold::V25 => 0b101,
            DetectThreshold::V26 => 0b110,
            DetectThreshold::V27 => 0b111,
        } << 1u8 | match val.nonsleep_voltage_setting {
            NonSleepModeVoltageSetting::V18 => 0b11u8,
            NonSleepModeVoltageSetting::V19 => 0b10,
            NonSleepModeVoltageSetting::V20 => 0b01,
            NonSleepModeVoltageSetting::V21 => 0b00,
        } << 5u8 | match val.sleep_voltage_setting {
            SleepModeVoltageSetting::ThreeFifth => 0b0u8,
            SleepModeVoltageSetting::ThreeForths => 0b1,
        } << 7u8
    }
}

impl From<BatteryDetectConfig> for u8 {
    fn from(val: BatteryDetectConfig) -> u8 {
        val.detect_enabled as u8 | match val.detect_threshold {
            DetectThreshold::V20 => 0b000u8,
            DetectThreshold::V21 => 0b001,
            DetectThreshold::V22 => 0b010,
            DetectThreshold::V23 => 0b011,
            DetectThreshold::V24 => 0b100,
            DetectThreshold::V25 => 0b101,
            DetectThreshold::V26 => 0b110,
            DetectThreshold::V27 => 0b111,
        } << 1u8 | match val.nonsleep_voltage_setting {
            NonSleepModeVoltageSetting::V18 => 0b11u8,
            NonSleepModeVoltageSetting::V19 => 0b10,
            NonSleepModeVoltageSetting::V20 => 0b01,
            NonSleepModeVoltageSetting::V21 => 0b00,
        } << 5u8 | match val.sleep_voltage_setting {
            SleepModeVoltageSetting::ThreeFifth => 0b0u8,
            SleepModeVoltageSetting::ThreeForths => 0b1,
        } << 7u8
    }
}

#[derive(PartialEq, Debug, Copy, Clone, Default)]
pub enum SleepModeVoltageSetting {
    /// 3/5 * REGI
    #[default]
    ThreeFifth,
    /// 3/4 * REGI
    ThreeForths,
}

#[derive(PartialEq, Debug, Copy, Clone, Default)]
pub enum NonSleepModeVoltageSetting {
    /// 1.8V
    V18,
    /// 1.9V
    V19,
    /// 2.0V
    V20,
    /// 2.1V
    #[default]
    V21,
}

#[derive(PartialEq, Debug, Copy, Clone, Default)]
pub enum DetectThreshold {
    /// 2.0V
    V20,
    /// 2.1V
    V21,
    /// 2.2V
    V22,
    /// 2.3V
    #[default]
    V23,
    /// 2.4V
    V24,
    /// 2.5V
    V25,
    /// 2.6V
    V26,
    /// 2.7V
    V27,
}

/// Battery detect result (read side of address 0x27).
#[derive(PartialEq, Debug, Copy, Clone, Default)]
pub struct BatteryDetectResult {
    /// Battery detection flag
    pub voltage_above_threshold: bool,
}

impl Register for BatteryDetectResult {
    open spec fn address() -> u8 {
        0x27
    }

    fn id() -> (r: u8) {
        0x27
    }
}

impl ReadableRegister<1> for BatteryDetectResult {

}

impl FromSpecImpl<u8> for BatteryDetectResult {
    open spec fn obeys_from_spec() -> bool {
        true
    }

    /// The detection flag is bit 4.
    open spec fn from_spec(val: u8) -> BatteryDetectResult {
        BatteryDetectResult { voltage_above_threshold: (val & 0b0001_0000) != 0 }
    }
}

impl From<u8> for BatteryDetectResult {
    fn from(val: u8) -> Self {
        Self { voltage_above_threshold: (val & 0b0001_0000) != 0 }
    }
}

} // verus!
