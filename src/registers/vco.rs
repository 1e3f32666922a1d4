use super::{ReadableRegister, Register, WritableRegister};
use vstd::prelude::*;
use vstd::std_specs::convert::FromSpecImpl;

verus! {

/// VCO current calibration setting (write side of address 0x24).
#[derive(PartialEq, Debug, Copy, Clone)]
pub enum VcoCurrentCalibration {
    Automatic,
    /// A manual value; only its low four bits are carried.
    Manual(u8),
}

impl Default for VcoCurrentCalibration {
    fn default() -> (r: Self)
        ensures
            r == VcoCurrentCalibration::Manual(0b011),
    {
        Self::Manual(0b011)
    }
}

impl Register for VcoCurrentCalibration {
    open spec fn address() -> u8 {
        0x24
    }

    fn id() -> (r: u8) {
        0x24
    }
}

impl WritableRegister<1> for VcoCurrentCalibration {

}

impl FromSpecImpl<VcoCurrentCalibration> for u8 {
    open spec fn obeys_from_spec() -> bool {
        true
    }

    /// A manual value sets bit 4 and carries the value in bits 3..0; automatic is zero.
    open spec fn from_spec(val: VcoCurrentCalibration) -> u8 {
        match val {
            VcoCurrentCalibration::Automatic => 0,
            VcoCurrentCalibration::Manual(v) => (v & 0b1111) | 0b1_0000,
        }
    }
}

impl From<VcoCurrentCalibration> for u8 {
    fn from(val: VcoCurrentCalibration) -> u8 {
        match val {
            VcoCurrentCalibration::Automatic => 0,
            VcoCurrentCalibration::Manual(v) => (v & 0b1111) | 0b1_0000,
        }
    }
}

/// VCO current calibration result (read side of address 0x24).
#[derive(PartialEq, Debug, Copy, Clone)]
pub struct VcoCurrentCalibrationResult {
    pub success: bool,
    pub value: u8,
}

impl Register for VcoCurrentCalibrationResult {
    open spec fn address() -> u8 {
        0x24
    }

    fn id() -> (r: u8) {
        0x24
    }
}

impl ReadableRegister<1> for VcoCurrentCalibrationResult {

}

impl FromSpecImpl<u8> for VcoCurrentCalibrationResult {
    open spec fn obeys_from_spec() -> bool {
        true
    }

    /// Success flag in bit 4, value in bits 3..0.
    open spec fn from_spec(val: u8) -> VcoCurrentCalibrationResult {
        VcoCurrentCalibrationResult { success: (val & 0b1_0000) != 0, value: val & 0b1111 }
    }
}

impl From<u8> for VcoCurrentCalibrationResult {
    fn from(val: u8) -> Self {
        Self { success: (val & 0b1_0000) != 0, value: val & 0b1111 }
    }
}

/// VCO single band calibration setting (write side of address 0x25).
#[derive(PartialEq, Debug, Copy, Clone, Default)]
pub enum VcoSingleBandCalibration1 {
    #[default]
    Automatic,
    /// A manual value; only its low three bits are carried.
    Manual(u8),
}

impl Register for VcoSingleBandCalibration1 {
    open spec fn address() -> u8 {
        0x25
    }

    fn id() -> (r: u8) {
        0x25
    }
}

impl WritableRegister<1> for VcoSingleBandCalibration1 {

}

impl FromSpecImpl<VcoSingleBandCalibration1> for u8 {
    open spec fn obeys_from_spec() -> bool {
        true
    }

    /// A manual value sets bit 3 and carries the value in bits 2..0; automatic is zero.
    open spec fn from_spec(val: VcoSingleBandCalibration1) -> u8 {
        match val {
            VcoSingleBandCalibration1::Automatic => 0,
            VcoSingleBandCalibration1::Manual(v) => (v & 0b111) | 0b1000,
        }
    }
}

impl From<VcoSingleBandCalibration1> for u8 {
    fn from(val: VcoSingleBandCalibration1) -> u8 {
        match val {
            VcoSingleBandCalibration1::Automatic => 0,
            VcoSingleBandCalibration1::Manual(v) => (v & 0b111) | 0b1000,
        }
    }
}

#[derive(PartialEq, Debug, Copy, Clone)]
pub enum VcoVoltageOutput {
    /// VT<VTL<VTH
    VtMin,
    /// VTL<VT<VTH
    VtMid,
    /// VTL<VTH<VT
    VtMax,
}

/// VCO single band calibration result (read side of address 0x25).
#[derive(PartialEq, Debug, Copy, Clone)]
pub struct VcoSingleBandCalibration1Result {
    pub voltage_output: VcoVoltageOutput,
    pub success: bool,
    pub value: u8,
}

impl Register for VcoSingleBandCalibration1Result {
    open spec fn address() -> u8 {
        0x25
    }

    fn id() -> (r: u8) {
        0x25
    }
}

impl ReadableRegister<1> for VcoSingleBandCalibration1Result {

}

impl FromSpecImpl<u8> for VcoSingleBandCalibration1Result {
    open spec fn obeys_from_spec() -> bool {
        true
    }

    /// Tuning voltage comparison in bits 5..4 (`0b10` and `0b11` both read as
    /// [`VcoVoltageOutput::VtMax`]), success flag in bit 3, value in bits 2..0.
    open spec fn from_spec(val: u8) -> VcoSingleBandCalibration1Result {
        VcoSingleBandCalibration1Result {
            voltage_output: match (val & 0b11_0000) >> 4u8 {
                0b00u8 => VcoVoltageOutput::VtMin,
                0b01u8 => VcoVoltageOutput::VtMid,
                _ => VcoVoltageOutput::VtMax,
            },
            success: (val & 0b1000) != 0,
            value: val & 0b111,
        }
    }
}

impl From<u8> for VcoSingleBandCalibration1Result {
    fn from(val: u8) -> Self {
        Self {
            voltage_output: match (val & 0b11_0000) >> 4u8 {
                0b00u8 => VcoVoltageOutput::VtMin,
                0b01u8 => VcoVoltageOutput::VtMid,
                _ => VcoVoltageOutput::VtMax,
            },
            success: (val & 0b1000) != 0,
            value: val & 0b111,
        }
    }
}

/// VCO single band calibration thresholds (write only).
#[derive(PartialEq, Debug, Copy, Clone, Default)]
pub struct VcoSingleBandCalibration2 {
    /// VCO tuning voltage upper threshold level setting.
    pub voltage_upper_threshold: TuningVoltageUpperThreshold,
    /// VCO tuning voltage lower threshold level setting.
    pub voltage_lower_threshold: TuningVoltageLowerThreshold,
}

#[derive(PartialEq, Debug, Copy, Clone, Default)]
pub enum TuningVoltageUpperThreshold {
    /// 0.6V
    V06,
    /// 0.7V
    V07,
    /// 0.8V
    V08,
    /// 0.9V
    V09,
    /// 1.0V
    V10,
    /// 1.1V
    V11,
    /// 1.2V
    V12,
    /// 1.3V
    #[default]
    V13,
}

#[derive(PartialEq, Debug, Copy, Clone, Default)]
pub enum TuningVoltageLowerThreshold {
    /// 0.1V
    V01,
    /// 0.2V
    V02,
    /// 0.3V
    V03,
    /// 0.4V
    #[default]
    V04,
    /// 0.5V
    V05,
    /// 0.6V
    V06,
    /// 0.7V
    V07,
    /// 0.8V
    V08,
}

impl Register for VcoSingleBandCalibration2 {
    open spec fn address() -> u8 {
        0x26
    }

    fn id() -> (r: u8) {
        0x26
    }
}

impl WritableRegister<1> for VcoSingleBandCalibration2 {

}

impl FromSpecImpl<VcoSingleBandCalibration2> for u8 {
    open spec fn obeys_from_spec() -> bool {
        true
    }

    /// Upper threshold in bits 5..3, lower threshold in bits 2..0.
    open spec fn from_spec(val: VcoSingleBandCalibration2) -> u8 {
        (match val.voltage_upper_threshold {
            TuningVoltageUpperThreshold::V06 => 0b000u8,
            TuningVoltageUpperThreshold::V07 => 0b001,
            TuningVoltageUpperThreshold::V08 => 0b010,
            TuningVoltageUpperThreshold::V09 => 0b011,
            TuningVoltageUpperThreshold::V10 => 0b100,
            TuningVoltageUpperThreshold::V11 => 0b101,
            TuningVoltageUpperThreshold::V12 => 0b110,
            TuningVoltageUpperThreshold::V13 => 0b111,
        } << 3u8) | match val.voltage_lower_threshold {
            TuningVoltageLowerThreshold::V01 => 0b000u8,
            TuningVoltageLowerThreshold::V02 => 0b001,
            TuningVoltageLowerThreshold::V03 => 0b010,
            TuningVoltageLowerThreshold::V04 => 0b011,
            TuningVoltageLowerThreshold::V05 => 0b100,
            TuningVoltageLowerThreshold::V06 => 0b101,
            TuningVoltageLowerThreshold::V07 => 0b110,
            TuningVoltageLowerThreshold::V08 => 0b111,
        }
    }
}

impl From<VcoSingleBandCalibration2> for u8 {
    fn from(val: VcoSingleBandCalibration2) -> u8 {
        (match val.voltage_upper_threshold {
            TuningVoltageUpperThreshold::V06 => 0b000u8,
            TuningVoltageUpperThreshold::V07 => 0b001,
            TuningVoltageUpperThreshold::V08 => 0b010,
            TuningVoltageUpperThreshold::V09 => 0b011,
            TuningVoltageUpperThreshold::V10 => 0b100,
            TuningVoltageUpperThreshold::V11 => 0b101,
            TuningVoltageUpperThreshold::V12 => 0b110,
            TuningVoltageUpperThreshold::V13 => 0b111,
        } << 3u8) | match val.voltage_lower_threshold {
            TuningVoltageLowerThreshold::V01 => 0b000u8,
            TuningVoltageLowerThreshold::V02 => 0b001,
            TuningVoltageLowerThreshold::V03 => 0b010,
            TuningVoltageLowerThreshold::V04 => 0b011,
            TuningVoltageLowerThreshold::V05 => 0b100,
            TuningVoltageLowerThreshold::V06 => 0b101,
            TuningVoltageLowerThreshold::V07 => 0b110,
            TuningVoltageLowerThreshold::V08 => 0b111,
        }
    }
}

} // verus!
