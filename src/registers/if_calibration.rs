use super::{ReadableRegister, Register, WritableRegister};
use vstd::prelude::*;
use vstd::std_specs::convert::FromSpecImpl;

verus! {

/// IF filter calibration setting (write side of address 0x22).
#[derive(PartialEq, Debug, Copy, Clone, Default)]
pub struct IfCalibration1Config {
    /// The calibration value to use (low four bits). A value of `None` indicates an
    /// automatic calibration
    pub calibration_value: Option<u8>,
}

impl Register for IfCalibration1Config {
    open spec fn address() -> u8 {
        0x22
    }

    fn id() -> (r: u8) {
        0x22
    }
}

impl WritableRegister<1> for IfCalibration1Config {

}

impl FromSpecImpl<IfCalibration1Config> for u8 {
    open spec fn obeys_from_spec() -> bool {
        true
    }

    /// A manual value sets bit 4 and carries the value in bits 3..0; automatic is zero.
    open spec fn from_spec(cfg: IfCalibration1Config) -> u8 {
        match cfg.calibration_value {
            Some(val) => 0b0001_0000 | (val & 0b1111),
            None => 0b0000_0000,
        }
    }
}

impl From<IfCalibration1Config> for u8 {
    fn from(cfg: IfCalibration1Config) -> u8 {
        if let Some(val) = cfg.calibration_value {
            0b0001_0000 | (val & 0b1111)
        } else {
            0b0000_0000
        }
    }
}

/// IF filter calibration result (read side of address 0x22).
#[derive(PartialEq, Debug, Copy, Clone, Default)]
pub struct IfCalibration1Result {
    pub calibration_successful: bool,
    pub calibration_value: u8,
}

impl Register for IfCalibration1Result {
    open spec fn address() -> u8 {
        0x22
    }

    fn id() -> (r: u8) {
        0x22
    }
}

impl ReadableRegister<1> for IfCalibration1Result {

}

impl FromSpecImpl<u8> for IfCalibration1Result {
    open spec fn obeys_from_spec() -> bool {
        true
    }

    /// Success flag in bit 4, value in bits 3..0.
    open spec fn from_spec(val: u8) -> IfCalibration1Result {
        IfCalibration1Result {
            calibration_successful: (val & 0b0001_0000) != 0,
            calibration_value: val & 0b1111,
        }
    }
}

impl From<u8> for IfCalibration1Result {
    fn from(val: u8) -> Self {
        Self {
            calibration_successful: (val & 0b0001_0000) != 0,
            calibration_value: val & 0b1111,
        }
    }
}

/// IF filter calibration deviation (read only).
#[derive(PartialEq, Debug, Copy, Clone)]
pub struct IfCalibration2 {
    pub deviation: u8,
}

impl Register for IfCalibration2 {
    open spec fn address() -> u8 {
        0x23
    }

    fn id() -> (r: u8) {
        0x23
    }
}

impl ReadableRegister<1> for IfCalibration2 {

}

impl FromSpecImpl<u8> for IfCalibration2 {
    open spec fn obeys_from_spec() -> bool {
        true
    }

    /// The deviation is bits 4..0.
    open spec fn from_spec(val: u8) -> IfCalibration2 {
        IfCalibration2 { deviation: val & 0b0001_1111 }
    }
}

impl From<u8> for IfCalibration2 {
    fn from(val: u8) -> Self {
        Self { deviation: val & 0b0001_1111 }
    }
}

} // verus!
