use super::{ReadableRegister, Register, WritableRegister};
use vstd::prelude::*;
use vstd::std_specs::convert::{FromSpec, FromSpecImpl};

verus! {

/// Calibration control register; each flag is cleared by the chip when its calibration is done.
#[derive(PartialEq, Debug, Copy, Clone, Default)]
pub struct CalibrationControl {
    /// VCO Current calibration enable (Auto clear when done)
    pub vco_current_calibration_enabled: bool,
    /// VCO Bank calibration enable (Auto clear when done)
    pub vco_bank_calibration_enabled: bool,
    /// IF Filter Bank calibration enable (Auto clear when done)
    pub if_filter_bank_calibration_enabled: bool,
}

impl Register for CalibrationControl {
    open spec fn address() -> u8 {
        0x02
    }

    fn id() -> (r: u8) {
        0x02
    }
}

impl ReadableRegister<1> for CalibrationControl {

}

impl WritableRegister<1> for CalibrationControl {

}

impl FromSpecImpl<u8> for CalibrationControl {
    open spec fn obeys_from_spec() -> bool {
        true
    }

    /// VCO current flag in bit 2, VCO bank flag in bit 1, IF filter bank flag in bit 0.
    open spec fn from_spec(val: u8) -> CalibrationControl {
        CalibrationControl {
            vco_current_calibration_enabled: 0b0000_0100 & val != 0,
            vco_bank_calibration_enabled: 0b0000_0010 & val != 0,
            if_filter_bank_calibration_enabled: 0b0000_0001 & val != 0,
        }
    }
}

impl From<u8> for CalibrationControl {
    fn from(val: u8) -> Self {
        Self {
            vco_current_calibration_enabled: 0b0000_0100 & val != 0,
            vco_bank_calibration_enabled: 0b0000_0010 & val != 0,
            if_filter_bank_calibration_enabled: 0b0000_0001 & val != 0,
        }
    }
}

impl FromSpecImpl<CalibrationControl> for u8 {
    open spec fn obeys_from_spec() -> bool {
        true
    }

    open spec fn from_spec(val: CalibrationControl) -> u8 {
        (val.vco_current_calibration_enabled as u8) << 2u8 | (val.vco_bank_calibration_enabled as u8)
            << 1u8 | val.if_filter_bank_calibration_enabled as u8
    }
}

impl From<CalibrationControl> for u8 {
    fn from(val: CalibrationControl) -> u8 {
        (val.vco_current_calibration_enabled as u8) << 2u8 | (val.vco_bank_calibration_enabled as u8)
            << 1u8 | val.if_filter_bank_calibration_enabled as u8
    }
}

/// A calibration control value survives a write and a read back unchanged.
pub proof fn lemma_calibration_control_round_trip(c: CalibrationControl)
    ensures
        <CalibrationControl as FromSpec<u8>>::from_spec(
            <u8 as FromSpec<CalibrationControl>>::from_spec(c),
        ) == c,
{
    let (a, b, d) = (
        c.vco_current_calibration_enabled,
        c.vco_bank_calibration_enabled,
        c.if_filter_bank_calibration_enabled,
    );
    let v = (a as u8) << 2u8 | (b as u8) << 1u8 | d as u8;
    assert((0b0000_0100 & v != 0) == a && (0b0000_0010 & v != 0) == b && (0b0000_0001 & v != 0)
        == d) by (bit_vector)
        requires
            v == (a as u8) << 2u8 | (b as u8) << 1u8 | d as u8,
    ;
}

} // verus!
