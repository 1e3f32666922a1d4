use super::{Register, WritableRegister};
use vstd::prelude::*;
use vstd::std_specs::convert::FromSpecImpl;

verus! {

#[derive(PartialEq, Debug, Copy, Clone, Default)]
pub enum IdLength {
    Two,
    #[default]
    Four,
}

#[derive(PartialEq, Debug, Copy, Clone, Default)]
pub enum PreambleLength {
    One,
    Two,
    Three,
    #[default]
    Four,
}

/// Code register 1 (write only).
#[derive(PartialEq, Debug, Copy, Clone, Default)]
pub struct Code1 {
    pub data_whitening_enabled: bool,
    pub fec_enabled: bool,
    pub crc_enabled: bool,
    pub id_length: IdLength,
    pub preable_length: PreambleLength,
}

impl Register for Code1 {
    open spec fn address() -> u8 {
        0x1F
    }

    fn id() -> (r: u8) {
        0x1F
    }
}

impl WritableRegister<1> for Code1 {

}

impl FromSpecImpl<Code1> for u8 {
    open spec fn obeys_from_spec() -> bool {
        true
    }

    /// Whitening in bit 5, FEC in bit 4, CRC in bit 3, a four byte ID in bit 2, preamble
    /// length in bits 1..0.
    open spec fn from_spec(val: Code1) -> u8 {
        (if val.data_whitening_enabled {
            0b0010_0000u8
        } else {
            0
        }) | (if val.fec_enabled {
            0b0001_0000u8
        } else {
            0
        }) | (if val.crc_enabled {
            0b0000_1000u8
        } else {
            0
        }) | (if val.id_length == IdLength::Four {
            0b0000_0100u8
        } else {
            0
        }) | match val.preable_length {
            PreambleLength::One => 0u8,
            PreambleLength::Two => 0b01,
            PreambleLength::Three => 0b10,
            PreambleLength::Four => 0b11,
        }
    }
}

impl From<Code1> for u8 {
    fn from(val: Code1) -> u8 {
        (if val.data_whitening_enabled {
            0b0010_0000u8
        } else {
            0
        }) | (if val.fec_enabled {
            0b0001_0000u8
        } else {
            0
        }) | (if val.crc_enabled {
            0b0000_1000u8
        } else {
            0
        }) | (match val.id_length {
            IdLength::Four => 0b0000_0100u8,
            IdLength::Two => 0,
        }) | match val.preable_length {
            PreambleLength::One => 0u8,
            PreambleLength::Two => 0b01,
            PreambleLength::Three => 0b10,
            PreambleLength::Four => 0b11,
        }
    }
}

#[derive(PartialEq, Debug, Copy, Clone, Default)]
pub enum IdErrorCodeTolerance {
    Bits0,
    #[default]
    Bits1,
    Bits2,
    Bits3,
}

#[derive(PartialEq, Debug, Copy, Clone, Default)]
pub enum PreabmelPatternDetectionLength {
    Bits0,
    Bits4,
    Bits8,
    #[default]
    Bits16,
}

/// Code register 2 (write only).
#[derive(PartialEq, Debug, Copy, Clone)]
pub struct Code2 {
    /// Only the low three bits are carried.
    pub demodulator_dc_estimation_average_mode: u8,
    pub id_error_code_tolerance: IdErrorCodeTolerance,
    pub preamble_pattern_detection_length: PreabmelPatternDetectionLength,
}

impl Default for Code2 {
    fn default() -> (r: Self)
        ensures
            r == (Code2 {
                demodulator_dc_estimation_average_mode: 0b001,
                id_error_code_tolerance: IdErrorCodeTolerance::Bits1,
                preamble_pattern_detection_length: PreabmelPatternDetectionLength::Bits16,
            }),
    {
        Self {
            demodulator_dc_estimation_average_mode: 0b001,
            id_error_code_tolerance: IdErrorCodeTolerance::Bits1,
            preamble_pattern_detection_length: PreabmelPatternDetectionLength::Bits16,
        }
    }
}

impl Register for Code2 {
    open spec fn address() -> u8 {
        0x20
    }

    fn id() -> (r: u8) {
        0x20
    }
}

impl WritableRegister<1> for Code2 {

}

impl FromSpecImpl<Code2> for u8 {
    open spec fn obeys_from_spec() -> bool {
        true
    }

    /// Averaging mode in bits 6..4, ID error tolerance in bits 3..2, preamble pattern
    /// detection length in bits 1..0.
    open spec fn from_spec(val: Code2) -> u8 {
        (val.demodulator_dc_estimation_average_mode & 0b111) << 4u8 | match val.id_error_code_tolerance {
            IdErrorCodeTolerance::Bits0 => 0u8,
            IdErrorCodeTolerance::Bits1 => 0b0100,
            IdErrorCodeTolerance::Bits2 => 0b1000,
            IdErrorCodeTolerance::Bits3 => 0b1100,
        } | match val.preamble_pattern_detection_length {
            PreabmelPatternDetectionLength::Bits0 => 0u8,
            PreabmelPatternDetectionLength::Bits4 => 0b01,
            PreabmelPatternDetectionLength::Bits8 => 0b10,
            PreabmelPatternDetectionLength::Bits16 => 0b11,
        }
    }
}

impl From<Code2> for u8 {
    fn from(val: Code2) -> u8 {
        (val.demodulator_dc_estimation_average_mode & 0b111) << 4u8 | match val.id_error_code_tolerance {
            IdErrorCodeTolerance::Bits0 => 0u8,
            IdErrorCodeTolerance::Bits1 => 0b0100,
            IdErrorCodeTolerance::Bits2 => 0b1000,
            IdErrorCodeTolerance::Bits3 => 0b1100,
        } | match val.preamble_pattern_detection_length {
            PreabmelPatternDetectionLength::Bits0 => 0u8,
            PreabmelPatternDetectionLength::Bits4 => 0b01,
            PreabmelPatternDetectionLength::Bits8 => 0b10,
            PreabmelPatternDetectionLength::Bits16 => 0b11,
        }
    }
}

/// Code register 3: the data whitening key (write only).
#[derive(PartialEq, Debug, Copy, Clone)]
pub struct Code3 {
    /// Only the low seven bits are carried.
    pub encryption_key: u8,
}

impl Default for Code3 {
    fn default() -> (r: Self)
        ensures
            r == (Code3 { encryption_key: 0b0010_1010 }),
    {
        Self { encryption_key: 0b0010_1010 }
    }
}

impl WritableRegister<1> for Code3 {

}

impl Register for Code3 {
    open spec fn address() -> u8 {
        0x21
    }

    fn id() -> (r: u8) {
        0x21
    }
}

impl FromSpecImpl<Code3> for u8 {
    open spec fn obeys_from_spec() -> bool {
        true
    }

    open spec fn from_spec(val: Code3) -> u8 {
        val.encryption_key & 0b0111_1111
    }
}

impl From<Code3> for u8 {
    fn from(val: Code3) -> u8 {
        val.encryption_key & 0b0111_1111
    }
}

} // verus!
