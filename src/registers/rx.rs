use super::{ReadableRegister, Register, WritableRegister};
use vstd::prelude::*;
use vstd::std_specs::convert::{FromSpec, FromSpecImpl};

verus! {

#[derive(PartialEq, Debug, Copy, Clone)]
pub enum Bandwidth {
    Khz250,
    Khz500,
}

/// RX register (write only).
#[derive(PartialEq, Debug, Copy, Clone)]
pub struct Rx {
    pub freq_compensation_enable: bool,
    pub data_invert: bool,
    pub bandwidth: Bandwidth,
    pub lowside_band_select: bool,
}

impl Default for Rx {
    fn default() -> (r: Self)
        ensures
            r == (Rx {
                freq_compensation_enable: false,
                data_invert: false,
                bandwidth: Bandwidth::Khz500,
                lowside_band_select: false,
            }),
    {
        Self {
            freq_compensation_enable: false,
            data_invert: false,
            bandwidth: Bandwidth::Khz500,
            lowside_band_select: false,
        }
    }
}

impl Register for Rx {
    open spec fn address() -> u8 {
        0x18
    }

    fn id() -> (r: u8) {
        0x18
    }
}

impl WritableRegister<1> for Rx {

}

impl FromSpecImpl<Rx> for u8 {
    open spec fn obeys_from_spec() -> bool {
        true
    }

    /// Bit 6 always set (the chip documents both `0b0100_0000` and `0b0110_0000` as base
    /// values), frequency compensation in bit 4, data inversion in bit 3, bandwidth in bit
    /// 1, low side band in bit 0.
    open spec fn from_spec(val: Rx) -> u8 {
        0b0100_0000 | (val.freq_compensation_enable as u8) << 4u8 | (val.data_invert as u8) << 3u8
            | match val.bandwidth {
            Bandwidth::Khz250 => 0b0u8,
            Bandwidth::Khz500 => 0b1,
        } << 1u8 | val.lowside_band_select as u8
    }
}

impl From<Rx> for u8 {
    fn from(val: Rx) -> u8 {
        0b0100_0000 | (val.freq_compensation_enable as u8) << 4u8 | (val.data_invert as u8) << 3u8
            | match val.bandwidth {
            Bandwidth::Khz250 => 0b0u8,
            Bandwidth::Khz500 => 0b1,
        } << 1u8 | val.lowside_band_select as u8
    }
}

#[derive(PartialEq, Debug, Copy, Clone)]
pub enum MixerGain {
    Db24,
    Db18,
    Db12,
    Db6,
}

#[derive(PartialEq, Debug, Copy, Clone)]
pub enum LnaGain {
    Db24,
    Db18,
    Db12,
    Db6,
    Db0,
}

/// RX gain register 1.
#[derive(PartialEq, Debug, Copy, Clone)]
pub struct RxGain1 {
    pub manual_vga_calibration: bool,
    pub mixer_gain: MixerGain,
    pub lna_gain: LnaGain,
}

impl Default for RxGain1 {
    fn default() -> (r: Self)
        ensures
            r == (RxGain1 {
                manual_vga_calibration: false,
                mixer_gain: MixerGain::Db24,
                lna_gain: LnaGain::Db24,
            }),
    {
        Self { manual_vga_calibration: false, mixer_gain: MixerGain::Db24, lna_gain: LnaGain::Db24 }
    }
}

impl Register for RxGain1 {
    open spec fn address() -> u8 {
        0x19
    }

    fn id() -> (r: u8) {
        0x19
    }
}

impl WritableRegister<1> for RxGain1 {

}

impl ReadableRegister<1> for RxGain1 {

}

impl FromSpecImpl<RxGain1> for u8 {
    open spec fn obeys_from_spec() -> bool {
        true
    }

    /// Manual VGA calibration in bit 7, mixer gain in bits 4..3, LNA gain in bits 2..0.
    open spec fn from_spec(val: RxGain1) -> u8 {
        (val.manual_vga_calibration as u8) << 7u8 | match val.mixer_gain {
            MixerGain::Db24 => 0b00u8,
            MixerGain::Db18 => 0b01,
            MixerGain::Db12 => 0b10,
            MixerGain::Db6 => 0b11,
        } << 3u8 | match val.lna_gain {
            LnaGain::Db24 => 0b000u8,
            LnaGain::Db18 => 0b001,
            LnaGain::Db12 => 0b010,
            LnaGain::Db6 => 0b011,
            LnaGain::Db0 => 0b100,
        }
    }
}

impl From<RxGain1> for u8 {
    fn from(val: RxGain1) -> u8 {
        (val.manual_vga_calibration as u8) << 7u8 | match val.mixer_gain {
            MixerGain::Db24 => 0b00u8,
            MixerGain::Db18 => 0b01,
            MixerGain::Db12 => 0b10,
            MixerGain::Db6 => 0b11,
        } << 3u8 | match val.lna_gain {
            LnaGain::Db24 => 0b000u8,
            LnaGain::Db18 => 0b001,
            LnaGain::Db12 => 0b010,
            LnaGain::Db6 => 0b011,
            LnaGain::Db0 => 0b100,
        }
    }
}

impl FromSpecImpl<u8> for RxGain1 {
    open spec fn obeys_from_spec() -> bool {
        true
    }

    /// LNA codes `0b100` to `0b111` all read as [`LnaGain::Db0`].
    open spec fn from_spec(val: u8) -> RxGain1 {
        RxGain1 {
            manual_vga_calibration: (val & 0b1000_0000) != 0,
            mixer_gain: match (val >> 3u8) & 0b11 {
                0b00u8 => MixerGain::Db24,
                0b01u8 => MixerGain::Db18,
                0b10u8 => MixerGain::Db12,
                _ => MixerGain::Db6,
            },
            lna_gain: match val & 0b111 {
                0b000u8 => LnaGain::Db24,
                0b001u8 => LnaGain::Db18,
                0b010u8 => LnaGain::Db12,
                0b011u8 => LnaGain::Db6,
                _ => LnaGain::Db0,
            },
        }
    }
}

impl From<u8> for RxGain1 {
    fn from(val: u8) -> Self {
        Self {
            manual_vga_calibration: (val & 0b1000_0000) != 0,
            mixer_gain: match (val >> 3u8) & 0b11 {
                0b00u8 => MixerGain::Db24,
                0b01u8 => MixerGain::Db18,
                0b10u8 => MixerGain::Db12,
                _ => MixerGain::Db6,
            },
            lna_gain: match val & 0b111 {
                0b000u8 => LnaGain::Db24,
                0b001u8 => LnaGain::Db18,
                0b010u8 => LnaGain::Db12,
                0b011u8 => LnaGain::Db6,
                _ => LnaGain::Db0,
            },
        }
    }
}

/// Every RX gain setting survives a write and a read back unchanged.
pub proof fn lemma_rx_gain1_round_trip(g: RxGain1)
    ensures
        <RxGain1 as FromSpec<u8>>::from_spec(<u8 as FromSpec<RxGain1>>::from_spec(g)) == g,
{
    let m = match g.mixer_gain {
        MixerGain::Db24 => 0b00u8,
        MixerGain::Db18 => 0b01,
        MixerGain::Db12 => 0b10,
        MixerGain::Db6 => 0b11,
    };
    let l = match g.lna_gain {
        LnaGain::Db24 => 0b000u8,
        LnaGain::Db18 => 0b001,
        LnaGain::Db12 => 0b010,
        LnaGain::Db6 => 0b011,
        LnaGain::Db0 => 0b100,
    };
    let c = g.manual_vga_calibration;
    let v = (c as u8) << 7u8 | m << 3u8 | l;
    assert(v == <u8 as FromSpec<RxGain1>>::from_spec(g));
    assert(((v & 0b1000_0000) != 0) == c && (v >> 3u8) & 0b11 == m && v & 0b111 == l)
        by (bit_vector)
        requires
            v == (c as u8) << 7u8 | m << 3u8 | l,
            m <= 0b11,
            l <= 0b100,
    ;
}

} // verus!
