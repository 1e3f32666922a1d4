use super::{Register, WritableRegister};
use vstd::prelude::*;
use vstd::std_specs::convert::FromSpecImpl;

verus! {

#[derive(PartialEq, Debug, Copy, Clone)]
pub enum WpllToTx {
    Us20,
    Us40,
    Us60,
    Us80,
}

#[derive(PartialEq, Debug, Copy, Clone)]
pub enum PllToWpll {
    Us50,
    Us70,
    Us90,
    Us110,
}

/// Delay register 1 (write only).
#[derive(PartialEq, Debug, Copy, Clone)]
pub struct Delay1 {
    pub wpl_to_tx: WpllToTx,
    pub pll_to_wpll: PllToWpll,
}

impl Default for Delay1 {
    fn default() -> (r: Self)
        ensures
            r == (Delay1 { wpl_to_tx: WpllToTx::Us60, pll_to_wpll: PllToWpll::Us70 }),
    {
        Self { wpl_to_tx: WpllToTx::Us60, pll_to_wpll: PllToWpll::Us70 }
    }
}

impl Register for Delay1 {
    open spec fn address() -> u8 {
        0x16
    }

    fn id() -> (r: u8) {
        0x16
    }
}

impl WritableRegister<1> for Delay1 {

}

impl FromSpecImpl<Delay1> for u8 {
    open spec fn obeys_from_spec() -> bool {
        true
    }

    /// WPLL to TX delay in bits 4..3, PLL to WPLL delay in bits 2..0.
    open spec fn from_spec(val: Delay1) -> u8 {
        (match val.wpl_to_tx {
            WpllToTx::Us20 => 0b00u8,
            WpllToTx::Us40 => 0b01,
            WpllToTx::Us60 => 0b10,
            WpllToTx::Us80 => 0b11,
        } << 3u8) | match val.pll_to_wpll {
            PllToWpll::Us50 => 0b001u8,
            PllToWpll::Us70 => 0b010,
            PllToWpll::Us90 => 0b011,
            PllToWpll::Us110 => 0b100,
        }
    }
}

impl From<Delay1> for u8 {
    fn from(val: Delay1) -> u8 {
        (match val.wpl_to_tx {
            WpllToTx::Us20 => 0b00u8,
            WpllToTx::Us40 => 0b01,
            WpllToTx::Us60 => 0b10,
            WpllToTx::Us80 => 0b11,
        } << 3u8) | match val.pll_to_wpll {
            PllToWpll::Us50 => 0b001u8,
            PllToWpll::Us70 => 0b010,
            PllToWpll::Us90 => 0b011,
            PllToWpll::Us110 => 0b100,
        }
    }
}

#[derive(PartialEq, Debug, Copy, Clone)]
pub enum XtalSettlingDelay {
    Us200,
    Us400,
    Us600,
    Us800,
    Us1000,
    Us1500,
    Us2000,
    Us2500,
}

#[derive(PartialEq, Debug, Copy, Clone)]
pub enum AgcDelaySettling {
    Us10,
    Us20,
    Us30,
    Us40,
}

#[derive(PartialEq, Debug, Copy, Clone)]
pub enum RssiMeasurementDelay {
    Us10,
    Us20,
    Us30,
    Us40,
    Us50,
    Us60,
    Us70,
    Us80,
}

/// Delay register 2 (write only).
#[derive(PartialEq, Debug, Copy, Clone)]
pub struct Delay2 {
    pub xtal_settling_delay: XtalSettlingDelay,
    pub agc_delay_settling: AgcDelaySettling,
    pub rssi_measurement_delay: RssiMeasurementDelay,
}

impl Default for Delay2 {
    /// The chip's reset value for the RSSI measurement delay is 20us; 10us is the
    /// recommended setting.
    fn default() -> (r: Self)
        ensures
            r == (Delay2 {
                xtal_settling_delay: XtalSettlingDelay::Us600,
                agc_delay_settling: AgcDelaySettling::Us10,
                rssi_measurement_delay: RssiMeasurementDelay::Us10,
            }),
    {
        Self {
            xtal_settling_delay: XtalSettlingDelay::Us600,
            agc_delay_settling: AgcDelaySettling::Us10,
            rssi_measurement_delay: RssiMeasurementDelay::Us10,
        }
    }
}

impl Register for Delay2 {
    open spec fn address() -> u8 {
        0x17
    }

    fn id() -> (r: u8) {
        0x17
    }
}

impl WritableRegister<1> for Delay2 {

}

impl FromSpecImpl<Delay2> for u8 {
    open spec fn obeys_from_spec() -> bool {
        true
    }

    /// Crystal settling delay in bits 7..5, AGC settling delay in bits 4..3, RSSI
    /// measurement delay in bits 2..0.
    open spec fn from_spec(val: Delay2) -> u8 {
        (match val.xtal_settling_delay {
            XtalSettlingDelay::Us200 => 0b000u8,
            XtalSettlingDelay::Us400 => 0b001,
            XtalSettlingDelay::Us600 => 0b010,
            XtalSettlingDelay::Us800 => 0b011,
            XtalSettlingDelay::Us1000 => 0b100,
            XtalSettlingDelay::Us1500 => 0b101,
            XtalSettlingDelay::Us2000 => 0b110,
            XtalSettlingDelay::Us2500 => 0b111,
        } << 5u8) | match val.agc_delay_settling {
            AgcDelaySettling::Us10 => 0b00u8,
            AgcDelaySettling::Us20 => 0b01,
            AgcDelaySettling::Us30 => 0b10,
            AgcDelaySettling::Us40 => 0b11,
        } << 3u8 | match val.rssi_measurement_delay {
            RssiMeasurementDelay::Us10 => 0b000u8,
            RssiMeasurementDelay::Us20 => 0b001,
            RssiMeasurementDelay::Us30 => 0b010,
            RssiMeasurementDelay::Us40 => 0b011,
            RssiMeasurementDelay::Us50 => 0b100,
            RssiMeasurementDelay::Us60 => 0b101,
            RssiMeasurementDelay::Us70 => 0b110,
            RssiMeasurementDelay::Us80 => 0b111,
        }
    }
}

impl From<Delay2> for u8 {
    fn from(val: Delay2) -> u8 {
        (match val.xtal_settling_delay {
            XtalSettlingDelay::Us200 => 0b000u8,
            XtalSettlingDelay::Us400 => 0b001,
            XtalSettlingDelay::Us600 => 0b010,
            XtalSettlingDelay::Us800 => 0b011,
            XtalSettlingDelay::Us1000 => 0b100,
            XtalSettlingDelay::Us1500 => 0b101,
            XtalSettlingDelay::Us2000 => 0b110,
            XtalSettlingDelay::Us2500 => 0b111,
        } << 5u8) | match val.agc_delay_settling {
            AgcDelaySettling::Us10 => 0b00u8,
            AgcDelaySettling::Us20 => 0b01,
            AgcDelaySettling::Us30 => 0b10,
            AgcDelaySettling::Us40 => 0b11,
        } << 3u8 | match val.rssi_measurement_delay {
            RssiMeasurementDelay::Us10 => 0b000u8,
            RssiMeasurementDelay::Us20 => 0b001,
            RssiMeasurementDelay::Us30 => 0b010,
            RssiMeasurementDelay::Us40 => 0b011,
            RssiMeasurementDelay::Us50 => 0b100,
            RssiMeasurementDelay::Us60 => 0b101,
            RssiMeasurementDelay::Us70 => 0b110,
            RssiMeasurementDelay::Us80 => 0b111,
        }
    }
}

} // verus!
