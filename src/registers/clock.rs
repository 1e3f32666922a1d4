use super::{ReadableRegister, Register, WritableRegister};
use vstd::prelude::*;
use vstd::std_specs::convert::{FromSpec, FromSpecImpl};

verus! {

#[derive(PartialEq, Debug, Copy, Clone)]
pub enum SystemClockDiv {
    Div1,
    Div2,
    Div4,
}

impl FromSpecImpl<SystemClockDiv> for u8 {
    open spec fn obeys_from_spec() -> bool {
        true
    }

    open spec fn from_spec(val: SystemClockDiv) -> u8 {
        match val {
            SystemClockDiv::Div1 => 0b00u8,
            SystemClockDiv::Div2 => 0b01,
            SystemClockDiv::Div4 => 0b10,
        }
    }
}

impl From<SystemClockDiv> for u8 {
    fn from(val: SystemClockDiv) -> u8 {
        match val {
            SystemClockDiv::Div1 => 0b00u8,
            SystemClockDiv::Div2 => 0b01,
            SystemClockDiv::Div4 => 0b10,
        }
    }
}

/// Clock register.
#[derive(PartialEq, Debug, Copy, Clone)]
pub struct Clock {
    pub clock_generated_enabled: bool,
    pub external_crystal_osc: bool,
    /// Only the low four bits are carried; higher bits are masked off when written.
    pub clock_generation_ref_cnt: u8,
    pub sys_clock_div: SystemClockDiv,
}

impl Default for Clock {
    fn default() -> (r: Self)
        ensures
            r == (Clock {
                clock_generated_enabled: false,
                external_crystal_osc: true,
                clock_generation_ref_cnt: 0b1111,
                sys_clock_div: SystemClockDiv::Div2,
            }),
    {
        Self {
            clock_generated_enabled: false,
            external_crystal_osc: true,
            clock_generation_ref_cnt: 0b1111,
            sys_clock_div: SystemClockDiv::Div2,
        }
    }
}

impl Register for Clock {
    open spec fn address() -> u8 {
        0x0D
    }

    fn id() -> (r: u8) {
        0x0D
    }
}

impl ReadableRegister<1> for Clock {

}

impl WritableRegister<1> for Clock {

}

impl FromSpecImpl<u8> for Clock {
    open spec fn obeys_from_spec() -> bool {
        true
    }

    /// Reference count in bits 7..4, divider in bits 3..2 (`0b00` is Div1, `0b01` is
    /// Div2, `0b10` is Div4, and the unused code `0b11` also reads as Div4), generation
    /// enable in bit 1, crystal in bit 0.
    open spec fn from_spec(val: u8) -> Clock {
        Clock {
            clock_generated_enabled: (val & 0b10) != 0,
            external_crystal_osc: (val & 0b1) != 0,
            clock_generation_ref_cnt: (val & 0b1111_0000) >> 4u8,
            sys_clock_div: match (val & 0b1100) >> 2u8 {
                0b00u8 => SystemClockDiv::Div1,
                0b01u8 => SystemClockDiv::Div2,
                _ => SystemClockDiv::Div4,
            },
        }
    }
}

impl From<u8> for Clock {
    fn from(val: u8) -> Self {
        Self {
            clock_generated_enabled: (val & 0b10) != 0,
            external_crystal_osc: (val & 0b1) != 0,
            clock_generation_ref_cnt: (val & 0b1111_0000) >> 4u8,
            sys_clock_div: match (val & 0b1100) >> 2u8 {
                0b00u8 => SystemClockDiv::Div1,
                0b01u8 => SystemClockDiv::Div2,
                _ => SystemClockDiv::Div4,
            },
        }
    }
}

impl FromSpecImpl<Clock> for u8 {
    open spec fn obeys_from_spec() -> bool {
        true
    }

    open spec fn from_spec(val: Clock) -> u8 {
        (val.clock_generated_enabled as u8) << 1u8 | val.external_crystal_osc as u8 | (
        val.clock_generation_ref_cnt & 0b1111) << 4u8 | <u8 as FromSpec<SystemClockDiv>>::from_spec(
            val.sys_clock_div,
        ) << 2u8
    }
}

impl From<Clock> for u8 {
    fn from(val: Clock) -> u8 {
        (val.clock_generated_enabled as u8) << 1u8 | val.external_crystal_osc as u8
            | (val.clock_generation_ref_cnt & 0b1111) << 4u8 | u8::from(val.sys_clock_div) << 2u8
    }
}

/// A clock value whose reference count fits in four bits survives a write and a read
/// back unchanged.
pub proof fn lemma_clock_round_trip(c: Clock)
    requires
        c.clock_generation_ref_cnt <= 0b1111,
    ensures
        <Clock as FromSpec<u8>>::from_spec(<u8 as FromSpec<Clock>>::from_spec(c)) == c,
{
    let (g, x, n) = (c.clock_generated_enabled, c.external_crystal_osc, c.clock_generation_ref_cnt);
    let d = <u8 as FromSpec<SystemClockDiv>>::from_spec(c.sys_clock_div);
    let v = (g as u8) << 1u8 | x as u8 | (n & 0b1111) << 4u8 | d << 2u8;
    assert(v == <u8 as FromSpec<Clock>>::from_spec(c));
    assert((v & 0b10 != 0) == g && (v & 0b1 != 0) == x && (v & 0b1111_0000) >> 4u8 == n && (v
        & 0b1100) >> 2u8 == d) by (bit_vector)
        requires
            v == (g as u8) << 1u8 | x as u8 | (n & 0b1111) << 4u8 | d << 2u8,
            n <= 0b1111,
            d <= 0b10,
    ;
}

} // verus!
