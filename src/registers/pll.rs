use super::{ReadableRegister, Register, WritableRegister};
use vstd::prelude::*;
use vstd::std_specs::convert::{FromSpec, FromSpecImpl};

verus! {

/// PLL register 1: the RF channel number.
#[derive(PartialEq, Debug, Copy, Clone)]
pub struct Pll1 {
    pub channel: u8,
}

impl Default for Pll1 {
    fn default() -> (r: Self)
        ensures
            r == (Pll1 { channel: 0 }),
    {
        Self { channel: 0 }
    }
}

impl Register for Pll1 {
    open spec fn address() -> u8 {
        0x0F
    }

    fn id() -> (r: u8) {
        0x0F
    }
}

impl ReadableRegister<1> for Pll1 {

}

impl WritableRegister<1> for Pll1 {

}

impl FromSpecImpl<u8> for Pll1 {
    open spec fn obeys_from_spec() -> bool {
        true
    }

    open spec fn from_spec(channel: u8) -> Pll1 {
        Pll1 { channel }
    }
}

impl From<u8> for Pll1 {
    fn from(channel: u8) -> Self {
        Self { channel }
    }
}

impl FromSpecImpl<Pll1> for u8 {
    open spec fn obeys_from_spec() -> bool {
        true
    }

    open spec fn from_spec(val: Pll1) -> u8 {
        val.channel
    }
}

impl From<Pll1> for u8 {
    fn from(val: Pll1) -> u8 {
        val.channel
    }
}

/// PLL register 2.
#[derive(PartialEq, Debug, Copy, Clone)]
pub struct Pll2 {
    pub crystal_freq_doubler: bool,
    /// Only the low two bits are carried; higher bits are masked off when written.
    pub rf_pll_ref_counter: u8,
    /// Only the low four bits are carried; higher bits are masked off when written.
    pub pll_chn_step: u8,
    pub ip8: bool,
}

impl Default for Pll2 {
    fn default() -> (r: Self)
        ensures
            r == (Pll2 {
                crystal_freq_doubler: true,
                rf_pll_ref_counter: 0,
                pll_chn_step: 0b1111,
                ip8: false,
            }),
    {
        Self { crystal_freq_doubler: true, rf_pll_ref_counter: 0, pll_chn_step: 0b1111, ip8: false }
    }
}

impl Register for Pll2 {
    open spec fn address() -> u8 {
        0x10
    }

    fn id() -> (r: u8) {
        0x10
    }
}

impl ReadableRegister<1> for Pll2 {

}

impl WritableRegister<1> for Pll2 {

}

impl FromSpecImpl<u8> for Pll2 {
    open spec fn obeys_from_spec() -> bool {
        true
    }

    /// Doubler in bit 7, reference counter in bits 6..5, channel step in bits 4..1, IP8
    /// in bit 0.
    open spec fn from_spec(val: u8) -> Pll2 {
        Pll2 {
            crystal_freq_doubler: (val & 0b1000_0000) != 0,
            rf_pll_ref_counter: (val & 0b0110_0000) >> 5u8,
            pll_chn_step: (val & 0b0001_1110) >> 1u8,
            ip8: (val & 0b1) != 0,
        }
    }
}

impl From<u8> for Pll2 {
    fn from(val: u8) -> Self {
        Self {
            crystal_freq_doubler: (val & 0b1000_0000) != 0,
            rf_pll_ref_counter: (val & 0b0110_0000) >> 5u8,
            pll_chn_step: (val & 0b0001_1110) >> 1u8,
            ip8: (val & 0b1) != 0,
        }
    }
}

impl FromSpecImpl<Pll2> for u8 {
    open spec fn obeys_from_spec() -> bool {
        true
    }

    open spec fn from_spec(val: Pll2) -> u8 {
        (val.crystal_freq_doubler as u8) << 7u8 | (val.rf_pll_ref_counter & 0b11) << 5u8 | (
        val.pll_chn_step & 0b1111) << 1u8 | val.ip8 as u8
    }
}

impl From<Pll2> for u8 {
    fn from(val: Pll2) -> u8 {
        (val.crystal_freq_doubler as u8) << 7u8 | (val.rf_pll_ref_counter & 0b11) << 5u8 | (
        val.pll_chn_step & 0b1111) << 1u8 | val.ip8 as u8
    }
}

/// A PLL2 value whose counter and step fit their fields survives a write and a read back
/// unchanged.
pub proof fn lemma_pll2_round_trip(p: Pll2)
    requires
        p.rf_pll_ref_counter <= 0b11,
        p.pll_chn_step <= 0b1111,
    ensures
        <Pll2 as FromSpec<u8>>::from_spec(<u8 as FromSpec<Pll2>>::from_spec(p)) == p,
{
    let (d, c, s, i) = (p.crystal_freq_doubler, p.rf_pll_ref_counter, p.pll_chn_step, p.ip8);
    let v = (d as u8) << 7u8 | (c & 0b11) << 5u8 | (s & 0b1111) << 1u8 | i as u8;
    assert(v == <u8 as FromSpec<Pll2>>::from_spec(p));
    assert(((v & 0b1000_0000) != 0) == d && (v & 0b0110_0000) >> 5u8 == c && (v & 0b0001_1110)
        >> 1u8 == s && ((v & 0b1) != 0) == i) by (bit_vector)
        requires
            v == (d as u8) << 7u8 | (c & 0b11) << 5u8 | (s & 0b1111) << 1u8 | i as u8,
            c <= 0b11,
            s <= 0b1111,
    ;
}

/// Single byte PLL registers hold their value unchanged: a write followed by a read back
/// gives the same value, and so does a read followed by a write.
pub proof fn lemma_pll_byte_registers_round_trip(
    pll1: Pll1,
    pll3: Pll3,
    pll4: Pll4,
    pll5: Pll5,
    b: u8,
)
    ensures
        <Pll1 as FromSpec<u8>>::from_spec(<u8 as FromSpec<Pll1>>::from_spec(pll1)) == pll1,
        <Pll3 as FromSpec<u8>>::from_spec(<u8 as FromSpec<Pll3>>::from_spec(pll3)) == pll3,
        <Pll4 as FromSpec<u8>>::from_spec(<u8 as FromSpec<Pll4>>::from_spec(pll4)) == pll4,
        <Pll5 as FromSpec<u8>>::from_spec(<u8 as FromSpec<Pll5>>::from_spec(pll5)) == pll5,
        <u8 as FromSpec<Pll1>>::from_spec(<Pll1 as FromSpec<u8>>::from_spec(b)) == b,
        <u8 as FromSpec<Pll3>>::from_spec(<Pll3 as FromSpec<u8>>::from_spec(b)) == b,
        <u8 as FromSpec<Pll4>>::from_spec(<Pll4 as FromSpec<u8>>::from_spec(b)) == b,
        <u8 as FromSpec<Pll5>>::from_spec(<Pll5 as FromSpec<u8>>::from_spec(b)) == b,
{
}

/// PLL register 3: the integer part of the base frequency divider.
#[derive(PartialEq, Debug, Copy, Clone)]
pub struct Pll3 {
    pub bip: u8,
}

impl Default for Pll3 {
    fn default() -> (r: Self)
        ensures
            r == (Pll3 { bip: 0x4B }),
    {
        Self { bip: 0x4B }
    }
}

impl Register for Pll3 {
    open spec fn address() -> u8 {
        0x11
    }

    fn id() -> (r: u8) {
        0x11
    }
}

impl ReadableRegister<1> for Pll3 {

}

impl WritableRegister<1> for Pll3 {

}

impl FromSpecImpl<u8> for Pll3 {
    open spec fn obeys_from_spec() -> bool {
        true
    }

    open spec fn from_spec(bip: u8) -> Pll3 {
        Pll3 { bip }
    }
}

impl From<u8> for Pll3 {
    fn from(bip: u8) -> Self {
        Self { bip }
    }
}

impl FromSpecImpl<Pll3> for u8 {
    open spec fn obeys_from_spec() -> bool {
        true
    }

    open spec fn from_spec(val: Pll3) -> u8 {
        val.bip
    }
}

impl From<Pll3> for u8 {
    fn from(val: Pll3) -> u8 {
        val.bip
    }
}

/// PLL register 4: high byte of the fractional part of the base frequency divider.
#[derive(PartialEq, Debug, Copy, Clone)]
pub struct Pll4 {
    pub bfp: u8,
}

impl Default for Pll4 {
    fn default() -> (r: Self)
        ensures
            r == (Pll4 { bfp: 0x0 }),
    {
        Self { bfp: 0x0 }
    }
}

impl Register for Pll4 {
    open spec fn address() -> u8 {
        0x12
    }

    fn id() -> (r: u8) {
        0x12
    }
}

impl ReadableRegister<1> for Pll4 {

}

impl WritableRegister<1> for Pll4 {

}

impl FromSpecImpl<u8> for Pll4 {
    open spec fn obeys_from_spec() -> bool {
        true
    }

    open spec fn from_spec(bfp: u8) -> Pll4 {
        Pll4 { bfp }
    }
}

impl From<u8> for Pll4 {
    fn from(bfp: u8) -> Self {
        Self { bfp }
    }
}

impl FromSpecImpl<Pll4> for u8 {
    open spec fn obeys_from_spec() -> bool {
        true
    }

    open spec fn from_spec(val: Pll4) -> u8 {
        val.bfp
    }
}

impl From<Pll4> for u8 {
    fn from(val: Pll4) -> u8 {
        val.bfp
    }
}

/// PLL register 5: low byte of the fractional part of the base frequency divider.
///
/// The chip resets it to `0x03`; `0x02` is the recommended value.
#[derive(PartialEq, Debug, Copy, Clone)]
pub struct Pll5 {
    pub bfp: u8,
}

impl Default for Pll5 {
    fn default() -> (r: Self)
        ensures
            r == (Pll5 { bfp: 0x02 }),
    {
        Self { bfp: 0x02 }
    }
}

impl Register for Pll5 {
    open spec fn address() -> u8 {
        0x13
    }

    fn id() -> (r: u8) {
        0x13
    }
}

impl ReadableRegister<1> for Pll5 {

}

impl WritableRegister<1> for Pll5 {

}

impl FromSpecImpl<u8> for Pll5 {
    open spec fn obeys_from_spec() -> bool {
        true
    }

    open spec fn from_spec(bfp: u8) -> Pll5 {
        Pll5 { bfp }
    }
}

impl From<u8> for Pll5 {
    fn from(bfp: u8) -> Self {
        Self { bfp }
    }
}

impl FromSpecImpl<Pll5> for u8 {
    open spec fn obeys_from_spec() -> bool {
        true
    }

    open spec fn from_spec(val: Pll5) -> u8 {
        val.bfp
    }
}

impl From<Pll5> for u8 {
    fn from(val: Pll5) -> u8 {
        val.bfp
    }
}

} // verus!
