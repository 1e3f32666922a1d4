//! Typed register values of the radio and the byte codecs that carry them over the bus.
//!
//! Every register has a fixed one-byte address and a fixed payload width of 1, 2 or 4
//! bytes. A register type states how it maps to a plain unsigned integer of that width
//! (`From<u8>` / `From<X> for u8`, and so on); the array codecs below are derived once from
//! that mapping and shared by every register of the same width. Multi-byte payloads are
//! little-endian.
use vstd::prelude::*;
use vstd::std_specs::convert::FromSpec;

mod adc;
mod battery;
mod calibration;
mod cko;
mod clock;
mod code;
mod data_rate;
mod delay;
mod fifo;
mod gpio;
mod id;
mod if_calibration;
mod mode;
mod pll;
mod rc_osc;
mod rssi;
mod rx;
mod tx;
mod vco;


pub use adc::{AdcCaptureMode, AdcClockSpeed, AdcControl, RssiMargin};
pub use battery::{
    BatteryDetectConfig, BatteryDetectResult, DetectThreshold, NonSleepModeVoltageSetting,
    SleepModeVoltageSetting,
};
pub use calibration::{lemma_calibration_control_round_trip, CalibrationControl};
pub use cko::{CkoPinControl, PinOutputMode};
pub use clock::{lemma_clock_round_trip, Clock, SystemClockDiv};
pub use code::{
    Code1, Code2, Code3, IdErrorCodeTolerance, IdLength, PreabmelPatternDetectionLength,
    PreambleLength,
};
pub use data_rate::{lemma_data_rate_round_trip, DataRate};
pub use delay::{
    AgcDelaySettling, Delay1, Delay2, PllToWpll, RssiMeasurementDelay, WpllToTx, XtalSettlingDelay,
};
pub use fifo::{Fifo1, Fifo2};
pub use gpio::{Gpio1PinControl, Gpio2PinControl, GpioPinFunction};
pub use id::{lemma_id_data_round_trip, IdData};
pub use if_calibration::{IfCalibration1Config, IfCalibration1Result, IfCalibration2};
pub use mode::{Mode, Reset};
pub use pll::{lemma_pll2_round_trip, lemma_pll_byte_registers_round_trip, Pll1, Pll2, Pll3, Pll4, Pll5};
pub use rc_osc::{ClockSelect, RcOsc3};
pub use rssi::RssiCarrierDetectThreshold;
pub use rx::{lemma_rx_gain1_round_trip, Bandwidth, LnaGain, MixerGain, Rx, RxGain1};
pub use tx::{MovingAverage, Tx1, Tx2};
pub use vco::{
    TuningVoltageLowerThreshold, TuningVoltageUpperThreshold, VcoCurrentCalibration,
    VcoCurrentCalibrationResult, VcoSingleBandCalibration1, VcoSingleBandCalibration1Result,
    VcoSingleBandCalibration2, VcoVoltageOutput,
};

verus! {

/// The generic top level trait for all register values.
pub trait Register {
    /// The register's one-byte address on the chip.
    spec fn address() -> u8;

    fn id() -> (r: u8)
        ensures
            r == Self::address(),
    ;
}

/// A marker trait for registers that are readable.
pub trait ReadableRegister<const N: usize>: Register + FromSlice<N> {

}

/// A marker trait for registers that are writable.
pub trait WritableRegister<const N: usize>: Register + IntoSlice<N> {

}

/// Types that can be rebuilt from a byte array of a specific length.
///
/// It is implemented for every type with `From<u8>`, `From<u16>` or `From<u32>`, for
/// 1, 2 and 4 bytes respectively.
pub trait FromSlice<const N: usize>: Sized {
    /// Whether `from_slice` is described by `from_slice_spec`.
    spec fn obeys_from_slice() -> bool;

    /// The value that `from_slice` builds from `bytes`.
    spec fn from_slice_spec(bytes: Seq<u8>) -> Self;

    fn from_slice(bytes: [u8; N]) -> (r: Self)
        ensures
            Self::obeys_from_slice() ==> r == Self::from_slice_spec(bytes@),
    ;
}

/// Types that can be turned into a byte array of a specific length.
///
/// It is implemented for every type `X` with `From<X>` for `u8`, `u16` or `u32`, for
/// 1, 2 and 4 bytes respectively.
pub trait IntoSlice<const N: usize>: Sized {
    /// Whether `into_slice` is described by `into_slice_spec`.
    spec fn obeys_into_slice() -> bool;

    /// The bytes that `into_slice` produces for `self`.
    spec fn into_slice_spec(self) -> Seq<u8>;

    fn into_slice(self) -> (r: [u8; N])
        ensures
            Self::obeys_into_slice() ==> r@ == self.into_slice_spec(),
    ;
}

/// The 16-bit integer whose little-endian bytes are `b[0], b[1]`.
pub open spec fn le_u16(b: Seq<u8>) -> u16 {
    (b[0] + 256 * b[1]) as u16
}

/// The 32-bit integer whose little-endian bytes are `b[0], .., b[3]`.
pub open spec fn le_u32(b: Seq<u8>) -> u32 {
    (b[0] + 256 * b[1] + 65536 * b[2] + 16777216 * b[3]) as u32
}

/// The two little-endian bytes of `v`.
pub open spec fn u16_le(v: u16) -> Seq<u8> {
    seq![(v % 256) as u8, (v / 256) as u8]
}

/// The four little-endian bytes of `v`.
pub open spec fn u32_le(v: u32) -> Seq<u8> {
    seq![(v % 256) as u8, (v / 256 % 256) as u8, (v / 65536 % 256) as u8, (v / 16777216) as u8]
}

impl<T> FromSlice<1> for T where T: From<u8> {
    open spec fn obeys_from_slice() -> bool {
        <T as FromSpec<u8>>::obeys_from_spec()
    }

    open spec fn from_slice_spec(bytes: Seq<u8>) -> Self {
        <T as FromSpec<u8>>::from_spec(bytes[0])
    }

    fn from_slice(bytes: [u8; 1]) -> (r: Self) {
        T::from(bytes[0])
    }
}

impl<T> FromSlice<2> for T where T: From<u16> {
    open spec fn obeys_from_slice() -> bool {
        <T as FromSpec<u16>>::obeys_from_spec()
    }

    open spec fn from_slice_spec(bytes: Seq<u8>) -> Self {
        <T as FromSpec<u16>>::from_spec(le_u16(bytes))
    }

    fn from_slice(bytes: [u8; 2]) -> (r: Self) {
        let v: u16 = bytes[0] as u16 + bytes[1] as u16 * 256;
        T::from(v)
    }
}

impl<T> FromSlice<4> for T where T: From<u32> {
    open spec fn obeys_from_slice() -> bool {
        <T as FromSpec<u32>>::obeys_from_spec()
    }

    open spec fn from_slice_spec(bytes: Seq<u8>) -> Self {
        <T as FromSpec<u32>>::from_spec(le_u32(bytes))
    }

    fn from_slice(bytes: [u8; 4]) -> (r: Self) {
        let v: u32 = bytes[0] as u32 + bytes[1] as u32 * 256 + bytes[2] as u32 * 65536
            + bytes[3] as u32 * 16777216;
        T::from(v)
    }
}

impl<T> IntoSlice<1> for T where u8: From<T> {
    open spec fn obeys_into_slice() -> bool {
        <u8 as FromSpec<T>>::obeys_from_spec()
    }

    open spec fn into_slice_spec(self) -> Seq<u8> {
        seq![<u8 as FromSpec<T>>::from_spec(self)]
    }

    fn into_slice(self) -> (r: [u8; 1]) {
        let r = [u8::from(self)];
        assert(r@ =~= seq![r[0]]);
        r
    }
}

impl<T> IntoSlice<2> for T where u16: From<T> {
    open spec fn obeys_into_slice() -> bool {
        <u16 as FromSpec<T>>::obeys_from_spec()
    }

    open spec fn into_slice_spec(self) -> Seq<u8> {
        u16_le(<u16 as FromSpec<T>>::from_spec(self))
    }

    fn into_slice(self) -> (r: [u8; 2]) {
        let v = u16::from(self);
        let r = [(v % 256) as u8, (v / 256) as u8];
        assert(r@ =~= seq![r[0], r[1]]);
        r
    }
}

impl<T> IntoSlice<4> for T where u32: From<T> {
    open spec fn obeys_into_slice() -> bool {
        <u32 as FromSpec<T>>::obeys_from_spec()
    }

    open spec fn into_slice_spec(self) -> Seq<u8> {
        u32_le(<u32 as FromSpec<T>>::from_spec(self))
    }

    fn into_slice(self) -> (r: [u8; 4]) {
        let v = u32::from(self);
        let r = [(v % 256) as u8, (v / 256 % 256) as u8, (v / 65536 % 256) as u8, (v / 16777216) as u8];
        assert(r@ =~= seq![r[0], r[1], r[2], r[3]]);
        r
    }
}

/// Width-1 round trip: the single byte written for a value reads back as that value, and
/// a single byte read back is the byte that was written.
pub proof fn lemma_u8_round_trip(v: u8, b: Seq<u8>)
    requires
        b.len() == 1,
    ensures
        seq![v][0] == v,
        seq![b[0]] == b,
{
    assert(seq![b[0]] =~= b);
}

/// Width-2 round trip: decoding the little-endian bytes of any `u16` gives it back, and
/// encoding the integer read from any two bytes gives back the same bytes.
pub proof fn lemma_u16_round_trip(v: u16, b: Seq<u8>)
    requires
        b.len() == 2,
    ensures
        u16_le(v).len() == 2,
        le_u16(u16_le(v)) == v,
        u16_le(le_u16(b)) == b,
{
    assert(u16_le(le_u16(b)) =~= b);
}

/// Width-4 round trip: decoding the little-endian bytes of any `u32` gives it back, and
/// encoding the integer read from any four bytes gives back the same bytes.
pub proof fn lemma_u32_round_trip(v: u32, b: Seq<u8>)
    requires
        b.len() == 4,
    ensures
        u32_le(v).len() == 4,
        le_u32(u32_le(v)) == v,
        u32_le(le_u32(b)) == b,
{
    let (b0, b1, b2, b3) = (b[0], b[1], b[2], b[3]);
    assert(v % 256 + 256 * (v / 256 % 256) + 65536 * (v / 65536 % 256) + 16777216 * (v / 16777216)
        == v) by (bit_vector);
    let x: u32 = (b0 + 256 * b1 + 65536 * b2 + 16777216 * b3) as u32;
    assert(x == b0 + 256 * b1 + 65536 * b2 + 16777216 * b3);
    assert(x % 256 == b0 && x / 256 % 256 == b1 && x / 65536 % 256 == b2 && x / 16777216 == b3)
        by (bit_vector)
        requires
            x == b0 + 256 * b1 + 65536 * b2 + 16777216 * b3,
    ;
    assert(u32_le(le_u32(b)) =~= b);
}

/// At width 1, a register value whose own integer mapping reads back unchanged also reads
/// back unchanged from the byte array written for it: `from_slice(into_slice(t)) == t`.
pub proof fn lemma_width1_register_round_trip<T>(t: T) where T: From<u8>, u8: From<T>
    requires
        <T as FromSpec<u8>>::obeys_from_spec(),
        <u8 as FromSpec<T>>::obeys_from_spec(),
        <T as FromSpec<u8>>::from_spec(<u8 as FromSpec<T>>::from_spec(t)) == t,
    ensures
        <T as FromSlice<1>>::obeys_from_slice(),
        <T as IntoSlice<1>>::obeys_into_slice(),
        <T as FromSlice<1>>::from_slice_spec(<T as IntoSlice<1>>::into_slice_spec(t)) == t,
{
}

/// At width 2, a register value whose own integer mapping reads back unchanged also reads
/// back unchanged from the little-endian byte array written for it:
/// `from_slice(into_slice(t)) == t`.
pub proof fn lemma_width2_register_round_trip<T>(t: T) where T: From<u16>, u16: From<T>
    requires
        <T as FromSpec<u16>>::obeys_from_spec(),
        <u16 as FromSpec<T>>::obeys_from_spec(),
        <T as FromSpec<u16>>::from_spec(<u16 as FromSpec<T>>::from_spec(t)) == t,
    ensures
        <T as FromSlice<2>>::obeys_from_slice(),
        <T as IntoSlice<2>>::obeys_into_slice(),
        <T as FromSlice<2>>::from_slice_spec(<T as IntoSlice<2>>::into_slice_spec(t)) == t,
{
    lemma_u16_round_trip(<u16 as FromSpec<T>>::from_spec(t), seq![0u8, 0u8]);
}

/// At width 4, a register value whose own integer mapping reads back unchanged also reads
/// back unchanged from the little-endian byte array written for it:
/// `from_slice(into_slice(t)) == t`.
pub proof fn lemma_width4_register_round_trip<T>(t: T) where T: From<u32>, u32: From<T>
    requires
        <T as FromSpec<u32>>::obeys_from_spec(),
        <u32 as FromSpec<T>>::obeys_from_spec(),
        <T as FromSpec<u32>>::from_spec(<u32 as FromSpec<T>>::from_spec(t)) == t,
    ensures
        <T as FromSlice<4>>::obeys_from_slice(),
        <T as IntoSlice<4>>::obeys_into_slice(),
        <T as FromSlice<4>>::from_slice_spec(<T as IntoSlice<4>>::into_slice_spec(t)) == t,
{
    lemma_u32_round_trip(<u32 as FromSpec<T>>::from_spec(t), seq![0u8, 0u8, 0u8, 0u8]);
}

} // verus!
