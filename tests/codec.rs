use a7105::registers::{
    BatteryDetectResult, CalibrationControl, Clock, FromSlice, IdData, IfCalibration1Config,
    IfCalibration1Result, IfCalibration2, IntoSlice, LnaGain, MixerGain, Mode, MovingAverage, Pll1,
    Pll2, Reset, RxGain1, SystemClockDiv, Tx1, Tx2, VcoCurrentCalibration,
    VcoCurrentCalibrationResult, VcoSingleBandCalibration1, VcoSingleBandCalibration1Result,
    VcoVoltageOutput, Fifo2,
};

#[derive(PartialEq, Debug, Clone, Copy)]
struct Wide(u16);

impl From<u16> for Wide {
    fn from(v: u16) -> Self {
        Wide(v)
    }
}

impl From<Wide> for u16 {
    fn from(v: Wide) -> u16 {
        v.0
    }
}

#[test]
fn width_one_round_trip() {
    for b in 0..=255u8 {
        let p: Pll1 = Pll1::from_slice([b]);
        assert_eq!(p.channel, b);
        assert_eq!(IntoSlice::<1>::into_slice(p), [b]);
    }
}

#[test]
fn width_two_is_little_endian() {
    let bytes: [u8; 2] = IntoSlice::<2>::into_slice(Wide(0xBEEF));
    assert_eq!(bytes, [0xEF, 0xBE]);
    let back: Wide = Wide::from_slice(bytes);
    assert_eq!(back, Wide(0xBEEF));
    for v in [0u16, 1, 0xFF, 0x100, 0x1234, 0xFFFF] {
        let w: Wide = Wide::from_slice(IntoSlice::<2>::into_slice(Wide(v)));
        assert_eq!(w, Wide(v));
    }
}

#[test]
fn width_four_is_little_endian() {
    let bytes: [u8; 4] = IntoSlice::<4>::into_slice(IdData { id: 0x1234_5678 });
    assert_eq!(bytes, [0x78, 0x56, 0x34, 0x12]);
    let back: IdData = IdData::from_slice([0x78, 0x56, 0x34, 0x12]);
    assert_eq!(back, IdData { id: 0x1234_5678 });
    for v in [0u32, 1, 0xFF, 0x100, 0xFFFF, 0x1_0000, 0xDEAD_BEEF, u32::MAX] {
        let r: IdData = IdData::from_slice(IntoSlice::<4>::into_slice(IdData { id: v }));
        assert_eq!(r.id, v);
    }
}

#[test]
fn pll2_masks_and_round_trips() {
    let p = Pll2 { crystal_freq_doubler: true, rf_pll_ref_counter: 0b10, pll_chn_step: 0b0101, ip8: true };
    let b: u8 = p.into();
    assert_eq!(b, 0b1100_1011);
    assert_eq!(Pll2::from(b), p);
    let wide = Pll2 { crystal_freq_doubler: false, rf_pll_ref_counter: 9, pll_chn_step: 200, ip8: false };
    let b: u8 = wide.into();
    assert_eq!(b, 0b0011_0000);
    let b: u8 = Pll2 { crystal_freq_doubler: false, rf_pll_ref_counter: 4, pll_chn_step: 0, ip8: false }.into();
    assert_eq!(b, 0);
}

#[test]
fn clock_decodes_fields() {
    let c = Clock::from(0b1010_1110);
    assert_eq!(c.clock_generation_ref_cnt, 0b1010);
    assert_eq!(c.sys_clock_div, SystemClockDiv::Div4);
    assert!(c.clock_generated_enabled);
    assert!(!c.external_crystal_osc);
    assert_eq!(Clock::from(0b0000_1000).sys_clock_div, SystemClockDiv::Div4);
    assert_eq!(Clock::from(0b0000_0100).sys_clock_div, SystemClockDiv::Div2);
    assert_eq!(Clock::from(0).sys_clock_div, SystemClockDiv::Div1);
    let c = Clock { clock_generated_enabled: true, external_crystal_osc: false, clock_generation_ref_cnt: 0b0011, sys_clock_div: SystemClockDiv::Div1 };
    let b: u8 = c.into();
    assert_eq!(b, 0b0011_0010);
    assert_eq!(Clock::from(b), c);
    let d4 = Clock { sys_clock_div: SystemClockDiv::Div4, ..c };
    let b: u8 = d4.into();
    assert_eq!(b, 0b0011_1010);
    assert_eq!(Clock::from(b), d4);
    let wide = Clock { clock_generation_ref_cnt: 0x1F, ..c };
    let b: u8 = wide.into();
    assert_eq!(b, 0b1111_0010);
}

#[test]
fn calibration_control_round_trip() {
    let c = CalibrationControl { vco_current_calibration_enabled: true, vco_bank_calibration_enabled: false, if_filter_bank_calibration_enabled: true };
    let b: u8 = c.into();
    assert_eq!(b, 0b101);
    assert_eq!(CalibrationControl::from(b), c);
}

#[test]
fn rx_gain1_codes() {
    let g = RxGain1 { manual_vga_calibration: true, mixer_gain: MixerGain::Db12, lna_gain: LnaGain::Db0 };
    let b: u8 = g.into();
    assert_eq!(b, 0b1001_0100);
    assert_eq!(RxGain1::from(b), g);
    assert_eq!(RxGain1::from(0b0001_1111).lna_gain, LnaGain::Db0);
    assert_eq!(RxGain1::from(0b0001_1111).mixer_gain, MixerGain::Db6);
}

#[test]
fn read_only_registers_mask_their_fields() {
    assert!(BatteryDetectResult::from(0b0001_0000).voltage_above_threshold);
    assert!(!BatteryDetectResult::from(0b1110_1111).voltage_above_threshold);
    assert_eq!(IfCalibration1Result::from(0xFF), IfCalibration1Result { calibration_successful: true, calibration_value: 0b1111 });
    assert_eq!(IfCalibration2::from(0xFF).deviation, 0b1_1111);
    assert_eq!(VcoCurrentCalibrationResult::from(0b1110_0101), VcoCurrentCalibrationResult { success: false, value: 0b0101 });
    let r = VcoSingleBandCalibration1Result::from(0b0011_1110);
    assert_eq!(r, VcoSingleBandCalibration1Result { voltage_output: VcoVoltageOutput::VtMax, success: true, value: 0b110 });
    assert_eq!(VcoSingleBandCalibration1Result::from(0b0001_0000).voltage_output, VcoVoltageOutput::VtMid);
    assert_eq!(VcoSingleBandCalibration1Result::from(0).voltage_output, VcoVoltageOutput::VtMin);
}

#[test]
fn status_flags() {
    assert_eq!(Mode::from(0b0110_0000), Mode { fec_pass: true, crc_pass: true });
    assert_eq!(Mode::from(0b0100_0000), Mode { fec_pass: true, crc_pass: false });
    assert_eq!(Mode::from(0b1001_1111), Mode { fec_pass: false, crc_pass: false });
}

#[test]
fn write_only_registers_mask_their_fields() {
    let b: u8 = IfCalibration1Config { calibration_value: Some(0xFA) }.into();
    assert_eq!(b, 0b0001_1010);
    let b: u8 = VcoCurrentCalibration::Manual(0xF7).into();
    assert_eq!(b, 0b0001_0111);
    let b: u8 = VcoCurrentCalibration::Automatic.into();
    assert_eq!(b, 0);
    let b: u8 = VcoSingleBandCalibration1::Manual(0xFD).into();
    assert_eq!(b, 0b1101);
    let b: u8 = Tx2 { fd: 0xFF }.into();
    assert_eq!(b, 0b0011_1111);
    let b: u8 = Tx2 { fd: 0b0100_0101 }.into();
    assert_eq!(b, 0b0010_0101);
    let t = Tx1 { moving_average: Some(MovingAverage::EightBit), data_invert: true, modulation_enable: false, filter_enable: true, fdp: 42 };
    let b: u8 = t.into();
    assert_eq!(b, 0b1110_1010);
    let b: u8 = Fifo2 { margin: 0b10, segment: 0xFF }.into();
    assert_eq!(b, 0b1011_1111);
    let b: u8 = Reset::default().into();
    assert_eq!(b, 0);
}
