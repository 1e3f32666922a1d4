use a7105::registers::{
    AdcControl,
    BatteryDetectConfig,
    BatteryDetectResult,
    CalibrationControl,
    CkoPinControl,
    Clock,
    Code1,
    Code2,
    Code3,
    DataRate,
    Delay1,
    Delay2,
    Fifo1,
    Fifo2,
    Gpio1PinControl,
    Gpio2PinControl,
    IdData,
    IfCalibration1Config,
    IfCalibration2,
    Pll1,
    Pll2,
    Pll3,
    Pll4,
    Pll5,
    RcOsc3,
    Register,
    RssiCarrierDetectThreshold,
    Rx,
    RxGain1,
    Tx1,
    Tx2,
    VcoCurrentCalibration,
    VcoSingleBandCalibration1,
    VcoSingleBandCalibration1Result,
    VcoSingleBandCalibration2,
};

#[test]
fn test_adc_control() {
    let default: u8 = AdcControl::default().into();
    assert_eq!(default, 0b1100_0011);

    assert_eq!(AdcControl::id(), 0x1E);
}

#[test]
fn test_battery_detect() {
    let default: u8 = BatteryDetectConfig::default().into();
    assert_eq!(default, 0b0000_0110);

    assert_eq!(BatteryDetectConfig::id(), 0x27);
    assert_eq!(BatteryDetectResult::id(), 0x27);
}

#[test]
fn test_calibration_control() {
    let default: u8 = CalibrationControl::default().into();
    assert_eq!(default, 0);

    assert_eq!(CalibrationControl::id(), 0x2);
}

#[test]
fn test_cko_pin_control() {
    let default: u8 = CkoPinControl::default().into();
    assert_eq!(default, 0b1011_1010);

    assert_eq!(CkoPinControl::id(), 0xA);
}

#[test]
fn test_clock() {
    let default: u8 = Clock::default().into();
    assert_eq!(default, 0b1111_0101);

    assert_eq!(Clock::id(), 0xD);
}

#[test]
fn test_code1() {
    let default: u8 = Code1::default().into();
    assert_eq!(default, 0b111);

    assert_eq!(Code1::id(), 0x1F);
}

#[test]
fn test_code2() {
    let default: u8 = Code2::default().into();
    assert_eq!(default, 0b0001_0111);

    assert_eq!(Code2::id(), 0x20);
}

#[test]
fn test_code3() {
    let default: u8 = Code3::default().into();
    assert_eq!(default, 0b0010_1010);

    assert_eq!(Code3::id(), 0x21);
}

#[test]
fn test_data_rate() {
    let default: u8 = DataRate::default().into();
    assert_eq!(default, 0);

    assert_eq!(DataRate::id(), 0xE);
}

#[test]
fn test_delay1() {
    let default: u8 = Delay1::default().into();
    assert_eq!(default, 0b0001_0010);

    assert_eq!(Delay1::id(), 0x16);
}

#[test]
fn test_delay2() {
    let default: u8 = Delay2::default().into();
    assert_eq!(default, 0b0100_0000);

    assert_eq!(Delay2::id(), 0x17);
}

#[test]
fn test_fifo1() {
    assert_eq!(Fifo1::id(), 0x3);
}

#[test]
fn test_fifo2() {
    assert_eq!(Fifo2::id(), 0x4);
}

#[test]
fn test_gpio1_pin_control() {
    let default: u8 = Gpio1PinControl::default().into();
    assert_eq!(default, 0b1);

    assert_eq!(Gpio1PinControl::id(), 0xB);
}

#[test]
fn test_gpio2_pin_control() {
    let default: u8 = Gpio2PinControl::default().into();
    assert_eq!(default, 0b10001);

    assert_eq!(Gpio2PinControl::id(), 0xC);
}

#[test]
fn test_id() {
    assert_eq!(IdData::id(), 0x6);
}

#[test]
fn test_if_calibration1_config() {
    let default: u8 = IfCalibration1Config::default().into();
    assert_eq!(default, 0b0);

    assert_eq!(IfCalibration1Config::id(), 0x22);
}

#[test]
fn test_if_calibration2() {
    assert_eq!(IfCalibration2::id(), 0x23);
}

#[test]
fn test_pll1() {
    let default: u8 = Pll1::default().into();
    assert_eq!(default, 0);

    assert_eq!(Pll1::id(), 0xF);
}

#[test]
fn test_pll2() {
    let default: u8 = Pll2::default().into();
    assert_eq!(default, 0b1001_1110);

    assert_eq!(Pll2::id(), 0x10);
}

#[test]
fn test_pll3() {
    let default: u8 = Pll3::default().into();
    assert_eq!(default, 0b0100_1011);

    assert_eq!(Pll3::id(), 0x11);
}

#[test]
fn test_pll4() {
    let default: u8 = Pll4::default().into();
    assert_eq!(default, 0);

    assert_eq!(Pll4::id(), 0x12);
}

#[test]
fn test_pll5() {
    let default: u8 = Pll5::default().into();
    assert_eq!(default, 0b10);

    assert_eq!(Pll5::id(), 0x13);
}

#[test]
fn test_mode_control() {
    let default: u8 = RcOsc3::default().into();
    assert_eq!(default, 0b101);

    assert_eq!(RcOsc3::id(), 0x9);
}

#[test]
fn rssi_test_rx_register() {
    let default: u8 = RssiCarrierDetectThreshold::default().into();
    assert_eq!(default, 0b1001_0001);

    assert_eq!(RssiCarrierDetectThreshold::id(), 0x1D);
}

#[test]
fn rx_test_rx_register() {
    let default: u8 = Rx::default().into();
    assert_eq!(default, 0b0100_0010);

    assert_eq!(Rx::id(), 0x18);
}

#[test]
fn test_rx_gain1_register() {
    let default: u8 = RxGain1::default().into();
    assert_eq!(default, 0b0000_0000);

    assert_eq!(RxGain1::id(), 0x19);
}

#[test]
fn test_tx1() {
    let default: u8 = Tx1::default().into();
    assert_eq!(default, 0b0001_0110);

    assert_eq!(Tx1::id(), 0x14);
}

#[test]
fn test_tx2() {
    let default: u8 = Tx2::default().into();
    assert_eq!(default, 0b0010_1011);

    assert_eq!(Tx2::id(), 0x15);
}

#[test]
fn test_vco_current() {
    let default: u8 = VcoCurrentCalibration::default().into();
    assert_eq!(default, 0b0001_0011);

    assert_eq!(VcoCurrentCalibration::id(), 0x24);
}

#[test]
fn test_vco_single_band1() {
    let default: u8 = VcoSingleBandCalibration1::default().into();
    assert_eq!(default, 0);

    assert_eq!(VcoSingleBandCalibration1::id(), 0x25);
    assert_eq!(VcoSingleBandCalibration1Result::id(), 0x25);
}

#[test]
fn test_vco_single_band2() {
    let default: u8 = VcoSingleBandCalibration2::default().into();
    assert_eq!(default, 0b0011_1011);

    assert_eq!(VcoSingleBandCalibration2::id(), 0x26);
}
