use ads1x1x::config::{Config, ConfigFields, OP_MODE, OS};
use ads1x1x::conversion::{
    scale_measurement, ConvertMeasurement, FullScaleRange, Resolution12Bit, Resolution16Bit,
};
use ads1x1x::device::{Ads1x1x, ChannelSelection, Continuous, ModeChangeError, OneShot, OperatingMode};
use ads1x1x::register::{read_register, write_payload, write_register, Error, CONFIG, CONVERSION};

type Dev12 = Ads1x1x<u32, Resolution12Bit, OneShot>;

fn continuous_at_4_096() -> Ads1x1x<u32, Resolution12Bit, Continuous> {
    let mut dev = Dev12::new(7, 0x48);
    assert_eq!(dev.set_full_scale_range(FullScaleRange::Within4_096V, Ok::<(), u8>(())), Ok(()));
    match dev.into_continuous(Ok::<(), u8>(())) {
        Ok(d) => d,
        Err(_) => panic!("mode change failed"),
    }
}

#[test]
fn config_fields_round_trip() {
    let f = ConfigFields { os: 1, mux: 5, pga: 3, mode: 0, dr: 6, comp: 0x15 };
    let c = Config::from_fields(f);
    assert_eq!(c.to_fields(), f);
    assert_eq!(Config::from_fields(c.to_fields()).bits, c.bits);
}

#[test]
fn config_default_word_fields() {
    let f = Config { bits: 0x8583 }.to_fields();
    assert_eq!(f, ConfigFields { os: 1, mux: 0, pga: 2, mode: 1, dr: 4, comp: 3 });
    assert_eq!(Config::from_fields(f).bits, 0x8583);
}

#[test]
fn config_bit_helpers() {
    let c = Config { bits: 0x8583 };
    assert!(c.is_high(OS));
    assert_eq!(c.with_low(OP_MODE).bits, 0x8483);
    assert_eq!(c.with_low(OP_MODE).with_high(OP_MODE).bits, 0x8583);
    assert_eq!(c.with_mux_bits(7).bits, 0xF583);
    assert_eq!(c.with_pga_bits(5).bits, 0x8B83);
}

#[test]
fn register_write_bytes() {
    assert_eq!(write_payload(CONFIG, 0x8583), [0x01, 0x85, 0x83]);
    assert_eq!(write_payload(CONVERSION, 0x00FF), [0x00, 0x00, 0xFF]);
}

#[test]
fn register_read_decodes_big_endian() {
    assert_eq!(read_register(Ok::<(), u8>(()), [0x12, 0x34]), Ok(0x1234));
    assert_eq!(read_register(Err::<(), u8>(9), [0x12, 0x34]), Err(Error::I2C(9)));
}

#[test]
fn register_write_error_is_surfaced() {
    assert_eq!(write_register(Ok::<(), u8>(())), Ok(()));
    assert_eq!(write_register(Err::<(), u8>(3)), Err(Error::I2C(3)));
}

#[test]
fn set_operating_mode_updates_cache_on_success() {
    let mut dev = Dev12::new(7, 0x48);
    assert_eq!(dev.operating_mode_write(OperatingMode::Continuous), [0x01, 0x84, 0x83]);
    assert_eq!(dev.set_operating_mode(OperatingMode::Continuous, Ok::<(), u8>(())), Ok(()));
    assert_eq!(dev.config().bits, 0x8483);
    assert!(!dev.config().is_high(OP_MODE));
    // the device, read back, holds what was written
    let written = dev.operating_mode_write(OperatingMode::OneShot);
    assert_eq!(dev.set_operating_mode(OperatingMode::OneShot, Ok::<(), u8>(())), Ok(()));
    assert_eq!(read_register(Ok::<(), u8>(()), [written[1], written[2]]), Ok(dev.config().bits));
    assert_eq!(dev.config().bits, 0x8583);
}

#[test]
fn set_operating_mode_keeps_cache_on_failure() {
    let mut dev = Dev12::new(7, 0x48);
    assert_eq!(
        dev.set_operating_mode(OperatingMode::Continuous, Err::<(), u8>(4)),
        Err(Error::I2C(4))
    );
    assert_eq!(dev.config().bits, 0x8583);
}

#[test]
fn failed_transition_returns_unchanged_handle() {
    let dev = Dev12::new(7, 0x48);
    let dev = match dev.into_continuous(Err::<(), u8>(2)) {
        Err(ModeChangeError::I2C(e, d)) => {
            assert_eq!(e, 2);
            d
        }
        Ok(_) => panic!("mode change should fail"),
    };
    assert_eq!(dev.config().bits, 0x8583);
    assert_eq!(dev.address(), 0x48);
    let cont = continuous_at_4_096();
    let before = cont.config();
    match cont.into_one_shot(Err::<(), u8>(5)) {
        Err(ModeChangeError::I2C(e, d)) => {
            assert_eq!(e, 5);
            assert_eq!(d.config(), before);
            assert_eq!(d.fsr(), FullScaleRange::Within4_096V);
        }
        Ok(_) => panic!("mode change should fail"),
    }
}

#[test]
fn successful_transitions_flip_mode_bit() {
    let cont = continuous_at_4_096();
    assert_eq!(cont.config().bits, 0x8283);
    match cont.into_one_shot(Ok::<(), u8>(())) {
        Ok(mut d) => {
            assert_eq!(d.config().bits, 0x8383);
            assert_eq!(d.fsr(), FullScaleRange::Within4_096V);
            assert_eq!(*d.bus(), 7);
            assert_eq!(d.destroy(), 7);
        }
        Err(_) => panic!("mode change failed"),
    }
}

#[test]
fn measurement_in_progress_after_start() {
    let mut dev = Dev12::new(7, 0x48);
    assert_eq!(dev.start_conversion_write(), [0x01, 0x85, 0x83]);
    assert_eq!(dev.start_conversion(Ok::<(), u8>(())), Ok(()));
    // the device reports the status bit low while converting
    assert_eq!(dev.is_measurement_in_progress(Ok::<(), u8>(()), [0x05, 0x83]), Ok(true));
    // and sets it again once done
    assert_eq!(dev.is_measurement_in_progress(Ok::<(), u8>(()), [0x85, 0x83]), Ok(false));
    assert_eq!(
        dev.is_measurement_in_progress(Err::<(), u8>(1), [0x85, 0x83]),
        Err(Error::I2C(1))
    );
}

#[test]
fn select_channel_two_write() {
    let mut dev = Dev12::new(7, 0x48);
    assert_eq!(dev.config().bits, 0x8583);
    assert_eq!(dev.address(), 0x48);
    assert_eq!(dev.channel_write(ChannelSelection::SingleA2), [0x01, 0xE5, 0x83]);
    assert_eq!(dev.select_channel(ChannelSelection::SingleA2, Ok::<(), u8>(())), Ok(()));
    assert_eq!(dev.config().bits, 0xE583);
    assert_eq!(
        dev.select_channel(ChannelSelection::SingleA0, Err::<(), u8>(8)),
        Err(Error::I2C(8))
    );
    assert_eq!(dev.config().bits, 0xE583);
}

#[test]
fn continuous_read_full_positive_12_bit() {
    let dev = continuous_at_4_096();
    assert_eq!(dev.read(Ok::<(), u8>(()), [0x7F, 0xF0]), Ok(4_096_000));
    assert_eq!(dev.read(Ok::<(), u8>(()), [0x00, 0x00]), Ok(0));
    assert_eq!(dev.read(Ok::<(), u8>(()), [0x00, 0x10]), Ok(2000));
    assert_eq!(dev.read(Err::<(), u8>(6), [0x7F, 0xF0]), Err(Error::I2C(6)));
}

#[test]
fn convert_12_bit_sign_extends() {
    assert_eq!(Resolution12Bit::convert_measurement(0x7FF0), 2047);
    assert_eq!(Resolution12Bit::convert_measurement(0x8000), -2048);
    assert_eq!(Resolution12Bit::convert_measurement(0xFFF0), -1);
    assert_eq!(Resolution12Bit::convert_measurement(0x0010), 1);
}

#[test]
fn convert_16_bit_two_complement() {
    assert_eq!(Resolution16Bit::convert_measurement(0x7FFF), 32767);
    assert_eq!(Resolution16Bit::convert_measurement(0x8000), -32768);
    assert_eq!(Resolution16Bit::convert_measurement(0xFFFF), -1);
}

#[test]
fn scale_full_range_values() {
    assert_eq!(scale_measurement(2047, 2047, FullScaleRange::Within4_096V), 4_096_000);
    assert_eq!(scale_measurement(-2047, 2047, FullScaleRange::Within4_096V), -4_096_000);
    assert_eq!(scale_measurement(0, 2047, FullScaleRange::Within4_096V), 0);
    assert_eq!(scale_measurement(32767, 32767, FullScaleRange::Within6_144V), 6_144_000);
    assert_eq!(scale_measurement(-32767, 32767, FullScaleRange::Within0_256V), -256_000);
    // rounding is toward zero
    assert_eq!(scale_measurement(1, 2047, FullScaleRange::Within4_096V), 2000);
    assert_eq!(scale_measurement(-1, 2047, FullScaleRange::Within4_096V), -2000);
    assert_eq!(scale_measurement(-2048, 2047, FullScaleRange::Within4_096V), -4_098_000);
}

#[test]
fn full_scale_range_setter() {
    let mut dev = Dev12::new(7, 0x48);
    assert_eq!(dev.full_scale_range_write(FullScaleRange::Within0_256V), [0x01, 0x8B, 0x83]);
    assert_eq!(
        dev.set_full_scale_range(FullScaleRange::Within0_256V, Err::<(), u8>(1)),
        Err(Error::I2C(1))
    );
    assert_eq!(dev.fsr(), FullScaleRange::Within2_048V);
    assert_eq!(dev.set_full_scale_range(FullScaleRange::Within0_256V, Ok::<(), u8>(())), Ok(()));
    assert_eq!(dev.fsr(), FullScaleRange::Within0_256V);
    assert_eq!(FullScaleRange::Within0_512V.microvolts(), 512_000);
    assert_eq!(ChannelSelection::DifferentialA1A3.mux_bits(), 2);
}
