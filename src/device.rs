use vstd::prelude::*;
use core::marker::PhantomData;
use crate::config::{Config, OP_MODE, OS};
use crate::conversion::{ConvertMeasurement, FullScaleRange, spec_pga_bits, spec_scale, scale_measurement};
use crate::register::{CONFIG, CONVERSION, Error, write_bytes, write_payload, be_value};

verus! {

/// Type tag of a handle in one-shot mode.
pub struct OneShot;

/// Type tag of a handle in continuous-conversion mode.
pub struct Continuous;

/// Operating mode written to the configuration register.
#[derive(Debug, Clone, Copy, PartialEq, Eq)]
pub enum OperatingMode {
    OneShot,
    Continuous,
}

/// Input channel selection (the multiplexer field).
#[derive(Debug, Clone, Copy, PartialEq, Eq)]
pub enum ChannelSelection {
    DifferentialA0A1,
    DifferentialA0A3,
    DifferentialA1A3,
    DifferentialA2A3,
    SingleA0,
    SingleA1,
    SingleA2,
    SingleA3,
}

/// Multiplexer field value of a channel.
pub open spec fn spec_mux_bits(ch: ChannelSelection) -> u8 {
    match ch {
        ChannelSelection::DifferentialA0A1 => 0,
        ChannelSelection::DifferentialA0A3 => 1,
        ChannelSelection::DifferentialA1A3 => 2,
        ChannelSelection::DifferentialA2A3 => 3,
        ChannelSelection::SingleA0 => 4,
        ChannelSelection::SingleA1 => 5,
        ChannelSelection::SingleA2 => 6,
        ChannelSelection::SingleA3 => 7,
    }
}

impl ChannelSelection {
    /// Multiplexer field value of this channel.
    pub fn mux_bits(&self) -> (r: u8)
        ensures
            r == spec_mux_bits(*self),
            r < 8,
    {
        match self {
            ChannelSelection::DifferentialA0A1 => 0,
            ChannelSelection::DifferentialA0A3 => 1,
            ChannelSelection::DifferentialA1A3 => 2,
            ChannelSelection::DifferentialA2A3 => 3,
            ChannelSelection::SingleA0 => 4,
            ChannelSelection::SingleA1 => 5,
            ChannelSelection::SingleA2 => 6,
            ChannelSelection::SingleA3 => 7,
        }
    }
}

/// The configuration with the operating-mode bit set for `mode`.
pub open spec fn config_for_mode(c: Config, mode: OperatingMode) -> Config {
    match mode {
        OperatingMode::OneShot => Config { bits: c.bits | OP_MODE },
        OperatingMode::Continuous => Config { bits: c.bits & !OP_MODE },
    }
}

/// The configuration with the multiplexer field set for `ch`.
pub open spec fn config_for_channel(c: Config, ch: ChannelSelection) -> Config {
    Config { bits: (c.bits & !crate::config::MUX_BITS) | ((spec_mux_bits(ch) as u16) << 12u16) }
}

/// The configuration with the gain field set for `fsr`.
pub open spec fn config_for_fsr(c: Config, fsr: FullScaleRange) -> Config {
    Config { bits: (c.bits & !crate::config::PGA_BITS) | (spec_pga_bits(fsr) << 9u16) }
}

/// Whether a configuration word read from the device reports a conversion
/// in progress: its status bit is low.
pub open spec fn spec_in_progress(bits: u16) -> bool {
    bits & OS == 0
}

/// Error of a mode change: the bus error, and the handle, unchanged.
#[derive(Debug)]
pub enum ModeChangeError<E, DEV> {
    I2C(E, DEV),
}

/// Driver state of one converter: the bus it owns, its address, the last
/// configuration written to or read from it, the full-scale range, and
/// whether a one-shot conversion was started. `MODE` is the operating mode.
pub struct Ads1x1x<I2C, CONV, MODE> {
    i2c: I2C,
    address: u8,
    config: Config,
    fsr: FullScaleRange,
    a_conversion_was_started: bool,
    _conv: PhantomData<CONV>,
    _mode: PhantomData<MODE>,
}

impl<I2C, CONV, MODE> Ads1x1x<I2C, CONV, MODE> {
    /// The bus connection.
    pub closed spec fn spec_i2c(&self) -> I2C {
        self.i2c
    }

    /// Bus address of the device.
    pub closed spec fn spec_address(&self) -> u8 {
        self.address
    }

    /// Cached configuration.
    pub closed spec fn spec_config(&self) -> Config {
        self.config
    }

    /// Full-scale range in use.
    pub closed spec fn spec_fsr(&self) -> FullScaleRange {
        self.fsr
    }

    /// Whether a one-shot conversion was started.
    pub closed spec fn spec_started(&self) -> bool {
        self.a_conversion_was_started
    }

    /// The bus connection, for the transactions that the handle asks for.
    pub fn bus(&mut self) -> (r: &mut I2C)
        ensures
            *r == old(self).spec_i2c(),
            final(self).spec_i2c() == *final(r),
            final(self).spec_address() == old(self).spec_address(),
            final(self).spec_config() == old(self).spec_config(),
            final(self).spec_fsr() == old(self).spec_fsr(),
            final(self).spec_started() == old(self).spec_started(),
    {
        &mut self.i2c
    }

    /// Gives back the bus connection.
    pub fn destroy(self) -> (r: I2C)
        ensures
            r == self.spec_i2c(),
    {
        self.i2c
    }

    /// Bus address of the device.
    pub fn address(&self) -> (r: u8)
        ensures
            r == self.spec_address(),
    {
        self.address
    }

    /// Cached configuration.
    pub fn config(&self) -> (r: Config)
        ensures
            r == self.spec_config(),
    {
        self.config
    }

    /// Full-scale range in use.
    pub fn fsr(&self) -> (r: FullScaleRange)
        ensures
            r == self.spec_fsr(),
    {
        self.fsr
    }

    /// Bytes to write to the bus for `set_operating_mode(mode)`.
    pub fn operating_mode_write(&self, mode: OperatingMode) -> (r: [u8; 3])
        ensures
            r@ == write_bytes(CONFIG, config_for_mode(self.spec_config(), mode).bits),
    {
        let config = match mode {
            OperatingMode::OneShot => self.config.with_high(OP_MODE),
            OperatingMode::Continuous => self.config.with_low(OP_MODE),
        };
        write_payload(CONFIG, config.bits)
    }

    /// Sets the operating-mode bit, given the outcome of writing
    /// `operating_mode_write(mode)` to the bus. The cached configuration
    /// changes only when the write succeeded.
    pub fn set_operating_mode<E>(&mut self, mode: OperatingMode, outcome: Result<(), E>) -> (r:
        Result<(), Error<E>>)
        ensures
            outcome is Ok <==> r is Ok,
            outcome is Ok ==> final(self).spec_config() == config_for_mode(old(self).spec_config(), mode),
            outcome is Err ==> r == Err::<(), Error<E>>(Error::I2C(outcome->Err_0)),
            outcome is Err ==> *final(self) == *old(self),
            final(self).spec_i2c() == old(self).spec_i2c(),
            final(self).spec_address() == old(self).spec_address(),
            final(self).spec_fsr() == old(self).spec_fsr(),
            final(self).spec_started() == old(self).spec_started(),
    {
        let config = match mode {
            OperatingMode::OneShot => self.config.with_high(OP_MODE),
            OperatingMode::Continuous => self.config.with_low(OP_MODE),
        };
        match crate::register::write_register(outcome) {
            Ok(()) => {
                self.config = config;
                Ok(())
            },
            Err(e) => Err(e),
        }
    }

    /// Bytes to write to the bus for `select_channel(channel)`.
    pub fn channel_write(&self, channel: ChannelSelection) -> (r: [u8; 3])
        ensures
            r@ == write_bytes(CONFIG, config_for_channel(self.spec_config(), channel).bits),
    {
        write_payload(CONFIG, self.config.with_mux_bits(channel.mux_bits()).bits)
    }

    /// Selects the channel used for measurements, given the outcome of writing
    /// `channel_write(channel)` to the bus. A conversion already running
    /// completes on the previous channel; the following ones use the new one.
    pub fn select_channel<E>(&mut self, channel: ChannelSelection, outcome: Result<(), E>) -> (r:
        Result<(), Error<E>>)
        ensures
            outcome is Ok <==> r is Ok,
            outcome is Ok ==> final(self).spec_config() == config_for_channel(
                old(self).spec_config(),
                channel,
            ),
            outcome is Ok ==> final(self).spec_config().fields() == (crate::config::ConfigFields {
                mux: spec_mux_bits(channel) as u16,
                ..old(self).spec_config().fields()
            }),
            outcome is Err ==> r == Err::<(), Error<E>>(Error::I2C(outcome->Err_0)),
            outcome is Err ==> *final(self) == *old(self),
            final(self).spec_i2c() == old(self).spec_i2c(),
            final(self).spec_address() == old(self).spec_address(),
            final(self).spec_fsr() == old(self).spec_fsr(),
            final(self).spec_started() == old(self).spec_started(),
    {
        let config = self.config.with_mux_bits(channel.mux_bits());
        match crate::register::write_register(outcome) {
            Ok(()) => {
                self.config = config;
                Ok(())
            },
            Err(e) => Err(e),
        }
    }

    /// Bytes to write to the bus for `set_full_scale_range(fsr)`.
    pub fn full_scale_range_write(&self, fsr: FullScaleRange) -> (r: [u8; 3])
        ensures
            r@ == write_bytes(CONFIG, config_for_fsr(self.spec_config(), fsr).bits),
    {
        write_payload(CONFIG, self.config.with_pga_bits(fsr.pga_bits()).bits)
    }

    /// Sets the full-scale range, given the outcome of writing
    /// `full_scale_range_write(fsr)` to the bus. The cached configuration and
    /// the range used for scaling change only when the write succeeded.
    pub fn set_full_scale_range<E>(&mut self, fsr: FullScaleRange, outcome: Result<(), E>) -> (r:
        Result<(), Error<E>>)
        ensures
            outcome is Ok <==> r is Ok,
            outcome is Ok ==> final(self).spec_config() == config_for_fsr(old(self).spec_config(), fsr),
            outcome is Ok ==> final(self).spec_fsr() == fsr,
            outcome is Err ==> r == Err::<(), Error<E>>(Error::I2C(outcome->Err_0)),
            outcome is Err ==> *final(self) == *old(self),
            final(self).spec_i2c() == old(self).spec_i2c(),
            final(self).spec_address() == old(self).spec_address(),
            final(self).spec_started() == old(self).spec_started(),
    {
        let config = self.config.with_pga_bits(fsr.pga_bits());
        match crate::register::write_register(outcome) {
            Ok(()) => {
                self.config = config;
                self.fsr = fsr;
                Ok(())
            },
            Err(e) => Err(e),
        }
    }

    /// Checks whether a measurement is in progress, given the outcome of the
    /// read of the configuration register and the two bytes it read.
    pub fn is_measurement_in_progress<E>(&self, outcome: Result<(), E>, data: [u8; 2]) -> (r:
        Result<bool, Error<E>>)
        ensures
            outcome is Ok <==> r is Ok,
            r is Ok ==> r->Ok_0 == (be_value(data@[0], data@[1]) < 0x8000),
            outcome is Err ==> r == Err::<bool, Error<E>>(Error::I2C(outcome->Err_0)),
    {
        match crate::register::read_register(outcome, data) {
            Ok(bits) => {
                let config = Config { bits };
                assert(bits & OS == 0 <==> bits < 0x8000) by (bit_vector);
                Ok(!config.is_high(OS))
            },
            Err(e) => Err(e),
        }
    }
}

/// Configuration word of the device after power-on.
pub const DEFAULT_CONFIG: u16 = 0x8583;

impl<I2C, CONV> Ads1x1x<I2C, CONV, OneShot> {
    /// A handle of a device just powered on: default configuration, one-shot
    /// mode, full-scale range of 2.048 V.
    pub fn new(i2c: I2C, address: u8) -> (r: Self)
        ensures
            r.spec_i2c() == i2c,
            r.spec_address() == address,
            r.spec_config() == (Config { bits: DEFAULT_CONFIG }),
            r.spec_fsr() == FullScaleRange::Within2_048V,
            !r.spec_started(),
    {
        Ads1x1x {
            i2c,
            address,
            config: Config { bits: DEFAULT_CONFIG },
            fsr: FullScaleRange::Within2_048V,
            a_conversion_was_started: false,
            _conv: PhantomData,
            _mode: PhantomData,
        }
    }

    /// Bytes to write to the bus to start a one-shot conversion: the cached
    /// configuration with the status bit set.
    pub fn start_conversion_write(&self) -> (r: [u8; 3])
        ensures
            r@ == write_bytes(CONFIG, self.spec_config().bits | OS),
    {
        write_payload(CONFIG, self.config.with_high(OS).bits)
    }

    /// Records a start of a one-shot conversion, given the outcome of writing
    /// `start_conversion_write()` to the bus. The status bit clears itself on
    /// the device, so the cached configuration stays as it is.
    pub fn start_conversion<E>(&mut self, outcome: Result<(), E>) -> (r: Result<(), Error<E>>)
        ensures
            outcome is Ok <==> r is Ok,
            outcome is Ok ==> final(self).spec_started(),
            outcome is Err ==> r == Err::<(), Error<E>>(Error::I2C(outcome->Err_0)),
            outcome is Err ==> *final(self) == *old(self),
            final(self).spec_i2c() == old(self).spec_i2c(),
            final(self).spec_address() == old(self).spec_address(),
            final(self).spec_config() == old(self).spec_config(),
            final(self).spec_fsr() == old(self).spec_fsr(),
    {
        match crate::register::write_register(outcome) {
            Ok(()) => {
                self.a_conversion_was_started = true;
                Ok(())
            },
            Err(e) => Err(e),
        }
    }

    /// Changes to continuous operating mode, given the outcome of writing
    /// `operating_mode_write(OperatingMode::Continuous)` to the bus. On failure
    /// the handle comes back unchanged with the error.
    pub fn into_continuous<E>(self, outcome: Result<(), E>) -> (r: Result<
        Ads1x1x<I2C, CONV, Continuous>,
        ModeChangeError<E, Self>,
    >)
        ensures
            outcome is Ok <==> r is Ok,
            outcome is Err ==> r == Err::<Ads1x1x<I2C, CONV, Continuous>, ModeChangeError<E, Self>>(
                ModeChangeError::I2C(outcome->Err_0, self),
            ),
            r is Ok ==> r->Ok_0.spec_config() == config_for_mode(
                self.spec_config(),
                OperatingMode::Continuous,
            ),
            r is Ok ==> r->Ok_0.spec_i2c() == self.spec_i2c(),
            r is Ok ==> r->Ok_0.spec_address() == self.spec_address(),
            r is Ok ==> r->Ok_0.spec_fsr() == self.spec_fsr(),
            r is Ok ==> !r->Ok_0.spec_started(),
    {
        match outcome {
            Err(e) => Err(ModeChangeError::I2C(e, self)),
            Ok(()) => {
                let mut dev = self;
                let _ = dev.set_operating_mode(OperatingMode::Continuous, Ok::<(), E>(()));
                Ok(Ads1x1x {
                    i2c: dev.i2c,
                    address: dev.address,
                    config: dev.config,
                    fsr: dev.fsr,
                    a_conversion_was_started: false,
                    _conv: PhantomData,
                    _mode: PhantomData,
                })
            },
        }
    }
}

impl<I2C, CONV> Ads1x1x<I2C, CONV, Continuous> {
    /// Changes to one-shot operating mode, given the outcome of writing
    /// `operating_mode_write(OperatingMode::OneShot)` to the bus. On failure
    /// the handle comes back unchanged with the error.
    pub fn into_one_shot<E>(self, outcome: Result<(), E>) -> (r: Result<
        Ads1x1x<I2C, CONV, OneShot>,
        ModeChangeError<E, Self>,
    >)
        ensures
            outcome is Ok <==> r is Ok,
            outcome is Err ==> r == Err::<Ads1x1x<I2C, CONV, OneShot>, ModeChangeError<E, Self>>(
                ModeChangeError::I2C(outcome->Err_0, self),
            ),
            r is Ok ==> r->Ok_0.spec_config() == config_for_mode(
                self.spec_config(),
                OperatingMode::OneShot,
            ),
            r is Ok ==> r->Ok_0.spec_i2c() == self.spec_i2c(),
            r is Ok ==> r->Ok_0.spec_address() == self.spec_address(),
            r is Ok ==> r->Ok_0.spec_fsr() == self.spec_fsr(),
            r is Ok ==> !r->Ok_0.spec_started(),
    {
        match outcome {
            Err(e) => Err(ModeChangeError::I2C(e, self)),
            Ok(()) => {
                let mut dev = self;
                let _ = dev.set_operating_mode(OperatingMode::OneShot, Ok::<(), E>(()));
                Ok(Ads1x1x {
                    i2c: dev.i2c,
                    address: dev.address,
                    config: dev.config,
                    fsr: dev.fsr,
                    a_conversion_was_started: false,
                    _conv: PhantomData,
                    _mode: PhantomData,
                })
            },
        }
    }
}

impl<I2C, CONV: ConvertMeasurement> Ads1x1x<I2C, CONV, Continuous> {
    /// The most recent measurement in microvolts, given the outcome of the read
    /// of the conversion register and the two bytes it read.
    pub fn read<E>(&self, outcome: Result<(), E>, data: [u8; 2]) -> (r: Result<i32, Error<E>>)
        ensures
            outcome is Ok <==> r is Ok,
            r is Ok ==> r->Ok_0 as int == spec_scale(
                CONV::spec_convert(be_value(data@[0], data@[1]) as u16),
                CONV::spec_max_code(),
                self.spec_fsr(),
            ),
            outcome is Err ==> r == Err::<i32, Error<E>>(Error::I2C(outcome->Err_0)),
    {
        match crate::register::read_register(outcome, data) {
            Ok(value) => {
                let code = CONV::convert_measurement(value);
                Ok(scale_measurement(code, CONV::max_code(), self.fsr))
            },
            Err(e) => Err(e),
        }
    }
}

/// After a successful `set_operating_mode(mode)` the cached configuration's
/// operating-mode bit is one for one-shot and zero for continuous, its other
/// fields are as before, and the word that the device holds, read back from
/// the bytes written, is the cached configuration.
pub proof fn lemma_operating_mode_write(c: Config, mode: OperatingMode)
    ensures
        config_for_mode(c, mode).fields() == (crate::config::ConfigFields {
            mode: if mode == OperatingMode::OneShot {
                1u16
            } else {
                0u16
            },
            ..c.fields()
        }),
        be_value(
            write_bytes(CONFIG, config_for_mode(c, mode).bits)[1],
            write_bytes(CONFIG, config_for_mode(c, mode).bits)[2],
        ) == config_for_mode(c, mode).bits as int,
{
    crate::config::lemma_mode_high(c.bits);
    crate::config::lemma_mode_low(c.bits);
    crate::register::lemma_write_then_read(CONFIG, config_for_mode(c, mode).bits);
}

} // verus!
