//! Bringing up an I2C peripheral and shutting it down again.

use vstd::prelude::*;
use crate::i2c::config::Config;
use crate::time::Hertz;

verus! {

/// I2C SDA pin
pub trait SDAPin<I2C> {

}

/// I2C SCL pin
pub trait SCLPin<I2C> {

}

/// I2C error
#[derive(Clone, Copy, Debug, PartialEq, Eq, Structural)]
pub enum Error {
    Overrun,
    Nack,
    PECError,
    BusError,
    ArbitrationLost,
}

/// Where a missing acknowledge came from.
#[derive(Clone, Copy, Debug, PartialEq, Eq, Structural)]
pub enum NoAcknowledgeSource {
    /// The device did not acknowledge its address.
    Address,
    /// The device did not acknowledge a data byte.
    Data,
    /// It is not known which.
    Unknown,
}

/// The bus-independent classes of I2C errors.
#[derive(Clone, Copy, Debug, PartialEq, Eq, Structural)]
pub enum ErrorKind {
    /// Bus error: a start or stop condition at an illegal position.
    Bus,
    /// Arbitration was lost to another master.
    ArbitrationLoss,
    /// A transfer was not acknowledged.
    NoAcknowledge(NoAcknowledgeSource),
    /// Data was received before the previous data was read.
    Overrun,
    /// An error of none of the other classes.
    Other,
}

impl Error {
    /// The class of the error.
    pub open spec fn spec_kind(&self) -> ErrorKind {
        match *self {
            Error::Overrun => ErrorKind::Overrun,
            Error::Nack => ErrorKind::NoAcknowledge(NoAcknowledgeSource::Unknown),
            Error::PECError => ErrorKind::Other,
            Error::BusError => ErrorKind::Bus,
            Error::ArbitrationLost => ErrorKind::ArbitrationLoss,
        }
    }

    /// The class of the error.
    #[verifier::when_used_as_spec(spec_kind)]
    pub fn kind(&self) -> (kind: ErrorKind)
        ensures
            kind == self.spec_kind(),
    {
        match self {
            Error::Overrun => ErrorKind::Overrun,
            Error::Nack => ErrorKind::NoAcknowledge(NoAcknowledgeSource::Unknown),
            Error::PECError => ErrorKind::Other,
            Error::BusError => ErrorKind::Bus,
            Error::ArbitrationLost => ErrorKind::ArbitrationLoss,
        }
    }
}

/// One step of bringing the peripheral up or down.
#[derive(Clone, Copy, Debug, PartialEq, Eq, Structural)]
pub enum Command {
    /// Switch on the peripheral's clock.
    EnableClock,
    /// Switch off the peripheral's clock.
    DisableClock,
    /// Pulse the peripheral's reset line.
    ResetPeripheral,
    /// Clear the peripheral-enable bit, so that the peripheral can be
    /// configured.
    DisablePeripheral,
    /// Write the timing register.
    WriteTiming(u32),
    /// Set the peripheral-enable bit together with the digital filter
    /// length and the analog-filter-off bit.
    EnablePeripheral { digital_filter: u8, analog_filter_off: bool },
}

/// The program that brings a peripheral up with `config` at a peripheral
/// clock of `i2c_clk`.
pub open spec fn init_program(config: Config, i2c_clk: Hertz) -> Seq<Command> {
    seq![
        Command::EnableClock,
        Command::ResetPeripheral,
        Command::DisablePeripheral,
        Command::WriteTiming(config.spec_timing_bits(i2c_clk) as u32),
        Command::EnablePeripheral {
            digital_filter: config.digital_filter(),
            analog_filter_off: !config.analog_filter(),
        },
    ]
}

/// The program that shuts a peripheral down.
pub open spec fn release_program() -> Seq<Command> {
    seq![Command::ResetPeripheral, Command::DisableClock]
}

/// I2C abstraction
pub struct I2c<I2C, SDA, SCL> {
    i2c: I2C,
    sda: SDA,
    scl: SCL,
}

impl<I2C, SDA, SCL> View for I2c<I2C, SDA, SCL> {
    type V = (I2C, SDA, SCL);

    /// The peripheral and its two pins.
    closed spec fn view(&self) -> (I2C, SDA, SCL) {
        (self.i2c, self.sda, self.scl)
    }
}

impl<I2C, SDA, SCL> I2c<I2C, SDA, SCL> {
    /// Takes the peripheral and its pins and computes the program that
    /// initialises the peripheral.
    pub fn new(i2c: I2C, sda: SDA, scl: SCL, config: Config, i2c_clk: Hertz) -> (bus: (
        Self,
        Vec<Command>,
    )) where SDA: SDAPin<I2C>, SCL: SCLPin<I2C>
        requires
            config.timing_defined(i2c_clk),
        ensures
            bus.0@ == (i2c, sda, scl),
            bus.1@ == init_program(config, i2c_clk),
    {
        let timing_bits = config.timing_bits(i2c_clk);
        let mut program: Vec<Command> = Vec::new();
        program.push(Command::EnableClock);
        program.push(Command::ResetPeripheral);
        program.push(Command::DisablePeripheral);
        program.push(Command::WriteTiming(timing_bits));
        program.push(
            Command::EnablePeripheral {
                digital_filter: config.filter_cycles(),
                analog_filter_off: !config.analog_filter_enabled(),
            },
        );
        (I2c { i2c, sda, scl }, program)
    }

    /// Shared access to the peripheral.
    pub fn peripheral(&self) -> (i2c: &I2C)
        ensures
            *i2c == self@.0,
    {
        &self.i2c
    }

    /// Exclusive access to the peripheral; the pins stay as they are.
    pub fn peripheral_mut(&mut self) -> (i2c: &mut I2C)
        ensures
            *i2c == old(self)@.0,
            final(self)@ == (*final(i2c), old(self)@.1, old(self)@.2),
    {
        &mut self.i2c
    }

    /// Gives the peripheral and the pins back, with the program that
    /// disables the peripheral.
    pub fn release(self) -> (parts: ((I2C, SDA, SCL), Vec<Command>))
        ensures
            parts.0 == self@,
            parts.1@ == release_program(),
    {
        let mut program: Vec<Command> = Vec::new();
        program.push(Command::ResetPeripheral);
        program.push(Command::DisableClock);
        ((self.i2c, self.sda, self.scl), program)
    }
}

/// Turning an I2C peripheral and two of its pins into a bus.
pub trait I2cExt<I2C>: Sized {
    /// Takes the peripheral and its pins and computes the program that
    /// initialises the peripheral.
    fn i2c<SDA, SCL>(self, sda: SDA, scl: SCL, config: Config, i2c_clk: Hertz) -> (bus: (
        I2c<I2C, SDA, SCL>,
        Vec<Command>,
    )) where SDA: SDAPin<I2C>, SCL: SCLPin<I2C>
        requires
            config.timing_defined(i2c_clk),
        ensures
            bus.1@ == init_program(config, i2c_clk),
    ;
}

impl<I2C> I2cExt<I2C> for I2C {
    fn i2c<SDA, SCL>(self, sda: SDA, scl: SCL, config: Config, i2c_clk: Hertz) -> (bus: (
        I2c<I2C, SDA, SCL>,
        Vec<Command>,
    )) where SDA: SDAPin<I2C>, SCL: SCLPin<I2C>
        ensures
            bus.0@ == (self, sda, scl),
    {
        I2c::new(self, sda, scl, config, i2c_clk)
    }
}

} // verus!
