//! Serial communication over the USARTs: configuration and its register
//! encoding.
//!
//! The byte-by-byte transmit and receive paths are plain register reads and
//! writes; what is verified here is the configuration and how it encodes
//! into the USART's control and baud registers.

use vstd::prelude::*;

use core::marker::PhantomData;

use crate::time::{Bps, Hertz};

verus! {

/// USART interrupt events.
pub enum Event {
    /// New data has been received.
    Rxne,
    /// New data can be sent.
    Txe,
}

/// Serial reception errors.
#[derive(Clone, Copy, Debug, PartialEq, Eq, Structural)]
pub enum Error {
    /// Framing error.
    Framing,
    /// Noise error.
    Noise,
    /// RX buffer overrun.
    Overrun,
    /// Parity check error.
    Parity,
}

/// Parity setting.
#[derive(Clone, Copy, Debug, PartialEq, Eq, Structural)]
pub enum Parity {
    ParityNone,
    ParityEven,
    ParityOdd,
}

/// Stop bit setting.
#[derive(Clone, Copy, Debug, PartialEq, Eq, Structural)]
pub enum StopBits {
    /// One stop bit.
    STOP1,
    /// Half a stop bit.
    STOP0P5,
    /// Two stop bits.
    STOP2,
    /// One and a half stop bits.
    STOP1P5,
}

impl StopBits {
    /// The two-bit register encoding of the setting.
    pub open spec fn spec_bits(self) -> u8 {
        match self {
            StopBits::STOP1 => 0b00,
            StopBits::STOP0P5 => 0b01,
            StopBits::STOP2 => 0b10,
            StopBits::STOP1P5 => 0b11,
        }
    }

    /// The two-bit register encoding of the setting.
    pub fn bits(self) -> (r: u8)
        ensures
            r == self.spec_bits(),
    {
        match self {
            StopBits::STOP1 => 0b00,
            StopBits::STOP0P5 => 0b01,
            StopBits::STOP2 => 0b10,
            StopBits::STOP1P5 => 0b11,
        }
    }
}

/// USART configuration.
pub struct Config {
    /// The baud rate.
    pub baudrate: Bps,
    /// The parity setting.
    pub parity: Parity,
    /// The stop bit setting.
    pub stopbits: StopBits,
}

impl Config {
    /// Changes the baud rate.
    pub fn baudrate(self, baudrate: Bps) -> (r: Config)
        ensures
            r.baudrate == baudrate,
            r.parity == self.parity,
            r.stopbits == self.stopbits,
    {
        Config { baudrate, ..self }
    }

    /// Selects no parity.
    pub fn parity_none(self) -> (r: Config)
        ensures
            r.parity == Parity::ParityNone,
            r.baudrate == self.baudrate,
            r.stopbits == self.stopbits,
    {
        Config { parity: Parity::ParityNone, ..self }
    }

    /// Selects even parity.
    pub fn parity_even(self) -> (r: Config)
        ensures
            r.parity == Parity::ParityEven,
            r.baudrate == self.baudrate,
            r.stopbits == self.stopbits,
    {
        Config { parity: Parity::ParityEven, ..self }
    }

    /// Selects odd parity.
    pub fn parity_odd(self) -> (r: Config)
        ensures
            r.parity == Parity::ParityOdd,
            r.baudrate == self.baudrate,
            r.stopbits == self.stopbits,
    {
        Config { parity: Parity::ParityOdd, ..self }
    }

    /// Changes the stop bit setting.
    pub fn stopbits(self, stopbits: StopBits) -> (r: Config)
        ensures
            r.stopbits == stopbits,
            r.baudrate == self.baudrate,
            r.parity == self.parity,
    {
        Config { stopbits, ..self }
    }

    /// Encodes the configuration into the USART's register settings for a
    /// bus running at `clock`.
    ///
    /// The word length counts the parity bit on this USART, so any parity
    /// setting widens the word to nine bits to keep eight data bits. The
    /// baud divider must come out at sixteen or more, or the rate is
    /// impossible for the bus clock.
    pub fn register_settings(&self, clock: Hertz) -> (r: UsartSettings)
        requires
            self.baudrate.0 > 0,
            clock.0 / self.baudrate.0 >= 16,
        ensures
            r.brr == clock.0 / self.baudrate.0,
            r.word_length_9 == (self.parity != Parity::ParityNone),
            r.parity_control == (self.parity != Parity::ParityNone),
            r.parity_odd == (self.parity == Parity::ParityOdd),
            r.stop_bits == self.stopbits.spec_bits(),
    {
        let brr = clock.0 / self.baudrate.0;

        let (word_length_9, parity_control, parity_odd): (bool, bool, bool) = match self.parity {
            Parity::ParityNone => (false, false, false),
            Parity::ParityEven => (true, true, false),
            Parity::ParityOdd => (true, true, true),
        };

        UsartSettings {
            brr,
            word_length_9,
            parity_control,
            parity_odd,
            stop_bits: self.stopbits.bits(),
        }
    }
}

impl Default for Config {
    /// 115200 baud, no parity, one stop bit.
    fn default() -> (r: Config)
        ensures
            r.baudrate.0 == 115_200,
            r.parity == Parity::ParityNone,
            r.stopbits == StopBits::STOP1,
    {
        Config { baudrate: Bps(115_200), parity: Parity::ParityNone, stopbits: StopBits::STOP1 }
    }
}

/// The register values a configuration encodes to: the baud divider and
/// the control register's word length, parity and stop bit fields.
#[derive(Clone, Copy, Debug, PartialEq, Eq, Structural)]
pub struct UsartSettings {
    /// Baud rate divider (BAUD).
    pub brr: u32,
    /// Nine-bit word length (CTL0.WL).
    pub word_length_9: bool,
    /// Parity control enable (CTL0.PCEN).
    pub parity_control: bool,
    /// Odd parity selected (CTL0.PM).
    pub parity_odd: bool,
    /// Stop bit field (CTL1.STB).
    pub stop_bits: u8,
}

/// Serial abstraction owning one USART and its pins.
pub struct Serial<USART, PINS> {
    /// The owned USART peripheral.
    pub usart: USART,
    /// The owned pin pair.
    pub pins: PINS,
}

impl<USART, PINS> Serial<USART, PINS> {
    /// Wraps a USART and its pins.
    pub fn new(usart: USART, pins: PINS) -> (r: Serial<USART, PINS>)
        ensures
            r.usart == usart,
            r.pins == pins,
    {
        Serial { usart, pins }
    }

    /// Returns ownership of the USART and the pins.
    pub fn release(self) -> (r: (USART, PINS))
        ensures
            r.0 == self.usart,
            r.1 == self.pins,
    {
        (self.usart, self.pins)
    }

    /// Separates the serial abstraction into its transmit and receive
    /// halves.
    pub fn split(self) -> (Tx<USART>, Rx<USART>) {
        (Tx { _usart: PhantomData }, Rx { _usart: PhantomData })
    }
}

/// The receive half of a USART.
pub struct Rx<USART> {
    _usart: PhantomData<USART>,
}

/// The transmit half of a USART.
pub struct Tx<USART> {
    _usart: PhantomData<USART>,
}

} // verus!
