//! Error values reported by the protocol engine.

use vstd::prelude::*;
use vstd::string::StringExecFns;

verus! {

/// Failures detected by the engine itself.
#[derive(Clone, Copy, Debug, PartialEq, Eq, Structural)]
pub enum ErrorKind {
    /// Malformed call, such as an empty buffer where data is needed.
    InvalidParams,
    /// Requested speed disagrees with the speed the bus is already running at.
    InvalidClock,
    /// The other kind of bus already occupies the shared lines.
    BusBusy,
    /// The addressed I2C device did not acknowledge a byte.
    I2cNoAck,
    /// The GPIO pin has already been handed out.
    GpioPinBusy,
    /// No GPIO pin exists at the given position.
    GpioInvalidPin,
    /// The SPI clock convention cannot be produced by the device.
    SpiModeNotSupported,
}

impl ErrorKind {
    /// Text describing each kind of failure.
    pub open spec fn text(self) -> Seq<char> {
        match self {
            ErrorKind::InvalidParams => "Invalid input params"@,
            ErrorKind::BusBusy => "Bus is busy"@,
            ErrorKind::InvalidClock => "Clock is not valid"@,
            ErrorKind::I2cNoAck => "No ACK from slave"@,
            ErrorKind::GpioPinBusy => "GPIO pin is already in use"@,
            ErrorKind::GpioInvalidPin => "No such GPIO pin"@,
            ErrorKind::SpiModeNotSupported => "Mode not supported"@,
        }
    }

    /// Returns the description of this kind of failure.
    pub fn as_str(&self) -> (s: &'static str)
        ensures
            s@ == self.text(),
    {
        match *self {
            ErrorKind::InvalidParams => "Invalid input params",
            ErrorKind::BusBusy => "Bus is busy",
            ErrorKind::InvalidClock => "Clock is not valid",
            ErrorKind::I2cNoAck => "No ACK from slave",
            ErrorKind::GpioPinBusy => "GPIO pin is already in use",
            ErrorKind::GpioInvalidPin => "No such GPIO pin",
            ErrorKind::SpiModeNotSupported => "Mode not supported",
        }
    }
}

/// Any failure of an operation on the device.
///
/// The transport variants carry the text with which the transport described
/// its failure; the engine passes them on untouched.
#[derive(Debug, PartialEq, Eq)]
pub enum X232Error {
    /// Input or output on the device stream failed.
    Io(String),
    /// The open-source FTDI driver reported a failure.
    FTDI(String),
    /// The engine rejected the operation.
    HAL(ErrorKind),
    /// The vendor driver timed out.
    FTD2XX(String),
}

impl X232Error {
    /// The text shown for this failure.
    pub open spec fn message_text(self) -> Seq<char> {
        match self {
            X232Error::Io(text) => text@,
            X232Error::FTDI(text) => text@,
            X232Error::FTD2XX(text) => text@,
            X232Error::HAL(kind) => "A regular error occurred \""@ + kind.text() + "\""@,
        }
    }

    /// The kind of failure, when the engine itself rejected the operation.
    pub open spec fn kind_of(self) -> Option<ErrorKind> {
        match self {
            X232Error::HAL(kind) => Some(kind),
            _ => None,
        }
    }

    /// Renders the failure as text: a transport failure by the transport's
    /// own words, an engine failure by its quoted description.
    pub fn message(&self) -> (s: String)
        ensures
            s@ == self.message_text(),
    {
        match self {
            X232Error::Io(text) => text.clone(),
            X232Error::FTDI(text) => text.clone(),
            X232Error::FTD2XX(text) => text.clone(),
            X232Error::HAL(kind) => {
                let s = String::from_str("A regular error occurred \"");
                let s = s.concat(kind.as_str());
                s.concat("\"")
            },
        }
    }

    /// Returns the engine's failure kind, or `None` for a transport failure.
    pub fn kind(&self) -> (k: Option<ErrorKind>)
        ensures
            k == self.kind_of(),
    {
        match self {
            X232Error::HAL(kind) => Some(*kind),
            _ => None,
        }
    }
}

} // verus!
