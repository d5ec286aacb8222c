//! Who may use the shared bus lines, and at which speed.
//!
//! SPI and I2C run over the same lines of the low bank, so a session
//! commits them to one of the two with the first handle it hands out, and
//! to the speed that the request names.

use crate::error::{ErrorKind, X232Error};
use crate::gpio::PinBank;
use crate::i2c::I2cSpeed;
use crate::mpsse::{clock_divisor, set_bank, set_divisor, Exchange};
use crate::spi::SpiSpeed;
use vstd::prelude::*;

verus! {

/// What the shared bus lines are committed to.
#[derive(Clone, Copy, Debug, PartialEq, Eq, Structural)]
pub enum BusMode {
    /// No bus was asked for yet.
    Free,
    /// The lines carry SPI at this speed.
    Spi(SpiSpeed),
    /// The lines carry I2C at this speed.
    I2c(I2cSpeed),
}

/// The commands that prepare the lines for a bus clocked at `frequency` Hz:
/// clock and data-out become low outputs and data-in an input, then the
/// clock divisor is programmed.
pub open spec fn bus_setup_command(frequency: nat) -> Seq<u8> {
    bus_setup_command_for(clock_divisor(frequency))
}

/// The commands that prepare the lines for a bus with the given clock
/// divisor.
pub open spec fn bus_setup_command_for(divisor: int) -> Seq<u8> {
    set_bank(PinBank::Low, 0, 0b1111_1011) + set_divisor(divisor)
}

/// Whether a request for SPI at `speed` goes together with lines committed
/// to SPI at `committed`. Two speeds named outright must be the same. A
/// request at `CLK_AUTO` takes the bus as it runs; and lines committed at
/// `CLK_AUTO` were bound to no speed in particular, so they take every later
/// request, which then finds the bus at the rate that `CLK_AUTO` stands for.
pub open spec fn spi_speeds_agree(committed: SpiSpeed, speed: SpiSpeed) -> bool {
    committed == SpiSpeed::CLK_AUTO || speed == SpiSpeed::CLK_AUTO || speed == committed
}

/// Whether a request for I2C at `speed` goes together with lines committed
/// to I2C at `committed`, by the same rule as for SPI.
pub open spec fn i2c_speeds_agree(committed: I2cSpeed, speed: I2cSpeed) -> bool {
    committed == I2cSpeed::CLK_AUTO || speed == I2cSpeed::CLK_AUTO || speed == committed
}

impl BusMode {
    /// What a request for an SPI bus at `speed` is answered with: the
    /// command to send on success. The first request sets the bus up; a
    /// later one succeeds, with nothing to send, where its speed agrees
    /// with the committed one.
    pub open spec fn spi_outcome(self, speed: SpiSpeed) -> Result<Seq<u8>, ErrorKind> {
        match self {
            BusMode::I2c(_) => Err(ErrorKind::BusBusy),
            BusMode::Free => Ok(bus_setup_command(speed.frequency())),
            BusMode::Spi(committed) => if spi_speeds_agree(committed, speed) {
                Ok(Seq::empty())
            } else {
                Err(ErrorKind::InvalidClock)
            },
        }
    }

    /// The commitment after a request for an SPI bus at `speed`.
    pub open spec fn after_spi(self, speed: SpiSpeed) -> BusMode {
        match self {
            BusMode::Free => BusMode::Spi(speed),
            _ => self,
        }
    }

    /// What a request for an I2C bus at `speed` is answered with.
    pub open spec fn i2c_outcome(self, speed: I2cSpeed) -> Result<Seq<u8>, ErrorKind> {
        match self {
            BusMode::Spi(_) => Err(ErrorKind::BusBusy),
            BusMode::Free => Ok(bus_setup_command(speed.frequency())),
            BusMode::I2c(committed) => if i2c_speeds_agree(committed, speed) {
                Ok(Seq::empty())
            } else {
                Err(ErrorKind::InvalidClock)
            },
        }
    }

    /// The commitment after a request for an I2C bus at `speed`.
    pub open spec fn after_i2c(self, speed: I2cSpeed) -> BusMode {
        match self {
            BusMode::Free => BusMode::I2c(speed),
            _ => self,
        }
    }

    /// Decides a request for an SPI bus at `speed` and notes the commitment.
    /// Granted, it says whether the lines are still to be set up.
    pub fn request_spi(&mut self, speed: SpiSpeed) -> (result: Result<bool, X232Error>)
        ensures
            *final(self) == old(self).after_spi(speed),
            match old(self).spi_outcome(speed) {
                Ok(_) => result == Ok::<bool, X232Error>(*old(self) == BusMode::Free),
                Err(kind) => result == Err::<bool, X232Error>(X232Error::HAL(kind)),
            },
    {
        match *self {
            BusMode::I2c(_) => Err(X232Error::HAL(ErrorKind::BusBusy)),
            BusMode::Free => {
                *self = BusMode::Spi(speed);
                Ok(true)
            },
            BusMode::Spi(committed) => {
                if committed != SpiSpeed::CLK_AUTO && speed != SpiSpeed::CLK_AUTO && speed
                    != committed {
                    return Err(X232Error::HAL(ErrorKind::InvalidClock));
                }
                Ok(false)
            },
        }
    }

    /// Decides a request for an I2C bus at `speed` and notes the
    /// commitment. Granted, it says whether the lines are still to be set
    /// up.
    pub fn request_i2c(&mut self, speed: I2cSpeed) -> (result: Result<bool, X232Error>)
        ensures
            *final(self) == old(self).after_i2c(speed),
            match old(self).i2c_outcome(speed) {
                Ok(_) => result == Ok::<bool, X232Error>(*old(self) == BusMode::Free),
                Err(kind) => result == Err::<bool, X232Error>(X232Error::HAL(kind)),
            },
    {
        match *self {
            BusMode::Spi(_) => Err(X232Error::HAL(ErrorKind::BusBusy)),
            BusMode::Free => {
                *self = BusMode::I2c(speed);
                Ok(true)
            },
            BusMode::I2c(committed) => {
                if committed != I2cSpeed::CLK_AUTO && speed != I2cSpeed::CLK_AUTO && speed
                    != committed {
                    return Err(X232Error::HAL(ErrorKind::InvalidClock));
                }
                Ok(false)
            },
        }
    }
}

/// Whether `result` answers a request for a bus as `outcome` says: on
/// success with the command to send and nothing to read back, otherwise
/// with the engine's refusal.
pub open spec fn answers<B>(
    result: Result<(B, Exchange), X232Error>,
    outcome: Result<Seq<u8>, ErrorKind>,
) -> bool {
    match outcome {
        Ok(command) => {
            &&& result is Ok
            &&& result->Ok_0.1.command@ == command
            &&& result->Ok_0.1.reply_len == 0
        },
        Err(kind) => result is Err && result->Err_0 == X232Error::HAL(kind),
    }
}

/// SPI and I2C exclude each other: once a request for SPI was granted, every
/// request for I2C is refused with `BusBusy`, while SPI is granted again at
/// the same speed and at `CLK_AUTO`, with nothing to send.
pub proof fn lemma_spi_excludes_i2c(bus: BusMode, speed: SpiSpeed, other: I2cSpeed)
    requires
        bus.spi_outcome(speed) is Ok,
    ensures
        bus.after_spi(speed).i2c_outcome(other) == Err::<Seq<u8>, ErrorKind>(ErrorKind::BusBusy),
        bus.after_spi(speed).spi_outcome(speed) == Ok::<Seq<u8>, ErrorKind>(Seq::empty()),
        bus.after_spi(speed).spi_outcome(SpiSpeed::CLK_AUTO) == Ok::<Seq<u8>, ErrorKind>(
            Seq::empty(),
        ),
{
}

/// I2C and SPI exclude each other: once a request for I2C was granted, every
/// request for SPI is refused with `BusBusy`, while I2C is granted again at
/// the same speed and at `CLK_AUTO`, with nothing to send.
pub proof fn lemma_i2c_excludes_spi(bus: BusMode, speed: I2cSpeed, other: SpiSpeed)
    requires
        bus.i2c_outcome(speed) is Ok,
    ensures
        bus.after_i2c(speed).spi_outcome(other) == Err::<Seq<u8>, ErrorKind>(ErrorKind::BusBusy),
        bus.after_i2c(speed).i2c_outcome(speed) == Ok::<Seq<u8>, ErrorKind>(Seq::empty()),
        bus.after_i2c(speed).i2c_outcome(I2cSpeed::CLK_AUTO) == Ok::<Seq<u8>, ErrorKind>(
            Seq::empty(),
        ),
{
}

/// A committed bus stays committed: no request for a bus, granted or
/// refused, changes what the lines carry or at which speed.
pub proof fn lemma_commitment_is_final(bus: BusMode, spi: SpiSpeed, i2c: I2cSpeed)
    requires
        bus != BusMode::Free,
    ensures
        bus.after_spi(spi) == bus,
        bus.after_i2c(i2c) == bus,
{
}

/// The first speed binds: on lines committed to SPI at a speed named
/// outright, a request is granted exactly where it asks for that speed or
/// for `CLK_AUTO`, and every other speed is refused with `InvalidClock`.
pub proof fn lemma_spi_speed_binds(committed: SpiSpeed, speed: SpiSpeed)
    requires
        committed != SpiSpeed::CLK_AUTO,
    ensures
        BusMode::Spi(committed).spi_outcome(speed) is Ok <==> speed == SpiSpeed::CLK_AUTO || speed
            == committed,
        BusMode::Spi(committed).spi_outcome(speed) is Err ==> BusMode::Spi(committed).spi_outcome(
            speed,
        ) == Err::<Seq<u8>, ErrorKind>(ErrorKind::InvalidClock),
{
}

/// The first speed binds: on lines committed to I2C at a speed named
/// outright, a request is granted exactly where it asks for that speed or
/// for `CLK_AUTO`, and every other speed is refused with `InvalidClock`.
pub proof fn lemma_i2c_speed_binds(committed: I2cSpeed, speed: I2cSpeed)
    requires
        committed != I2cSpeed::CLK_AUTO,
    ensures
        BusMode::I2c(committed).i2c_outcome(speed) is Ok <==> speed == I2cSpeed::CLK_AUTO || speed
            == committed,
        BusMode::I2c(committed).i2c_outcome(speed) is Err ==> BusMode::I2c(committed).i2c_outcome(
            speed,
        ) == Err::<Seq<u8>, ErrorKind>(ErrorKind::InvalidClock),
{
}

/// Lines committed at `CLK_AUTO` refuse no speed: every later request for
/// the same bus is granted, with nothing to send, and the commitment stays
/// at `CLK_AUTO`.
pub proof fn lemma_auto_binds_no_speed(spi: SpiSpeed, i2c: I2cSpeed)
    ensures
        BusMode::Spi(SpiSpeed::CLK_AUTO).spi_outcome(spi) == Ok::<Seq<u8>, ErrorKind>(Seq::empty()),
        BusMode::Spi(SpiSpeed::CLK_AUTO).after_spi(spi) == BusMode::Spi(SpiSpeed::CLK_AUTO),
        BusMode::I2c(I2cSpeed::CLK_AUTO).i2c_outcome(i2c) == Ok::<Seq<u8>, ErrorKind>(Seq::empty()),
        BusMode::I2c(I2cSpeed::CLK_AUTO).after_i2c(i2c) == BusMode::I2c(I2cSpeed::CLK_AUTO),
{
}

} // verus!
