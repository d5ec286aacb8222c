//! Session with a single-channel device clocked from its 60 MHz oscillator:
//! start-up, loopback, and who may use the bus lines and the pins.

use crate::bus::{answers, bus_setup_command_for, BusMode};
use crate::error::{ErrorKind, X232Error};
use crate::gpio::{grants, GpioPin, PinBank, PinDescriptor, PinPool, PIN_COUNT};
use crate::i2c::{I2cBus, I2cSpeed, I2cState};
use crate::mpsse::{init_command, loopback_command, Exchange, MPSSECmd, MPSSECmd_H};
use crate::spi::{SpiBus, SpiSpeed, MODE_0};
use vstd::prelude::*;

verus! {

/// The session as a mathematical value.
pub struct SessionState {
    pub loopback: bool,
    pub bus: BusMode,
    /// One flag for each pin, by slot: true while the pin is free.
    pub pins: Seq<bool>,
}

impl SessionState {
    /// The session right after start-up.
    pub open spec fn fresh() -> SessionState {
        SessionState {
            loopback: false,
            bus: BusMode::Free,
            pins: Seq::new(PIN_COUNT as nat, |i: int| true),
        }
    }

    /// What a request for an SPI bus at `speed` is answered with.
    pub open spec fn spi_outcome(self, speed: SpiSpeed) -> Result<Seq<u8>, ErrorKind> {
        self.bus.spi_outcome(speed)
    }

    /// The state after a request for an SPI bus at `speed`.
    pub open spec fn after_spi(self, speed: SpiSpeed) -> SessionState {
        SessionState { bus: self.bus.after_spi(speed), ..self }
    }

    /// What a request for an I2C bus at `speed` is answered with.
    pub open spec fn i2c_outcome(self, speed: I2cSpeed) -> Result<Seq<u8>, ErrorKind> {
        self.bus.i2c_outcome(speed)
    }

    /// The state after a request for an I2C bus at `speed`.
    pub open spec fn after_i2c(self, speed: I2cSpeed) -> SessionState {
        SessionState { bus: self.bus.after_i2c(speed), ..self }
    }

    /// The state after a request for the pin that `pin` names.
    pub open spec fn after_pin(self, pin: PinDescriptor) -> SessionState {
        SessionState { pins: PinPool::acquire_state(self.pins, pin), ..self }
    }
}

/// One session with a device: the single owner of its bus lines and pins.
#[derive(Debug)]
pub struct FT232H {
    loopback: bool,
    bus: BusMode,
    pins: PinPool,
}

impl View for FT232H {
    type V = SessionState;

    closed spec fn view(&self) -> SessionState {
        SessionState { loopback: self.loopback, bus: self.bus, pins: self.pins@ }
    }
}

impl FT232H {
    /// Starts a session. The device must be sent the returned command before
    /// anything else.
    pub fn init() -> (started: (FT232H, Exchange))
        ensures
            started.0@ == SessionState::fresh(),
            started.1.command@ == init_command(),
            started.1.reply_len == 0,
    {
        let mut command: Vec<u8> = Vec::new();
        // the full 60 MHz, no adaptive clocking, no three-phase clocking
        command.push(MPSSECmd_H::DISABLE_DIV_5_CLK.into());
        command.push(MPSSECmd_H::DISABLE_ADAPTIVE_CLK.into());
        command.push(MPSSECmd_H::DISABLE_3_PHASE_CLK.into());
        // no loopback
        command.push(MPSSECmd::LOOPBACK_DISABLE.into());
        // low bank: all pins low outputs
        command.push(MPSSECmd::SET_BITS_LOW.into());
        command.push(0x0);
        command.push(0b1111_1111);
        // high bank: all pins low outputs
        command.push(MPSSECmd::SET_BITS_HIGH.into());
        command.push(0x0);
        command.push(0b1111_1111);
        proof {
            assert(command@ =~= init_command());
        }
        let session = FT232H { loopback: false, bus: BusMode::Free, pins: PinPool::new() };
        (session, Exchange { command, reply_len: 0 })
    }

    /// Switches loopback on or off: notes the setting and returns the
    /// command that tells the device.
    pub fn loopback(&mut self, lp: bool) -> (exchange: Exchange)
        ensures
            final(self)@ == (SessionState { loopback: lp, ..old(self)@ }),
            exchange.command@ == loopback_command(lp),
            exchange.reply_len == 0,
    {
        self.loopback = lp;
        let code: u8 = if lp {
            MPSSECmd::LOOPBACK_ENABLE.into()
        } else {
            MPSSECmd::LOOPBACK_DISABLE.into()
        };
        let mut command: Vec<u8> = Vec::new();
        command.push(code);
        proof {
            assert(command@ =~= loopback_command(lp));
        }
        Exchange { command, reply_len: 0 }
    }

    /// Whether loopback was last switched on.
    pub fn is_loopback(&self) -> (enabled: bool)
        ensures
            enabled == self@.loopback,
    {
        self.loopback
    }

    /// What the bus lines are committed to.
    pub fn bus_mode(&self) -> (mode: BusMode)
        ensures
            mode == self@.bus,
    {
        self.bus
    }

    /// The commands that prepare the lines for a bus with this divisor.
    fn bus_setup(divisor: (u8, u8)) -> (command: Vec<u8>)
        ensures
            command@ == bus_setup_command_for(divisor.0 + 256 * divisor.1),
    {
        let mut command: Vec<u8> = Vec::new();
        // data-in is an input, data-out and clock are low outputs
        command.push(MPSSECmd::SET_BITS_LOW.into());
        command.push(0x0);
        command.push(0b1111_1011);
        command.push(MPSSECmd::TCK_DIVISOR.into());
        command.push(divisor.0);
        command.push(divisor.1);
        proof {
            assert(command@ =~= bus_setup_command_for(divisor.0 + 256 * divisor.1));
        }
        command
    }

    /// Asks for a handle on the SPI bus at `speed`.
    ///
    /// Refused with `BusBusy` once the lines carry I2C. The first request
    /// commits the lines to SPI at `speed` and returns the command that sets
    /// the bus up. Every later request returns a further handle with nothing
    /// to send; it is refused with `InvalidClock` only where it and the
    /// first request both name a speed outright and the two differ. A
    /// refusal changes nothing.
    pub fn spi(&mut self, speed: SpiSpeed) -> (result: Result<(SpiBus, Exchange), X232Error>)
        ensures
            answers(result, old(self)@.spi_outcome(speed)),
            result is Ok ==> result->Ok_0.0@ == MODE_0,
            final(self)@ == old(self)@.after_spi(speed),
    {
        match self.bus.request_spi(speed) {
            Err(e) => Err(e),
            Ok(true) => {
                let command = Self::bus_setup(speed.divisor());
                Ok((SpiBus::new(), Exchange { command, reply_len: 0 }))
            },
            Ok(false) => Ok((SpiBus::new(), Exchange { command: Vec::new(), reply_len: 0 })),
        }
    }

    /// Asks for a handle on the I2C bus at `speed`.
    ///
    /// Refused with `BusBusy` once the lines carry SPI. The first request
    /// commits the lines to I2C at `speed` and returns the command that sets
    /// the bus up. Every later request returns a further handle with nothing
    /// to send; it is refused with `InvalidClock` only where it and the
    /// first request both name a speed outright and the two differ. A
    /// refusal changes nothing.
    pub fn i2c(&mut self, speed: I2cSpeed) -> (result: Result<(I2cBus, Exchange), X232Error>)
        ensures
            answers(result, old(self)@.i2c_outcome(speed)),
            result is Ok ==> result->Ok_0.0@ == I2cState::idle(),
            final(self)@ == old(self)@.after_i2c(speed),
    {
        match self.bus.request_i2c(speed) {
            Err(e) => Err(e),
            Ok(true) => {
                let command = Self::bus_setup(speed.divisor());
                Ok((I2cBus::new(), Exchange { command, reply_len: 0 }))
            },
            Ok(false) => Ok((I2cBus::new(), Exchange { command: Vec::new(), reply_len: 0 })),
        }
    }

    /// Asks for the pin that `pin` names. A descriptor that names no pin is
    /// refused with `GpioInvalidPin`, a pin handed out before with
    /// `GpioPinBusy`. A pin is never handed back.
    pub fn acquire_pin(&mut self, pin: PinDescriptor) -> (result: Result<GpioPin, X232Error>)
        ensures
            grants(result, PinPool::acquire_result(old(self)@.pins, pin)),
            final(self)@ == old(self)@.after_pin(pin),
    {
        self.pins.acquire(pin)
    }

    /// Asks for pin `PL0`: bit 4 of the low bank.
    pub fn pl0(&mut self) -> (result: Result<GpioPin, X232Error>)
        ensures
            grants(
                result,
                PinPool::acquire_result(
                    old(self)@.pins,
                    PinDescriptor { bit: 4, bank: PinBank::Low },
                ),
            ),
            final(self)@ == old(self)@.after_pin(PinDescriptor { bit: 4, bank: PinBank::Low }),
    {
        self.acquire_pin(PinDescriptor { bit: 4, bank: PinBank::Low })
    }

    /// Asks for pin `PL1`: bit 5 of the low bank.
    pub fn pl1(&mut self) -> (result: Result<GpioPin, X232Error>)
        ensures
            grants(
                result,
                PinPool::acquire_result(
                    old(self)@.pins,
                    PinDescriptor { bit: 5, bank: PinBank::Low },
                ),
            ),
            final(self)@ == old(self)@.after_pin(PinDescriptor { bit: 5, bank: PinBank::Low }),
    {
        self.acquire_pin(PinDescriptor { bit: 5, bank: PinBank::Low })
    }

    /// Asks for pin `PL2`: bit 6 of the low bank.
    pub fn pl2(&mut self) -> (result: Result<GpioPin, X232Error>)
        ensures
            grants(
                result,
                PinPool::acquire_result(
                    old(self)@.pins,
                    PinDescriptor { bit: 6, bank: PinBank::Low },
                ),
            ),
            final(self)@ == old(self)@.after_pin(PinDescriptor { bit: 6, bank: PinBank::Low }),
    {
        self.acquire_pin(PinDescriptor { bit: 6, bank: PinBank::Low })
    }

    /// Asks for pin `PL3`: bit 7 of the low bank.
    pub fn pl3(&mut self) -> (result: Result<GpioPin, X232Error>)
        ensures
            grants(
                result,
                PinPool::acquire_result(
                    old(self)@.pins,
                    PinDescriptor { bit: 7, bank: PinBank::Low },
                ),
            ),
            final(self)@ == old(self)@.after_pin(PinDescriptor { bit: 7, bank: PinBank::Low }),
    {
        self.acquire_pin(PinDescriptor { bit: 7, bank: PinBank::Low })
    }

    /// Asks for pin `PH0`: bit 0 of the high bank.
    pub fn ph0(&mut self) -> (result: Result<GpioPin, X232Error>)
        ensures
            grants(
                result,
                PinPool::acquire_result(
                    old(self)@.pins,
                    PinDescriptor { bit: 0, bank: PinBank::High },
                ),
            ),
            final(self)@ == old(self)@.after_pin(PinDescriptor { bit: 0, bank: PinBank::High }),
    {
        self.acquire_pin(PinDescriptor { bit: 0, bank: PinBank::High })
    }

    /// Asks for pin `PH1`: bit 1 of the high bank.
    pub fn ph1(&mut self) -> (result: Result<GpioPin, X232Error>)
        ensures
            grants(
                result,
                PinPool::acquire_result(
                    old(self)@.pins,
                    PinDescriptor { bit: 1, bank: PinBank::High },
                ),
            ),
            final(self)@ == old(self)@.after_pin(PinDescriptor { bit: 1, bank: PinBank::High }),
    {
        self.acquire_pin(PinDescriptor { bit: 1, bank: PinBank::High })
    }

    /// Asks for pin `PH2`: bit 2 of the high bank.
    pub fn ph2(&mut self) -> (result: Result<GpioPin, X232Error>)
        ensures
            grants(
                result,
                PinPool::acquire_result(
                    old(self)@.pins,
                    PinDescriptor { bit: 2, bank: PinBank::High },
                ),
            ),
            final(self)@ == old(self)@.after_pin(PinDescriptor { bit: 2, bank: PinBank::High }),
    {
        self.acquire_pin(PinDescriptor { bit: 2, bank: PinBank::High })
    }

    /// Asks for pin `PH3`: bit 3 of the high bank.
    pub fn ph3(&mut self) -> (result: Result<GpioPin, X232Error>)
        ensures
            grants(
                result,
                PinPool::acquire_result(
                    old(self)@.pins,
                    PinDescriptor { bit: 3, bank: PinBank::High },
                ),
            ),
            final(self)@ == old(self)@.after_pin(PinDescriptor { bit: 3, bank: PinBank::High }),
    {
        self.acquire_pin(PinDescriptor { bit: 3, bank: PinBank::High })
    }

    /// Asks for pin `PH4`: bit 4 of the high bank.
    pub fn ph4(&mut self) -> (result: Result<GpioPin, X232Error>)
        ensures
            grants(
                result,
                PinPool::acquire_result(
                    old(self)@.pins,
                    PinDescriptor { bit: 4, bank: PinBank::High },
                ),
            ),
            final(self)@ == old(self)@.after_pin(PinDescriptor { bit: 4, bank: PinBank::High }),
    {
        self.acquire_pin(PinDescriptor { bit: 4, bank: PinBank::High })
    }

    /// Asks for pin `PH5`: bit 5 of the high bank.
    pub fn ph5(&mut self) -> (result: Result<GpioPin, X232Error>)
        ensures
            grants(
                result,
                PinPool::acquire_result(
                    old(self)@.pins,
                    PinDescriptor { bit: 5, bank: PinBank::High },
                ),
            ),
            final(self)@ == old(self)@.after_pin(PinDescriptor { bit: 5, bank: PinBank::High }),
    {
        self.acquire_pin(PinDescriptor { bit: 5, bank: PinBank::High })
    }

    /// Asks for pin `PH6`: bit 6 of the high bank.
    pub fn ph6(&mut self) -> (result: Result<GpioPin, X232Error>)
        ensures
            grants(
                result,
                PinPool::acquire_result(
                    old(self)@.pins,
                    PinDescriptor { bit: 6, bank: PinBank::High },
                ),
            ),
            final(self)@ == old(self)@.after_pin(PinDescriptor { bit: 6, bank: PinBank::High }),
    {
        self.acquire_pin(PinDescriptor { bit: 6, bank: PinBank::High })
    }

    /// Asks for pin `PH7`: bit 7 of the high bank.
    pub fn ph7(&mut self) -> (result: Result<GpioPin, X232Error>)
        ensures
            grants(
                result,
                PinPool::acquire_result(
                    old(self)@.pins,
                    PinDescriptor { bit: 7, bank: PinBank::High },
                ),
            ),
            final(self)@ == old(self)@.after_pin(PinDescriptor { bit: 7, bank: PinBank::High }),
    {
        self.acquire_pin(PinDescriptor { bit: 7, bank: PinBank::High })
    }
}

} // verus!
