//! Session with any device of the high-speed family, opened by a transport
//! that may set a clock rate of its own: start-up, loopback, and who may use
//! the bus lines and the pins.

use crate::builder::builder_bytes;
use crate::bus::{answers, bus_setup_command_for, BusMode};
use crate::error::{ErrorKind, X232Error};
use crate::gpio::{grants, GpioPin, PinBank, PinDescriptor, PinPool, PIN_COUNT};
use crate::i2c::{I2cBus, I2cSpeed, I2cState};
use crate::mpsse::{init_command, loopback_command, Exchange, MPSSECmd_H};
use crate::spi::{SpiBus, SpiSpeed, MODE_0};
use ftdi_mpsse::MpsseCmdBuilder;
use vstd::prelude::*;
use vstd::slice::slice_to_vec;

verus! {

/// The session as a mathematical value.
pub struct X232State {
    pub loopback: bool,
    /// The clock rate in Hz that the transport is to set when it opens the
    /// device; none leaves the clock as it is. The first request for a bus
    /// then programs the rate of that bus.
    pub clock_frequency: Option<u32>,
    pub bus: BusMode,
    /// One flag for each pin, by slot: true while the pin is free.
    pub pins: Seq<bool>,
}

impl X232State {
    /// The session right after start-up.
    pub open spec fn fresh(clock_frequency: Option<u32>) -> X232State {
        X232State {
            loopback: false,
            clock_frequency,
            bus: BusMode::Free,
            pins: Seq::new(PIN_COUNT as nat, |i: int| true),
        }
    }

    /// What a request for an SPI bus at `speed` is answered with.
    pub open spec fn spi_outcome(self, speed: SpiSpeed) -> Result<Seq<u8>, ErrorKind> {
        self.bus.spi_outcome(speed)
    }

    /// The state after a request for an SPI bus at `speed`.
    pub open spec fn after_spi(self, speed: SpiSpeed) -> X232State {
        X232State { bus: self.bus.after_spi(speed), ..self }
    }

    /// What a request for an I2C bus at `speed` is answered with.
    pub open spec fn i2c_outcome(self, speed: I2cSpeed) -> Result<Seq<u8>, ErrorKind> {
        self.bus.i2c_outcome(speed)
    }

    /// The state after a request for an I2C bus at `speed`.
    pub open spec fn after_i2c(self, speed: I2cSpeed) -> X232State {
        X232State { bus: self.bus.after_i2c(speed), ..self }
    }

    /// The state after a request for the pin that `pin` names.
    pub open spec fn after_pin(self, pin: PinDescriptor) -> X232State {
        X232State { pins: PinPool::acquire_state(self.pins, pin), ..self }
    }
}

/// One session with a device: the single owner of its bus lines and pins.
#[derive(Debug)]
pub struct FTx232H {
    loopback: bool,
    clock_frequency: Option<u32>,
    bus: BusMode,
    pins: PinPool,
}

impl View for FTx232H {
    type V = X232State;

    closed spec fn view(&self) -> X232State {
        X232State {
            loopback: self.loopback,
            clock_frequency: self.clock_frequency,
            bus: self.bus,
            pins: self.pins@,
        }
    }
}

impl FTx232H {
    /// Starts a session with a device that the transport opens at
    /// `frequency` Hz. The device must be sent the returned command before
    /// anything else.
    pub fn init(frequency: u32) -> (started: (FTx232H, Exchange))
        ensures
            started.0@ == X232State::fresh(Some(frequency)),
            started.1.command@ == init_command(),
            started.1.reply_len == 0,
    {
        FTx232H::init_full(Some(frequency))
    }

    /// Starts a session with a device opened with the given clock setting.
    /// The device must be sent the returned command before anything else.
    pub fn init_full(clock_frequency: Option<u32>) -> (started: (FTx232H, Exchange))
        ensures
            started.0@ == X232State::fresh(clock_frequency),
            started.1.command@ == init_command(),
            started.1.reply_len == 0,
    {
        // the full 60 MHz, for which the builder has no command of its own
        let mut head: Vec<u8> = Vec::new();
        head.push(MPSSECmd_H::DISABLE_DIV_5_CLK.into());
        // no adaptive clocking, no three-phase clocking, no loopback,
        // all pins of both banks low outputs
        let cmd_init = MpsseCmdBuilder::with_vec(head).disable_adaptive_data_clocking()
            .disable_3phase_data_clocking().disable_loopback().set_gpio_lower(
            0x0,
            0b1111_1111,
        ).set_gpio_upper(0x0, 0b1111_1111);
        proof {
            assert(builder_bytes(cmd_init) =~= init_command());
        }
        let session = FTx232H {
            loopback: false,
            clock_frequency,
            bus: BusMode::Free,
            pins: PinPool::new(),
        };
        (session, Exchange { command: slice_to_vec(cmd_init.as_slice()), reply_len: 0 })
    }

    /// The clock rate that the transport is to set when it opens the device.
    pub fn clock_frequency(&self) -> (frequency: Option<u32>)
        ensures
            frequency == self@.clock_frequency,
    {
        self.clock_frequency
    }

    /// Switches loopback on or off: notes the setting and returns the
    /// command that tells the device.
    pub fn loopback(&mut self, lp: bool) -> (exchange: Exchange)
        ensures
            final(self)@ == (X232State { loopback: lp, ..old(self)@ }),
            exchange.command@ == loopback_command(lp),
            exchange.reply_len == 0,
    {
        self.loopback = lp;
        let cmd = if lp {
            MpsseCmdBuilder::new().enable_loopback()
        } else {
            MpsseCmdBuilder::new().disable_loopback()
        };
        proof {
            assert(builder_bytes(cmd) =~= loopback_command(lp));
        }
        Exchange { command: slice_to_vec(cmd.as_slice()), reply_len: 0 }
    }

    /// Whether loopback was last switched on.
    pub fn is_loopback(&self) -> (enabled: bool)
        ensures
            enabled == self@.loopback,
    {
        self.loopback
    }

    /// What the bus lines are committed to.
    pub fn bus_mode(&self) -> (mode: BusMode)
        ensures
            mode == self@.bus,
    {
        self.bus
    }

    /// The exchange that prepares the lines for a bus with this divisor.
    fn bus_setup(divisor: (u8, u8)) -> (exchange: Exchange)
        ensures
            exchange.command@ == bus_setup_command_for(divisor.0 + 256 * divisor.1),
            exchange.reply_len == 0,
    {
        let value: u32 = divisor.0 as u32 + 256 * (divisor.1 as u32);
        // data-in is an input, data-out and clock are low outputs
        let cmd = MpsseCmdBuilder::new().set_gpio_lower(0x0, 0b1111_1011).set_clock(value, None);
        proof {
            assert(builder_bytes(cmd) =~= bus_setup_command_for(divisor.0 + 256 * divisor.1));
        }
        Exchange { command: slice_to_vec(cmd.as_slice()), reply_len: 0 }
    }

    /// Asks for a handle on the SPI bus at `speed`.
    ///
    /// Refused with `BusBusy` once the lines carry I2C. The first request
    /// commits the lines to SPI at `speed` and returns the command that sets
    /// the bus up. Every later request returns a further handle with nothing
    /// to send; it is refused with `InvalidClock` only where it and the
    /// first request both name a speed outright and the two differ. A
    /// refusal changes nothing.
    pub fn spi(&mut self, speed: SpiSpeed) -> (result: Result<(SpiBus, Exchange), X232Error>)
        ensures
            answers(result, old(self)@.spi_outcome(speed)),
            result is Ok ==> result->Ok_0.0@ == MODE_0,
            final(self)@ == old(self)@.after_spi(speed),
    {
        match self.bus.request_spi(speed) {
            Err(e) => Err(e),
            Ok(true) => Ok((SpiBus::new(), Self::bus_setup(speed.divisor()))),
            Ok(false) => Ok((SpiBus::new(), Exchange { command: Vec::new(), reply_len: 0 })),
        }
    }

    /// Asks for a handle on the I2C bus at `speed`.
    ///
    /// Refused with `BusBusy` once the lines carry SPI. The first request
    /// commits the lines to I2C at `speed` and returns the command that sets
    /// the bus up. Every later request returns a further handle with nothing
    /// to send; it is refused with `InvalidClock` only where it and the
    /// first request both name a speed outright and the two differ. A
    /// refusal changes nothing.
    pub fn i2c(&mut self, speed: I2cSpeed) -> (result: Result<(I2cBus, Exchange), X232Error>)
        ensures
            answers(result, old(self)@.i2c_outcome(speed)),
            result is Ok ==> result->Ok_0.0@ == I2cState::idle(),
            final(self)@ == old(self)@.after_i2c(speed),
    {
        match self.bus.request_i2c(speed) {
            Err(e) => Err(e),
            Ok(true) => Ok((I2cBus::new(), Self::bus_setup(speed.divisor()))),
            Ok(false) => Ok((I2cBus::new(), Exchange { command: Vec::new(), reply_len: 0 })),
        }
    }

    /// Asks for the pin that `pin` names. A descriptor that names no pin is
    /// refused with `GpioInvalidPin`, a pin handed out before with
    /// `GpioPinBusy`. A pin is never handed back.
    pub fn acquire_pin(&mut self, pin: PinDescriptor) -> (result: Result<GpioPin, X232Error>)
        ensures
            grants(result, PinPool::acquire_result(old(self)@.pins, pin)),
            final(self)@ == old(self)@.after_pin(pin),
    {
        self.pins.acquire(pin)
    }

    /// Asks for pin `PL0`: bit 4 of the low bank.
    pub fn pl0(&mut self) -> (result: Result<GpioPin, X232Error>)
        ensures
            grants(
                result,
                PinPool::acquire_result(
                    old(self)@.pins,
                    PinDescriptor { bit: 4, bank: PinBank::Low },
                ),
            ),
            final(self)@ == old(self)@.after_pin(PinDescriptor { bit: 4, bank: PinBank::Low }),
    {
        self.acquire_pin(PinDescriptor { bit: 4, bank: PinBank::Low })
    }

    /// Asks for pin `PL1`: bit 5 of the low bank.
    pub fn pl1(&mut self) -> (result: Result<GpioPin, X232Error>)
        ensures
            grants(
                result,
                PinPool::acquire_result(
                    old(self)@.pins,
                    PinDescriptor { bit: 5, bank: PinBank::Low },
                ),
            ),
            final(self)@ == old(self)@.after_pin(PinDescriptor { bit: 5, bank: PinBank::Low }),
    {
        self.acquire_pin(PinDescriptor { bit: 5, bank: PinBank::Low })
    }

    /// Asks for pin `PL2`: bit 6 of the low bank.
    pub fn pl2(&mut self) -> (result: Result<GpioPin, X232Error>)
        ensures
            grants(
                result,
                PinPool::acquire_result(
                    old(self)@.pins,
                    PinDescriptor { bit: 6, bank: PinBank::Low },
                ),
            ),
            final(self)@ == old(self)@.after_pin(PinDescriptor { bit: 6, bank: PinBank::Low }),
    {
        self.acquire_pin(PinDescriptor { bit: 6, bank: PinBank::Low })
    }

    /// Asks for pin `PL3`: bit 7 of the low bank.
    pub fn pl3(&mut self) -> (result: Result<GpioPin, X232Error>)
        ensures
            grants(
                result,
                PinPool::acquire_result(
                    old(self)@.pins,
                    PinDescriptor { bit: 7, bank: PinBank::Low },
                ),
            ),
            final(self)@ == old(self)@.after_pin(PinDescriptor { bit: 7, bank: PinBank::Low }),
    {
        self.acquire_pin(PinDescriptor { bit: 7, bank: PinBank::Low })
    }

    /// Asks for pin `PH0`: bit 0 of the high bank.
    pub fn ph0(&mut self) -> (result: Result<GpioPin, X232Error>)
        ensures
            grants(
                result,
                PinPool::acquire_result(
                    old(self)@.pins,
                    PinDescriptor { bit: 0, bank: PinBank::High },
                ),
            ),
            final(self)@ == old(self)@.after_pin(PinDescriptor { bit: 0, bank: PinBank::High }),
    {
        self.acquire_pin(PinDescriptor { bit: 0, bank: PinBank::High })
    }

    /// Asks for pin `PH1`: bit 1 of the high bank.
    pub fn ph1(&mut self) -> (result: Result<GpioPin, X232Error>)
        ensures
            grants(
                result,
                PinPool::acquire_result(
                    old(self)@.pins,
                    PinDescriptor { bit: 1, bank: PinBank::High },
                ),
            ),
            final(self)@ == old(self)@.after_pin(PinDescriptor { bit: 1, bank: PinBank::High }),
    {
        self.acquire_pin(PinDescriptor { bit: 1, bank: PinBank::High })
    }

    /// Asks for pin `PH2`: bit 2 of the high bank.
    pub fn ph2(&mut self) -> (result: Result<GpioPin, X232Error>)
        ensures
            grants(
                result,
                PinPool::acquire_result(
                    old(self)@.pins,
                    PinDescriptor { bit: 2, bank: PinBank::High },
                ),
            ),
            final(self)@ == old(self)@.after_pin(PinDescriptor { bit: 2, bank: PinBank::High }),
    {
        self.acquire_pin(PinDescriptor { bit: 2, bank: PinBank::High })
    }

    /// Asks for pin `PH3`: bit 3 of the high bank.
    pub fn ph3(&mut self) -> (result: Result<GpioPin, X232Error>)
        ensures
            grants(
                result,
                PinPool::acquire_result(
                    old(self)@.pins,
                    PinDescriptor { bit: 3, bank: PinBank::High },
                ),
            ),
            final(self)@ == old(self)@.after_pin(PinDescriptor { bit: 3, bank: PinBank::High }),
    {
        self.acquire_pin(PinDescriptor { bit: 3, bank: PinBank::High })
    }

    /// Asks for pin `PH4`: bit 4 of the high bank.
    pub fn ph4(&mut self) -> (result: Result<GpioPin, X232Error>)
        ensures
            grants(
                result,
                PinPool::acquire_result(
                    old(self)@.pins,
                    PinDescriptor { bit: 4, bank: PinBank::High },
                ),
            ),
            final(self)@ == old(self)@.after_pin(PinDescriptor { bit: 4, bank: PinBank::High }),
    {
        self.acquire_pin(PinDescriptor { bit: 4, bank: PinBank::High })
    }

    /// Asks for pin `PH5`: bit 5 of the high bank.
    pub fn ph5(&mut self) -> (result: Result<GpioPin, X232Error>)
        ensures
            grants(
                result,
                PinPool::acquire_result(
                    old(self)@.pins,
                    PinDescriptor { bit: 5, bank: PinBank::High },
                ),
            ),
            final(self)@ == old(self)@.after_pin(PinDescriptor { bit: 5, bank: PinBank::High }),
    {
        self.acquire_pin(PinDescriptor { bit: 5, bank: PinBank::High })
    }

    /// Asks for pin `PH6`: bit 6 of the high bank.
    pub fn ph6(&mut self) -> (result: Result<GpioPin, X232Error>)
        ensures
            grants(
                result,
                PinPool::acquire_result(
                    old(self)@.pins,
                    PinDescriptor { bit: 6, bank: PinBank::High },
                ),
            ),
            final(self)@ == old(self)@.after_pin(PinDescriptor { bit: 6, bank: PinBank::High }),
    {
        self.acquire_pin(PinDescriptor { bit: 6, bank: PinBank::High })
    }

    /// Asks for pin `PH7`: bit 7 of the high bank.
    pub fn ph7(&mut self) -> (result: Result<GpioPin, X232Error>)
        ensures
            grants(
                result,
                PinPool::acquire_result(
                    old(self)@.pins,
                    PinDescriptor { bit: 7, bank: PinBank::High },
                ),
            ),
            final(self)@ == old(self)@.after_pin(PinDescriptor { bit: 7, bank: PinBank::High }),
    {
        self.acquire_pin(PinDescriptor { bit: 7, bank: PinBank::High })
    }
}

} // verus!
