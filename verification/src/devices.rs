//! A device set up for SPI alone, clocked at 100 kHz from the oscillator
//! divided by five.

use crate::mpsse::{loopback_command, set_bank, set_divisor, Exchange, MPSSECmd, MPSSECmd_H};
use crate::gpio::PinBank;
use crate::spi::{Mode, MODE_0};
use vstd::prelude::*;

verus! {

/// The commands that set the device up: no loopback, bus lines of the low
/// bank ready for SPI, high bank all low outputs, oscillator divided by
/// five, clock divisor 59.
pub open spec fn spi_init_command() -> Seq<u8> {
    seq![MPSSECmd::LOOPBACK_DISABLE.opcode()] + set_bank(PinBank::Low, 0, 0xfb) + set_bank(
        PinBank::High,
        0,
        0xff,
    ) + seq![MPSSECmd_H::ENABLE_DIV_5_CLK.opcode()] + set_divisor(59)
}

/// The device as a mathematical value.
pub struct DeviceState {
    pub mode: Mode,
    pub loopback: bool,
}

/// What is known of a device set up for SPI.
#[derive(Debug)]
pub struct FtdiDevice {
    mode: Mode,
    loopback: bool,
}

impl View for FtdiDevice {
    type V = DeviceState;

    closed spec fn view(&self) -> DeviceState {
        DeviceState { mode: self.mode, loopback: self.loopback }
    }
}

impl FtdiDevice {
    /// Sets a device up for SPI in the given clock convention, `MODE_0`
    /// where none is given. The device must be sent the returned command
    /// before anything else.
    pub fn spi_init(mode: Option<Mode>) -> (started: (FtdiDevice, Exchange))
        ensures
            started.0@ == (DeviceState {
                mode: match mode {
                    Some(chosen) => chosen,
                    None => MODE_0,
                },
                loopback: false,
            }),
            started.1.command@ == spi_init_command(),
            started.1.reply_len == 0,
    {
        let mut command: Vec<u8> = Vec::new();
        // no loopback
        command.push(MPSSECmd::LOOPBACK_DISABLE.into());
        // pins of both banks
        command.push(MPSSECmd::SET_BITS_LOW.into());
        command.push(0x0);
        command.push(0xfb);
        command.push(MPSSECmd::SET_BITS_HIGH.into());
        command.push(0x0);
        command.push(0xff);
        // speed
        command.push(MPSSECmd_H::ENABLE_DIV_5_CLK.into());
        command.push(MPSSECmd::TCK_DIVISOR.into());
        command.push(59);
        command.push(0);
        proof {
            assert(command@ =~= spi_init_command());
        }
        let m = match mode {
            None => MODE_0,
            Some(mode) => mode,
        };
        (FtdiDevice { mode: m, loopback: false }, Exchange { command, reply_len: 0 })
    }

    /// Notes the clock convention to use from now on.
    pub fn spi_mode(&mut self, mode: Mode)
        ensures
            final(self)@ == (DeviceState { mode, ..old(self)@ }),
    {
        self.mode = mode;
    }

    /// Switches loopback on or off: notes the setting and returns the
    /// command that tells the device.
    pub fn loopback(&mut self, lp: bool) -> (exchange: Exchange)
        ensures
            final(self)@ == (DeviceState { loopback: lp, ..old(self)@ }),
            exchange.command@ == loopback_command(lp),
            exchange.reply_len == 0,
    {
        self.loopback = lp;
        let code: u8 = match lp {
            true => MPSSECmd::LOOPBACK_ENABLE.into(),
            false => MPSSECmd::LOOPBACK_DISABLE.into(),
        };
        let mut command: Vec<u8> = Vec::new();
        command.push(code);
        proof {
            assert(command@ =~= loopback_command(lp));
        }
        Exchange { command, reply_len: 0 }
    }
}

} // verus!
