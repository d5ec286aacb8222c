//! The commands of two trials on a UM232H board: bytes sent round in
//! loopback, and the registers of a radio on the SPI lines read out.

use crate::gpio::PinBank;
use crate::mpsse::{
    clock_bytes, get_bank, loopback_command, set_bank, set_divisor, ClockEdge, Exchange, MPSSECmd,
    MPSSECmd_H,
};
use vstd::prelude::*;

verus! {

/// The commands that set the board up: bus lines of the low bank ready for
/// SPI, high bank all low outputs, loopback as asked, oscillator divided by
/// five, clock divisor 59.
pub open spec fn um232_init_command(loopback: bool) -> Seq<u8> {
    set_bank(PinBank::Low, 0, 0xfb) + set_bank(PinBank::High, 0, 0xff) + loopback_command(
        loopback,
    ) + seq![MPSSECmd_H::ENABLE_DIV_5_CLK.opcode()] + set_divisor(59)
}

/// The levels of the low bank with the lines in `mask` driven high where
/// `level` is above zero, low where it is zero, and all other lines as they
/// are in `pins`.
pub open spec fn with_lines(pins: u8, mask: u8, level: u8) -> u8 {
    if level > 0 {
        pins | mask
    } else {
        pins & !mask
    }
}

/// The exchange that sets the board up, with loopback on or off.
pub fn um232_init(loopback: bool) -> (exchange: Exchange)
    ensures
        exchange.command@ == um232_init_command(loopback),
        exchange.reply_len == 0,
{
    let mut command: Vec<u8> = Vec::new();
    // pins of both banks
    command.push(MPSSECmd::SET_BITS_LOW.into());
    command.push(0x0);
    command.push(0xfb);
    command.push(MPSSECmd::SET_BITS_HIGH.into());
    command.push(0x0);
    command.push(0xff);
    // loopback
    let code: u8 = if loopback {
        MPSSECmd::LOOPBACK_ENABLE.into()
    } else {
        MPSSECmd::LOOPBACK_DISABLE.into()
    };
    command.push(code);
    // speed
    command.push(MPSSECmd_H::ENABLE_DIV_5_CLK.into());
    command.push(MPSSECmd::TCK_DIVISOR.into());
    command.push(59);
    command.push(0);
    proof {
        assert(command@ =~= um232_init_command(loopback));
    }
    Exchange { command, reply_len: 0 }
}

/// The exchange that moves one byte out and one byte in.
fn byte_exchange(data: u8) -> (exchange: Exchange)
    ensures
        exchange.command@ == clock_bytes(ClockEdge::Rising, seq![data]),
        exchange.reply_len == 1,
{
    let mut command: Vec<u8> = Vec::new();
    command.push(0x31);
    command.push(0x0);
    command.push(0x0);
    command.push(data);
    proof {
        assert(0x20u8 | 0x11u8 == 0x31u8) by (bit_vector);
        assert(command@ =~= clock_bytes(ClockEdge::Rising, seq![data]));
    }
    Exchange { command, reply_len: 1 }
}

/// Reads a register of the radio: the exchange that sends `data` and brings
/// the status back, then the exchange that sends `0xff` and brings the
/// value back. Each moves one byte each way.
pub fn um232_spi_byte_xfer(data: u8) -> (exchanges: (Exchange, Exchange))
    ensures
        exchanges.0.command@ == clock_bytes(ClockEdge::Rising, seq![data]),
        exchanges.0.reply_len == 1,
        exchanges.1.command@ == clock_bytes(ClockEdge::Rising, seq![0xffu8]),
        exchanges.1.reply_len == 1,
{
    (byte_exchange(data), byte_exchange(0xff))
}

/// The exchange that asks for the levels of the low bank.
pub fn um232_read_pins() -> (exchange: Exchange)
    ensures
        exchange.command@ == get_bank(PinBank::Low),
        exchange.reply_len == 1,
{
    let mut command: Vec<u8> = Vec::new();
    command.push(0x81);
    proof {
        assert(command@ =~= get_bank(PinBank::Low));
    }
    Exchange { command, reply_len: 1 }
}

/// Drives the lines of the low bank that `bit` masks: given the levels
/// `pins` just read from the bank, the exchange that writes them back with
/// those lines high where `level` is above zero and low where it is zero.
pub fn um232_spi_csn(pins: u8, bit: u8, level: u8) -> (exchange: Exchange)
    ensures
        exchange.command@ == set_bank(PinBank::Low, with_lines(pins, bit, level), 0xfb),
        exchange.reply_len == 0,
{
    let value: u8 = if level > 0 {
        pins | bit
    } else {
        pins & (!bit)
    };
    let mut command: Vec<u8> = Vec::new();
    command.push(0x80);
    command.push(value);
    command.push(0xfb);
    proof {
        assert(command@ =~= set_bank(PinBank::Low, with_lines(pins, bit, level), 0xfb));
    }
    Exchange { command, reply_len: 0 }
}

/// Driving lines touches no other: a line outside the mask keeps its level,
/// and a line inside it takes the level asked for.
pub proof fn lemma_with_lines(pins: u8, mask: u8, level: u8)
    ensures
        with_lines(pins, mask, level) & !mask == pins & !mask,
        with_lines(pins, mask, level) & mask == if level > 0 {
            mask
        } else {
            0u8
        },
{
    assert((pins | mask) & !mask == pins & !mask) by (bit_vector);
    assert((pins | mask) & mask == mask) by (bit_vector);
    assert((pins & !mask) & !mask == pins & !mask) by (bit_vector);
    assert((pins & !mask) & mask == 0u8) by (bit_vector);
}

} // verus!
