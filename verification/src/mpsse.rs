//! MPSSE opcodes and the byte layout of the commands built from them.

use crate::gpio::PinBank;
use vstd::prelude::*;

verus! {

/// Commands understood by every MPSSE.
#[derive(Clone, Copy, Debug, PartialEq, Eq, Structural)]
#[allow(non_camel_case_types)]
pub enum MPSSECmd {
    MSB_RISING_EDGE_CLK_BYTE_OUT,
    MSB_FALLING_EDGE_CLK_BYTE_OUT,
    MSB_RISING_EDGE_CLK_BIT_OUT,
    MSB_FALLING_EDGE_CLK_BIT_OUT,
    MSB_RISING_EDGE_CLK_BYTE_IN,
    MSB_FALLING_EDGE_CLK_BYTE_IN,
    MSB_RISING_EDGE_CLK_BIT_IN,
    MSB_FALLING_EDGE_CLK_BIT_IN,
    SET_BITS_LOW,
    SET_BITS_HIGH,
    GET_BITS_LOW,
    GET_BITS_HIGH,
    LOOPBACK_ENABLE,
    LOOPBACK_DISABLE,
    TCK_DIVISOR,
    SEND_IMMEDIATE_RESP,
}

impl MPSSECmd {
    /// The opcode byte of the command.
    pub open spec fn opcode(self) -> u8 {
        match self {
            MPSSECmd::MSB_RISING_EDGE_CLK_BYTE_OUT => 0x10,
            MPSSECmd::MSB_FALLING_EDGE_CLK_BYTE_OUT => 0x11,
            MPSSECmd::MSB_RISING_EDGE_CLK_BIT_OUT => 0x12,
            MPSSECmd::MSB_FALLING_EDGE_CLK_BIT_OUT => 0x13,
            MPSSECmd::MSB_RISING_EDGE_CLK_BYTE_IN => 0x20,
            MPSSECmd::MSB_FALLING_EDGE_CLK_BYTE_IN => 0x24,
            MPSSECmd::MSB_RISING_EDGE_CLK_BIT_IN => 0x22,
            MPSSECmd::MSB_FALLING_EDGE_CLK_BIT_IN => 0x26,
            MPSSECmd::SET_BITS_LOW => 0x80,
            MPSSECmd::SET_BITS_HIGH => 0x82,
            MPSSECmd::GET_BITS_LOW => 0x81,
            MPSSECmd::GET_BITS_HIGH => 0x83,
            MPSSECmd::LOOPBACK_ENABLE => 0x84,
            MPSSECmd::LOOPBACK_DISABLE => 0x85,
            MPSSECmd::TCK_DIVISOR => 0x86,
            MPSSECmd::SEND_IMMEDIATE_RESP => 0x87,
        }
    }
}

impl From<MPSSECmd> for u8 {
    fn from(command: MPSSECmd) -> (code: u8) {
        match command {
            MPSSECmd::MSB_RISING_EDGE_CLK_BYTE_OUT => 0x10,
            MPSSECmd::MSB_FALLING_EDGE_CLK_BYTE_OUT => 0x11,
            MPSSECmd::MSB_RISING_EDGE_CLK_BIT_OUT => 0x12,
            MPSSECmd::MSB_FALLING_EDGE_CLK_BIT_OUT => 0x13,
            MPSSECmd::MSB_RISING_EDGE_CLK_BYTE_IN => 0x20,
            MPSSECmd::MSB_FALLING_EDGE_CLK_BYTE_IN => 0x24,
            MPSSECmd::MSB_RISING_EDGE_CLK_BIT_IN => 0x22,
            MPSSECmd::MSB_FALLING_EDGE_CLK_BIT_IN => 0x26,
            MPSSECmd::SET_BITS_LOW => 0x80,
            MPSSECmd::SET_BITS_HIGH => 0x82,
            MPSSECmd::GET_BITS_LOW => 0x81,
            MPSSECmd::GET_BITS_HIGH => 0x83,
            MPSSECmd::LOOPBACK_ENABLE => 0x84,
            MPSSECmd::LOOPBACK_DISABLE => 0x85,
            MPSSECmd::TCK_DIVISOR => 0x86,
            MPSSECmd::SEND_IMMEDIATE_RESP => 0x87,
        }
    }
}

impl vstd::std_specs::convert::FromSpecImpl<MPSSECmd> for u8 {
    open spec fn obeys_from_spec() -> bool {
        true
    }

    open spec fn from_spec(command: MPSSECmd) -> u8 {
        command.opcode()
    }
}

/// Commands that only the high-speed devices understand.
#[derive(Clone, Copy, Debug, PartialEq, Eq, Structural)]
#[allow(non_camel_case_types)]
pub enum MPSSECmd_H {
    DISABLE_DIV_5_CLK,
    ENABLE_DIV_5_CLK,
    ENABLE_3_PHASE_CLK,
    DISABLE_3_PHASE_CLK,
    CLK_BITS,
    CLK_BYTES,
    CLK_WAIT_HIGH,
    CLK_WAIT_LOW,
    ENABLE_ADAPTIVE_CLK,
    DISABLE_ADAPTIVE_CLK,
    CLK_BYTES_OR_HIGH,
    CLK_BYTES_OR_LOW,
}

impl MPSSECmd_H {
    /// The opcode byte of the command.
    pub open spec fn opcode(self) -> u8 {
        match self {
            MPSSECmd_H::DISABLE_DIV_5_CLK => 0x8a,
            MPSSECmd_H::ENABLE_DIV_5_CLK => 0x8b,
            MPSSECmd_H::ENABLE_3_PHASE_CLK => 0x8c,
            MPSSECmd_H::DISABLE_3_PHASE_CLK => 0x8d,
            MPSSECmd_H::CLK_BITS => 0x8e,
            MPSSECmd_H::CLK_BYTES => 0x8f,
            MPSSECmd_H::CLK_WAIT_HIGH => 0x94,
            MPSSECmd_H::CLK_WAIT_LOW => 0x95,
            MPSSECmd_H::ENABLE_ADAPTIVE_CLK => 0x96,
            MPSSECmd_H::DISABLE_ADAPTIVE_CLK => 0x97,
            MPSSECmd_H::CLK_BYTES_OR_HIGH => 0x9c,
            MPSSECmd_H::CLK_BYTES_OR_LOW => 0x9d,
        }
    }
}

impl From<MPSSECmd_H> for u8 {
    fn from(command: MPSSECmd_H) -> (code: u8) {
        match command {
            MPSSECmd_H::DISABLE_DIV_5_CLK => 0x8a,
            MPSSECmd_H::ENABLE_DIV_5_CLK => 0x8b,
            MPSSECmd_H::ENABLE_3_PHASE_CLK => 0x8c,
            MPSSECmd_H::DISABLE_3_PHASE_CLK => 0x8d,
            MPSSECmd_H::CLK_BITS => 0x8e,
            MPSSECmd_H::CLK_BYTES => 0x8f,
            MPSSECmd_H::CLK_WAIT_HIGH => 0x94,
            MPSSECmd_H::CLK_WAIT_LOW => 0x95,
            MPSSECmd_H::ENABLE_ADAPTIVE_CLK => 0x96,
            MPSSECmd_H::DISABLE_ADAPTIVE_CLK => 0x97,
            MPSSECmd_H::CLK_BYTES_OR_HIGH => 0x9c,
            MPSSECmd_H::CLK_BYTES_OR_LOW => 0x9d,
        }
    }
}

impl vstd::std_specs::convert::FromSpecImpl<MPSSECmd_H> for u8 {
    open spec fn obeys_from_spec() -> bool {
        true
    }

    open spec fn from_spec(command: MPSSECmd_H) -> u8 {
        command.opcode()
    }
}

/// The clock edge on which a data line is driven or sampled.
#[derive(Clone, Copy, Debug, PartialEq, Eq, Structural)]
pub enum ClockEdge {
    Rising,
    Falling,
}

impl ClockEdge {
    /// The other edge.
    pub open spec fn opposite(self) -> ClockEdge {
        match self {
            ClockEdge::Rising => ClockEdge::Falling,
            ClockEdge::Falling => ClockEdge::Rising,
        }
    }

    /// The command that shifts whole bytes out, changing on this edge.
    pub open spec fn bytes_out(self) -> MPSSECmd {
        match self {
            ClockEdge::Rising => MPSSECmd::MSB_RISING_EDGE_CLK_BYTE_OUT,
            ClockEdge::Falling => MPSSECmd::MSB_FALLING_EDGE_CLK_BYTE_OUT,
        }
    }

    /// The command that shifts whole bytes in, sampling on this edge.
    pub open spec fn bytes_in(self) -> MPSSECmd {
        match self {
            ClockEdge::Rising => MPSSECmd::MSB_RISING_EDGE_CLK_BYTE_IN,
            ClockEdge::Falling => MPSSECmd::MSB_FALLING_EDGE_CLK_BYTE_IN,
        }
    }

    /// The command that shifts single bits out, changing on this edge.
    pub open spec fn bits_out(self) -> MPSSECmd {
        match self {
            ClockEdge::Rising => MPSSECmd::MSB_RISING_EDGE_CLK_BIT_OUT,
            ClockEdge::Falling => MPSSECmd::MSB_FALLING_EDGE_CLK_BIT_OUT,
        }
    }

    /// The command that shifts single bits in, sampling on this edge.
    pub open spec fn bits_in(self) -> MPSSECmd {
        match self {
            ClockEdge::Rising => MPSSECmd::MSB_RISING_EDGE_CLK_BIT_IN,
            ClockEdge::Falling => MPSSECmd::MSB_FALLING_EDGE_CLK_BIT_IN,
        }
    }
}

/// Largest number of bytes one clocking command can move.
pub const MAX_CLOCKED_BYTES: usize = 65536;

/// The two length bytes of a byte-clocking command: the count less one, low
/// byte first.
pub open spec fn length_field(count: nat) -> Seq<u8>
    recommends
        1 <= count <= MAX_CLOCKED_BYTES,
{
    seq![((count - 1) % 256) as u8, ((count - 1) / 256) as u8]
}

/// The length field holds the count less one as a 16-bit number, low byte
/// first.
pub proof fn lemma_length_field(count: nat)
    requires
        1 <= count <= MAX_CLOCKED_BYTES,
    ensures
        length_field(count).len() == 2,
        length_field(count)[0] + 256 * length_field(count)[1] == count - 1,
{
}

/// Command that drives a bank: opcode, pin levels, direction mask (a set bit
/// makes the pin an output).
pub open spec fn set_bank(bank: PinBank, value: u8, direction: u8) -> Seq<u8> {
    match bank {
        PinBank::Low => seq![MPSSECmd::SET_BITS_LOW.opcode(), value, direction],
        PinBank::High => seq![MPSSECmd::SET_BITS_HIGH.opcode(), value, direction],
    }
}

/// Command that asks for the levels of a bank; the device answers with one
/// byte.
pub open spec fn get_bank(bank: PinBank) -> Seq<u8> {
    match bank {
        PinBank::Low => seq![MPSSECmd::GET_BITS_LOW.opcode()],
        PinBank::High => seq![MPSSECmd::GET_BITS_HIGH.opcode()],
    }
}

/// Command that shifts `data` out, most significant bit first, changing the
/// line on `edge`. No data, no command.
pub open spec fn clock_bytes_out(edge: ClockEdge, data: Seq<u8>) -> Seq<u8> {
    if data.len() == 0 {
        Seq::empty()
    } else {
        seq![edge.bytes_out().opcode()] + length_field(data.len()) + data
    }
}

/// Command that shifts `count` bytes in, sampling on `edge`; the device
/// answers with `count` bytes.
pub open spec fn clock_bytes_in(edge: ClockEdge, count: nat) -> Seq<u8> {
    if count == 0 {
        Seq::empty()
    } else {
        seq![edge.bytes_in().opcode()] + length_field(count)
    }
}

/// Command that shifts `data` out while shifting as many bytes in. Input is
/// sampled on `edge`, output changes on the opposite one, and the opcode is
/// the union of the two one-way opcodes. The device answers with as many
/// bytes as it was given.
pub open spec fn clock_bytes(edge: ClockEdge, data: Seq<u8>) -> Seq<u8> {
    if data.len() == 0 {
        Seq::empty()
    } else {
        seq![edge.bytes_in().opcode() | edge.opposite().bytes_out().opcode()] + length_field(
            data.len(),
        ) + data
    }
}

/// Command that shifts a single bit out, changing the line on `edge`: a one
/// where `level` is set. The bit travels as the highest bit of the data
/// byte. The device answers with nothing.
pub open spec fn clock_bit_out(edge: ClockEdge, level: bool) -> Seq<u8> {
    seq![
        edge.bits_out().opcode(),
        0u8,
        if level {
            0x80u8
        } else {
            0x00u8
        },
    ]
}

/// Command that shifts a single bit in, sampling on `edge`; the device
/// answers with one byte that holds the bit in its lowest position.
pub open spec fn clock_bit_in(edge: ClockEdge) -> Seq<u8> {
    seq![edge.bits_in().opcode(), 0u8]
}

/// Command that makes the device answer at once instead of waiting for a
/// full packet.
pub open spec fn flush_now() -> Seq<u8> {
    seq![MPSSECmd::SEND_IMMEDIATE_RESP.opcode()]
}

/// The commands that bring a device into its starting state: clock divided
/// from the full 60 MHz, no adaptive and no three-phase clocking, no
/// loopback, every pin of both banks a low output.
pub open spec fn init_command() -> Seq<u8> {
    seq![
        MPSSECmd_H::DISABLE_DIV_5_CLK.opcode(),
        MPSSECmd_H::DISABLE_ADAPTIVE_CLK.opcode(),
        MPSSECmd_H::DISABLE_3_PHASE_CLK.opcode(),
        MPSSECmd::LOOPBACK_DISABLE.opcode(),
    ] + set_bank(PinBank::Low, 0, 0b1111_1111) + set_bank(PinBank::High, 0, 0b1111_1111)
}

/// The command that switches loopback on or off.
pub open spec fn loopback_command(enabled: bool) -> Seq<u8> {
    if enabled {
        seq![MPSSECmd::LOOPBACK_ENABLE.opcode()]
    } else {
        seq![MPSSECmd::LOOPBACK_DISABLE.opcode()]
    }
}

/// Frequency of the oscillator from which the bus clock is divided, in Hz.
pub const BASE_CLOCK_HZ: u32 = 60_000_000;

/// The divisor that brings the bus clock nearest to `frequency` Hz: the
/// quotient of the base clock by twice the frequency, rounded to the nearest
/// integer with halves rounded up, less one.
pub open spec fn clock_divisor(frequency: nat) -> int
    recommends
        frequency > 0,
{
    (BASE_CLOCK_HZ + frequency) / (2 * frequency) as int - 1
}

/// A divisor is the one for `frequency` when the base clock, taken half a
/// step up, falls between the divisor's own step and the next.
pub proof fn lemma_clock_divisor(frequency: nat, divisor: int)
    requires
        frequency > 0,
        2 * frequency * (divisor + 1) <= BASE_CLOCK_HZ + frequency < 2 * frequency * (divisor + 2),
    ensures
        clock_divisor(frequency) == divisor,
{
    let a: int = BASE_CLOCK_HZ + frequency;
    let b: int = (2 * frequency) as int;
    let q: int = divisor + 1;
    assert(a / b == q) by (nonlinear_arith)
        requires
            b > 0,
            b * q <= a < b * (q + 1),
    ;
}

/// Command that programs a clock divisor: opcode, low byte, high byte.
pub open spec fn set_divisor(divisor: int) -> Seq<u8>
    recommends
        0 <= divisor < 65536,
{
    seq![MPSSECmd::TCK_DIVISOR.opcode(), (divisor % 256) as u8, (divisor / 256) as u8]
}

/// The command that programs a divisor holds it as a 16-bit number, low
/// byte first.
pub proof fn lemma_set_divisor(divisor: int)
    requires
        0 <= divisor < 65536,
    ensures
        set_divisor(divisor).len() == 3,
        set_divisor(divisor)[1] + 256 * set_divisor(divisor)[2] == divisor,
{
}

/// One round trip with the device: the bytes to write, and the number of
/// bytes to read back afterwards.
#[derive(Debug, PartialEq, Eq)]
pub struct Exchange {
    pub command: Vec<u8>,
    pub reply_len: usize,
}

} // verus!
