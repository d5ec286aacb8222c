//! SPI bus handle: clock conventions and the transfer commands.

use crate::builder::{builder_bytes, clock_data, clock_data_out};
use crate::error::{ErrorKind, X232Error};
use crate::mpsse::{
    clock_bytes, clock_bytes_out, clock_divisor, flush_now, lemma_clock_divisor, ClockEdge,
    Exchange, BASE_CLOCK_HZ, MAX_CLOCKED_BYTES,
};
use ftdi_mpsse::MpsseCmdBuilder;
use vstd::prelude::*;
use vstd::slice::slice_to_vec;

verus! {

/// Level of the clock line while the bus is idle.
#[derive(Clone, Copy, Debug, PartialEq, Eq, Structural)]
pub enum Polarity {
    IdleLow,
    IdleHigh,
}

/// The clock transition on which data is sampled.
#[derive(Clone, Copy, Debug, PartialEq, Eq, Structural)]
pub enum Phase {
    CaptureOnFirstTransition,
    CaptureOnSecondTransition,
}

/// An SPI clock convention, numbered as usual: the polarity is the high bit
/// of the number and the phase the low one.
#[derive(Clone, Copy, Debug, PartialEq, Eq, Structural)]
pub enum Mode {
    Mode0,
    Mode1,
    Mode2,
    Mode3,
}

/// Clock idles low, data is sampled on the rising edge.
pub const MODE_0: Mode = Mode::Mode0;

/// Clock idles low, data is sampled on the falling edge.
pub const MODE_1: Mode = Mode::Mode1;

/// Clock idles high, data is sampled on the falling edge.
pub const MODE_2: Mode = Mode::Mode2;

/// Clock idles high, data is sampled on the rising edge.
pub const MODE_3: Mode = Mode::Mode3;

impl Mode {
    /// The convention with the given polarity and phase.
    pub fn new(polarity: Polarity, phase: Phase) -> (mode: Mode)
        ensures
            mode.polarity() == polarity,
            mode.phase() == phase,
    {
        match (polarity, phase) {
            (Polarity::IdleLow, Phase::CaptureOnFirstTransition) => Mode::Mode0,
            (Polarity::IdleLow, Phase::CaptureOnSecondTransition) => Mode::Mode1,
            (Polarity::IdleHigh, Phase::CaptureOnFirstTransition) => Mode::Mode2,
            (Polarity::IdleHigh, Phase::CaptureOnSecondTransition) => Mode::Mode3,
        }
    }

    /// Level of the clock line while idle.
    #[verifier::when_used_as_spec(spec_polarity)]
    pub fn polarity(&self) -> (polarity: Polarity)
        ensures
            polarity == self.spec_polarity(),
    {
        match self {
            Mode::Mode0 | Mode::Mode1 => Polarity::IdleLow,
            Mode::Mode2 | Mode::Mode3 => Polarity::IdleHigh,
        }
    }

    pub open spec fn spec_polarity(&self) -> Polarity {
        match self {
            Mode::Mode0 | Mode::Mode1 => Polarity::IdleLow,
            Mode::Mode2 | Mode::Mode3 => Polarity::IdleHigh,
        }
    }

    /// Transition on which data is sampled.
    #[verifier::when_used_as_spec(spec_phase)]
    pub fn phase(&self) -> (phase: Phase)
        ensures
            phase == self.spec_phase(),
    {
        match self {
            Mode::Mode0 | Mode::Mode2 => Phase::CaptureOnFirstTransition,
            Mode::Mode1 | Mode::Mode3 => Phase::CaptureOnSecondTransition,
        }
    }

    pub open spec fn spec_phase(&self) -> Phase {
        match self {
            Mode::Mode0 | Mode::Mode2 => Phase::CaptureOnFirstTransition,
            Mode::Mode1 | Mode::Mode3 => Phase::CaptureOnSecondTransition,
        }
    }

    /// Whether the device can clock data in this convention. It can where
    /// data is sampled on the first transition away from the idle level; it
    /// has no means to shift the phase for the other two conventions.
    pub open spec fn supported(self) -> bool {
        self == MODE_0 || self == MODE_2
    }

    /// The edge on which incoming data is sampled: rising where the clock
    /// idles low, falling where it idles high.
    pub open spec fn read_edge(self) -> ClockEdge {
        match self.spec_polarity() {
            Polarity::IdleLow => ClockEdge::Rising,
            Polarity::IdleHigh => ClockEdge::Falling,
        }
    }

    /// The edge on which outgoing data changes: the one opposite to the
    /// sampling edge.
    pub open spec fn write_edge(self) -> ClockEdge {
        self.read_edge().opposite()
    }
}

/// Clock rates an SPI bus can be asked to run at.
#[derive(Clone, Copy, Debug, PartialEq, Eq, Structural)]
#[allow(non_camel_case_types)]
pub enum SpiSpeed {
    CLK_AUTO,
    CLK_500kHz,
    CLK_1MHz,
    CLK_2MHz,
    CLK_2_5MHz,
    CLK_3MHz,
    CLK_5MHz,
    CLK_10MHz,
    CLK_20MHz,
}

impl SpiSpeed {
    /// The rate in Hz; `CLK_AUTO` stands for 1 MHz.
    pub open spec fn frequency(self) -> nat {
        match self {
            SpiSpeed::CLK_AUTO => 1_000_000,
            SpiSpeed::CLK_500kHz => 500_000,
            SpiSpeed::CLK_1MHz => 1_000_000,
            SpiSpeed::CLK_2MHz => 2_000_000,
            SpiSpeed::CLK_2_5MHz => 2_500_000,
            SpiSpeed::CLK_3MHz => 3_000_000,
            SpiSpeed::CLK_5MHz => 5_000_000,
            SpiSpeed::CLK_10MHz => 10_000_000,
            SpiSpeed::CLK_20MHz => 20_000_000,
        }
    }

    /// The clock divisor for this rate as the pair (low byte, high byte).
    pub fn divisor(&self) -> (bytes: (u8, u8))
        ensures
            bytes.0 + 256 * bytes.1 == clock_divisor(self.frequency()),
    {
        proof {
            lemma_clock_divisor(500_000, 59);
            lemma_clock_divisor(1_000_000, 29);
            lemma_clock_divisor(2_000_000, 14);
            lemma_clock_divisor(2_500_000, 11);
            lemma_clock_divisor(3_000_000, 9);
            lemma_clock_divisor(5_000_000, 5);
            lemma_clock_divisor(10_000_000, 2);
            lemma_clock_divisor(20_000_000, 1);
        }
        match self {
            SpiSpeed::CLK_AUTO => (0x1d, 0x00),
            SpiSpeed::CLK_500kHz => (0x3b, 0x00),
            SpiSpeed::CLK_1MHz => (0x1d, 0x00),
            SpiSpeed::CLK_2MHz => (0x0e, 0x00),
            SpiSpeed::CLK_2_5MHz => (0x0b, 0x00),
            SpiSpeed::CLK_3MHz => (0x09, 0x00),
            SpiSpeed::CLK_5MHz => (0x05, 0x00),
            SpiSpeed::CLK_10MHz => (0x02, 0x00),
            SpiSpeed::CLK_20MHz => (0x01, 0x00),
        }
    }
}

/// Every rate but the fastest is met exactly: the base clock divided by
/// twice the divisor plus one is the rate itself. At 20 MHz the quotient
/// falls halfway between two divisors, and the clock runs at 15 MHz.
pub proof fn lemma_spi_rates_are_exact(speed: SpiSpeed)
    ensures
        speed != SpiSpeed::CLK_20MHz ==> 2 * speed.frequency() * (clock_divisor(speed.frequency())
            + 1) == BASE_CLOCK_HZ,
        speed == SpiSpeed::CLK_20MHz ==> 2 * 15_000_000 * (clock_divisor(speed.frequency()) + 1)
            == BASE_CLOCK_HZ,
{
    lemma_clock_divisor(500_000, 59);
    lemma_clock_divisor(1_000_000, 29);
    lemma_clock_divisor(2_000_000, 14);
    lemma_clock_divisor(2_500_000, 11);
    lemma_clock_divisor(3_000_000, 9);
    lemma_clock_divisor(5_000_000, 5);
    lemma_clock_divisor(10_000_000, 2);
    lemma_clock_divisor(20_000_000, 1);
    match speed {
        SpiSpeed::CLK_AUTO | SpiSpeed::CLK_1MHz => {
            assert(2 * 1_000_000 * 30 == 60_000_000);
        },
        SpiSpeed::CLK_500kHz => {
            assert(2 * 500_000 * 60 == 60_000_000);
        },
        SpiSpeed::CLK_2MHz => {
            assert(2 * 2_000_000 * 15 == 60_000_000);
        },
        SpiSpeed::CLK_2_5MHz => {
            assert(2 * 2_500_000 * 12 == 60_000_000);
        },
        SpiSpeed::CLK_3MHz => {
            assert(2 * 3_000_000 * 10 == 60_000_000);
        },
        SpiSpeed::CLK_5MHz => {
            assert(2 * 5_000_000 * 6 == 60_000_000);
        },
        SpiSpeed::CLK_10MHz => {
            assert(2 * 10_000_000 * 3 == 60_000_000);
        },
        SpiSpeed::CLK_20MHz => {
            assert(2 * 15_000_000 * 2 == 60_000_000);
        },
    }
}

/// Command that moves `data` out and as many bytes in under `mode`, with the
/// request to answer at once. An empty buffer needs no command.
pub open spec fn transfer_command(mode: Mode, data: Seq<u8>) -> Seq<u8> {
    if data.len() == 0 {
        Seq::empty()
    } else {
        clock_bytes(mode.read_edge(), data) + flush_now()
    }
}

/// Command that moves `data` out under `mode` and reads nothing back. An
/// empty buffer needs no command.
pub open spec fn write_command(mode: Mode, data: Seq<u8>) -> Seq<u8> {
    if data.len() == 0 {
        Seq::empty()
    } else {
        clock_bytes_out(mode.write_edge(), data) + flush_now()
    }
}

/// The bytes that a two-way clocking command shifts out: what follows its
/// opcode and length field, up to the closing request to answer at once.
pub open spec fn shifted_out(command: Seq<u8>) -> Seq<u8> {
    if command.len() < 4 {
        Seq::empty()
    } else {
        command.subrange(3, command.len() - 1)
    }
}

/// A handle on the SPI bus of a session. It remembers the clock convention
/// and turns buffers into the commands that move them.
#[derive(Debug)]
pub struct SpiBus {
    mode: Mode,
    cmd_r: ClockEdge,
    cmd_w: ClockEdge,
}

impl View for SpiBus {
    type V = Mode;

    closed spec fn view(&self) -> Mode {
        self.mode
    }
}

impl SpiBus {
    #[verifier::type_invariant]
    spec fn edges_follow_mode(self) -> bool {
        &&& self.mode.supported()
        &&& self.cmd_r == self.mode.read_edge()
        &&& self.cmd_w == self.mode.write_edge()
    }

    /// A handle in the default convention, `MODE_0`.
    pub fn new() -> (bus: SpiBus)
        ensures
            bus@ == MODE_0,
    {
        SpiBus { mode: MODE_0, cmd_r: ClockEdge::Rising, cmd_w: ClockEdge::Falling }
    }

    /// Selects the clock convention. `MODE_0` and `MODE_2` are accepted; the
    /// other two are refused and leave the handle as it was.
    pub fn set_mode(&mut self, mode: Mode) -> (result: Result<(), X232Error>)
        ensures
            mode.supported() ==> result is Ok && final(self)@ == mode,
            !mode.supported() ==> result == Err::<(), X232Error>(
                X232Error::HAL(ErrorKind::SpiModeNotSupported),
            ) && final(self)@ == old(self)@,
    {
        if mode == MODE_0 {
            *self = SpiBus { mode, cmd_r: ClockEdge::Rising, cmd_w: ClockEdge::Falling };
            return Ok(());
        }
        if mode == MODE_2 {
            *self = SpiBus { mode, cmd_r: ClockEdge::Falling, cmd_w: ClockEdge::Rising };
            return Ok(());
        }
        Err(X232Error::HAL(ErrorKind::SpiModeNotSupported))
    }

    /// The clock convention in use.
    pub fn get_mode(&mut self) -> (mode: Mode)
        ensures
            mode == old(self)@,
            final(self)@ == old(self)@,
            mode.supported(),
    {
        proof {
            use_type_invariant(&*self);
        }
        self.mode
    }

    /// Full-duplex transfer: the exchange that shifts `buffer` out while
    /// reading as many bytes back. The reply takes the place of the buffer's
    /// contents. An empty buffer needs no exchange: the command is empty.
    pub fn transfer(&self, buffer: &[u8]) -> (exchange: Exchange)
        requires
            buffer@.len() <= MAX_CLOCKED_BYTES,
        ensures
            exchange.command@ == transfer_command(self@, buffer@),
            exchange.reply_len == buffer@.len(),
    {
        proof {
            use_type_invariant(self);
        }
        if buffer.len() == 0 {
            return Exchange { command: Vec::new(), reply_len: 0 };
        }
        let cmd = clock_data(MpsseCmdBuilder::new(), self.cmd_r, buffer).send_immediate();
        proof {
            assert(0x20u8 | 0x11u8 == 0x31u8) by (bit_vector);
            assert(0x24u8 | 0x10u8 == 0x34u8) by (bit_vector);
            assert(builder_bytes(cmd) =~= transfer_command(self@, buffer@));
        }
        Exchange { command: slice_to_vec(cmd.as_slice()), reply_len: buffer.len() }
    }

    /// Write-only transfer: the exchange that shifts `buffer` out. Nothing
    /// is read back. An empty buffer needs no exchange.
    pub fn write(&self, buffer: &[u8]) -> (exchange: Exchange)
        requires
            buffer@.len() <= MAX_CLOCKED_BYTES,
        ensures
            exchange.command@ == write_command(self@, buffer@),
            exchange.reply_len == 0,
    {
        proof {
            use_type_invariant(self);
        }
        if buffer.len() == 0 {
            return Exchange { command: Vec::new(), reply_len: 0 };
        }
        let cmd = clock_data_out(MpsseCmdBuilder::new(), self.cmd_w, buffer).send_immediate();
        proof {
            assert(builder_bytes(cmd) =~= write_command(self@, buffer@));
        }
        Exchange { command: slice_to_vec(cmd.as_slice()), reply_len: 0 }
    }

    /// Reads one word: the exchange that shifts a zero byte out and one
    /// byte in.
    pub fn read(&self) -> (exchange: Exchange)
        ensures
            exchange.command@ == transfer_command(self@, seq![0u8]),
            exchange.reply_len == 1,
    {
        let buffer: [u8; 1] = [0];
        let exchange = self.transfer(buffer.as_slice());
        proof {
            assert(buffer@ =~= seq![0u8]);
        }
        exchange
    }

    /// Sends one word: the exchange that shifts `byte` out.
    pub fn send(&self, byte: u8) -> (exchange: Exchange)
        ensures
            exchange.command@ == write_command(self@, seq![byte]),
            exchange.reply_len == 0,
    {
        let buffer: [u8; 1] = [byte];
        let exchange = self.write(buffer.as_slice());
        proof {
            assert(buffer@ =~= seq![byte]);
        }
        exchange
    }
}

/// A full-duplex command carries the buffer untouched, whatever the
/// convention: the bytes it shifts out are the buffer, and it asks for as
/// many bytes back. So a device that echoes what is shifted out, as one in
/// loopback does, answers with the buffer itself.
pub proof fn lemma_transfer_shifts_buffer(mode: Mode, data: Seq<u8>)
    ensures
        shifted_out(transfer_command(mode, data)) == data,
        data.len() > 0 ==> transfer_command(mode, data).len() == data.len() + 4,
{
    if data.len() > 0 {
        let command = transfer_command(mode, data);
        assert(command.len() == data.len() + 4);
        assert(command.subrange(3, command.len() - 1) =~= data);
    } else {
        assert(shifted_out(transfer_command(mode, data)) =~= data);
    }
}

} // verus!
