//! I2C bus handle: the bit-banged protocol as a sequence of exchanges.
//!
//! A transaction is a conversation with the device in which every answer
//! decides the next command. The handle holds the state of the transaction
//! under way: `read`, `write` and `write_read` open one and return its first
//! step, and `step` takes the answer to the last exchange and returns the
//! next step, until the transaction is done.

use crate::builder::{
    builder_bytes, clock_bits_in, clock_bits_out, clock_data_in, clock_data_out,
};
use crate::error::{ErrorKind, X232Error};
use crate::gpio::{read_bank_command, PinBank};
use crate::mpsse::{
    clock_bit_in, clock_bit_out, clock_bytes_in, clock_bytes_out, clock_divisor, flush_now,
    lemma_clock_divisor, set_bank, ClockEdge, Exchange, BASE_CLOCK_HZ,
};
use ftdi_mpsse::MpsseCmdBuilder;
use vstd::prelude::*;
use vstd::slice::slice_to_vec;

verus! {

/// Clock rates an I2C bus can be asked to run at.
#[derive(Clone, Copy, Debug, PartialEq, Eq, Structural)]
#[allow(non_camel_case_types)]
pub enum I2cSpeed {
    CLK_AUTO,
    CLK_100kHz,
    CLK_400kHz,
}

impl I2cSpeed {
    /// The rate in Hz; `CLK_AUTO` stands for 100 kHz.
    pub open spec fn frequency(self) -> nat {
        match self {
            I2cSpeed::CLK_AUTO => 100_000,
            I2cSpeed::CLK_100kHz => 100_000,
            I2cSpeed::CLK_400kHz => 400_000,
        }
    }

    /// The clock divisor for this rate as the pair (low byte, high byte).
    pub fn divisor(&self) -> (bytes: (u8, u8))
        ensures
            bytes.0 + 256 * bytes.1 == clock_divisor(self.frequency()),
    {
        proof {
            lemma_clock_divisor(100_000, 299);
            lemma_clock_divisor(400_000, 74);
        }
        match self {
            I2cSpeed::CLK_AUTO => (0x2b, 0x01),
            I2cSpeed::CLK_100kHz => (0x2b, 0x01),
            I2cSpeed::CLK_400kHz => (0x4a, 0x00),
        }
    }
}

/// Both rates are met exactly: the base clock divided by twice the divisor
/// plus one is the rate itself.
pub proof fn lemma_i2c_rates_are_exact(speed: I2cSpeed)
    ensures
        2 * speed.frequency() * (clock_divisor(speed.frequency()) + 1) == BASE_CLOCK_HZ,
{
    lemma_clock_divisor(100_000, 299);
    lemma_clock_divisor(400_000, 74);
    match speed {
        I2cSpeed::CLK_AUTO | I2cSpeed::CLK_100kHz => {
            assert(2 * 100_000 * 300 == 60_000_000);
        },
        I2cSpeed::CLK_400kHz => {
            assert(2 * 400_000 * 75 == 60_000_000);
        },
    }
}

/// The address byte that opens a write to the device at `addr`.
pub open spec fn write_address(addr: u8) -> u8 {
    (addr << 1) | 0x0
}

/// The address byte that opens a read from the device at `addr`.
pub open spec fn read_address(addr: u8) -> u8 {
    (addr << 1) | 0x1
}

/// Whether the acknowledge slot in `reply` was left high: the device did not
/// acknowledge.
pub open spec fn refused(reply: u8) -> bool {
    reply & 0x1 == 0x1
}

/// `piece` said `times` times over.
pub open spec fn repeated(piece: Seq<u8>, times: nat) -> Seq<u8>
    decreases times,
{
    if times == 0 {
        Seq::empty()
    } else {
        repeated(piece, (times - 1) as nat) + piece
    }
}

/// Bank command that puts the clock line (bit 0) and the data line (bit 1)
/// at the levels in `lines`, with both driven, and leaves the upper five
/// pins at their levels in `pins`.
pub open spec fn drive_lines(pins: u8, lines: u8) -> Seq<u8> {
    set_bank(PinBank::Low, (pins & 0b1111_1000) | lines, 0b1111_1011)
}

/// Bank command that stops driving the data line, so that the device can
/// speak, with the clock held low.
pub open spec fn release_data(pins: u8) -> Seq<u8> {
    set_bank(PinBank::Low, (pins & 0b1111_1000) | 0b00, 0b1111_1001)
}

/// Bank command that stops driving both lines.
pub open spec fn release_lines(pins: u8) -> Seq<u8> {
    set_bank(PinBank::Low, (pins & 0b1111_1100) | 0b00, 0b1111_1000)
}

/// Start condition: data falls while the clock is high, then the clock
/// falls. Each of the three states is written four times over to hold it
/// long enough.
pub open spec fn start_condition(pins: u8) -> Seq<u8> {
    repeated(drive_lines(pins, 0b11), 4) + repeated(drive_lines(pins, 0b01), 4) + repeated(
        drive_lines(pins, 0b00),
        4,
    )
}

/// Stop condition: data rises while the clock is high, then both lines are
/// let go. Each of the three states is written four times over.
pub open spec fn stop_condition(pins: u8) -> Seq<u8> {
    repeated(drive_lines(pins, 0b01), 4) + repeated(drive_lines(pins, 0b11), 4) + repeated(
        release_lines(pins),
        4,
    )
}

/// Command that sends one byte and samples the acknowledge slot. The device
/// answers with one byte whose lowest bit is the level found in the slot.
pub open spec fn write_byte_command(byte: u8, pins: u8) -> Seq<u8> {
    drive_lines(pins, 0b10) + clock_bytes_out(ClockEdge::Falling, seq![byte]) + release_data(pins)
        + clock_bit_in(ClockEdge::Rising) + flush_now()
}

/// Command that receives one byte and then fills the acknowledge slot: the
/// data line is let go of and eight bits are clocked in; then the line is
/// driven again, high where `nack` is set and low where it is not, and one
/// bit of that level is clocked out. The device answers with one byte, the
/// byte received.
pub open spec fn read_byte_command(nack: bool, pins: u8) -> Seq<u8> {
    drive_lines(pins, 0b10) + release_data(pins) + clock_bytes_in(ClockEdge::Falling, 1)
        + drive_lines(
        pins,
        if nack {
            0b10
        } else {
            0b00
        },
    ) + clock_bit_out(ClockEdge::Falling, nack) + flush_now()
}

/// Where a transaction stands: what the answer awaited next will be to.
#[derive(Clone, Copy, Debug, PartialEq, Eq, Structural)]
pub enum I2cPhase {
    /// No transaction is under way.
    Idle,
    /// The levels of the low bank were asked for.
    Pins,
    /// The address was sent for writing.
    AddressWrite,
    /// A byte to write was sent.
    Data,
    /// The address was sent for reading.
    AddressRead,
    /// The next byte to read was asked for.
    Receive,
    /// The stop condition was sent, after a refusal where the flag is set.
    Stop(bool),
}

/// What the caller does next.
#[derive(Debug, PartialEq, Eq)]
pub enum I2cAction {
    /// Carry out this exchange and hand the reply to `step`.
    Exchange(Exchange),
    /// The transaction is over, with this result.
    Done(Result<(), X232Error>),
}

/// An `I2cAction` as a mathematical value.
pub enum I2cStep {
    Exchange { command: Seq<u8>, reply_len: nat },
    Done(Result<(), X232Error>),
}

impl View for I2cAction {
    type V = I2cStep;

    open spec fn view(&self) -> I2cStep {
        match self {
            I2cAction::Exchange(exchange) => I2cStep::Exchange {
                command: exchange.command@,
                reply_len: exchange.reply_len as nat,
            },
            I2cAction::Done(result) => I2cStep::Done(*result),
        }
    }
}

/// The state of a bus handle as a mathematical value.
pub struct I2cState {
    /// Seven-bit address of the device spoken to.
    pub address: u8,
    /// The bytes to write.
    pub tx: Seq<u8>,
    /// How many of them were sent.
    pub sent: nat,
    /// The number of bytes to read.
    pub rx_len: nat,
    /// The bytes read so far.
    pub rx: Seq<u8>,
    /// Levels of the low bank as found at the start of the transaction.
    pub pins: u8,
    pub phase: I2cPhase,
}

impl I2cState {
    /// The state of a handle at rest.
    pub open spec fn idle() -> I2cState {
        I2cState {
            address: 0,
            tx: Seq::empty(),
            sent: 0,
            rx_len: 0,
            rx: Seq::empty(),
            pins: 0,
            phase: I2cPhase::Idle,
        }
    }

    /// Opens a transaction: the levels of the low bank are asked for first.
    pub open spec fn begin(address: u8, tx: Seq<u8>, rx_len: nat) -> (I2cState, I2cStep) {
        (
            I2cState {
                address,
                tx,
                sent: 0,
                rx_len,
                rx: Seq::empty(),
                pins: 0,
                phase: I2cPhase::Pins,
            },
            I2cStep::Exchange { command: read_bank_command(PinBank::Low), reply_len: 1 },
        )
    }

    /// A write of `bytes` to the device at `address`. Nothing to write,
    /// nothing to do.
    pub open spec fn write(address: u8, bytes: Seq<u8>) -> (I2cState, I2cStep) {
        if bytes.len() == 0 {
            (Self::idle(), I2cStep::Done(Ok(())))
        } else {
            Self::begin(address, bytes, 0)
        }
    }

    /// A read of `count` bytes from the device at `address`. Nothing to
    /// read, nothing to do.
    pub open spec fn read(address: u8, count: nat) -> (I2cState, I2cStep) {
        if count == 0 {
            (Self::idle(), I2cStep::Done(Ok(())))
        } else {
            Self::begin(address, Seq::empty(), count)
        }
    }

    /// A write of `bytes` followed, without a stop in between, by a read of
    /// `count` bytes. Both parts must be there.
    pub open spec fn write_read(address: u8, bytes: Seq<u8>, count: nat) -> (I2cState, I2cStep) {
        if bytes.len() == 0 || count == 0 {
            (Self::idle(), I2cStep::Done(Err(X232Error::HAL(ErrorKind::InvalidParams))))
        } else {
            Self::begin(address, bytes, count)
        }
    }

    /// The length of the reply that the phase waits for.
    pub open spec fn awaited(self) -> nat {
        match self.phase {
            I2cPhase::Idle => 0,
            I2cPhase::Pins => 1,
            I2cPhase::AddressWrite => 1,
            I2cPhase::Data => 1,
            I2cPhase::AddressRead => 1,
            I2cPhase::Receive => 1,
            I2cPhase::Stop(_) => 0,
        }
    }

    /// Sends the stop condition; `failed` records a refusal.
    pub open spec fn stop(self, failed: bool) -> (I2cState, I2cStep) {
        (
            I2cState { phase: I2cPhase::Stop(failed), ..self },
            I2cStep::Exchange { command: stop_condition(self.pins), reply_len: 0 },
        )
    }

    /// Sends a start condition and the address, for reading where `read` is
    /// set.
    pub open spec fn address_step(self, read: bool) -> (I2cState, I2cStep) {
        if read {
            (
                I2cState { phase: I2cPhase::AddressRead, ..self },
                I2cStep::Exchange {
                    command: start_condition(self.pins) + write_byte_command(
                        read_address(self.address),
                        self.pins,
                    ),
                    reply_len: 1,
                },
            )
        } else {
            (
                I2cState { phase: I2cPhase::AddressWrite, ..self },
                I2cStep::Exchange {
                    command: start_condition(self.pins) + write_byte_command(
                        write_address(self.address),
                        self.pins,
                    ),
                    reply_len: 1,
                },
            )
        }
    }

    /// Goes on with the next byte to write; after the last one, with the
    /// read part where there is one, else with the stop condition.
    pub open spec fn next_write(self) -> (I2cState, I2cStep) {
        if self.sent < self.tx.len() {
            (
                I2cState { phase: I2cPhase::Data, sent: self.sent + 1, ..self },
                I2cStep::Exchange {
                    command: write_byte_command(self.tx[self.sent as int], self.pins),
                    reply_len: 1,
                },
            )
        } else if self.rx_len > 0 {
            self.address_step(true)
        } else {
            self.stop(false)
        }
    }

    /// Goes on with the next byte to read, refusing to acknowledge the last
    /// one; after the last one, with the stop condition.
    pub open spec fn next_read(self) -> (I2cState, I2cStep) {
        if self.rx.len() < self.rx_len {
            (
                I2cState { phase: I2cPhase::Receive, ..self },
                I2cStep::Exchange {
                    command: read_byte_command(self.rx.len() + 1 == self.rx_len, self.pins),
                    reply_len: 1,
                },
            )
        } else {
            self.stop(false)
        }
    }

    /// The transition of the protocol: the state and the step that follow
    /// when `reply` answers the exchange last asked for.
    ///
    /// A reply of the wrong length, or any reply while at rest, ends the
    /// transaction on the spot with `InvalidParams`. A refused address or
    /// data byte leads to the stop condition and then to `I2cNoAck`.
    pub open spec fn step(self, reply: Seq<u8>) -> (I2cState, I2cStep) {
        if self.phase == I2cPhase::Idle || reply.len() != self.awaited() {
            (
                I2cState { phase: I2cPhase::Idle, ..self },
                I2cStep::Done(Err(X232Error::HAL(ErrorKind::InvalidParams))),
            )
        } else {
            match self.phase {
                I2cPhase::Idle => (self, I2cStep::Done(Ok(()))),
                I2cPhase::Pins => (I2cState { pins: reply[0], ..self }).address_step(
                    self.tx.len() == 0,
                ),
                I2cPhase::AddressWrite => if refused(reply[0]) {
                    self.stop(true)
                } else {
                    self.next_write()
                },
                I2cPhase::Data => if refused(reply[0]) {
                    self.stop(true)
                } else {
                    self.next_write()
                },
                I2cPhase::AddressRead => if refused(reply[0]) {
                    self.stop(true)
                } else {
                    self.next_read()
                },
                I2cPhase::Receive => (I2cState { rx: self.rx.push(reply[0]), ..self }).next_read(),
                I2cPhase::Stop(failed) => (
                    I2cState { phase: I2cPhase::Idle, ..self },
                    I2cStep::Done(
                        if failed {
                            Err(X232Error::HAL(ErrorKind::I2cNoAck))
                        } else {
                            Ok(())
                        },
                    ),
                ),
            }
        }
    }
}

/// A handle on the I2C bus of a session, with the state of the transaction
/// it is carrying out.
#[derive(Debug)]
pub struct I2cBus {
    address: u8,
    tx: Vec<u8>,
    sent: usize,
    rx_len: usize,
    rx: Vec<u8>,
    pins: u8,
    phase: I2cPhase,
}

impl View for I2cBus {
    type V = I2cState;

    closed spec fn view(&self) -> I2cState {
        I2cState {
            address: self.address,
            tx: self.tx@,
            sent: self.sent as nat,
            rx_len: self.rx_len as nat,
            rx: self.rx@,
            pins: self.pins,
            phase: self.phase,
        }
    }
}

impl I2cBus {
    /// A handle at rest.
    pub fn new() -> (bus: I2cBus)
        ensures
            bus@ == I2cState::idle(),
    {
        I2cBus {
            address: 0,
            tx: Vec::new(),
            sent: 0,
            rx_len: 0,
            rx: Vec::new(),
            pins: 0,
            phase: I2cPhase::Idle,
        }
    }

    /// The address byte that opens a write to the device at `addr`.
    pub fn i2c_write_to(addr: u8) -> (byte: u8)
        ensures
            byte == write_address(addr),
            addr < 128 ==> byte == 2 * addr,
    {
        proof {
            assert(addr < 128 ==> ((addr << 1) | 0x0) == 2 * addr) by (bit_vector);
        }
        (addr << 1) | 0x0
    }

    /// The address byte that opens a read from the device at `addr`.
    pub fn i2c_read_from(addr: u8) -> (byte: u8)
        ensures
            byte == read_address(addr),
            addr < 128 ==> byte == 2 * addr + 1,
    {
        proof {
            assert(addr < 128 ==> ((addr << 1) | 0x1) == 2 * addr + 1) by (bit_vector);
        }
        (addr << 1) | 0x1
    }

    /// Appends the start condition to `cmd`.
    fn i2c_start(cmd: MpsseCmdBuilder, pins: u8) -> (out: MpsseCmdBuilder)
        ensures
            builder_bytes(out) == builder_bytes(cmd) + start_condition(pins),
    {
        let ghost before = builder_bytes(cmd);
        let mut cmd = cmd;
        for i in 0..4
            invariant
                builder_bytes(cmd) == before + repeated(drive_lines(pins, 0b11), i as nat),
        {
            cmd = cmd.set_gpio_lower((pins & 0b1111_1000) | 0b11, 0b1111_1011);
        }
        let ghost first = builder_bytes(cmd);
        for i in 0..4
            invariant
                builder_bytes(cmd) == first + repeated(drive_lines(pins, 0b01), i as nat),
        {
            cmd = cmd.set_gpio_lower((pins & 0b1111_1000) | 0b01, 0b1111_1011);
        }
        let ghost second = builder_bytes(cmd);
        for i in 0..4
            invariant
                builder_bytes(cmd) == second + repeated(drive_lines(pins, 0b00), i as nat),
        {
            cmd = cmd.set_gpio_lower((pins & 0b1111_1000) | 0b00, 0b1111_1011);
        }
        cmd
    }

    /// Appends the stop condition to `cmd`.
    fn i2c_stop(cmd: MpsseCmdBuilder, pins: u8) -> (out: MpsseCmdBuilder)
        ensures
            builder_bytes(out) == builder_bytes(cmd) + stop_condition(pins),
    {
        let ghost before = builder_bytes(cmd);
        let mut cmd = cmd;
        for i in 0..4
            invariant
                builder_bytes(cmd) == before + repeated(drive_lines(pins, 0b01), i as nat),
        {
            cmd = cmd.set_gpio_lower((pins & 0b1111_1000) | 0b01, 0b1111_1011);
        }
        let ghost first = builder_bytes(cmd);
        for i in 0..4
            invariant
                builder_bytes(cmd) == first + repeated(drive_lines(pins, 0b11), i as nat),
        {
            cmd = cmd.set_gpio_lower((pins & 0b1111_1000) | 0b11, 0b1111_1011);
        }
        let ghost second = builder_bytes(cmd);
        for i in 0..4
            invariant
                builder_bytes(cmd) == second + repeated(release_lines(pins), i as nat),
        {
            cmd = cmd.set_gpio_lower((pins & 0b1111_1100) | 0b00, 0b1111_1000);
        }
        cmd
    }

    /// Appends to `cmd` the command that sends `byte` and samples the
    /// acknowledge slot.
    fn i2c_write_byte_ack(cmd: MpsseCmdBuilder, byte: u8, pins: u8) -> (out: MpsseCmdBuilder)
        ensures
            builder_bytes(out) == builder_bytes(cmd) + write_byte_command(byte, pins),
    {
        let ghost before = builder_bytes(cmd);
        let data: [u8; 1] = [byte];
        // keep the data line high and the clock low, so that no start or
        // stop condition arises by accident
        let cmd = cmd.set_gpio_lower((pins & 0b1111_1000) | 0b10, 0b1111_1011);
        // the byte itself
        let cmd = clock_data_out(cmd, ClockEdge::Falling, data.as_slice());
        // let go of the data line for the acknowledge slot
        let cmd = cmd.set_gpio_lower((pins & 0b1111_1000) | 0b00, 0b1111_1001);
        // sample the slot
        let cmd = clock_bits_in(cmd, ClockEdge::Rising, 1);
        let out = cmd.send_immediate();
        proof {
            assert(data@ =~= seq![byte]);
            assert(builder_bytes(out) =~= before + write_byte_command(byte, pins));
        }
        out
    }

    /// Appends to `cmd` the command that receives one byte and answers it
    /// with an acknowledge, or with a refusal where `nack` is set.
    fn i2c_read_byte(cmd: MpsseCmdBuilder, nack: bool, pins: u8) -> (out: MpsseCmdBuilder)
        ensures
            builder_bytes(out) == builder_bytes(cmd) + read_byte_command(nack, pins),
    {
        let ghost before = builder_bytes(cmd);
        let state: u8 = if nack {
            (pins & 0b1111_1000) | 0b10
        } else {
            (pins & 0b1111_1000) | 0b00
        };
        // keep the data line high and the clock low
        let cmd = cmd.set_gpio_lower((pins & 0b1111_1000) | 0b10, 0b1111_1011);
        // let go of the data line to listen
        let cmd = cmd.set_gpio_lower((pins & 0b1111_1000) | 0b00, 0b1111_1001);
        // the byte itself
        let cmd = clock_data_in(cmd, ClockEdge::Falling, 1);
        // put the answer on the data line
        let cmd = cmd.set_gpio_lower(state, 0b1111_1011);
        // clock it out as the acknowledge slot
        let answer: u8 = if nack {
            0x80
        } else {
            0x00
        };
        let cmd = clock_bits_out(cmd, ClockEdge::Falling, answer, 1);
        let out = cmd.send_immediate();
        proof {
            assert(builder_bytes(out) =~= before + read_byte_command(nack, pins));
        }
        out
    }

    /// Opens a transaction by asking for the levels of the low bank.
    fn begin(&mut self, address: u8, tx: Vec<u8>, rx_len: usize) -> (action: I2cAction)
        ensures
            (final(self)@, action@) == I2cState::begin(address, tx@, rx_len as nat),
    {
        *self = I2cBus {
            address,
            tx,
            sent: 0,
            rx_len,
            rx: Vec::new(),
            pins: 0,
            phase: I2cPhase::Pins,
        };
        let cmd = MpsseCmdBuilder::new().gpio_lower().send_immediate();
        proof {
            assert(builder_bytes(cmd) =~= read_bank_command(PinBank::Low));
        }
        I2cAction::Exchange(Exchange { command: slice_to_vec(cmd.as_slice()), reply_len: 1 })
    }

    /// Opens a read of `count` bytes from the device at `address` and
    /// returns the first step. With nothing to read the transaction is over
    /// at once, successfully, and nothing is sent. The bytes read are found
    /// in `received` when the transaction is done.
    pub fn read(&mut self, address: u8, count: usize) -> (action: I2cAction)
        ensures
            (final(self)@, action@) == I2cState::read(address, count as nat),
            count == 0 ==> action@ == I2cStep::Done(Ok(())),
            count > 0 ==> action@ is Exchange,
    {
        if count == 0 {
            *self = I2cBus::new();
            return I2cAction::Done(Ok(()));
        }
        self.begin(address, Vec::new(), count)
    }

    /// Opens a write of `bytes` to the device at `address` and returns the
    /// first step. With nothing to write the transaction is over at once,
    /// successfully, and nothing is sent.
    pub fn write(&mut self, address: u8, bytes: &[u8]) -> (action: I2cAction)
        ensures
            (final(self)@, action@) == I2cState::write(address, bytes@),
            bytes@.len() == 0 ==> action@ == I2cStep::Done(Ok(())),
            bytes@.len() > 0 ==> action@ is Exchange,
    {
        if bytes.len() == 0 {
            *self = I2cBus::new();
            return I2cAction::Done(Ok(()));
        }
        self.begin(address, slice_to_vec(bytes), 0)
    }

    /// Opens a write of `bytes` followed, after a repeated start condition,
    /// by a read of `count` bytes, and returns the first step. Both parts
    /// must be there: with nothing to write or nothing to read the
    /// transaction is over at once with `InvalidParams`, and nothing is sent.
    pub fn write_read(&mut self, address: u8, bytes: &[u8], count: usize) -> (action: I2cAction)
        ensures
            (final(self)@, action@) == I2cState::write_read(address, bytes@, count as nat),
            bytes@.len() == 0 || count == 0 ==> action@ == I2cStep::Done(
                Err(X232Error::HAL(ErrorKind::InvalidParams)),
            ),
            bytes@.len() > 0 && count > 0 ==> action@ is Exchange,
    {
        if bytes.len() == 0 || count == 0 {
            *self = I2cBus::new();
            return I2cAction::Done(Err(X232Error::HAL(ErrorKind::InvalidParams)));
        }
        self.begin(address, slice_to_vec(bytes), count)
    }

    /// Sends the stop condition.
    fn stop(&mut self, failed: bool) -> (action: I2cAction)
        ensures
            (final(self)@, action@) == old(self)@.stop(failed),
    {
        self.phase = I2cPhase::Stop(failed);
        let cmd = Self::i2c_stop(MpsseCmdBuilder::new(), self.pins);
        proof {
            assert(builder_bytes(cmd) =~= stop_condition(self.pins));
        }
        I2cAction::Exchange(Exchange { command: slice_to_vec(cmd.as_slice()), reply_len: 0 })
    }

    /// Sends a start condition and the address.
    fn address_step(&mut self, read: bool) -> (action: I2cAction)
        ensures
            (final(self)@, action@) == old(self)@.address_step(read),
    {
        let cmd = Self::i2c_start(MpsseCmdBuilder::new(), self.pins);
        let cmd = if read {
            self.phase = I2cPhase::AddressRead;
            Self::i2c_write_byte_ack(cmd, Self::i2c_read_from(self.address), self.pins)
        } else {
            self.phase = I2cPhase::AddressWrite;
            Self::i2c_write_byte_ack(cmd, Self::i2c_write_to(self.address), self.pins)
        };
        proof {
            assert(builder_bytes(cmd) =~= old(self)@.address_step(read).1->command);
        }
        I2cAction::Exchange(Exchange { command: slice_to_vec(cmd.as_slice()), reply_len: 1 })
    }

    /// Goes on with the next byte to write, or with what follows the last
    /// one.
    fn next_write(&mut self) -> (action: I2cAction)
        ensures
            (final(self)@, action@) == old(self)@.next_write(),
    {
        if self.sent < self.tx.len() {
            let byte: u8 = self.tx[self.sent];
            self.phase = I2cPhase::Data;
            self.sent = self.sent + 1;
            let cmd = Self::i2c_write_byte_ack(MpsseCmdBuilder::new(), byte, self.pins);
            proof {
                assert(builder_bytes(cmd) =~= write_byte_command(byte, self.pins));
            }
            I2cAction::Exchange(Exchange { command: slice_to_vec(cmd.as_slice()), reply_len: 1 })
        } else if self.rx_len > 0 {
            self.address_step(true)
        } else {
            self.stop(false)
        }
    }

    /// Goes on with the next byte to read, or with the stop condition after
    /// the last one.
    fn next_read(&mut self) -> (action: I2cAction)
        ensures
            (final(self)@, action@) == old(self)@.next_read(),
    {
        if self.rx.len() < self.rx_len {
            let nack: bool = self.rx.len() + 1 == self.rx_len;
            self.phase = I2cPhase::Receive;
            let cmd = Self::i2c_read_byte(MpsseCmdBuilder::new(), nack, self.pins);
            proof {
                assert(builder_bytes(cmd) =~= read_byte_command(nack, self.pins));
            }
            I2cAction::Exchange(Exchange { command: slice_to_vec(cmd.as_slice()), reply_len: 1 })
        } else {
            self.stop(false)
        }
    }

    /// Takes the reply to the exchange last asked for and returns the next
    /// step of the transaction.
    pub fn step(&mut self, reply: &[u8]) -> (action: I2cAction)
        ensures
            (final(self)@, action@) == old(self)@.step(reply@),
    {
        let awaited: usize = match self.phase {
            I2cPhase::Idle => 0,
            I2cPhase::Pins => 1,
            I2cPhase::AddressWrite => 1,
            I2cPhase::Data => 1,
            I2cPhase::AddressRead => 1,
            I2cPhase::Receive => 1,
            I2cPhase::Stop(_) => 0,
        };
        if self.phase == I2cPhase::Idle || reply.len() != awaited {
            self.phase = I2cPhase::Idle;
            return I2cAction::Done(Err(X232Error::HAL(ErrorKind::InvalidParams)));
        }
        match self.phase {
            I2cPhase::Idle => I2cAction::Done(Ok(())),
            I2cPhase::Pins => {
                self.pins = reply[0];
                let read: bool = self.tx.len() == 0;
                self.address_step(read)
            },
            I2cPhase::AddressWrite => {
                if reply[0] & 0x1 == 0x1 {
                    self.stop(true)
                } else {
                    self.next_write()
                }
            },
            I2cPhase::Data => {
                if reply[0] & 0x1 == 0x1 {
                    self.stop(true)
                } else {
                    self.next_write()
                }
            },
            I2cPhase::AddressRead => {
                if reply[0] & 0x1 == 0x1 {
                    self.stop(true)
                } else {
                    self.next_read()
                }
            },
            I2cPhase::Receive => {
                self.rx.push(reply[0]);
                self.next_read()
            },
            I2cPhase::Stop(failed) => {
                self.phase = I2cPhase::Idle;
                if failed {
                    I2cAction::Done(Err(X232Error::HAL(ErrorKind::I2cNoAck)))
                } else {
                    I2cAction::Done(Ok(()))
                }
            },
        }
    }

    /// The bytes read by the transaction so far; all of them once a read has
    /// ended successfully.
    pub fn received(&self) -> (data: &Vec<u8>)
        ensures
            data@ == self@.rx,
    {
        &self.rx
    }

    /// Whether no transaction is under way.
    pub fn is_idle(&self) -> (idle: bool)
        ensures
            idle == (self@.phase == I2cPhase::Idle),
    {
        self.phase == I2cPhase::Idle
    }
}

} // verus!
