//! Whole I2C transactions: what the engine asks for, step by step, when the
//! replies of a device are fed to it one after the other.

use crate::error::{ErrorKind, X232Error};
use crate::gpio::{read_bank_command, PinBank};
use crate::i2c::{
    read_address, read_byte_command, refused, start_condition, stop_condition, write_address,
    write_byte_command, I2cPhase, I2cState, I2cStep,
};
use vstd::prelude::*;

verus! {

/// The steps that the engine answers `replies` with, one for each reply in
/// turn, and the state it is left in.
pub open spec fn run(state: I2cState, replies: Seq<Seq<u8>>) -> (Seq<I2cStep>, I2cState)
    decreases replies.len(),
{
    if replies.len() == 0 {
        (Seq::empty(), state)
    } else {
        let before = run(state, replies.drop_last());
        let next = before.1.step(replies.last());
        (before.0.push(next.1), next.0)
    }
}

/// The step that asks for one exchange.
pub open spec fn exchange(command: Seq<u8>, reply_len: nat) -> I2cStep {
    I2cStep::Exchange { command, reply_len }
}

/// The replies of a device that lets a write of as many bytes as there are
/// `acks`, less one, run to its end: the levels of the low bank, the
/// acknowledge slot after the address and after each byte, and nothing after
/// the stop condition.
pub open spec fn write_replies(pins: u8, acks: Seq<u8>) -> Seq<Seq<u8>> {
    seq![seq![pins]] + Seq::new(acks.len(), |j: int| seq![acks[j]]) + seq![Seq::<u8>::empty()]
}

/// The steps of a write that is acknowledged throughout, after the first:
/// start condition with the address, each byte in turn, the stop condition,
/// success.
pub open spec fn write_steps(address: u8, bytes: Seq<u8>, pins: u8) -> Seq<I2cStep> {
    seq![exchange(start_condition(pins) + write_byte_command(write_address(address), pins), 1)]
        + Seq::new(bytes.len(), |j: int| exchange(write_byte_command(bytes[j], pins), 1))
        + seq![exchange(stop_condition(pins), 0), I2cStep::Done(Ok(()))]
}

/// The replies of a device that lets a read run to its end: the levels of
/// the low bank, the acknowledge slot after the address, each byte read,
/// and nothing after the stop condition.
pub open spec fn read_replies(pins: u8, ack: u8, data: Seq<u8>) -> Seq<Seq<u8>> {
    seq![seq![pins], seq![ack]] + Seq::new(data.len(), |j: int| seq![data[j]]) + seq![
        Seq::<u8>::empty(),
    ]
}

/// The steps of a read of `count` bytes whose address is acknowledged, after
/// the first: start condition with the address, one command for each byte,
/// of which only the last refuses to acknowledge, the stop condition,
/// success.
pub open spec fn read_steps(address: u8, count: nat, pins: u8) -> Seq<I2cStep> {
    seq![exchange(start_condition(pins) + write_byte_command(read_address(address), pins), 1)]
        + Seq::new(count, |j: int| exchange(read_byte_command(j + 1 == count, pins), 1)) + seq![
        exchange(stop_condition(pins), 0),
        I2cStep::Done(Ok(())),
    ]
}

/// The replies of a device that lets a write followed by a read run to its
/// end.
pub open spec fn write_read_replies(
    pins: u8,
    acks: Seq<u8>,
    ack: u8,
    data: Seq<u8>,
) -> Seq<Seq<u8>> {
    seq![seq![pins]] + Seq::new(acks.len(), |j: int| seq![acks[j]]) + seq![seq![ack]] + Seq::new(
        data.len(),
        |j: int| seq![data[j]],
    ) + seq![Seq::<u8>::empty()]
}

/// The steps of a write followed by a read that is acknowledged throughout,
/// after the first: the write without its stop condition, a second start
/// condition with the address for reading, the read.
pub open spec fn write_read_steps(address: u8, bytes: Seq<u8>, count: nat, pins: u8) -> Seq<
    I2cStep,
> {
    seq![exchange(start_condition(pins) + write_byte_command(write_address(address), pins), 1)]
        + Seq::new(bytes.len(), |j: int| exchange(write_byte_command(bytes[j], pins), 1))
        + read_steps(address, count, pins)
}

/// Feeding replies in two parts is feeding them in one.
pub proof fn lemma_run_concat(state: I2cState, first: Seq<Seq<u8>>, second: Seq<Seq<u8>>)
    ensures
        run(state, first + second) == (
            run(state, first).0 + run(run(state, first).1, second).0,
            run(run(state, first).1, second).1,
        ),
    decreases second.len(),
{
    if second.len() == 0 {
        assert(first + second =~= first);
        assert(run(state, first).0 + Seq::<I2cStep>::empty() =~= run(state, first).0);
    } else {
        lemma_run_concat(state, first, second.drop_last());
        assert((first + second).drop_last() =~= first + second.drop_last());
        assert((first + second).last() == second.last());
        let middle = run(state, first).1;
        let before = run(middle, second.drop_last());
        let next = before.1.step(second.last());
        assert(run(state, first).0 + before.0.push(next.1) =~= (run(state, first).0
            + before.0).push(next.1));
    }
}

/// One reply, one step.
pub proof fn lemma_run_one(state: I2cState, reply: Seq<u8>)
    ensures
        run(state, seq![reply]) == (seq![state.step(reply).1], state.step(reply).0),
{
    let replies = seq![reply];
    assert(replies.drop_last() =~= Seq::<Seq<u8>>::empty());
    assert(run(state, replies.drop_last()) == (Seq::<I2cStep>::empty(), state));
    assert(Seq::<I2cStep>::empty().push(state.step(reply).1) =~= seq![state.step(reply).1]);
}

/// While address and bytes are acknowledged, the bytes to write go out one
/// after the other.
proof fn lemma_acknowledged_bytes(state: I2cState, acks: Seq<u8>, m: nat)
    requires
        state.phase == I2cPhase::AddressWrite,
        state.sent == 0,
        m <= state.tx.len(),
        m <= acks.len(),
        forall|j: int| 0 <= j < m ==> !refused(#[trigger] acks[j]),
    ensures
        run(state, Seq::new(m, |j: int| seq![acks[j]])) == (
            Seq::new(m, |j: int| exchange(write_byte_command(state.tx[j], state.pins), 1)),
            if m == 0 {
                state
            } else {
                I2cState { phase: I2cPhase::Data, sent: m, ..state }
            },
        ),
    decreases m,
{
    let replies = Seq::new(m, |j: int| seq![acks[j]]);
    let steps = Seq::new(m, |j: int| exchange(write_byte_command(state.tx[j], state.pins), 1));
    if m == 0 {
        assert(run(state, replies).0 =~= steps);
    } else {
        let fewer = (m - 1) as nat;
        lemma_acknowledged_bytes(state, acks, fewer);
        assert(replies.drop_last() =~= Seq::new(fewer, |j: int| seq![acks[j]]));
        assert(replies.last() == seq![acks[m - 1]]);
        assert(!refused(acks[m - 1]));
        let before = run(state, replies.drop_last());
        let next = before.1.step(replies.last());
        assert(before.0.push(next.1) =~= steps);
    }
}

/// While more bytes are to come, one command to read follows the other, and
/// each byte that comes back is kept.
proof fn lemma_bytes_received(state: I2cState, data: Seq<u8>, m: nat)
    requires
        state.phase == I2cPhase::Receive,
        state.rx.len() == 0,
        m < state.rx_len,
        m <= data.len(),
    ensures
        run(state, Seq::new(m, |j: int| seq![data[j]])) == (
            Seq::new(
                m,
                |j: int| exchange(read_byte_command(j + 2 == state.rx_len, state.pins), 1),
            ),
            I2cState { rx: data.take(m as int), ..state },
        ),
    decreases m,
{
    let replies = Seq::new(m, |j: int| seq![data[j]]);
    let steps = Seq::new(
        m,
        |j: int| exchange(read_byte_command(j + 2 == state.rx_len, state.pins), 1),
    );
    if m == 0 {
        assert(run(state, replies).0 =~= steps);
        assert(data.take(0) =~= state.rx);
    } else {
        let fewer = (m - 1) as nat;
        lemma_bytes_received(state, data, fewer);
        assert(replies.drop_last() =~= Seq::new(fewer, |j: int| seq![data[j]]));
        assert(replies.last() == seq![data[m - 1]]);
        let before = run(state, replies.drop_last());
        let next = before.1.step(replies.last());
        assert(data.take(fewer as int).push(data[m - 1]) =~= data.take(m as int));
        assert(before.0.push(next.1) =~= steps);
    }
}

/// The read part of a transaction, from the address on: with the address
/// acknowledged, the bytes are read one after the other, the stop condition
/// follows the last, and the transaction ends in success with all of them
/// received.
proof fn lemma_read_part(state: I2cState, ack: u8, data: Seq<u8>)
    requires
        state.phase == I2cPhase::AddressRead,
        state.rx.len() == 0,
        state.rx_len > 0,
        data.len() == state.rx_len,
        !refused(ack),
    ensures
        run(
            state,
            seq![seq![ack]] + Seq::new(data.len(), |j: int| seq![data[j]]) + seq![
                Seq::<u8>::empty(),
            ],
        ) == (
            Seq::new(
                state.rx_len,
                |j: int| exchange(read_byte_command(j + 1 == state.rx_len, state.pins), 1),
            ) + seq![exchange(stop_condition(state.pins), 0), I2cStep::Done(Ok(()))],
            I2cState { phase: I2cPhase::Idle, rx: data, ..state },
        ),
{
    let count = state.rx_len;
    let fewer = (count - 1) as nat;
    let all = Seq::new(data.len(), |j: int| seq![data[j]]);
    let most = Seq::new(fewer, |j: int| seq![data[j]]);
    let last = seq![data[count - 1]];
    let end = Seq::<u8>::empty();
    // the address is acknowledged: the first byte is asked for
    lemma_run_one(state, seq![ack]);
    let listening = state.step(seq![ack]).0;
    // all bytes but the last
    lemma_bytes_received(listening, data, fewer);
    let nearly = I2cState { rx: data.take(fewer as int), ..listening };
    // the last byte, then the stop condition
    lemma_run_one(nearly, last);
    let stopping = nearly.step(last).0;
    assert(data.take(fewer as int).push(data[count - 1]) =~= data);
    lemma_run_one(stopping, end);
    lemma_run_concat(nearly, seq![last], seq![end]);
    lemma_run_concat(listening, most, seq![last] + seq![end]);
    lemma_run_concat(state, seq![seq![ack]], most + (seq![last] + seq![end]));
    assert(seq![seq![ack]] + all + seq![end] =~= seq![seq![ack]] + (most + (seq![last] + seq![
        end,
    ])));
    let steps = run(state, seq![seq![ack]] + all + seq![end]).0;
    assert(steps =~= Seq::new(
        state.rx_len,
        |j: int| exchange(read_byte_command(j + 1 == state.rx_len, state.pins), 1),
    ) + seq![exchange(stop_condition(state.pins), 0), I2cStep::Done(Ok(()))]);
}

/// A write that the device acknowledges throughout goes over the wire as
/// the start condition with the address, the bytes in their order, and the
/// stop condition, and ends in success with the handle at rest.
pub proof fn lemma_write_acknowledged(address: u8, bytes: Seq<u8>, pins: u8, acks: Seq<u8>)
    requires
        bytes.len() > 0,
        acks.len() == bytes.len() + 1,
        forall|j: int| 0 <= j < acks.len() ==> !refused(#[trigger] acks[j]),
    ensures
        I2cState::write(address, bytes).1 == exchange(read_bank_command(PinBank::Low), 1),
        run(I2cState::write(address, bytes).0, write_replies(pins, acks)) == (
            write_steps(address, bytes, pins),
            I2cState {
                address,
                tx: bytes,
                sent: bytes.len(),
                rx_len: 0,
                rx: Seq::empty(),
                pins,
                phase: I2cPhase::Idle,
            },
        ),
{
    let count = bytes.len();
    let opened = I2cState::write(address, bytes).0;
    let most = Seq::new(count, |j: int| seq![acks[j]]);
    let last = seq![acks[count as int]];
    let end = Seq::<u8>::empty();
    lemma_run_one(opened, seq![pins]);
    let addressed = opened.step(seq![pins]).0;
    lemma_acknowledged_bytes(addressed, acks, count);
    let written = I2cState { phase: I2cPhase::Data, sent: count, ..addressed };
    lemma_run_one(written, last);
    let stopping = written.step(last).0;
    lemma_run_one(stopping, end);
    lemma_run_concat(written, seq![last], seq![end]);
    lemma_run_concat(addressed, most, seq![last] + seq![end]);
    lemma_run_concat(opened, seq![seq![pins]], most + (seq![last] + seq![end]));
    assert(write_replies(pins, acks) =~= seq![seq![pins]] + (most + (seq![last] + seq![end])));
    let steps = run(opened, write_replies(pins, acks)).0;
    assert(steps =~= write_steps(address, bytes, pins));
}

/// A read whose address the device acknowledges goes over the wire as the
/// start condition with the address, one command for each byte, of which
/// only the last refuses to acknowledge, and the stop condition. It ends in
/// success with the bytes that the device sent, in their order.
pub proof fn lemma_read_acknowledged(address: u8, pins: u8, ack: u8, data: Seq<u8>)
    requires
        data.len() > 0,
        !refused(ack),
    ensures
        I2cState::read(address, data.len()).1 == exchange(read_bank_command(PinBank::Low), 1),
        run(I2cState::read(address, data.len()).0, read_replies(pins, ack, data)) == (
            read_steps(address, data.len(), pins),
            I2cState {
                address,
                tx: Seq::empty(),
                sent: 0,
                rx_len: data.len(),
                rx: data,
                pins,
                phase: I2cPhase::Idle,
            },
        ),
{
    let opened = I2cState::read(address, data.len()).0;
    let all = Seq::new(data.len(), |j: int| seq![data[j]]);
    let end = Seq::<u8>::empty();
    lemma_run_one(opened, seq![pins]);
    let addressed = opened.step(seq![pins]).0;
    lemma_read_part(addressed, ack, data);
    lemma_run_concat(opened, seq![seq![pins]], seq![seq![ack]] + all + seq![end]);
    assert(read_replies(pins, ack, data) =~= seq![seq![pins]] + (seq![seq![ack]] + all
        + seq![end]));
    let steps = run(opened, read_replies(pins, ack, data)).0;
    assert(steps =~= read_steps(address, data.len(), pins));
}

/// A write followed by a read that the device acknowledges throughout goes
/// over the wire as the write without its stop condition, a second start
/// condition with the address for reading, and the read. It ends in success
/// with the bytes that the device sent.
pub proof fn lemma_write_read_acknowledged(
    address: u8,
    bytes: Seq<u8>,
    pins: u8,
    acks: Seq<u8>,
    ack: u8,
    data: Seq<u8>,
)
    requires
        bytes.len() > 0,
        data.len() > 0,
        acks.len() == bytes.len() + 1,
        forall|j: int| 0 <= j < acks.len() ==> !refused(#[trigger] acks[j]),
        !refused(ack),
    ensures
        I2cState::write_read(address, bytes, data.len()).1 == exchange(
            read_bank_command(PinBank::Low),
            1,
        ),
        run(
            I2cState::write_read(address, bytes, data.len()).0,
            write_read_replies(pins, acks, ack, data),
        ) == (
            write_read_steps(address, bytes, data.len(), pins),
            I2cState {
                address,
                tx: bytes,
                sent: bytes.len(),
                rx_len: data.len(),
                rx: data,
                pins,
                phase: I2cPhase::Idle,
            },
        ),
{
    let count = bytes.len();
    let opened = I2cState::write_read(address, bytes, data.len()).0;
    let most = Seq::new(count, |j: int| seq![acks[j]]);
    let last = seq![acks[count as int]];
    let all = Seq::new(data.len(), |j: int| seq![data[j]]);
    let end = Seq::<u8>::empty();
    let reading = seq![seq![ack]] + all + seq![end];
    lemma_run_one(opened, seq![pins]);
    let addressed = opened.step(seq![pins]).0;
    lemma_acknowledged_bytes(addressed, acks, count);
    let written = I2cState { phase: I2cPhase::Data, sent: count, ..addressed };
    lemma_run_one(written, last);
    let turned = written.step(last).0;
    lemma_read_part(turned, ack, data);
    lemma_run_concat(written, seq![last], reading);
    lemma_run_concat(addressed, most, seq![last] + reading);
    lemma_run_concat(opened, seq![seq![pins]], most + (seq![last] + reading));
    assert(write_read_replies(pins, acks, ack, data) =~= seq![seq![pins]] + (most + (seq![
        last,
    ] + reading)));
    let steps = run(opened, write_read_replies(pins, acks, ack, data)).0;
    assert(steps =~= write_read_steps(address, bytes, data.len(), pins));
}

/// A refusal ends the transaction: when the device leaves the acknowledge
/// slot high after the address or after a byte, the stop condition is sent
/// and the transaction ends with `I2cNoAck`, whatever was still to come.
pub proof fn lemma_refusal_stops(state: I2cState, reply: u8)
    requires
        state.phase == I2cPhase::AddressWrite || state.phase == I2cPhase::Data || state.phase
            == I2cPhase::AddressRead,
        refused(reply),
    ensures
        run(state, seq![seq![reply], Seq::<u8>::empty()]) == (
            seq![
                exchange(stop_condition(state.pins), 0),
                I2cStep::Done(Err(X232Error::HAL(ErrorKind::I2cNoAck))),
            ],
            I2cState { phase: I2cPhase::Idle, ..state },
        ),
{
    let end = Seq::<u8>::empty();
    lemma_run_one(state, seq![reply]);
    let stopping = state.step(seq![reply]).0;
    lemma_run_one(stopping, end);
    lemma_run_concat(state, seq![seq![reply]], seq![end]);
    assert(seq![seq![reply], end] =~= seq![seq![reply]] + seq![end]);
    let steps = run(state, seq![seq![reply], end]).0;
    assert(steps =~= seq![
        exchange(stop_condition(state.pins), 0),
        I2cStep::Done(Err(X232Error::HAL(ErrorKind::I2cNoAck))),
    ]);
}

/// The engine waits for what it asked for: whenever a step asks for an
/// exchange, the state it leaves takes a reply of just the length asked for,
/// and is not at rest.
pub proof fn lemma_reply_is_awaited(state: I2cState, reply: Seq<u8>)
    ensures
        state.step(reply).1 matches I2cStep::Exchange { reply_len, .. } ==> {
            &&& state.step(reply).0.awaited() == reply_len
            &&& state.step(reply).0.phase != I2cPhase::Idle
        },
        state.step(reply).1 is Done ==> state.step(reply).0.phase == I2cPhase::Idle,
{
}

/// No transaction leaves the bus occupied: a transaction ends in success or
/// with `I2cNoAck` only on the reply to its stop condition. The one other
/// way to end is `InvalidParams`, on a reply that does not fit.
pub proof fn lemma_end_follows_stop(state: I2cState, reply: Seq<u8>)
    requires
        state.step(reply).1 is Done,
    ensures
        state.step(reply).1 != I2cStep::Done(Err(X232Error::HAL(ErrorKind::InvalidParams))) ==> {
            &&& state.phase is Stop
            &&& reply.len() == 0
        },
        state.phase is Stop && reply.len() == 0 ==> state.step(reply).1 == I2cStep::Done(
            if state.phase->Stop_0 {
                Err(X232Error::HAL(ErrorKind::I2cNoAck))
            } else {
                Ok(())
            },
        ),
{
}

} // verus!
