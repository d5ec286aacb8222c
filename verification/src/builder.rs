//! What this crate relies on from the command builder of `ftdi_mpsse`.
//!
//! The builder is a byte buffer onto which each method pushes one command.
//! Nothing in this file is proved: every contract restates what the method
//! appends, byte for byte, so that the rest of the crate can be verified
//! against it.

use crate::mpsse::ClockEdge;
use ftdi_mpsse::{
    ClockBitsIn, ClockBitsOut, ClockData, ClockDataIn, ClockDataOut, MpsseCmdBuilder,
};
use vstd::prelude::*;

verus! {

/// `ftdi_mpsse::MpsseCmdBuilder`, carried through verified code as an opaque
/// value.
#[verifier::external_type_specification]
#[verifier::external_body]
pub struct ExMpsseCmdBuilder(MpsseCmdBuilder);

/// The bytes a builder holds, in the order in which they were pushed.
pub uninterp spec fn builder_bytes(b: MpsseCmdBuilder) -> Seq<u8>;

/// `MpsseCmdBuilder::new` starts with no bytes.
pub assume_specification[ MpsseCmdBuilder::new ]() -> (b: MpsseCmdBuilder)
    ensures
        builder_bytes(b) == Seq::<u8>::empty(),
;

/// `MpsseCmdBuilder::with_vec` starts with the bytes of `vec`.
pub assume_specification[ MpsseCmdBuilder::with_vec ](vec: Vec<u8>) -> (b: MpsseCmdBuilder)
    ensures
        builder_bytes(b) == vec@,
;

/// `MpsseCmdBuilder::as_slice` shows the bytes pushed so far.
pub assume_specification<'a>[ MpsseCmdBuilder::as_slice ](b: &'a MpsseCmdBuilder) -> (s: &'a [u8])
    ensures
        s@ == builder_bytes(*b),
;

/// `MpsseCmdBuilder::set_clock` pushes opcode `0x8b` where `clkdiv` asks for
/// the oscillator divided by five, `0x8a` where it asks for the full
/// oscillator and nothing where it asks for neither; then opcode `0x86` and
/// the two low bytes of `divisor`, lowest first.
pub assume_specification[ MpsseCmdBuilder::set_clock ](
    b: MpsseCmdBuilder,
    divisor: u32,
    clkdiv: Option<bool>,
) -> (r: MpsseCmdBuilder)
    ensures
        builder_bytes(r) == builder_bytes(b) + (match clkdiv {
            Some(true) => seq![0x8bu8],
            Some(false) => seq![0x8au8],
            None => Seq::<u8>::empty(),
        }) + seq![0x86u8, (divisor % 256) as u8, ((divisor / 256) % 256) as u8],
;

/// `MpsseCmdBuilder::enable_loopback` pushes opcode `0x84`.
pub assume_specification[ MpsseCmdBuilder::enable_loopback ](b: MpsseCmdBuilder) -> (r:
    MpsseCmdBuilder)
    ensures
        builder_bytes(r) == builder_bytes(b) + seq![0x84u8],
;

/// `MpsseCmdBuilder::disable_loopback` pushes opcode `0x85`.
pub assume_specification[ MpsseCmdBuilder::disable_loopback ](b: MpsseCmdBuilder) -> (r:
    MpsseCmdBuilder)
    ensures
        builder_bytes(r) == builder_bytes(b) + seq![0x85u8],
;

/// `MpsseCmdBuilder::disable_3phase_data_clocking` pushes opcode `0x8d`.
pub assume_specification[ MpsseCmdBuilder::disable_3phase_data_clocking ](
    b: MpsseCmdBuilder,
) -> (r: MpsseCmdBuilder)
    ensures
        builder_bytes(r) == builder_bytes(b) + seq![0x8du8],
;

/// `MpsseCmdBuilder::disable_adaptive_data_clocking` pushes opcode `0x97`.
pub assume_specification[ MpsseCmdBuilder::disable_adaptive_data_clocking ](
    b: MpsseCmdBuilder,
) -> (r: MpsseCmdBuilder)
    ensures
        builder_bytes(r) == builder_bytes(b) + seq![0x97u8],
;

/// `MpsseCmdBuilder::set_gpio_lower` pushes opcode `0x80`, the pin levels and
/// the direction mask.
pub assume_specification[ MpsseCmdBuilder::set_gpio_lower ](
    b: MpsseCmdBuilder,
    state: u8,
    direction: u8,
) -> (r: MpsseCmdBuilder)
    ensures
        builder_bytes(r) == builder_bytes(b) + seq![0x80u8, state, direction],
;

/// `MpsseCmdBuilder::set_gpio_upper` pushes opcode `0x82`, the pin levels and
/// the direction mask.
pub assume_specification[ MpsseCmdBuilder::set_gpio_upper ](
    b: MpsseCmdBuilder,
    state: u8,
    direction: u8,
) -> (r: MpsseCmdBuilder)
    ensures
        builder_bytes(r) == builder_bytes(b) + seq![0x82u8, state, direction],
;

/// `MpsseCmdBuilder::gpio_lower` pushes opcode `0x81`.
pub assume_specification[ MpsseCmdBuilder::gpio_lower ](b: MpsseCmdBuilder) -> (r:
    MpsseCmdBuilder)
    ensures
        builder_bytes(r) == builder_bytes(b) + seq![0x81u8],
;

/// `MpsseCmdBuilder::gpio_upper` pushes opcode `0x83`.
pub assume_specification[ MpsseCmdBuilder::gpio_upper ](b: MpsseCmdBuilder) -> (r:
    MpsseCmdBuilder)
    ensures
        builder_bytes(r) == builder_bytes(b) + seq![0x83u8],
;

/// `MpsseCmdBuilder::send_immediate` pushes opcode `0x87`.
pub assume_specification[ MpsseCmdBuilder::send_immediate ](b: MpsseCmdBuilder) -> (r:
    MpsseCmdBuilder)
    ensures
        builder_bytes(r) == builder_bytes(b) + seq![0x87u8],
;

/// The header of a byte-clocking command as the builder lays it out: the
/// opcode, then the byte count less one in two bytes, low byte first.
pub open spec fn clocking_header(opcode: u8, count: nat) -> Seq<u8> {
    seq![opcode, ((count - 1) % 256) as u8, ((count - 1) / 256) as u8]
}

/// `MpsseCmdBuilder::clock_data_out` with `ClockDataOut::MsbPos` (opcode
/// `0x10`) for the rising edge and `ClockDataOut::MsbNeg` (`0x11`) for the
/// falling one. The method panics on more than 65536 bytes, pushes nothing
/// for no bytes, and otherwise pushes the header followed by the data.
#[verifier::external_body]
pub(crate) fn clock_data_out(b: MpsseCmdBuilder, edge: ClockEdge, data: &[u8]) -> (r:
    MpsseCmdBuilder)
    requires
        data@.len() <= 65536,
    ensures
        data@.len() == 0 ==> builder_bytes(r) == builder_bytes(b),
        data@.len() > 0 ==> builder_bytes(r) == builder_bytes(b) + clocking_header(
            if edge == ClockEdge::Rising {
                0x10u8
            } else {
                0x11u8
            },
            data@.len(),
        ) + data@,
{
    match edge {
        ClockEdge::Rising => b.clock_data_out(ClockDataOut::MsbPos, data),
        ClockEdge::Falling => b.clock_data_out(ClockDataOut::MsbNeg, data),
    }
}

/// `MpsseCmdBuilder::clock_data_in` with `ClockDataIn::MsbPos` (opcode
/// `0x20`) for the rising edge and `ClockDataIn::MsbNeg` (`0x24`) for the
/// falling one. The method panics on a count above 65536, pushes nothing for
/// a count of zero, and otherwise pushes the header alone.
#[verifier::external_body]
pub(crate) fn clock_data_in(b: MpsseCmdBuilder, edge: ClockEdge, count: usize) -> (r:
    MpsseCmdBuilder)
    requires
        count <= 65536,
    ensures
        count == 0 ==> builder_bytes(r) == builder_bytes(b),
        count > 0 ==> builder_bytes(r) == builder_bytes(b) + clocking_header(
            if edge == ClockEdge::Rising {
                0x20u8
            } else {
                0x24u8
            },
            count as nat,
        ),
{
    match edge {
        ClockEdge::Rising => b.clock_data_in(ClockDataIn::MsbPos, count),
        ClockEdge::Falling => b.clock_data_in(ClockDataIn::MsbNeg, count),
    }
}

/// `MpsseCmdBuilder::clock_data` with `ClockData::MsbPosIn` (opcode `0x31`)
/// where input is sampled on the rising edge and `ClockData::MsbNegIn`
/// (`0x34`) where it is sampled on the falling one. The method panics on
/// more than 65536 bytes, pushes nothing for no bytes, and otherwise pushes
/// the header followed by the data.
#[verifier::external_body]
pub(crate) fn clock_data(b: MpsseCmdBuilder, edge: ClockEdge, data: &[u8]) -> (r: MpsseCmdBuilder)
    requires
        data@.len() <= 65536,
    ensures
        data@.len() == 0 ==> builder_bytes(r) == builder_bytes(b),
        data@.len() > 0 ==> builder_bytes(r) == builder_bytes(b) + clocking_header(
            if edge == ClockEdge::Rising {
                0x31u8
            } else {
                0x34u8
            },
            data@.len(),
        ) + data@,
{
    match edge {
        ClockEdge::Rising => b.clock_data(ClockData::MsbPosIn, data),
        ClockEdge::Falling => b.clock_data(ClockData::MsbNegIn, data),
    }
}

/// `MpsseCmdBuilder::clock_bits_out` with `ClockBitsOut::MsbPos` (opcode
/// `0x12`) for the rising edge and `ClockBitsOut::MsbNeg` (`0x13`) for the
/// falling one. The method panics on more than 8 bits, pushes nothing for no
/// bits, and otherwise pushes the opcode, the bit count less one and the
/// byte that holds the bits.
#[verifier::external_body]
pub(crate) fn clock_bits_out(b: MpsseCmdBuilder, edge: ClockEdge, data: u8, count: u8) -> (r:
    MpsseCmdBuilder)
    requires
        count <= 8,
    ensures
        count == 0 ==> builder_bytes(r) == builder_bytes(b),
        count > 0 ==> builder_bytes(r) == builder_bytes(b) + seq![
            if edge == ClockEdge::Rising {
                0x12u8
            } else {
                0x13u8
            },
            (count - 1) as u8,
            data,
        ],
{
    match edge {
        ClockEdge::Rising => b.clock_bits_out(ClockBitsOut::MsbPos, data, count),
        ClockEdge::Falling => b.clock_bits_out(ClockBitsOut::MsbNeg, data, count),
    }
}

/// `MpsseCmdBuilder::clock_bits_in` with `ClockBitsIn::MsbPos` (opcode
/// `0x22`) for the rising edge and `ClockBitsIn::MsbNeg` (`0x26`) for the
/// falling one. The method panics on more than 8 bits, pushes nothing for no
/// bits, and otherwise pushes the opcode and the bit count less one.
#[verifier::external_body]
pub(crate) fn clock_bits_in(b: MpsseCmdBuilder, edge: ClockEdge, count: u8) -> (r: MpsseCmdBuilder)
    requires
        count <= 8,
    ensures
        count == 0 ==> builder_bytes(r) == builder_bytes(b),
        count > 0 ==> builder_bytes(r) == builder_bytes(b) + seq![
            if edge == ClockEdge::Rising {
                0x22u8
            } else {
                0x26u8
            },
            (count - 1) as u8,
        ],
{
    match edge {
        ClockEdge::Rising => b.clock_bits_in(ClockBitsIn::MsbPos, count),
        ClockEdge::Falling => b.clock_bits_in(ClockBitsIn::MsbNeg, count),
    }
}

} // verus!
