//! GPIO pins of the two eight-bit banks, and the pool they are handed out
//! from.

use crate::builder::builder_bytes;
use crate::error::{ErrorKind, X232Error};
use crate::mpsse::{flush_now, get_bank, set_bank, Exchange};
use ftdi_mpsse::MpsseCmdBuilder;
use vstd::prelude::*;
use vstd::slice::slice_to_vec;
use vstd::string::StringExecFns;

verus! {

/// One of the two independently addressed groups of eight pins.
#[derive(Clone, Copy, Debug, PartialEq, Eq, Structural)]
pub enum PinBank {
    Low,
    High,
}

impl PinBank {
    /// The letter that stands for the bank in a pin's name.
    pub open spec fn letter_text(self) -> Seq<char> {
        match self {
            PinBank::Low => "L"@,
            PinBank::High => "H"@,
        }
    }

    /// Returns the letter that stands for the bank in a pin's name.
    pub fn letter(&self) -> (s: &'static str)
        ensures
            s@ == self.letter_text(),
    {
        match self {
            PinBank::Low => "L",
            PinBank::High => "H",
        }
    }

    /// The direction mask written along with every change of a pin: all
    /// outputs, but for the data-in line of the low bank.
    pub open spec fn direction_mask(self) -> u8 {
        match self {
            PinBank::Low => 0b1111_1011,
            PinBank::High => 0b1111_1111,
        }
    }
}

/// Number of pins a session hands out: four in the low bank, eight in the
/// high one.
pub const PIN_COUNT: usize = 12;

/// Whether a general-purpose pin sits at `bit` of `bank`. The low bank keeps
/// its bits 0 to 3 for the bus signals.
pub open spec fn valid_pin(bank: PinBank, bit: u8) -> bool {
    match bank {
        PinBank::Low => 4 <= bit <= 7,
        PinBank::High => bit <= 7,
    }
}

/// The number a pin carries in its name: counted from the first
/// general-purpose bit of its bank.
pub open spec fn pin_number(bank: PinBank, bit: u8) -> int {
    match bank {
        PinBank::Low => bit - 4,
        PinBank::High => bit as int,
    }
}

/// The place of a pin in the pool: the low bank's four pins come first.
pub open spec fn pin_slot(bank: PinBank, bit: u8) -> int {
    match bank {
        PinBank::Low => bit - 4,
        PinBank::High => bit + 4,
    }
}

/// The single decimal digit for `n`.
pub open spec fn digit_text(n: int) -> Seq<char>
    recommends
        0 <= n <= 7,
{
    if n == 0 {
        "0"@
    } else if n == 1 {
        "1"@
    } else if n == 2 {
        "2"@
    } else if n == 3 {
        "3"@
    } else if n == 4 {
        "4"@
    } else if n == 5 {
        "5"@
    } else if n == 6 {
        "6"@
    } else {
        "7"@
    }
}

/// The name of the pin at `bit` of `bank`: `PL0` to `PL3`, `PH0` to `PH7`.
pub open spec fn pin_name(bank: PinBank, bit: u8) -> Seq<char> {
    "P"@ + bank.letter_text() + digit_text(pin_number(bank, bit))
}

/// `value` with the bit at position `bit` set to `level` and every other bit
/// as it was.
pub open spec fn with_pin(value: u8, bit: u8, level: bool) -> u8
    recommends
        bit <= 7,
{
    if level {
        value | (1u8 << bit)
    } else {
        value & !(1u8 << bit)
    }
}

/// Command that writes `value` to `bank` with the pin at `bit` driven to
/// `level`, to be carried out at once.
pub open spec fn set_pin_command(bank: PinBank, bit: u8, level: bool, value: u8) -> Seq<u8> {
    set_bank(bank, with_pin(value, bit, level), bank.direction_mask()) + flush_now()
}

/// Command that asks for the levels of `bank`, to be answered at once.
pub open spec fn read_bank_command(bank: PinBank) -> Seq<u8> {
    get_bank(bank) + flush_now()
}

/// Names one general-purpose pin by bank and bit position.
#[derive(Clone, Copy, Debug, PartialEq, Eq, Structural)]
pub struct PinDescriptor {
    pub bit: u8,
    pub bank: PinBank,
}

impl PinDescriptor {
    /// Whether the descriptor names a pin that exists.
    pub open spec fn valid(self) -> bool {
        valid_pin(self.bank, self.bit)
    }

    /// The place of the pin in the pool.
    pub open spec fn slot(self) -> int {
        pin_slot(self.bank, self.bit)
    }
}

/// Exclusive use of one GPIO pin.
#[derive(Debug)]
pub struct GpioPin {
    bank: PinBank,
    bit: u8,
}

impl View for GpioPin {
    type V = PinDescriptor;

    closed spec fn view(&self) -> PinDescriptor {
        PinDescriptor { bit: self.bit, bank: self.bank }
    }
}

impl GpioPin {
    #[verifier::type_invariant]
    spec fn names_a_pin(self) -> bool {
        valid_pin(self.bank, self.bit)
    }

    /// A handle on the pin at `bit` of `bank`.
    pub fn new(bit: u8, bank: PinBank) -> (pin: GpioPin)
        requires
            valid_pin(bank, bit),
        ensures
            pin@ == (PinDescriptor { bit, bank }),
    {
        GpioPin { bank, bit }
    }

    /// Position of the pin in its bank.
    pub fn get_bit(&self) -> (bit: u8)
        ensures
            bit == self@.bit,
            self@.valid(),
    {
        proof {
            use_type_invariant(self);
        }
        self.bit
    }

    /// The bank the pin belongs to.
    pub fn get_bank(&self) -> (bank: PinBank)
        ensures
            bank == self@.bank,
    {
        self.bank
    }

    /// The name of the pin, such as `PL0` or `PH7`.
    pub fn name(&self) -> (s: String)
        ensures
            s@ == pin_name(self@.bank, self@.bit),
    {
        proof {
            use_type_invariant(self);
        }
        let number: u8 = match self.bank {
            PinBank::Low => self.bit - 4,
            PinBank::High => self.bit,
        };
        let digit = if number == 0 {
            "0"
        } else if number == 1 {
            "1"
        } else if number == 2 {
            "2"
        } else if number == 3 {
            "3"
        } else if number == 4 {
            "4"
        } else if number == 5 {
            "5"
        } else if number == 6 {
            "6"
        } else {
            "7"
        };
        String::from_str("P").concat(self.bank.letter()).concat(digit)
    }

    /// First half of a change of level: the exchange that reads the bank the
    /// pin belongs to. The one byte of the reply goes to `set_pin`.
    pub fn read_bank(&self) -> (exchange: Exchange)
        ensures
            exchange.command@ == read_bank_command(self@.bank),
            exchange.reply_len == 1,
    {
        let read = match self.bank {
            PinBank::Low => MpsseCmdBuilder::new().gpio_lower().send_immediate(),
            PinBank::High => MpsseCmdBuilder::new().gpio_upper().send_immediate(),
        };
        proof {
            assert(builder_bytes(read) =~= read_bank_command(self@.bank));
        }
        Exchange { command: slice_to_vec(read.as_slice()), reply_len: 1 }
    }

    /// Second half of a change of level: given the levels `value` just read
    /// from the bank, the exchange that writes them back with this pin at
    /// `val` and all other pins untouched. Nothing is read back.
    pub fn set_pin(&self, val: bool, value: u8) -> (exchange: Exchange)
        ensures
            exchange.command@ == set_pin_command(self@.bank, self@.bit, val, value),
            exchange.reply_len == 0,
    {
        proof {
            use_type_invariant(self);
        }
        let v: u8 = if val {
            value | (1u8 << self.bit)
        } else {
            value & (!(1u8 << self.bit))
        };
        let write = match self.bank {
            PinBank::Low => MpsseCmdBuilder::new().set_gpio_lower(v, 0b1111_1011).send_immediate(),
            PinBank::High => MpsseCmdBuilder::new().set_gpio_upper(v, 0b1111_1111).send_immediate(),
        };
        proof {
            assert(builder_bytes(write) =~= set_pin_command(self@.bank, self@.bit, val, value));
        }
        Exchange { command: slice_to_vec(write.as_slice()), reply_len: 0 }
    }

    /// The exchange that drives the pin low, given the levels `value` just
    /// read from its bank.
    pub fn set_low(&self, value: u8) -> (exchange: Exchange)
        ensures
            exchange.command@ == set_pin_command(self@.bank, self@.bit, false, value),
            exchange.reply_len == 0,
    {
        self.set_pin(false, value)
    }

    /// The exchange that drives the pin high, given the levels `value` just
    /// read from its bank.
    pub fn set_high(&self, value: u8) -> (exchange: Exchange)
        ensures
            exchange.command@ == set_pin_command(self@.bank, self@.bit, true, value),
            exchange.reply_len == 0,
    {
        self.set_pin(true, value)
    }
}

/// Whether the bit at position `bit` of `value` is set.
pub open spec fn bit_is_set(value: u8, bit: u8) -> bool {
    (value >> bit) & 1u8 == 1u8
}

/// Changing a pin sets exactly its own bit: afterwards that bit holds the
/// requested level, and every other bit of the bank is as it was read.
pub proof fn lemma_with_pin_changes_one_bit(value: u8, bit: u8, level: bool)
    requires
        bit <= 7,
    ensures
        bit_is_set(with_pin(value, bit, level), bit) == level,
        forall|other: u8|
            other <= 7 && other != bit ==> bit_is_set(
                #[trigger] with_pin(value, bit, level),
                other,
            ) == #[trigger] bit_is_set(value, other),
{
    assert(((value | (1u8 << bit)) >> bit) & 1u8 == 1u8) by (bit_vector)
        requires
            bit <= 7,
    ;
    assert(((value & !(1u8 << bit)) >> bit) & 1u8 == 0u8) by (bit_vector)
        requires
            bit <= 7,
    ;
    assert forall|other: u8| other <= 7 && other != bit implies bit_is_set(
        #[trigger] with_pin(value, bit, level),
        other,
    ) == #[trigger] bit_is_set(value, other) by {
        assert(((value | (1u8 << bit)) >> other) & 1u8 == (value >> other) & 1u8) by (bit_vector)
            requires
                bit <= 7,
                other <= 7,
                other != bit,
        ;
        assert(((value & !(1u8 << bit)) >> other) & 1u8 == (value >> other) & 1u8)
            by (bit_vector)
            requires
                bit <= 7,
                other <= 7,
                other != bit,
        ;
    }
}

/// The pins of a session that have not been handed out yet.
#[derive(Debug)]
pub struct PinPool {
    available: [bool; 12],
}

impl View for PinPool {
    type V = Seq<bool>;

    /// One flag for each pin, by slot: true while the pin is free.
    closed spec fn view(&self) -> Seq<bool> {
        self.available@
    }
}

impl PinPool {
    /// What a request for `pin` returns from a pool in state `pool`.
    pub open spec fn acquire_result(pool: Seq<bool>, pin: PinDescriptor) -> Result<
        PinDescriptor,
        ErrorKind,
    > {
        if !pin.valid() {
            Err(ErrorKind::GpioInvalidPin)
        } else if !pool[pin.slot()] {
            Err(ErrorKind::GpioPinBusy)
        } else {
            Ok(pin)
        }
    }

    /// The state in which a request for `pin` leaves a pool in state `pool`.
    pub open spec fn acquire_state(pool: Seq<bool>, pin: PinDescriptor) -> Seq<bool> {
        if Self::acquire_result(pool, pin) is Ok {
            pool.update(pin.slot(), false)
        } else {
            pool
        }
    }

    /// A pool with every pin free.
    pub fn new() -> (pool: PinPool)
        ensures
            pool@ == Seq::new(PIN_COUNT as nat, |i: int| true),
    {
        let pool = PinPool { available: [true;12] };
        proof {
            assert(pool@ =~= Seq::new(PIN_COUNT as nat, |i: int| true));
        }
        pool
    }

    /// Hands out the pin that `pin` names. A descriptor that names no pin is
    /// refused with `GpioInvalidPin`, a pin handed out before with
    /// `GpioPinBusy`; either way the pool stays as it was. Otherwise the pin
    /// leaves the pool for good.
    pub fn acquire(&mut self, pin: PinDescriptor) -> (result: Result<GpioPin, X232Error>)
        ensures
            final(self)@ == Self::acquire_state(old(self)@, pin),
            final(self)@.len() == PIN_COUNT,
            grants(result, Self::acquire_result(old(self)@, pin)),
    {
        let slot: usize = match pin.bank {
            PinBank::Low => {
                if pin.bit < 4 || pin.bit > 7 {
                    return Err(X232Error::HAL(ErrorKind::GpioInvalidPin));
                }
                (pin.bit - 4) as usize
            },
            PinBank::High => {
                if pin.bit > 7 {
                    return Err(X232Error::HAL(ErrorKind::GpioInvalidPin));
                }
                (pin.bit + 4) as usize
            },
        };
        if !self.available[slot] {
            return Err(X232Error::HAL(ErrorKind::GpioPinBusy));
        }
        self.available[slot] = false;
        Ok(GpioPin::new(pin.bit, pin.bank))
    }
}

/// Whether `result` hands out a pin as `outcome` says: the pin named on
/// success, the engine's refusal otherwise.
pub open spec fn grants(
    result: Result<GpioPin, X232Error>,
    outcome: Result<PinDescriptor, ErrorKind>,
) -> bool {
    match outcome {
        Ok(granted) => result is Ok && result->Ok_0@ == granted,
        Err(kind) => result is Err && result->Err_0 == X232Error::HAL(kind),
    }
}

/// A pin is handed out once: whatever was requested in between, a second
/// request for a pin that was granted is refused with `GpioPinBusy`, and a
/// request never frees a pin.
pub proof fn lemma_granted_pin_stays_busy(pool: Seq<bool>, pin: PinDescriptor, later: PinDescriptor)
    requires
        pool.len() == PIN_COUNT,
        PinPool::acquire_result(pool, pin) is Ok,
    ensures
        PinPool::acquire_result(PinPool::acquire_state(pool, pin), pin) == Err::<
            PinDescriptor,
            ErrorKind,
        >(ErrorKind::GpioPinBusy),
        !PinPool::acquire_state(PinPool::acquire_state(pool, pin), later)[pin.slot()],
{
}

/// Pins do not share a slot: a request for one pin leaves every other pin as
/// available as it was.
pub proof fn lemma_pins_are_independent(pool: Seq<bool>, pin: PinDescriptor, other: PinDescriptor)
    requires
        pool.len() == PIN_COUNT,
        pin.valid(),
        other.valid(),
        pin != other,
    ensures
        pin.slot() != other.slot(),
        PinPool::acquire_result(PinPool::acquire_state(pool, pin), other)
            == PinPool::acquire_result(pool, other),
{
}

} // verus!
