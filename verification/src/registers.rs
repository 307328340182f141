//! The register file: accumulator, index registers, stack pointer, program
//! counter and the status flags.

use core::ops::Not;
use vstd::prelude::*;
use vstd::std_specs::ops::{BitAndSpecImpl, BitOrSpecImpl, NotSpecImpl};
use crate::address::{Address, AddressDiff};
use crate::memory::{STACK_ADDRESS_HI, STACK_ADDRESS_LO};

verus! {

/// Bit of the negative flag in the status byte.
pub const NEGATIVE_BIT: u8 = 0b1000_0000;

/// Bit of the overflow flag in the status byte.
pub const OVERFLOW_BIT: u8 = 0b0100_0000;

/// Bit of the unused flag in the status byte.
pub const UNUSED_BIT: u8 = 0b0010_0000;

/// Bit of the break flag in the status byte.
pub const BRK_BIT: u8 = 0b0001_0000;

/// Bit of the decimal-mode flag in the status byte.
pub const DECIMAL_MODE_BIT: u8 = 0b0000_1000;

/// Bit of the interrupt-disable flag in the status byte.
pub const DISABLE_INTERRUPTS_BIT: u8 = 0b0000_0100;

/// Bit of the zero flag in the status byte.
pub const ZERO_BIT: u8 = 0b0000_0010;

/// Bit of the carry flag in the status byte.
pub const CARRY_BIT: u8 = 0b0000_0001;

/// The eight status flags by name. It serves to build a [`Status`], and it
/// is what a [`Status`] is taken to be in contracts.
#[derive(Clone, Copy, PartialEq, Eq, Structural, Debug)]
pub struct StatusArgs {
    pub negative: bool,
    pub overflow: bool,
    pub unused: bool,
    pub brk: bool,
    pub decimal_mode: bool,
    pub disable_interrupts: bool,
    pub zero: bool,
    pub carry: bool,
}

impl StatusArgs {
    /// The record with every flag clear.
    pub open spec fn cleared() -> StatusArgs {
        StatusArgs {
            negative: false,
            overflow: false,
            unused: false,
            brk: false,
            decimal_mode: false,
            disable_interrupts: false,
            zero: false,
            carry: false,
        }
    }

    /// The flags at power-on: `unused` and `disable_interrupts` are set, the
    /// rest are clear.
    pub open spec fn power_on() -> StatusArgs {
        StatusArgs { unused: true, disable_interrupts: true, ..StatusArgs::cleared() }
    }

    /// The flags set in `self` or in `other`.
    pub open spec fn union(self, other: StatusArgs) -> StatusArgs {
        StatusArgs {
            negative: self.negative || other.negative,
            overflow: self.overflow || other.overflow,
            unused: self.unused || other.unused,
            brk: self.brk || other.brk,
            decimal_mode: self.decimal_mode || other.decimal_mode,
            disable_interrupts: self.disable_interrupts || other.disable_interrupts,
            zero: self.zero || other.zero,
            carry: self.carry || other.carry,
        }
    }

    /// The flags set both in `self` and in `other`.
    pub open spec fn intersection(self, other: StatusArgs) -> StatusArgs {
        StatusArgs {
            negative: self.negative && other.negative,
            overflow: self.overflow && other.overflow,
            unused: self.unused && other.unused,
            brk: self.brk && other.brk,
            decimal_mode: self.decimal_mode && other.decimal_mode,
            disable_interrupts: self.disable_interrupts && other.disable_interrupts,
            zero: self.zero && other.zero,
            carry: self.carry && other.carry,
        }
    }

    /// The flags that are clear in `self`.
    pub open spec fn complement(self) -> StatusArgs {
        StatusArgs {
            negative: !self.negative,
            overflow: !self.overflow,
            unused: !self.unused,
            brk: !self.brk,
            decimal_mode: !self.decimal_mode,
            disable_interrupts: !self.disable_interrupts,
            zero: !self.zero,
            carry: !self.carry,
        }
    }

    /// Whether every flag set in `other` is set in `self`.
    pub open spec fn includes(self, other: StatusArgs) -> bool {
        &&& other.negative ==> self.negative
        &&& other.overflow ==> self.overflow
        &&& other.unused ==> self.unused
        &&& other.brk ==> self.brk
        &&& other.decimal_mode ==> self.decimal_mode
        &&& other.disable_interrupts ==> self.disable_interrupts
        &&& other.zero ==> self.zero
        &&& other.carry ==> self.carry
    }

    /// `self` with each flag that `mask` selects replaced by that flag of
    /// `new`, and every other flag kept.
    pub open spec fn merged(self, mask: StatusArgs, new: StatusArgs) -> StatusArgs {
        StatusArgs {
            negative: if mask.negative { new.negative } else { self.negative },
            overflow: if mask.overflow { new.overflow } else { self.overflow },
            unused: if mask.unused { new.unused } else { self.unused },
            brk: if mask.brk { new.brk } else { self.brk },
            decimal_mode: if mask.decimal_mode { new.decimal_mode } else { self.decimal_mode },
            disable_interrupts: if mask.disable_interrupts {
                new.disable_interrupts
            } else {
                self.disable_interrupts
            },
            zero: if mask.zero { new.zero } else { self.zero },
            carry: if mask.carry { new.carry } else { self.carry },
        }
    }

    /// The byte that holds the flags, `negative` in the highest bit and
    /// `carry` in the lowest.
    pub open spec fn packed(self) -> int {
        (if self.negative { NEGATIVE_BIT as int } else { 0 })
            + (if self.overflow { OVERFLOW_BIT as int } else { 0 })
            + (if self.unused { UNUSED_BIT as int } else { 0 })
            + (if self.brk { BRK_BIT as int } else { 0 })
            + (if self.decimal_mode { DECIMAL_MODE_BIT as int } else { 0 })
            + (if self.disable_interrupts { DISABLE_INTERRUPTS_BIT as int } else { 0 })
            + (if self.zero { ZERO_BIT as int } else { 0 })
            + (if self.carry { CARRY_BIT as int } else { 0 })
    }

    /// The record with every flag clear.
    pub fn none() -> (args: StatusArgs)
        ensures
            args == StatusArgs::cleared(),
    {
        StatusArgs {
            negative: false,
            overflow: false,
            unused: false,
            brk: false,
            decimal_mode: false,
            disable_interrupts: false,
            zero: false,
            carry: false,
        }
    }
}

/// The processor status register: eight flags packed into one byte.
#[derive(Clone, Copy, PartialEq, Eq, Structural, Debug)]
pub struct Status {
    bits: u8,
}

impl View for Status {
    type V = StatusArgs;

    /// The flags by name: a flag is set where its bit is.
    closed spec fn view(&self) -> StatusArgs {
        flags_of(self.bits)
    }
}

/// The flags that the bits of `bits` stand for.
spec fn flags_of(bits: u8) -> StatusArgs {
    StatusArgs {
        negative: bits & NEGATIVE_BIT != 0,
        overflow: bits & OVERFLOW_BIT != 0,
        unused: bits & UNUSED_BIT != 0,
        brk: bits & BRK_BIT != 0,
        decimal_mode: bits & DECIMAL_MODE_BIT != 0,
        disable_interrupts: bits & DISABLE_INTERRUPTS_BIT != 0,
        zero: bits & ZERO_BIT != 0,
        carry: bits & CARRY_BIT != 0,
    }
}

/// The byte in which exactly the bits of the flags set in `args` are set.
spec fn byte_of(args: StatusArgs) -> u8 {
    (if args.negative { NEGATIVE_BIT } else { 0 })
        | (if args.overflow { OVERFLOW_BIT } else { 0 })
        | (if args.unused { UNUSED_BIT } else { 0 })
        | (if args.brk { BRK_BIT } else { 0 })
        | (if args.decimal_mode { DECIMAL_MODE_BIT } else { 0 })
        | (if args.disable_interrupts { DISABLE_INTERRUPTS_BIT } else { 0 })
        | (if args.zero { ZERO_BIT } else { 0 })
        | (if args.carry { CARRY_BIT } else { 0 })
}

/// A byte is the sum of the weights of its set bits.
proof fn lemma_flags_pack(bits: u8)
    ensures
        flags_of(bits).packed() == bits,
{
    assert(bits == (if bits & NEGATIVE_BIT != 0 { 0x80int } else { 0 })
        + (if bits & OVERFLOW_BIT != 0 { 0x40int } else { 0 })
        + (if bits & UNUSED_BIT != 0 { 0x20int } else { 0 })
        + (if bits & BRK_BIT != 0 { 0x10int } else { 0 })
        + (if bits & DECIMAL_MODE_BIT != 0 { 0x08int } else { 0 })
        + (if bits & DISABLE_INTERRUPTS_BIT != 0 { 0x04int } else { 0 })
        + (if bits & ZERO_BIT != 0 { 0x02int } else { 0 })
        + (if bits & CARRY_BIT != 0 { 0x01int } else { 0 })) by (bit_vector);
}

/// Each flag can be read back from the byte made of the flags.
proof fn lemma_flags_of_byte_of(args: StatusArgs)
    ensures
        flags_of(byte_of(args)) == args,
{
    let n = args.negative;
    let v = args.overflow;
    let u = args.unused;
    let b = args.brk;
    let d = args.decimal_mode;
    let i = args.disable_interrupts;
    let z = args.zero;
    let c = args.carry;
    let byte = byte_of(args);
    assert((byte & NEGATIVE_BIT != 0) == n
        && (byte & OVERFLOW_BIT != 0) == v
        && (byte & UNUSED_BIT != 0) == u
        && (byte & BRK_BIT != 0) == b
        && (byte & DECIMAL_MODE_BIT != 0) == d
        && (byte & DISABLE_INTERRUPTS_BIT != 0) == i
        && (byte & ZERO_BIT != 0) == z
        && (byte & CARRY_BIT != 0) == c) by (bit_vector)
        requires
            byte == (if n { NEGATIVE_BIT } else { 0 })
                | (if v { OVERFLOW_BIT } else { 0 })
                | (if u { UNUSED_BIT } else { 0 })
                | (if b { BRK_BIT } else { 0 })
                | (if d { DECIMAL_MODE_BIT } else { 0 })
                | (if i { DISABLE_INTERRUPTS_BIT } else { 0 })
                | (if z { ZERO_BIT } else { 0 })
                | (if c { CARRY_BIT } else { 0 }),
    ;
}

/// Whether at most one bit of `bits` is set.
spec fn is_single_bit(bits: u8) -> bool {
    bits == 0 || bits == NEGATIVE_BIT || bits == OVERFLOW_BIT || bits == UNUSED_BIT || bits
        == BRK_BIT || bits == DECIMAL_MODE_BIT || bits == DISABLE_INTERRUPTS_BIT || bits
        == ZERO_BIT || bits == CARRY_BIT
}

/// A byte with at most one bit set stands for the flag of that bit and for
/// no other.
proof fn lemma_flags_of_single_bit(bits: u8)
    requires
        is_single_bit(bits),
    ensures
        flags_of(bits) == (StatusArgs {
            negative: bits == NEGATIVE_BIT,
            overflow: bits == OVERFLOW_BIT,
            unused: bits == UNUSED_BIT,
            brk: bits == BRK_BIT,
            decimal_mode: bits == DECIMAL_MODE_BIT,
            disable_interrupts: bits == DISABLE_INTERRUPTS_BIT,
            zero: bits == ZERO_BIT,
            carry: bits == CARRY_BIT,
        }),
{
    assert((bits & NEGATIVE_BIT != 0) == (bits == NEGATIVE_BIT)
        && (bits & OVERFLOW_BIT != 0) == (bits == OVERFLOW_BIT)
        && (bits & UNUSED_BIT != 0) == (bits == UNUSED_BIT)
        && (bits & BRK_BIT != 0) == (bits == BRK_BIT)
        && (bits & DECIMAL_MODE_BIT != 0) == (bits == DECIMAL_MODE_BIT)
        && (bits & DISABLE_INTERRUPTS_BIT != 0) == (bits == DISABLE_INTERRUPTS_BIT)
        && (bits & ZERO_BIT != 0) == (bits == ZERO_BIT)
        && (bits & CARRY_BIT != 0) == (bits == CARRY_BIT)) by (bit_vector)
        requires
            is_single_bit(bits),
    ;
}

/// Bitwise or, and and not act on each flag alone, and one byte holds all
/// the bits of another where it has each of its flags.
proof fn lemma_flags_of_bit_operations(a: u8, b: u8)
    ensures
        flags_of(a | b) == flags_of(a).union(flags_of(b)),
        flags_of(a & b) == flags_of(a).intersection(flags_of(b)),
        flags_of(!a) == flags_of(a).complement(),
        (a & b == b) <==> flags_of(a).includes(flags_of(b)),
{
    assert(((a | b) & NEGATIVE_BIT != 0) == (a & NEGATIVE_BIT != 0 || b & NEGATIVE_BIT != 0)
        && ((a | b) & OVERFLOW_BIT != 0) == (a & OVERFLOW_BIT != 0 || b & OVERFLOW_BIT != 0)
        && ((a | b) & UNUSED_BIT != 0) == (a & UNUSED_BIT != 0 || b & UNUSED_BIT != 0)
        && ((a | b) & BRK_BIT != 0) == (a & BRK_BIT != 0 || b & BRK_BIT != 0)
        && ((a | b) & DECIMAL_MODE_BIT != 0) == (a & DECIMAL_MODE_BIT != 0 || b & DECIMAL_MODE_BIT != 0)
        && ((a | b) & DISABLE_INTERRUPTS_BIT != 0) == (a & DISABLE_INTERRUPTS_BIT != 0 || b & DISABLE_INTERRUPTS_BIT != 0)
        && ((a | b) & ZERO_BIT != 0) == (a & ZERO_BIT != 0 || b & ZERO_BIT != 0)
        && ((a | b) & CARRY_BIT != 0) == (a & CARRY_BIT != 0 || b & CARRY_BIT != 0)) by (bit_vector);
    assert(((a & b) & NEGATIVE_BIT != 0) == (a & NEGATIVE_BIT != 0 && b & NEGATIVE_BIT != 0)
        && ((a & b) & OVERFLOW_BIT != 0) == (a & OVERFLOW_BIT != 0 && b & OVERFLOW_BIT != 0)
        && ((a & b) & UNUSED_BIT != 0) == (a & UNUSED_BIT != 0 && b & UNUSED_BIT != 0)
        && ((a & b) & BRK_BIT != 0) == (a & BRK_BIT != 0 && b & BRK_BIT != 0)
        && ((a & b) & DECIMAL_MODE_BIT != 0) == (a & DECIMAL_MODE_BIT != 0 && b & DECIMAL_MODE_BIT != 0)
        && ((a & b) & DISABLE_INTERRUPTS_BIT != 0) == (a & DISABLE_INTERRUPTS_BIT != 0 && b & DISABLE_INTERRUPTS_BIT != 0)
        && ((a & b) & ZERO_BIT != 0) == (a & ZERO_BIT != 0 && b & ZERO_BIT != 0)
        && ((a & b) & CARRY_BIT != 0) == (a & CARRY_BIT != 0 && b & CARRY_BIT != 0)) by (bit_vector);
    assert(((!a) & NEGATIVE_BIT != 0) == (a & NEGATIVE_BIT == 0)
        && ((!a) & OVERFLOW_BIT != 0) == (a & OVERFLOW_BIT == 0)
        && ((!a) & UNUSED_BIT != 0) == (a & UNUSED_BIT == 0)
        && ((!a) & BRK_BIT != 0) == (a & BRK_BIT == 0)
        && ((!a) & DECIMAL_MODE_BIT != 0) == (a & DECIMAL_MODE_BIT == 0)
        && ((!a) & DISABLE_INTERRUPTS_BIT != 0) == (a & DISABLE_INTERRUPTS_BIT == 0)
        && ((!a) & ZERO_BIT != 0) == (a & ZERO_BIT == 0)
        && ((!a) & CARRY_BIT != 0) == (a & CARRY_BIT == 0)) by (bit_vector);
    assert((a & b == b) <==> ((b & NEGATIVE_BIT != 0 ==> a & NEGATIVE_BIT != 0)
            && (b & OVERFLOW_BIT != 0 ==> a & OVERFLOW_BIT != 0)
            && (b & UNUSED_BIT != 0 ==> a & UNUSED_BIT != 0)
            && (b & BRK_BIT != 0 ==> a & BRK_BIT != 0)
            && (b & DECIMAL_MODE_BIT != 0 ==> a & DECIMAL_MODE_BIT != 0)
            && (b & DISABLE_INTERRUPTS_BIT != 0 ==> a & DISABLE_INTERRUPTS_BIT != 0)
            && (b & ZERO_BIT != 0 ==> a & ZERO_BIT != 0)
            && (b & CARRY_BIT != 0 ==> a & CARRY_BIT != 0))) by (bit_vector);
}

impl core::ops::BitOr for Status {
    type Output = Status;

    /// The flags set in either register.
    fn bitor(self, rhs: Status) -> (joined: Status)
        ensures
            joined@ == self@.union(rhs@),
    {
        proof {
            lemma_flags_of_bit_operations(self.bits, rhs.bits);
        }
        Status { bits: self.bits | rhs.bits }
    }
}

impl BitOrSpecImpl for Status {
    open spec fn obeys_bitor_spec() -> bool {
        true
    }

    open spec fn bitor_req(self, rhs: Status) -> bool {
        true
    }

    closed spec fn bitor_spec(self, rhs: Status) -> Status {
        Status { bits: self.bits | rhs.bits }
    }
}

impl core::ops::BitAnd for Status {
    type Output = Status;

    /// The flags set in both registers.
    fn bitand(self, rhs: Status) -> (common: Status)
        ensures
            common@ == self@.intersection(rhs@),
    {
        proof {
            lemma_flags_of_bit_operations(self.bits, rhs.bits);
        }
        Status { bits: self.bits & rhs.bits }
    }
}

impl BitAndSpecImpl for Status {
    open spec fn obeys_bitand_spec() -> bool {
        true
    }

    open spec fn bitand_req(self, rhs: Status) -> bool {
        true
    }

    closed spec fn bitand_spec(self, rhs: Status) -> Status {
        Status { bits: self.bits & rhs.bits }
    }
}

impl core::ops::Not for Status {
    type Output = Status;

    /// The flags that are clear in the register.
    fn not(self) -> (inverted: Status)
        ensures
            inverted@ == self@.complement(),
    {
        proof {
            lemma_flags_of_bit_operations(self.bits, self.bits);
        }
        Status { bits: !self.bits }
    }
}

impl NotSpecImpl for Status {
    open spec fn obeys_not_spec() -> bool {
        true
    }

    open spec fn not_req(self) -> bool {
        true
    }

    closed spec fn not_spec(self) -> Status {
        Status { bits: !self.bits }
    }
}

/// The register in which only the negative flag is set.
pub fn ps_negative() -> (flag: Status)
    ensures
        flag@ == (StatusArgs { negative: true, ..StatusArgs::cleared() }),
{
    proof {
        lemma_flags_of_single_bit(NEGATIVE_BIT);
    }
    Status { bits: NEGATIVE_BIT }
}

/// The register in which only the overflow flag is set.
pub fn ps_overflow() -> (flag: Status)
    ensures
        flag@ == (StatusArgs { overflow: true, ..StatusArgs::cleared() }),
{
    proof {
        lemma_flags_of_single_bit(OVERFLOW_BIT);
    }
    Status { bits: OVERFLOW_BIT }
}

/// The register in which only the unused flag is set.
pub fn ps_unused() -> (flag: Status)
    ensures
        flag@ == (StatusArgs { unused: true, ..StatusArgs::cleared() }),
{
    proof {
        lemma_flags_of_single_bit(UNUSED_BIT);
    }
    Status { bits: UNUSED_BIT }
}

/// The register in which only the break flag is set.
pub fn ps_brk() -> (flag: Status)
    ensures
        flag@ == (StatusArgs { brk: true, ..StatusArgs::cleared() }),
{
    proof {
        lemma_flags_of_single_bit(BRK_BIT);
    }
    Status { bits: BRK_BIT }
}

/// The register in which only the decimal-mode flag is set.
pub fn ps_decimal_mode() -> (flag: Status)
    ensures
        flag@ == (StatusArgs { decimal_mode: true, ..StatusArgs::cleared() }),
{
    proof {
        lemma_flags_of_single_bit(DECIMAL_MODE_BIT);
    }
    Status { bits: DECIMAL_MODE_BIT }
}

/// The register in which only the interrupt-disable flag is set.
pub fn ps_disable_interrupts() -> (flag: Status)
    ensures
        flag@ == (StatusArgs { disable_interrupts: true, ..StatusArgs::cleared() }),
{
    proof {
        lemma_flags_of_single_bit(DISABLE_INTERRUPTS_BIT);
    }
    Status { bits: DISABLE_INTERRUPTS_BIT }
}

/// The register in which only the zero flag is set.
pub fn ps_zero() -> (flag: Status)
    ensures
        flag@ == (StatusArgs { zero: true, ..StatusArgs::cleared() }),
{
    proof {
        lemma_flags_of_single_bit(ZERO_BIT);
    }
    Status { bits: ZERO_BIT }
}

/// The register in which only the carry flag is set.
pub fn ps_carry() -> (flag: Status)
    ensures
        flag@ == (StatusArgs { carry: true, ..StatusArgs::cleared() }),
{
    proof {
        lemma_flags_of_single_bit(CARRY_BIT);
    }
    Status { bits: CARRY_BIT }
}

impl Status {
    /// The register that holds exactly the flags of `args`.
    pub closed spec fn of_flags(args: StatusArgs) -> Status {
        Status { bits: byte_of(args) }
    }

    /// A register made of named flags holds those flags.
    pub proof fn lemma_of_flags_view(args: StatusArgs)
        ensures
            Status::of_flags(args)@ == args,
    {
        lemma_flags_of_byte_of(args);
    }

    /// A register is made of its own flags.
    pub proof fn lemma_status_of_its_flags(status: Status)
        ensures
            Status::of_flags(status@) == status,
    {
        lemma_flags_of_byte_of(status@);
        lemma_flags_pack(status.bits);
        lemma_flags_pack(byte_of(status@));
    }

    /// Two registers with the same flags are the same register: the byte
    /// holds the eight flags and nothing else.
    pub proof fn lemma_flags_determine_status(a: Status, b: Status)
        requires
            a@ == b@,
        ensures
            a == b,
    {
        lemma_flags_pack(a.bits);
        lemma_flags_pack(b.bits);
    }

    /// The register with every flag clear.
    pub fn empty() -> (status: Status)
        ensures
            status@ == StatusArgs::cleared(),
    {
        proof {
            lemma_flags_of_single_bit(0);
        }
        Status { bits: 0 }
    }

    /// The byte that holds the flags.
    pub fn bits(&self) -> (byte: u8)
        ensures
            byte == self@.packed(),
    {
        proof {
            lemma_flags_pack(self.bits);
        }
        self.bits
    }

    /// The register at power-on: the unused and the interrupt-disable flags
    /// are set, the others are clear.
    pub fn default() -> (status: Status)
        ensures
            status@ == StatusArgs::power_on(),
    {
        Status::new(
            StatusArgs {
                negative: false,
                overflow: false,
                unused: true,
                brk: false,
                decimal_mode: false,
                disable_interrupts: true,
                zero: false,
                carry: false,
            },
        )
    }

    /// The register that holds exactly the flags of `args`.
    pub fn new(args: StatusArgs) -> (status: Status)
        ensures
            status@ == args,
            status == Status::of_flags(args),
    {
        let mut out = Status::empty();
        if args.negative {
            out = out | ps_negative();
        }
        if args.overflow {
            out = out | ps_overflow();
        }
        if args.unused {
            out = out | ps_unused();
        }
        if args.brk {
            out = out | ps_brk();
        }
        if args.decimal_mode {
            out = out | ps_decimal_mode();
        }
        if args.disable_interrupts {
            out = out | ps_disable_interrupts();
        }
        if args.zero {
            out = out | ps_zero();
        }
        if args.carry {
            out = out | ps_carry();
        }
        proof {
            Status::lemma_status_of_its_flags(out);
        }
        out
    }

    /// Whether every flag set in `other` is set in this register.
    pub fn contains(&self, other: Status) -> (all: bool)
        ensures
            all == self@.includes(other@),
    {
        proof {
            lemma_flags_of_bit_operations(self.bits, other.bits);
        }
        self.bits & other.bits == other.bits
    }

    /// Sets the flags that are set in `other`.
    pub fn insert(&mut self, other: Status)
        ensures
            final(self)@ == old(self)@.union(other@),
    {
        *self = *self | other;
    }

    /// Clears the flags that are set in `other`.
    pub fn remove(&mut self, other: Status)
        ensures
            final(self)@ == old(self)@.intersection(other@.complement()),
    {
        *self = *self & other.not();
    }

    /// Replaces the flags that `mask` selects by those of `rhs` and keeps
    /// every other flag.
    pub fn set_with_mask(&mut self, mask: Status, rhs: Status)
        ensures
            final(self)@ == old(self)@.merged(mask@, rhs@),
    {
        *self = (*self & mask.not()) | (rhs & mask);
    }

    /// The carry flag as a number: 1 where it is set, 0 where it is clear.
    pub fn get_carry(self) -> (carry: i8)
        ensures
            carry == if self@.carry { 1i8 } else { 0i8 },
    {
        if self.contains(ps_carry()) {
            1
        } else {
            0
        }
    }
}

/// The stack pointer: a position inside the stack page.
#[derive(Clone, Copy, PartialEq, Eq, Structural, PartialOrd, Ord, Debug)]
pub struct StackPointer(pub u8);

impl StackPointer {
    /// The address that the stack pointer names: its value counted from the
    /// lowest address of the stack page.
    pub fn to_address(&self) -> (address: Address)
        ensures
            address.0 == STACK_ADDRESS_LO + self.0,
    {
        Address(STACK_ADDRESS_LO) + AddressDiff(self.0 as i32)
    }
}

/// The registers of the processor.
#[derive(Clone, Copy, PartialEq, Eq, Structural, Debug)]
pub struct Registers {
    pub accumulator: i8,
    pub index_x: u8,
    pub index_y: u8,
    pub stack_pointer: StackPointer,
    pub program_counter: Address,
    pub status: Status,
}

impl Registers {
    /// The registers at power-on: accumulator and index registers are zero,
    /// the stack pointer is at the top of the stack page, the program counter
    /// is zero and the status register has its power-on flags.
    pub open spec fn power_on() -> Registers {
        Registers {
            accumulator: 0,
            index_x: 0,
            index_y: 0,
            stack_pointer: StackPointer(0xFF),
            program_counter: Address(0),
            status: Status::of_flags(StatusArgs::power_on()),
        }
    }

    /// The registers at power-on.
    pub fn new() -> (registers: Registers)
        ensures
            registers == Registers::power_on(),
            registers.status@ == StatusArgs::power_on(),
    {
        let status = Status::default();
        proof {
            Status::lemma_status_of_its_flags(status);
        }
        Registers {
            accumulator: 0,
            index_x: 0,
            index_y: 0,
            stack_pointer: StackPointer(Address(STACK_ADDRESS_HI).get_offset()),
            program_counter: Address(0),
            status,
        }
    }
}

} // verus!
