//! The machine: registers and memory, the decoder that reads instructions at
//! the program counter, and their execution.

use vstd::prelude::*;
use crate::address::{wrapped_sum, Address, AddressDiff};
use crate::instruction::{Instruction, OPCODE_ADC_ABSOLUTE, OPCODE_ADC_IMMEDIATE};
use crate::memory::Memory;
use crate::registers::{
    ps_carry, ps_negative, ps_overflow, ps_zero, Registers, Status, StatusArgs,
};

verus! {

/// Where an instruction finds its operand.
#[derive(Clone, Copy, PartialEq, Eq, Structural, Debug)]
pub enum Value {
    /// The operand itself, given in the instruction.
    Immediate(u8),
    /// An address in the zero page.
    ZeroPage(u8),
    /// An address in the zero page, moved by the X register.
    ZeroPageX(u8),
    /// An address in the zero page, moved by the Y register.
    ZeroPageY(u8),
    /// A branch target as a signed offset from the program counter.
    Relative(u8),
    /// A full address.
    Absolute(Address),
    /// A full address, moved by the X register.
    AbsoluteX(Address),
    /// A full address, moved by the Y register.
    AbsoluteY(Address),
    /// The address stored at a full address.
    Indirect(Address),
    /// The address stored at a zero-page address moved by the X register.
    IndexedIndirectX(u8),
    /// The address stored at a zero-page address, moved by the Y register.
    IndirectIndexedY(u8),
}

impl Value {
    /// Whether the operand can be resolved: only immediate and absolute
    /// operands can.
    pub open spec fn is_resolvable(self) -> bool {
        self is Immediate || self is Absolute
    }

    /// The byte that a resolvable operand stands for in `memory`.
    pub open spec fn resolved(self, memory: Seq<u8>) -> u8
        recommends
            self.is_resolvable(),
    {
        match self {
            Value::Immediate(value) => value,
            Value::Absolute(address) => memory[address.0 as int],
            _ => 0,
        }
    }

    /// Whether [`Value::get_value`] can resolve the operand.
    pub fn can_get_value(&self) -> (yes: bool)
        ensures
            yes == self.is_resolvable(),
    {
        match self {
            Value::Immediate(_) => true,
            Value::Absolute(_) => true,
            _ => false,
        }
    }

    /// The operand byte: the byte given in the instruction for an immediate
    /// operand, the byte at the address for an absolute one.
    pub fn get_value(&self, memory: &Memory) -> (byte: u8)
        requires
            self.is_resolvable(),
        ensures
            byte == self.resolved(memory@),
    {
        match *self {
            Value::Immediate(value) => value,
            Value::Absolute(address) => memory.get_byte(&address),
            _ => unreached(),
        }
    }
}

/// The number that a byte stands for when read as a signed value in two's
/// complement.
pub open spec fn signed_value(byte: int) -> int {
    if byte >= 0x80 {
        byte - 0x100
    } else {
        byte
    }
}

/// The byte that holds the signed value `value` in two's complement.
pub open spec fn unsigned_value(value: int) -> int {
    if value < 0 {
        value + 0x100
    } else {
        value
    }
}

/// The signed value that eight bits keep of `sum`.
pub open spec fn wrapped_signed(sum: int) -> int {
    signed_value(sum % 0x100)
}

/// A byte read as a signed value.
fn to_signed(byte: u8) -> (value: i8)
    ensures
        value == signed_value(byte as int),
{
    if byte >= 0x80 {
        (byte as i16 - 0x100) as i8
    } else {
        byte as i8
    }
}

/// A signed value read as a byte.
fn to_unsigned(value: i8) -> (byte: u8)
    ensures
        byte == unsigned_value(value as int),
{
    if value < 0 {
        (value as i16 + 0x100) as u8
    } else {
        value as u8
    }
}

/// The accumulator after adding `value` and the carry to `accumulator`, in
/// eight bits.
pub open spec fn adc_accumulator(accumulator: i8, carry: bool, value: i8) -> i8 {
    wrapped_signed(accumulator + (if carry { 1int } else { 0int }) + value) as i8
}

/// The flags that adding `value` and the carry to `accumulator` defines:
/// carry, zero, negative and overflow. The other flags are clear.
pub open spec fn adc_flags(accumulator: i8, carry: bool, value: i8) -> StatusArgs {
    let after = adc_accumulator(accumulator, carry, value);
    StatusArgs {
        carry: unsigned_value(after as int) < unsigned_value(accumulator as int),
        zero: after == 0,
        negative: after < 0,
        overflow: (accumulator < 0 && value < 0 && after >= 0) || (accumulator >= 0 && value >= 0
            && after < 0),
        ..StatusArgs::cleared()
    }
}

/// The flags that add-with-carry writes.
pub open spec fn adc_mask() -> StatusArgs {
    StatusArgs { carry: true, zero: true, negative: true, overflow: true, ..StatusArgs::cleared() }
}

/// The status flags after adding `value` with carry: the four flags of the
/// sum are replaced and the others are kept.
pub open spec fn adc_status(before: Registers, value: i8) -> StatusArgs {
    before.status@.merged(
        adc_mask(),
        adc_flags(before.accumulator, before.status@.carry, value),
    )
}

/// The registers after adding `value` with carry: the accumulator holds the
/// sum, the status register holds the flags of [`adc_status`], and the rest
/// is kept.
pub open spec fn adc_registers(before: Registers, value: i8) -> Registers {
    Registers {
        accumulator: adc_accumulator(before.accumulator, before.status@.carry, value),
        status: Status::of_flags(adc_status(before, value)),
        ..before
    }
}

/// Read as bytes, the accumulator after add-with-carry is the sum of the
/// accumulator before, the carry and the operand, modulo 256: the signed
/// and the unsigned view of the addition agree.
pub proof fn lemma_adc_agrees_with_unsigned_sum(accumulator: i8, carry: bool, value: i8)
    ensures
        unsigned_value(adc_accumulator(accumulator, carry, value) as int) == (unsigned_value(
            accumulator as int,
        ) + (if carry { 1int } else { 0int }) + unsigned_value(value as int)) % 0x100,
{
}

/// Add-with-carry sets the overflow flag exactly when the sum of the
/// accumulator, the carry and the operand is not a signed eight-bit value.
pub proof fn lemma_adc_overflow_is_out_of_range(accumulator: i8, carry: bool, value: i8)
    ensures
        adc_flags(accumulator, carry, value).overflow <==> !(i8::MIN <= accumulator + (if carry {
            1int
        } else {
            0int
        }) + value <= i8::MAX),
{
}

/// Add-with-carry sets the zero and negative flags from the new accumulator
/// and touches no flag but carry, zero, negative and overflow.
pub proof fn lemma_adc_keeps_other_flags(before: Registers, value: i8)
    ensures
        ({
            let after = adc_registers(before, value);
            &&& after.status@.zero == (after.accumulator == 0)
            &&& after.status@.negative == (after.accumulator < 0)
            &&& after.status@.unused == before.status@.unused
            &&& after.status@.brk == before.status@.brk
            &&& after.status@.decimal_mode == before.status@.decimal_mode
            &&& after.status@.disable_interrupts == before.status@.disable_interrupts
            &&& after.index_x == before.index_x
            &&& after.index_y == before.index_y
            &&& after.stack_pointer == before.stack_pointer
            &&& after.program_counter == before.program_counter
        }),
{
    Status::lemma_of_flags_view(adc_status(before, value));
}

/// The operand of add-with-carry as the signed value that is added.
pub open spec fn adc_operand(operand: Value, memory: Seq<u8>) -> i8 {
    signed_value(operand.resolved(memory) as int) as i8
}

/// The status flags after executing `instruction` on a machine with
/// registers `before` and memory `memory`.
pub open spec fn executed_status(
    before: Registers,
    memory: Seq<u8>,
    instruction: Instruction,
) -> StatusArgs {
    match instruction {
        Instruction::ADC(operand) => if operand.is_resolvable() {
            adc_status(before, adc_operand(operand, memory))
        } else {
            before.status@
        },
        Instruction::NOP => before.status@,
    }
}

/// The registers after executing `instruction` on a machine with registers
/// `before` and memory `memory`. An instruction that is not implemented
/// leaves them as they are.
pub open spec fn executed_registers(
    before: Registers,
    memory: Seq<u8>,
    instruction: Instruction,
) -> Registers {
    match instruction {
        Instruction::ADC(operand) => if operand.is_resolvable() {
            adc_registers(before, adc_operand(operand, memory))
        } else {
            before
        },
        Instruction::NOP => before,
    }
}

/// Why the machine did not execute an instruction.
#[derive(Clone, Copy, PartialEq, Eq, Structural, Debug)]
pub enum ExecutionError {
    /// The operation is not implemented for the operand's addressing mode.
    NotImplemented,
}

/// The processor with its memory.
pub struct Machine {
    pub registers: Registers,
    pub memory: Memory,
}

impl Machine {
    /// Whether the machine is in the state it has at power-on: the registers
    /// have their power-on values and every byte of memory is zero.
    pub open spec fn is_power_on(&self) -> bool {
        &&& self.registers == Registers::power_on()
        &&& self.registers.status@ == StatusArgs::power_on()
        &&& self.memory@ == Memory::cleared()
    }

    /// A machine at power-on.
    pub fn new() -> (machine: Machine)
        ensures
            machine.is_power_on(),
    {
        Machine { registers: Registers::new(), memory: Memory::new() }
    }

    /// Brings the machine back to power-on: registers and memory are made
    /// anew and nothing of the former state is kept.
    pub fn reset(&mut self)
        ensures
            final(self).is_power_on(),
    {
        *self = Machine::new();
    }

    /// The byte at the program counter.
    fn peek_pc_byte(&self) -> (byte: u8)
        ensures
            byte == self.memory@[self.registers.program_counter.0 as int],
    {
        self.memory.get_byte(&self.registers.program_counter)
    }

    /// The byte at the program counter, which then moves on by one address.
    fn pop_pc_byte(&mut self) -> (byte: u8)
        ensures
            byte == old(self).memory@[old(self).registers.program_counter.0 as int],
            final(self).registers == (Registers {
                program_counter: Address(
                    wrapped_sum(old(self).registers.program_counter.0 as int, 1) as u16,
                ),
                ..old(self).registers
            }),
            final(self).memory == old(self).memory,
    {
        let byte = self.peek_pc_byte();
        self.registers.program_counter = self.registers.program_counter + AddressDiff(1);
        byte
    }

    /// Decodes the instruction at the program counter and moves the program
    /// counter past it.
    pub fn pop_pc_instruction(&mut self) -> (instruction: Instruction)
        ensures
            instruction == Instruction::decode(
                old(self).memory@,
                old(self).registers.program_counter,
            ),
            final(self).registers == (Registers {
                program_counter: Address(
                    wrapped_sum(
                        old(self).registers.program_counter.0 as int,
                        Instruction::encoded_length(
                            old(self).memory@[old(self).registers.program_counter.0 as int],
                        ),
                    ) as u16,
                ),
                ..old(self).registers
            }),
            final(self).memory == old(self).memory,
    {
        let op_code = self.pop_pc_byte();
        if op_code == OPCODE_ADC_IMMEDIATE {
            Instruction::ADC(Value::Immediate(self.pop_pc_byte()))
        } else if op_code == OPCODE_ADC_ABSOLUTE {
            let address_low_byte = self.pop_pc_byte();
            let address_high_byte = self.pop_pc_byte();
            let address = Address::new(address_low_byte, address_high_byte);
            Instruction::ADC(Value::Absolute(address))
        } else {
            Instruction::NOP
        }
    }

    /// Executes one instruction. Add-with-carry takes its operand from the
    /// instruction or from memory and reads it as a signed value; the
    /// instruction that does nothing changes nothing. Any other instruction
    /// is reported as not implemented and changes nothing either.
    pub fn execute_instruction(&mut self, instruction: Instruction) -> (outcome: Result<
        (),
        ExecutionError,
    >)
        ensures
            outcome == if instruction.is_implemented() {
                Ok::<(), ExecutionError>(())
            } else {
                Err::<(), ExecutionError>(ExecutionError::NotImplemented)
            },
            final(self).registers == executed_registers(
                old(self).registers,
                old(self).memory@,
                instruction,
            ),
            final(self).registers.status@ == executed_status(
                old(self).registers,
                old(self).memory@,
                instruction,
            ),
            final(self).memory == old(self).memory,
    {
        match instruction {
            Instruction::ADC(Value::Immediate(value)) => {
                self.add_with_carry(to_signed(value));
                Ok(())
            },
            Instruction::ADC(Value::Absolute(address)) => {
                let value = self.memory.get_byte(&address);
                self.add_with_carry(to_signed(value));
                Ok(())
            },
            Instruction::NOP => Ok(()),
            _ => Err(ExecutionError::NotImplemented),
        }
    }

    /// Adds `value` and the carry flag to the accumulator in eight bits, and
    /// sets the carry, zero, negative and overflow flags from the sum. The
    /// decimal-mode flag has no effect.
    pub fn add_with_carry(&mut self, value: i8)
        ensures
            final(self).registers == adc_registers(old(self).registers, value),
            final(self).registers.status@ == adc_status(old(self).registers, value),
            final(self).memory == old(self).memory,
    {
        let a_before: i8 = self.registers.accumulator;
        let c_before: i8 = self.registers.status.get_carry();
        let a_after: i8 = a_before.wrapping_add(c_before).wrapping_add(value);

        let did_carry = to_unsigned(a_after) < to_unsigned(a_before);
        let is_zero = a_after == 0;
        let is_negative = a_after < 0;
        let did_overflow = (a_before < 0 && value < 0 && a_after >= 0) || (a_before >= 0 && value
            >= 0 && a_after < 0);

        let mask = ps_carry() | ps_zero() | ps_negative() | ps_overflow();
        self.registers.status.set_with_mask(
            mask,
            Status::new(
                StatusArgs {
                    carry: did_carry,
                    zero: is_zero,
                    negative: is_negative,
                    overflow: did_overflow,
                    ..StatusArgs::none()
                },
            ),
        );
        self.registers.accumulator = a_after;
        proof {
            Status::lemma_status_of_its_flags(self.registers.status);
        }
    }
}

} // verus!
