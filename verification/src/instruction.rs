//! Instructions and the table that decodes them from bytes.

use vstd::prelude::*;
use crate::address::{join_bytes, wrapped_sum, Address};
use crate::machine::Value;

verus! {

/// Opcode of add-with-carry with an immediate operand.
pub const OPCODE_ADC_IMMEDIATE: u8 = 0x69;

/// Opcode of add-with-carry with an absolute operand.
pub const OPCODE_ADC_ABSOLUTE: u8 = 0x6D;

/// An operation together with the operand it works on.
#[derive(Clone, Copy, PartialEq, Eq, Structural, Debug)]
pub enum Instruction {
    /// Add the operand and the carry flag to the accumulator.
    ADC(Value),
    /// Do nothing.
    NOP,
}

impl Instruction {
    /// Whether the machine can execute the instruction: add-with-carry with
    /// an immediate or an absolute operand, and the instruction that does
    /// nothing.
    pub open spec fn is_implemented(self) -> bool {
        match self {
            Instruction::ADC(Value::Immediate(_)) => true,
            Instruction::ADC(Value::Absolute(_)) => true,
            Instruction::ADC(_) => false,
            Instruction::NOP => true,
        }
    }

    /// The number of bytes that the instruction with opcode `opcode` takes,
    /// the opcode included. An opcode outside the table takes one byte.
    pub open spec fn encoded_length(opcode: u8) -> int {
        if opcode == OPCODE_ADC_IMMEDIATE {
            2
        } else if opcode == OPCODE_ADC_ABSOLUTE {
            3
        } else {
            1
        }
    }

    /// The instruction that starts at `start` in `memory`. Operand bytes
    /// follow the opcode, wrapping at the end of memory; the two bytes of an
    /// absolute address come low byte first. An opcode outside the table
    /// decodes to [`Instruction::NOP`].
    pub open spec fn decode(memory: Seq<u8>, start: Address) -> Instruction {
        let opcode = memory[start.0 as int];
        let first = memory[wrapped_sum(start.0 as int, 1)];
        let second = memory[wrapped_sum(start.0 as int, 2)];
        if opcode == OPCODE_ADC_IMMEDIATE {
            Instruction::ADC(Value::Immediate(first))
        } else if opcode == OPCODE_ADC_ABSOLUTE {
            Instruction::ADC(Value::Absolute(Address(join_bytes(first as int, second as int) as u16)))
        } else {
            Instruction::NOP
        }
    }
}

} // verus!
