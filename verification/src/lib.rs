//! Core of an emulator for an 8-bit, 6502-class processor: address
//! arithmetic, memory, the register file with its status flags, the opcode
//! decoder and the execution of decoded instructions.

pub mod address;
pub mod memory;
pub mod registers;
pub mod instruction;
pub mod machine;
