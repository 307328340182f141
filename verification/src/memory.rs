//! The machine's memory: one byte for every address.

use vstd::prelude::*;
use crate::address::Address;

verus! {

/// Number of bytes in memory: one for each address.
pub const MEMORY_SIZE: usize = 0x1_0000;

/// Lowest address of the page that holds the stack, as a plain number.
pub const STACK_ADDRESS_LO: u16 = 0x0100;

/// Highest address of the page that holds the stack, as a plain number.
pub const STACK_ADDRESS_HI: u16 = 0x01FF;

/// A flat store of bytes that spans the whole address space, so that every
/// address names a cell of it.
pub struct Memory {
    bytes: [u8; MEMORY_SIZE],
}

impl View for Memory {
    type V = Seq<u8>;

    /// The bytes in address order.
    closed spec fn view(&self) -> Seq<u8> {
        self.bytes@
    }
}

impl Memory {
    /// The contents of memory at power-on: every byte is zero.
    pub open spec fn cleared() -> Seq<u8> {
        Seq::new(MEMORY_SIZE as nat, |i: int| 0u8)
    }

    /// Every memory holds exactly one byte per address.
    pub proof fn lemma_spans_address_space(&self)
        ensures
            self@.len() == MEMORY_SIZE,
    {
    }

    /// A memory with every byte zero.
    pub fn new() -> (memory: Memory)
        ensures
            memory@ == Memory::cleared(),
    {
        let memory = Memory { bytes: [0u8; MEMORY_SIZE] };
        assert(memory@ =~= Memory::cleared());
        memory
    }

    /// The byte stored at `address`.
    pub fn get_byte(&self, address: &Address) -> (byte: u8)
        ensures
            byte == self@[address.0 as int],
    {
        self.bytes[address.to_usize()]
    }

    /// Stores `value` at `address` and leaves every other byte as it was.
    pub fn set_byte(&mut self, address: &Address, value: u8)
        ensures
            final(self)@ == old(self)@.update(address.0 as int, value),
    {
        self.bytes[address.to_usize()] = value;
    }
}

} // verus!
