use emu6502::address::Address;
use emu6502::memory::{Memory, MEMORY_SIZE, STACK_ADDRESS_HI, STACK_ADDRESS_LO};

#[test]
fn memory_constants() {
    assert_eq!(MEMORY_SIZE, 65536);
    assert_eq!(STACK_ADDRESS_LO, 0x0100);
    assert_eq!(STACK_ADDRESS_HI, 0x01FF);
}

#[test]
fn new_memory_is_zero_everywhere() {
    let memory = Memory::new();
    assert_eq!(memory.get_byte(&Address(0x0000)), 0);
    assert_eq!(memory.get_byte(&Address(0x0100)), 0);
    assert_eq!(memory.get_byte(&Address(0xFFFF)), 0);
}

#[test]
fn set_byte_changes_one_cell() {
    let mut memory = Memory::new();
    memory.set_byte(&Address(0x1234), 0xAB);
    assert_eq!(memory.get_byte(&Address(0x1234)), 0xAB);
    assert_eq!(memory.get_byte(&Address(0x1233)), 0);
    assert_eq!(memory.get_byte(&Address(0x1235)), 0);
    memory.set_byte(&Address(0x1234), 0xCD);
    assert_eq!(memory.get_byte(&Address(0x1234)), 0xCD);
}

#[test]
fn every_address_is_in_bounds() {
    let mut memory = Memory::new();
    memory.set_byte(&Address(0x0000), 1);
    memory.set_byte(&Address(0xFFFF), 2);
    assert_eq!(memory.get_byte(&Address(0x0000)), 1);
    assert_eq!(memory.get_byte(&Address(0xFFFF)), 2);
}
