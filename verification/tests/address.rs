use emu6502::address::{Address, AddressDiff, CheckedAddressDiff};

#[test]
fn address_plus_diff_moves_forward_and_back() {
    assert_eq!(Address(0x1000) + AddressDiff(1), Address(0x1001));
    assert_eq!(Address(0x1000) + AddressDiff(-1), Address(0x0FFF));
    assert_eq!(Address(0x1000) + AddressDiff(0), Address(0x1000));
}

#[test]
fn address_plus_diff_wraps_at_both_ends() {
    assert_eq!(Address(0xFFFF) + AddressDiff(1), Address(0x0000));
    assert_eq!(Address(0x0000) + AddressDiff(-1), Address(0xFFFF));
    assert_eq!(Address(0x0005) + AddressDiff(-0x10000), Address(0x0005));
    assert_eq!(Address(0x0005) + AddressDiff(0x2_0003), Address(0x0008));
    assert_eq!(Address(0x0005) + AddressDiff(-0x2_0006), Address(0xFFFF));
}

#[test]
fn address_plus_diff_takes_every_diff() {
    // 2^31 - 1 = 0x7FFF * 0x10000 + 0xFFFF, and -2^31 is a multiple of 0x10000.
    assert_eq!(Address(0xFFFF) + AddressDiff(i32::MAX), Address(0xFFFE));
    assert_eq!(Address(0x0001) + AddressDiff(i32::MAX), Address(0x0000));
    assert_eq!(Address(0x1234) + AddressDiff(i32::MIN), Address(0x1234));
}

#[test]
fn address_plus_diff_is_the_sum_modulo_the_address_space() {
    let addresses = [0u16, 1, 0x00FF, 0x0100, 0x7FFF, 0x8000, 0xFFFE, 0xFFFF];
    let diffs = [0i32, 1, -1, 255, -256, 65535, -65536, 65537, 1_000_000, -1_000_000];
    for a in addresses {
        for d in diffs {
            let expected = (a as i64 + d as i64).rem_euclid(65536) as u16;
            assert_eq!((Address(a) + AddressDiff(d)).to_u16(), expected);
        }
    }
}

#[test]
fn diff_plus_diff_is_ordinary_addition() {
    assert_eq!(AddressDiff(3) + AddressDiff(-5), AddressDiff(-2));
    assert_eq!(AddressDiff(0x10000) + AddressDiff(0x10000), AddressDiff(0x20000));
    assert_eq!(AddressDiff(i32::MAX) + AddressDiff(i32::MIN), AddressDiff(-1));
}

#[test]
fn address_plus_checked_diff() {
    assert_eq!(Address(0x0100) + CheckedAddressDiff::new(0xFF), Address(0x01FF));
    assert_eq!(Address(0) + CheckedAddressDiff::new(0xFFFF), Address(0xFFFF));
    assert_eq!(Address(0xFFFF) + CheckedAddressDiff::new(0), Address(0xFFFF));
    assert_eq!(CheckedAddressDiff::new(7).to_u16(), 7);
}

#[test]
fn page_number_is_the_high_byte() {
    assert_eq!(Address(0x1234).get_page_number(), 0x12);
    assert_eq!(Address(0x01FF).get_page_number(), 0x01);
    assert_eq!(Address(0xFF00).get_page_number(), 0xFF);
    assert_eq!(Address(0x00FF).get_page_number(), 0x00);
}

#[test]
fn offset_is_the_low_byte() {
    assert_eq!(Address(0x1234).get_offset(), 0x34);
    assert_eq!(Address(0x01FF).get_offset(), 0xFF);
    assert_eq!(Address(0xFF00).get_offset(), 0x00);
}

#[test]
fn new_joins_offset_and_page() {
    assert_eq!(Address::new(0x34, 0x12), Address(0x1234));
    assert_eq!(Address::new(0x00, 0x10), Address(0x1000));
    assert_eq!(Address::new(0xFF, 0xFF), Address(0xFFFF));
    assert_eq!(Address::new(0, 0), Address(0));
}

#[test]
fn offset_and_page_rebuild_every_address() {
    for value in 0..=0xFFFFu16 {
        let address = Address(value);
        assert_eq!(Address::new(address.get_offset(), address.get_page_number()), address);
    }
}

#[test]
fn address_as_numbers() {
    assert_eq!(Address(0xBEEF).to_u16(), 0xBEEF);
    assert_eq!(Address(0xBEEF).to_usize(), 0xBEEFusize);
    assert_eq!(Address(0).to_usize(), 0);
}

#[test]
fn addresses_are_ordered_by_value() {
    assert!(Address(1) < Address(2));
    assert!(AddressDiff(-1) < AddressDiff(0));
    assert!(CheckedAddressDiff::new(1) < CheckedAddressDiff::new(2));
}
