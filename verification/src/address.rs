//! Sixteen-bit addresses and the differences that move them.
//!
//! Two addresses cannot be added. An address can be moved by a difference:
//! by an [`AddressDiff`], which wraps round the ends of the address space as
//! the hardware's registers do, or by a [`CheckedAddressDiff`], which must
//! stay inside it.

use vstd::prelude::*;
use vstd::std_specs::ops::AddSpecImpl;

verus! {

/// A signed distance between two addresses. It is wider than an address, so
/// that a distance can reach from any address to any other, in either
/// direction, with room to spare.
#[derive(Clone, Copy, PartialEq, Eq, Structural, PartialOrd, Ord, Debug)]
pub struct AddressDiff(pub i32);

/// The position of one memory cell.
#[derive(Clone, Copy, PartialEq, Eq, Structural, PartialOrd, Ord, Debug)]
pub struct Address(pub u16);

/// An unsigned distance for address arithmetic that must not leave the
/// address space.
#[derive(Clone, Copy, PartialEq, Eq, Structural, PartialOrd, Ord)]
pub struct CheckedAddressDiff(u16);

/// The address reached from `base` by moving `delta` cells, wrapping round
/// the ends of the address space.
pub open spec fn wrapped_sum(base: int, delta: int) -> int {
    (base + delta) % 0x1_0000
}

/// The address whose high byte is `page` and whose low byte is `offset`.
pub open spec fn join_bytes(offset: int, page: int) -> int {
    page * 0x100 + offset
}

impl core::ops::Add<AddressDiff> for Address {
    type Output = Address;

    /// Moves the address by `rhs` cells, wrapping modulo the size of the
    /// address space.
    fn add(self, rhs: AddressDiff) -> (moved: Address)
        ensures
            moved.0 == wrapped_sum(self.0 as int, rhs.0 as int),
    {
        // Lifted by a multiple of the address space, the sum is never
        // negative, so that its remainder can be taken on unsigned numbers.
        let lifted: i64 = self.0 as i64 + rhs.0 as i64 + 0x8000_0000i64;
        let wrapped: u64 = (lifted as u64) % 0x1_0000u64;
        assert(wrapped == wrapped_sum(self.0 as int, rhs.0 as int)) by {
            assert(lifted == (self.0 + rhs.0) + 0x8000 * 0x1_0000);
        }
        Address(wrapped as u16)
    }
}

impl AddSpecImpl<AddressDiff> for Address {
    open spec fn obeys_add_spec() -> bool {
        true
    }

    open spec fn add_req(self, rhs: AddressDiff) -> bool {
        true
    }

    open spec fn add_spec(self, rhs: AddressDiff) -> Address {
        Address(wrapped_sum(self.0 as int, rhs.0 as int) as u16)
    }
}

impl core::ops::Add<AddressDiff> for AddressDiff {
    type Output = AddressDiff;

    /// Adds two differences. The sum has to fit the type: differences do not
    /// wrap.
    fn add(self, rhs: AddressDiff) -> (sum: AddressDiff)
        ensures
            sum.0 == self.0 + rhs.0,
    {
        AddressDiff(self.0 + rhs.0)
    }
}

impl AddSpecImpl<AddressDiff> for AddressDiff {
    open spec fn obeys_add_spec() -> bool {
        true
    }

    open spec fn add_req(self, rhs: AddressDiff) -> bool {
        i32::MIN <= self.0 + rhs.0 <= i32::MAX
    }

    open spec fn add_spec(self, rhs: AddressDiff) -> AddressDiff {
        AddressDiff((self.0 + rhs.0) as i32)
    }
}

impl core::ops::Add<CheckedAddressDiff> for Address {
    type Output = Address;

    /// Moves the address forward by `rhs` cells. The result has to lie in
    /// the address space.
    fn add(self, rhs: CheckedAddressDiff) -> (moved: Address)
        ensures
            moved.0 == self.0 + rhs.value(),
    {
        Address(self.0 + rhs.0)
    }
}

impl AddSpecImpl<CheckedAddressDiff> for Address {
    open spec fn obeys_add_spec() -> bool {
        true
    }

    open spec fn add_req(self, rhs: CheckedAddressDiff) -> bool {
        self.0 + rhs.value() <= u16::MAX
    }

    open spec fn add_spec(self, rhs: CheckedAddressDiff) -> Address {
        Address((self.0 + rhs.value()) as u16)
    }
}

impl CheckedAddressDiff {
    /// The distance in cells, as a mathematical integer.
    pub closed spec fn value(self) -> int {
        self.0 as int
    }

    /// A distance of `cells` cells.
    pub fn new(cells: u16) -> (diff: CheckedAddressDiff)
        ensures
            diff.value() == cells,
    {
        CheckedAddressDiff(cells)
    }

    /// The distance in cells.
    pub fn to_u16(&self) -> (cells: u16)
        ensures
            cells == self.value(),
    {
        self.0
    }
}

impl Address {
    /// The number of the page that the address lies in: its high byte.
    pub open spec fn page_number(self) -> int {
        self.0 as int / 0x100
    }

    /// The position of the address inside its page: its low byte.
    pub open spec fn offset(self) -> int {
        self.0 as int % 0x100
    }

    /// An address is made of its own offset and page number.
    pub proof fn lemma_offset_and_page_rebuild(self)
        ensures
            0 <= self.offset() < 0x100,
            0 <= self.page_number() < 0x100,
            join_bytes(self.offset(), self.page_number()) == self.0,
    {
    }

    /// The address made of an offset and a page number has that offset and
    /// that page number.
    pub proof fn lemma_offset_and_page_of_joined(offset: u8, page: u8)
        ensures
            0 <= join_bytes(offset as int, page as int) <= u16::MAX,
            Address(join_bytes(offset as int, page as int) as u16).offset() == offset,
            Address(join_bytes(offset as int, page as int) as u16).page_number() == page,
    {
    }

    /// The address with low byte `offset` and high byte `page`.
    pub fn new(offset: u8, page: u8) -> (address: Address)
        ensures
            address.0 == join_bytes(offset as int, page as int),
    {
        Address(page as u16 * 0x100 + offset as u16)
    }

    /// The address as a plain number.
    pub fn to_u16(&self) -> (value: u16)
        ensures
            value == self.0,
    {
        self.0
    }

    /// The address as an index into the address space.
    pub fn to_usize(&self) -> (index: usize)
        ensures
            index == self.0,
    {
        self.to_u16() as usize
    }

    /// The high byte of the address: the number of the page it lies in.
    pub fn get_page_number(&self) -> (page: u8)
        ensures
            page == self.page_number(),
    {
        (self.to_u16() / 0x100) as u8
    }

    /// The low byte of the address: its position inside its page.
    pub fn get_offset(&self) -> (offset: u8)
        ensures
            offset == self.offset(),
    {
        (self.to_u16() % 0x100) as u8
    }
}

} // verus!
