//! Addresses and page-table entries.
//!
//! The monitor lives in memory that the loader maps at a fixed distance from
//! its physical address. That distance is the offset between a physical and
//! a virtual address.
use vstd::prelude::*;

verus! {

/// The number of entries in a page table.
pub const PAGE_TABLE_SIZE: usize = 512;

/// The present bit of a page-table entry.
pub const PAGE_PRESENT: u64 = 0x1;

/// The writable bit of a page-table entry.
pub const PAGE_WRITABLE: u64 = 0x2;

/// The bits of a page-table entry that hold an address.
pub const PAGE_ADDRESS_MASK: u64 = 0x000f_ffff_ffff_f000;

/// A mapping of a physical address to a virtual address, as the loader tells
/// it to the monitor.
#[derive(Clone, Copy, Debug, PartialEq, Eq, Structural)]
pub struct Translation {
    pub phys: u64,
    pub virt: u64,
}

/// What the loader of an operating-system kernel hands to the monitor: the
/// heap and the mappings of the monitor's memory.
#[derive(Clone, Copy, Debug, PartialEq, Eq, Structural)]
pub struct KernelData {
    pub heap_size: u64,
    pub translations_count: u64,
    /// The address of the heap.
    pub heap: u64,
    /// The address of the first mapping.
    pub translations: u64,
}

/// The level of a page table in the hierarchy.
pub trait PageTableLevel {

}

/// The level of the table that CR3 names.
#[derive(Clone, Copy, Debug, PartialEq, Eq, Structural)]
pub enum Level4 {
    /// The one value of the level, which only marks a type.
    Level,
}

/// The level of a page-directory-pointer table.
#[derive(Clone, Copy, Debug, PartialEq, Eq, Structural)]
pub enum Level3 {
    /// The one value of the level, which only marks a type.
    Level,
}

/// The level of a page directory.
#[derive(Clone, Copy, Debug, PartialEq, Eq, Structural)]
pub enum Level2 {
    /// The one value of the level, which only marks a type.
    Level,
}

/// The level of a table of pages.
#[derive(Clone, Copy, Debug, PartialEq, Eq, Structural)]
pub enum Level1 {
    /// The one value of the level, which only marks a type.
    Level,
}

impl PageTableLevel for Level4 {

}

impl PageTableLevel for Level3 {

}

impl PageTableLevel for Level2 {

}

impl PageTableLevel for Level1 {

}

/// A level whose entries name tables of the next level.
pub trait HierarchicalLevel: PageTableLevel {
    type NextLevel: PageTableLevel;
}

impl HierarchicalLevel for Level4 {
    type NextLevel = Level3;
}

impl HierarchicalLevel for Level3 {
    type NextLevel = Level2;
}

impl HierarchicalLevel for Level2 {
    type NextLevel = Level1;
}

/// A virtual address.
#[derive(Clone, Copy, Debug, PartialEq, Eq, Structural)]
pub struct VirtualAddress(pub u64);

/// A physical address.
#[derive(Clone, Copy, Debug, PartialEq, Eq, Structural)]
pub struct PhysicalAddress(pub u64);

/// The distance from physical to virtual addresses that the first mapping
/// gives, as a number that is added modulo 2^64.
pub open spec fn offset_of(translation: Translation) -> u64 {
    translation.virt.wrapping_sub(translation.phys)
}

/// Takes the offset between physical and virtual addresses from the first
/// mapping. It fails where there is no mapping.
pub fn init(translations: &[Translation]) -> (offset: Result<u64, ()>)
    ensures
        translations@.len() == 0 ==> offset is Err,
        translations@.len() > 0 ==> offset == Ok::<u64, ()>(offset_of(translations@[0])),
{
    if translations.len() == 0 {
        return Err(());
    }
    let first = translations[0];
    Ok(first.virt.wrapping_sub(first.phys))
}

impl PhysicalAddress {
    /// The virtual address at which the physical address is mapped.
    pub fn as_virtual_address(&self, offset: u64) -> (virt: VirtualAddress)
        ensures
            virt.0 == self.0.wrapping_add(offset),
    {
        VirtualAddress(self.0.wrapping_add(offset))
    }
}

impl VirtualAddress {
    /// The physical address that is mapped at the virtual address.
    pub fn as_physical_address(&self, offset: u64) -> (phys: PhysicalAddress)
        ensures
            phys.0 == self.0.wrapping_sub(offset),
    {
        PhysicalAddress(self.0.wrapping_sub(offset))
    }

    /// The nine bits of the address from bit `shift` on.
    pub open spec fn index_at(&self, shift: u64) -> usize {
        ((self.0 >> shift) & 0o777) as usize
    }

    /// The index into the table of level 4.
    pub fn p4_index(&self) -> (index: usize)
        ensures
            index == self.index_at(27),
            index < PAGE_TABLE_SIZE,
    {
        let address: u64 = self.0;
        let index: u64 = (address >> 27) & 0o777;
        assert(index < 512) by (bit_vector)
            requires
                index == (address >> 27) & 0o777,
        ;
        index as usize
    }

    /// The index into the table of level 3.
    pub fn p3_index(&self) -> (index: usize)
        ensures
            index == self.index_at(18),
            index < PAGE_TABLE_SIZE,
    {
        let address: u64 = self.0;
        let index: u64 = (address >> 18) & 0o777;
        assert(index < 512) by (bit_vector)
            requires
                index == (address >> 18) & 0o777,
        ;
        index as usize
    }

    /// The index into the table of level 2.
    pub fn p2_index(&self) -> (index: usize)
        ensures
            index == self.index_at(9),
            index < PAGE_TABLE_SIZE,
    {
        let address: u64 = self.0;
        let index: u64 = (address >> 9) & 0o777;
        assert(index < 512) by (bit_vector)
            requires
                index == (address >> 9) & 0o777,
        ;
        index as usize
    }

    /// The index into the table of level 1.
    pub fn p1_index(&self) -> (index: usize)
        ensures
            index == self.index_at(0),
            index < PAGE_TABLE_SIZE,
    {
        let address: u64 = self.0;
        let index: u64 = (address >> 0) & 0o777;
        assert(index < 512) by (bit_vector)
            requires
                index == (address >> 0) & 0o777,
        ;
        index as usize
    }
}

/// An entry of a page table.
#[derive(Clone, Copy, Debug, Default, PartialEq, Eq, Structural)]
pub struct PageTableEntry(pub u64);

impl PageTableEntry {
    /// Replaces the entry.
    pub fn set(&mut self, flags: u64)
        ensures
            final(self).0 == flags,
    {
        self.0 = flags;
    }

    /// Whether the entry is present.
    pub fn is_present(&self) -> (present: bool)
        ensures
            present == (self.0 & PAGE_PRESENT != 0),
    {
        self.0 & PAGE_PRESENT != 0
    }

    /// The address that the entry holds, without its flags.
    pub fn as_virtual_address(&self) -> (address: VirtualAddress)
        ensures
            address.0 == self.0 & PAGE_ADDRESS_MASK,
            address.0 % 4096 == 0,
    {
        let entry: u64 = self.0;
        let address: u64 = entry & PAGE_ADDRESS_MASK;
        assert(address % 4096 == 0) by (bit_vector)
            requires
                address == entry & 0x000f_ffff_ffff_f000u64,
        ;
        VirtualAddress(address)
    }
}

} // verus!
