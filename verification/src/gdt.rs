//! The global descriptor table that the monitor brings along for long mode.
use vstd::prelude::*;
use crate::cli::ClearLocalInterrupts;

verus! {

/// The number of descriptors in the monitor's table.
pub const GDT_LENGTH: usize = 3;

/// The size in bytes of a descriptor of the monitor's table.
pub const GDT_DESCRIPTOR_SIZE: usize = 16;

/// A descriptor of sixteen bytes.
#[derive(Clone, Copy, Debug, PartialEq, Eq, Structural)]
pub struct GDTEntry {
    pub limit_low: u16,
    pub base_low: u16,
    pub base_middle: u8,
    pub access: u8,
    pub granularity: u8,
    pub base_high: u8,
    pub base_highest: u32,
    pub reserved0: u32,
}

/// A flat descriptor with the access byte: base 0, limit 0xfffff in pages.
pub open spec fn flat_descriptor(access: u8) -> GDTEntry {
    GDTEntry {
        limit_low: 0xffff,
        base_low: 0,
        base_middle: 0,
        access,
        granularity: 0xf7,
        base_high: 0,
        base_highest: 0,
        reserved0: 0,
    }
}

/// The null descriptor.
pub open spec fn null_descriptor() -> GDTEntry {
    GDTEntry {
        limit_low: 0,
        base_low: 0,
        base_middle: 0,
        access: 0,
        granularity: 0,
        base_high: 0,
        base_highest: 0,
        reserved0: 0,
    }
}

/// The descriptors of the monitor's table: the null descriptor and two flat
/// segments.
pub fn host_gdt() -> (gdt: [GDTEntry; 3])
    ensures
        gdt[0] == null_descriptor(),
        gdt[1] == flat_descriptor(0xa9),
        gdt[2] == flat_descriptor(0x29),
{
    [
        GDTEntry {
            limit_low: 0,
            base_low: 0,
            base_middle: 0,
            access: 0,
            granularity: 0,
            base_high: 0,
            base_highest: 0,
            reserved0: 0,
        },
        GDTEntry {
            limit_low: 0xffff,
            base_low: 0,
            base_middle: 0,
            access: 0xa9,
            granularity: 0xf7,
            base_high: 0,
            base_highest: 0,
            reserved0: 0,
        },
        GDTEntry {
            limit_low: 0xffff,
            base_low: 0,
            base_middle: 0,
            access: 0x29,
            granularity: 0xf7,
            base_high: 0,
            base_highest: 0,
            reserved0: 0,
        },
    ]
}

/// The contents of the global descriptor table register.
#[derive(Clone, Copy, Debug, Default, PartialEq, Eq, Structural)]
pub struct GDTDescriptor {
    /// The size of the table in bytes, minus one.
    pub limit: u16,
    /// The virtual address of the table.
    pub base: u64,
}

impl GDTDescriptor {
    /// What the register holds for the monitor's table at the address, to be
    /// loaded with interrupts disabled.
    pub fn new(base: u64) -> (descriptor: ClearLocalInterrupts<GDTDescriptor>)
        ensures
            descriptor.value() == (GDTDescriptor {
                limit: (GDT_LENGTH * GDT_DESCRIPTOR_SIZE - 1) as u16,
                base,
            }),
    {
        ClearLocalInterrupts::new(GDTDescriptor { limit: 47, base })
    }
}

} // verus!
