//! What a loader computes for a logical processor once it has allocated the
//! memory: the record of the processor and the descriptor of the host's
//! task-state segment.
use vstd::prelude::*;
use crate::segmentation::{GdtEntry64, GDT_ENTRY_SIZE};
use crate::{VCpu, PAGE_SIZE};

verus! {

/// The size in bytes of a 64-bit task-state segment.
pub const TSS_SIZE: usize = 104;

/// The access byte of the descriptor of the host's task-state segment.
pub const TSS_DESCRIPTOR_ACCESS: u8 = 0xe9;

/// The memory that a loader allocated for a logical processor.
#[derive(Clone, Copy, Debug, PartialEq, Eq, Structural)]
pub struct VCpuAllocation {
    /// The virtual address of the record of the processor.
    pub vcpu: u64,
    /// The virtual address of the task-state segment.
    pub tss: u64,
    /// The virtual address of the virtual local interrupt controller.
    pub virtual_local_interrupt_controller: u64,
    /// The virtual and the physical address of the page of the VMXON region.
    pub vmxon_region: u64,
    pub vmxon_region_phys: u64,
    /// The virtual and the physical address of the page of the VMCS.
    pub vmcs: u64,
    pub vmcs_phys: u64,
    /// The virtual address of the stack and its size in pages.
    pub stack: u64,
    pub stack_pages: usize,
    /// The physical address of the page of the MSR bitmap.
    pub msr_bitmap_phys: u64,
    /// The virtual address of the host's descriptor table and its size in
    /// bytes.
    pub host_gdt: u64,
    pub host_gdt_size: usize,
}

/// Whether a record can be made of the allocation for a processor whose
/// descriptor table has `gdt_entries` descriptors: the host's table is not
/// empty, the stack does not wrap around the address space, and the
/// selector of the descriptor behind the processor's own fits in 16 bits.
pub open spec fn allocation_usable(allocation: VCpuAllocation, gdt_entries: usize) -> bool {
    &&& allocation.host_gdt_size > 0
    &&& allocation.stack_pages * PAGE_SIZE <= usize::MAX
    &&& allocation.stack + allocation.stack_pages * PAGE_SIZE <= u64::MAX
    &&& gdt_entries * GDT_ENTRY_SIZE <= u16::MAX
}

/// The record of the processor for the allocation. Both regions take a page.
/// The host's task register selects the descriptor that the loader appends
/// to a copy of the processor's descriptor table.
pub open spec fn vcpu_of(allocation: VCpuAllocation, gdt_entries: usize) -> VCpu {
    VCpu {
        this_vcpu: allocation.vcpu,
        vmxon_region: allocation.vmxon_region,
        vmcs: allocation.vmcs,
        vmxon_region_phys: allocation.vmxon_region_phys,
        vmcs_phys: allocation.vmcs_phys,
        vmxon_region_size: PAGE_SIZE,
        vmcs_size: PAGE_SIZE,
        loaded_successfully: false,
        stack_base: allocation.stack,
        stack_size: (allocation.stack_pages * PAGE_SIZE) as usize,
        stack_top: (allocation.stack + allocation.stack_pages * PAGE_SIZE) as u64,
        host_gdt_base: allocation.host_gdt,
        host_gdt_limit: (allocation.host_gdt_size - 1) as u64,
        virtual_local_interrupt_controller: allocation.virtual_local_interrupt_controller,
        msr_bitmap: allocation.msr_bitmap_phys,
        tr_base: allocation.tss,
        tr_selector: (gdt_entries * GDT_ENTRY_SIZE) as u16,
    }
}

/// Tells whether a record can be made of the allocation.
pub fn is_allocation_usable(allocation: &VCpuAllocation, gdt_entries: usize) -> (usable: bool)
    ensures
        usable == allocation_usable(*allocation, gdt_entries),
{
    if allocation.host_gdt_size == 0 || gdt_entries > 8191 {
        return false;
    }
    match allocation.stack_pages.checked_mul(PAGE_SIZE) {
        Some(stack_size) => stack_size as u64 <= u64::MAX - allocation.stack,
        None => false,
    }
}

/// Fills in the record of a logical processor.
pub fn create_vcpu(allocation: &VCpuAllocation, gdt_entries: usize) -> (vcpu: VCpu)
    requires
        allocation_usable(*allocation, gdt_entries),
    ensures
        vcpu == vcpu_of(*allocation, gdt_entries),
        vcpu.tr_selector & 0x7 == 0,
        allocation.vmxon_region % 4096 == 0 && allocation.vmxon_region_phys % 4096 == 0
            && allocation.vmcs % 4096 == 0 && allocation.vmcs_phys % 4096 == 0 ==> vcpu.wf(),
{
    let stack_size: usize = allocation.stack_pages * PAGE_SIZE;
    let tr_selector: u16 = (gdt_entries * GDT_ENTRY_SIZE) as u16;
    assert(tr_selector & 0x7 == 0) by (bit_vector)
        requires
            tr_selector % 8 == 0,
    ;
    VCpu {
        this_vcpu: allocation.vcpu,
        vmxon_region: allocation.vmxon_region,
        vmcs: allocation.vmcs,
        vmxon_region_phys: allocation.vmxon_region_phys,
        vmcs_phys: allocation.vmcs_phys,
        vmxon_region_size: PAGE_SIZE,
        vmcs_size: PAGE_SIZE,
        loaded_successfully: false,
        stack_base: allocation.stack,
        stack_size,
        stack_top: allocation.stack + stack_size as u64,
        host_gdt_base: allocation.host_gdt,
        host_gdt_limit: (allocation.host_gdt_size - 1) as u64,
        virtual_local_interrupt_controller: allocation.virtual_local_interrupt_controller,
        msr_bitmap: allocation.msr_bitmap_phys,
        tr_base: allocation.tss,
        tr_selector,
    }
}

/// The descriptor of an available 64-bit task-state segment at `tss_base`,
/// with the address in four pieces.
pub open spec fn tss_descriptor_of(tss_base: u64) -> GdtEntry64 {
    GdtEntry64 {
        limit_low: (TSS_SIZE - 1) as u16,
        base_low: (tss_base & 0xffff) as u16,
        base_middle: ((tss_base >> 16) & 0xff) as u8,
        access: TSS_DESCRIPTOR_ACCESS,
        granularity: 0,
        base_high: ((tss_base >> 24) & 0xff) as u8,
        base_highest: (tss_base >> 32) as u32,
        reserved0: 0,
    }
}

/// The address of the segment that a descriptor of sixteen bytes describes.
pub open spec fn descriptor64_base(entry: GdtEntry64) -> u64 {
    ((entry.base_highest as u64) << 32) | ((entry.base_high as u64) << 24) | ((
    entry.base_middle as u64) << 16) | (entry.base_low as u64)
}

/// Makes the descriptor of the host's task-state segment.
pub fn tss_descriptor(tss_base: u64) -> (descriptor: GdtEntry64)
    ensures
        descriptor == tss_descriptor_of(tss_base),
        descriptor64_base(descriptor) == tss_base,
{
    let low: u64 = tss_base & 0xffff;
    let middle: u64 = (tss_base >> 16) & 0xff;
    let high: u64 = (tss_base >> 24) & 0xff;
    let highest: u64 = tss_base >> 32;
    assert(low <= 0xffff && middle <= 0xff && high <= 0xff && highest <= 0xffff_ffff && ((highest
        << 32) | (high << 24) | (middle << 16) | low) == tss_base) by (bit_vector)
        requires
            low == tss_base & 0xffff,
            middle == (tss_base >> 16) & 0xff,
            high == (tss_base >> 24) & 0xff,
            highest == tss_base >> 32,
    ;
    GdtEntry64 {
        limit_low: 103,
        base_low: low as u16,
        base_middle: middle as u8,
        access: TSS_DESCRIPTOR_ACCESS,
        granularity: 0,
        base_high: high as u8,
        base_highest: highest as u32,
        reserved0: 0,
    }
}

} // verus!
