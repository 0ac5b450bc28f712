//! A mostly-passthrough virtual-machine monitor for x86-64: the lifecycle of a
//! virtual CPU, the handling of VM exits and the virtual local interrupt
//! controller, as verified logic over plain values.
//!
//! The privileged instructions themselves are executed by the code that
//! embeds the monitor. It hands the monitor what it read from the processor
//! and carries out what the monitor decides.
use vstd::prelude::*;

pub mod cli;
pub mod cpu;
pub mod gdt;
pub mod hypercall;
pub mod hypercall_handler;
pub mod interrupt_controller;
pub mod interrupts;
pub mod loader;
pub mod msr;
pub mod paging;
pub mod processor;
pub mod register_state;
pub mod segmentation;
pub mod uart;
pub mod vmcs;
pub mod vmcs_dump;
pub mod vmcs_fields;
pub mod vmexit_handlers;
pub mod vmx;

verus! {

/// The size of a page, and the most that a VMXON or VMCS region may take.
pub const PAGE_SIZE: usize = 0x1000;

/// The size of the revision identifier at the start of a VMXON or VMCS
/// region.
pub const REVISION_IDENTIFIER_SIZE: usize = 4;

/// Everything the monitor needs for one logical processor. The loader
/// allocates the regions and keeps them for as long as the monitor runs; the
/// monitor holds their addresses and never frees them.
#[derive(Clone, Copy, Debug, PartialEq, Eq, Structural)]
pub struct VCpu {
    /// The virtual address of this record. In host context the FS base points
    /// here, so that the monitor finds its record at `fs:0`.
    pub this_vcpu: u64,
    /// The virtual address of the VMXON region.
    pub vmxon_region: u64,
    /// The virtual address of the VMCS region.
    pub vmcs: u64,
    /// The physical address of the VMXON region.
    pub vmxon_region_phys: u64,
    /// The physical address of the VMCS region.
    pub vmcs_phys: u64,
    /// The size in bytes of the VMXON region.
    pub vmxon_region_size: usize,
    /// The size in bytes of the VMCS region.
    pub vmcs_size: usize,
    /// Whether the monitor loaded on this processor.
    pub loaded_successfully: bool,
    /// The lowest address of the host stack.
    pub stack_base: u64,
    /// The size in bytes of the host stack.
    pub stack_size: usize,
    /// The address at which the host stack starts to grow down.
    pub stack_top: u64,
    /// The virtual address of the host's global descriptor table.
    pub host_gdt_base: u64,
    /// The size in bytes of the host's global descriptor table, minus one.
    pub host_gdt_limit: u64,
    /// The virtual address of this processor's virtual local interrupt
    /// controller.
    pub virtual_local_interrupt_controller: u64,
    /// The physical address of the MSR bitmap, a zeroed page.
    pub msr_bitmap: u64,
    /// The virtual address of the host's task-state segment.
    pub tr_base: u64,
    /// The selector of the host's task-state segment.
    pub tr_selector: u16,
}

/// What the loader of an operating-system kernel allocates for one logical
/// processor: the two regions, by virtual and by physical address.
#[derive(Clone, Copy, Debug, PartialEq, Eq, Structural)]
pub struct PerCoreData {
    pub vmxon_region: u64,
    pub vmcs: u64,
    pub vmxon_region_phys: u64,
    pub vmcs_phys: u64,
    pub vmxon_region_size: usize,
    pub vmcs_size: usize,
    pub loaded_successfully: bool,
}

/// The status that the load of a logical processor hands to the loader: 0
/// for a processor that runs as the guest, -1 where VMX operation could not
/// be entered, and 1 where the guest could not be loaded.
pub open spec fn load_status(
    enabled: Result<(), vmx::VmxEnablementError>,
    loaded: Result<(), vmx::VmFail>,
) -> i32 {
    if enabled is Err {
        -1i32
    } else if loaded is Err {
        1i32
    } else {
        0i32
    }
}

/// Tells the loader how the load of a logical processor went.
pub fn core_load_status(
    enabled: Result<(), vmx::VmxEnablementError>,
    loaded: Result<(), vmx::VmFail>,
) -> (status: i32)
    ensures
        status == load_status(enabled, loaded),
        status == 0 <==> enabled is Ok && loaded is Ok,
{
    if enabled.is_err() {
        -1
    } else if loaded.is_err() {
        1
    } else {
        0
    }
}

impl VCpu {
    /// Whether a region of `size` bytes can be a VMXON or VMCS region: it
    /// fits in a page and has room for more than the revision identifier.
    pub open spec fn region_size_ok(size: usize) -> bool {
        REVISION_IDENTIFIER_SIZE < size <= PAGE_SIZE
    }

    /// The invariant of the record: both regions are page-aligned, virtually
    /// and physically, and of a valid size.
    pub open spec fn wf(&self) -> bool {
        &&& self.vmxon_region % 4096 == 0
        &&& self.vmxon_region_phys % 4096 == 0
        &&& self.vmcs % 4096 == 0
        &&& self.vmcs_phys % 4096 == 0
        &&& Self::region_size_ok(self.vmxon_region_size)
        &&& Self::region_size_ok(self.vmcs_size)
    }

    /// Checks the invariant of the record.
    pub fn is_valid(&self) -> (valid: bool)
        ensures
            valid == self.wf(),
    {
        self.vmxon_region % 4096 == 0 && self.vmxon_region_phys % 4096 == 0 && self.vmcs % 4096
            == 0 && self.vmcs_phys % 4096 == 0 && REVISION_IDENTIFIER_SIZE
            < self.vmxon_region_size && self.vmxon_region_size <= PAGE_SIZE
            && REVISION_IDENTIFIER_SIZE < self.vmcs_size && self.vmcs_size <= PAGE_SIZE
    }
}

} // verus!
