//! The state of the logical processor that the monitor copies into a VMCS,
//! and what the monitor asks of the processor without privilege.
//!
//! Reading a segment register or the flags and executing CPUID need no
//! privilege, so they are done here, through the x86 crate. The control
//! registers, the debug registers and the descriptor-table registers are
//! read in ring 0 by the code that embeds the monitor, which hands them over
//! in a [`ProcessorState`].
use vstd::prelude::*;
use crate::interrupts::IdtDescriptor;
use crate::segmentation::GdtDescriptor;

verus! {

/// The selectors in the six segment registers.
#[derive(Clone, Copy, Debug, PartialEq, Eq, Structural)]
pub struct SegmentSelectors {
    pub cs: u16,
    pub ds: u16,
    pub es: u16,
    pub fs: u16,
    pub gs: u16,
    pub ss: u16,
}

/// A snapshot of the registers from which the host-state and guest-state
/// areas of a VMCS are filled.
#[derive(Clone, Copy, Debug, PartialEq, Eq, Structural)]
pub struct ProcessorState {
    pub cr0: u64,
    pub cr3: u64,
    pub cr4: u64,
    pub dr7: u64,
    /// The value of the debug-control MSR.
    pub debug_control: u64,
    pub selectors: SegmentSelectors,
    /// The selector in the task register.
    pub tr: u16,
    /// The selector in the local descriptor table register.
    pub ldtr: u16,
    pub gdtr: GdtDescriptor,
    pub idtr: IdtDescriptor,
}

/// What CPUID returns in its four registers.
#[derive(Clone, Copy, Debug, PartialEq, Eq, Structural)]
pub struct CpuidResult {
    pub eax: u32,
    pub ebx: u32,
    pub ecx: u32,
    pub edx: u32,
}

/// Executes CPUID for the leaf and sub-leaf, through
/// `x86::cpuid::native_cpuid::cpuid_count`. What comes back depends on the
/// processor, and under a monitor on the monitor: nothing is claimed of it.
#[verifier::external_body]
pub(crate) fn cpuid_count(leaf: u32, sub_leaf: u32) -> (result: CpuidResult) {
    let registers = x86::cpuid::native_cpuid::cpuid_count(leaf, sub_leaf);
    CpuidResult {
        eax: registers.eax,
        ebx: registers.ebx,
        ecx: registers.ecx,
        edx: registers.edx,
    }
}

/// Executes CPUID for the leaf, with sub-leaf 0.
pub fn cpuid(leaf: u32) -> CpuidResult {
    cpuid_count(leaf, 0)
}

/// Reads the flags register with `x86::bits64::rflags::read`. Nothing is
/// claimed of the flags.
#[verifier::external_body]
pub fn read_flags() -> (flags: u64) {
    x86::bits64::rflags::read().bits()
}

/// The flags that the monitor never sets: the trap flag (bit 8), with which
/// the processor raises a debug exception after the next instruction; the
/// direction flag (bit 10), with which string operations run backwards; the
/// nested-task flag (bit 14); and the alignment-check flag (bit 18).
pub const FLAGS_NEVER_SET: u64 = 0x4_4500;

/// Writes the flags register with `x86::bits64::rflags::set`, which pushes
/// the value and pops it into the register. The flags in
/// [`FLAGS_NEVER_SET`] must be clear, since the code that follows the write
/// does not go on as written with one of them set. Nothing is claimed of
/// what the processor makes of the other flags.
#[verifier::external_body]
pub(crate) fn write_flags(flags: u64)
    requires
        flags & FLAGS_NEVER_SET == 0,
{
    x86::bits64::rflags::set(x86::bits64::rflags::RFlags::from_raw(flags))
}

/// Reads the code segment register with `x86::segmentation::cs`. Nothing is
/// claimed of the selector.
#[verifier::external_body]
pub fn read_cs() -> (selector: u16) {
    x86::segmentation::cs().bits()
}

/// Reads the stack segment register with `x86::segmentation::ss`. Nothing is
/// claimed of the selector.
#[verifier::external_body]
pub fn read_ss() -> (selector: u16) {
    x86::segmentation::ss().bits()
}

/// Reads the data segment register with `x86::segmentation::ds`. Nothing is
/// claimed of the selector.
#[verifier::external_body]
pub fn read_ds() -> (selector: u16) {
    x86::segmentation::ds().bits()
}

/// Reads the extra segment register with `x86::segmentation::es`. Nothing is
/// claimed of the selector.
#[verifier::external_body]
pub fn read_es() -> (selector: u16) {
    x86::segmentation::es().bits()
}

/// Reads the FS segment register with `x86::segmentation::fs`. Nothing is
/// claimed of the selector.
#[verifier::external_body]
pub fn read_fs() -> (selector: u16) {
    x86::segmentation::fs().bits()
}

/// Reads the GS segment register with `x86::segmentation::gs`. Nothing is
/// claimed of the selector.
#[verifier::external_body]
pub fn read_gs() -> (selector: u16) {
    x86::segmentation::gs().bits()
}

/// Reads the six segment registers of the processor that runs this code.
pub fn read_segment_selectors() -> SegmentSelectors {
    SegmentSelectors {
        cs: read_cs(),
        ds: read_ds(),
        es: read_es(),
        fs: read_fs(),
        gs: read_gs(),
        ss: read_ss(),
    }
}

} // verus!
