//! Filling a freshly loaded VMCS: the execution, exit and entry controls that
//! the processor allows, the host state to come back to on a VM exit, and the
//! guest state to enter with.
//!
//! The monitor is a passthrough: host and guest state are both the state of
//! the processor as it is, so that the caller goes on as the guest.
use vstd::prelude::*;
use crate::msr::{rdmsr, Msr, MsrBank};
use crate::processor::ProcessorState;
use crate::segmentation::{
    is_selector_in_table,
    selector_in_table,
    unpack_gdt_entry,
    unpacked_entry,
    GdtEntry,
    UnpackedGdtEntry,
};
use crate::vmcs_fields::{
    VmcsField,
    CPU_BASED_CONTROLS_MSR_BITMAPS,
    CPU_BASED_CONTROLS_SECONDARY_ENABLE,
    SECONDARY_CPU_BASED_CONTROLS_INVPCID_ENABLE,
    SECONDARY_CPU_BASED_CONTROLS_RDTSCP_ENABLE,
    SECONDARY_CPU_BASED_CONTROLS_XSAVES_ENABLE,
    VM_ENTRY_IA32E_MODE,
    VM_EXIT_CONCEAL_VMX_FROM_PT,
    VM_EXIT_IA32E_MODE,
};
use crate::vmx::{vmwrite_all, VmFail, Vmcs, VmcsWrite};
use crate::VCpu;

verus! {

/// The secondary processor-based controls that the monitor asks for.
pub const REQUESTED_SECONDARY_CONTROLS: u64 = SECONDARY_CPU_BASED_CONTROLS_RDTSCP_ENABLE
    | SECONDARY_CPU_BASED_CONTROLS_INVPCID_ENABLE | SECONDARY_CPU_BASED_CONTROLS_XSAVES_ENABLE;

/// The pin-based controls that the monitor asks for: none.
pub const REQUESTED_PIN_BASED_CONTROLS: u64 = 0;

/// The primary processor-based controls that the monitor asks for.
pub const REQUESTED_CPU_BASED_CONTROLS: u64 = CPU_BASED_CONTROLS_MSR_BITMAPS
    | CPU_BASED_CONTROLS_SECONDARY_ENABLE;

/// The VM-exit controls that the monitor asks for.
pub const REQUESTED_EXIT_CONTROLS: u64 = VM_EXIT_IA32E_MODE | VM_EXIT_CONCEAL_VMX_FROM_PT;

/// The VM-entry controls that the monitor asks for.
pub const REQUESTED_ENTRY_CONTROLS: u64 = VM_ENTRY_IA32E_MODE;

/// The countdown that a fresh VMCS gets for the VMX-preemption timer.
pub const INITIAL_PREEMPTION_TIMER_VALUE: u64 = 0xfffff;

/// The access rights given to a task register that unpacks as unusable:
/// present, busy 64-bit TSS.
pub const FALLBACK_TR_ACCESS_RIGHTS: u32 = 0x8b;

/// The controls that the processor allows for a request: every bit of
/// `fixed1` is forced on, and of the requested bits those outside `fixed0`
/// are dropped.
pub open spec fn adjusted_controls(requested: u64, fixed0: u32, fixed1: u32) -> u64 {
    (fixed1 as u64) | (requested & (fixed0 as u64))
}

/// Adjusts the 32 bits of requested controls to what the capability MSR of
/// the control allows, where `fixed0` is the upper half of that MSR and
/// `fixed1` its lower half.
pub fn adjust_value_based_on_msr(requested: u64, fixed0: u32, fixed1: u32) -> (allowed: u64)
    requires
        requested <= u32::MAX,
    ensures
        allowed == adjusted_controls(requested, fixed0, fixed1),
        allowed & (fixed1 as u64) == fixed1 as u64,
        allowed & !((fixed0 as u64) | (fixed1 as u64)) == 0,
        allowed <= u32::MAX,
{
    let controls: u32 = requested as u32;
    let allowed: u32 = fixed1 | (controls & fixed0);
    assert(allowed as u64 == (fixed1 as u64) | (requested & (fixed0 as u64)) && (allowed as u64) & (
    fixed1 as u64) == fixed1 as u64 && (allowed as u64) & !((fixed0 as u64) | (fixed1 as u64))
        == 0) by (bit_vector)
        requires
            requested <= 0xffff_ffff,
            controls == requested as u32,
            allowed == fixed1 | (controls & fixed0),
    ;
    allowed as u64
}

/// The requested controls that the processor does not allow and that the
/// adjustment drops: those outside `fixed0`.
pub open spec fn dropped_controls(requested: u64, fixed0: u32) -> u64 {
    requested & !(fixed0 as u64)
}

/// Tells which of the requested controls the adjustment drops, so that the
/// loss can be logged. Nothing is dropped exactly when every requested bit
/// is in `fixed0`.
pub fn unsupported_controls(requested: u64, fixed0: u32) -> (dropped: u64)
    ensures
        dropped == dropped_controls(requested, fixed0),
        dropped == 0 <==> requested & (fixed0 as u64) == requested,
        dropped | (requested & (fixed0 as u64)) == requested,
{
    let dropped: u64 = requested & !(fixed0 as u64);
    assert((dropped == 0 <==> requested & (fixed0 as u64) == requested) && dropped | (requested & (
    fixed0 as u64)) == requested) by (bit_vector)
        requires
            dropped == requested & !(fixed0 as u64),
    ;
    dropped
}

/// What the adjustment is worth: a request for nothing on a processor that
/// forces and allows nothing gives nothing; a bit that `fixed1` forces is in
/// the result whether it was requested or not; and a bit that neither
/// `fixed1` forces nor `fixed0` allows is not.
pub proof fn lemma_adjusted_controls(requested: u64, fixed0: u32, fixed1: u32, bit: u64)
    ensures
        adjusted_controls(0, 0, 0) == 0,
        (fixed1 as u64) & bit == bit ==> adjusted_controls(requested, fixed0, fixed1) & bit == bit,
        (fixed1 as u64) & bit == 0 && (fixed0 as u64) & bit == 0 ==> adjusted_controls(
            requested,
            fixed0,
            fixed1,
        ) & bit == 0,
{
    assert((0u32 as u64) | (0u64 & (0u32 as u64)) == 0) by (bit_vector);
    assert((fixed1 as u64) & bit == bit ==> ((fixed1 as u64) | (requested & (fixed0 as u64))) & bit
        == bit) by (bit_vector);
    assert((fixed1 as u64) & bit == 0 && (fixed0 as u64) & bit == 0 ==> ((fixed1 as u64) | (
    requested & (fixed0 as u64))) & bit == 0) by (bit_vector);
}

/// The controls that `msr` allows for `requested`.
pub open spec fn controls_for(msrs: &MsrBank, msr: Msr, requested: u64) -> u64 {
    adjusted_controls(requested, msrs.pair(msr).edx, msrs.pair(msr).eax)
}

/// The writes that set the controls of a VMCS, in the order in which they are
/// made.
pub open spec fn vm_control_writes(vcpu: &VCpu, msrs: &MsrBank) -> Seq<VmcsWrite> {
    seq![
        VmcsWrite {
            field: VmcsField::SecondaryVmExecControl,
            value: controls_for(msrs, Msr::Ia32VmxProcBasedControls2, REQUESTED_SECONDARY_CONTROLS),
        },
        VmcsWrite {
            field: VmcsField::PinBasedVmExecControl,
            value: controls_for(msrs, Msr::Ia32VmxPinBasedControls, REQUESTED_PIN_BASED_CONTROLS),
        },
        VmcsWrite {
            field: VmcsField::VmxPreemptionTimerValue,
            value: INITIAL_PREEMPTION_TIMER_VALUE,
        },
        VmcsWrite {
            field: VmcsField::CpuBasedVmExecControl,
            value: controls_for(msrs, Msr::Ia32VmxProcBasedControls, REQUESTED_CPU_BASED_CONTROLS),
        },
        VmcsWrite {
            field: VmcsField::VmExitControls,
            value: controls_for(msrs, Msr::Ia32VmxExitControls, REQUESTED_EXIT_CONTROLS),
        },
        VmcsWrite {
            field: VmcsField::VmEntryControls,
            value: controls_for(msrs, Msr::Ia32VmxEntryControls, REQUESTED_ENTRY_CONTROLS),
        },
        VmcsWrite { field: VmcsField::MsrBitmap, value: vcpu.msr_bitmap },
    ]
}

/// Adjusts `requested` to what `msr` allows.
fn adjust_for(msrs: &MsrBank, msr: Msr, requested: u64) -> (allowed: u64)
    requires
        requested <= u32::MAX,
    ensures
        allowed == controls_for(msrs, msr, requested),
{
    let pair = rdmsr(msrs, msr);
    adjust_value_based_on_msr(requested, pair.edx, pair.eax)
}

/// Computes the writes that set the controls of a VMCS.
pub fn compute_vm_control_writes(vcpu: &VCpu, msrs: &MsrBank) -> (writes: Vec<VmcsWrite>)
    ensures
        writes@ == vm_control_writes(vcpu, msrs),
{
    assert(REQUESTED_SECONDARY_CONTROLS <= 0xffff_ffff && REQUESTED_CPU_BASED_CONTROLS
        <= 0xffff_ffff && REQUESTED_EXIT_CONTROLS <= 0xffff_ffff) by (bit_vector);
    let mut writes: Vec<VmcsWrite> = Vec::new();
    writes.push(
        VmcsWrite {
            field: VmcsField::SecondaryVmExecControl,
            value: adjust_for(msrs, Msr::Ia32VmxProcBasedControls2, REQUESTED_SECONDARY_CONTROLS),
        },
    );
    writes.push(
        VmcsWrite {
            field: VmcsField::PinBasedVmExecControl,
            value: adjust_for(msrs, Msr::Ia32VmxPinBasedControls, REQUESTED_PIN_BASED_CONTROLS),
        },
    );
    writes.push(
        VmcsWrite {
            field: VmcsField::VmxPreemptionTimerValue,
            value: INITIAL_PREEMPTION_TIMER_VALUE,
        },
    );
    writes.push(
        VmcsWrite {
            field: VmcsField::CpuBasedVmExecControl,
            value: adjust_for(msrs, Msr::Ia32VmxProcBasedControls, REQUESTED_CPU_BASED_CONTROLS),
        },
    );
    writes.push(
        VmcsWrite {
            field: VmcsField::VmExitControls,
            value: adjust_for(msrs, Msr::Ia32VmxExitControls, REQUESTED_EXIT_CONTROLS),
        },
    );
    writes.push(
        VmcsWrite {
            field: VmcsField::VmEntryControls,
            value: adjust_for(msrs, Msr::Ia32VmxEntryControls, REQUESTED_ENTRY_CONTROLS),
        },
    );
    writes.push(VmcsWrite { field: VmcsField::MsrBitmap, value: vcpu.msr_bitmap });
    writes
}

/// Writes the execution, exit and entry controls, the preemption timer value
/// and the address of the MSR bitmap. The first write that fails ends it.
pub fn initialize_vm_control_values(vcpu: &VCpu, msrs: &MsrBank, vmcs: &mut Vmcs) -> (result:
    Result<(), VmFail>)
    ensures
        result == old(vmcs)@.write_all_result(vm_control_writes(vcpu, msrs)),
        final(vmcs)@ == old(vmcs)@.write_all(vm_control_writes(vcpu, msrs)),
{
    let writes = compute_vm_control_writes(vcpu, msrs);
    vmwrite_all(vmcs, &writes)
}

/// The writes that set the host-state area of a VMCS, in the order in which
/// they are made. `host_idt_base` is the address of the monitor's interrupt
/// descriptor table and `host_entrypoint` the address at which the processor
/// goes on after a VM exit.
pub open spec fn host_state_writes(
    vcpu: &VCpu,
    cpu: &ProcessorState,
    host_idt_base: u64,
    host_entrypoint: u64,
) -> Seq<VmcsWrite> {
    seq![
        VmcsWrite { field: VmcsField::HostCr0, value: cpu.cr0 },
        VmcsWrite { field: VmcsField::HostCr3, value: cpu.cr3 },
        VmcsWrite { field: VmcsField::HostCr4, value: cpu.cr4 },
        VmcsWrite { field: VmcsField::HostCsSelector, value: cpu.selectors.cs as u64 },
        VmcsWrite { field: VmcsField::HostDsSelector, value: cpu.selectors.ds as u64 },
        VmcsWrite { field: VmcsField::HostEsSelector, value: cpu.selectors.es as u64 },
        VmcsWrite { field: VmcsField::HostFsSelector, value: cpu.selectors.fs as u64 },
        VmcsWrite { field: VmcsField::HostGsSelector, value: cpu.selectors.gs as u64 },
        VmcsWrite { field: VmcsField::HostSsSelector, value: cpu.selectors.ss as u64 },
        VmcsWrite { field: VmcsField::HostTrSelector, value: vcpu.tr_selector as u64 },
        VmcsWrite { field: VmcsField::HostTrBase, value: vcpu.tr_base },
        VmcsWrite { field: VmcsField::HostGdtrBase, value: vcpu.host_gdt_base },
        VmcsWrite { field: VmcsField::HostIdtrBase, value: host_idt_base },
        VmcsWrite { field: VmcsField::HostFsBase, value: vcpu.this_vcpu },
        VmcsWrite { field: VmcsField::HostGsBase, value: 0 },
        VmcsWrite { field: VmcsField::HostRsp, value: vcpu.stack_top },
        VmcsWrite { field: VmcsField::HostRip, value: host_entrypoint },
    ]
}

/// Computes the writes that set the host-state area of a VMCS.
pub fn compute_host_state_writes(
    vcpu: &VCpu,
    cpu: &ProcessorState,
    host_idt_base: u64,
    host_entrypoint: u64,
) -> (writes: Vec<VmcsWrite>)
    ensures
        writes@ == host_state_writes(vcpu, cpu, host_idt_base, host_entrypoint),
{
    let mut writes: Vec<VmcsWrite> = Vec::new();
    writes.push(VmcsWrite { field: VmcsField::HostCr0, value: cpu.cr0 });
    writes.push(VmcsWrite { field: VmcsField::HostCr3, value: cpu.cr3 });
    writes.push(VmcsWrite { field: VmcsField::HostCr4, value: cpu.cr4 });
    writes.push(VmcsWrite { field: VmcsField::HostCsSelector, value: cpu.selectors.cs as u64 });
    writes.push(VmcsWrite { field: VmcsField::HostDsSelector, value: cpu.selectors.ds as u64 });
    writes.push(VmcsWrite { field: VmcsField::HostEsSelector, value: cpu.selectors.es as u64 });
    writes.push(VmcsWrite { field: VmcsField::HostFsSelector, value: cpu.selectors.fs as u64 });
    writes.push(VmcsWrite { field: VmcsField::HostGsSelector, value: cpu.selectors.gs as u64 });
    writes.push(VmcsWrite { field: VmcsField::HostSsSelector, value: cpu.selectors.ss as u64 });
    writes.push(VmcsWrite { field: VmcsField::HostTrSelector, value: vcpu.tr_selector as u64 });
    writes.push(VmcsWrite { field: VmcsField::HostTrBase, value: vcpu.tr_base });
    writes.push(VmcsWrite { field: VmcsField::HostGdtrBase, value: vcpu.host_gdt_base });
    writes.push(VmcsWrite { field: VmcsField::HostIdtrBase, value: host_idt_base });
    writes.push(VmcsWrite { field: VmcsField::HostFsBase, value: vcpu.this_vcpu });
    writes.push(VmcsWrite { field: VmcsField::HostGsBase, value: 0 });
    writes.push(VmcsWrite { field: VmcsField::HostRsp, value: vcpu.stack_top });
    writes.push(VmcsWrite { field: VmcsField::HostRip, value: host_entrypoint });
    writes
}

/// Writes the host-state area: the control registers and segment selectors
/// of the processor as it is, the task register, descriptor tables and stack
/// that the loader supplied, the record of this processor as the FS base, and
/// the entry point. The first write that fails ends it.
///
/// The selector of the host's task-state segment must name the global
/// descriptor table with privilege level 0, or VM entry would fail.
pub fn initialize_host_state(
    vcpu: &VCpu,
    cpu: &ProcessorState,
    host_idt_base: u64,
    host_entrypoint: u64,
    vmcs: &mut Vmcs,
) -> (result: Result<(), VmFail>)
    requires
        vcpu.tr_selector & 0x7 == 0,
    ensures
        result == old(vmcs)@.write_all_result(
            host_state_writes(vcpu, cpu, host_idt_base, host_entrypoint),
        ),
        final(vmcs)@ == old(vmcs)@.write_all(
            host_state_writes(vcpu, cpu, host_idt_base, host_entrypoint),
        ),
{
    let writes = compute_host_state_writes(vcpu, cpu, host_idt_base, host_entrypoint);
    vmwrite_all(vmcs, &writes)
}

/// The four writes that set a segment register of the guest: selector, limit,
/// access rights and base.
pub open spec fn segment_writes(
    selector_field: VmcsField,
    limit_field: VmcsField,
    access_rights_field: VmcsField,
    base_field: VmcsField,
    unpacked: UnpackedGdtEntry,
    access_rights: u32,
) -> Seq<VmcsWrite> {
    seq![
        VmcsWrite { field: selector_field, value: unpacked.selector as u64 },
        VmcsWrite { field: limit_field, value: unpacked.limit },
        VmcsWrite { field: access_rights_field, value: access_rights as u64 },
        VmcsWrite { field: base_field, value: unpacked.base },
    ]
}

/// The access rights that the guest's task register gets: its own where the
/// descriptor is usable, and those of a busy 64-bit TSS where it is not,
/// that is for the null selector and for a descriptor that is not present,
/// since VM entry takes no unusable task register.
pub open spec fn guest_tr_access_rights(unpacked: UnpackedGdtEntry) -> u32 {
    if unpacked.spec_is_usable() {
        unpacked.access_rights
    } else {
        FALLBACK_TR_ACCESS_RIGHTS
    }
}

/// Whether every selector of `cpu` can be unpacked from a table of `len`
/// descriptors.
pub open spec fn selectors_in_table(cpu: &ProcessorState, len: nat) -> bool {
    &&& selector_in_table(len, cpu.selectors.cs)
    &&& selector_in_table(len, cpu.selectors.ds)
    &&& selector_in_table(len, cpu.selectors.es)
    &&& selector_in_table(len, cpu.selectors.fs)
    &&& selector_in_table(len, cpu.selectors.gs)
    &&& selector_in_table(len, cpu.selectors.ss)
    &&& selector_in_table(len, cpu.tr)
    &&& selector_in_table(len, cpu.ldtr)
}

/// Tells whether every selector of `cpu` can be unpacked from a table of
/// `len` descriptors.
pub fn are_selectors_in_table(cpu: &ProcessorState, len: usize) -> (in_table: bool)
    ensures
        in_table == selectors_in_table(cpu, len as nat),
{
    is_selector_in_table(len, cpu.selectors.cs) && is_selector_in_table(len, cpu.selectors.ds)
        && is_selector_in_table(len, cpu.selectors.es) && is_selector_in_table(
        len,
        cpu.selectors.fs,
    ) && is_selector_in_table(len, cpu.selectors.gs) && is_selector_in_table(
        len,
        cpu.selectors.ss,
    ) && is_selector_in_table(len, cpu.tr) && is_selector_in_table(len, cpu.ldtr)
}

/// The writes that set the guest-state area of a VMCS, in the order in which
/// they are made.
pub open spec fn guest_state_writes(cpu: &ProcessorState, gdt: Seq<GdtEntry>) -> Seq<VmcsWrite> {
    let cs = unpacked_entry(gdt, cpu.selectors.cs);
    let ds = unpacked_entry(gdt, cpu.selectors.ds);
    let es = unpacked_entry(gdt, cpu.selectors.es);
    let fs = unpacked_entry(gdt, cpu.selectors.fs);
    let gs = unpacked_entry(gdt, cpu.selectors.gs);
    let ss = unpacked_entry(gdt, cpu.selectors.ss);
    let tr = unpacked_entry(gdt, cpu.tr);
    let ldtr = unpacked_entry(gdt, cpu.ldtr);
    (seq![
        VmcsWrite { field: VmcsField::VmcsLinkPointer, value: u64::MAX },
        VmcsWrite { field: VmcsField::GuestIdtrLimit, value: cpu.idtr.limit as u64 },
        VmcsWrite { field: VmcsField::GuestIdtrBase, value: cpu.idtr.base },
        VmcsWrite { field: VmcsField::GuestGdtrLimit, value: cpu.gdtr.limit as u64 },
        VmcsWrite { field: VmcsField::GuestGdtrBase, value: cpu.gdtr.base },
    ] + segment_writes(
        VmcsField::GuestCsSelector,
        VmcsField::GuestCsLimit,
        VmcsField::GuestCsArBytes,
        VmcsField::GuestCsBase,
        cs,
        cs.access_rights,
    ) + segment_writes(
        VmcsField::GuestDsSelector,
        VmcsField::GuestDsLimit,
        VmcsField::GuestDsArBytes,
        VmcsField::GuestDsBase,
        ds,
        ds.access_rights,
    ) + segment_writes(
        VmcsField::GuestEsSelector,
        VmcsField::GuestEsLimit,
        VmcsField::GuestEsArBytes,
        VmcsField::GuestEsBase,
        es,
        es.access_rights,
    ) + segment_writes(
        VmcsField::GuestFsSelector,
        VmcsField::GuestFsLimit,
        VmcsField::GuestFsArBytes,
        VmcsField::GuestFsBase,
        fs,
        fs.access_rights,
    ) + segment_writes(
        VmcsField::GuestGsSelector,
        VmcsField::GuestGsLimit,
        VmcsField::GuestGsArBytes,
        VmcsField::GuestGsBase,
        gs,
        gs.access_rights,
    ) + segment_writes(
        VmcsField::GuestSsSelector,
        VmcsField::GuestSsLimit,
        VmcsField::GuestSsArBytes,
        VmcsField::GuestSsBase,
        ss,
        ss.access_rights,
    ) + segment_writes(
        VmcsField::GuestTrSelector,
        VmcsField::GuestTrLimit,
        VmcsField::GuestTrArBytes,
        VmcsField::GuestTrBase,
        tr,
        guest_tr_access_rights(tr),
    ) + segment_writes(
        VmcsField::GuestLdtrSelector,
        VmcsField::GuestLdtrLimit,
        VmcsField::GuestLdtrArBytes,
        VmcsField::GuestLdtrBase,
        ldtr,
        ldtr.access_rights,
    )).push(VmcsWrite { field: VmcsField::GuestCr4, value: cpu.cr4 }).push(
        VmcsWrite { field: VmcsField::GuestCr3, value: cpu.cr3 },
    ).push(VmcsWrite { field: VmcsField::GuestCr0, value: cpu.cr0 }).push(
        VmcsWrite { field: VmcsField::GuestIA32Debugctl, value: cpu.debug_control },
    ).push(VmcsWrite { field: VmcsField::GuestDr7, value: cpu.dr7 })
}

/// Appends the four writes that set a segment register of the guest.
fn push_segment_writes(
    writes: &mut Vec<VmcsWrite>,
    selector_field: VmcsField,
    limit_field: VmcsField,
    access_rights_field: VmcsField,
    base_field: VmcsField,
    unpacked: UnpackedGdtEntry,
    access_rights: u32,
)
    ensures
        final(writes)@ == old(writes)@ + segment_writes(
            selector_field,
            limit_field,
            access_rights_field,
            base_field,
            unpacked,
            access_rights,
        ),
{
    writes.push(VmcsWrite { field: selector_field, value: unpacked.selector as u64 });
    writes.push(VmcsWrite { field: limit_field, value: unpacked.limit });
    writes.push(VmcsWrite { field: access_rights_field, value: access_rights as u64 });
    writes.push(VmcsWrite { field: base_field, value: unpacked.base });
    assert(writes@ =~= old(writes)@ + segment_writes(
        selector_field,
        limit_field,
        access_rights_field,
        base_field,
        unpacked,
        access_rights,
    ));
}

/// Computes the writes that set the guest-state area of a VMCS from the state
/// of the processor and the descriptor table that its GDTR names.
pub fn compute_guest_state_writes(cpu: &ProcessorState, gdt: &[GdtEntry]) -> (writes: Vec<
    VmcsWrite,
>)
    requires
        selectors_in_table(cpu, gdt@.len()),
    ensures
        writes@ == guest_state_writes(cpu, gdt@),
{
    let mut writes: Vec<VmcsWrite> = Vec::new();
    writes.push(VmcsWrite { field: VmcsField::VmcsLinkPointer, value: u64::MAX });
    writes.push(VmcsWrite { field: VmcsField::GuestIdtrLimit, value: cpu.idtr.limit as u64 });
    writes.push(VmcsWrite { field: VmcsField::GuestIdtrBase, value: cpu.idtr.base });
    writes.push(VmcsWrite { field: VmcsField::GuestGdtrLimit, value: cpu.gdtr.limit as u64 });
    writes.push(VmcsWrite { field: VmcsField::GuestGdtrBase, value: cpu.gdtr.base });

    let cs = unpack_gdt_entry(gdt, cpu.selectors.cs);
    push_segment_writes(
        &mut writes,
        VmcsField::GuestCsSelector,
        VmcsField::GuestCsLimit,
        VmcsField::GuestCsArBytes,
        VmcsField::GuestCsBase,
        cs,
        cs.access_rights,
    );
    let ds = unpack_gdt_entry(gdt, cpu.selectors.ds);
    push_segment_writes(
        &mut writes,
        VmcsField::GuestDsSelector,
        VmcsField::GuestDsLimit,
        VmcsField::GuestDsArBytes,
        VmcsField::GuestDsBase,
        ds,
        ds.access_rights,
    );
    let es = unpack_gdt_entry(gdt, cpu.selectors.es);
    push_segment_writes(
        &mut writes,
        VmcsField::GuestEsSelector,
        VmcsField::GuestEsLimit,
        VmcsField::GuestEsArBytes,
        VmcsField::GuestEsBase,
        es,
        es.access_rights,
    );
    let fs = unpack_gdt_entry(gdt, cpu.selectors.fs);
    push_segment_writes(
        &mut writes,
        VmcsField::GuestFsSelector,
        VmcsField::GuestFsLimit,
        VmcsField::GuestFsArBytes,
        VmcsField::GuestFsBase,
        fs,
        fs.access_rights,
    );
    let gs = unpack_gdt_entry(gdt, cpu.selectors.gs);
    push_segment_writes(
        &mut writes,
        VmcsField::GuestGsSelector,
        VmcsField::GuestGsLimit,
        VmcsField::GuestGsArBytes,
        VmcsField::GuestGsBase,
        gs,
        gs.access_rights,
    );
    let ss = unpack_gdt_entry(gdt, cpu.selectors.ss);
    push_segment_writes(
        &mut writes,
        VmcsField::GuestSsSelector,
        VmcsField::GuestSsLimit,
        VmcsField::GuestSsArBytes,
        VmcsField::GuestSsBase,
        ss,
        ss.access_rights,
    );
    let tr = unpack_gdt_entry(gdt, cpu.tr);
    let tr_access_rights: u32 = if tr.is_usable() {
        tr.access_rights
    } else {
        FALLBACK_TR_ACCESS_RIGHTS
    };
    push_segment_writes(
        &mut writes,
        VmcsField::GuestTrSelector,
        VmcsField::GuestTrLimit,
        VmcsField::GuestTrArBytes,
        VmcsField::GuestTrBase,
        tr,
        tr_access_rights,
    );
    let ldtr = unpack_gdt_entry(gdt, cpu.ldtr);
    push_segment_writes(
        &mut writes,
        VmcsField::GuestLdtrSelector,
        VmcsField::GuestLdtrLimit,
        VmcsField::GuestLdtrArBytes,
        VmcsField::GuestLdtrBase,
        ldtr,
        ldtr.access_rights,
    );

    writes.push(VmcsWrite { field: VmcsField::GuestCr4, value: cpu.cr4 });
    writes.push(VmcsWrite { field: VmcsField::GuestCr3, value: cpu.cr3 });
    writes.push(VmcsWrite { field: VmcsField::GuestCr0, value: cpu.cr0 });
    writes.push(VmcsWrite { field: VmcsField::GuestIA32Debugctl, value: cpu.debug_control });
    writes.push(VmcsWrite { field: VmcsField::GuestDr7, value: cpu.dr7 });
    writes
}

/// Writes the guest-state area: the link pointer, the descriptor-table
/// registers, the eight segment registers unpacked from the live descriptor
/// table, the control registers, the debug-control MSR and DR7. The first
/// write that fails ends it.
pub fn initialize_guest_state(
    _vcpu: &VCpu,
    cpu: &ProcessorState,
    gdt: &[GdtEntry],
    vmcs: &mut Vmcs,
) -> (result: Result<(), VmFail>)
    requires
        selectors_in_table(cpu, gdt@.len()),
    ensures
        result == old(vmcs)@.write_all_result(guest_state_writes(cpu, gdt@)),
        final(vmcs)@ == old(vmcs)@.write_all(guest_state_writes(cpu, gdt@)),
{
    let writes = compute_guest_state_writes(cpu, gdt);
    vmwrite_all(vmcs, &writes)
}

/// The reason that the manual gives for a VM-instruction error number.
pub open spec fn instruction_error_message(n: u64) -> Seq<char> {
    match n {
        0 => "No error"@,
        1 => "VMCALL executed in VMX root operation"@,
        2 => "VMCLEAR with invalid physical address"@,
        3 => "VMCLEAR with VMXON pointer"@,
        4 => "VMLAUNCH with non-clear VMCS"@,
        5 => "VMRESUME with non-launched VMCS"@,
        6 => "VMRESUME after VMXOFF (VMXOFF and VMXON between VMLAUNCH and VMRESUME)"@,
        7 => "VM entry with invalid control field(s)"@,
        8 => "VM entry with invalid host-state field(s)"@,
        9 => "VMPTRLD with invalid physical address"@,
        10 => "VMPTRLD with VMXON pointer"@,
        11 => "VMPTRLD with incorrect VMCS revision identifier"@,
        12 => "VMREAD/VMWRITE from/to unsupported VMCS component"@,
        13 => "VMWRITE to read-only VMCS component"@,
        15 => "VMXON executed in VMX root operation"@,
        16 => "VM entry with invalid executive-VMCS pointer"@,
        17 => "VM entry with non-launched executive VMCS"@,
        18 => "VM entry with executive-VMCS pointer not VMXON pointer (when attempting to deactivate the dual-monitor treatment of SMIs and SMM)"@,
        19 => "VMCALL with non-clear VMCS (when attempting to activate the dual-monitor treatment of SMIs and SMM)"@,
        20 => "VMCALL with invalid VM-exit control fields"@,
        22 => "VMCALL with incorrect MSEG revision identifier (when attempting to activate the dual-monitor treatment of SMIs and SMM)"@,
        23 => "VMXOFF under dual-monitor treatment of SMIs and SMM"@,
        24 => "VMCALL with invalid SMM-monitor features (when attempting to activate the dual-monitor treatment of SMIs and SMM)"@,
        25 => "VM entry with invalid VM-execution control fields in executive VMCS (when attempting to return from SMM)"@,
        26 => "VM entry with events blocked by MOV SS."@,
        28 => "Invalid operand to INVEPT/INVVPID."@,
        _ => "Unknown VM instruction error number."@,
    }
}

/// Looks up the reason for a VM-instruction error number, as read from the
/// VM-instruction error component after a VMX instruction failed with
/// `VmFailValid`.
pub fn vm_instruction_error_number_message(n: u64) -> (message: &'static str)
    ensures
        message@ == instruction_error_message(n),
{
    match n {
        0 => "No error",
        1 => "VMCALL executed in VMX root operation",
        2 => "VMCLEAR with invalid physical address",
        3 => "VMCLEAR with VMXON pointer",
        4 => "VMLAUNCH with non-clear VMCS",
        5 => "VMRESUME with non-launched VMCS",
        6 => "VMRESUME after VMXOFF (VMXOFF and VMXON between VMLAUNCH and VMRESUME)",
        7 => "VM entry with invalid control field(s)",
        8 => "VM entry with invalid host-state field(s)",
        9 => "VMPTRLD with invalid physical address",
        10 => "VMPTRLD with VMXON pointer",
        11 => "VMPTRLD with incorrect VMCS revision identifier",
        12 => "VMREAD/VMWRITE from/to unsupported VMCS component",
        13 => "VMWRITE to read-only VMCS component",
        15 => "VMXON executed in VMX root operation",
        16 => "VM entry with invalid executive-VMCS pointer",
        17 => "VM entry with non-launched executive VMCS",
        18 => "VM entry with executive-VMCS pointer not VMXON pointer (when attempting to deactivate the dual-monitor treatment of SMIs and SMM)",
        19 => "VMCALL with non-clear VMCS (when attempting to activate the dual-monitor treatment of SMIs and SMM)",
        20 => "VMCALL with invalid VM-exit control fields",
        22 => "VMCALL with incorrect MSEG revision identifier (when attempting to activate the dual-monitor treatment of SMIs and SMM)",
        23 => "VMXOFF under dual-monitor treatment of SMIs and SMM",
        24 => "VMCALL with invalid SMM-monitor features (when attempting to activate the dual-monitor treatment of SMIs and SMM)",
        25 => "VM entry with invalid VM-execution control fields in executive VMCS (when attempting to return from SMM)",
        26 => "VM entry with events blocked by MOV SS.",
        28 => "Invalid operand to INVEPT/INVVPID.",
        _ => "Unknown VM instruction error number.",
    }
}

} // verus!
