//! The handlers of VM exits.
//!
//! A handler emulates what the guest was about to do, moves the guest's
//! instruction pointer past the instruction, and hands back to the guest. An
//! exit that no handler takes, or a handler that fails, halts the processor:
//! either means that the monitor configured the guest wrongly, and going on
//! would run the guest in an unknown state.
use vstd::prelude::*;
use crate::hypercall::HYPERCALL_MAGIC;
use crate::hypercall_handler::{handle_hypercall, hypercall_handled, is_hypercall, low_half};
use crate::interrupt_controller::{
    external_interrupt_receivable,
    external_interrupt_received,
    guest_interruptable,
    interrupt_window_exit_received,
    is_external_interrupt_receivable,
    is_interruptability_readable,
    interruptability_readable,
    preemption_timer_received,
    received_external_interrupt,
    received_interrupt_window_exit,
    received_preemption_timer,
    vmx_is_guest_interruptable,
    VirtualLocalInterruptController,
};
use crate::msr::MsrBank;
use crate::processor::{cpuid_count, CpuidResult};
use crate::register_state::{GeneralPurposeRegisterState, MOD_RM_INDEX_RSP};
use crate::vmcs_fields::VmcsField;
use crate::vmx::{
    vmread,
    vmwrite,
    VmFail,
    Vmcs,
    VmcsView,
    CPUID_FEATURE_ECX_VMX_AVAILABLE,
    CPUID_LEAF_PROCESSOR_INFO_AND_FEATURES,
};

verus! {

/// The exit reason of an external interrupt.
pub const VMEXIT_REASON_EXTERNAL_INTERRUPT: u64 = 1;

/// The exit reason of an interrupt window.
pub const VMEXIT_REASON_INTERRUPT_WINDOW: u64 = 7;

/// The exit reason of the CPUID instruction.
pub const VMEXIT_REASON_CPUID: u64 = 10;

/// The exit reason of an access to a control register.
pub const VMEXIT_REASON_CONTROL_REGISTER_ACCESS: u64 = 28;

/// The exit reason of the expiry of the VMX-preemption timer.
pub const VMEXIT_REASON_PREEMPTION_TIMER_EXPIRED: u64 = 52;

/// The VMCS after the guest's instruction pointer is moved past the
/// instruction that caused the exit: the sum of the instruction pointer and
/// the instruction length, as the processor would compute it, is written
/// back. Where one of the two cannot be read, nothing changes.
pub open spec fn rip_advanced(vmcs: VmcsView) -> VmcsView {
    if vmcs.supports(VmcsField::GuestRip) && vmcs.supports(VmcsField::VmExitInstructionLen) {
        vmcs.write(
            VmcsField::GuestRip,
            vmcs.value(VmcsField::GuestRip).wrapping_add(
                vmcs.value(VmcsField::VmExitInstructionLen),
            ),
        )
    } else {
        vmcs
    }
}

/// The result of moving the guest's instruction pointer: it fails where the
/// instruction pointer or the instruction length cannot be read.
pub open spec fn rip_advance_result(vmcs: VmcsView) -> Result<(), VmFail> {
    if vmcs.supports(VmcsField::GuestRip) && vmcs.supports(VmcsField::VmExitInstructionLen) {
        Ok(())
    } else {
        Err(VmFail::VmFailValid)
    }
}

/// Moves the guest's instruction pointer past the instruction that it was
/// executing when the VM exit occurred. Each call moves it by the length of
/// that instruction once more, so that a handler calls this once.
pub fn advance_guest_rip(vmcs: &mut Vmcs) -> (result: Result<(), VmFail>)
    ensures
        result == rip_advance_result(old(vmcs)@),
        final(vmcs)@ == rip_advanced(old(vmcs)@),
{
    let rip: u64 = match vmread(vmcs, VmcsField::GuestRip) {
        Ok(value) => value,
        Err(fail) => {
            return Err(fail);
        },
    };
    let len: u64 = match vmread(vmcs, VmcsField::VmExitInstructionLen) {
        Ok(value) => value,
        Err(fail) => {
            return Err(fail);
        },
    };
    vmwrite(vmcs, VmcsField::GuestRip, rip.wrapping_add(len))
}

/// Moving the instruction pointer is not idempotent: a second move for the
/// same exit skips the length of the instruction once more.
pub proof fn lemma_advancing_twice_skips_twice(vmcs: VmcsView)
    requires
        rip_advance_result(vmcs) is Ok,
    ensures
        rip_advance_result(rip_advanced(vmcs)) is Ok,
        rip_advanced(vmcs).value(VmcsField::GuestRip) == vmcs.value(
            VmcsField::GuestRip,
        ).wrapping_add(vmcs.value(VmcsField::VmExitInstructionLen)),
        rip_advanced(rip_advanced(vmcs)).value(VmcsField::GuestRip) == vmcs.value(
            VmcsField::GuestRip,
        ).wrapping_add(vmcs.value(VmcsField::VmExitInstructionLen)).wrapping_add(
            vmcs.value(VmcsField::VmExitInstructionLen),
        ),
{
    let once = rip_advanced(vmcs);
    assert(once.value(VmcsField::VmExitInstructionLen) == vmcs.value(
        VmcsField::VmExitInstructionLen,
    ));
}

/// The leaf that a CPUID of the guest asks for: the low half of RAX.
pub open spec fn requested_leaf(registers: GeneralPurposeRegisterState) -> u64 {
    low_half(registers.rax)
}

/// The sub-leaf that a CPUID of the guest asks for: the low half of RCX.
pub open spec fn requested_sub_leaf(registers: GeneralPurposeRegisterState) -> u64 {
    low_half(registers.rcx)
}

/// Tells what a CPUID of the guest asks the processor for: the leaf in EAX
/// and the sub-leaf in ECX.
pub fn cpuid_request(registers: &GeneralPurposeRegisterState) -> (request: (u32, u32))
    ensures
        request.0 == requested_leaf(*registers),
        request.1 == requested_sub_leaf(*registers),
{
    let rax: u64 = registers.rax;
    let rcx: u64 = registers.rcx;
    let leaf: u64 = rax & 0xffff_ffff;
    let sub_leaf: u64 = rcx & 0xffff_ffff;
    assert(leaf <= 0xffff_ffff && sub_leaf <= 0xffff_ffff) by (bit_vector)
        requires
            leaf == rax & 0xffff_ffff,
            sub_leaf == rcx & 0xffff_ffff,
    ;
    (leaf as u32, sub_leaf as u32)
}

/// ECX as the guest gets to see it for the leaf: in the leaf of processor
/// information and feature bits the bit that says that VMX is available is
/// cleared, so that the guest does not try to enter VMX operation itself.
pub open spec fn guest_visible_ecx(leaf: u64, ecx: u32) -> u32 {
    if leaf == CPUID_LEAF_PROCESSOR_INFO_AND_FEATURES {
        ecx & !CPUID_FEATURE_ECX_VMX_AVAILABLE
    } else {
        ecx
    }
}

/// The registers after a CPUID that returned `result` for the leaf in the
/// low half of RAX.
pub open spec fn cpuid_applied(
    registers: GeneralPurposeRegisterState,
    result: CpuidResult,
) -> GeneralPurposeRegisterState {
    GeneralPurposeRegisterState {
        rax: result.eax as u64,
        rbx: result.ebx as u64,
        rcx: guest_visible_ecx(requested_leaf(registers), result.ecx) as u64,
        rdx: result.edx as u64,
        ..registers
    }
}

/// Hands the result of a CPUID to the guest, with VMX hidden.
pub fn apply_cpuid_result(gprs: &mut GeneralPurposeRegisterState, result: CpuidResult)
    ensures
        *final(gprs) == cpuid_applied(*old(gprs), result),
        requested_leaf(*old(gprs)) == CPUID_LEAF_PROCESSOR_INFO_AND_FEATURES ==> final(gprs).rcx
            & CPUID_FEATURE_ECX_VMX_AVAILABLE as u64 == 0,
{
    let returned_ecx: u32 = result.ecx;
    let mut ecx: u32 = returned_ecx;
    if gprs.rax & 0xffff_ffff == CPUID_LEAF_PROCESSOR_INFO_AND_FEATURES {
        ecx = returned_ecx & !CPUID_FEATURE_ECX_VMX_AVAILABLE;
        assert(((ecx as u64) & 0x20) == 0) by (bit_vector)
            requires
                ecx == returned_ecx & !0x20u32,
        ;
    }
    gprs.rax = result.eax as u64;
    gprs.rbx = result.ebx as u64;
    gprs.rcx = ecx as u64;
    gprs.rdx = result.edx as u64;
}

/// What handling a CPUID does, from the registers and the VMCS before to
/// those after. It succeeds exactly where the instruction pointer can be
/// moved, and changes no register where it cannot. A hypercall is answered.
/// Any other CPUID is answered with what the processor returned, whatever
/// that is; in the leaf of processor information and feature bits it says
/// that VMX is not available.
pub open spec fn cpuid_handled(
    registers_before: GeneralPurposeRegisterState,
    vmcs_before: VmcsView,
    registers_after: GeneralPurposeRegisterState,
    vmcs_after: VmcsView,
) -> bool {
    &&& vmcs_after == rip_advanced(vmcs_before)
    &&& if rip_advance_result(vmcs_before) is Err {
        registers_after == registers_before
    } else if is_hypercall(registers_before.rax) {
        registers_after == hypercall_handled(registers_before)
    } else {
        &&& exists|returned: CpuidResult|
            registers_after == cpuid_applied(registers_before, returned)
        &&& requested_leaf(registers_before) == CPUID_LEAF_PROCESSOR_INFO_AND_FEATURES
            ==> registers_after.rcx & CPUID_FEATURE_ECX_VMX_AVAILABLE as u64 == 0
    }
}

/// Handles a CPUID of the guest. The instruction pointer moves first. A
/// CPUID with the magic number in RAX is a hypercall. Any other is executed
/// for the guest, for the leaf and sub-leaf that [`cpuid_request`] tells,
/// and its result handed over with VMX hidden.
pub fn handle_cpuid(gprs: &mut GeneralPurposeRegisterState, vmcs: &mut Vmcs) -> (result: Result<
    (),
    VmFail,
>)
    ensures
        result == rip_advance_result(old(vmcs)@),
        cpuid_handled(*old(gprs), old(vmcs)@, *final(gprs), final(vmcs)@),
{
    match advance_guest_rip(vmcs) {
        Ok(()) => {},
        Err(fail) => {
            return Err(fail);
        },
    }
    let request = cpuid_request(gprs);
    if request.0 == HYPERCALL_MAGIC {
        return handle_hypercall(gprs);
    }
    let returned = cpuid_count(request.0, request.1);
    apply_cpuid_result(gprs, returned);
    Ok(())
}

/// The direction of a move between a control register and a general-purpose
/// register.
#[derive(Clone, Copy, Debug, PartialEq, Eq, Structural)]
pub enum ControlRegisterAccessKind {
    /// The guest writes the control register from a general-purpose register.
    MoveToControlRegister,
    /// The guest reads the control register into a general-purpose register.
    MoveFromControlRegister,
}

/// An access of the guest to a control register, as the exit qualification
/// tells it.
#[derive(Clone, Copy, Debug, PartialEq, Eq, Structural)]
pub struct ControlRegisterAccess {
    /// The component of the VMCS that holds the guest's control register.
    pub field: VmcsField,
    /// The direction of the move.
    pub kind: ControlRegisterAccessKind,
    /// The index of the general-purpose register, in the order of the ModR/M
    /// byte; 4 is the stack pointer.
    pub register: u64,
}

/// The access that an exit qualification tells of (Intel manual, volume 3,
/// table 27-3): the number of the control register in bits 0 to 3, the access
/// type in bits 4 and 5, the general-purpose register in bits 8 to 11. The
/// monitor emulates moves to and from CR0, CR3 and CR4. For any other control
/// register, and for CLTS and LMSW, there is no access to emulate.
pub open spec fn decoded_access(qualification: u64) -> Option<ControlRegisterAccess> {
    let number = qualification & 0xf;
    let access_type = (qualification >> 4) & 0x3;
    let register = (qualification >> 8) & 0xf;
    if (number == 0 || number == 3 || number == 4) && access_type <= 1 {
        Some(
            ControlRegisterAccess {
                field: if number == 0 {
                    VmcsField::GuestCr0
                } else if number == 3 {
                    VmcsField::GuestCr3
                } else {
                    VmcsField::GuestCr4
                },
                kind: if access_type == 0 {
                    ControlRegisterAccessKind::MoveToControlRegister
                } else {
                    ControlRegisterAccessKind::MoveFromControlRegister
                },
                register,
            },
        )
    } else {
        None
    }
}

/// Decodes the exit qualification of an access to a control register.
pub fn decode_control_register_access(qualification: u64) -> (access: Option<
    ControlRegisterAccess,
>)
    ensures
        access == decoded_access(qualification),
        access is Some ==> access.unwrap().register <= 15,
{
    let number: u64 = qualification & 0xf;
    let access_type: u64 = (qualification >> 4) & 0x3;
    let register: u64 = (qualification >> 8) & 0xf;
    assert(register <= 15) by (bit_vector)
        requires
            register == (qualification >> 8) & 0xf,
    ;
    let field = if number == 0 {
        VmcsField::GuestCr0
    } else if number == 3 {
        VmcsField::GuestCr3
    } else if number == 4 {
        VmcsField::GuestCr4
    } else {
        return None;
    };
    let kind = if access_type == 0 {
        ControlRegisterAccessKind::MoveToControlRegister
    } else if access_type == 1 {
        ControlRegisterAccessKind::MoveFromControlRegister
    } else {
        return None;
    };
    Some(ControlRegisterAccess { field, kind, register })
}

/// The registers, the VMCS and the result that a handler leaves.
pub struct ExitEffect {
    pub registers: GeneralPurposeRegisterState,
    pub vmcs: VmcsView,
    pub result: Result<(), VmFail>,
}

/// The effect of an emulated move, followed by the move of the instruction
/// pointer. A read or write of the VMCS that fails ends the emulation with
/// what was done until then.
pub open spec fn access_emulated(
    access: ControlRegisterAccess,
    registers: GeneralPurposeRegisterState,
    vmcs: VmcsView,
) -> ExitEffect {
    let failed = ExitEffect { registers, vmcs, result: Err(VmFail::VmFailValid) };
    match access.kind {
        ControlRegisterAccessKind::MoveToControlRegister => {
            if access.register == MOD_RM_INDEX_RSP && !vmcs.supports(VmcsField::GuestRsp) {
                failed
            } else if !vmcs.supports(access.field) {
                failed
            } else {
                let value = if access.register == MOD_RM_INDEX_RSP {
                    vmcs.value(VmcsField::GuestRsp)
                } else {
                    registers.register(access.register)
                };
                let written = vmcs.write(access.field, value);
                ExitEffect {
                    registers,
                    vmcs: rip_advanced(written),
                    result: rip_advance_result(written),
                }
            }
        },
        ControlRegisterAccessKind::MoveFromControlRegister => {
            if !vmcs.supports(access.field) {
                failed
            } else if access.register == MOD_RM_INDEX_RSP {
                if !vmcs.supports(VmcsField::GuestRsp) {
                    failed
                } else {
                    let written = vmcs.write(VmcsField::GuestRsp, vmcs.value(access.field));
                    ExitEffect {
                        registers,
                        vmcs: rip_advanced(written),
                        result: rip_advance_result(written),
                    }
                }
            } else {
                ExitEffect {
                    registers: registers.with_register(access.register, vmcs.value(access.field)),
                    vmcs: rip_advanced(vmcs),
                    result: rip_advance_result(vmcs),
                }
            }
        },
    }
}

/// The effect of handling an access to a control register: where the exit
/// qualification cannot be read, that failure; else the emulated move.
pub open spec fn control_register_access_handled(
    registers: GeneralPurposeRegisterState,
    vmcs: VmcsView,
) -> ExitEffect {
    if !vmcs.supports(VmcsField::ExitQualification) {
        ExitEffect { registers, vmcs, result: Err(VmFail::VmFailValid) }
    } else {
        access_emulated(
            decoded_access(vmcs.value(VmcsField::ExitQualification)).unwrap(),
            registers,
            vmcs,
        )
    }
}

/// Whether an access to a control register can be handled: the exit
/// qualification, where it can be read, tells of a move to or from CR0, CR3
/// or CR4.
pub open spec fn control_register_access_emulable(vmcs: VmcsView) -> bool {
    vmcs.supports(VmcsField::ExitQualification) ==> decoded_access(
        vmcs.value(VmcsField::ExitQualification),
    ) is Some
}

/// Tells whether an access to a control register can be handled.
pub fn is_control_register_access_emulable(vmcs: &Vmcs) -> (emulable: bool)
    ensures
        emulable == control_register_access_emulable(vmcs@),
{
    match vmread(vmcs, VmcsField::ExitQualification) {
        Ok(qualification) => decode_control_register_access(qualification).is_some(),
        Err(_) => true,
    }
}

/// Emulates an access of the guest to a control register on the guest's
/// state in the VMCS. A write takes its value from the general-purpose
/// register that the exit qualification names, or from the guest's stack
/// pointer in the VMCS, and stores it in the guest's control register. A
/// read goes the other way. Then the instruction pointer moves.
pub fn handle_control_register_access(
    gprs: &mut GeneralPurposeRegisterState,
    vmcs: &mut Vmcs,
) -> (result: Result<(), VmFail>)
    requires
        control_register_access_emulable(old(vmcs)@),
    ensures
        result == control_register_access_handled(*old(gprs), old(vmcs)@).result,
        *final(gprs) == control_register_access_handled(*old(gprs), old(vmcs)@).registers,
        final(vmcs)@ == control_register_access_handled(*old(gprs), old(vmcs)@).vmcs,
{
    let qualification: u64 = match vmread(vmcs, VmcsField::ExitQualification) {
        Ok(value) => value,
        Err(fail) => {
            return Err(fail);
        },
    };
    let access = match decode_control_register_access(qualification) {
        Some(access) => access,
        None => {
            return Err(VmFail::VmFailValid);
        },
    };
    match access.kind {
        ControlRegisterAccessKind::MoveToControlRegister => {
            let value: u64 = match gprs.get_by_mod_rm_index(access.register) {
                Some(value) => value,
                None => match vmread(vmcs, VmcsField::GuestRsp) {
                    Ok(value) => value,
                    Err(fail) => {
                        return Err(fail);
                    },
                },
            };
            match vmwrite(vmcs, access.field, value) {
                Ok(()) => {},
                Err(fail) => {
                    return Err(fail);
                },
            }
        },
        ControlRegisterAccessKind::MoveFromControlRegister => {
            let value: u64 = match vmread(vmcs, access.field) {
                Ok(value) => value,
                Err(fail) => {
                    return Err(fail);
                },
            };
            match gprs.by_mod_rm_index(access.register) {
                Some(register) => {
                    *register = value;
                },
                None => match vmwrite(vmcs, VmcsField::GuestRsp, value) {
                    Ok(()) => {},
                    Err(fail) => {
                        return Err(fail);
                    },
                },
            }
        },
    }
    advance_guest_rip(vmcs)
}

/// Why the monitor halts the processor instead of handing back to the guest.
#[derive(Clone, Copy, Debug, PartialEq, Eq, Structural)]
pub enum HaltCause {
    /// The exit reason cannot be read.
    ExitReasonUnreadable,
    /// No handler takes the exit reason.
    UnhandledExitReason { reason: u64, qualification: u64 },
    /// The exit qualification tells of an access to a control register that
    /// the monitor does not emulate: CLTS, LMSW, or a control register other
    /// than CR0, CR3 and CR4.
    IllegalControlRegisterAccess { qualification: u64 },
    /// The interrupt controller cannot do what the exit asks of it: the
    /// interruptability of the guest cannot be read, an interrupt window
    /// opened on a guest that takes no interrupts, the count of pending
    /// interrupts is exhausted, or the wake-up cannot be armed.
    InterruptControllerFault { reason: u64 },
    /// The handler failed on a component of the VMCS.
    HandlerFailed { reason: u64, fail: VmFail },
}

/// What the processor does after a VM exit was handled.
#[derive(Clone, Copy, Debug, PartialEq, Eq, Structural)]
pub enum VmExitOutcome {
    /// The exit was handled: the guest is resumed.
    Resume,
    /// The exit was not handled: the processor halts for good.
    Halted(HaltCause),
}

/// The outcome of an exit of which the handler returned `result`.
pub open spec fn outcome_of(reason: u64, result: Result<(), VmFail>) -> VmExitOutcome {
    match result {
        Ok(_) => VmExitOutcome::Resume,
        Err(fail) => VmExitOutcome::Halted(HaltCause::HandlerFailed { reason, fail }),
    }
}

/// The vector of the external interrupt that caused the exit: the low byte
/// of the VM-exit interruption information.
pub open spec fn exit_interrupt_vector(vmcs: VmcsView) -> u8 {
    (vmcs.value(VmcsField::VmExitIntrInfo) & 0xff) as u8
}

/// The result of the handler that led to the outcome of an exit of the
/// reason, where a handler led to it.
pub open spec fn handler_result(reason: u64, outcome: VmExitOutcome) -> Option<
    Result<(), VmFail>,
> {
    match outcome {
        VmExitOutcome::Resume => Some(Ok(())),
        VmExitOutcome::Halted(HaltCause::HandlerFailed { reason: failed, fail }) => if failed
            == reason {
            Some(Err(fail))
        } else {
            None
        },
        _ => None,
    }
}

/// What is left of an exit that halts without a handler: nothing is changed.
pub open spec fn halted_unchanged(
    before: ExitState,
    after: ExitState,
    outcome: VmExitOutcome,
    cause: HaltCause,
) -> bool {
    after == before && outcome == VmExitOutcome::Halted(cause)
}

/// The registers of the guest, the VMCS and the interrupt controller, which
/// the handling of a VM exit takes from one state to the next.
pub struct ExitState {
    pub registers: GeneralPurposeRegisterState,
    pub vmcs: VmcsView,
    pub controller: VirtualLocalInterruptController,
}

/// What handling a CPUID exit does: the handler of CPUID runs, and the guest
/// is resumed if it succeeds.
pub open spec fn cpuid_exit_handled(
    before: ExitState,
    after: ExitState,
    outcome: VmExitOutcome,
) -> bool {
    &&& after.controller == before.controller
    &&& outcome == outcome_of(VMEXIT_REASON_CPUID, rip_advance_result(before.vmcs))
    &&& cpuid_handled(before.registers, before.vmcs, after.registers, after.vmcs)
}

/// What handling an exit for an access to a control register does: an access
/// that cannot be emulated halts; any other is emulated, and the guest is
/// resumed if that succeeds.
pub open spec fn control_register_exit_handled(
    before: ExitState,
    after: ExitState,
    outcome: VmExitOutcome,
) -> bool {
    if control_register_access_emulable(before.vmcs) {
        let effect = control_register_access_handled(before.registers, before.vmcs);
        &&& after.controller == before.controller
        &&& after.registers == effect.registers
        &&& after.vmcs == effect.vmcs
        &&& outcome == outcome_of(VMEXIT_REASON_CONTROL_REGISTER_ACCESS, effect.result)
    } else {
        halted_unchanged(
            before,
            after,
            outcome,
            HaltCause::IllegalControlRegisterAccess {
                qualification: before.vmcs.read_or(VmcsField::ExitQualification, 0),
            },
        )
    }
}

/// What handling an exit for an external interrupt does: where the vector
/// cannot be read, the exit fails as a handler does; where the interrupt
/// controller cannot take the interrupt, the processor halts; else the
/// controller takes it, and the guest is resumed if that succeeds.
pub open spec fn external_interrupt_exit_handled(
    before: ExitState,
    msrs: &MsrBank,
    after: ExitState,
    outcome: VmExitOutcome,
) -> bool {
    let reason = VMEXIT_REASON_EXTERNAL_INTERRUPT;
    if !before.vmcs.supports(VmcsField::VmExitIntrInfo) {
        after == before && outcome == outcome_of(reason, Err(VmFail::VmFailValid))
    } else if !external_interrupt_receivable(before.controller, before.vmcs, msrs) {
        halted_unchanged(before, after, outcome, HaltCause::InterruptControllerFault { reason })
    } else {
        &&& after.registers == before.registers
        &&& handler_result(reason, outcome) is Some
        &&& external_interrupt_received(
            before.controller,
            before.vmcs,
            msrs,
            exit_interrupt_vector(before.vmcs),
            after.controller,
            after.vmcs,
            handler_result(reason, outcome).unwrap(),
        )
    }
}

/// What handling an interrupt-window exit does: on a guest that is not seen
/// to take interrupts the processor halts; else the controller drains, and
/// the guest is resumed if that succeeds.
pub open spec fn interrupt_window_exit_handled(
    before: ExitState,
    after: ExitState,
    outcome: VmExitOutcome,
) -> bool {
    let reason = VMEXIT_REASON_INTERRUPT_WINDOW;
    if !(interruptability_readable(before.vmcs) && guest_interruptable(before.vmcs)) {
        halted_unchanged(before, after, outcome, HaltCause::InterruptControllerFault { reason })
    } else {
        &&& after.registers == before.registers
        &&& handler_result(reason, outcome) is Some
        &&& interrupt_window_exit_received(
            before.controller,
            before.vmcs,
            after.controller,
            after.vmcs,
            handler_result(reason, outcome).unwrap(),
        )
    }
}

/// What handling the expiry of the preemption timer does: where a poll is
/// due and the interruptability of the guest cannot be read, the processor
/// halts; else the controller polls, and the guest is resumed if that
/// succeeds.
pub open spec fn preemption_timer_exit_handled(
    before: ExitState,
    after: ExitState,
    outcome: VmExitOutcome,
) -> bool {
    let reason = VMEXIT_REASON_PREEMPTION_TIMER_EXPIRED;
    if before.controller.poll_requested() && !interruptability_readable(before.vmcs) {
        halted_unchanged(before, after, outcome, HaltCause::InterruptControllerFault { reason })
    } else {
        &&& after.registers == before.registers
        &&& handler_result(reason, outcome) is Some
        &&& preemption_timer_received(
            before.controller,
            before.vmcs,
            after.controller,
            after.vmcs,
            handler_result(reason, outcome).unwrap(),
        )
    }
}

/// What handling a VM exit does, from the state before to the state after,
/// and with which outcome.
///
/// An unreadable exit reason halts with nothing changed. CPUID and accesses
/// to control registers go to their handlers, external interrupts, interrupt
/// windows and expiries of the preemption timer to the interrupt controller.
/// Any other exit reason halts with nothing changed.
pub open spec fn vmexit_handled(
    before: ExitState,
    msrs: &MsrBank,
    after: ExitState,
    outcome: VmExitOutcome,
) -> bool {
    let reason = before.vmcs.value(VmcsField::VmExitReason);
    if !before.vmcs.supports(VmcsField::VmExitReason) {
        halted_unchanged(before, after, outcome, HaltCause::ExitReasonUnreadable)
    } else if reason == VMEXIT_REASON_CPUID {
        cpuid_exit_handled(before, after, outcome)
    } else if reason == VMEXIT_REASON_CONTROL_REGISTER_ACCESS {
        control_register_exit_handled(before, after, outcome)
    } else if reason == VMEXIT_REASON_EXTERNAL_INTERRUPT {
        external_interrupt_exit_handled(before, msrs, after, outcome)
    } else if reason == VMEXIT_REASON_INTERRUPT_WINDOW {
        interrupt_window_exit_handled(before, after, outcome)
    } else if reason == VMEXIT_REASON_PREEMPTION_TIMER_EXPIRED {
        preemption_timer_exit_handled(before, after, outcome)
    } else {
        halted_unchanged(
            before,
            after,
            outcome,
            HaltCause::UnhandledExitReason {
                reason,
                qualification: before.vmcs.read_or(VmcsField::ExitQualification, 0),
            },
        )
    }
}

/// Tells the outcome of an exit of which the handler returned `result`.
fn conclude(reason: u64, result: Result<(), VmFail>) -> (outcome: VmExitOutcome)
    ensures
        outcome == outcome_of(reason, result),
        handler_result(reason, outcome) == Some(result),
{
    match result {
        Ok(unit) => {
            assert(unit == ());
            VmExitOutcome::Resume
        },
        Err(fail) => VmExitOutcome::Halted(HaltCause::HandlerFailed { reason, fail }),
    }
}

/// Handles an exit for an access to a control register.
fn handle_control_register_exit(
    gprs: &mut GeneralPurposeRegisterState,
    vmcs: &mut Vmcs,
    controller: &VirtualLocalInterruptController,
) -> (outcome: VmExitOutcome)
    ensures
        control_register_exit_handled(
            ExitState { registers: *old(gprs), vmcs: old(vmcs)@, controller: *controller },
            ExitState { registers: *final(gprs), vmcs: final(vmcs)@, controller: *controller },
            outcome,
        ),
{
    if !is_control_register_access_emulable(vmcs) {
        let qualification: u64 = match vmread(vmcs, VmcsField::ExitQualification) {
            Ok(value) => value,
            Err(_) => 0,
        };
        return VmExitOutcome::Halted(HaltCause::IllegalControlRegisterAccess { qualification });
    }
    let result = handle_control_register_access(gprs, vmcs);
    conclude(VMEXIT_REASON_CONTROL_REGISTER_ACCESS, result)
}

/// Handles an exit for an external interrupt.
fn handle_external_interrupt_exit(
    registers: &GeneralPurposeRegisterState,
    vmcs: &mut Vmcs,
    controller: &mut VirtualLocalInterruptController,
    msrs: &MsrBank,
) -> (outcome: VmExitOutcome)
    requires
        old(controller).wf(),
    ensures
        final(controller).wf(),
        external_interrupt_exit_handled(
            ExitState { registers: *registers, vmcs: old(vmcs)@, controller: *old(controller) },
            msrs,
            ExitState { registers: *registers, vmcs: final(vmcs)@, controller: *final(controller) },
            outcome,
        ),
{
    let reason: u64 = VMEXIT_REASON_EXTERNAL_INTERRUPT;
    let interrupt_info: u64 = match vmread(vmcs, VmcsField::VmExitIntrInfo) {
        Ok(value) => value,
        Err(fail) => {
            return conclude(reason, Err(fail));
        },
    };
    if !is_external_interrupt_receivable(controller, vmcs, msrs) {
        return VmExitOutcome::Halted(HaltCause::InterruptControllerFault { reason });
    }
    let vector: u64 = interrupt_info & 0xff;
    assert(vector <= 0xff) by (bit_vector)
        requires
            vector == interrupt_info & 0xff,
    ;
    let result = received_external_interrupt(controller, vmcs, msrs, vector as u8);
    conclude(reason, result)
}

/// Handles an interrupt-window exit.
fn handle_interrupt_window_exit(
    registers: &GeneralPurposeRegisterState,
    vmcs: &mut Vmcs,
    controller: &mut VirtualLocalInterruptController,
) -> (outcome: VmExitOutcome)
    requires
        old(controller).wf(),
    ensures
        final(controller).wf(),
        interrupt_window_exit_handled(
            ExitState { registers: *registers, vmcs: old(vmcs)@, controller: *old(controller) },
            ExitState { registers: *registers, vmcs: final(vmcs)@, controller: *final(controller) },
            outcome,
        ),
{
    let reason: u64 = VMEXIT_REASON_INTERRUPT_WINDOW;
    if !(is_interruptability_readable(vmcs) && vmx_is_guest_interruptable(vmcs)) {
        return VmExitOutcome::Halted(HaltCause::InterruptControllerFault { reason });
    }
    let result = received_interrupt_window_exit(controller, vmcs);
    conclude(reason, result)
}

/// Handles the expiry of the preemption timer.
fn handle_preemption_timer_exit(
    registers: &GeneralPurposeRegisterState,
    vmcs: &mut Vmcs,
    controller: &mut VirtualLocalInterruptController,
) -> (outcome: VmExitOutcome)
    requires
        old(controller).wf(),
    ensures
        final(controller).wf(),
        preemption_timer_exit_handled(
            ExitState { registers: *registers, vmcs: old(vmcs)@, controller: *old(controller) },
            ExitState { registers: *registers, vmcs: final(vmcs)@, controller: *final(controller) },
            outcome,
        ),
{
    let reason: u64 = VMEXIT_REASON_PREEMPTION_TIMER_EXPIRED;
    if controller.requested_poll() && !is_interruptability_readable(vmcs) {
        return VmExitOutcome::Halted(HaltCause::InterruptControllerFault { reason });
    }
    let result = received_preemption_timer(controller, vmcs);
    conclude(reason, result)
}

/// Handles a VM exit: reads the exit reason, has the handler of that reason
/// emulate what the guest was about to do, and tells whether the guest is
/// resumed or the processor halts.
pub fn hypervisor_handle_vmexit(
    gprs: &mut GeneralPurposeRegisterState,
    vmcs: &mut Vmcs,
    controller: &mut VirtualLocalInterruptController,
    msrs: &MsrBank,
) -> (outcome: VmExitOutcome)
    requires
        old(controller).wf(),
    ensures
        final(controller).wf(),
        vmexit_handled(
            ExitState { registers: *old(gprs), vmcs: old(vmcs)@, controller: *old(controller) },
            msrs,
            ExitState {
                registers: *final(gprs),
                vmcs: final(vmcs)@,
                controller: *final(controller),
            },
            outcome,
        ),
{
    let reason: u64 = match vmread(vmcs, VmcsField::VmExitReason) {
        Ok(value) => value,
        Err(_) => {
            return VmExitOutcome::Halted(HaltCause::ExitReasonUnreadable);
        },
    };
    if reason == VMEXIT_REASON_CPUID {
        let result = handle_cpuid(gprs, vmcs);
        conclude(reason, result)
    } else if reason == VMEXIT_REASON_CONTROL_REGISTER_ACCESS {
        handle_control_register_exit(gprs, vmcs, controller)
    } else if reason == VMEXIT_REASON_EXTERNAL_INTERRUPT {
        handle_external_interrupt_exit(gprs, vmcs, controller, msrs)
    } else if reason == VMEXIT_REASON_INTERRUPT_WINDOW {
        handle_interrupt_window_exit(gprs, vmcs, controller)
    } else if reason == VMEXIT_REASON_PREEMPTION_TIMER_EXPIRED {
        handle_preemption_timer_exit(gprs, vmcs, controller)
    } else {
        let qualification: u64 = match vmread(vmcs, VmcsField::ExitQualification) {
            Ok(value) => value,
            Err(_) => 0,
        };
        VmExitOutcome::Halted(HaltCause::UnhandledExitReason { reason, qualification })
    }
}

} // verus!
