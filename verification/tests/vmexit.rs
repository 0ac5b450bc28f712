use rustyvisor::hypercall::{
    hypercall_request, hypercall_results, invoke_hypercall, HYPERCALL_MAGIC,
    HYPERCALL_REASON_VERSION,
};
use rustyvisor::hypercall_handler::{
    handle_hypercall, HYPERVISOR_VERSION_MAJOR, HYPERVISOR_VERSION_MINOR,
    HYPERVISOR_VERSION_PATCH,
};
use rustyvisor::interrupt_controller::VirtualLocalInterruptController;
use rustyvisor::msr::{wrmsr, Msr, MsrBank, MsrValuePair};
use rustyvisor::processor::{cpuid, CpuidResult};
use rustyvisor::register_state::GeneralPurposeRegisterState;
use rustyvisor::vmcs_fields::VmcsField;
use rustyvisor::vmexit_handlers::{
    advance_guest_rip, apply_cpuid_result, cpuid_request, decode_control_register_access,
    handle_cpuid,
    handle_control_register_access, hypervisor_handle_vmexit, ControlRegisterAccess,
    ControlRegisterAccessKind,
    HaltCause, VmExitOutcome, VMEXIT_REASON_CONTROL_REGISTER_ACCESS, VMEXIT_REASON_CPUID,
    VMEXIT_REASON_EXTERNAL_INTERRUPT, VMEXIT_REASON_INTERRUPT_WINDOW,
    VMEXIT_REASON_PREEMPTION_TIMER_EXPIRED,
};
use rustyvisor::vmx::{
    vmread, CPUIDLeaf, CPUIDLeafProcessorInfoAndFeaturesECXBits, VmFail, Vmcs,
};

fn exit(reason: u64, qualification: u64) -> Vmcs {
    let mut vmcs = Vmcs::new();
    vmcs.install(VmcsField::VmExitReason, reason);
    vmcs.install(VmcsField::ExitQualification, qualification);
    vmcs.install(VmcsField::GuestRip, 0x1000);
    vmcs.install(VmcsField::VmExitInstructionLen, 3);
    vmcs.install(VmcsField::GuestRsp, 0x7000);
    vmcs.install(VmcsField::GuestCr0, 0x8005_0033);
    vmcs.install(VmcsField::GuestCr3, 0x1aa000);
    vmcs.install(VmcsField::GuestCr4, 0x2668);
    vmcs.install(VmcsField::GuestRFlags, 0x202);
    vmcs.install(VmcsField::GuestInterruptibilityInfo, 0);
    vmcs.install(VmcsField::VmEntryIntrInfoField, 0);
    vmcs.install(VmcsField::VmExitIntrInfo, 0x8000_0033);
    vmcs.install(VmcsField::CpuBasedVmExecControl, 0);
    vmcs.install(VmcsField::PinBasedVmExecControl, 0);
    vmcs.install(VmcsField::VmxPreemptionTimerValue, 0);
    vmcs
}

fn registers() -> GeneralPurposeRegisterState {
    GeneralPurposeRegisterState {
        r15: 15,
        r14: 14,
        r13: 13,
        r12: 12,
        r11: 11,
        r10: 10,
        r9: 9,
        r8: 8,
        rdi: 7,
        rsi: 6,
        rbp: 5,
        rdx: 0xdddd,
        rcx: 0xcccc,
        rbx: 0xbbbb,
        rax: 0xaaaa,
    }
}

#[test]
fn test_advance_guest_rip_adds_the_instruction_length() {
    let mut vmcs = exit(VMEXIT_REASON_CPUID, 0);
    assert_eq!(advance_guest_rip(&mut vmcs), Ok(()));
    assert_eq!(vmread(&vmcs, VmcsField::GuestRip), Ok(0x1003));
    assert_eq!(vmcs.journal_len(), 1);
}

#[test]
fn test_advance_guest_rip_twice_skips_twice() {
    let mut vmcs = exit(VMEXIT_REASON_CPUID, 0);
    advance_guest_rip(&mut vmcs).unwrap();
    advance_guest_rip(&mut vmcs).unwrap();
    assert_eq!(vmread(&vmcs, VmcsField::GuestRip), Ok(0x1006));
}

#[test]
fn test_advance_guest_rip_wraps_like_the_processor() {
    let mut vmcs = exit(VMEXIT_REASON_CPUID, 0);
    vmcs.install(VmcsField::GuestRip, u64::MAX);
    vmcs.install(VmcsField::VmExitInstructionLen, 2);
    assert_eq!(advance_guest_rip(&mut vmcs), Ok(()));
    assert_eq!(vmread(&vmcs, VmcsField::GuestRip), Ok(1));
}

#[test]
fn test_advance_guest_rip_fails_without_the_length() {
    let mut vmcs = Vmcs::new();
    vmcs.install(VmcsField::GuestRip, 0x1000);
    assert_eq!(advance_guest_rip(&mut vmcs), Err(VmFail::VmFailValid));
    assert_eq!(vmread(&vmcs, VmcsField::GuestRip), Ok(0x1000));
    let mut other = Vmcs::new();
    other.install(VmcsField::VmExitInstructionLen, 2);
    assert_eq!(advance_guest_rip(&mut other), Err(VmFail::VmFailValid));
}

#[test]
fn test_hypercall_version() {
    let mut gprs = registers();
    gprs.rax = u64::from(HYPERCALL_MAGIC);
    gprs.rcx = u64::from(HYPERCALL_REASON_VERSION);
    assert_eq!(handle_hypercall(&mut gprs), Ok(()));
    assert_eq!(gprs.rax, u64::from(HYPERVISOR_VERSION_MAJOR));
    assert_eq!(gprs.rbx, u64::from(HYPERVISOR_VERSION_MINOR));
    assert_eq!(gprs.rcx, u64::from(HYPERVISOR_VERSION_PATCH));
    assert_eq!(gprs.rdx, 0);
    assert_eq!((gprs.rax, gprs.rbx, gprs.rcx), (0, 1, 0));
    assert_eq!(gprs.rbp, 5);
    assert_eq!(gprs.r15, 15);
    assert_eq!(HYPERCALL_MAGIC, 0x7273_7479);
    assert_eq!(HYPERCALL_MAGIC.to_be_bytes(), [0x72, 0x73, 0x74, 0x79]);
    assert_eq!(HYPERCALL_REASON_VERSION, 1);
}

#[test]
fn test_hypercall_with_an_unknown_reason_returns_zeroes() {
    for reason in [0u64, 2, 3, 0xffff_ffff] {
        let mut gprs = registers();
        gprs.rax = 0x7273_7479;
        gprs.rcx = reason;
        assert_eq!(handle_hypercall(&mut gprs), Ok(()));
        assert_eq!((gprs.rax, gprs.rbx, gprs.rcx, gprs.rdx), (0, 0, 0, 0));
        assert_eq!(gprs.rsi, 6);
    }
}

#[test]
fn test_hypercall_reads_the_low_halves() {
    let mut gprs = registers();
    gprs.rax = 0xffff_ffff_7273_7479;
    gprs.rcx = 0xabcd_0000_0000_0001;
    assert_eq!(handle_hypercall(&mut gprs), Ok(()));
    assert_eq!((gprs.rax, gprs.rbx, gprs.rcx, gprs.rdx), (0, 1, 0, 0));
}

#[test]
fn test_invoke_hypercall_reports_its_reason() {
    let returned = invoke_hypercall(HYPERCALL_REASON_VERSION);
    assert_eq!(returned.reason, 1);
    assert_eq!(returned.results.len(), 4);
}

#[test]
fn test_cpuid_result_hides_vmx_in_the_feature_leaf() {
    let mut gprs = registers();
    gprs.rax = 1;
    let result = CpuidResult { eax: 0x306a9, ebx: 0x100800, ecx: 0xffff_ffff, edx: 0xbfeb_fbff };
    apply_cpuid_result(&mut gprs, result);
    assert_eq!(gprs.rax, 0x306a9);
    assert_eq!(gprs.rbx, 0x100800);
    assert_eq!(gprs.rcx, 0xffff_ffdf);
    assert_eq!(gprs.rdx, 0xbfeb_fbff);
    assert_eq!(gprs.r8, 8);
    assert_eq!(CPUIDLeaf::ProcessorInfoAndFeatures.number(), 1);
    assert_eq!(CPUIDLeafProcessorInfoAndFeaturesECXBits::VMXAvailable.mask(), 1 << 5);
}

#[test]
fn test_cpuid_result_of_another_leaf_passes_through() {
    let mut gprs = registers();
    gprs.rax = 7;
    let result = CpuidResult { eax: 1, ebx: 2, ecx: 0xffff_ffff, edx: 4 };
    apply_cpuid_result(&mut gprs, result);
    assert_eq!((gprs.rax, gprs.rbx, gprs.rcx, gprs.rdx), (1, 2, 0xffff_ffff, 4));
}

#[test]
fn test_cpuid_request_is_the_low_halves_of_rax_and_rcx() {
    let mut gprs = registers();
    gprs.rax = 0xffff_ffff_0000_0004;
    gprs.rcx = 0x1234_5678_0000_0002;
    assert_eq!(cpuid_request(&gprs), (4, 2));
    gprs.rax = 0x8000_0008;
    gprs.rcx = u64::MAX;
    assert_eq!(cpuid_request(&gprs), (0x8000_0008, 0xffff_ffff));
}

#[test]
fn test_handle_cpuid_asks_for_the_sub_leaf_in_rcx() {
    for sub_leaf in 0..4u64 {
        let mut gprs = registers();
        gprs.rax = 4;
        gprs.rcx = sub_leaf;
        let mut vmcs = exit(VMEXIT_REASON_CPUID, 0);
        assert_eq!(handle_cpuid(&mut gprs, &mut vmcs), Ok(()));
        let native = x86::cpuid::native_cpuid::cpuid_count(4, sub_leaf as u32);
        assert_eq!(gprs.rax, u64::from(native.eax));
        assert_eq!(gprs.rbx, u64::from(native.ebx));
        assert_eq!(gprs.rcx, u64::from(native.ecx));
        assert_eq!(gprs.rdx, u64::from(native.edx));
    }
}

#[test]
fn test_cpuid_result_hides_vmx_whatever_the_high_half_of_rax() {
    let mut gprs = registers();
    gprs.rax = 0x1_0000_0001;
    let result = CpuidResult { eax: 0, ebx: 0, ecx: 0x20, edx: 0 };
    apply_cpuid_result(&mut gprs, result);
    assert_eq!(gprs.rcx, 0);
    let mut other = registers();
    other.rax = 0xffff_ffff_0000_0001;
    apply_cpuid_result(&mut other, CpuidResult { eax: 1, ebx: 2, ecx: 0xffff_ffff, edx: 3 });
    assert_eq!(other.rcx, 0xffff_ffdf);
    let mut another = registers();
    another.rax = 0x1_0000_0002;
    apply_cpuid_result(&mut another, result);
    assert_eq!(another.rcx, 0x20);
}

#[test]
fn test_hypercall_request_and_results() {
    assert_eq!(hypercall_request(1), (0x7273_7479, 1));
    assert_eq!(hypercall_request(0xffff_ffff), (HYPERCALL_MAGIC, 0xffff_ffff));
    let returned = CpuidResult { eax: 1, ebx: 2, ecx: 3, edx: 4 };
    let results = hypercall_results(9, returned);
    assert_eq!(results.reason, 9);
    assert_eq!(results.results, [1, 2, 3, 4]);
}

#[test]
fn test_invoke_hypercall_hands_back_what_cpuid_returned() {
    let results = invoke_hypercall(7);
    let native = x86::cpuid::native_cpuid::cpuid_count(HYPERCALL_MAGIC, 7);
    assert_eq!(results.reason, 7);
    assert_eq!(results.results, [native.eax, native.ebx, native.ecx, native.edx]);
}

#[test]
fn test_handle_cpuid_answers_with_the_processor() {
    let mut gprs = registers();
    gprs.rax = 0;
    let mut vmcs = exit(VMEXIT_REASON_CPUID, 0);
    assert_eq!(handle_cpuid(&mut gprs, &mut vmcs), Ok(()));
    let native = cpuid(0);
    assert_eq!(gprs.rax, u64::from(native.eax));
    assert_eq!(gprs.rbx, u64::from(native.ebx));
    assert_eq!(gprs.rcx, u64::from(native.ecx));
    assert_eq!(gprs.rdx, u64::from(native.edx));
    assert_eq!(vmread(&vmcs, VmcsField::GuestRip), Ok(0x1003));
    assert_eq!(gprs.rbp, 5);
}

#[test]
fn test_handle_cpuid_hides_vmx_from_the_guest() {
    let mut gprs = registers();
    gprs.rax = 1;
    let mut vmcs = exit(VMEXIT_REASON_CPUID, 0);
    assert_eq!(handle_cpuid(&mut gprs, &mut vmcs), Ok(()));
    let native = cpuid(1);
    assert_eq!(gprs.rcx & (1 << 5), 0);
    assert_eq!(gprs.rcx, u64::from(native.ecx & !(1 << 5)));
    assert_eq!(gprs.rdx, u64::from(native.edx));
}

#[test]
fn test_handle_cpuid_routes_the_hypercall() {
    let mut gprs = registers();
    gprs.rax = 0x7273_7479;
    gprs.rcx = 1;
    let mut vmcs = exit(VMEXIT_REASON_CPUID, 0);
    assert_eq!(handle_cpuid(&mut gprs, &mut vmcs), Ok(()));
    assert_eq!((gprs.rax, gprs.rbx, gprs.rcx, gprs.rdx), (0, 1, 0, 0));
    assert_eq!(vmread(&vmcs, VmcsField::GuestRip), Ok(0x1003));
}

#[test]
fn test_handle_cpuid_fails_before_it_touches_the_registers() {
    let mut gprs = registers();
    let mut vmcs = Vmcs::new();
    assert_eq!(handle_cpuid(&mut gprs, &mut vmcs), Err(VmFail::VmFailValid));
    assert_eq!(gprs, registers());
}

#[test]
fn test_decode_control_register_access() {
    assert_eq!(
        decode_control_register_access(0x0000),
        Some(ControlRegisterAccess {
            field: VmcsField::GuestCr0,
            kind: ControlRegisterAccessKind::MoveToControlRegister,
            register: 0,
        })
    );
    assert_eq!(
        decode_control_register_access(0x0313),
        Some(ControlRegisterAccess {
            field: VmcsField::GuestCr3,
            kind: ControlRegisterAccessKind::MoveFromControlRegister,
            register: 3,
        })
    );
    assert_eq!(
        decode_control_register_access(0xffff_ffff_ffff_0404),
        Some(ControlRegisterAccess {
            field: VmcsField::GuestCr4,
            kind: ControlRegisterAccessKind::MoveToControlRegister,
            register: 4,
        })
    );
    assert_eq!(
        decode_control_register_access(0x0f14),
        Some(ControlRegisterAccess {
            field: VmcsField::GuestCr4,
            kind: ControlRegisterAccessKind::MoveFromControlRegister,
            register: 15,
        })
    );
}

#[test]
fn test_decode_refuses_what_is_not_emulated() {
    assert_eq!(decode_control_register_access(0x0008), None);
    assert_eq!(decode_control_register_access(0x0002), None);
    assert_eq!(decode_control_register_access(0x0001), None);
    assert_eq!(decode_control_register_access(0x0020), None);
    assert_eq!(decode_control_register_access(0x0030), None);
    assert_eq!(decode_control_register_access(0x0023), None);
}

#[test]
fn test_write_to_a_control_register_from_a_register() {
    let mut gprs = registers();
    let mut vmcs = exit(VMEXIT_REASON_CONTROL_REGISTER_ACCESS, 0x0303);
    assert_eq!(handle_control_register_access(&mut gprs, &mut vmcs), Ok(()));
    assert_eq!(vmread(&vmcs, VmcsField::GuestCr3), Ok(0xbbbb));
    assert_eq!(vmread(&vmcs, VmcsField::GuestRip), Ok(0x1003));
    assert_eq!(gprs, registers());
}

#[test]
fn test_write_to_a_control_register_from_the_stack_pointer() {
    let mut gprs = registers();
    let mut vmcs = exit(VMEXIT_REASON_CONTROL_REGISTER_ACCESS, 0x0400);
    assert_eq!(handle_control_register_access(&mut gprs, &mut vmcs), Ok(()));
    assert_eq!(vmread(&vmcs, VmcsField::GuestCr0), Ok(0x7000));
    assert_eq!(vmread(&vmcs, VmcsField::GuestRip), Ok(0x1003));
}

#[test]
fn test_read_of_a_control_register_into_a_register() {
    let mut gprs = registers();
    let mut vmcs = exit(VMEXIT_REASON_CONTROL_REGISTER_ACCESS, 0x0f14);
    assert_eq!(handle_control_register_access(&mut gprs, &mut vmcs), Ok(()));
    assert_eq!(gprs.r15, 0x2668);
    let mut expected = registers();
    expected.r15 = 0x2668;
    assert_eq!(gprs, expected);
    assert_eq!(vmread(&vmcs, VmcsField::GuestCr4), Ok(0x2668));
    assert_eq!(vmread(&vmcs, VmcsField::GuestRip), Ok(0x1003));
}

#[test]
fn test_read_of_a_control_register_into_the_stack_pointer() {
    let mut gprs = registers();
    let mut vmcs = exit(VMEXIT_REASON_CONTROL_REGISTER_ACCESS, 0x0410);
    assert_eq!(handle_control_register_access(&mut gprs, &mut vmcs), Ok(()));
    assert_eq!(vmread(&vmcs, VmcsField::GuestRsp), Ok(0x8005_0033));
    assert_eq!(gprs, registers());
}

#[test]
fn test_control_register_access_fails_on_an_unreadable_qualification() {
    let mut gprs = registers();
    let mut vmcs = Vmcs::new();
    assert_eq!(
        handle_control_register_access(&mut gprs, &mut vmcs),
        Err(VmFail::VmFailValid)
    );
    assert_eq!(gprs, registers());
}

#[test]
fn test_vmexit_for_cpuid_resumes() {
    let mut gprs = registers();
    gprs.rax = 0x7273_7479;
    gprs.rcx = 1;
    let mut vmcs = exit(VMEXIT_REASON_CPUID, 0);
    let mut controller = VirtualLocalInterruptController::new();
    let msrs = MsrBank::new();
    let outcome = hypervisor_handle_vmexit(&mut gprs, &mut vmcs, &mut controller, &msrs);
    assert_eq!(outcome, VmExitOutcome::Resume);
    assert_eq!((gprs.rax, gprs.rbx, gprs.rcx, gprs.rdx), (0, 1, 0, 0));
    assert_eq!(vmread(&vmcs, VmcsField::GuestRip), Ok(0x1003));
    assert_eq!(VMEXIT_REASON_CPUID, 10);
}

#[test]
fn test_vmexit_for_a_control_register_access_resumes() {
    let mut gprs = registers();
    let mut vmcs = exit(VMEXIT_REASON_CONTROL_REGISTER_ACCESS, 0x0104);
    let mut controller = VirtualLocalInterruptController::new();
    let msrs = MsrBank::new();
    let outcome = hypervisor_handle_vmexit(&mut gprs, &mut vmcs, &mut controller, &msrs);
    assert_eq!(outcome, VmExitOutcome::Resume);
    assert_eq!(vmread(&vmcs, VmcsField::GuestCr4), Ok(0xcccc));
    assert_eq!(VMEXIT_REASON_CONTROL_REGISTER_ACCESS, 28);
}

#[test]
fn test_vmexit_for_clts_or_lmsw_halts() {
    for qualification in [0x0020u64, 0x0030, 0x0008] {
        let mut gprs = registers();
        let mut vmcs = exit(VMEXIT_REASON_CONTROL_REGISTER_ACCESS, qualification);
        let mut controller = VirtualLocalInterruptController::new();
        let msrs = MsrBank::new();
        let outcome = hypervisor_handle_vmexit(&mut gprs, &mut vmcs, &mut controller, &msrs);
        assert_eq!(
            outcome,
            VmExitOutcome::Halted(HaltCause::IllegalControlRegisterAccess { qualification })
        );
        assert_eq!(gprs, registers());
        assert_eq!(vmcs.journal_len(), 0);
    }
}

#[test]
fn test_vmexit_with_an_unknown_reason_halts() {
    for reason in [0u64, 2, 9, 11, 18, 48, 0x8000_0021, u64::MAX] {
        let mut gprs = registers();
        let mut vmcs = exit(reason, 0x55);
        let mut controller = VirtualLocalInterruptController::new();
        let msrs = MsrBank::new();
        let outcome = hypervisor_handle_vmexit(&mut gprs, &mut vmcs, &mut controller, &msrs);
        assert_eq!(
            outcome,
            VmExitOutcome::Halted(HaltCause::UnhandledExitReason { reason, qualification: 0x55 })
        );
        assert_eq!(gprs, registers());
        assert_eq!(vmcs.journal_len(), 0);
        assert_eq!(controller.total_interrupts_count(), 0);
    }
}

#[test]
fn test_vmexit_without_a_readable_reason_halts() {
    let mut gprs = registers();
    let mut vmcs = Vmcs::new();
    let mut controller = VirtualLocalInterruptController::new();
    let msrs = MsrBank::new();
    let outcome = hypervisor_handle_vmexit(&mut gprs, &mut vmcs, &mut controller, &msrs);
    assert_eq!(outcome, VmExitOutcome::Halted(HaltCause::ExitReasonUnreadable));
}

#[test]
fn test_vmexit_with_a_failing_handler_halts() {
    let mut gprs = registers();
    let mut vmcs = Vmcs::new();
    vmcs.install(VmcsField::VmExitReason, VMEXIT_REASON_CPUID);
    let mut controller = VirtualLocalInterruptController::new();
    let msrs = MsrBank::new();
    let outcome = hypervisor_handle_vmexit(&mut gprs, &mut vmcs, &mut controller, &msrs);
    assert_eq!(
        outcome,
        VmExitOutcome::Halted(HaltCause::HandlerFailed { reason: 10, fail: VmFail::VmFailValid })
    );
}

#[test]
fn test_vmexit_for_an_external_interrupt_injects_the_vector() {
    let mut gprs = registers();
    let mut vmcs = exit(VMEXIT_REASON_EXTERNAL_INTERRUPT, 0);
    let mut controller = VirtualLocalInterruptController::new();
    let msrs = MsrBank::new();
    let outcome = hypervisor_handle_vmexit(&mut gprs, &mut vmcs, &mut controller, &msrs);
    assert_eq!(outcome, VmExitOutcome::Resume);
    assert_eq!(vmread(&vmcs, VmcsField::VmEntryIntrInfoField), Ok(0x8000_0033));
    assert_eq!(controller.total_interrupts_count(), 0);
    assert_eq!(gprs, registers());
    assert_eq!(VMEXIT_REASON_EXTERNAL_INTERRUPT, 1);
}

#[test]
fn test_vmexit_for_an_external_interrupt_queues_for_a_blocked_guest() {
    let mut gprs = registers();
    let mut vmcs = exit(VMEXIT_REASON_EXTERNAL_INTERRUPT, 0);
    vmcs.install(VmcsField::GuestRFlags, 0x2);
    let mut controller = VirtualLocalInterruptController::new();
    let mut msrs = MsrBank::new();
    wrmsr(&mut msrs, Msr::Ia32VmxProcBasedControls, MsrValuePair { edx: 0x4, eax: 0 });
    let outcome = hypervisor_handle_vmexit(&mut gprs, &mut vmcs, &mut controller, &msrs);
    assert_eq!(outcome, VmExitOutcome::Resume);
    assert_eq!(controller.pending_count(0x33), 1);
    assert_eq!(controller.total_interrupts_count(), 1);
    assert_eq!(vmread(&vmcs, VmcsField::CpuBasedVmExecControl), Ok(0x4));

    vmcs.install(VmcsField::VmExitReason, VMEXIT_REASON_INTERRUPT_WINDOW);
    vmcs.install(VmcsField::GuestRFlags, 0x202);
    let outcome = hypervisor_handle_vmexit(&mut gprs, &mut vmcs, &mut controller, &msrs);
    assert_eq!(outcome, VmExitOutcome::Resume);
    assert_eq!(vmread(&vmcs, VmcsField::VmEntryIntrInfoField), Ok(0x8000_0033));
    assert_eq!(vmread(&vmcs, VmcsField::CpuBasedVmExecControl), Ok(0));
    assert_eq!(controller.total_interrupts_count(), 0);
    assert_eq!(VMEXIT_REASON_INTERRUPT_WINDOW, 7);
}

#[test]
fn test_vmexit_for_an_interrupt_window_on_a_blocked_guest_halts() {
    let mut gprs = registers();
    let mut vmcs = exit(VMEXIT_REASON_INTERRUPT_WINDOW, 0);
    vmcs.install(VmcsField::GuestRFlags, 0x2);
    let mut controller = VirtualLocalInterruptController::new();
    let msrs = MsrBank::new();
    let outcome = hypervisor_handle_vmexit(&mut gprs, &mut vmcs, &mut controller, &msrs);
    assert_eq!(
        outcome,
        VmExitOutcome::Halted(HaltCause::InterruptControllerFault { reason: 7 })
    );
    assert_eq!(vmcs.journal_len(), 0);
}

#[test]
fn test_vmexit_for_the_preemption_timer_polls() {
    let mut gprs = registers();
    let mut vmcs = exit(VMEXIT_REASON_EXTERNAL_INTERRUPT, 0);
    vmcs.install(VmcsField::GuestRFlags, 0x2);
    let mut controller = VirtualLocalInterruptController::new();
    let msrs = MsrBank::new();
    assert_eq!(
        hypervisor_handle_vmexit(&mut gprs, &mut vmcs, &mut controller, &msrs),
        VmExitOutcome::Resume
    );
    assert!(controller.requested_poll());
    assert_eq!(vmread(&vmcs, VmcsField::PinBasedVmExecControl), Ok(0x40));
    vmcs.install(VmcsField::VmExitReason, VMEXIT_REASON_PREEMPTION_TIMER_EXPIRED);
    vmcs.install(VmcsField::GuestRFlags, 0x202);
    assert_eq!(
        hypervisor_handle_vmexit(&mut gprs, &mut vmcs, &mut controller, &msrs),
        VmExitOutcome::Resume
    );
    assert_eq!(vmread(&vmcs, VmcsField::VmEntryIntrInfoField), Ok(0x8000_0033));
    assert_eq!(vmread(&vmcs, VmcsField::PinBasedVmExecControl), Ok(0));
    assert!(!controller.requested_poll());
    assert_eq!(VMEXIT_REASON_PREEMPTION_TIMER_EXPIRED, 52);
}
