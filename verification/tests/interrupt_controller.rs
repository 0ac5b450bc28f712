use rustyvisor::interrupt_controller::{
    check_for_highest_priority_interrupt, delay_interrupt_delivery, is_interruptability_readable,
    is_wakeup_configurable, received_external_interrupt, received_interrupt_window_exit,
    received_preemption_timer, vmx_configure_interrupts_wakeup,
    vmx_deconfigure_interrupt_window_exiting, vmx_deconfigure_timer_wakeup,
    vmx_inject_interrupt_into_guest, vmx_is_guest_interruptable, VirtualLocalInterruptController,
    INTERRUPT_COUNT, VM_PREEMPTION_TIMER_VALUE,
};
use rustyvisor::msr::{wrmsr, Msr, MsrBank, MsrValuePair};
use rustyvisor::vmcs_fields::VmcsField;
use rustyvisor::vmx::{vmread, VmFail, Vmcs, VmcsWrite};

const IF: u64 = 0x200;

fn guest(rflags: u64, interruptibility: u64) -> Vmcs {
    let mut vmcs = Vmcs::new();
    vmcs.install(VmcsField::GuestRFlags, rflags);
    vmcs.install(VmcsField::GuestInterruptibilityInfo, interruptibility);
    vmcs.install(VmcsField::VmEntryIntrInfoField, 0);
    vmcs.install(VmcsField::CpuBasedVmExecControl, 0x8000_0000);
    vmcs.install(VmcsField::PinBasedVmExecControl, 0x16);
    vmcs.install(VmcsField::VmxPreemptionTimerValue, 0);
    vmcs
}

fn window_exiting_permitted() -> MsrBank {
    let mut msrs = MsrBank::new();
    wrmsr(
        &mut msrs,
        Msr::Ia32VmxProcBasedControls,
        MsrValuePair { edx: 0xfff9_fffe, eax: 0x0401_e172 },
    );
    msrs
}

fn window_exiting_refused() -> MsrBank {
    let mut msrs = MsrBank::new();
    wrmsr(
        &mut msrs,
        Msr::Ia32VmxProcBasedControls,
        MsrValuePair { edx: 0xfff9_fffa, eax: 0x0401_e172 },
    );
    msrs
}

fn sum_of_counts(controller: &VirtualLocalInterruptController) -> usize {
    let mut sum = 0;
    for vector in 0..=255u8 {
        sum += controller.pending_count(vector);
    }
    sum
}

#[test]
fn test_new_controller_is_empty() {
    let controller = VirtualLocalInterruptController::new();
    assert_eq!(controller.total_interrupts_count(), 0);
    assert_eq!(sum_of_counts(&controller), 0);
    assert!(!controller.requested_poll());
    assert!(!controller.should_disable_preemption_timer());
    assert_eq!(INTERRUPT_COUNT, 256);
}

#[test]
fn test_delay_counts_the_vector() {
    let mut controller = VirtualLocalInterruptController::new();
    delay_interrupt_delivery(&mut controller, 0x21);
    delay_interrupt_delivery(&mut controller, 0x21);
    delay_interrupt_delivery(&mut controller, 0xff);
    assert_eq!(controller.pending_count(0x21), 2);
    assert_eq!(controller.pending_count(0xff), 1);
    assert_eq!(controller.pending_count(0x20), 0);
    assert_eq!(controller.total_interrupts_count(), 3);
    assert_eq!(sum_of_counts(&controller), 3);
}

#[test]
fn test_drain_takes_the_lowest_vector_first() {
    let mut controller = VirtualLocalInterruptController::new();
    delay_interrupt_delivery(&mut controller, 0x80);
    delay_interrupt_delivery(&mut controller, 0x30);
    delay_interrupt_delivery(&mut controller, 0xf0);
    delay_interrupt_delivery(&mut controller, 0x30);
    assert_eq!(check_for_highest_priority_interrupt(&mut controller), Some(0x30));
    assert_eq!(controller.total_interrupts_count(), 3);
    assert_eq!(check_for_highest_priority_interrupt(&mut controller), Some(0x30));
    assert_eq!(check_for_highest_priority_interrupt(&mut controller), Some(0x80));
    assert_eq!(check_for_highest_priority_interrupt(&mut controller), Some(0xf0));
    assert_eq!(controller.total_interrupts_count(), 0);
    assert_eq!(check_for_highest_priority_interrupt(&mut controller), None);
    assert_eq!(controller.total_interrupts_count(), 0);
    assert_eq!(sum_of_counts(&controller), 0);
}

#[test]
fn test_drain_of_vector_zero_and_of_the_last_vector() {
    let mut controller = VirtualLocalInterruptController::new();
    delay_interrupt_delivery(&mut controller, 255);
    assert_eq!(check_for_highest_priority_interrupt(&mut controller), Some(255));
    delay_interrupt_delivery(&mut controller, 0);
    delay_interrupt_delivery(&mut controller, 1);
    assert_eq!(check_for_highest_priority_interrupt(&mut controller), Some(0));
    assert_eq!(check_for_highest_priority_interrupt(&mut controller), Some(1));
}

#[test]
fn test_guest_interruptability() {
    assert!(vmx_is_guest_interruptable(&guest(IF | 0x2, 0)));
    assert!(!vmx_is_guest_interruptable(&guest(0x2, 0)));
    assert!(!vmx_is_guest_interruptable(&guest(IF | 0x2, 1)));
    assert!(!vmx_is_guest_interruptable(&guest(IF | 0x2, 2)));
    assert!(!vmx_is_guest_interruptable(&guest(0, 8)));
}

#[test]
fn test_interruptability_is_readable_without_the_state_when_the_flag_is_clear() {
    let mut vmcs = Vmcs::new();
    assert!(!is_interruptability_readable(&vmcs));
    vmcs.install(VmcsField::GuestRFlags, 0x2);
    assert!(is_interruptability_readable(&vmcs));
    assert!(!vmx_is_guest_interruptable(&vmcs));
    vmcs.install(VmcsField::GuestRFlags, IF);
    assert!(!is_interruptability_readable(&vmcs));
    vmcs.install(VmcsField::GuestInterruptibilityInfo, 0);
    assert!(is_interruptability_readable(&vmcs));
    assert!(vmx_is_guest_interruptable(&vmcs));
}

#[test]
fn test_injection_sets_valid_bit_and_vector() {
    let mut vmcs = guest(IF, 0);
    assert_eq!(vmx_inject_interrupt_into_guest(&mut vmcs, 0x21), Ok(()));
    assert_eq!(vmread(&vmcs, VmcsField::VmEntryIntrInfoField), Ok(0x8000_0021));
    assert_eq!(vmx_inject_interrupt_into_guest(&mut vmcs, 0), Ok(()));
    assert_eq!(vmread(&vmcs, VmcsField::VmEntryIntrInfoField), Ok(0x8000_0000));
    assert_eq!(vmx_inject_interrupt_into_guest(&mut vmcs, 255), Ok(()));
    assert_eq!(vmread(&vmcs, VmcsField::VmEntryIntrInfoField), Ok(0x8000_00ff));
    let mut empty = Vmcs::new();
    assert_eq!(
        vmx_inject_interrupt_into_guest(&mut empty, 0x21),
        Err(VmFail::VmFailValid)
    );
}

#[test]
fn test_external_interrupt_for_an_interruptable_guest_is_injected() {
    let mut controller = VirtualLocalInterruptController::new();
    let mut vmcs = guest(IF, 0);
    let msrs = window_exiting_permitted();
    assert_eq!(
        received_external_interrupt(&mut controller, &mut vmcs, &msrs, 0x41),
        Ok(())
    );
    assert_eq!(vmread(&vmcs, VmcsField::VmEntryIntrInfoField), Ok(0x8000_0041));
    assert_eq!(controller.total_interrupts_count(), 0);
    assert_eq!(sum_of_counts(&controller), 0);
    assert_eq!(controller.pending_count(0x41), 0);
    assert!(!controller.requested_poll());
    assert_eq!(vmread(&vmcs, VmcsField::CpuBasedVmExecControl), Ok(0x8000_0000));
    assert_eq!(vmcs.journal_len(), 1);
}

#[test]
fn test_external_interrupt_for_a_blocked_guest_is_queued_with_window_exiting() {
    let mut controller = VirtualLocalInterruptController::new();
    let mut vmcs = guest(0x2, 0);
    let msrs = window_exiting_permitted();
    assert!(is_wakeup_configurable(&vmcs, &msrs));
    assert_eq!(
        received_external_interrupt(&mut controller, &mut vmcs, &msrs, 0x41),
        Ok(())
    );
    assert_eq!(controller.total_interrupts_count(), 1);
    assert_eq!(controller.pending_count(0x41), 1);
    assert_eq!(sum_of_counts(&controller), 1);
    assert_eq!(vmread(&vmcs, VmcsField::VmEntryIntrInfoField), Ok(0));
    assert_eq!(vmread(&vmcs, VmcsField::CpuBasedVmExecControl), Ok(0x8000_0004));
    assert_eq!(vmread(&vmcs, VmcsField::PinBasedVmExecControl), Ok(0x16));
    assert!(!controller.requested_poll());
    assert!(!controller.should_disable_preemption_timer());
}

#[test]
fn test_external_interrupt_for_a_blocked_guest_falls_back_to_the_timer() {
    let mut controller = VirtualLocalInterruptController::new();
    let mut vmcs = guest(IF, 1);
    let msrs = window_exiting_refused();
    assert_eq!(
        received_external_interrupt(&mut controller, &mut vmcs, &msrs, 0x22),
        Ok(())
    );
    assert_eq!(controller.total_interrupts_count(), 1);
    assert_eq!(controller.pending_count(0x22), 1);
    assert_eq!(vmread(&vmcs, VmcsField::CpuBasedVmExecControl), Ok(0x8000_0000));
    assert_eq!(vmread(&vmcs, VmcsField::PinBasedVmExecControl), Ok(0x56));
    assert_eq!(vmread(&vmcs, VmcsField::VmxPreemptionTimerValue), Ok(0xffff));
    assert_eq!(VM_PREEMPTION_TIMER_VALUE, 0xffff);
    assert!(controller.requested_poll());
    assert!(controller.should_disable_preemption_timer());
}

#[test]
fn test_timer_that_the_guest_had_enabled_is_not_claimed() {
    let mut controller = VirtualLocalInterruptController::new();
    let mut vmcs = guest(0, 0);
    vmcs.install(VmcsField::PinBasedVmExecControl, 0x56);
    let msrs = window_exiting_refused();
    vmx_configure_interrupts_wakeup(&mut controller, &mut vmcs, &msrs);
    assert!(controller.requested_poll());
    assert!(!controller.should_disable_preemption_timer());
    assert_eq!(vmread(&vmcs, VmcsField::PinBasedVmExecControl), Ok(0x56));
    assert_eq!(vmread(&vmcs, VmcsField::VmxPreemptionTimerValue), Ok(0xffff));
    assert_eq!(vmcs.journal_len(), 1);
    assert_eq!(
        vmcs.journal_entry(0),
        VmcsWrite { field: VmcsField::VmxPreemptionTimerValue, value: 0xffff }
    );
}

#[test]
fn test_interrupt_window_exit_injects_and_disarms_when_drained() {
    let mut controller = VirtualLocalInterruptController::new();
    let msrs = window_exiting_permitted();
    let mut vmcs = guest(0x2, 0);
    received_external_interrupt(&mut controller, &mut vmcs, &msrs, 0x51).unwrap();
    received_external_interrupt(&mut controller, &mut vmcs, &msrs, 0x31).unwrap();
    assert_eq!(controller.total_interrupts_count(), 2);
    vmcs.install(VmcsField::GuestRFlags, IF);
    assert_eq!(received_interrupt_window_exit(&mut controller, &mut vmcs), Ok(()));
    assert_eq!(vmread(&vmcs, VmcsField::VmEntryIntrInfoField), Ok(0x8000_0031));
    assert_eq!(controller.total_interrupts_count(), 1);
    assert_eq!(vmread(&vmcs, VmcsField::CpuBasedVmExecControl), Ok(0x8000_0004));
    assert_eq!(received_interrupt_window_exit(&mut controller, &mut vmcs), Ok(()));
    assert_eq!(vmread(&vmcs, VmcsField::VmEntryIntrInfoField), Ok(0x8000_0051));
    assert_eq!(controller.total_interrupts_count(), 0);
    assert_eq!(sum_of_counts(&controller), 0);
    assert_eq!(vmread(&vmcs, VmcsField::CpuBasedVmExecControl), Ok(0x8000_0000));
}

#[test]
fn test_interrupt_window_exit_with_nothing_pending_disarms() {
    let mut controller = VirtualLocalInterruptController::new();
    let mut vmcs = guest(IF, 0);
    vmcs.install(VmcsField::CpuBasedVmExecControl, 0x8000_0004);
    assert_eq!(received_interrupt_window_exit(&mut controller, &mut vmcs), Ok(()));
    assert_eq!(vmread(&vmcs, VmcsField::VmEntryIntrInfoField), Ok(0));
    assert_eq!(vmread(&vmcs, VmcsField::CpuBasedVmExecControl), Ok(0x8000_0000));
    assert_eq!(controller.total_interrupts_count(), 0);
}

#[test]
fn test_preemption_timer_drains_and_disables_its_own_timer() {
    let mut controller = VirtualLocalInterruptController::new();
    let msrs = window_exiting_refused();
    let mut vmcs = guest(0x2, 0);
    received_external_interrupt(&mut controller, &mut vmcs, &msrs, 0x60).unwrap();
    received_external_interrupt(&mut controller, &mut vmcs, &msrs, 0x28).unwrap();
    assert_eq!(vmread(&vmcs, VmcsField::PinBasedVmExecControl), Ok(0x56));
    assert!(controller.requested_poll());
    // the second arming found the timer enabled, so the controller no longer claims it
    assert!(!controller.should_disable_preemption_timer());
    vmcs.install(VmcsField::GuestRFlags, IF);
    assert_eq!(received_preemption_timer(&mut controller, &mut vmcs), Ok(()));
    assert_eq!(vmread(&vmcs, VmcsField::VmEntryIntrInfoField), Ok(0x8000_0028));
    assert_eq!(controller.total_interrupts_count(), 1);
    assert_eq!(received_preemption_timer(&mut controller, &mut vmcs), Ok(()));
    assert_eq!(vmread(&vmcs, VmcsField::VmEntryIntrInfoField), Ok(0x8000_0060));
    assert_eq!(controller.total_interrupts_count(), 0);
    assert_eq!(vmread(&vmcs, VmcsField::PinBasedVmExecControl), Ok(0x56));
    assert!(controller.requested_poll());
}

#[test]
fn test_preemption_timer_disables_a_timer_that_the_controller_enabled() {
    let mut controller = VirtualLocalInterruptController::new();
    let msrs = window_exiting_refused();
    let mut vmcs = guest(0x2, 0);
    received_external_interrupt(&mut controller, &mut vmcs, &msrs, 0x60).unwrap();
    assert!(controller.should_disable_preemption_timer());
    vmcs.install(VmcsField::GuestRFlags, IF);
    assert_eq!(received_preemption_timer(&mut controller, &mut vmcs), Ok(()));
    assert_eq!(vmread(&vmcs, VmcsField::VmEntryIntrInfoField), Ok(0x8000_0060));
    assert_eq!(controller.total_interrupts_count(), 0);
    assert_eq!(vmread(&vmcs, VmcsField::PinBasedVmExecControl), Ok(0x16));
    assert!(!controller.requested_poll());
    assert!(!controller.should_disable_preemption_timer());
}

#[test]
fn test_preemption_timer_without_a_requested_poll_does_nothing() {
    let mut controller = VirtualLocalInterruptController::new();
    delay_interrupt_delivery(&mut controller, 9);
    let mut vmcs = guest(IF, 0);
    assert_eq!(received_preemption_timer(&mut controller, &mut vmcs), Ok(()));
    assert_eq!(controller.total_interrupts_count(), 1);
    assert_eq!(vmread(&vmcs, VmcsField::VmEntryIntrInfoField), Ok(0));
    assert_eq!(vmcs.journal_len(), 0);
}

#[test]
fn test_preemption_timer_waits_for_an_interruptable_guest() {
    let mut controller = VirtualLocalInterruptController::new();
    let msrs = window_exiting_refused();
    let mut vmcs = guest(0x2, 0);
    received_external_interrupt(&mut controller, &mut vmcs, &msrs, 0x60).unwrap();
    let writes = vmcs.journal_len();
    assert_eq!(received_preemption_timer(&mut controller, &mut vmcs), Ok(()));
    assert_eq!(controller.total_interrupts_count(), 1);
    assert_eq!(vmcs.journal_len(), writes);
    assert!(controller.requested_poll());
}

#[test]
fn test_failed_injection_ends_the_drain_with_its_error() {
    let mut controller = VirtualLocalInterruptController::new();
    delay_interrupt_delivery(&mut controller, 5);
    let mut vmcs = Vmcs::new();
    vmcs.install(VmcsField::GuestRFlags, IF);
    vmcs.install(VmcsField::GuestInterruptibilityInfo, 0);
    vmcs.install(VmcsField::CpuBasedVmExecControl, 4);
    assert_eq!(
        received_interrupt_window_exit(&mut controller, &mut vmcs),
        Err(VmFail::VmFailValid)
    );
    assert_eq!(controller.total_interrupts_count(), 0);
    assert_eq!(controller.pending_count(5), 0);
    assert_eq!(vmread(&vmcs, VmcsField::CpuBasedVmExecControl), Ok(4));
}

#[test]
fn test_deconfigure_clears_one_control() {
    let mut vmcs = guest(IF, 0);
    vmcs.install(VmcsField::PinBasedVmExecControl, 0x56);
    vmcs.install(VmcsField::CpuBasedVmExecControl, 0x8000_0006);
    assert_eq!(vmx_deconfigure_timer_wakeup(&mut vmcs), Ok(()));
    assert_eq!(vmread(&vmcs, VmcsField::PinBasedVmExecControl), Ok(0x16));
    assert_eq!(vmx_deconfigure_interrupt_window_exiting(&mut vmcs), Ok(()));
    assert_eq!(vmread(&vmcs, VmcsField::CpuBasedVmExecControl), Ok(0x8000_0002));
    let mut empty = Vmcs::new();
    assert_eq!(vmx_deconfigure_timer_wakeup(&mut empty), Err(VmFail::VmFailValid));
    assert_eq!(
        vmx_deconfigure_interrupt_window_exiting(&mut empty),
        Err(VmFail::VmFailValid)
    );
}

#[test]
fn test_total_is_the_sum_of_the_counts_through_an_interleaving() {
    let mut controller = VirtualLocalInterruptController::new();
    let permitted = window_exiting_permitted();
    let refused = window_exiting_refused();
    let mut vmcs = guest(0x2, 0);
    let mut expected = 0usize;
    let mut seed = 0x2545_f491u32;
    for step in 0..400 {
        seed ^= seed << 13;
        seed ^= seed >> 17;
        seed ^= seed << 5;
        let vector = (seed >> 8) as u8;
        match seed % 5 {
            0 => {
                vmcs.install(VmcsField::GuestRFlags, 0x2);
                received_external_interrupt(&mut controller, &mut vmcs, &permitted, vector)
                    .unwrap();
                expected += 1;
            }
            1 => {
                vmcs.install(VmcsField::GuestRFlags, IF);
                vmcs.install(VmcsField::GuestInterruptibilityInfo, 1);
                received_external_interrupt(&mut controller, &mut vmcs, &refused, vector)
                    .unwrap();
                vmcs.install(VmcsField::GuestInterruptibilityInfo, 0);
                expected += 1;
            }
            2 => {
                vmcs.install(VmcsField::GuestRFlags, IF);
                received_external_interrupt(&mut controller, &mut vmcs, &permitted, vector)
                    .unwrap();
            }
            3 => {
                vmcs.install(VmcsField::GuestRFlags, IF);
                received_interrupt_window_exit(&mut controller, &mut vmcs).unwrap();
                expected = expected.saturating_sub(1);
            }
            _ => {
                vmcs.install(VmcsField::GuestRFlags, IF);
                let drains = controller.requested_poll();
                received_preemption_timer(&mut controller, &mut vmcs).unwrap();
                if drains {
                    expected = expected.saturating_sub(1);
                }
            }
        }
        assert_eq!(controller.total_interrupts_count(), expected, "step {}", step);
        assert_eq!(sum_of_counts(&controller), expected, "step {}", step);
    }
}
