//! The virtual local interrupt controller of one logical processor.
//!
//! An external interrupt that arrives while the guest cannot take it is
//! counted here, by vector, and a wake-up is armed: interrupt-window exiting
//! where the processor permits it, the VMX-preemption timer where not. When
//! the wake-up comes, one pending interrupt is injected, the lowest vector
//! first.
//!
//! That order is the controller's own. A local APIC gives the highest
//! vector the highest priority; a guest that relies on that order sees its
//! pending interrupts in the opposite one.
use vstd::prelude::*;
use crate::msr::{rdmsr, Msr, MsrBank};
use crate::vmcs_fields::{
    VmcsField,
    CPU_BASED_CONTROLS_INTERRUPT_WINDOW_EXITING,
    PIN_BASED_CONTROLS_VMX_PREEMPTION,
};
use crate::vmx::{vmread, vmwrite, VmFail, Vmcs, VmcsView};

verus! {

/// The countdown that the controller gives the VMX-preemption timer.
pub const VM_PREEMPTION_TIMER_VALUE: u64 = 0xffff;

/// The number of interrupt vectors.
pub const INTERRUPT_COUNT: usize = 256;

/// The interrupt-enable flag of RFLAGS.
pub const RFLAGS_INTERRUPT_ENABLE: u64 = 0x200;

/// The valid bit of the VM-entry interruption-information field.
pub const INTERRUPT_INFO_VALID: u64 = 0x8000_0000;

/// The sum of the counts.
pub open spec fn sum_counts(counts: Seq<usize>) -> int
    decreases counts.len(),
{
    if counts.len() == 0 {
        0
    } else {
        sum_counts(counts.drop_last()) + counts.last()
    }
}

/// Whether `vector` is the lowest vector with a pending interrupt.
pub open spec fn is_lowest_pending(counts: Seq<usize>, vector: int) -> bool {
    &&& 0 <= vector < counts.len()
    &&& counts[vector] > 0
    &&& forall|lower: int| 0 <= lower < vector ==> counts[lower] == 0
}

/// The lowest vector with a pending interrupt, where there is one.
pub open spec fn lowest_pending(counts: Seq<usize>) -> int {
    choose|vector: int| is_lowest_pending(counts, vector)
}

/// At most one vector is the lowest with a pending interrupt, and
/// `lowest_pending` is that one.
pub proof fn lemma_lowest_pending_unique(counts: Seq<usize>, vector: int)
    requires
        is_lowest_pending(counts, vector),
    ensures
        lowest_pending(counts) == vector,
{
}

/// Changing one count changes the sum by as much.
pub proof fn lemma_sum_counts_update(counts: Seq<usize>, vector: int, count: usize)
    requires
        0 <= vector < counts.len(),
    ensures
        sum_counts(counts.update(vector, count)) == sum_counts(counts) - counts[vector] + count,
    decreases counts.len(),
{
    let updated = counts.update(vector, count);
    if vector == counts.len() - 1 {
        assert(updated.drop_last() =~= counts.drop_last());
    } else {
        assert(updated.drop_last() =~= counts.drop_last().update(vector, count));
        lemma_sum_counts_update(counts.drop_last(), vector, count);
    }
}

/// The sum is never negative, and it is zero exactly when every count is
/// zero.
pub proof fn lemma_sum_counts_zero(counts: Seq<usize>)
    ensures
        sum_counts(counts) >= 0,
        sum_counts(counts) == 0 <==> (forall|vector: int|
            0 <= vector < counts.len() ==> counts[vector] == 0),
    decreases counts.len(),
{
    if counts.len() > 0 {
        lemma_sum_counts_zero(counts.drop_last());
        let shorter = counts.drop_last();
        assert(forall|vector: int|
            0 <= vector < shorter.len() ==> shorter[vector] == counts[vector]);
        if sum_counts(counts) == 0 {
            assert forall|vector: int| 0 <= vector < counts.len() implies counts[vector] == 0 by {
                if vector < shorter.len() {
                    assert(shorter[vector] == 0);
                }
            }
        }
    }
}

/// No count is above the sum.
pub proof fn lemma_count_at_most_sum(counts: Seq<usize>, vector: int)
    requires
        0 <= vector < counts.len(),
    ensures
        counts[vector] <= sum_counts(counts),
    decreases counts.len(),
{
    lemma_sum_counts_zero(counts.drop_last());
    if vector < counts.len() - 1 {
        lemma_count_at_most_sum(counts.drop_last(), vector);
    }
}

/// The state of the controller: how many interrupts wait for delivery, by
/// vector and in all, and how the wake-up was armed.
pub struct VirtualLocalInterruptController {
    total_interrupts_count: usize,
    delayed_delivery_interrupts: [usize; 256],
    requested_poll_of_interrupts_on_next_preemption_timer: bool,
    we_should_disable_preemption_timer: bool,
}

impl VirtualLocalInterruptController {
    /// The number of interrupts that wait for delivery, by vector.
    pub closed spec fn counts(&self) -> Seq<usize> {
        self.delayed_delivery_interrupts@
    }

    /// The number of interrupts that wait for delivery.
    pub closed spec fn total(&self) -> usize {
        self.total_interrupts_count
    }

    /// Whether the next expiry of the preemption timer is to look for pending
    /// interrupts.
    pub closed spec fn poll_requested(&self) -> bool {
        self.requested_poll_of_interrupts_on_next_preemption_timer
    }

    /// Whether the controller itself enabled the preemption timer and has to
    /// disable it once nothing is pending.
    pub closed spec fn disables_timer(&self) -> bool {
        self.we_should_disable_preemption_timer
    }

    /// The invariant of the controller: there is a count for each vector, and
    /// the total is the sum of the counts.
    pub open spec fn wf(&self) -> bool {
        &&& self.counts().len() == INTERRUPT_COUNT
        &&& self.total() == sum_counts(self.counts())
    }

    /// Whether the two controllers hold the same pending interrupts.
    pub open spec fn same_pending(&self, other: &VirtualLocalInterruptController) -> bool {
        self.counts() == other.counts() && self.total() == other.total()
    }

    /// Whether the two controllers hold the same wake-up flags.
    pub open spec fn same_flags(&self, other: &VirtualLocalInterruptController) -> bool {
        self.poll_requested() == other.poll_requested() && self.disables_timer()
            == other.disables_timer()
    }

    /// The controller as the loader hands it over: zeroed.
    pub fn new() -> (controller: VirtualLocalInterruptController)
        ensures
            controller.wf(),
            controller.total() == 0,
            forall|vector: int| 0 <= vector < INTERRUPT_COUNT ==> controller.counts()[vector] == 0,
            !controller.poll_requested(),
            !controller.disables_timer(),
    {
        let controller = VirtualLocalInterruptController {
            total_interrupts_count: 0,
            delayed_delivery_interrupts: [0usize;256],
            requested_poll_of_interrupts_on_next_preemption_timer: false,
            we_should_disable_preemption_timer: false,
        };
        proof {
            lemma_sum_counts_zero(controller.counts());
        }
        controller
    }

    /// The number of interrupts that wait for delivery.
    pub fn total_interrupts_count(&self) -> (total: usize)
        ensures
            total == self.total(),
    {
        self.total_interrupts_count
    }

    /// The number of interrupts of `vector` that wait for delivery.
    pub fn pending_count(&self, vector: u8) -> (count: usize)
        ensures
            count == self.counts()[vector as int],
    {
        self.delayed_delivery_interrupts[vector as usize]
    }

    /// Whether the next expiry of the preemption timer is to look for pending
    /// interrupts.
    pub fn requested_poll(&self) -> (requested: bool)
        ensures
            requested == self.poll_requested(),
    {
        self.requested_poll_of_interrupts_on_next_preemption_timer
    }

    /// Whether the controller itself enabled the preemption timer.
    pub fn should_disable_preemption_timer(&self) -> (disables: bool)
        ensures
            disables == self.disables_timer(),
    {
        self.we_should_disable_preemption_timer
    }
}

/// Counts one more interrupt of the vector as waiting for delivery.
pub fn delay_interrupt_delivery(
    controller: &mut VirtualLocalInterruptController,
    interrupt_number: u64,
)
    requires
        old(controller).wf(),
        interrupt_number < INTERRUPT_COUNT,
        old(controller).total() < usize::MAX,
    ensures
        final(controller).wf(),
        final(controller).total() == old(controller).total() + 1,
        final(controller).counts() == old(controller).counts().update(
            interrupt_number as int,
            (old(controller).counts()[interrupt_number as int] + 1) as usize,
        ),
        final(controller).counts()[interrupt_number as int] == old(controller).counts()[interrupt_number as int] + 1,
        final(controller).same_flags(old(controller)),
{
    let vector: usize = interrupt_number as usize;
    proof {
        lemma_count_at_most_sum(controller.counts(), vector as int);
        lemma_sum_counts_update(
            controller.counts(),
            vector as int,
            (controller.counts()[vector as int] + 1) as usize,
        );
    }
    controller.delayed_delivery_interrupts[vector] = controller.delayed_delivery_interrupts[vector]
        + 1;
    controller.total_interrupts_count = controller.total_interrupts_count + 1;
}

/// The counts after one pending interrupt is taken off: that of the lowest
/// vector with a pending interrupt is one less. Where nothing is pending
/// they are as before.
pub open spec fn counts_after_drain(counts: Seq<usize>) -> Seq<usize> {
    if sum_counts(counts) == 0 {
        counts
    } else {
        counts.update(lowest_pending(counts), (counts[lowest_pending(counts)] - 1) as usize)
    }
}

/// Takes one pending interrupt off the controller: that of the lowest vector
/// for which one is pending. Returns `None`, and changes nothing, when none
/// is pending.
pub fn check_for_highest_priority_interrupt(
    controller: &mut VirtualLocalInterruptController,
) -> (interrupt: Option<u64>)
    requires
        old(controller).wf(),
    ensures
        final(controller).wf(),
        final(controller).same_flags(old(controller)),
        old(controller).total() == 0 ==> interrupt is None && final(controller).same_pending(
            old(controller),
        ),
        old(controller).total() > 0 ==> interrupt is Some && is_lowest_pending(
            old(controller).counts(),
            interrupt.unwrap() as int,
        ) && final(controller).total() == old(controller).total() - 1 && final(controller).counts() == old(controller).counts().update(
            interrupt.unwrap() as int,
            (old(controller).counts()[interrupt.unwrap() as int] - 1) as usize,
        ),
{
    if controller.total_interrupts_count == 0 {
        return None;
    }
    let mut vector: usize = 0;
    while vector < INTERRUPT_COUNT
        invariant
            vector <= INTERRUPT_COUNT,
            *controller == *old(controller),
            controller.wf(),
            controller.total() > 0,
            forall|lower: int| 0 <= lower < vector ==> controller.counts()[lower] == 0,
        decreases INTERRUPT_COUNT - vector,
    {
        if controller.delayed_delivery_interrupts[vector] > 0 {
            proof {
                lemma_sum_counts_update(
                    controller.counts(),
                    vector as int,
                    (controller.counts()[vector as int] - 1) as usize,
                );
                lemma_lowest_pending_unique(controller.counts(), vector as int);
            }
            controller.delayed_delivery_interrupts[vector] =
                controller.delayed_delivery_interrupts[vector] - 1;
            controller.total_interrupts_count = controller.total_interrupts_count - 1;
            return Some(vector as u64);
        }
        vector += 1;
    }
    proof {
        lemma_sum_counts_zero(controller.counts());
    }
    None
}

/// Whether the monitor can read if the guest takes interrupts: the guest's
/// RFLAGS is readable, and, where its interrupt flag is set, the
/// interruptibility state is too.
pub open spec fn interruptability_readable(vmcs: VmcsView) -> bool {
    &&& vmcs.supports(VmcsField::GuestRFlags)
    &&& vmcs.value(VmcsField::GuestRFlags) & RFLAGS_INTERRUPT_ENABLE != 0 ==> vmcs.supports(
        VmcsField::GuestInterruptibilityInfo,
    )
}

/// Whether the guest takes an interrupt now: its interrupt flag is set and
/// nothing blocks interrupts (STI, MOV SS, SMI, NMI).
pub open spec fn guest_interruptable(vmcs: VmcsView) -> bool {
    &&& vmcs.value(VmcsField::GuestRFlags) & RFLAGS_INTERRUPT_ENABLE != 0
    &&& vmcs.value(VmcsField::GuestInterruptibilityInfo) == 0
}

/// Tells whether the guest takes an interrupt now.
pub fn vmx_is_guest_interruptable(vmcs: &Vmcs) -> (interruptable: bool)
    requires
        interruptability_readable(vmcs@),
    ensures
        interruptable == guest_interruptable(vmcs@),
{
    let guest_rflags: u64 = match vmread(vmcs, VmcsField::GuestRFlags) {
        Ok(value) => value,
        Err(_) => 0,
    };
    if (guest_rflags & RFLAGS_INTERRUPT_ENABLE) == 0 {
        return false;
    }
    let guest_interruptability_info: u64 = match vmread(
        vmcs,
        VmcsField::GuestInterruptibilityInfo,
    ) {
        Ok(value) => value,
        Err(_) => 1,
    };
    guest_interruptability_info == 0
}

/// The VM-entry interruption information that injects an external interrupt
/// of the vector: the vector in bits 0 to 7, type 0 in bits 8 to 10, and the
/// valid bit.
pub open spec fn injection_info(vector: u64) -> u64 {
    vector | INTERRUPT_INFO_VALID
}

/// Has the next VM entry deliver an external interrupt of the vector to the
/// guest.
pub fn vmx_inject_interrupt_into_guest(vmcs: &mut Vmcs, vector: u64) -> (result: Result<
    (),
    VmFail,
>)
    requires
        vector < INTERRUPT_COUNT,
    ensures
        result == old(vmcs)@.write_result(VmcsField::VmEntryIntrInfoField),
        final(vmcs)@ == old(vmcs)@.write(VmcsField::VmEntryIntrInfoField, injection_info(vector)),
        injection_info(vector) & 0xff == vector,
        injection_info(vector) & 0x700 == 0,
        injection_info(vector) & INTERRUPT_INFO_VALID == INTERRUPT_INFO_VALID,
{
    let interrupt_info: u64 = vector | INTERRUPT_INFO_VALID;
    assert((vector | 0x8000_0000) & 0xff == vector && (vector | 0x8000_0000) & 0x700 == 0 && (vector
        | 0x8000_0000) & 0x8000_0000 == 0x8000_0000) by (bit_vector)
        requires
            vector < 256,
    ;
    vmwrite(vmcs, VmcsField::VmEntryIntrInfoField, interrupt_info)
}

/// Whether the processor permits interrupt-window exiting: the upper half of
/// the capability MSR of the primary processor-based controls, which holds
/// the bits that may be set, holds that bit.
pub open spec fn permits_interrupt_window_exiting(msrs: &MsrBank) -> bool {
    (msrs.pair(Msr::Ia32VmxProcBasedControls).edx as u64)
        & CPU_BASED_CONTROLS_INTERRUPT_WINDOW_EXITING != 0
}

/// Whether the components that arming the wake-up reads and writes are
/// supported: the primary processor-based controls where interrupt-window
/// exiting is permitted, the pin-based controls and the preemption timer
/// value where not.
pub open spec fn wakeup_configurable(vmcs: VmcsView, msrs: &MsrBank) -> bool {
    if permits_interrupt_window_exiting(msrs) {
        vmcs.supports(VmcsField::CpuBasedVmExecControl)
    } else {
        vmcs.supports(VmcsField::PinBasedVmExecControl) && vmcs.supports(
            VmcsField::VmxPreemptionTimerValue,
        )
    }
}

/// The VMCS after the wake-up is armed. With interrupt-window exiting, that
/// control is set. With the timer, its control is set unless it is already,
/// and the countdown is written.
pub open spec fn wakeup_configured(vmcs: VmcsView, msrs: &MsrBank) -> VmcsView {
    if permits_interrupt_window_exiting(msrs) {
        vmcs.write(
            VmcsField::CpuBasedVmExecControl,
            vmcs.value(VmcsField::CpuBasedVmExecControl)
                | CPU_BASED_CONTROLS_INTERRUPT_WINDOW_EXITING,
        )
    } else if vmcs.value(VmcsField::PinBasedVmExecControl) & PIN_BASED_CONTROLS_VMX_PREEMPTION
        == 0 {
        vmcs.write(
            VmcsField::PinBasedVmExecControl,
            vmcs.value(VmcsField::PinBasedVmExecControl) | PIN_BASED_CONTROLS_VMX_PREEMPTION,
        ).write(VmcsField::VmxPreemptionTimerValue, VM_PREEMPTION_TIMER_VALUE)
    } else {
        vmcs.write(VmcsField::VmxPreemptionTimerValue, VM_PREEMPTION_TIMER_VALUE)
    }
}

/// Arms the wake-up for a pending interrupt. Interrupt-window exiting is
/// taken where the processor permits it and leaves the flags of the
/// controller alone. Where it does not, the preemption timer is taken: the
/// controller asks for a poll at its next expiry and remembers whether it
/// enabled the timer itself.
pub fn vmx_configure_interrupts_wakeup(
    controller: &mut VirtualLocalInterruptController,
    vmcs: &mut Vmcs,
    msrs: &MsrBank,
)
    requires
        wakeup_configurable(old(vmcs)@, msrs),
    ensures
        final(vmcs)@ == wakeup_configured(old(vmcs)@, msrs),
        final(controller).same_pending(old(controller)),
        old(controller).wf() ==> final(controller).wf(),
        permits_interrupt_window_exiting(msrs) ==> final(controller).same_flags(old(controller)),
        !permits_interrupt_window_exiting(msrs) ==> final(controller).poll_requested() && final(controller).disables_timer() == (old(vmcs)@.value(VmcsField::PinBasedVmExecControl)
            & PIN_BASED_CONTROLS_VMX_PREEMPTION == 0),
{
    let pair = rdmsr(msrs, Msr::Ia32VmxProcBasedControls);
    let allowed_exit_values: u32 = pair.edx;
    if (allowed_exit_values as u64) & CPU_BASED_CONTROLS_INTERRUPT_WINDOW_EXITING != 0 {
        let cpu_based_controls: u64 = match vmread(vmcs, VmcsField::CpuBasedVmExecControl) {
            Ok(value) => value,
            Err(_) => 0,
        };
        let _ = vmwrite(
            vmcs,
            VmcsField::CpuBasedVmExecControl,
            cpu_based_controls | CPU_BASED_CONTROLS_INTERRUPT_WINDOW_EXITING,
        );
    } else {
        let pin_based_controls: u64 = match vmread(vmcs, VmcsField::PinBasedVmExecControl) {
            Ok(value) => value,
            Err(_) => 0,
        };
        if (pin_based_controls & PIN_BASED_CONTROLS_VMX_PREEMPTION) == 0 {
            let _ = vmwrite(
                vmcs,
                VmcsField::PinBasedVmExecControl,
                pin_based_controls | PIN_BASED_CONTROLS_VMX_PREEMPTION,
            );
            controller.we_should_disable_preemption_timer = true;
        } else {
            controller.we_should_disable_preemption_timer = false;
        }
        let _ = vmwrite(vmcs, VmcsField::VmxPreemptionTimerValue, VM_PREEMPTION_TIMER_VALUE);
        controller.requested_poll_of_interrupts_on_next_preemption_timer = true;
    }
}

/// The VMCS after the preemption timer is disabled.
pub open spec fn timer_wakeup_deconfigured(vmcs: VmcsView) -> VmcsView {
    vmcs.write(
        VmcsField::PinBasedVmExecControl,
        vmcs.value(VmcsField::PinBasedVmExecControl) & !PIN_BASED_CONTROLS_VMX_PREEMPTION,
    )
}

/// Disables the preemption timer.
pub fn vmx_deconfigure_timer_wakeup(vmcs: &mut Vmcs) -> (result: Result<(), VmFail>)
    ensures
        result == old(vmcs)@.write_result(VmcsField::PinBasedVmExecControl),
        final(vmcs)@ == timer_wakeup_deconfigured(old(vmcs)@),
{
    let pin_based_controls: u64 = match vmread(vmcs, VmcsField::PinBasedVmExecControl) {
        Ok(value) => value,
        Err(fail) => {
            return Err(fail);
        },
    };
    vmwrite(
        vmcs,
        VmcsField::PinBasedVmExecControl,
        pin_based_controls & !PIN_BASED_CONTROLS_VMX_PREEMPTION,
    )
}

/// The VMCS after interrupt-window exiting is disabled.
pub open spec fn interrupt_window_exiting_deconfigured(vmcs: VmcsView) -> VmcsView {
    vmcs.write(
        VmcsField::CpuBasedVmExecControl,
        vmcs.value(VmcsField::CpuBasedVmExecControl) & !CPU_BASED_CONTROLS_INTERRUPT_WINDOW_EXITING,
    )
}

/// Disables interrupt-window exiting.
pub fn vmx_deconfigure_interrupt_window_exiting(vmcs: &mut Vmcs) -> (result: Result<(), VmFail>)
    ensures
        result == old(vmcs)@.write_result(VmcsField::CpuBasedVmExecControl),
        final(vmcs)@ == interrupt_window_exiting_deconfigured(old(vmcs)@),
{
    let cpu_based_controls: u64 = match vmread(vmcs, VmcsField::CpuBasedVmExecControl) {
        Ok(value) => value,
        Err(fail) => {
            return Err(fail);
        },
    };
    vmwrite(
        vmcs,
        VmcsField::CpuBasedVmExecControl,
        cpu_based_controls & !CPU_BASED_CONTROLS_INTERRUPT_WINDOW_EXITING,
    )
}

/// The VMCS after the interrupt that is taken off `counts` is injected. Where
/// nothing is pending it is as before.
pub open spec fn vmcs_after_injection(vmcs: VmcsView, counts: Seq<usize>) -> VmcsView {
    if sum_counts(counts) == 0 {
        vmcs
    } else {
        vmcs.write(VmcsField::VmEntryIntrInfoField, injection_info(lowest_pending(counts) as u64))
    }
}

/// The result of injecting the interrupt that is taken off `counts`: that of
/// the write, and success where nothing is pending.
pub open spec fn injection_result(vmcs: VmcsView, counts: Seq<usize>) -> Result<(), VmFail> {
    if sum_counts(counts) == 0 {
        Ok(())
    } else {
        vmcs.write_result(VmcsField::VmEntryIntrInfoField)
    }
}

/// What handling an external interrupt of `vector` does, from the controller
/// and the VMCS before to those after, and with which result.
///
/// A guest that takes interrupts now has the interrupt injected, and the
/// controller is as before. For a guest that does not, the count of the vector
/// and the total are one more, the wake-up is armed, and the result is
/// success.
pub open spec fn external_interrupt_received(
    before: VirtualLocalInterruptController,
    vmcs_before: VmcsView,
    msrs: &MsrBank,
    vector: u8,
    after: VirtualLocalInterruptController,
    vmcs_after: VmcsView,
    result: Result<(), VmFail>,
) -> bool {
    if guest_interruptable(vmcs_before) {
        &&& after == before
        &&& result == vmcs_before.write_result(VmcsField::VmEntryIntrInfoField)
        &&& vmcs_after == vmcs_before.write(
            VmcsField::VmEntryIntrInfoField,
            injection_info(vector as u64),
        )
    } else {
        &&& result == Ok::<(), VmFail>(())
        &&& after.total() == before.total() + 1
        &&& after.counts() == before.counts().update(
            vector as int,
            (before.counts()[vector as int] + 1) as usize,
        )
        &&& after.counts()[vector as int] == before.counts()[vector as int] + 1
        &&& vmcs_after == wakeup_configured(vmcs_before, msrs)
        &&& permits_interrupt_window_exiting(msrs) ==> after.same_flags(&before)
        &&& !permits_interrupt_window_exiting(msrs) ==> after.poll_requested()
            && after.disables_timer() == (vmcs_before.value(VmcsField::PinBasedVmExecControl)
            & PIN_BASED_CONTROLS_VMX_PREEMPTION == 0)
    }
}

/// What the handling of an external interrupt needs: the interruptability of
/// the guest can be read, and, for a guest that does not take interrupts now,
/// there is room for one more pending interrupt and the wake-up can be
/// armed.
pub open spec fn external_interrupt_receivable(
    controller: VirtualLocalInterruptController,
    vmcs: VmcsView,
    msrs: &MsrBank,
) -> bool {
    &&& interruptability_readable(vmcs)
    &&& !guest_interruptable(vmcs) ==> controller.total() < usize::MAX && wakeup_configurable(
        vmcs,
        msrs,
    )
}

/// Handles an external interrupt of `vector` that arrived while the guest
/// ran. A guest that takes interrupts now gets it at the next VM entry, and
/// the controller is left alone. For a guest that does not, the interrupt is
/// counted as pending and the wake-up is armed.
pub fn received_external_interrupt(
    controller: &mut VirtualLocalInterruptController,
    vmcs: &mut Vmcs,
    msrs: &MsrBank,
    vector: u8,
) -> (result: Result<(), VmFail>)
    requires
        old(controller).wf(),
        external_interrupt_receivable(*old(controller), old(vmcs)@, msrs),
    ensures
        final(controller).wf(),
        external_interrupt_received(
            *old(controller),
            old(vmcs)@,
            msrs,
            vector,
            *final(controller),
            final(vmcs)@,
            result,
        ),
{
    if vmx_is_guest_interruptable(vmcs) {
        vmx_inject_interrupt_into_guest(vmcs, vector as u64)
    } else {
        delay_interrupt_delivery(controller, vector as u64);
        vmx_configure_interrupts_wakeup(controller, vmcs, msrs);
        Ok(())
    }
}

/// What draining does to the pending interrupts, whichever wake-up led to
/// it: the counts are those after the lowest pending vector is taken off, and
/// where something was pending the total is one less.
pub open spec fn pending_drained(
    before: VirtualLocalInterruptController,
    after: VirtualLocalInterruptController,
) -> bool {
    &&& after.counts() == counts_after_drain(before.counts())
    &&& before.total() > 0 ==> after.total() == before.total() - 1 && is_lowest_pending(
        before.counts(),
        lowest_pending(before.counts()),
    )
    &&& before.total() == 0 ==> after.total() == 0
}

/// What handling the expiry of the preemption timer does, from the
/// controller and the VMCS before to those after, and with which result.
///
/// Unless the controller asked for a poll and the guest takes interrupts
/// now, nothing changes. Else one pending interrupt is drained and injected;
/// if that write fails, its error is the result. Once nothing is pending, a
/// timer that the controller enabled itself is disabled, and with that done
/// both flags of the controller are cleared.
pub open spec fn preemption_timer_received(
    before: VirtualLocalInterruptController,
    vmcs_before: VmcsView,
    after: VirtualLocalInterruptController,
    vmcs_after: VmcsView,
    result: Result<(), VmFail>,
) -> bool {
    if !(before.poll_requested() && guest_interruptable(vmcs_before)) {
        &&& result == Ok::<(), VmFail>(())
        &&& after == before
        &&& vmcs_after == vmcs_before
    } else {
        let injected = vmcs_after_injection(vmcs_before, before.counts());
        &&& pending_drained(before, after)
        &&& if injection_result(vmcs_before, before.counts()) is Err {
            &&& result == Err::<(), VmFail>(VmFail::VmFailValid)
            &&& vmcs_after == vmcs_before
            &&& after.same_flags(&before)
        } else if after.total() == 0 && before.disables_timer() {
            &&& result == injected.write_result(VmcsField::PinBasedVmExecControl)
            &&& vmcs_after == timer_wakeup_deconfigured(injected)
            &&& result is Ok ==> !after.poll_requested() && !after.disables_timer()
            &&& result is Err ==> after.same_flags(&before)
        } else {
            &&& result == Ok::<(), VmFail>(())
            &&& vmcs_after == injected
            &&& after.same_flags(&before)
        }
    }
}

/// Handles the expiry of the VMX-preemption timer. Where the controller asked
/// for a poll and the guest takes interrupts now, the pending interrupt of
/// the lowest vector is taken off and injected. Once nothing is pending, a
/// timer that the controller enabled itself is disabled and the request for
/// a poll is dropped. A failed write ends the handling with its error.
pub fn received_preemption_timer(
    controller: &mut VirtualLocalInterruptController,
    vmcs: &mut Vmcs,
) -> (result: Result<(), VmFail>)
    requires
        old(controller).wf(),
        old(controller).poll_requested() ==> interruptability_readable(old(vmcs)@),
    ensures
        final(controller).wf(),
        preemption_timer_received(
            *old(controller),
            old(vmcs)@,
            *final(controller),
            final(vmcs)@,
            result,
        ),
{
    if controller.requested_poll_of_interrupts_on_next_preemption_timer
        && vmx_is_guest_interruptable(vmcs) {
        if let Some(interrupt_number) = check_for_highest_priority_interrupt(controller) {
            match vmx_inject_interrupt_into_guest(vmcs, interrupt_number) {
                Ok(()) => {},
                Err(fail) => {
                    return Err(fail);
                },
            }
        }
        if controller.total_interrupts_count == 0 && controller.we_should_disable_preemption_timer {
            match vmx_deconfigure_timer_wakeup(vmcs) {
                Ok(()) => {},
                Err(fail) => {
                    return Err(fail);
                },
            }
            controller.we_should_disable_preemption_timer = false;
            controller.requested_poll_of_interrupts_on_next_preemption_timer = false;
        }
    }
    Ok(())
}

/// What handling an interrupt-window exit does, from the controller and the
/// VMCS before to those after, and with which result.
///
/// One pending interrupt is drained and injected; if that write fails, its
/// error is the result. Once nothing is pending, interrupt-window exiting is
/// disabled. The flags of the controller are as before.
pub open spec fn interrupt_window_exit_received(
    before: VirtualLocalInterruptController,
    vmcs_before: VmcsView,
    after: VirtualLocalInterruptController,
    vmcs_after: VmcsView,
    result: Result<(), VmFail>,
) -> bool {
    let injected = vmcs_after_injection(vmcs_before, before.counts());
    &&& pending_drained(before, after)
    &&& after.same_flags(&before)
    &&& if injection_result(vmcs_before, before.counts()) is Err {
        &&& result == Err::<(), VmFail>(VmFail::VmFailValid)
        &&& vmcs_after == vmcs_before
    } else if after.total() == 0 {
        &&& result == injected.write_result(VmcsField::CpuBasedVmExecControl)
        &&& vmcs_after == interrupt_window_exiting_deconfigured(injected)
    } else {
        &&& result == Ok::<(), VmFail>(())
        &&& vmcs_after == injected
    }
}

/// Handles an interrupt-window exit, which the processor takes once the
/// guest takes interrupts. The pending interrupt of the lowest vector is
/// taken off and injected. Once nothing is pending, interrupt-window exiting
/// is disabled. A failed write ends the handling with its error.
pub fn received_interrupt_window_exit(
    controller: &mut VirtualLocalInterruptController,
    vmcs: &mut Vmcs,
) -> (result: Result<(), VmFail>)
    requires
        old(controller).wf(),
        interruptability_readable(old(vmcs)@),
        guest_interruptable(old(vmcs)@),
    ensures
        final(controller).wf(),
        interrupt_window_exit_received(
            *old(controller),
            old(vmcs)@,
            *final(controller),
            final(vmcs)@,
            result,
        ),
{
    if let Some(interrupt_number) = check_for_highest_priority_interrupt(controller) {
        match vmx_inject_interrupt_into_guest(vmcs, interrupt_number) {
            Ok(()) => {},
            Err(fail) => {
                return Err(fail);
            },
        }
    }
    if controller.total_interrupts_count == 0 {
        return vmx_deconfigure_interrupt_window_exiting(vmcs);
    }
    Ok(())
}

/// Tells whether the interruptability of the guest can be read.
pub fn is_interruptability_readable(vmcs: &Vmcs) -> (readable: bool)
    ensures
        readable == interruptability_readable(vmcs@),
{
    match vmread(vmcs, VmcsField::GuestRFlags) {
        Ok(guest_rflags) => (guest_rflags & RFLAGS_INTERRUPT_ENABLE) == 0 || vmcs.supports(
            VmcsField::GuestInterruptibilityInfo,
        ),
        Err(_) => false,
    }
}

/// Tells whether an external interrupt can be handled.
pub fn is_external_interrupt_receivable(
    controller: &VirtualLocalInterruptController,
    vmcs: &Vmcs,
    msrs: &MsrBank,
) -> (receivable: bool)
    ensures
        receivable == external_interrupt_receivable(*controller, vmcs@, msrs),
{
    if !is_interruptability_readable(vmcs) {
        return false;
    }
    vmx_is_guest_interruptable(vmcs) || (controller.total_interrupts_count < usize::MAX
        && is_wakeup_configurable(vmcs, msrs))
}

/// Tells whether the wake-up can be armed.
pub fn is_wakeup_configurable(vmcs: &Vmcs, msrs: &MsrBank) -> (configurable: bool)
    ensures
        configurable == wakeup_configurable(vmcs@, msrs),
{
    let pair = rdmsr(msrs, Msr::Ia32VmxProcBasedControls);
    if (pair.edx as u64) & CPU_BASED_CONTROLS_INTERRUPT_WINDOW_EXITING != 0 {
        vmcs.supports(VmcsField::CpuBasedVmExecControl)
    } else {
        vmcs.supports(VmcsField::PinBasedVmExecControl) && vmcs.supports(
            VmcsField::VmxPreemptionTimerValue,
        )
    }
}

/// An external interrupt that arrives for a guest that takes no interrupts
/// adds one to the count of its vector and to the total, and leaves the
/// counts of the other vectors. One that arrives for a guest that takes
/// interrupts leaves every count and the total.
pub proof fn lemma_external_interrupt_counts(
    before: VirtualLocalInterruptController,
    vmcs_before: VmcsView,
    msrs: &MsrBank,
    vector: u8,
    after: VirtualLocalInterruptController,
    vmcs_after: VmcsView,
    result: Result<(), VmFail>,
)
    requires
        before.wf(),
        external_interrupt_received(before, vmcs_before, msrs, vector, after, vmcs_after, result),
    ensures
        !guest_interruptable(vmcs_before) ==> {
            &&& after.total() == before.total() + 1
            &&& after.counts()[vector as int] == before.counts()[vector as int] + 1
            &&& forall|other: int|
                0 <= other < INTERRUPT_COUNT && other != vector ==> after.counts()[other]
                    == before.counts()[other]
        },
        guest_interruptable(vmcs_before) ==> after.total() == before.total() && after.counts()
            == before.counts(),
{
}

/// A drain with something pending takes one interrupt off the lowest vector
/// that has one, and off no other, and the total is one less.
pub proof fn lemma_drain_takes_the_lowest_vector(
    before: VirtualLocalInterruptController,
    after: VirtualLocalInterruptController,
)
    requires
        before.wf(),
        pending_drained(before, after),
        before.total() > 0,
    ensures
        after.total() == before.total() - 1,
        is_lowest_pending(before.counts(), lowest_pending(before.counts())),
        after.counts()[lowest_pending(before.counts())] == before.counts()[lowest_pending(
            before.counts(),
        )] - 1,
        forall|other: int|
            0 <= other < INTERRUPT_COUNT && other != lowest_pending(before.counts())
                ==> after.counts()[other] == before.counts()[other],
{
}

/// A drain with something pending injects the lowest vector that has an
/// interrupt pending, though higher vectors may be pending too: where the
/// VM-entry interruption information can be written, it holds that vector
/// with the valid bit after an interrupt-window exit, and after an expiry of
/// the preemption timer for which a poll was requested on a guest that
/// takes interrupts.
pub proof fn lemma_drain_injects_the_lowest_vector(
    before: VirtualLocalInterruptController,
    vmcs_before: VmcsView,
    after: VirtualLocalInterruptController,
    vmcs_after: VmcsView,
    result: Result<(), VmFail>,
)
    requires
        before.wf(),
        before.total() > 0,
        vmcs_before.supports(VmcsField::VmEntryIntrInfoField),
        interrupt_window_exit_received(before, vmcs_before, after, vmcs_after, result) || (
        before.poll_requested() && guest_interruptable(vmcs_before) && preemption_timer_received(
            before,
            vmcs_before,
            after,
            vmcs_after,
            result,
        )),
    ensures
        is_lowest_pending(before.counts(), lowest_pending(before.counts())),
        vmcs_after.value(VmcsField::VmEntryIntrInfoField) == injection_info(
            lowest_pending(before.counts()) as u64,
        ),
        after.total() == before.total() - 1,
        after.counts()[lowest_pending(before.counts())] == before.counts()[lowest_pending(
            before.counts(),
        )] - 1,
{
}

/// Whatever the controller is asked to do, the total stays the sum of the
/// counts, so that it is zero exactly when no interrupt is pending for any
/// vector.
pub proof fn lemma_total_is_zero_iff_nothing_pending(controller: &VirtualLocalInterruptController)
    requires
        controller.wf(),
    ensures
        controller.total() == 0 <==> (forall|vector: int|
            0 <= vector < INTERRUPT_COUNT ==> controller.counts()[vector] == 0),
        forall|vector: int|
            0 <= vector < INTERRUPT_COUNT ==> controller.counts()[vector] <= controller.total(),
{
    lemma_sum_counts_zero(controller.counts());
    assert forall|vector: int| 0 <= vector < INTERRUPT_COUNT implies controller.counts()[vector]
        <= controller.total() by {
        lemma_count_at_most_sum(controller.counts(), vector);
    }
}

} // verus!
