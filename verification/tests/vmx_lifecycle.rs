use rustyvisor::interrupts::IdtDescriptor;
use rustyvisor::msr::{rdmsr, wrmsr, Msr, MsrBank, MsrValuePair};
use rustyvisor::processor::{ProcessorState, SegmentSelectors};
use rustyvisor::segmentation::{GdtDescriptor, GdtEntry};
use rustyvisor::vmcs_fields::{VmcsField, VMCS_FIELD_COUNT};
use rustyvisor::vmx::{
    disable, enable, features_report_vmx, get_vmcs_revision_identifier, guest_entry_result,
    load_vm, prepare_vmx_memory_region, set_cr0_bits, set_cr4_bits, set_lock_bit, unload_vm,
    vmptrld_completed, vmread, vmx_available, vmxon_completed, LoadVmAction, LoadVmContext, LoadVmEvent,
    LoadVmState, LoadVmStep, VmFail, Vmcs, VmxEnablementError, VmxInstruction, VmxState,
};
use rustyvisor::VCpu;

fn sample_vcpu() -> VCpu {
    VCpu {
        this_vcpu: 0xffff_8000_0010_0000,
        vmxon_region: 0xffff_8000_0020_0000,
        vmcs: 0xffff_8000_0030_0000,
        vmxon_region_phys: 0x20_0000,
        vmcs_phys: 0x30_0000,
        vmxon_region_size: 0x1000,
        vmcs_size: 0x1000,
        loaded_successfully: false,
        stack_base: 0xffff_8000_0040_0000,
        stack_size: 0x1000,
        stack_top: 0xffff_8000_0040_1000,
        host_gdt_base: 0xffff_8000_0050_0000,
        host_gdt_limit: 0x3f,
        virtual_local_interrupt_controller: 0xffff_8000_0060_0000,
        msr_bitmap: 0x70_0000,
        tr_base: 0xffff_8000_0080_0000,
        tr_selector: 0x38,
    }
}

fn sample_cpu() -> ProcessorState {
    ProcessorState {
        cr0: 0x8005_0033,
        cr3: 0x1aa000,
        cr4: 0x0668,
        dr7: 0x400,
        debug_control: 0,
        selectors: SegmentSelectors { cs: 0x08, ds: 0x10, es: 0x10, fs: 0, gs: 0, ss: 0x10 },
        tr: 0,
        ldtr: 0,
        gdtr: GdtDescriptor { limit: 0x17, base: 0xffff_8000_0090_0000 },
        idtr: IdtDescriptor { limit: 0xfff, base: 0xffff_8000_00a0_0000 },
    }
}

fn sample_gdt() -> Vec<GdtEntry> {
    let flat = |access: u8, granularity: u8| GdtEntry {
        limit_low: 0xffff,
        base_low: 0,
        base_middle: 0,
        access,
        granularity,
        base_high: 0,
    };
    vec![flat(0, 0), flat(0x9b, 0xaf), flat(0x93, 0xcf)]
}

fn sample_msrs() -> MsrBank {
    let mut msrs = MsrBank::new();
    wrmsr(&mut msrs, Msr::Ia32VmxBasic, MsrValuePair { edx: 0x00da_0400, eax: 0x12 });
    wrmsr(&mut msrs, Msr::Ia32VmxCr0Fixed0, MsrValuePair { edx: 0, eax: 0x8000_0021 });
    wrmsr(&mut msrs, Msr::Ia32VmxCr0Fixed1, MsrValuePair { edx: 0, eax: 0xffff_ffff });
    wrmsr(&mut msrs, Msr::Ia32VmxCr4Fixed0, MsrValuePair { edx: 0, eax: 0x2000 });
    wrmsr(&mut msrs, Msr::Ia32VmxCr4Fixed1, MsrValuePair { edx: 0, eax: 0x0037_27ff });
    msrs
}

fn all_supported() -> Vmcs {
    let mut vmcs = Vmcs::new();
    for index in 0..VMCS_FIELD_COUNT {
        vmcs.install(VmcsField::at(index), 0);
    }
    vmcs
}

fn finished(result: Result<(), VmFail>) -> LoadVmStep {
    LoadVmStep { state: LoadVmState::Done, action: LoadVmAction::Finish(result) }
}

#[test]
fn test_features_report_vmx() {
    assert!(features_report_vmx(1 << 5));
    assert!(features_report_vmx(0xffff_ffff));
    assert!(!features_report_vmx(0));
    assert!(!features_report_vmx(!(1 << 5)));
}

#[test]
fn test_vmx_available_agrees_with_the_feature_bits() {
    let native = x86::cpuid::native_cpuid::cpuid_count(1, 0);
    assert_eq!(vmx_available(), native.ecx & (1 << 5) != 0);
}

#[test]
fn test_revision_identifier_is_the_low_half_of_the_basic_msr() {
    let msrs = sample_msrs();
    assert_eq!(get_vmcs_revision_identifier(&msrs), 0x12);
}

#[test]
fn test_set_lock_bit_locks_an_unlocked_msr() {
    let mut msrs = MsrBank::new();
    wrmsr(&mut msrs, Msr::Ia32FeatureControl, MsrValuePair { edx: 0x77, eax: 0x100 });
    assert_eq!(set_lock_bit(&mut msrs), Ok(()));
    assert_eq!(
        rdmsr(&msrs, Msr::Ia32FeatureControl),
        MsrValuePair { edx: 0x77, eax: 0x105 }
    );
}

#[test]
fn test_set_lock_bit_accepts_a_locked_msr_with_vmx_enabled() {
    let mut msrs = MsrBank::new();
    wrmsr(&mut msrs, Msr::Ia32FeatureControl, MsrValuePair { edx: 0, eax: 0x5 });
    assert_eq!(set_lock_bit(&mut msrs), Ok(()));
    assert_eq!(rdmsr(&msrs, Msr::Ia32FeatureControl), MsrValuePair { edx: 0, eax: 0x5 });
}

#[test]
fn test_set_lock_bit_fails_on_a_locked_msr_with_vmx_disabled() {
    let mut msrs = MsrBank::new();
    wrmsr(&mut msrs, Msr::Ia32FeatureControl, MsrValuePair { edx: 0, eax: 0x1 });
    assert_eq!(set_lock_bit(&mut msrs), Err(()));
    assert_eq!(rdmsr(&msrs, Msr::Ia32FeatureControl), MsrValuePair { edx: 0, eax: 0x1 });
    wrmsr(&mut msrs, Msr::Ia32FeatureControl, MsrValuePair { edx: 0, eax: 0x3 });
    assert_eq!(set_lock_bit(&mut msrs), Err(()));
}

#[test]
fn test_set_cr0_bits_forces_the_envelope() {
    let mut cpu = sample_cpu();
    cpu.cr0 = 0x6000_0010;
    let msrs = sample_msrs();
    set_cr0_bits(&mut cpu, &msrs);
    assert_eq!(cpu.cr0, 0xe000_0031);
    let mut expected = sample_cpu();
    expected.cr0 = 0xe000_0031;
    assert_eq!(cpu, expected);
}

#[test]
fn test_set_cr0_bits_works_on_all_64_bits() {
    let mut cpu = sample_cpu();
    cpu.cr0 = 0x11;
    let mut msrs = MsrBank::new();
    wrmsr(&mut msrs, Msr::Ia32VmxCr0Fixed0, MsrValuePair { edx: 0xffff_ffff, eax: 0x0000_0fc1 });
    wrmsr(&mut msrs, Msr::Ia32VmxCr0Fixed1, MsrValuePair { edx: 0xffff_ffff, eax: 0xffff_ffff });
    set_cr0_bits(&mut cpu, &msrs);
    assert_eq!(cpu.cr0, 0xffff_ffff_0000_0fd1);
    let mut kept = sample_cpu();
    kept.cr0 = 0x0000_0040_8000_0840;
    let mut open = MsrBank::new();
    wrmsr(&mut open, Msr::Ia32VmxCr0Fixed0, MsrValuePair { edx: 0, eax: 0x1 });
    wrmsr(&mut open, Msr::Ia32VmxCr0Fixed1, MsrValuePair { edx: 0xffff_ffff, eax: 0x7fff_ffff });
    set_cr0_bits(&mut kept, &open);
    assert_eq!(kept.cr0, 0x0000_0040_0000_0841);
}

#[test]
fn test_set_cr4_bits_forces_the_envelope() {
    let mut cpu = sample_cpu();
    cpu.cr4 = 0x0080_0668;
    let msrs = sample_msrs();
    set_cr4_bits(&mut cpu, &msrs);
    assert_eq!(cpu.cr4, 0x2668);
    let mut other = sample_cpu();
    other.cr4 = 0;
    let mut wide = MsrBank::new();
    wrmsr(&mut wide, Msr::Ia32VmxCr4Fixed0, MsrValuePair { edx: 0x1, eax: 0x0088_a000 });
    wrmsr(&mut wide, Msr::Ia32VmxCr4Fixed1, MsrValuePair { edx: 0xffff_ffff, eax: 0xffff_ffff });
    set_cr4_bits(&mut other, &wide);
    assert_eq!(other.cr4, 0x1_0088_a000);
}

#[test]
fn test_set_cr4_bits_keeps_a_bit_on_which_no_demand_is_put() {
    let mut cpu = sample_cpu();
    cpu.cr4 = 0x80_2000;
    let mut msrs = MsrBank::new();
    wrmsr(&mut msrs, Msr::Ia32VmxCr4Fixed0, MsrValuePair { edx: 0, eax: 0x2000 });
    wrmsr(&mut msrs, Msr::Ia32VmxCr4Fixed1, MsrValuePair { edx: 0, eax: 0xffff_ffff });
    set_cr4_bits(&mut cpu, &msrs);
    assert_eq!(cpu.cr4, 0x80_2000);
    let mut expected = sample_cpu();
    expected.cr4 = 0x80_2000;
    assert_eq!(cpu, expected);
}

#[test]
fn test_enable_leaves_the_control_register_bits_that_vmx_does_not_fix() {
    let vcpu = sample_vcpu();
    let mut cpu = sample_cpu();
    cpu.cr0 = 0x8005_0833;
    cpu.cr4 = 0x0080_0668;
    let mut msrs = sample_msrs();
    wrmsr(&mut msrs, Msr::Ia32VmxCr4Fixed1, MsrValuePair { edx: 0, eax: 0xffff_ffff });
    let mut region = vec![0u32; 1024];
    let result = enable(
        &mut region,
        vcpu.vmxon_region,
        vcpu.vmxon_region_phys,
        vcpu.vmxon_region_size,
        true,
        &mut cpu,
        &mut msrs,
    );
    assert_eq!(result, Ok(VmxInstruction::VmxOn(0x20_0000)));
    assert_eq!(cpu.cr0, 0x8005_0833);
    assert_eq!(cpu.cr4, 0x0080_2668);
}

#[test]
fn test_load_vm_ends_on_an_event_that_does_not_follow() {
    let vcpu = sample_vcpu();
    let cpu = sample_cpu();
    let gdt = sample_gdt();
    let msrs = sample_msrs();
    let context = LoadVmContext {
        vcpu: &vcpu,
        cpu: &cpu,
        gdt: &gdt,
        msrs: &msrs,
        host_idt_base: 0xb000,
        host_entrypoint: 0xc000,
    };
    let untouched = vec![0x5555_5555u32; 1024];
    let mut region = untouched.clone();
    let mut vmcs = all_supported();
    let invalid = finished(Err(VmFail::VmFailInvalid));
    let cases = [
        (LoadVmState::Start, LoadVmEvent::Completed(Ok(()))),
        (LoadVmState::Start, LoadVmEvent::Completed(Err(VmFail::VmFailValid))),
        (LoadVmState::Start, LoadVmEvent::Entered(0)),
        (LoadVmState::Clearing, LoadVmEvent::Begin),
        (LoadVmState::Clearing, LoadVmEvent::Entered(0)),
        (LoadVmState::Loading, LoadVmEvent::Begin),
        (LoadVmState::Loading, LoadVmEvent::Entered(0)),
        (LoadVmState::Writing, LoadVmEvent::Entered(0)),
        (LoadVmState::Writing, LoadVmEvent::Begin),
        (LoadVmState::Entering, LoadVmEvent::Begin),
        (LoadVmState::Entering, LoadVmEvent::Completed(Ok(()))),
        (LoadVmState::Entering, LoadVmEvent::Completed(Err(VmFail::VmFailValid))),
        (LoadVmState::Done, LoadVmEvent::Begin),
        (LoadVmState::Done, LoadVmEvent::Completed(Ok(()))),
        (LoadVmState::Done, LoadVmEvent::Completed(Err(VmFail::VmFailValid))),
        (LoadVmState::Done, LoadVmEvent::Entered(0)),
    ];
    for (state, event) in cases {
        assert_eq!(load_vm(state, event, &context, &mut region, &mut vmcs), invalid);
        assert_eq!(region, untouched);
        assert_eq!(vmcs.journal_len(), 0);
    }
}

#[test]
fn test_prepare_region_zeroes_and_stamps() {
    let msrs = sample_msrs();
    let mut region = vec![0xdead_beefu32; 1024];
    prepare_vmx_memory_region(&mut region, 0x1000, &msrs);
    assert_eq!(region[0], 0x12);
    assert!(region[1..].iter().all(|word| *word == 0));
}

#[test]
fn test_prepare_region_leaves_what_lies_behind_it() {
    let msrs = sample_msrs();
    let mut region = vec![0xdead_beefu32; 8];
    prepare_vmx_memory_region(&mut region, 18, &msrs);
    assert_eq!(region, vec![0x12, 0, 0, 0, 0xdead_beef, 0xdead_beef, 0xdead_beef, 0xdead_beef]);
    let mut smallest = vec![7u32; 2];
    prepare_vmx_memory_region(&mut smallest, 5, &msrs);
    assert_eq!(smallest, vec![0x12, 7]);
}

#[test]
fn test_enable_prepares_the_processor() {
    let vcpu = sample_vcpu();
    let mut cpu = sample_cpu();
    let mut msrs = sample_msrs();
    let mut region = vec![0xffff_ffffu32; 1024];
    let result = enable(
        &mut region,
        vcpu.vmxon_region,
        vcpu.vmxon_region_phys,
        vcpu.vmxon_region_size,
        true,
        &mut cpu,
        &mut msrs,
    );
    assert_eq!(result, Ok(VmxInstruction::VmxOn(0x20_0000)));
    assert_eq!(rdmsr(&msrs, Msr::Ia32FeatureControl), MsrValuePair { edx: 0, eax: 0x5 });
    assert_eq!(cpu.cr0, 0x8005_0033);
    assert_eq!(cpu.cr4, 0x2668);
    assert_eq!(region[0], 0x12);
    assert!(region[1..].iter().all(|word| *word == 0));
}

#[test]
fn test_enable_without_a_region_fails() {
    let mut cpu = sample_cpu();
    let mut msrs = sample_msrs();
    let mut region: Vec<u32> = Vec::new();
    let result = enable(&mut region, 0, 0x20_0000, 0x1000, true, &mut cpu, &mut msrs);
    assert_eq!(result, Err(VmxEnablementError::InvalidVmxOnRegion));
    assert_eq!(cpu, sample_cpu());
    assert_eq!(rdmsr(&msrs, Msr::Ia32FeatureControl), MsrValuePair { edx: 0, eax: 0 });
}

#[test]
fn test_enable_without_vmx_fails() {
    let vcpu = sample_vcpu();
    let mut cpu = sample_cpu();
    let mut msrs = sample_msrs();
    let mut region = vec![9u32; 1024];
    let result = enable(
        &mut region,
        vcpu.vmxon_region,
        vcpu.vmxon_region_phys,
        vcpu.vmxon_region_size,
        false,
        &mut cpu,
        &mut msrs,
    );
    assert_eq!(result, Err(VmxEnablementError::VmxExtensionsAbsent));
    assert_eq!(cpu, sample_cpu());
    assert_eq!(region[0], 9);
    assert_eq!(rdmsr(&msrs, Msr::Ia32FeatureControl), MsrValuePair { edx: 0, eax: 0 });
}

#[test]
fn test_enable_with_a_locked_msr_fails() {
    let vcpu = sample_vcpu();
    let mut cpu = sample_cpu();
    let mut msrs = sample_msrs();
    wrmsr(&mut msrs, Msr::Ia32FeatureControl, MsrValuePair { edx: 0, eax: 0x1 });
    let mut region = vec![9u32; 1024];
    let result = enable(
        &mut region,
        vcpu.vmxon_region,
        vcpu.vmxon_region_phys,
        vcpu.vmxon_region_size,
        true,
        &mut cpu,
        &mut msrs,
    );
    assert_eq!(result, Err(VmxEnablementError::LockBitSetButVmxDisabled));
    assert_eq!(cpu, sample_cpu());
    assert_eq!(region[0], 9);
}

#[test]
fn test_vmxon_completed() {
    let mut state = VmxState::Disabled;
    assert_eq!(
        vmxon_completed(&mut state, Err(VmFail::VmFailInvalid)),
        Err(VmxEnablementError::VmxOnFailure)
    );
    assert_eq!(state, VmxState::Disabled);
    assert_eq!(
        vmxon_completed(&mut state, Err(VmFail::VmFailValid)),
        Err(VmxEnablementError::VmxOnFailure)
    );
    assert_eq!(state, VmxState::Disabled);
    assert_eq!(vmxon_completed(&mut state, Ok(())), Ok(()));
    assert_eq!(state, VmxState::RootOperation);
}

#[test]
fn test_lifecycle_of_a_processor() {
    let mut state = VmxState::Disabled;
    vmxon_completed(&mut state, Ok(())).unwrap();
    vmptrld_completed(&mut state, Err(VmFail::VmFailInvalid));
    assert_eq!(state, VmxState::RootOperation);
    vmptrld_completed(&mut state, Ok(()));
    assert_eq!(state, VmxState::VmcsLoaded);
    assert_eq!(
        unload_vm(&mut state, Ok(0x30_0000)),
        Some(VmxInstruction::VmClear(0x30_0000))
    );
    assert_eq!(disable(&mut state), VmxInstruction::VmxOff);
    assert_eq!(state, VmxState::Disabled);
}

#[test]
fn test_disable_and_unload() {
    let mut state = VmxState::VmcsLoaded;
    assert_eq!(
        unload_vm(&mut state, Ok(0x30_0000)),
        Some(VmxInstruction::VmClear(0x30_0000))
    );
    assert_eq!(state, VmxState::RootOperation);
    assert_eq!(disable(&mut state), VmxInstruction::VmxOff);
    assert_eq!(state, VmxState::Disabled);
    let mut other = VmxState::VmcsLoaded;
    assert_eq!(unload_vm(&mut other, Err(VmFail::VmFailInvalid)), None);
    assert_eq!(other, VmxState::RootOperation);
}

#[test]
fn test_guest_entry_result() {
    assert_eq!(guest_entry_result(0), Ok(()));
    assert_eq!(guest_entry_result(1), Err(VmFail::VmFailValid));
    assert_eq!(guest_entry_result(2), Err(VmFail::VmFailInvalid));
    assert_eq!(guest_entry_result(3), Err(VmFail::VmFailInvalid));
    assert_eq!(guest_entry_result(usize::MAX), Err(VmFail::VmFailInvalid));
}

#[test]
fn test_load_vm_runs_through_to_the_guest() {
    let vcpu = sample_vcpu();
    let cpu = sample_cpu();
    let gdt = sample_gdt();
    let msrs = sample_msrs();
    let context = LoadVmContext {
        vcpu: &vcpu,
        cpu: &cpu,
        gdt: &gdt,
        msrs: &msrs,
        host_idt_base: 0xb000,
        host_entrypoint: 0xc000,
    };
    let mut region = vec![0xaaaa_aaaau32; 1024];
    let mut vmcs = Vmcs::new();

    let step = load_vm(LoadVmState::Start, LoadVmEvent::Begin, &context, &mut region, &mut vmcs);
    assert_eq!(
        step,
        LoadVmStep {
            state: LoadVmState::Clearing,
            action: LoadVmAction::Execute(VmxInstruction::VmClear(0x30_0000)),
        }
    );
    assert_eq!(region[0], 0x12);
    assert!(region[1..].iter().all(|word| *word == 0));

    let step = load_vm(step.state, LoadVmEvent::Completed(Ok(())), &context, &mut region, &mut vmcs);
    assert_eq!(
        step,
        LoadVmStep {
            state: LoadVmState::Loading,
            action: LoadVmAction::Execute(VmxInstruction::VmPtrLd(0x30_0000)),
        }
    );
    assert_eq!(vmcs.journal_len(), 0);

    let mut vmcs = all_supported();
    let step = load_vm(step.state, LoadVmEvent::Completed(Ok(())), &context, &mut region, &mut vmcs);
    assert_eq!(
        step,
        LoadVmStep {
            state: LoadVmState::Writing,
            action: LoadVmAction::Execute(VmxInstruction::WriteVmcs),
        }
    );
    assert_eq!(vmcs.journal_len(), 7 + 17 + 42);
    assert_eq!(vmcs.journal_entry(0).field, VmcsField::SecondaryVmExecControl);
    assert_eq!(vmcs.journal_entry(7).field, VmcsField::HostCr0);
    assert_eq!(vmcs.journal_entry(24).field, VmcsField::VmcsLinkPointer);
    assert_eq!(vmcs.journal_entry(65).field, VmcsField::GuestDr7);
    assert_eq!(vmread(&vmcs, VmcsField::HostRip), Ok(0xc000));
    assert_eq!(vmread(&vmcs, VmcsField::GuestCr3), Ok(0x1aa000));
    assert_eq!(vmread(&vmcs, VmcsField::MsrBitmap), Ok(0x70_0000));

    let written = vmcs.journal_len();
    let step = load_vm(step.state, LoadVmEvent::Completed(Ok(())), &context, &mut region, &mut vmcs);
    assert_eq!(
        step,
        LoadVmStep {
            state: LoadVmState::Entering,
            action: LoadVmAction::Execute(VmxInstruction::EnterGuest),
        }
    );
    assert_eq!(vmcs.journal_len(), written);

    let step = load_vm(step.state, LoadVmEvent::Entered(0), &context, &mut region, &mut vmcs);
    assert_eq!(step, finished(Ok(())));
}

#[test]
fn test_load_vm_ends_with_the_error_of_the_step_that_failed() {
    let vcpu = sample_vcpu();
    let cpu = sample_cpu();
    let gdt = sample_gdt();
    let msrs = sample_msrs();
    let context = LoadVmContext {
        vcpu: &vcpu,
        cpu: &cpu,
        gdt: &gdt,
        msrs: &msrs,
        host_idt_base: 0xb000,
        host_entrypoint: 0xc000,
    };
    let mut region = vec![0u32; 1024];
    let mut vmcs = all_supported();
    for state in [LoadVmState::Clearing, LoadVmState::Loading, LoadVmState::Writing] {
        for fail in [VmFail::VmFailValid, VmFail::VmFailInvalid] {
            let step =
                load_vm(state, LoadVmEvent::Completed(Err(fail)), &context, &mut region, &mut vmcs);
            assert_eq!(step, finished(Err(fail)));
            assert_eq!(vmcs.journal_len(), 0);
        }
    }
    let step = load_vm(LoadVmState::Entering, LoadVmEvent::Entered(1), &context, &mut region, &mut vmcs);
    assert_eq!(step, finished(Err(VmFail::VmFailValid)));
    let step = load_vm(LoadVmState::Entering, LoadVmEvent::Entered(2), &context, &mut region, &mut vmcs);
    assert_eq!(step, finished(Err(VmFail::VmFailInvalid)));
    let step = load_vm(LoadVmState::Entering, LoadVmEvent::Entered(77), &context, &mut region, &mut vmcs);
    assert_eq!(step, finished(Err(VmFail::VmFailInvalid)));
}

#[test]
fn test_load_vm_fails_when_a_component_cannot_be_written() {
    let vcpu = sample_vcpu();
    let cpu = sample_cpu();
    let gdt = sample_gdt();
    let msrs = sample_msrs();
    let context = LoadVmContext {
        vcpu: &vcpu,
        cpu: &cpu,
        gdt: &gdt,
        msrs: &msrs,
        host_idt_base: 0xb000,
        host_entrypoint: 0xc000,
    };
    let mut region = vec![0u32; 1024];
    let mut vmcs = Vmcs::new();
    vmcs.install(VmcsField::SecondaryVmExecControl, 0);
    vmcs.install(VmcsField::PinBasedVmExecControl, 0);
    let step =
        load_vm(LoadVmState::Loading, LoadVmEvent::Completed(Ok(())), &context, &mut region, &mut vmcs);
    assert_eq!(step, finished(Err(VmFail::VmFailValid)));
    assert_eq!(vmcs.journal_len(), 2);
}

#[test]
fn test_vcpu_validity() {
    assert!(sample_vcpu().is_valid());
    let mut unaligned = sample_vcpu();
    unaligned.vmcs_phys = 0x30_0800;
    assert!(!unaligned.is_valid());
    let mut large = sample_vcpu();
    large.vmxon_region_size = 0x1001;
    assert!(!large.is_valid());
    let mut small = sample_vcpu();
    small.vmcs_size = 4;
    assert!(!small.is_valid());
    small.vmcs_size = 5;
    assert!(small.is_valid());
}
