//! VMX operation: entering and leaving it on a logical processor, loading the
//! VMCS of its guest, and reading and writing that VMCS.
//!
//! The VMX instructions are privileged. The code that embeds the monitor
//! executes them: the monitor tells it which instruction comes next and is
//! told how the instruction went. For VMREAD and VMWRITE that code keeps a
//! [`Vmcs`] in step with the processor: it installs the components that the
//! processor lets it read, hands the `Vmcs` to the monitor, and then replays
//! the journal of writes on the processor, in order.
use std::collections::HashMap;
use vstd::prelude::*;
use crate::msr::{rdmsr, rdmsrl, wrmsr, Msr, MsrBank, MsrValuePair};
use crate::processor::{
    cpuid,
    ProcessorState,
};
use crate::segmentation::GdtEntry;
use crate::vmcs::{
    are_selectors_in_table,
    compute_guest_state_writes,
    compute_host_state_writes,
    compute_vm_control_writes,
    guest_state_writes,
    host_state_writes,
    selectors_in_table,
    vm_control_writes,
};
use crate::vmcs_fields::VmcsField;
use crate::VCpu;

verus! {

/// The two ways in which a VMX instruction reports failure.
#[derive(Clone, Copy, Debug, PartialEq, Eq, Structural)]
pub enum VmFail {
    /// The current VMCS is valid and the instruction failed; the
    /// VM-instruction error component says why.
    VmFailValid,
    /// There is no valid current VMCS.
    VmFailInvalid,
}

/// One write to a component of the current VMCS.
#[derive(Clone, Copy, Debug, PartialEq, Eq, Structural)]
pub struct VmcsWrite {
    pub field: VmcsField,
    pub value: u64,
}

/// What a [`Vmcs`] stands for: the value of each component that the processor
/// supports, by encoding, and the writes made so far, oldest first.
pub struct VmcsView {
    pub components: Map<u32, u64>,
    pub journal: Seq<VmcsWrite>,
}

impl VmcsView {
    /// Whether the processor supports the component.
    pub open spec fn supports(self, field: VmcsField) -> bool {
        self.components.contains_key(field.spec_encoding())
    }

    /// The value of a supported component.
    pub open spec fn value(self, field: VmcsField) -> u64 {
        self.components[field.spec_encoding()]
    }

    /// What VMREAD returns: the value of a supported component, and
    /// `VmFailValid` for any other.
    pub open spec fn read(self, field: VmcsField) -> Result<u64, VmFail> {
        if self.supports(field) {
            Ok(self.value(field))
        } else {
            Err(VmFail::VmFailValid)
        }
    }

    /// The value of the component, or `fallback` where VMREAD fails.
    pub open spec fn read_or(self, field: VmcsField, fallback: u64) -> u64 {
        if self.supports(field) {
            self.value(field)
        } else {
            fallback
        }
    }

    /// What VMWRITE returns: success on a supported component, and
    /// `VmFailValid` on any other.
    pub open spec fn write_result(self, field: VmcsField) -> Result<(), VmFail> {
        if self.supports(field) {
            Ok(())
        } else {
            Err(VmFail::VmFailValid)
        }
    }

    /// The structure after VMWRITE: a supported component takes the value and
    /// the write joins the journal; a failed write changes nothing.
    pub open spec fn write(self, field: VmcsField, value: u64) -> VmcsView {
        if self.supports(field) {
            VmcsView {
                components: self.components.insert(field.spec_encoding(), value),
                journal: self.journal.push(VmcsWrite { field, value }),
            }
        } else {
            self
        }
    }

    /// The structure after the writes are made in order, up to the first that
    /// fails.
    pub open spec fn write_all(self, writes: Seq<VmcsWrite>) -> VmcsView
        decreases writes.len(),
    {
        if writes.len() == 0 || !self.supports(writes[0].field) {
            self
        } else {
            self.write(writes[0].field, writes[0].value).write_all(writes.skip(1))
        }
    }

    /// The result of making the writes in order: that of the first write that
    /// fails, and success if none does.
    pub open spec fn write_all_result(self, writes: Seq<VmcsWrite>) -> Result<(), VmFail>
        decreases writes.len(),
    {
        if writes.len() == 0 {
            Ok(())
        } else if !self.supports(writes[0].field) {
            Err(VmFail::VmFailValid)
        } else {
            self.write(writes[0].field, writes[0].value).write_all_result(writes.skip(1))
        }
    }
}

/// A write changes no component's being supported.
pub proof fn lemma_write_keeps_support(vmcs: VmcsView, field: VmcsField, value: u64)
    ensures
        forall|other: VmcsField| vmcs.write(field, value).supports(other) == vmcs.supports(other),
{
}

/// Writes made in order succeed exactly when every component that they name
/// is supported, and whether they succeed or not, they change no
/// component's being supported.
pub proof fn lemma_write_all_succeeds_iff_supported(vmcs: VmcsView, writes: Seq<VmcsWrite>)
    ensures
        vmcs.write_all_result(writes) is Ok <==> (forall|index: int|
            0 <= index < writes.len() ==> vmcs.supports(writes[index].field)),
        vmcs.write_all_result(writes) is Err ==> vmcs.write_all_result(writes) == Err::<
            (),
            VmFail,
        >(VmFail::VmFailValid),
        forall|other: VmcsField| vmcs.write_all(writes).supports(other) == vmcs.supports(other),
    decreases writes.len(),
{
    if writes.len() > 0 && vmcs.supports(writes[0].field) {
        let written = vmcs.write(writes[0].field, writes[0].value);
        let rest = writes.skip(1);
        lemma_write_keeps_support(vmcs, writes[0].field, writes[0].value);
        lemma_write_all_succeeds_iff_supported(written, rest);
        if written.write_all_result(rest) is Ok {
            assert forall|index: int| 0 <= index < writes.len() implies vmcs.supports(
                writes[index].field,
            ) by {
                if index > 0 {
                    assert(written.supports(rest[index - 1].field));
                }
            }
        }
    }
}

/// The current VMCS: the components that the processor supports, with their
/// values, and a journal of the writes made through [`vmwrite`].
pub struct Vmcs {
    components: HashMap<u32, u64>,
    journal: Vec<VmcsWrite>,
}

impl View for Vmcs {
    type V = VmcsView;

    closed spec fn view(&self) -> VmcsView {
        VmcsView { components: self.components@, journal: self.journal@ }
    }
}

impl Vmcs {
    /// A structure of which no component is supported yet.
    pub fn new() -> (vmcs: Vmcs)
        ensures
            vmcs@.components == Map::<u32, u64>::empty(),
            vmcs@.journal == Seq::<VmcsWrite>::empty(),
    {
        Vmcs { components: HashMap::new(), journal: Vec::new() }
    }

    /// Records that the processor supports `field` and holds `value` in it.
    /// This is how the structure is brought in step with the processor; it is
    /// no write and leaves the journal alone.
    pub fn install(&mut self, field: VmcsField, value: u64)
        ensures
            final(self)@.components == old(self)@.components.insert(field.spec_encoding(), value),
            final(self)@.journal == old(self)@.journal,
    {
        broadcast use vstd::std_specs::hash::group_hash_axioms;

        self.components.insert(field.encoding(), value);
    }

    /// Whether the processor supports the component.
    pub fn supports(&self, field: VmcsField) -> (supported: bool)
        ensures
            supported == self@.supports(field),
    {
        broadcast use vstd::std_specs::hash::group_hash_axioms;

        self.components.contains_key(&field.encoding())
    }

    /// The number of writes in the journal.
    pub fn journal_len(&self) -> (len: usize)
        ensures
            len == self@.journal.len(),
    {
        self.journal.len()
    }

    /// The write at position `index` of the journal.
    pub fn journal_entry(&self, index: usize) -> (write: VmcsWrite)
        requires
            index < self@.journal.len(),
        ensures
            write == self@.journal[index as int],
    {
        self.journal[index]
    }

    /// Empties the journal, once its writes have reached the processor.
    pub fn clear_journal(&mut self)
        ensures
            final(self)@.components == old(self)@.components,
            final(self)@.journal == Seq::<VmcsWrite>::empty(),
    {
        self.journal.clear();
    }
}

/// Reads a component of the current VMCS.
pub fn vmread(vmcs: &Vmcs, field: VmcsField) -> (result: Result<u64, VmFail>)
    ensures
        result == vmcs@.read(field),
{
    broadcast use vstd::std_specs::hash::group_hash_axioms;

    match vmcs.components.get(&field.encoding()) {
        Some(value) => Ok(*value),
        None => Err(VmFail::VmFailValid),
    }
}

/// Writes a component of the current VMCS.
pub fn vmwrite(vmcs: &mut Vmcs, field: VmcsField, value: u64) -> (result: Result<(), VmFail>)
    ensures
        result == old(vmcs)@.write_result(field),
        final(vmcs)@ == old(vmcs)@.write(field, value),
{
    broadcast use vstd::std_specs::hash::group_hash_axioms;

    if vmcs.components.contains_key(&field.encoding()) {
        vmcs.components.insert(field.encoding(), value);
        vmcs.journal.push(VmcsWrite { field, value });
        Ok(())
    } else {
        Err(VmFail::VmFailValid)
    }
}

/// Makes the writes in order and stops at the first that fails.
pub fn vmwrite_all(vmcs: &mut Vmcs, writes: &Vec<VmcsWrite>) -> (result: Result<(), VmFail>)
    ensures
        result == old(vmcs)@.write_all_result(writes@),
        final(vmcs)@ == old(vmcs)@.write_all(writes@),
{
    let mut index: usize = 0;
    assert(writes@.skip(0) =~= writes@);
    while index < writes.len()
        invariant
            index <= writes.len(),
            old(vmcs)@.write_all(writes@) == vmcs@.write_all(writes@.skip(index as int)),
            old(vmcs)@.write_all_result(writes@) == vmcs@.write_all_result(
                writes@.skip(index as int),
            ),
        decreases writes.len() - index,
    {
        let write = writes[index];
        proof {
            let rest = writes@.skip(index as int);
            assert(rest.skip(1) =~= writes@.skip(index + 1));
        }
        match vmwrite(vmcs, write.field, write.value) {
            Ok(()) => {},
            Err(fail) => {
                return Err(fail);
            },
        }
        index += 1;
    }
    Ok(())
}

/// Returns true when the low twelve bits of `n` are clear, that is, when `n`
/// is a multiple of the 4 KiB page size.
pub fn is_page_aligned(n: u64) -> (aligned: bool)
    ensures
        aligned == (n % 4096 == 0),
{
    n % 4096 == 0
}

/// The lock bit of the feature-control MSR. Once it is set, the MSR cannot be
/// written until the processor is reset.
pub const IA32_FEATURE_CONTROL_LOCK_BIT: u32 = 0x1;

/// The bit of the feature-control MSR that enables VMXON outside SMX
/// operation.
pub const IA32_FEATURE_CONTROL_VMX_ENABLED_OUTSIDE_SMX_BIT: u32 = 0x4;

/// The CPUID leaf of processor information and feature bits.
pub const CPUID_LEAF_PROCESSOR_INFO_AND_FEATURES: u64 = 1;

/// The bit of ECX in that leaf that says that VMX is available.
pub const CPUID_FEATURE_ECX_VMX_AVAILABLE: u32 = 0x20;

/// The leaves of CPUID that the monitor names.
#[derive(Clone, Copy, Debug, PartialEq, Eq, Structural)]
pub enum CPUIDLeaf {
    ProcessorInfoAndFeatures,
}

impl CPUIDLeaf {
    /// The number of the leaf, which CPUID takes in EAX.
    pub fn number(self) -> (number: u32)
        ensures
            number == CPUID_LEAF_PROCESSOR_INFO_AND_FEATURES,
    {
        1
    }
}

/// The feature bits that the monitor names in ECX of the leaf of processor
/// information and feature bits.
#[derive(Clone, Copy, Debug, PartialEq, Eq, Structural)]
pub enum CPUIDLeafProcessorInfoAndFeaturesECXBits {
    VMXAvailable,
}

impl CPUIDLeafProcessorInfoAndFeaturesECXBits {
    /// The bit as a mask of ECX.
    pub fn mask(self) -> (mask: u32)
        ensures
            mask == CPUID_FEATURE_ECX_VMX_AVAILABLE,
    {
        0x20
    }
}

/// Bit 31 of the lower half of the basic VMX capability MSR, which is always
/// clear: a revision identifier has 31 bits.
pub const REVISION_IDENTIFIER_RESERVED_BIT: u32 = 0x8000_0000;

/// A VMX instruction that the monitor has the processor execute.
#[derive(Clone, Copy, Debug, PartialEq, Eq, Structural)]
pub enum VmxInstruction {
    /// VMXON on the region at the physical address.
    VmxOn(u64),
    /// VMXOFF.
    VmxOff,
    /// VMCLEAR on the VMCS at the physical address.
    VmClear(u64),
    /// VMPTRLD on the VMCS at the physical address.
    VmPtrLd(u64),
    /// A VMWRITE for each write in the journal of the [`Vmcs`], in order, up
    /// to the first that fails.
    WriteVmcs,
    /// VMLAUNCH, by the entry stub that saves the registers of the caller.
    EnterGuest,
}

/// Why VMX operation could not be entered.
#[derive(Clone, Copy, Debug, PartialEq, Eq, Structural)]
pub enum VmxEnablementError {
    /// The processor does not report the VMX extensions.
    VmxExtensionsAbsent,
    /// There is no VMXON region.
    InvalidVmxOnRegion,
    /// The feature-control MSR is locked with VMX outside SMX disabled.
    LockBitSetButVmxDisabled,
    /// VMXON failed.
    VmxOnFailure,
}

/// Whether the feature bits in ECX say that VMX is available.
pub fn features_report_vmx(ecx: u32) -> (available: bool)
    ensures
        available == (ecx & CPUID_FEATURE_ECX_VMX_AVAILABLE != 0),
{
    ecx & CPUIDLeafProcessorInfoAndFeaturesECXBits::VMXAvailable.mask() != 0
}

/// Asks the processor that runs this code whether the VMX extensions are
/// available. The answer is the processor's: nothing is claimed of it.
pub fn vmx_available() -> bool {
    let features = cpuid(CPUIDLeaf::ProcessorInfoAndFeatures.number());
    features_report_vmx(features.ecx)
}

/// The VMCS revision identifier of the processor: the lower half of the
/// basic VMX capability MSR.
pub open spec fn revision_identifier(msrs: &MsrBank) -> u32 {
    msrs.pair(Msr::Ia32VmxBasic).eax
}

/// Whether the revision identifier is one: its bit 31 is clear.
pub open spec fn revision_identifier_valid(msrs: &MsrBank) -> bool {
    revision_identifier(msrs) & REVISION_IDENTIFIER_RESERVED_BIT == 0
}

/// Gets the VMCS revision identifier, with which the VMXON region and each
/// VMCS start.
pub fn get_vmcs_revision_identifier(msrs: &MsrBank) -> (identifier: u32)
    requires
        revision_identifier_valid(msrs),
    ensures
        identifier == revision_identifier(msrs),
{
    let pair = rdmsr(msrs, Msr::Ia32VmxBasic);
    pair.eax
}

/// A control register forced into the envelope that VMX operation demands:
/// the bits that `fixed0` holds must be 1 and are set, the bits that `fixed1`
/// lacks must be 0 and are cleared. Every other bit stays as it is.
pub open spec fn forced_into_envelope(register: u64, fixed0: u64, fixed1: u64) -> u64 {
    (register | fixed0) & fixed1
}

/// What the envelope is worth: no bit that must be 0 is left, every bit that
/// must be 1 and may be 1 is there, and a bit on which the two MSRs put no
/// demand is as it was.
pub proof fn lemma_forced_into_envelope(register: u64, fixed0: u64, fixed1: u64, bit: u64)
    ensures
        forced_into_envelope(register, fixed0, fixed1) & !fixed1 == 0,
        forced_into_envelope(register, fixed0, fixed1) & (fixed0 & fixed1) == fixed0 & fixed1,
        fixed0 & bit == 0 && fixed1 & bit == bit ==> forced_into_envelope(
            register,
            fixed0,
            fixed1,
        ) & bit == register & bit,
{
    assert(((register | fixed0) & fixed1) & !fixed1 == 0) by (bit_vector);
    assert(((register | fixed0) & fixed1) & (fixed0 & fixed1) == fixed0 & fixed1)
        by (bit_vector);
    assert(fixed0 & bit == 0 && fixed1 & bit == bit ==> ((register | fixed0) & fixed1) & bit
        == register & bit) by (bit_vector);
}

/// Forces CR0 into the envelope that the fixed-bit MSRs of CR0 give.
pub fn set_cr0_bits(cpu: &mut ProcessorState, msrs: &MsrBank)
    ensures
        final(cpu).cr0 == forced_into_envelope(
            old(cpu).cr0,
            msrs.pair(Msr::Ia32VmxCr0Fixed0).value(),
            msrs.pair(Msr::Ia32VmxCr0Fixed1).value(),
        ),
        *final(cpu) == (ProcessorState { cr0: final(cpu).cr0, ..*old(cpu) }),
{
    let fixed0: u64 = rdmsrl(msrs, Msr::Ia32VmxCr0Fixed0);
    let fixed1: u64 = rdmsrl(msrs, Msr::Ia32VmxCr0Fixed1);
    cpu.cr0 = (cpu.cr0 | fixed0) & fixed1;
}

/// Forces CR4 into the envelope that the fixed-bit MSRs of CR4 give.
pub fn set_cr4_bits(cpu: &mut ProcessorState, msrs: &MsrBank)
    ensures
        final(cpu).cr4 == forced_into_envelope(
            old(cpu).cr4,
            msrs.pair(Msr::Ia32VmxCr4Fixed0).value(),
            msrs.pair(Msr::Ia32VmxCr4Fixed1).value(),
        ),
        *final(cpu) == (ProcessorState { cr4: final(cpu).cr4, ..*old(cpu) }),
{
    let fixed0: u64 = rdmsrl(msrs, Msr::Ia32VmxCr4Fixed0);
    let fixed1: u64 = rdmsrl(msrs, Msr::Ia32VmxCr4Fixed1);
    cpu.cr4 = (cpu.cr4 | fixed0) & fixed1;
}

/// Whether the feature-control MSR is locked.
pub open spec fn feature_control_locked(msrs: &MsrBank) -> bool {
    msrs.pair(Msr::Ia32FeatureControl).eax & IA32_FEATURE_CONTROL_LOCK_BIT != 0
}

/// Whether the feature-control MSR enables VMX outside SMX operation.
pub open spec fn vmx_enabled_outside_smx(msrs: &MsrBank) -> bool {
    msrs.pair(Msr::Ia32FeatureControl).eax & IA32_FEATURE_CONTROL_VMX_ENABLED_OUTSIDE_SMX_BIT != 0
}

/// The feature-control MSR with VMX outside SMX enabled and the lock set.
pub open spec fn feature_control_enabled(pair: MsrValuePair) -> MsrValuePair {
    MsrValuePair {
        edx: pair.edx,
        eax: pair.eax | IA32_FEATURE_CONTROL_VMX_ENABLED_OUTSIDE_SMX_BIT
            | IA32_FEATURE_CONTROL_LOCK_BIT,
    }
}

/// Sees to it that the feature-control MSR allows VMXON. An unlocked MSR gets
/// VMX outside SMX enabled and is locked. A locked MSR is left alone: it
/// allows VMXON if VMX outside SMX is enabled, and else this fails.
pub fn set_lock_bit(msrs: &mut MsrBank) -> (result: Result<(), ()>)
    ensures
        result is Err <==> feature_control_locked(old(msrs)) && !vmx_enabled_outside_smx(
            old(msrs),
        ),
        forall|other: Msr|
            other != Msr::Ia32FeatureControl ==> final(msrs).pair(other) == old(msrs).pair(other),
        final(msrs).pair(Msr::Ia32FeatureControl) == (if feature_control_locked(old(msrs)) {
            old(msrs).pair(Msr::Ia32FeatureControl)
        } else {
            feature_control_enabled(old(msrs).pair(Msr::Ia32FeatureControl))
        }),
        result is Ok ==> feature_control_locked(final(msrs)) && vmx_enabled_outside_smx(
            final(msrs),
        ),
{
    let pair = rdmsr(msrs, Msr::Ia32FeatureControl);
    let eax: u32 = pair.eax;
    if (eax & IA32_FEATURE_CONTROL_LOCK_BIT) == 0 {
        let enabled: u32 = eax | IA32_FEATURE_CONTROL_VMX_ENABLED_OUTSIDE_SMX_BIT
            | IA32_FEATURE_CONTROL_LOCK_BIT;
        assert(enabled & 0x1 != 0 && enabled & 0x4 != 0) by (bit_vector)
            requires
                enabled == eax | 0x4u32 | 0x1u32,
        ;
        wrmsr(msrs, Msr::Ia32FeatureControl, MsrValuePair { edx: pair.edx, eax: enabled });
        Ok(())
    } else if (eax & IA32_FEATURE_CONTROL_VMX_ENABLED_OUTSIDE_SMX_BIT) == 0 {
        Err(())
    } else {
        Ok(())
    }
}

/// The number of 32-bit words in a region of `size` bytes.
pub open spec fn region_words(size: usize) -> int {
    size as int / 4
}

/// Whether the words of a region are those of a prepared region of `size`
/// bytes: the revision identifier, then zeroes; what lies behind the region
/// is as in `before`.
pub open spec fn region_prepared(
    before: Seq<u32>,
    after: Seq<u32>,
    size: usize,
    revision: u32,
) -> bool {
    &&& after.len() == before.len()
    &&& after[0] == revision
    &&& forall|word: int| 1 <= word < region_words(size) ==> after[word] == 0
    &&& forall|word: int| region_words(size) <= word < before.len() ==> after[word] == before[word]
}

/// Whether a region of `size` bytes can be prepared in `words` words of
/// memory: it fits in a page, has room for more than the revision
/// identifier, and lies within the memory.
pub open spec fn region_preparable(words: nat, size: usize) -> bool {
    VCpu::region_size_ok(size) && region_words(size) <= words
}

/// Prepares a VMXON or VMCS region of `size` bytes: zeroes it and stamps it
/// with the VMCS revision identifier of the processor.
pub fn prepare_vmx_memory_region(region: &mut [u32], size: usize, msrs: &MsrBank)
    requires
        region_preparable(old(region)@.len(), size),
        revision_identifier_valid(msrs),
    ensures
        region_prepared(old(region)@, final(region)@, size, revision_identifier(msrs)),
{
    let words: usize = size / 4;
    let mut word: usize = 0;
    while word < words
        invariant
            word <= words,
            words == region_words(size),
            words <= region@.len(),
            region@.len() == old(region)@.len(),
            forall|zeroed: int| 0 <= zeroed < word ==> region@[zeroed] == 0,
            forall|behind: int| word <= behind < region@.len() ==> region@[behind] == old(region)@[behind],
        decreases words - word,
    {
        region[word] = 0;
        word += 1;
    }
    region[0] = get_vmcs_revision_identifier(msrs);
}

/// Whether `enable` gets as far as preparing the region: there is a region,
/// the processor has VMX, and the feature-control MSR allows VMXON.
pub open spec fn enable_reaches_region(region_address: u64, vmx_available: bool, msrs: &MsrBank) -> bool {
    &&& region_address != 0
    &&& vmx_available
    &&& !(feature_control_locked(msrs) && !vmx_enabled_outside_smx(msrs))
}

/// The error with which `enable` ends, if it ends with one.
pub open spec fn enablement_error(
    region_address: u64,
    vmx_available: bool,
    msrs: &MsrBank,
) -> Option<VmxEnablementError> {
    if region_address == 0 {
        Some(VmxEnablementError::InvalidVmxOnRegion)
    } else if !vmx_available {
        Some(VmxEnablementError::VmxExtensionsAbsent)
    } else if feature_control_locked(msrs) && !vmx_enabled_outside_smx(msrs) {
        Some(VmxEnablementError::LockBitSetButVmxDisabled)
    } else {
        None
    }
}

/// Tells the error with which `enable` would end, if it would end with
/// one.
pub fn check_enablement(region_address: u64, vmx_available: bool, msrs: &MsrBank) -> (error:
    Option<VmxEnablementError>)
    ensures
        error == enablement_error(region_address, vmx_available, msrs),
        error is None <==> enable_reaches_region(region_address, vmx_available, msrs),
{
    if region_address == 0 {
        return Some(VmxEnablementError::InvalidVmxOnRegion);
    }
    if !vmx_available {
        return Some(VmxEnablementError::VmxExtensionsAbsent);
    }
    let eax: u32 = rdmsr(msrs, Msr::Ia32FeatureControl).eax;
    if (eax & IA32_FEATURE_CONTROL_LOCK_BIT) != 0 && (eax
        & IA32_FEATURE_CONTROL_VMX_ENABLED_OUTSIDE_SMX_BIT) == 0 {
        return Some(VmxEnablementError::LockBitSetButVmxDisabled);
    }
    None
}

/// Tells whether a region of `size` bytes can be prepared in `words` words of
/// memory.
pub fn is_region_preparable(words: usize, size: usize) -> (preparable: bool)
    ensures
        preparable == region_preparable(words as nat, size),
{
    crate::REVISION_IDENTIFIER_SIZE < size && size <= crate::PAGE_SIZE && size / 4 <= words
}

/// Tells whether the revision identifier of the processor is one.
pub fn is_revision_identifier_valid(msrs: &MsrBank) -> (valid: bool)
    ensures
        valid == revision_identifier_valid(msrs),
{
    rdmsr(msrs, Msr::Ia32VmxBasic).eax & REVISION_IDENTIFIER_RESERVED_BIT == 0
}

/// Prepares a logical processor for VMX root operation and tells which
/// instruction enters it.
///
/// The steps, each of which the next depends on: there is a region; the
/// processor has the VMX extensions (`vmx_available` is what
/// [`vmx_available`] returned); the feature-control MSR allows VMXON, or is
/// made to; CR0 and CR4 are forced into the envelope that VMX demands; the
/// region is zeroed and stamped with the revision identifier. A step that
/// fails ends it with the error of that step and with nothing changed but,
/// where the MSR was found unlocked, the MSR.
///
/// On success the embedding code writes the feature-control MSR, CR0 and CR4
/// to the processor, executes the instruction returned, and hands its result
/// to [`vmxon_completed`].
pub fn enable(
    region: &mut [u32],
    region_address: u64,
    region_phys: u64,
    region_size: usize,
    vmx_available: bool,
    cpu: &mut ProcessorState,
    msrs: &mut MsrBank,
) -> (result: Result<VmxInstruction, VmxEnablementError>)
    requires
        region_address % 4096 == 0,
        region_phys % 4096 == 0,
        enable_reaches_region(region_address, vmx_available, old(msrs)) ==> region_preparable(
            old(region)@.len(),
            region_size,
        ) && revision_identifier_valid(old(msrs)),
    ensures
        match enablement_error(region_address, vmx_available, old(msrs)) {
            Some(error) => {
                &&& result == Err::<VmxInstruction, VmxEnablementError>(error)
                &&& *final(cpu) == *old(cpu)
                &&& final(region)@ == old(region)@
                &&& forall|msr: Msr| final(msrs).pair(msr) == old(msrs).pair(msr)
            },
            None => {
                &&& result == Ok::<VmxInstruction, VmxEnablementError>(
                    VmxInstruction::VmxOn(region_phys),
                )
                &&& feature_control_locked(final(msrs)) && vmx_enabled_outside_smx(final(msrs))
                &&& forall|other: Msr|
                    other != Msr::Ia32FeatureControl ==> final(msrs).pair(other) == old(msrs).pair(other)
                &&& final(msrs).pair(Msr::Ia32FeatureControl) == (if feature_control_locked(
                    old(msrs),
                ) {
                    old(msrs).pair(Msr::Ia32FeatureControl)
                } else {
                    feature_control_enabled(old(msrs).pair(Msr::Ia32FeatureControl))
                })
                &&& *final(cpu) == (ProcessorState {
                    cr0: forced_into_envelope(
                        old(cpu).cr0,
                        old(msrs).pair(Msr::Ia32VmxCr0Fixed0).value(),
                        old(msrs).pair(Msr::Ia32VmxCr0Fixed1).value(),
                    ),
                    cr4: forced_into_envelope(
                        old(cpu).cr4,
                        old(msrs).pair(Msr::Ia32VmxCr4Fixed0).value(),
                        old(msrs).pair(Msr::Ia32VmxCr4Fixed1).value(),
                    ),
                    ..*old(cpu)
                })
                &&& region_prepared(
                    old(region)@,
                    final(region)@,
                    region_size,
                    revision_identifier(old(msrs)),
                )
            },
        },
{
    if region_address == 0 {
        return Err(VmxEnablementError::InvalidVmxOnRegion);
    }
    if !vmx_available {
        return Err(VmxEnablementError::VmxExtensionsAbsent);
    }
    match set_lock_bit(msrs) {
        Ok(()) => {},
        Err(_) => {
            return Err(VmxEnablementError::LockBitSetButVmxDisabled);
        },
    }
    set_cr0_bits(cpu, msrs);
    set_cr4_bits(cpu, msrs);
    prepare_vmx_memory_region(region, region_size, msrs);
    Ok(VmxInstruction::VmxOn(region_phys))
}

/// Where a logical processor stands between the loader's calls.
#[derive(Clone, Copy, Debug, PartialEq, Eq, Structural)]
pub enum VmxState {
    /// Outside VMX operation.
    Disabled,
    /// In VMX root operation, with no VMCS loaded.
    RootOperation,
    /// In VMX operation with the VMCS of the guest loaded.
    VmcsLoaded,
}

/// Concludes `enable` from the result of VMXON: on success the processor is
/// in VMX root operation.
pub fn vmxon_completed(state: &mut VmxState, vmxon: Result<(), VmFail>) -> (result: Result<
    (),
    VmxEnablementError,
>)
    requires
        *old(state) == VmxState::Disabled,
    ensures
        result == (match vmxon {
            Ok(_) => Ok::<(), VmxEnablementError>(()),
            Err(_) => Err::<(), VmxEnablementError>(VmxEnablementError::VmxOnFailure),
        }),
        *final(state) == (if vmxon is Ok {
            VmxState::RootOperation
        } else {
            VmxState::Disabled
        }),
{
    match vmxon {
        Ok(()) => {
            *state = VmxState::RootOperation;
            Ok(())
        },
        Err(_) => Err(VmxEnablementError::VmxOnFailure),
    }
}

/// Takes note of the result of VMPTRLD: on success the VMCS of the guest is
/// loaded.
pub fn vmptrld_completed(state: &mut VmxState, vmptrld: Result<(), VmFail>)
    requires
        *old(state) == VmxState::RootOperation,
    ensures
        *final(state) == (if vmptrld is Ok {
            VmxState::VmcsLoaded
        } else {
            VmxState::RootOperation
        }),
{
    if vmptrld.is_ok() {
        *state = VmxState::VmcsLoaded;
    }
}

/// Leaves VMX operation: tells the instruction that does so. A processor
/// with a VMCS still loaded must unload it first.
pub fn disable(state: &mut VmxState) -> (instruction: VmxInstruction)
    requires
        *old(state) == VmxState::RootOperation,
    ensures
        *final(state) == VmxState::Disabled,
        instruction == VmxInstruction::VmxOff,
{
    *state = VmxState::Disabled;
    VmxInstruction::VmxOff
}

/// Unloads the VMCS of the guest: given what VMPTRST returned for the
/// current VMCS, tells the instruction that clears it. Where VMPTRST failed
/// there is nothing to clear.
pub fn unload_vm(state: &mut VmxState, current_vmcs: Result<u64, VmFail>) -> (instruction: Option<
    VmxInstruction,
>)
    requires
        *old(state) == VmxState::VmcsLoaded,
    ensures
        *final(state) == VmxState::RootOperation,
        instruction == (match current_vmcs {
            Ok(vmcs_phys) => Some(VmxInstruction::VmClear(vmcs_phys)),
            Err(_) => None::<VmxInstruction>,
        }),
{
    *state = VmxState::RootOperation;
    match current_vmcs {
        Ok(vmcs_phys) => Some(VmxInstruction::VmClear(vmcs_phys)),
        Err(_) => None,
    }
}

/// The result of entering the guest, from the code that the entry stub
/// returns: 0 for a guest that runs, 1 for a VM entry that failed with an
/// error number in the VMCS, and 2, or anything else, for one that failed
/// without.
pub open spec fn entry_result(code: usize) -> Result<(), VmFail> {
    if code == 0 {
        Ok(())
    } else if code == 1 {
        Err(VmFail::VmFailValid)
    } else {
        Err(VmFail::VmFailInvalid)
    }
}

/// Tells how the entry into the guest went.
pub fn guest_entry_result(code: usize) -> (result: Result<(), VmFail>)
    ensures
        result == entry_result(code),
        result is Ok <==> code == 0,
{
    match code {
        0 => Ok(()),
        1 => Err(VmFail::VmFailValid),
        _ => Err(VmFail::VmFailInvalid),
    }
}

/// How far the load of a guest has come.
#[derive(Clone, Copy, Debug, PartialEq, Eq, Structural)]
pub enum LoadVmState {
    /// Nothing is done yet.
    Start,
    /// The region is prepared; VMCLEAR is under way.
    Clearing,
    /// The VMCS is clear; VMPTRLD is under way.
    Loading,
    /// The VMCS is current and its components are computed; the writes are
    /// under way.
    Writing,
    /// The VMCS is written; the entry into the guest is under way.
    Entering,
    /// The load is over.
    Done,
}

/// What the processor did since the last step of the load.
#[derive(Clone, Copy, Debug, PartialEq, Eq)]
pub enum LoadVmEvent {
    /// Nothing: the load begins.
    Begin,
    /// The instruction of the last step was executed, with this result.
    Completed(Result<(), VmFail>),
    /// The entry stub returned this code.
    Entered(usize),
}

/// What the embedding code does after a step of the load.
#[derive(Clone, Copy, Debug, PartialEq, Eq)]
pub enum LoadVmAction {
    /// Execute the instruction and come back with how it went.
    Execute(VmxInstruction),
    /// The load is over, with this result.
    Finish(Result<(), VmFail>),
}

/// A step of the load: the state to go on from and what to do before.
#[derive(Clone, Copy, Debug, PartialEq, Eq)]
pub struct LoadVmStep {
    pub state: LoadVmState,
    pub action: LoadVmAction,
}

/// What the load of a guest is computed from, besides the memory of the
/// VMCS region and the VMCS itself.
pub struct LoadVmContext<'a> {
    /// The record of the logical processor.
    pub vcpu: &'a VCpu,
    /// The registers of the processor as they are.
    pub cpu: &'a ProcessorState,
    /// The descriptor table that the GDTR of the processor names.
    pub gdt: &'a [GdtEntry],
    /// The model-specific registers of the processor.
    pub msrs: &'a MsrBank,
    /// The address of the monitor's interrupt descriptor table.
    pub host_idt_base: u64,
    /// The address at which the processor goes on after a VM exit.
    pub host_entrypoint: u64,
}

impl<'a> LoadVmContext<'a> {
    /// What a load needs of its inputs: a valid record with a host task
    /// register of privilege level 0 in the global table, a revision
    /// identifier, and selectors that the descriptor table holds.
    pub open spec fn wf(&self) -> bool {
        &&& self.vcpu.wf()
        &&& self.vcpu.tr_selector & 0x7 == 0
        &&& revision_identifier_valid(self.msrs)
        &&& selectors_in_table(self.cpu, self.gdt@.len())
    }

    /// Checks what a load needs of its inputs.
    pub fn is_valid(&self) -> (valid: bool)
        ensures
            valid == self.wf(),
    {
        self.vcpu.is_valid() && self.vcpu.tr_selector & 0x7 == 0 && is_revision_identifier_valid(
            self.msrs,
        ) && are_selectors_in_table(self.cpu, self.gdt.len())
    }

    /// Every write that sets up the VMCS, in order: the controls, the host
    /// state, the guest state.
    pub open spec fn vmcs_writes(&self) -> Seq<VmcsWrite> {
        vm_control_writes(self.vcpu, self.msrs) + host_state_writes(
            self.vcpu,
            self.cpu,
            self.host_idt_base,
            self.host_entrypoint,
        ) + guest_state_writes(self.cpu, self.gdt@)
    }
}

/// Whether `event` is what follows on the action of `state`.
pub open spec fn event_expected(state: LoadVmState, event: LoadVmEvent) -> bool {
    match state {
        LoadVmState::Start => event == LoadVmEvent::Begin,
        LoadVmState::Clearing | LoadVmState::Loading | LoadVmState::Writing => event
            is Completed,
        LoadVmState::Entering => event is Entered,
        LoadVmState::Done => false,
    }
}

/// The step that the load takes from `state` on `event`. `written` is the
/// result of setting up the VMCS, which decides the step after VMPTRLD.
///
/// The order is fixed, and a failure ends the load with the error of the
/// step that failed: prepare the region, clear the VMCS, load it, write it,
/// enter the guest. An event that does not follow on the action of the
/// state ends the load with `VmFailInvalid`, and so does any event once the
/// load is over.
pub open spec fn load_vm_step(
    state: LoadVmState,
    event: LoadVmEvent,
    vmcs_phys: u64,
    written: Result<(), VmFail>,
) -> LoadVmStep {
    let failed = |fail: VmFail|
        LoadVmStep { state: LoadVmState::Done, action: LoadVmAction::Finish(Err(fail)) };
    match (state, event) {
        (LoadVmState::Start, LoadVmEvent::Begin) => LoadVmStep {
            state: LoadVmState::Clearing,
            action: LoadVmAction::Execute(VmxInstruction::VmClear(vmcs_phys)),
        },
        (LoadVmState::Clearing, LoadVmEvent::Completed(Ok(_))) => LoadVmStep {
            state: LoadVmState::Loading,
            action: LoadVmAction::Execute(VmxInstruction::VmPtrLd(vmcs_phys)),
        },
        (LoadVmState::Loading, LoadVmEvent::Completed(Ok(_))) => match written {
            Ok(_) => LoadVmStep {
                state: LoadVmState::Writing,
                action: LoadVmAction::Execute(VmxInstruction::WriteVmcs),
            },
            Err(fail) => failed(fail),
        },
        (LoadVmState::Writing, LoadVmEvent::Completed(Ok(_))) => LoadVmStep {
            state: LoadVmState::Entering,
            action: LoadVmAction::Execute(VmxInstruction::EnterGuest),
        },
        (LoadVmState::Clearing, LoadVmEvent::Completed(Err(fail))) => failed(fail),
        (LoadVmState::Loading, LoadVmEvent::Completed(Err(fail))) => failed(fail),
        (LoadVmState::Writing, LoadVmEvent::Completed(Err(fail))) => failed(fail),
        (LoadVmState::Entering, LoadVmEvent::Entered(code)) => LoadVmStep {
            state: LoadVmState::Done,
            action: LoadVmAction::Finish(entry_result(code)),
        },
        _ => failed(VmFail::VmFailInvalid),
    }
}

/// Whether the step from `state` on `event` is the one that prepares the
/// VMCS region: the first.
pub open spec fn prepares_region(state: LoadVmState, event: LoadVmEvent) -> bool {
    state == LoadVmState::Start && event is Begin
}

/// Whether the step from `state` on `event` is the one that sets up the
/// VMCS: the one that is told that VMPTRLD succeeded.
pub open spec fn writes_vmcs(state: LoadVmState, event: LoadVmEvent) -> bool {
    state == LoadVmState::Loading && event matches LoadVmEvent::Completed(Ok(_))
}

/// Takes one step of the load of the guest of a logical processor.
///
/// The embedding code begins in `Start` with `Begin`, executes the
/// instruction of each step and comes back with its result, until a step
/// says `Finish`. Before it comes back from VMPTRLD it brings `vmcs` in step
/// with the processor. A step that is told what does not follow on the
/// action of its state ends the load with `VmFailInvalid` and changes
/// nothing.
///
/// The first step zeroes the VMCS region and stamps it with the revision
/// identifier. The step after VMPTRLD writes the controls, the host state
/// and the guest state to `vmcs`, up to the first write that fails. No other
/// step changes the region or `vmcs`.
pub fn load_vm(
    state: LoadVmState,
    event: LoadVmEvent,
    context: &LoadVmContext<'_>,
    region: &mut [u32],
    vmcs: &mut Vmcs,
) -> (step: LoadVmStep)
    requires
        context.wf(),
        region_words(context.vcpu.vmcs_size) <= old(region)@.len(),
    ensures
        step == load_vm_step(
            state,
            event,
            context.vcpu.vmcs_phys,
            old(vmcs)@.write_all_result(context.vmcs_writes()),
        ),
        prepares_region(state, event) ==> region_prepared(
            old(region)@,
            final(region)@,
            context.vcpu.vmcs_size,
            revision_identifier(context.msrs),
        ),
        !prepares_region(state, event) ==> final(region)@ == old(region)@,
        final(vmcs)@ == (if writes_vmcs(state, event) {
            old(vmcs)@.write_all(context.vmcs_writes())
        } else {
            old(vmcs)@
        }),
{
    let done = LoadVmState::Done;
    match state {
        LoadVmState::Start => match event {
            LoadVmEvent::Begin => {
                prepare_vmx_memory_region(region, context.vcpu.vmcs_size, context.msrs);
                LoadVmStep {
                    state: LoadVmState::Clearing,
                    action: LoadVmAction::Execute(VmxInstruction::VmClear(context.vcpu.vmcs_phys)),
                }
            },
            _ => LoadVmStep { state: done, action: LoadVmAction::Finish(Err(VmFail::VmFailInvalid)) },
        },
        LoadVmState::Clearing => match event {
            LoadVmEvent::Completed(Ok(())) => LoadVmStep {
                state: LoadVmState::Loading,
                action: LoadVmAction::Execute(VmxInstruction::VmPtrLd(context.vcpu.vmcs_phys)),
            },
            LoadVmEvent::Completed(Err(fail)) => LoadVmStep {
                state: done,
                action: LoadVmAction::Finish(Err(fail)),
            },
            _ => LoadVmStep { state: done, action: LoadVmAction::Finish(Err(VmFail::VmFailInvalid)) },
        },
        LoadVmState::Loading => match event {
            LoadVmEvent::Completed(Ok(())) => {
                let mut writes = compute_vm_control_writes(context.vcpu, context.msrs);
                let mut host = compute_host_state_writes(
                    context.vcpu,
                    context.cpu,
                    context.host_idt_base,
                    context.host_entrypoint,
                );
                let mut guest = compute_guest_state_writes(context.cpu, context.gdt);
                writes.append(&mut host);
                writes.append(&mut guest);
                match vmwrite_all(vmcs, &writes) {
                    Ok(()) => LoadVmStep {
                        state: LoadVmState::Writing,
                        action: LoadVmAction::Execute(VmxInstruction::WriteVmcs),
                    },
                    Err(fail) => LoadVmStep {
                        state: done,
                        action: LoadVmAction::Finish(Err(fail)),
                    },
                }
            },
            LoadVmEvent::Completed(Err(fail)) => LoadVmStep {
                state: done,
                action: LoadVmAction::Finish(Err(fail)),
            },
            _ => LoadVmStep { state: done, action: LoadVmAction::Finish(Err(VmFail::VmFailInvalid)) },
        },
        LoadVmState::Writing => match event {
            LoadVmEvent::Completed(Ok(())) => LoadVmStep {
                state: LoadVmState::Entering,
                action: LoadVmAction::Execute(VmxInstruction::EnterGuest),
            },
            LoadVmEvent::Completed(Err(fail)) => LoadVmStep {
                state: done,
                action: LoadVmAction::Finish(Err(fail)),
            },
            _ => LoadVmStep { state: done, action: LoadVmAction::Finish(Err(VmFail::VmFailInvalid)) },
        },
        LoadVmState::Entering => match event {
            LoadVmEvent::Entered(code) => LoadVmStep {
                state: done,
                action: LoadVmAction::Finish(guest_entry_result(code)),
            },
            _ => LoadVmStep { state: done, action: LoadVmAction::Finish(Err(VmFail::VmFailInvalid)) },
        },
        LoadVmState::Done => LoadVmStep {
            state: done,
            action: LoadVmAction::Finish(Err(VmFail::VmFailInvalid)),
        },
    }
}

/// The number of steps that a load in `state` has left at most.
pub open spec fn steps_left(state: LoadVmState) -> nat {
    match state {
        LoadVmState::Start => 5,
        LoadVmState::Clearing => 4,
        LoadVmState::Loading => 3,
        LoadVmState::Writing => 2,
        LoadVmState::Entering => 1,
        LoadVmState::Done => 0,
    }
}

/// A load always comes to an end: each step leaves fewer steps, whatever the
/// processor answered, so that a load that starts in `Start` is over after
/// five steps at most. A step ends the load exactly when it says `Finish`,
/// and then with success or with one of the two ways in which a VMX
/// instruction fails.
pub proof fn lemma_load_vm_terminates(
    state: LoadVmState,
    event: LoadVmEvent,
    vmcs_phys: u64,
    written: Result<(), VmFail>,
)
    requires
        state != LoadVmState::Done,
    ensures
        steps_left(load_vm_step(state, event, vmcs_phys, written).state) < steps_left(state),
        load_vm_step(state, event, vmcs_phys, written).state == LoadVmState::Done
            <==> load_vm_step(state, event, vmcs_phys, written).action is Finish,
        steps_left(LoadVmState::Start) == 5,
{
}

/// A load succeeds only by way of the guest: the one step that ends it with
/// success is the one that is told, while the entry is under way, that the
/// entry stub returned 0.
pub proof fn lemma_load_vm_success(
    state: LoadVmState,
    event: LoadVmEvent,
    vmcs_phys: u64,
    written: Result<(), VmFail>,
)
    ensures
        load_vm_step(state, event, vmcs_phys, written).action matches LoadVmAction::Finish(Ok(_))
            <==> state == LoadVmState::Entering && event == LoadVmEvent::Entered(0),
        !event_expected(state, event) ==> load_vm_step(state, event, vmcs_phys, written) == (
        LoadVmStep {
            state: LoadVmState::Done,
            action: LoadVmAction::Finish(Err(VmFail::VmFailInvalid)),
        }),
{
}

/// How a load that is run from `state` on the events ends: with the result
/// of the first step that says `Finish`, if the events reach that far.
pub open spec fn load_vm_outcome(
    state: LoadVmState,
    events: Seq<LoadVmEvent>,
    vmcs_phys: u64,
    written: Result<(), VmFail>,
) -> Option<Result<(), VmFail>>
    decreases events.len(),
{
    if events.len() == 0 {
        None
    } else {
        let step = load_vm_step(state, events[0], vmcs_phys, written);
        match step.action {
            LoadVmAction::Finish(result) => Some(result),
            LoadVmAction::Execute(_) => load_vm_outcome(
                step.state,
                events.skip(1),
                vmcs_phys,
                written,
            ),
        }
    }
}

/// A load never hangs: whatever the processor answers, a load that is run
/// from `state` has ended once as many events have come in as the state has
/// steps left, which for a load from `Start` is five.
pub proof fn lemma_load_vm_ends(
    state: LoadVmState,
    events: Seq<LoadVmEvent>,
    vmcs_phys: u64,
    written: Result<(), VmFail>,
)
    requires
        events.len() >= 1,
        events.len() >= steps_left(state),
    ensures
        load_vm_outcome(state, events, vmcs_phys, written) is Some,
    decreases events.len(),
{
    let step = load_vm_step(state, events[0], vmcs_phys, written);
    if step.action is Execute {
        lemma_load_vm_terminates(state, events[0], vmcs_phys, written);
        lemma_load_vm_ends(step.state, events.skip(1), vmcs_phys, written);
    }
}

/// A load from `Start` ends with success exactly when the region was
/// prepared, VMCLEAR and VMPTRLD succeeded, every component could be written
/// in the VMCS and on the processor, and the entry stub returned 0: that is
/// when the guest was entered.
pub proof fn lemma_load_vm_succeeds_iff_entered(
    events: Seq<LoadVmEvent>,
    vmcs_phys: u64,
    written: Result<(), VmFail>,
)
    ensures
        load_vm_outcome(LoadVmState::Start, events, vmcs_phys, written) matches Some(Ok(_)) <==> {
            &&& events.len() >= 5
            &&& events[0] is Begin
            &&& events[1] matches LoadVmEvent::Completed(Ok(_))
            &&& events[2] matches LoadVmEvent::Completed(Ok(_))
            &&& written is Ok
            &&& events[3] matches LoadVmEvent::Completed(Ok(_))
            &&& events[4] == LoadVmEvent::Entered(0)
        },
{
    reveal_with_fuel(load_vm_outcome, 6);
    let rest1 = events.skip(1);
    let rest2 = rest1.skip(1);
    let rest3 = rest2.skip(1);
    let rest4 = rest3.skip(1);
    if events.len() >= 5 {
        assert(rest1[0] == events[1]);
        assert(rest2[0] == events[2]);
        assert(rest3[0] == events[3]);
        assert(rest4[0] == events[4]);
    }
}

} // verus!
