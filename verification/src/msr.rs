//! Model-specific registers: the ones the monitor consults, their addresses,
//! and a bank that holds their values in step with the processor.
use vstd::prelude::*;

verus! {

/// The model-specific registers that the monitor knows.
#[derive(Clone, Copy, Debug, PartialEq, Eq, Structural)]
pub enum Msr {
    EFER,
    Ia32FeatureControl,
    Ia32DebugControl,
    Ia32VmxBasic,
    Ia32VmxPinBasedControls,
    Ia32VmxProcBasedControls,
    Ia32VmxExitControls,
    Ia32VmxEntryControls,
    Ia32VmxMisc,
    Ia32VmxCr0Fixed0,
    Ia32VmxCr0Fixed1,
    Ia32VmxCr4Fixed0,
    Ia32VmxCr4Fixed1,
    Ia32VmxVmcsEnum,
    Ia32VmxProcBasedControls2,
    Ia32VmxEptVpidCap,
    Ia32VmxTruePinBasedControls,
    Ia32VmxTrueProcBasedControls,
    Ia32VmxTrueExitControls,
    Ia32VmxTrueEntryControls,
    Ia32VmxVmFunc,
}

/// The number of registers in a bank.
pub const MSR_COUNT: usize = 21;

impl Msr {
    /// The address that RDMSR and WRMSR take in ECX.
    pub open spec fn spec_address(self) -> u32 {
        match self {
            Msr::EFER => 0xc000_0080,
            Msr::Ia32FeatureControl => 0x0000_003a,
            Msr::Ia32DebugControl => 0x0000_01d9,
            Msr::Ia32VmxBasic => 0x0000_0480,
            Msr::Ia32VmxPinBasedControls => 0x0000_0481,
            Msr::Ia32VmxProcBasedControls => 0x0000_0482,
            Msr::Ia32VmxExitControls => 0x0000_0483,
            Msr::Ia32VmxEntryControls => 0x0000_0484,
            Msr::Ia32VmxMisc => 0x0000_0485,
            Msr::Ia32VmxCr0Fixed0 => 0x0000_0486,
            Msr::Ia32VmxCr0Fixed1 => 0x0000_0487,
            Msr::Ia32VmxCr4Fixed0 => 0x0000_0488,
            Msr::Ia32VmxCr4Fixed1 => 0x0000_0489,
            Msr::Ia32VmxVmcsEnum => 0x0000_048a,
            Msr::Ia32VmxProcBasedControls2 => 0x0000_048b,
            Msr::Ia32VmxEptVpidCap => 0x0000_048c,
            Msr::Ia32VmxTruePinBasedControls => 0x0000_048d,
            Msr::Ia32VmxTrueProcBasedControls => 0x0000_048e,
            Msr::Ia32VmxTrueExitControls => 0x0000_048f,
            Msr::Ia32VmxTrueEntryControls => 0x0000_0490,
            Msr::Ia32VmxVmFunc => 0x0000_0491,
        }
    }

    /// The address that RDMSR and WRMSR take in ECX.
    pub fn address(self) -> (address: u32)
        ensures
            address == self.spec_address(),
    {
        match self {
            Msr::EFER => 0xc000_0080,
            Msr::Ia32FeatureControl => 0x0000_003a,
            Msr::Ia32DebugControl => 0x0000_01d9,
            Msr::Ia32VmxBasic => 0x0000_0480,
            Msr::Ia32VmxPinBasedControls => 0x0000_0481,
            Msr::Ia32VmxProcBasedControls => 0x0000_0482,
            Msr::Ia32VmxExitControls => 0x0000_0483,
            Msr::Ia32VmxEntryControls => 0x0000_0484,
            Msr::Ia32VmxMisc => 0x0000_0485,
            Msr::Ia32VmxCr0Fixed0 => 0x0000_0486,
            Msr::Ia32VmxCr0Fixed1 => 0x0000_0487,
            Msr::Ia32VmxCr4Fixed0 => 0x0000_0488,
            Msr::Ia32VmxCr4Fixed1 => 0x0000_0489,
            Msr::Ia32VmxVmcsEnum => 0x0000_048a,
            Msr::Ia32VmxProcBasedControls2 => 0x0000_048b,
            Msr::Ia32VmxEptVpidCap => 0x0000_048c,
            Msr::Ia32VmxTruePinBasedControls => 0x0000_048d,
            Msr::Ia32VmxTrueProcBasedControls => 0x0000_048e,
            Msr::Ia32VmxTrueExitControls => 0x0000_048f,
            Msr::Ia32VmxTrueEntryControls => 0x0000_0490,
            Msr::Ia32VmxVmFunc => 0x0000_0491,
        }
    }

    /// The place of the register in a bank.
    pub open spec fn spec_slot(self) -> usize {
        match self {
            Msr::EFER => 0,
            Msr::Ia32FeatureControl => 1,
            Msr::Ia32DebugControl => 2,
            Msr::Ia32VmxBasic => 3,
            Msr::Ia32VmxPinBasedControls => 4,
            Msr::Ia32VmxProcBasedControls => 5,
            Msr::Ia32VmxExitControls => 6,
            Msr::Ia32VmxEntryControls => 7,
            Msr::Ia32VmxMisc => 8,
            Msr::Ia32VmxCr0Fixed0 => 9,
            Msr::Ia32VmxCr0Fixed1 => 10,
            Msr::Ia32VmxCr4Fixed0 => 11,
            Msr::Ia32VmxCr4Fixed1 => 12,
            Msr::Ia32VmxVmcsEnum => 13,
            Msr::Ia32VmxProcBasedControls2 => 14,
            Msr::Ia32VmxEptVpidCap => 15,
            Msr::Ia32VmxTruePinBasedControls => 16,
            Msr::Ia32VmxTrueProcBasedControls => 17,
            Msr::Ia32VmxTrueExitControls => 18,
            Msr::Ia32VmxTrueEntryControls => 19,
            Msr::Ia32VmxVmFunc => 20,
        }
    }

    /// The place of the register in a bank.
    pub fn slot(self) -> (slot: usize)
        ensures
            slot == self.spec_slot(),
            slot < MSR_COUNT,
    {
        match self {
            Msr::EFER => 0,
            Msr::Ia32FeatureControl => 1,
            Msr::Ia32DebugControl => 2,
            Msr::Ia32VmxBasic => 3,
            Msr::Ia32VmxPinBasedControls => 4,
            Msr::Ia32VmxProcBasedControls => 5,
            Msr::Ia32VmxExitControls => 6,
            Msr::Ia32VmxEntryControls => 7,
            Msr::Ia32VmxMisc => 8,
            Msr::Ia32VmxCr0Fixed0 => 9,
            Msr::Ia32VmxCr0Fixed1 => 10,
            Msr::Ia32VmxCr4Fixed0 => 11,
            Msr::Ia32VmxCr4Fixed1 => 12,
            Msr::Ia32VmxVmcsEnum => 13,
            Msr::Ia32VmxProcBasedControls2 => 14,
            Msr::Ia32VmxEptVpidCap => 15,
            Msr::Ia32VmxTruePinBasedControls => 16,
            Msr::Ia32VmxTrueProcBasedControls => 17,
            Msr::Ia32VmxTrueExitControls => 18,
            Msr::Ia32VmxTrueEntryControls => 19,
            Msr::Ia32VmxVmFunc => 20,
        }
    }
}

/// The value of a model-specific register as RDMSR returns it and WRMSR takes
/// it: the upper half in EDX, the lower half in EAX.
#[derive(Clone, Copy, Debug, PartialEq, Eq, Structural)]
pub struct MsrValuePair {
    pub edx: u32,
    pub eax: u32,
}

impl MsrValuePair {
    /// The 64-bit value that the pair holds.
    pub open spec fn value(self) -> u64 {
        ((self.edx as u64) << 32) | (self.eax as u64)
    }
}

/// The values of the registers, as last read from or written to the
/// processor.
pub struct MsrBank {
    pairs: [MsrValuePair; 21],
}

impl MsrBank {
    /// The pair that the bank holds for the register.
    pub closed spec fn pair(&self, msr: Msr) -> MsrValuePair {
        self.pairs[msr.spec_slot() as int]
    }

    /// A bank in which every register reads as zero.
    pub fn new() -> (bank: MsrBank)
        ensures
            forall|msr: Msr| bank.pair(msr) == (MsrValuePair { edx: 0, eax: 0 }),
    {
        MsrBank { pairs: [MsrValuePair { edx: 0, eax: 0 };21] }
    }
}

/// Reads a model-specific register as a pair of two halves.
pub fn rdmsr(bank: &MsrBank, msr: Msr) -> (pair: MsrValuePair)
    ensures
        pair == bank.pair(msr),
{
    bank.pairs[msr.slot()]
}

/// Reads a model-specific register as a single 64-bit value.
pub fn rdmsrl(bank: &MsrBank, msr: Msr) -> (value: u64)
    ensures
        value == bank.pair(msr).value(),
        value / 0x1_0000_0000 == bank.pair(msr).edx,
        value % 0x1_0000_0000 == bank.pair(msr).eax,
{
    let pair = rdmsr(bank, msr);
    let edx: u32 = pair.edx;
    let eax: u32 = pair.eax;
    assert((((edx as u64) << 32) | (eax as u64)) / 0x1_0000_0000 == edx && (((edx as u64) << 32) | (
    eax as u64)) % 0x1_0000_0000 == eax) by (bit_vector);
    ((edx as u64) << 32) | (eax as u64)
}

/// Writes a model-specific register.
pub fn wrmsr(bank: &mut MsrBank, msr: Msr, pair: MsrValuePair)
    ensures
        final(bank).pair(msr) == pair,
        forall|other: Msr| other != msr ==> final(bank).pair(other) == old(bank).pair(other),
{
    bank.pairs[msr.slot()] = pair;
}

} // verus!
