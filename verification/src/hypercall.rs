//! The hypercall ABI.
//!
//! A guest makes a hypercall with the CPUID instruction: RAX holds
//! [`HYPERCALL_MAGIC`] and RCX the reason. The results come back in RAX, RBX,
//! RCX and RDX. A reason that the monitor does not know gives zero in all four,
//! so that a guest can probe for a hypercall without harm.
use vstd::prelude::*;
use crate::processor::{cpuid_count, CpuidResult};

verus! {

/// The number in RAX that makes a CPUID a hypercall: "rsty".
pub const HYPERCALL_MAGIC: u32 = 0x7273_7479;

/// The reason that asks for the version of the monitor. The major, minor and
/// patch numbers are returned in RAX, RBX and RCX; RDX is reserved and zero.
pub const HYPERCALL_REASON_VERSION: u32 = 0x1;

/// The reason of a hypercall and what came back from it.
#[derive(Clone, Copy, Debug, PartialEq, Eq)]
pub struct HyperCallResults {
    /// The reason of the hypercall, much as the number of a system call.
    pub reason: u32,
    /// What the hypercall returned in EAX, EBX, ECX and EDX.
    pub results: [u32; 4],
}

/// Tells what a hypercall with the reason asks CPUID for: the magic number
/// as the leaf and the reason as the sub-leaf, so that they are in EAX and
/// ECX when the monitor takes the exit.
pub fn hypercall_request(reason: u32) -> (request: (u32, u32))
    ensures
        request.0 == HYPERCALL_MAGIC,
        request.1 == reason,
{
    (HYPERCALL_MAGIC, reason)
}

/// Whether `results` are those of a hypercall with the reason to which CPUID
/// returned `returned`: the four registers in the order EAX, EBX, ECX, EDX.
pub open spec fn results_of(
    reason: u32,
    returned: CpuidResult,
    results: HyperCallResults,
) -> bool {
    &&& results.reason == reason
    &&& results.results@ == seq![returned.eax, returned.ebx, returned.ecx, returned.edx]
}

/// Puts together the results of a hypercall from what CPUID returned.
pub fn hypercall_results(reason: u32, returned: CpuidResult) -> (results: HyperCallResults)
    ensures
        results_of(reason, returned, results),
        results.reason == reason,
        results.results@ == seq![returned.eax, returned.ebx, returned.ecx, returned.edx],
{
    let results = HyperCallResults {
        reason,
        results: [returned.eax, returned.ebx, returned.ecx, returned.edx],
    };
    assert(results.results@ =~= seq![returned.eax, returned.ebx, returned.ecx, returned.edx]);
    results
}

/// Makes a hypercall with the reason, from a guest: executes CPUID for what
/// [`hypercall_request`] tells and hands back what [`hypercall_results`]
/// makes of the answer. Under the monitor the answer is the monitor's; on a
/// processor without it, it is whatever the processor returns for a leaf
/// that does not exist.
pub fn invoke_hypercall(reason: u32) -> (results: HyperCallResults)
    ensures
        results.reason == reason,
        exists|returned: CpuidResult| results_of(reason, returned, results),
{
    let request = hypercall_request(reason);
    let returned = cpuid_count(request.0, request.1);
    hypercall_results(reason, returned)
}

} // verus!
