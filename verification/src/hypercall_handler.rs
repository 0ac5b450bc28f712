//! The monitor's side of the hypercall ABI.
use vstd::prelude::*;
use vstd::string::StringSliceAdditionalSpecFns;
use crate::hypercall::{HYPERCALL_MAGIC, HYPERCALL_REASON_VERSION};
use crate::register_state::GeneralPurposeRegisterState;
use crate::vmx::VmFail;

verus! {

/// The major version of the monitor.
pub const HYPERVISOR_VERSION_MAJOR: u32 = 0;

/// The minor version of the monitor.
pub const HYPERVISOR_VERSION_MINOR: u32 = 1;

/// The patch version of the monitor.
pub const HYPERVISOR_VERSION_PATCH: u32 = 0;

/// The number of components of a version: major, minor, patch.
pub const VERSION_COMPONENTS: usize = 3;

/// Whether the byte continues a character that an earlier byte began.
pub open spec fn is_continuation_byte(byte: u8) -> bool {
    byte & 0xc0 == 0x80
}

/// Whether the byte is a decimal digit.
pub open spec fn is_digit_byte(byte: u8) -> bool {
    0x30 <= byte <= 0x39
}

/// The components of the version in `bytes` from `position` on, given that
/// those before `position` left the parse at component `index` with
/// `version` read so far.
///
/// A digit adds to the component at `index`. Any other character ends that
/// component. The parse is over at the end of the text and once a fifth
/// component would begin. There is no version where a digit belongs to a
/// fourth component or a component exceeds 32 bits.
pub open spec fn version_from(
    bytes: Seq<u8>,
    position: int,
    index: int,
    version: Seq<u32>,
) -> Option<Seq<u32>>
    decreases bytes.len() - position,
{
    if position < 0 || position >= bytes.len() || index > VERSION_COMPONENTS {
        Some(version)
    } else if is_continuation_byte(bytes[position]) {
        version_from(bytes, position + 1, index, version)
    } else if is_digit_byte(bytes[position]) {
        let grown = version[index] * 10 + (bytes[position] - 0x30);
        if index == VERSION_COMPONENTS || grown > u32::MAX {
            None
        } else {
            version_from(bytes, position + 1, index, version.update(index, grown as u32))
        }
    } else {
        version_from(bytes, position + 1, index + 1, version)
    }
}

/// The components of the version that the text in `bytes` gives, as in
/// "1.2.3"; a component that the text lacks is zero.
pub open spec fn version_of(bytes: Seq<u8>) -> Option<Seq<u32>> {
    version_from(bytes, 0, 0, seq![0u32, 0u32, 0u32])
}

/// Parses the major, minor and patch number of a version. Returns `None`
/// where the text gives a digit to a fourth component, or a number that
/// does not fit in 32 bits.
pub fn parse_version(version_string: &str) -> (parsed: Option<[u32; 3]>)
    ensures
        parsed is Some <==> version_of(version_string.spec_bytes()) is Some,
        parsed is Some ==> parsed.unwrap()@ == version_of(version_string.spec_bytes()).unwrap(),
{
    let bytes = version_string.as_bytes();
    let mut version: [u32; 3] = [0, 0, 0];
    let mut index: usize = 0;
    let mut position: usize = 0;
    while position < bytes.len() && index <= VERSION_COMPONENTS
        invariant
            position <= bytes@.len(),
            index <= position,
            bytes@ == version_string.spec_bytes(),
            version_of(bytes@) == version_from(bytes@, position as int, index as int, version@),
        decreases bytes@.len() - position,
    {
        let byte: u8 = bytes[position];
        if byte & 0xc0 == 0x80 {
        } else if 0x30 <= byte && byte <= 0x39 {
            if index == VERSION_COMPONENTS {
                return None;
            }
            let grown: u64 = version[index] as u64 * 10 + (byte - 0x30) as u64;
            if grown > u32::MAX as u64 {
                return None;
            }
            version[index] = grown as u32;
        } else {
            index += 1;
        }
        position += 1;
    }
    Some(version)
}

/// The low 32 bits of a register.
pub open spec fn low_half(register: u64) -> u64 {
    register & 0xffff_ffff
}

/// Whether a CPUID with this RAX is a hypercall.
pub open spec fn is_hypercall(rax: u64) -> bool {
    low_half(rax) == HYPERCALL_MAGIC
}

/// The registers after a hypercall: for the version reason RAX, RBX and RCX
/// hold the version of the monitor, for any other they are zero; RDX is zero;
/// the other registers are as before.
pub open spec fn hypercall_handled(
    registers: GeneralPurposeRegisterState,
) -> GeneralPurposeRegisterState {
    if low_half(registers.rcx) == HYPERCALL_REASON_VERSION {
        GeneralPurposeRegisterState {
            rax: HYPERVISOR_VERSION_MAJOR as u64,
            rbx: HYPERVISOR_VERSION_MINOR as u64,
            rcx: HYPERVISOR_VERSION_PATCH as u64,
            rdx: 0,
            ..registers
        }
    } else {
        GeneralPurposeRegisterState { rax: 0, rbx: 0, rcx: 0, rdx: 0, ..registers }
    }
}

/// Handles a hypercall. RAX holds the magic number and the low half of RCX
/// the reason. It never fails.
pub fn handle_hypercall(gprs: &mut GeneralPurposeRegisterState) -> (result: Result<(), VmFail>)
    requires
        is_hypercall(old(gprs).rax),
    ensures
        result == Ok::<(), VmFail>(()),
        *final(gprs) == hypercall_handled(*old(gprs)),
{
    let reason: u64 = gprs.rcx & 0xffff_ffff;
    if reason == HYPERCALL_REASON_VERSION as u64 {
        gprs.rax = HYPERVISOR_VERSION_MAJOR as u64;
        gprs.rbx = HYPERVISOR_VERSION_MINOR as u64;
        gprs.rcx = HYPERVISOR_VERSION_PATCH as u64;
        gprs.rdx = 0;
    } else {
        gprs.rax = 0;
        gprs.rbx = 0;
        gprs.rcx = 0;
        gprs.rdx = 0;
    }
    Ok(())
}

} // verus!
