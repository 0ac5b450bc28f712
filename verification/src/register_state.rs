//! The registers that the entry stubs save: the general-purpose registers on a
//! VM exit, and the interrupt frame on an interrupt.
use vstd::prelude::*;

verus! {

/// The index that addressing forms give to the stack pointer. The stack
/// pointer is not among the saved registers: an interrupt pushes it, and a VM
/// exit stores it in the guest-RSP component of the VMCS.
pub const MOD_RM_INDEX_RSP: u64 = 4;

/// The highest index that addressing forms give to a register.
pub const MOD_RM_INDEX_MAX: u64 = 15;

/// The general-purpose registers but the stack pointer, in the order in which
/// the entry stubs push them.
#[derive(Clone, Copy, Debug, Default, PartialEq, Eq, Structural)]
pub struct GeneralPurposeRegisterState {
    pub r15: u64,
    pub r14: u64,
    pub r13: u64,
    pub r12: u64,
    pub r11: u64,
    pub r10: u64,
    pub r9: u64,
    pub r8: u64,
    pub rdi: u64,
    pub rsi: u64,
    pub rbp: u64,
    pub rdx: u64,
    pub rcx: u64,
    pub rbx: u64,
    pub rax: u64,
}

impl GeneralPurposeRegisterState {
    /// Whether `index` names one of the saved registers: it is at most 15 and
    /// not that of the stack pointer.
    pub open spec fn has_register(index: u64) -> bool {
        index <= MOD_RM_INDEX_MAX && index != MOD_RM_INDEX_RSP
    }

    /// The value of the register that `index` names in the order of the
    /// ModR/M byte: RAX, RCX, RDX, RBX, (RSP), RBP, RSI, RDI, R8 to R15.
    pub open spec fn register(&self, index: u64) -> u64 {
        match index {
            0x0 => self.rax,
            0x1 => self.rcx,
            0x2 => self.rdx,
            0x3 => self.rbx,
            0x5 => self.rbp,
            0x6 => self.rsi,
            0x7 => self.rdi,
            0x8 => self.r8,
            0x9 => self.r9,
            0xa => self.r10,
            0xb => self.r11,
            0xc => self.r12,
            0xd => self.r13,
            0xe => self.r14,
            _ => self.r15,
        }
    }

    /// The registers with the one that `index` names set to `value`, and the
    /// registers as they are where `index` names none.
    pub open spec fn with_register(&self, index: u64, value: u64) -> GeneralPurposeRegisterState {
        match index {
            0x0 => GeneralPurposeRegisterState { rax: value, ..*self },
            0x1 => GeneralPurposeRegisterState { rcx: value, ..*self },
            0x2 => GeneralPurposeRegisterState { rdx: value, ..*self },
            0x3 => GeneralPurposeRegisterState { rbx: value, ..*self },
            0x5 => GeneralPurposeRegisterState { rbp: value, ..*self },
            0x6 => GeneralPurposeRegisterState { rsi: value, ..*self },
            0x7 => GeneralPurposeRegisterState { rdi: value, ..*self },
            0x8 => GeneralPurposeRegisterState { r8: value, ..*self },
            0x9 => GeneralPurposeRegisterState { r9: value, ..*self },
            0xa => GeneralPurposeRegisterState { r10: value, ..*self },
            0xb => GeneralPurposeRegisterState { r11: value, ..*self },
            0xc => GeneralPurposeRegisterState { r12: value, ..*self },
            0xd => GeneralPurposeRegisterState { r13: value, ..*self },
            0xe => GeneralPurposeRegisterState { r14: value, ..*self },
            0xf => GeneralPurposeRegisterState { r15: value, ..*self },
            _ => *self,
        }
    }

    /// Returns a mutable reference to the register that `index` names in the
    /// order of the ModR/M byte, or `None` for the index of the stack pointer.
    /// What is written through the reference is written to that register and
    /// to no other.
    pub fn by_mod_rm_index(&mut self, index: u64) -> (register: Option<&mut u64>)
        requires
            index <= MOD_RM_INDEX_MAX,
        ensures
            index == MOD_RM_INDEX_RSP ==> register is None && *final(self) == *old(self),
            index != MOD_RM_INDEX_RSP ==> register is Some && *register.unwrap() == old(self).register(index) && *final(self) == old(self).with_register(
                index,
                *final(register.unwrap()),
            ),
    {
        match index {
            0x0 => Some(&mut self.rax),
            0x1 => Some(&mut self.rcx),
            0x2 => Some(&mut self.rdx),
            0x3 => Some(&mut self.rbx),
            0x4 => None,
            0x5 => Some(&mut self.rbp),
            0x6 => Some(&mut self.rsi),
            0x7 => Some(&mut self.rdi),
            0x8 => Some(&mut self.r8),
            0x9 => Some(&mut self.r9),
            0xa => Some(&mut self.r10),
            0xb => Some(&mut self.r11),
            0xc => Some(&mut self.r12),
            0xd => Some(&mut self.r13),
            0xe => Some(&mut self.r14),
            _ => Some(&mut self.r15),
        }
    }

    /// Reads the register that `index` names, or `None` for the index of the
    /// stack pointer.
    pub fn get_by_mod_rm_index(&self, index: u64) -> (value: Option<u64>)
        requires
            index <= MOD_RM_INDEX_MAX,
        ensures
            value == (if index == MOD_RM_INDEX_RSP {
                None
            } else {
                Some(self.register(index))
            }),
    {
        match index {
            0x0 => Some(self.rax),
            0x1 => Some(self.rcx),
            0x2 => Some(self.rdx),
            0x3 => Some(self.rbx),
            0x4 => None,
            0x5 => Some(self.rbp),
            0x6 => Some(self.rsi),
            0x7 => Some(self.rdi),
            0x8 => Some(self.r8),
            0x9 => Some(self.r9),
            0xa => Some(self.r10),
            0xb => Some(self.r11),
            0xc => Some(self.r12),
            0xd => Some(self.r13),
            0xe => Some(self.r14),
            _ => Some(self.r15),
        }
    }

    /// Writes the register that `index` names; returns false, and writes
    /// nothing, for the index of the stack pointer.
    pub fn set_by_mod_rm_index(&mut self, index: u64, value: u64) -> (written: bool)
        requires
            index <= MOD_RM_INDEX_MAX,
        ensures
            written == (index != MOD_RM_INDEX_RSP),
            *final(self) == old(self).with_register(index, value),
    {
        match self.by_mod_rm_index(index) {
            Some(register) => {
                *register = value;
                true
            },
            None => false,
        }
    }
}

/// Each index from 0 to 15 but 4 names a register of its own: a write to one
/// is read back from it and changes no other. In the order of the indices the
/// registers are RAX, RCX, RDX, RBX, RBP, RSI, RDI and R8 to R15.
pub proof fn lemma_registers_are_distinct(
    registers: GeneralPurposeRegisterState,
    written: u64,
    read: u64,
    value: u64,
)
    requires
        GeneralPurposeRegisterState::has_register(written),
        GeneralPurposeRegisterState::has_register(read),
    ensures
        registers.with_register(written, value).register(written) == value,
        read != written ==> registers.with_register(written, value).register(read)
            == registers.register(read),
        registers.register(0) == registers.rax,
        registers.register(1) == registers.rcx,
        registers.register(2) == registers.rdx,
        registers.register(3) == registers.rbx,
        registers.register(5) == registers.rbp,
        registers.register(6) == registers.rsi,
        registers.register(7) == registers.rdi,
        registers.register(8) == registers.r8,
        registers.register(9) == registers.r9,
        registers.register(10) == registers.r10,
        registers.register(11) == registers.r11,
        registers.register(12) == registers.r12,
        registers.register(13) == registers.r13,
        registers.register(14) == registers.r14,
        registers.register(15) == registers.r15,
{
}

/// The index of the stack pointer names no saved register: a write through
/// it changes nothing.
pub proof fn lemma_stack_pointer_has_no_slot(registers: GeneralPurposeRegisterState, value: u64)
    ensures
        !GeneralPurposeRegisterState::has_register(MOD_RM_INDEX_RSP),
        registers.with_register(MOD_RM_INDEX_RSP, value) == registers,
{
}

/// The registers on the stack when an interrupt service routine runs: the
/// data segment registers and general-purpose registers that the stub pushes,
/// the interrupt number and error code, and the frame that the processor
/// pushes.
#[derive(Clone, Copy, Debug, Default, PartialEq, Eq, Structural)]
pub struct InterruptRegisterState {
    pub gs: u64,
    pub fs: u64,
    pub es: u64,
    pub ds: u64,
    pub registers: GeneralPurposeRegisterState,
    pub interrupt_number: u64,
    pub error_code: u64,
    pub rip: u64,
    pub cs: u64,
    pub rflags: u64,
    pub rsp: u64,
    pub ss: u64,
}

} // verus!
