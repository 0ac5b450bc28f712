//! A dump of the current VMCS for postmortem analysis.
use vstd::prelude::*;
use crate::vmcs_fields::{VmcsField, VMCS_FIELD_COUNT};
use crate::vmx::{vmread, Vmcs};

verus! {

/// What the dump shows for a component that cannot be read.
pub const UNREADABLE_COMPONENT: u64 = 0xbadc0de;

/// The line of the dump at position `index`: the component at that position
/// of the directory, with its value or [`UNREADABLE_COMPONENT`].
pub open spec fn dump_line(vmcs: crate::vmx::VmcsView, index: int) -> (VmcsField, u64) {
    let field = VmcsField::spec_at(index as usize);
    (field, vmcs.read_or(field, UNREADABLE_COMPONENT))
}

/// Reads every component of the directory, in directory order.
pub fn dump(vmcs: &Vmcs) -> (lines: Vec<(VmcsField, u64)>)
    ensures
        lines@.len() == VMCS_FIELD_COUNT,
        forall|index: int| 0 <= index < VMCS_FIELD_COUNT ==> lines@[index] == dump_line(vmcs@, index),
{
    let mut lines: Vec<(VmcsField, u64)> = Vec::new();
    let mut index: usize = 0;
    while index < VMCS_FIELD_COUNT
        invariant
            index <= VMCS_FIELD_COUNT,
            lines@.len() == index,
            forall|earlier: int| 0 <= earlier < index ==> lines@[earlier] == dump_line(vmcs@, earlier),
        decreases VMCS_FIELD_COUNT - index,
    {
        let field = VmcsField::at(index);
        let value: u64 = match vmread(vmcs, field) {
            Ok(value) => value,
            Err(_) => UNREADABLE_COMPONENT,
        };
        lines.push((field, value));
        index += 1;
    }
    lines
}

} // verus!
