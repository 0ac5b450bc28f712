//! Segment descriptors: the packed form in which a descriptor table holds
//! them, and the unpacked form that the guest-state area of a VMCS takes.
use vstd::prelude::*;

verus! {

/// The present bit of the access byte of a descriptor.
pub const GDT_ENTRY_ACCESS_PRESENT: u8 = 0x80;

/// The access rights that mark a segment register as unusable for VM entry
/// (Intel manual, volume 3, table 24-2).
pub const VMX_INFO_SEGMENT_UNUSABLE: u32 = 0x1_0000;

/// The size in bytes of a descriptor, by which a selector indexes the table.
pub const GDT_ENTRY_SIZE: usize = 8;

/// The parts of a descriptor, laid out as the guest-state area of a VMCS
/// takes them.
#[derive(Clone, Copy, Debug, Default, PartialEq, Eq, Structural)]
pub struct UnpackedGdtEntry {
    /// The base of the segment.
    pub base: u64,
    /// The limit of the segment.
    pub limit: u64,
    /// The access rights of the segment.
    pub access_rights: u32,
    /// The segment selector.
    pub selector: u16,
}

impl UnpackedGdtEntry {
    /// Whether the segment is usable by the processor's rule for VM entry:
    /// the unusable marker, bit 16 of the access rights, is clear.
    pub open spec fn spec_is_usable(&self) -> bool {
        self.access_rights & VMX_INFO_SEGMENT_UNUSABLE == 0
    }

    /// Checks whether the segment is usable: whether bit 16 of the access
    /// rights is clear, whatever the other bits are.
    pub fn is_usable(&self) -> (usable: bool)
        ensures
            usable == self.spec_is_usable(),
            usable == (self.access_rights & 0x1_0000 == 0),
    {
        self.access_rights & VMX_INFO_SEGMENT_UNUSABLE == 0
    }
}

/// A descriptor of eight bytes, as the processor lays it out.
#[derive(Clone, Copy, Debug, PartialEq, Eq, Structural)]
pub struct GdtEntry {
    /// Low 16 bits of the segment limit.
    pub limit_low: u16,
    /// Low 16 bits of the segment base.
    pub base_low: u16,
    /// Middle 8 bits of the segment base.
    pub base_middle: u8,
    /// Segment type and access rights; bit 7 is the present bit.
    pub access: u8,
    /// The low 4 bits are bits 16 to 19 of the limit; the high 4 bits are the
    /// granularity and size flags.
    pub granularity: u8,
    /// High 8 bits of the segment base.
    pub base_high: u8,
}

/// A system descriptor of sixteen bytes, as long mode lays it out.
#[derive(Clone, Copy, Debug, PartialEq, Eq, Structural)]
pub struct GdtEntry64 {
    /// Low 16 bits of the segment limit.
    pub limit_low: u16,
    /// Low 16 bits of the segment base.
    pub base_low: u16,
    /// Middle 8 bits of the segment base.
    pub base_middle: u8,
    /// Segment type and access rights; bit 7 is the present bit.
    pub access: u8,
    /// The low 4 bits are bits 16 to 19 of the limit; the high 4 bits are the
    /// granularity and size flags.
    pub granularity: u8,
    /// Bits 24 to 31 of the segment base.
    pub base_high: u8,
    /// Bits 32 to 63 of the segment base.
    pub base_highest: u32,
    /// Reserved, zero.
    pub reserved0: u32,
}

/// The contents of the global descriptor table register.
#[derive(Clone, Copy, Debug, Default, PartialEq, Eq, Structural)]
pub struct GdtDescriptor {
    /// The size of the table in bytes, minus one.
    pub limit: u16,
    /// The virtual address of the table.
    pub base: u64,
}

/// The 64-bit task-state segment.
#[derive(Clone, Copy, Debug)]
pub struct Tss {
    pub reserved0: u32,
    pub stack0: u64,
    pub stack1: u64,
    pub stack2: u64,
    pub reserved1: u64,
    pub ist: [u64; 7],
    pub reserved2: u64,
    pub reserved3: u16,
    pub iomap_base: u16,
}

/// The limit of the segment that the descriptor describes: 20 bits, of which
/// the low nibble of the granularity byte holds the upper four.
pub open spec fn descriptor_limit(entry: GdtEntry) -> u64 {
    (entry.limit_low as u64) | (((entry.granularity as u64) & 0x0f) << 16)
}

/// The base of the segment that the descriptor describes: 32 bits, in three
/// pieces.
pub open spec fn descriptor_base(entry: GdtEntry) -> u64 {
    ((entry.base_high as u64) << 24) | ((entry.base_middle as u64) << 16) | (entry.base_low as u64)
}

/// The access rights of the segment that the descriptor describes: the access
/// byte in bits 0 to 7, the flags of the granularity byte in bits 12 to 15, and
/// the unusable marker in bit 16 where the descriptor is not present.
pub open spec fn descriptor_access_rights(entry: GdtEntry) -> u32 {
    let rights = ((entry.access as u32) | (((entry.granularity & 0xf0) as u32) << 8)) & 0xf0ff;
    if entry.access & GDT_ENTRY_ACCESS_PRESENT == 0 {
        rights | VMX_INFO_SEGMENT_UNUSABLE
    } else {
        rights
    }
}

/// The index into the table that a selector names: the RPL and the table
/// indicator are not part of it.
pub open spec fn selector_index(selector: u16) -> int {
    selector as int / GDT_ENTRY_SIZE as int
}

/// The descriptor that `selector` names in `gdt`, unpacked. The null selector
/// names no descriptor and unpacks to the unusable marker.
pub open spec fn unpacked_entry(gdt: Seq<GdtEntry>, selector: u16) -> UnpackedGdtEntry {
    let index = selector_index(selector);
    if index == 0 {
        UnpackedGdtEntry { base: 0, limit: 0, access_rights: VMX_INFO_SEGMENT_UNUSABLE, selector: 0 }
    } else {
        UnpackedGdtEntry {
            base: descriptor_base(gdt[index]),
            limit: descriptor_limit(gdt[index]),
            access_rights: descriptor_access_rights(gdt[index]),
            selector,
        }
    }
}

/// A descriptor unpacks as usable exactly when its present bit is set.
pub proof fn lemma_usable_iff_present(entry: GdtEntry, selector: u16)
    ensures
        (UnpackedGdtEntry {
            base: descriptor_base(entry),
            limit: descriptor_limit(entry),
            access_rights: descriptor_access_rights(entry),
            selector,
        }).spec_is_usable() <==> entry.access & GDT_ENTRY_ACCESS_PRESENT != 0,
{
    let access: u8 = entry.access;
    let granularity: u8 = entry.granularity;
    let rights: u32 = ((access as u32) | (((granularity & 0xf0) as u32) << 8)) & 0xf0ff;
    assert(rights & 0x1_0000 == 0 && (rights | 0x1_0000) & 0x1_0000 != 0) by (bit_vector)
        requires
            rights == ((access as u32) | (((granularity & 0xf0) as u32) << 8)) & 0xf0ff,
    ;
}

/// The null selector unpacks to the unusable marker, whatever the table
/// holds, and with any privilege level and table indicator.
pub proof fn lemma_null_selector_is_unusable(gdt: Seq<GdtEntry>, selector: u16)
    requires
        selector_index(selector) == 0,
    ensures
        unpacked_entry(gdt, selector) == (UnpackedGdtEntry {
            base: 0,
            limit: 0,
            access_rights: VMX_INFO_SEGMENT_UNUSABLE,
            selector: 0,
        }),
        !unpacked_entry(gdt, selector).spec_is_usable(),
        selector_in_table(gdt.len(), selector),
{
    assert(0x1_0000u32 & 0x1_0000u32 != 0) by (bit_vector);
}

/// Whether `selector` can be unpacked from a table of `len` descriptors: it is
/// the null selector or names a descriptor of the table.
pub open spec fn selector_in_table(len: nat, selector: u16) -> bool {
    selector_index(selector) < len || selector_index(selector) == 0
}

/// Tells whether `selector` can be unpacked from a table of `len`
/// descriptors.
pub fn is_selector_in_table(len: usize, selector: u16) -> (in_table: bool)
    ensures
        in_table == selector_in_table(len as nat, selector),
{
    let index: usize = (selector as usize) / GDT_ENTRY_SIZE;
    index < len || index == 0
}

/// Given a global descriptor table and a selector that indexes into it,
/// unpacks the descriptor that the selector names.
pub fn unpack_gdt_entry(gdt: &[GdtEntry], selector: u16) -> (unpacked: UnpackedGdtEntry)
    requires
        selector_in_table(gdt@.len(), selector),
    ensures
        unpacked == unpacked_entry(gdt@, selector),
        selector < 8 ==> !unpacked.spec_is_usable(),
        unpacked.spec_is_usable() <==> selector_index(selector) != 0 && gdt@[selector_index(
            selector,
        )].access & GDT_ENTRY_ACCESS_PRESENT != 0,
        unpacked.base <= 0xffff_ffff,
        unpacked.limit <= 0xf_ffff,
{
    let index: usize = (selector as usize) / GDT_ENTRY_SIZE;
    if index == 0 {
        assert(0x1_0000u32 & 0x1_0000u32 != 0) by (bit_vector);
        return UnpackedGdtEntry {
            base: 0,
            limit: 0,
            access_rights: VMX_INFO_SEGMENT_UNUSABLE,
            selector: 0,
        };
    }
    let entry: GdtEntry = gdt[index];
    proof {
        lemma_usable_iff_present(entry, selector);
    }
    let limit: u64 = (entry.limit_low as u64) | (((entry.granularity as u64) & 0x0f) << 16);
    let base: u64 = ((entry.base_high as u64) << 24) | ((entry.base_middle as u64) << 16) | (
    entry.base_low as u64);
    let mut access_rights: u32 = ((entry.access as u32) | (((entry.granularity & 0xf0) as u32)
        << 8)) & 0xf0ff;
    if entry.access & GDT_ENTRY_ACCESS_PRESENT == 0 {
        access_rights = access_rights | VMX_INFO_SEGMENT_UNUSABLE;
    }
    proof {
        let limit_low: u16 = entry.limit_low;
        let granularity: u8 = entry.granularity;
        assert(((limit_low as u64) | (((granularity as u64) & 0x0f) << 16)) <= 0xf_ffff)
            by (bit_vector);
        let base_high: u8 = entry.base_high;
        let base_middle: u8 = entry.base_middle;
        let base_low: u16 = entry.base_low;
        assert((((base_high as u64) << 24) | ((base_middle as u64) << 16) | (base_low as u64))
            <= 0xffff_ffff) by (bit_vector);
    }
    UnpackedGdtEntry { base, limit, access_rights, selector }
}

} // verus!
