//! The interrupt descriptor table of the host: the gates through which the
//! processor reaches the monitor's interrupt service routines.
//!
//! There is one table for all logical processors. It is filled once, while
//! the monitor is set up, and only read after that.
use vstd::prelude::*;

verus! {

/// The number of gates in the table: one for each exception from division
/// error to SIMD floating-point exception.
pub const IDT_ENTRY_COUNT: usize = 20;

/// The size in bytes of a gate.
pub const IDT_ENTRY_SIZE: usize = 16;

/// The descriptor privilege level 0 in the flags of a gate.
pub const IDT_ENTRY_FLAGS_RING_0: u8 = 0x00;

/// The present bit in the flags of a gate.
pub const IDT_ENTRY_FLAGS_PRESENT: u8 = 0x80;

/// The type of a 64-bit interrupt gate in the flags of a gate.
pub const IDT_ENTRY_FLAGS_INTERRUPT_GATE: u8 = 0x0e;

/// The flags of the monitor's gates: a present interrupt gate of privilege
/// level 0.
pub const HOST_GATE_FLAGS: u8 = 0x8e;

/// A gate of the interrupt descriptor table, as the processor lays it out.
#[derive(Clone, Copy, Debug, Default, PartialEq, Eq, Structural)]
pub struct IdtEntry {
    /// Bits 0 to 15 of the address of the service routine.
    pub base_low: u16,
    /// The code segment of the service routine.
    pub selector: u16,
    /// Zero.
    pub always0: u8,
    /// Type, privilege level and present bit.
    pub flags: u8,
    /// Bits 16 to 31 of the address of the service routine.
    pub base_high: u16,
    /// Bits 32 to 63 of the address of the service routine.
    pub base_highest: u32,
    /// Reserved, zero.
    pub reserved: u32,
}

/// The contents of the interrupt descriptor table register.
#[derive(Clone, Copy, Debug, Default, PartialEq, Eq, Structural)]
pub struct IdtDescriptor {
    /// The size of the table in bytes, minus one.
    pub limit: u16,
    /// The virtual address of the table.
    pub base: u64,
}

/// A gate that leads to the service routine at `base`, with the address in
/// three pieces.
pub open spec fn gate(base: u64, selector: u16, flags: u8) -> IdtEntry {
    IdtEntry {
        base_low: (base & 0xffff) as u16,
        selector,
        always0: 0,
        flags,
        base_high: ((base >> 16) & 0xffff) as u16,
        base_highest: (base >> 32) as u32,
        reserved: 0,
    }
}

/// The address of the service routine that a gate leads to.
pub open spec fn gate_address(entry: IdtEntry) -> u64 {
    ((entry.base_highest as u64) << 32) | ((entry.base_high as u64) << 16) | (
    entry.base_low as u64)
}

/// A gate leads to the address that it was made for.
pub proof fn lemma_gate_address(base: u64, selector: u16, flags: u8)
    ensures
        gate_address(gate(base, selector, flags)) == base,
{
    let low: u16 = (base & 0xffff) as u16;
    let high: u16 = ((base >> 16) & 0xffff) as u16;
    let highest: u32 = (base >> 32) as u32;
    assert((((highest as u64) << 32) | ((high as u64) << 16) | (low as u64)) == base)
        by (bit_vector)
        requires
            low == (base & 0xffff) as u16,
            high == ((base >> 16) & 0xffff) as u16,
            highest == (base >> 32) as u32,
    ;
}

impl IdtEntry {
    /// A gate that is not present.
    pub fn new() -> (entry: IdtEntry)
        ensures
            entry == (IdtEntry {
                base_low: 0,
                selector: 0,
                always0: 0,
                flags: 0,
                base_high: 0,
                base_highest: 0,
                reserved: 0,
            }),
    {
        IdtEntry {
            base_low: 0,
            selector: 0,
            always0: 0,
            flags: 0,
            base_high: 0,
            base_highest: 0,
            reserved: 0,
        }
    }
}

/// The gates of the table.
#[derive(Clone, Copy, Debug)]
pub struct Idt(pub [IdtEntry; 20]);

impl Idt {
    /// A table of which no gate is present.
    pub fn new() -> (idt: Idt)
        ensures
            forall|num: int| 0 <= num < IDT_ENTRY_COUNT ==> idt.0[num] == gate(0, 0, 0),
    {
        assert(gate(0, 0, 0) == (IdtEntry {
            base_low: 0,
            selector: 0,
            always0: 0,
            flags: 0,
            base_high: 0,
            base_highest: 0,
            reserved: 0,
        })) by {
            assert((0u64 & 0xffff) as u16 == 0 && ((0u64 >> 16) & 0xffff) as u16 == 0 && (0u64
                >> 32) as u32 == 0) by (bit_vector);
        }
        Idt([IdtEntry::new();20])
    }

    /// Makes gate `num` lead to the service routine at `base`.
    pub fn set_entry(&mut self, num: usize, base: u64, selector: u16, flags: u8)
        requires
            num < IDT_ENTRY_COUNT,
        ensures
            final(self).0@ == old(self).0@.update(num as int, gate(base, selector, flags)),
    {
        let low: u64 = base & 0xffff;
        let high: u64 = (base >> 16) & 0xffff;
        let highest: u64 = base >> 32;
        assert(low <= 0xffff && high <= 0xffff && highest <= 0xffff_ffff) by (bit_vector)
            requires
                low == base & 0xffff,
                high == (base >> 16) & 0xffff,
                highest == base >> 32,
        ;
        self.0[num] = IdtEntry {
            base_low: low as u16,
            selector,
            always0: 0,
            flags,
            base_high: high as u16,
            base_highest: highest as u32,
            reserved: 0,
        };
    }
}

/// The interrupt descriptor table of the host, the address at which it lies,
/// and whether it was filled.
#[derive(Clone, Copy, Debug)]
pub struct InterruptTable {
    idt: Idt,
    base: u64,
    initialized: bool,
}

impl InterruptTable {
    /// The gates of the table.
    pub closed spec fn gates(&self) -> Seq<IdtEntry> {
        self.idt.0@
    }

    /// The address at which the table lies.
    pub closed spec fn address(&self) -> u64 {
        self.base
    }

    /// Whether the table was filled.
    pub closed spec fn filled(&self) -> bool {
        self.initialized
    }

    /// A table at the address of which no gate is present.
    pub fn new(base: u64) -> (table: InterruptTable)
        ensures
            table.address() == base,
            !table.filled(),
            table.gates().len() == IDT_ENTRY_COUNT,
            forall|num: int| 0 <= num < IDT_ENTRY_COUNT ==> table.gates()[num] == gate(0, 0, 0),
    {
        InterruptTable { idt: Idt::new(), base, initialized: false }
    }

    /// Whether the table was filled.
    pub fn is_initialized(&self) -> (initialized: bool)
        ensures
            initialized == self.filled(),
    {
        self.initialized
    }

    /// Reads gate `num` of the table.
    pub fn entry(&self, num: usize) -> (entry: IdtEntry)
        requires
            num < IDT_ENTRY_COUNT,
        ensures
            entry == self.gates()[num as int],
    {
        self.idt.0[num]
    }

    /// What the interrupt descriptor table register holds for the table.
    pub fn descriptor(&self) -> (descriptor: IdtDescriptor)
        ensures
            descriptor.base == self.address(),
            descriptor.limit == IDT_ENTRY_COUNT * IDT_ENTRY_SIZE - 1,
    {
        IdtDescriptor { limit: 319, base: self.base }
    }
}

/// The address of the host's interrupt descriptor table, for the host-state
/// area of a VMCS.
pub fn host_idt_base(table: &InterruptTable) -> (base: u64)
    ensures
        base == table.address(),
{
    table.base
}

/// Fills the table, once: gate `num` leads to the service routine at
/// `handlers[num]` in the code segment `cs`, as a present interrupt gate of
/// privilege level 0. A table that was filled stays as it is.
pub fn init_interrupt_handlers(table: &mut InterruptTable, handlers: &[u64; 20], cs: u16)
    ensures
        final(table).filled(),
        final(table).address() == old(table).address(),
        final(table).gates().len() == IDT_ENTRY_COUNT,
        old(table).filled() ==> final(table).gates() == old(table).gates(),
        !old(table).filled() ==> forall|num: int|
            0 <= num < IDT_ENTRY_COUNT ==> final(table).gates()[num] == gate(
                handlers[num],
                cs,
                HOST_GATE_FLAGS,
            ),
{
    if table.initialized {
        return ;
    }
    let mut num: usize = 0;
    while num < IDT_ENTRY_COUNT
        invariant
            num <= IDT_ENTRY_COUNT,
            table.base == old(table).base,
            forall|set: int|
                0 <= set < num ==> table.idt.0[set] == gate(handlers[set], cs, HOST_GATE_FLAGS),
        decreases IDT_ENTRY_COUNT - num,
    {
        table.idt.set_entry(
            num,
            handlers[num],
            cs,
            IDT_ENTRY_FLAGS_RING_0 | IDT_ENTRY_FLAGS_PRESENT | IDT_ENTRY_FLAGS_INTERRUPT_GATE,
        );
        assert(IDT_ENTRY_FLAGS_RING_0 | IDT_ENTRY_FLAGS_PRESENT | IDT_ENTRY_FLAGS_INTERRUPT_GATE
            == HOST_GATE_FLAGS) by (bit_vector);
        num += 1;
    }
    table.initialized = true;
}

} // verus!
