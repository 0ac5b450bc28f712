//! Access to data with the interrupts of the local processor disabled.
//!
//! A guard disables interrupts when it is taken and, where they were enabled
//! then, enables them again when it is released. Guards nest: an inner guard
//! finds interrupts disabled and leaves them so.
//!
//! Interrupts are disabled and enabled by a write of the flags register.
//! Such a write sets the interrupt flag as wanted, leaves the trap,
//! direction, nested-task and alignment-check flags clear, and keeps every
//! other flag as it was read.
use vstd::prelude::*;
use crate::processor::{read_flags, write_flags, FLAGS_NEVER_SET};

verus! {

/// The interrupt-enable flag of the flags register.
pub const FLAGS_INTERRUPT_ENABLE: u64 = 0x200;

/// Whether the flags have interrupts enabled.
pub fn flags_interrupts_enabled(flags: u64) -> (enabled: bool)
    ensures
        enabled == (flags & FLAGS_INTERRUPT_ENABLE != 0),
{
    (flags & FLAGS_INTERRUPT_ENABLE) != 0
}

/// The flags with interrupts disabled.
pub fn flags_with_interrupts_disabled(flags: u64) -> (disabled: u64)
    ensures
        disabled == flags & !FLAGS_INTERRUPT_ENABLE,
        disabled & FLAGS_INTERRUPT_ENABLE == 0,
{
    let disabled: u64 = flags & !FLAGS_INTERRUPT_ENABLE;
    assert(disabled & 0x200 == 0) by (bit_vector)
        requires
            disabled == flags & !0x200u64,
    ;
    disabled
}

/// The flags with interrupts enabled.
pub fn flags_with_interrupts_enabled(flags: u64) -> (enabled: u64)
    ensures
        enabled == flags | FLAGS_INTERRUPT_ENABLE,
        enabled & FLAGS_INTERRUPT_ENABLE != 0,
{
    let enabled: u64 = flags | FLAGS_INTERRUPT_ENABLE;
    assert(enabled & 0x200 != 0) by (bit_vector)
        requires
            enabled == flags | 0x200u64,
    ;
    enabled
}

/// The flags as the monitor writes them: with the flags that it never sets
/// cleared, and every other flag, the interrupt flag among them, as given.
pub fn flags_to_write(flags: u64) -> (written: u64)
    ensures
        written == flags & !FLAGS_NEVER_SET,
        written & FLAGS_NEVER_SET == 0,
        written & FLAGS_INTERRUPT_ENABLE == flags & FLAGS_INTERRUPT_ENABLE,
        written | FLAGS_NEVER_SET == flags | FLAGS_NEVER_SET,
{
    let written: u64 = flags & !FLAGS_NEVER_SET;
    assert(written & 0x4_4500 == 0 && written & 0x200 == flags & 0x200 && written | 0x4_4500 == flags
        | 0x4_4500) by (bit_vector)
        requires
            written == flags & !0x4_4500u64,
    ;
    written
}

/// Tells whether the processor that runs this code has interrupts enabled.
pub fn are_interrupts_enabled() -> bool {
    flags_interrupts_enabled(read_flags())
}

/// Disables the interrupts of the processor that runs this code: writes the
/// flags that it reads, with the interrupt flag cleared, as
/// [`flags_to_write`] gives them.
pub fn cli() {
    write_flags(flags_to_write(flags_with_interrupts_disabled(read_flags())));
}

/// Enables the interrupts of the processor that runs this code: writes the
/// flags that it reads, with the interrupt flag set, as [`flags_to_write`]
/// gives them.
pub fn sti() {
    write_flags(flags_to_write(flags_with_interrupts_enabled(read_flags())));
}

/// What taking a guard does, given the flags that it finds: the flags that
/// it writes, and whether its release enables interrupts again.
#[derive(Clone, Copy, Debug, PartialEq, Eq, Structural)]
pub struct Acquisition {
    /// The flags to write: those found, with interrupts disabled and the
    /// flags that the monitor never sets cleared.
    pub flags: u64,
    /// Whether interrupts were found enabled, so that the release of the
    /// guard enables them again. A guard that is taken inside another finds
    /// them disabled and leaves them so.
    pub reenable: bool,
}

/// What taking a guard does when it finds the flags.
pub open spec fn acquisition_of(flags: u64) -> Acquisition {
    Acquisition {
        flags: (flags & !FLAGS_INTERRUPT_ENABLE) & !FLAGS_NEVER_SET,
        reenable: flags & FLAGS_INTERRUPT_ENABLE != 0,
    }
}

/// Decides what taking a guard does, from the flags that it finds. The
/// flags to write have the interrupt flag and the flags that the monitor
/// never sets clear, and are those found in every other bit.
pub fn acquire(flags: u64) -> (acquisition: Acquisition)
    ensures
        acquisition == acquisition_of(flags),
        acquisition.flags & FLAGS_INTERRUPT_ENABLE == 0,
        acquisition.flags & FLAGS_NEVER_SET == 0,
        acquisition.flags | FLAGS_INTERRUPT_ENABLE | FLAGS_NEVER_SET == flags
            | FLAGS_INTERRUPT_ENABLE | FLAGS_NEVER_SET,
{
    let written: u64 = flags_to_write(flags_with_interrupts_disabled(flags));
    assert(written & 0x200 == 0 && written | 0x200 | 0x4_4500 == flags | 0x200 | 0x4_4500)
        by (bit_vector)
        requires
            written == (flags & !0x200u64) & !0x4_4500u64,
    ;
    Acquisition { flags: written, reenable: flags_interrupts_enabled(flags) }
}

/// Takes a guard on the processor that runs this code: reads the flags,
/// writes what [`acquire`] decides, and tells whether the release enables
/// interrupts again.
fn enter() -> (reenable: bool)
    ensures
        exists|flags: u64| reenable == acquisition_of(flags).reenable,
{
    let flags = read_flags();
    let acquisition = acquire(flags);
    write_flags(acquisition.flags);
    acquisition.reenable
}

/// Data that is accessed with interrupts disabled.
#[derive(Default)]
pub struct ClearLocalInterrupts<T> {
    guarded: T,
}

/// Shared access to guarded data, taken with interrupts disabled.
pub struct ClearLocalInterruptsGuard<'a, T> {
    guarded: &'a T,
    acquired: bool,
}

/// Exclusive access to guarded data, taken with interrupts disabled.
pub struct ClearLocalInterruptsGuardMut<'a, T> {
    /// The data.
    pub guarded: &'a mut T,
    /// Whether the guard found interrupts enabled, and enables them again on
    /// release.
    pub acquired: bool,
}

impl<T> ClearLocalInterrupts<T> {
    /// The data that is guarded.
    pub closed spec fn value(&self) -> T {
        self.guarded
    }

    /// Puts the data under guard.
    pub fn new(guarded: T) -> (guard: Self)
        ensures
            guard.value() == guarded,
    {
        ClearLocalInterrupts { guarded }
    }

    /// Disables interrupts and gives exclusive access to the data. The guard
    /// enables interrupts again on release where [`acquire`] says so for the
    /// flags that were found.
    pub fn cli_mut(&mut self) -> (guard: ClearLocalInterruptsGuardMut<'_, T>)
        ensures
            *guard.guarded == old(self).value(),
            final(self).value() == *final(guard.guarded),
            exists|flags: u64| guard.acquired == acquisition_of(flags).reenable,
    {
        let acquired = enter();
        ClearLocalInterruptsGuardMut { guarded: &mut self.guarded, acquired }
    }

    /// Disables interrupts and gives shared access to the data.
    pub fn cli(&self) -> (guard: ClearLocalInterruptsGuard<'_, T>)
        ensures
            guard.value() == self.value(),
            exists|flags: u64| guard.reenables() == acquisition_of(flags).reenable,
    {
        ClearLocalInterruptsGuard::new(&self.guarded)
    }
}

impl<'a, T> ClearLocalInterruptsGuard<'a, T> {
    /// The data that the guard gives access to.
    pub closed spec fn value(&self) -> T {
        *self.guarded
    }

    /// Whether the guard found interrupts enabled, and enables them again on
    /// release.
    pub closed spec fn reenables(&self) -> bool {
        self.acquired
    }

    /// Disables interrupts and gives shared access to the data. The guard
    /// enables interrupts again on release where [`acquire`] says so for the
    /// flags that were found.
    pub fn new(guarded: &'a T) -> (guard: Self)
        ensures
            guard.value() == *guarded,
            exists|flags: u64| guard.reenables() == acquisition_of(flags).reenable,
    {
        let acquired = enter();
        ClearLocalInterruptsGuard { guarded, acquired }
    }

    /// The data.
    pub fn get(&self) -> (data: &T)
        ensures
            *data == self.value(),
    {
        self.guarded
    }

    /// Whether the guard enables interrupts again on release.
    pub fn acquired(&self) -> (acquired: bool)
        ensures
            acquired == self.reenables(),
    {
        self.acquired
    }

    /// Gives the access back and enables interrupts again, where the guard
    /// found them enabled.
    pub fn release(self) {
        if self.acquired {
            sti();
        }
    }
}

impl<'a, T> ClearLocalInterruptsGuardMut<'a, T> {
    /// Gives the access back and enables interrupts again, where the guard
    /// found them enabled. The data stays as the guard left it.
    pub fn release(self)
        ensures
            *final(self.guarded) == *old(self.guarded),
    {
        if self.acquired {
            sti();
        }
    }
}

} // verus!
