//! Per-processor data: the number of each logical processor, and variables
//! of which each processor has its own.
//!
//! A logical processor carries its number in the FS segment register, where
//! the code that brings it online puts it.
use vstd::prelude::*;
use crate::processor::read_fs;

verus! {

/// The most logical processors that the monitor runs on.
pub const CPU_COUNT_MAX: usize = 32;

/// Hands out the numbers of the logical processors, in the order in which
/// they come online.
#[derive(Clone, Copy, Debug, Default, PartialEq, Eq, Structural)]
pub struct CpuAssignment {
    /// The number that the next processor gets.
    pub next: u16,
}

/// Gives the processor that comes online its number, which the caller loads
/// into FS. The numbers go up by one and wrap around after 65535.
pub fn bring_core_online(assignment: &mut CpuAssignment) -> (number: u16)
    ensures
        number == old(assignment).next,
        final(assignment).next == (if old(assignment).next == u16::MAX {
            0
        } else {
            (old(assignment).next + 1) as u16
        }),
{
    let number: u16 = assignment.next;
    assignment.next = if number == u16::MAX {
        0
    } else {
        number + 1
    };
    number
}

/// Reads the number of the processor that runs this code from FS. Nothing is
/// known of it but that it is what FS holds.
pub fn get_number() -> u16 {
    read_fs()
}

/// A variable of which each logical processor has its own.
#[derive(Default)]
pub struct PerCoreVariable<T> {
    pub vars: [T; 32],
}

impl<T> PerCoreVariable<T> {
    /// The variable of the processor with the number.
    pub fn get_for(&self, number: u16) -> (variable: &T)
        requires
            number < CPU_COUNT_MAX,
        ensures
            *variable == self.vars[number as int],
    {
        &self.vars[number as usize]
    }

    /// The variable of the processor with the number, to write.
    pub fn get_mut_for(&mut self, number: u16) -> (variable: &mut T)
        requires
            number < CPU_COUNT_MAX,
        ensures
            *variable == old(self).vars[number as int],
            final(self).vars@ == old(self).vars@.update(number as int, *final(variable)),
    {
        &mut self.vars[number as usize]
    }

    /// Whether a processor with the number has a variable.
    pub open spec fn has_variable(number: u16) -> bool {
        number < CPU_COUNT_MAX
    }

    /// What a read for the processor with the number gives: its variable,
    /// or nothing where the number is not below [`CPU_COUNT_MAX`].
    pub open spec fn read_for(&self, number: u16, variable: Option<&T>) -> bool {
        if Self::has_variable(number) {
            variable is Some && *variable.unwrap() == self.vars[number as int]
        } else {
            variable is None
        }
    }

    /// The variable of the processor with the number, or `None` where the
    /// number is not below [`CPU_COUNT_MAX`].
    pub fn get_at(&self, number: u16) -> (variable: Option<&T>)
        ensures
            self.read_for(number, variable),
            variable is Some <==> number < CPU_COUNT_MAX,
    {
        if (number as usize) < CPU_COUNT_MAX {
            Some(self.get_for(number))
        } else {
            None
        }
    }

    /// The variable of the processor with the number, to write, or `None`
    /// where the number is not below [`CPU_COUNT_MAX`]. A write through the
    /// reference changes that variable and no other; without a reference
    /// nothing changes.
    pub fn get_mut_at(&mut self, number: u16) -> (variable: Option<&mut T>)
        ensures
            Self::has_variable(number) ==> {
                &&& variable is Some
                &&& *variable.unwrap() == old(self).vars[number as int]
                &&& final(self).vars@ == old(self).vars@.update(
                    number as int,
                    *final(variable.unwrap()),
                )
            },
            !Self::has_variable(number) ==> {
                &&& variable is None
                &&& final(self).vars@ == old(self).vars@
            },
    {
        if (number as usize) < CPU_COUNT_MAX {
            Some(self.get_mut_for(number))
        } else {
            None
        }
    }

    /// The variable of the processor that runs this code: what [`get_at`]
    /// gives for the number that FS holds, whatever that number is.
    ///
    /// [`get_at`]: PerCoreVariable::get_at
    pub fn get(&self) -> (variable: Option<&T>)
        ensures
            exists|number: u16| self.read_for(number, variable),
    {
        let number = get_number();
        self.get_at(number)
    }

    /// The variable of the processor that runs this code, to write: what
    /// [`get_mut_at`] gives for the number that FS holds, whatever that
    /// number is.
    ///
    /// [`get_mut_at`]: PerCoreVariable::get_mut_at
    pub fn get_mut(&mut self) -> (variable: Option<&mut T>)
        ensures
            exists|number: u16|
                {
                    &&& #[trigger] Self::has_variable(number) ==> {
                        &&& variable is Some
                        &&& *variable.unwrap() == old(self).vars[number as int]
                        &&& final(self).vars@ == old(self).vars@.update(
                            number as int,
                            *final(variable.unwrap()),
                        )
                    }
                    &&& !Self::has_variable(number) ==> {
                        &&& variable is None
                        &&& final(self).vars@ == old(self).vars@
                    }
                },
    {
        let number = get_number();
        self.get_mut_at(number)
    }
}

} // verus!
