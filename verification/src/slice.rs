//! The unit of provable work: the dynamic trace of one slice of an execution.

use vstd::prelude::*;

verus! {

/// One step of the execution trace.
#[derive(Clone, Copy, Debug, PartialEq, Eq, Structural)]
pub struct EventTableEntry {
    /// The position of the step in the whole execution, starting at one.
    pub eid: u32,
    /// The function that the executed instruction belongs to.
    pub fid: u32,
    /// The index of the executed instruction within its function.
    pub iid: u32,
    /// The stack pointer before the step.
    pub sp: u32,
    /// The number of memory pages allocated once the step has run.
    pub allocated_memory_pages: u32,
    /// The step of the call that the current frame returns to.
    pub last_jump_eid: u32,
}

/// The ordered, append-only sequence of the steps of a slice.
pub struct ExecutionTable {
    entries: Vec<EventTableEntry>,
}

impl View for ExecutionTable {
    type V = Seq<EventTableEntry>;

    closed spec fn view(&self) -> Seq<EventTableEntry> {
        self.entries@
    }
}

impl ExecutionTable {
    /// A table that holds `entries` in their order.
    pub fn new(entries: Vec<EventTableEntry>) -> (table: Self)
        ensures
            table@ == entries@,
    {
        ExecutionTable { entries }
    }

    /// Appends one step behind the steps recorded so far.
    pub fn push(&mut self, entry: EventTableEntry)
        ensures
            final(self)@ == old(self)@.push(entry),
    {
        self.entries.push(entry);
    }

    /// The recorded steps, oldest first.
    pub fn entries(&self) -> (entries: &Vec<EventTableEntry>)
        ensures
            entries@ == self@,
    {
        &self.entries
    }
}

/// A slice of an execution, as far as the circuit's capacity depends on it.
pub struct Slice {
    /// The dynamic trace of the slice.
    pub etable: ExecutionTable,
}

} // verus!
