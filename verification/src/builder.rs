//! Build-time constraint accounting.
//!
//! During `configure` each gadget allocates witness cells and declares
//! its stack accesses through a builder passed by exclusive access; the
//! builder is discarded before any assignment runs, so the two phases
//! never interleave. Each declared stack access implicitly contributes
//! one unit to the step's read/write-counter delta.

use vstd::prelude::*;

verus! {

/// Shared mutable constraint-builder state threaded through the
/// configuration phase of every gadget.
#[derive(Debug, Clone, Copy, PartialEq, Eq, Structural)]
pub struct ConstraintBuilder {
    /// Number of witness cells allocated so far.
    pub cells: u64,
    /// Number of stack reads declared so far.
    pub stack_pops: u64,
    /// Number of stack writes declared so far.
    pub stack_pushes: u64,
}

impl ConstraintBuilder {
    /// The read/write-counter delta implied by the declared stack
    /// accesses.
    pub open spec fn rw_delta(self) -> int {
        self.stack_pops + self.stack_pushes
    }

    /// A fresh builder with nothing allocated or declared.
    pub fn new() -> (cb: ConstraintBuilder)
        ensures
            cb.cells == 0,
            cb.stack_pops == 0,
            cb.stack_pushes == 0,
    {
        ConstraintBuilder { cells: 0, stack_pops: 0, stack_pushes: 0 }
    }

    /// Allocate one witness cell.
    pub fn query_cell(&mut self)
        requires
            old(self).cells < u64::MAX,
        ensures
            final(self).cells == old(self).cells + 1,
            final(self).stack_pops == old(self).stack_pops,
            final(self).stack_pushes == old(self).stack_pushes,
    {
        self.cells = self.cells + 1;
    }

    /// Allocate the 32 cells of one word operand.
    pub fn query_word(&mut self)
        requires
            old(self).cells + 32 <= u64::MAX,
        ensures
            final(self).cells == old(self).cells + 32,
            final(self).stack_pops == old(self).stack_pops,
            final(self).stack_pushes == old(self).stack_pushes,
    {
        self.cells = self.cells + 32;
    }

    /// Declare one stack read.
    pub fn stack_pop(&mut self)
        requires
            old(self).stack_pops < u64::MAX,
        ensures
            final(self).stack_pops == old(self).stack_pops + 1,
            final(self).cells == old(self).cells,
            final(self).stack_pushes == old(self).stack_pushes,
    {
        self.stack_pops = self.stack_pops + 1;
    }

    /// Declare one stack write.
    pub fn stack_push(&mut self)
        requires
            old(self).stack_pushes < u64::MAX,
        ensures
            final(self).stack_pushes == old(self).stack_pushes + 1,
            final(self).cells == old(self).cells,
            final(self).stack_pops == old(self).stack_pops,
    {
        self.stack_pushes = self.stack_pushes + 1;
    }
}

} // verus!
