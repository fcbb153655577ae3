//! Type variables and the allocator that hands them out.

use vstd::prelude::*;

verus! {

/// A type variable, identified by its index in the allocator that made it.
#[derive(Clone, Copy, PartialEq, Eq, Structural, Hash, Debug)]
pub struct Variable(pub u32);

impl Variable {
    /// The variable's index.
    pub open spec fn index(self) -> int {
        self.0 as int
    }
}

/// The allocator of fresh type variables for one module's compilation.
///
/// It is a counter that only grows: the variables it hands out have indices
/// that follow one another, so it hands out none twice. Two modules that are
/// compiled side by side need an allocator each.
pub struct VarStore {
    next: u32,
}

impl VarStore {
    /// The index of the variable that the next call of `fresh` returns.
    pub closed spec fn next_index(&self) -> int {
        self.next as int
    }

    /// The next index is within the range of a variable's index.
    pub broadcast proof fn lemma_next_index_in_range(&self)
        ensures
            0 <= #[trigger] self.next_index() <= u32::MAX,
    {
    }

    /// How many more variables the allocator can hand out.
    pub fn remaining(&self) -> (count: u32)
        ensures
            count == u32::MAX - self.next_index(),
    {
        u32::MAX - self.next
    }

    /// An allocator that has handed out nothing yet.
    pub fn new() -> (store: VarStore)
        ensures
            store.next_index() == 0,
    {
        VarStore { next: 0 }
    }

    /// An allocator that goes on from the variable with the index `next`:
    /// for a module whose first variables were handed out elsewhere.
    pub fn starting_at(next: u32) -> (store: VarStore)
        ensures
            store.next_index() == next,
    {
        VarStore { next }
    }

    /// Hands out a variable that this allocator has never handed out before.
    pub fn fresh(&mut self) -> (var: Variable)
        requires
            old(self).next_index() < u32::MAX,
        ensures
            var.index() == old(self).next_index(),
            final(self).next_index() == old(self).next_index() + 1,
    {
        let var = Variable(self.next);
        self.next = self.next + 1;
        var
    }
}

} // verus!
