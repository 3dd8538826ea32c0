use vstd::prelude::*;

verus! {

/// The state of a cell whose borrows are checked at run time: how many
/// shared borrows are outstanding, and whether an exclusive one is.
#[derive(Debug, Clone, Copy, PartialEq, Eq, Structural)]
pub struct BorrowFlag {
    pub readers: usize,
    pub writing: bool,
}

impl BorrowFlag {
    /// At most one exclusive borrow, or any number of shared ones, never both.
    pub open spec fn wf(self) -> bool {
        !(self.writing && self.readers > 0)
    }

    /// Nothing borrowed.
    pub open spec fn unused(self) -> bool {
        !self.writing && self.readers == 0
    }

    /// A cell that nobody borrows.
    pub fn new() -> (r: BorrowFlag)
        ensures
            r.wf(),
            r.unused(),
    {
        BorrowFlag { readers: 0, writing: false }
    }

    /// Takes a shared borrow. Succeeds exactly when no exclusive borrow is
    /// outstanding and the count of shared ones can grow; on failure nothing
    /// changes.
    pub fn try_borrow(&mut self) -> (ok: bool)
        requires
            old(self).wf(),
        ensures
            final(self).wf(),
            ok == (!old(self).writing && old(self).readers < usize::MAX),
            ok ==> final(self).readers == old(self).readers + 1 && !final(self).writing,
            !ok ==> *final(self) == *old(self),
    {
        if !self.writing && self.readers < usize::MAX {
            self.readers = self.readers + 1;
            true
        } else {
            false
        }
    }

    /// Takes the exclusive borrow. Succeeds exactly when nothing is borrowed;
    /// on failure nothing changes.
    pub fn try_borrow_mut(&mut self) -> (ok: bool)
        requires
            old(self).wf(),
        ensures
            final(self).wf(),
            ok == old(self).unused(),
            ok ==> final(self).writing && final(self).readers == 0,
            !ok ==> *final(self) == *old(self),
    {
        if !self.writing && self.readers == 0 {
            self.writing = true;
            true
        } else {
            false
        }
    }

    /// Ends one shared borrow.
    pub fn release_shared(&mut self)
        requires
            old(self).wf(),
            old(self).readers > 0,
        ensures
            final(self).wf(),
            final(self).readers == old(self).readers - 1,
            final(self).writing == old(self).writing,
    {
        self.readers = self.readers - 1;
    }

    /// Ends the exclusive borrow.
    pub fn release_exclusive(&mut self)
        requires
            old(self).wf(),
            old(self).writing,
        ensures
            final(self).wf(),
            final(self).unused(),
    {
        self.writing = false;
    }
}

/// While an exclusive borrow is outstanding, a second one is refused, and so
/// is any shared borrow.
pub proof fn lemma_second_exclusive_refused(f: BorrowFlag)
    requires
        f.wf(),
        f.writing,
    ensures
        !f.unused(),
        f.readers == 0,
{
}

} // verus!
