use vstd::prelude::*;

verus! {

/// The bookkeeping of one reference-counted allocation: how many owning
/// (strong) and non-owning (weak) handles to it are outstanding. The value
/// lives while at least one strong handle does.
#[derive(Debug, Clone, Copy, PartialEq, Eq, Structural)]
pub struct Counts {
    pub strong: usize,
    pub weak: usize,
}

/// What a handle does to the shared allocation.
#[derive(Debug, Clone, Copy, PartialEq, Eq, Structural)]
pub enum Handle {
    /// A strong handle is cloned.
    CloneStrong,
    /// A strong handle is dropped.
    ReleaseStrong,
    /// A weak handle is made from a strong one.
    Downgrade,
    /// A weak handle is dropped.
    ReleaseWeak,
    /// A weak handle is turned into a strong one, if the value still lives.
    Upgrade,
}

impl Counts {
    /// The value is still owned by someone.
    pub open spec fn alive(self) -> bool {
        self.strong > 0
    }

    /// Whether `op` can be performed: the handle it needs exists and the
    /// count it raises does not overflow.
    pub open spec fn enabled(self, op: Handle) -> bool {
        match op {
            Handle::CloneStrong => self.alive() && self.strong < usize::MAX,
            Handle::ReleaseStrong => self.strong > 0,
            Handle::Downgrade => self.alive() && self.weak < usize::MAX,
            Handle::ReleaseWeak => self.weak > 0,
            Handle::Upgrade => self.weak > 0 && self.strong < usize::MAX,
        }
    }

    /// The counts after `op`; an operation that is not enabled changes nothing.
    pub open spec fn step(self, op: Handle) -> Counts {
        if !self.enabled(op) {
            self
        } else {
            match op {
                Handle::CloneStrong => Counts { strong: (self.strong + 1) as usize, ..self },
                Handle::ReleaseStrong => Counts { strong: (self.strong - 1) as usize, ..self },
                Handle::Downgrade => Counts { weak: (self.weak + 1) as usize, ..self },
                Handle::ReleaseWeak => Counts { weak: (self.weak - 1) as usize, ..self },
                Handle::Upgrade => if self.alive() {
                    Counts { strong: (self.strong + 1) as usize, ..self }
                } else {
                    self
                },
            }
        }
    }

    /// The counts after each operation of `ops` in turn.
    pub open spec fn run(self, ops: Seq<Handle>) -> Counts
        decreases ops.len(),
    {
        if ops.len() == 0 {
            self
        } else {
            self.step(ops[0]).run(ops.drop_first())
        }
    }

    /// A fresh allocation with its single owner.
    pub fn new() -> (r: Counts)
        ensures
            r.strong == 1,
            r.weak == 0,
    {
        Counts { strong: 1, weak: 0 }
    }

    /// Whether the value still lives.
    pub fn is_alive(&self) -> (r: bool)
        ensures
            r == self.alive(),
    {
        self.strong > 0
    }

    /// One more owner: the strong count goes up by one.
    pub fn clone_strong(&mut self)
        requires
            old(self).enabled(Handle::CloneStrong),
        ensures
            final(self).strong == old(self).strong + 1,
            final(self).weak == old(self).weak,
            *final(self) == old(self).step(Handle::CloneStrong),
    {
        self.strong = self.strong + 1;
    }

    /// One owner gone: the strong count goes down by one. Returns whether
    /// that was the last owner, so that the value is destroyed.
    pub fn release_strong(&mut self) -> (destroyed: bool)
        requires
            old(self).strong > 0,
        ensures
            final(self).strong == old(self).strong - 1,
            final(self).weak == old(self).weak,
            *final(self) == old(self).step(Handle::ReleaseStrong),
            destroyed == !final(self).alive(),
    {
        self.strong = self.strong - 1;
        self.strong == 0
    }

    /// One more weak handle; the strong count is left alone.
    pub fn downgrade(&mut self)
        requires
            old(self).enabled(Handle::Downgrade),
        ensures
            final(self).weak == old(self).weak + 1,
            final(self).strong == old(self).strong,
            *final(self) == old(self).step(Handle::Downgrade),
    {
        self.weak = self.weak + 1;
    }

    /// One weak handle gone.
    pub fn release_weak(&mut self)
        requires
            old(self).weak > 0,
        ensures
            final(self).weak == old(self).weak - 1,
            final(self).strong == old(self).strong,
            *final(self) == old(self).step(Handle::ReleaseWeak),
    {
        self.weak = self.weak - 1;
    }

    /// Turns a weak handle into a new strong one. Succeeds exactly when the
    /// value still lives; on failure nothing changes.
    pub fn upgrade(&mut self) -> (r: bool)
        requires
            old(self).enabled(Handle::Upgrade),
        ensures
            r == old(self).alive(),
            r ==> final(self).strong == old(self).strong + 1,
            !r ==> *final(self) == *old(self),
            final(self).weak == old(self).weak,
            *final(self) == old(self).step(Handle::Upgrade),
    {
        if self.strong > 0 {
            self.strong = self.strong + 1;
            true
        } else {
            false
        }
    }
}

/// Once the last strong handle is gone the value stays gone: whatever the
/// remaining handles do afterwards, the strong count stays zero, so every
/// later upgrade fails.
pub proof fn lemma_released_stays_released(c: Counts, ops: Seq<Handle>)
    requires
        !c.alive(),
    ensures
        !c.run(ops).alive(),
        forall|i: int|
            0 <= i <= ops.len() ==> #[trigger] c.run(ops.take(i)).strong == 0,
    decreases ops.len(),
{
    if ops.len() > 0 {
        lemma_released_stays_released(c.step(ops[0]), ops.drop_first());
        assert forall|i: int| 0 <= i <= ops.len() implies #[trigger] c.run(ops.take(i)).strong
            == 0 by {
            if i > 0 {
                assert(ops.take(i).drop_first() =~= ops.drop_first().take(i - 1));
                assert(c.step(ops[0]).run(ops.drop_first().take(i - 1)).strong == 0);
            }
        }
    }
}

/// Each clone followed by a release leaves the counts as they were.
pub proof fn lemma_clone_release_restores(c: Counts)
    requires
        c.enabled(Handle::CloneStrong),
    ensures
        c.step(Handle::CloneStrong).step(Handle::ReleaseStrong) == c,
{
}

} // verus!
