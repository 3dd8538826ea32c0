use vstd::prelude::*;
use crate::shared::Counts;

verus! {

/// Two reference-counted allocations that point at each other. The second
/// owns a strong handle to the first; the first holds a handle back to the
/// second, strong or weak. Two local strong handles, one to each, stand
/// outside the pair.
#[derive(Debug, Clone, Copy, PartialEq, Eq, Structural)]
pub struct Cycle {
    pub first: Counts,
    pub second: Counts,
    pub back_is_strong: bool,
}

impl Cycle {
    /// The pair as built: the first allocation owned by its local and by the
    /// second; the second owned by its local, and by the first when the
    /// handle back is strong.
    pub open spec fn built(back_is_strong: bool) -> Cycle {
        Cycle {
            first: Counts { strong: 2, weak: 0 },
            second: if back_is_strong {
                Counts { strong: 2, weak: 0 }
            } else {
                Counts { strong: 1, weak: 1 }
            },
            back_is_strong,
        }
    }

    /// Builds the pair: the first allocation, the second holding a clone of
    /// the first, then the handle from the first back to the second.
    pub fn build(back_is_strong: bool) -> (r: Cycle)
        ensures
            r == Cycle::built(back_is_strong),
    {
        let mut first = Counts::new();
        let mut second = Counts::new();
        first.clone_strong();
        if back_is_strong {
            second.clone_strong();
        } else {
            second.downgrade();
        }
        Cycle { first, second, back_is_strong }
    }

    /// Drops the two local handles, the second's before the first's, and
    /// with them whatever an allocation that dies owns. Returns whether each
    /// allocation was freed. A cycle of strong handles frees neither; a weak
    /// handle back frees both.
    pub fn drop_locals(&mut self) -> (r: (bool, bool))
        requires
            *old(self) == Cycle::built(old(self).back_is_strong),
        ensures
            r == (!old(self).back_is_strong, !old(self).back_is_strong),
            final(self).back_is_strong == old(self).back_is_strong,
            old(self).back_is_strong ==> final(self).first.strong == 1 && final(self).second.strong
                == 1,
            !old(self).back_is_strong ==> final(self).first == (Counts { strong: 0, weak: 0 })
                && final(self).second == (Counts { strong: 0, weak: 0 }),
    {
        let mut first_freed = false;
        let second_freed = self.second.release_strong();
        if second_freed {
            first_freed = self.first.release_strong();
        }
        if !first_freed {
            first_freed = self.first.release_strong();
            if first_freed {
                if self.back_is_strong {
                    self.second.release_strong();
                } else {
                    self.second.release_weak();
                }
            }
        }
        (first_freed, second_freed)
    }
}

} // verus!
