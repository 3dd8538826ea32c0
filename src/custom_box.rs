use vstd::prelude::*;

verus! {

/// A user-defined smart pointer: it holds one value and dereferences to it.
pub struct CustomBox<T>(pub T);

impl<T> CustomBox<T> {
    /// Wraps `x`.
    pub fn new(x: T) -> (r: CustomBox<T>)
        ensures
            r.0 == x,
    {
        CustomBox(x)
    }
}

impl<T> std::ops::Deref for CustomBox<T> {
    type Target = T;

    fn deref(&self) -> (r: &T)
        ensures
            *r == self.0,
    {
        &self.0
    }
}

} // verus!
