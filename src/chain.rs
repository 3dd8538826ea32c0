use vstd::prelude::*;

verus! {

/// A recursive type made finite by boxing: each link may own the next one.
#[derive(Debug)]
pub struct Hello {
    pub hello: Option<Box<Hello>>,
}

/// The same recursion written as an enum: a boxed link, or the end.
#[derive(Debug)]
pub enum HelloEnum {
    Hello(Box<HelloEnum>),
    Null,
}

impl Hello {
    /// Number of links that follow this one.
    pub open spec fn links(&self) -> nat
        decreases self,
    {
        match self.hello {
            Some(next) => 1 + next.links(),
            None => 0,
        }
    }

    /// A link with nothing after it.
    pub fn leaf() -> (r: Hello)
        ensures
            r.hello is None,
            r.links() == 0,
    {
        Hello { hello: None }
    }

    /// A new link that owns `next` on the heap.
    pub fn wrap(next: Hello) -> (r: Hello)
        ensures
            r.hello == Some(Box::new(next)),
            r.links() == next.links() + 1,
    {
        Hello { hello: Some(Box::new(next)) }
    }

    /// A chain with `n` links after its head.
    pub fn chain(n: usize) -> (r: Hello)
        ensures
            r.links() == n,
    {
        let mut h = Hello::leaf();
        let mut i: usize = 0;
        while i < n
            invariant
                i <= n,
                h.links() == i,
            decreases n - i,
        {
            h = Hello::wrap(h);
            i = i + 1;
        }
        h
    }

    /// Counts the links that follow this one.
    pub fn length(&self) -> (r: usize)
        requires
            self.links() <= usize::MAX,
        ensures
            r == self.links(),
        decreases self,
    {
        match &self.hello {
            Some(next) => 1 + next.length(),
            None => 0,
        }
    }
}

impl HelloEnum {
    /// Number of boxed links before `Null`.
    pub open spec fn links(&self) -> nat
        decreases self,
    {
        match self {
            HelloEnum::Hello(next) => 1 + next.links(),
            HelloEnum::Null => 0,
        }
    }

    /// A chain of `n` boxed links ending in `Null`.
    pub fn chain(n: usize) -> (r: HelloEnum)
        ensures
            r.links() == n,
    {
        let mut h = HelloEnum::Null;
        let mut i: usize = 0;
        while i < n
            invariant
                i <= n,
                h.links() == i,
            decreases n - i,
        {
            h = HelloEnum::Hello(Box::new(h));
            i = i + 1;
        }
        h
    }

    /// Counts the boxed links before `Null`.
    pub fn length(&self) -> (r: usize)
        requires
            self.links() <= usize::MAX,
        ensures
            r == self.links(),
        decreases self,
    {
        match self {
            HelloEnum::Hello(next) => 1 + next.length(),
            HelloEnum::Null => 0,
        }
    }
}

} // verus!
