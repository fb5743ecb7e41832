use vstd::prelude::*;

verus! {

/// The upper end of the range of a counter.
#[derive(Debug, Clone, Copy, PartialEq, Eq, Structural)]
pub enum CounterEnd {
    /// Values below the bound.
    Excluded(usize),
    /// Values up to the bound.
    Included(usize),
    /// No bound.
    Unbounded,
}

impl CounterEnd {
    /// Whether the value `v` lies below this end.
    pub open spec fn allows(self, v: int) -> bool {
        match self {
            CounterEnd::Excluded(e) => v < e,
            CounterEnd::Included(e) => v <= e,
            CounterEnd::Unbounded => true,
        }
    }
}

/// A counter that steps by one from a start value through a range.
#[derive(Debug, Clone, Copy, PartialEq, Eq)]
pub struct Counter {
    current: usize,
    end: CounterEnd,
}

impl Counter {
    /// The current value.
    pub closed spec fn spec_current(self) -> nat {
        self.current as nat
    }

    /// The end of the range.
    pub closed spec fn spec_end(self) -> CounterEnd {
        self.end
    }

    /// Whether a step is possible: the next value lies in the range and is representable.
    pub open spec fn has_next(self) -> bool {
        self.spec_current() + 1 <= usize::MAX && self.spec_end().allows(self.spec_current() + 1int)
    }

    /// A counter at `start` in the range that ends at `end`.
    pub fn new(start: usize, end: CounterEnd) -> (r: Counter)
        ensures
            r.spec_current() == start,
            r.spec_end() == end,
    {
        Counter { current: start, end }
    }

    /// The current value.
    pub fn current(&self) -> (r: usize)
        ensures
            r == self.spec_current(),
    {
        self.current
    }

    /// Whether no further step is possible.
    pub fn is_ended(&self) -> (r: bool)
        ensures
            r == !self.has_next(),
    {
        if self.current == usize::MAX {
            return true;
        }
        let next = self.current + 1;
        match self.end {
            CounterEnd::Excluded(e) => next >= e,
            CounterEnd::Included(e) => next > e,
            CounterEnd::Unbounded => false,
        }
    }

    /// Steps to the next value and returns `Some(())`, or returns `None` and stays where
    /// no step is possible.
    pub fn next(&mut self) -> (r: Option<()>)
        ensures
            old(self).has_next() ==> r is Some && final(self).spec_current() == old(
                self,
            ).spec_current() + 1 && final(self).spec_end() == old(self).spec_end(),
            !old(self).has_next() ==> r is None && *final(self) == *old(self),
    {
        if self.is_ended() {
            None
        } else {
            self.current = self.current + 1;
            Some(())
        }
    }
}

} // verus!
