use vstd::prelude::*;

verus! {

/// The `n`-th value of the sequence 0, 1, -1, 2, -2, 3, -3, ...
pub open spec fn shake_value(n: nat) -> int {
    if n == 0 {
        0
    } else if n % 2 == 1 {
        ((n + 1) / 2) as int
    } else {
        -((n / 2) as int)
    }
}

/// Each value of the sequence follows from the one before it.
proof fn lemma_shake_step(n: nat)
    ensures
        shake_value(n + 1) == if shake_value(n) == 0 {
            1
        } else if shake_value(n) > 0 {
            -shake_value(n)
        } else {
            -shake_value(n) + 1
        },
{
}

/// Yields 0, 1, -1, 2, -2, ...: integers by growing distance from zero, the positive one
/// first.
pub struct Shake {
    current: i32,
    index: Ghost<nat>,
}

impl Shake {
    /// The next value is the `position()`-th of the sequence.
    pub closed spec fn position(&self) -> nat {
        self.index@
    }

    pub closed spec fn wf(&self) -> bool {
        self.current == shake_value(self.index@)
    }

    /// A sequence that starts at zero.
    pub fn new() -> (r: Shake)
        ensures
            r.wf(),
            r.position() == 0,
    {
        Shake { current: 0, index: Ghost(0) }
    }

    /// Returns the next value of the sequence.
    pub fn next(&mut self) -> (r: Option<i32>)
        requires
            old(self).wf(),
            i32::MIN <= shake_value(old(self).position() + 1) <= i32::MAX,
        ensures
            final(self).wf(),
            final(self).position() == old(self).position() + 1,
            r == Some(shake_value(old(self).position()) as i32),
    {
        proof {
            lemma_shake_step(self.index@);
        }
        let next = if self.current == 0 {
            1
        } else if self.current > 0 {
            -self.current
        } else {
            -self.current + 1
        };
        let temp = self.current;
        self.current = next;
        self.index = Ghost(self.index@ + 1);
        Some(temp)
    }
}

} // verus!
