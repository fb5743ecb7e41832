use vstd::prelude::*;

verus! {

/// Whether `c` is a printable ASCII character: neither a control character nor beyond ASCII.
pub open spec fn is_printable_ascii(c: char) -> bool {
    0x20 <= c as u32 <= 0x7e
}

/// Two printable ASCII characters, shown together as one square cell.
#[derive(Debug, Clone, Copy, PartialEq, Eq, Hash)]
pub struct SquareChar(pub [char; 2]);

impl SquareChar {
    pub fn new(left: char, right: char) -> (r: SquareChar)
        requires
            is_printable_ascii(left),
            is_printable_ascii(right),
        ensures
            r.0@ == seq![left, right],
    {
        let r = SquareChar([left, right]);
        assert(r.0@ =~= seq![left, right]);
        r
    }
}

} // verus!
