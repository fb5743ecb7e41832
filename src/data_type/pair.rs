use vstd::prelude::*;
use std::convert::TryInto;
use std::ops::{Add, Div, Mul, Neg, Sub};

verus! {

/// Two values of one type.
#[derive(Debug, Clone, Copy, PartialEq, Eq, PartialOrd, Ord, Hash)]
pub struct Pair<T> {
    pub x: T,
    pub y: T,
}

impl<T> Pair<T> {
    pub fn new(x: T, y: T) -> (r: Pair<T>)
        ensures
            r.x == x,
            r.y == y,
    {
        Pair { x, y }
    }

    /// The pair with its two values exchanged.
    pub fn swap(self) -> (r: Pair<T>)
        ensures
            r.x == self.y,
            r.y == self.x,
    {
        Pair::new(self.y, self.x)
    }

    /// The pair converted value by value.
    pub fn into<U>(self) -> (r: Pair<U>) where T: Into<U> {
        Pair::new(self.x.into(), self.y.into())
    }

    /// The pair converted value by value, or the first error of a conversion.
    pub fn try_into<U>(self) -> (r: Result<Pair<U>, <T as TryInto<U>>::Error>) where T: TryInto<U> {
        let x = match self.x.try_into() {
            Ok(x) => x,
            Err(e) => return Err(e),
        };
        let y = match self.y.try_into() {
            Ok(y) => y,
            Err(e) => return Err(e),
        };
        Ok(Pair::new(x, y))
    }

    /// The pair of `f` applied to each value.
    pub fn map<U, F: Fn(T) -> U>(self, f: F) -> (r: Pair<U>)
        requires
            f.requires((self.x,)),
            f.requires((self.y,)),
        ensures
            f.ensures((self.x,), r.x),
            f.ensures((self.y,), r.y),
    {
        let x = f(self.x);
        let y = f(self.y);
        Pair { x, y }
    }
}

impl<T: Default> Default for Pair<T> {
    /// The pair of two default values.
    fn default() -> (r: Pair<T>) {
        Pair::new(T::default(), T::default())
    }
}

/// Whether an integer fits in an `i32`.
pub open spec fn fits_i32(v: int) -> bool {
    i32::MIN <= v <= i32::MAX
}

impl Add<Pair<i32>> for Pair<i32> {
    type Output = Pair<i32>;

    fn add(self, rhs: Pair<i32>) -> (r: Pair<i32>) {
        Pair::new(self.x + rhs.x, self.y + rhs.y)
    }
}

impl vstd::std_specs::ops::AddSpecImpl<Pair<i32>> for Pair<i32> {
    open spec fn obeys_add_spec() -> bool {
        true
    }

    open spec fn add_req(self, rhs: Pair<i32>) -> bool {
        fits_i32(self.x + rhs.x) && fits_i32(self.y + rhs.y)
    }

    open spec fn add_spec(self, rhs: Pair<i32>) -> Pair<i32> {
        Pair { x: (self.x + rhs.x) as i32, y: (self.y + rhs.y) as i32 }
    }
}

impl Sub<Pair<i32>> for Pair<i32> {
    type Output = Pair<i32>;

    fn sub(self, rhs: Pair<i32>) -> (r: Pair<i32>) {
        Pair::new(self.x - rhs.x, self.y - rhs.y)
    }
}

impl vstd::std_specs::ops::SubSpecImpl<Pair<i32>> for Pair<i32> {
    open spec fn obeys_sub_spec() -> bool {
        true
    }

    open spec fn sub_req(self, rhs: Pair<i32>) -> bool {
        fits_i32(self.x - rhs.x) && fits_i32(self.y - rhs.y)
    }

    open spec fn sub_spec(self, rhs: Pair<i32>) -> Pair<i32> {
        Pair { x: (self.x - rhs.x) as i32, y: (self.y - rhs.y) as i32 }
    }
}

impl Mul<i32> for Pair<i32> {
    type Output = Pair<i32>;

    fn mul(self, rhs: i32) -> (r: Pair<i32>) {
        let x = self.x * rhs;
        let y = self.y * rhs;
        Pair::new(x, y)
    }
}

impl vstd::std_specs::ops::MulSpecImpl<i32> for Pair<i32> {
    open spec fn obeys_mul_spec() -> bool {
        true
    }

    open spec fn mul_req(self, rhs: i32) -> bool {
        fits_i32(self.x * rhs) && fits_i32(self.y * rhs)
    }

    open spec fn mul_spec(self, rhs: i32) -> Pair<i32> {
        Pair { x: (self.x * rhs) as i32, y: (self.y * rhs) as i32 }
    }
}

/// Division rounded towards zero, as `/` on machine integers does.
pub open spec fn trunc_div(a: int, b: int) -> int {
    if a >= 0 {
        a / b
    } else {
        -((-a) / b)
    }
}

impl Div<i32> for Pair<i32> {
    type Output = Pair<i32>;

    fn div(self, rhs: i32) -> (r: Pair<i32>) {
        let x = self.x / rhs;
        let y = self.y / rhs;
        Pair::new(x, y)
    }
}

impl vstd::std_specs::ops::DivSpecImpl<i32> for Pair<i32> {
    open spec fn obeys_div_spec() -> bool {
        true
    }

    open spec fn div_req(self, rhs: i32) -> bool {
        rhs != 0 && !(rhs == -1 && (self.x == i32::MIN || self.y == i32::MIN))
    }

    open spec fn div_spec(self, rhs: i32) -> Pair<i32> {
        Pair { x: trunc_div(self.x as int, rhs as int) as i32, y: trunc_div(self.y as int, rhs as int) as i32 }
    }
}

impl Neg for Pair<i32> {
    type Output = Pair<i32>;

    fn neg(self) -> (r: Pair<i32>) {
        Pair::new(-self.x, -self.y)
    }
}

impl vstd::std_specs::ops::NegSpecImpl for Pair<i32> {
    open spec fn obeys_neg_spec() -> bool {
        true
    }

    open spec fn neg_req(self) -> bool {
        self.x != i32::MIN && self.y != i32::MIN
    }

    open spec fn neg_spec(self) -> Pair<i32> {
        Pair { x: (-self.x) as i32, y: (-self.y) as i32 }
    }
}

} // verus!
