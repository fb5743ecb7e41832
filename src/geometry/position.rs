use vstd::prelude::*;
use std::ops::{Add, Sub};

verus! {

/// Integer type used for coordinates and shifts on the grid.
pub type Shift = i8;

/// Whether an integer fits in a `Shift`.
pub open spec fn fits_shift(v: int) -> bool {
    i8::MIN <= v <= i8::MAX
}

/// A coordinate along the x axis of a grid, growing to the right.
#[derive(Debug, Clone, Copy, PartialEq, Eq, Structural, PartialOrd, Ord, Hash)]
pub struct PosX {
    /// Distance from the origin to this point, rightwards positive.
    pub right_shift: Shift,
}

impl PosX {
    /// The origin.
    pub fn origin() -> (r: PosX)
        ensures
            r.right_shift == 0,
    {
        PosX { right_shift: 0 }
    }

    /// The point `right_shift` cells to the right of the origin.
    pub fn right(right_shift: Shift) -> (r: PosX)
        ensures
            r.right_shift == right_shift,
    {
        PosX { right_shift }
    }

    /// The distance from the origin as an index, or `None` left of the origin.
    pub fn as_positive_index(&self) -> (r: Option<usize>)
        ensures
            self.right_shift >= 0 ==> r == Some(self.right_shift as usize),
            self.right_shift < 0 ==> r.is_none(),
    {
        if self.right_shift >= 0 {
            Some(self.right_shift as usize)
        } else {
            None
        }
    }
}

/// A shift along the x axis, rightwards positive.
#[derive(Debug, Clone, Copy, PartialEq, Eq, Structural, PartialOrd, Ord, Hash)]
pub struct MoveX(pub Shift);

impl MoveX {
    /// The shift as an index, or `None` when it points left.
    pub fn as_positive_index(&self) -> (r: Option<usize>)
        ensures
            self.0 >= 0 ==> r == Some(self.0 as usize),
            self.0 < 0 ==> r.is_none(),
    {
        if self.0 >= 0 {
            Some(self.0 as usize)
        } else {
            None
        }
    }
}

/// A coordinate along the y axis of a grid, growing downwards.
#[derive(Debug, Clone, Copy, PartialEq, Eq, Structural, PartialOrd, Ord, Hash)]
pub struct PosY {
    /// Distance from the origin to this point, downwards positive.
    pub below_shift: Shift,
}

impl PosY {
    /// The origin.
    pub fn origin() -> (r: PosY)
        ensures
            r.below_shift == 0,
    {
        PosY { below_shift: 0 }
    }

    /// The point `below_shift` cells below the origin.
    pub fn below(below_shift: Shift) -> (r: PosY)
        ensures
            r.below_shift == below_shift,
    {
        PosY { below_shift }
    }

    /// The distance from the origin as an index, or `None` above the origin.
    pub fn as_positive_index(&self) -> (r: Option<usize>)
        ensures
            self.below_shift >= 0 ==> r == Some(self.below_shift as usize),
            self.below_shift < 0 ==> r.is_none(),
    {
        if self.below_shift >= 0 {
            Some(self.below_shift as usize)
        } else {
            None
        }
    }
}

/// A shift along the y axis, downwards positive.
#[derive(Debug, Clone, Copy, PartialEq, Eq, Structural, PartialOrd, Ord, Hash)]
pub struct MoveY(pub Shift);

impl MoveY {
    /// The shift as an index, or `None` when it points up.
    pub fn as_positive_index(&self) -> (r: Option<usize>)
        ensures
            self.0 >= 0 ==> r == Some(self.0 as usize),
            self.0 < 0 ==> r.is_none(),
    {
        if self.0 >= 0 {
            Some(self.0 as usize)
        } else {
            None
        }
    }
}

/// The position of a cell on a grid.
#[derive(Debug, Clone, Copy, PartialEq, Eq, Structural, Hash)]
pub struct Pos(pub PosX, pub PosY);

impl Pos {
    /// The x coordinate as a mathematical integer.
    pub open spec fn sx(self) -> int {
        self.0.right_shift as int
    }

    /// The y coordinate as a mathematical integer.
    pub open spec fn sy(self) -> int {
        self.1.below_shift as int
    }

    /// The origin.
    pub fn origin() -> (r: Pos)
        ensures
            r.sx() == 0,
            r.sy() == 0,
    {
        Pos(PosX::origin(), PosY::origin())
    }

    pub fn x(&self) -> (r: PosX)
        ensures
            r == self.0,
    {
        self.0
    }

    pub fn y(&self) -> (r: PosY)
        ensures
            r == self.1,
    {
        self.1
    }
}

/// A shift on a two-dimensional grid.
#[derive(Debug, Clone, Copy, PartialEq, Eq, Structural, Hash)]
pub struct Movement(pub MoveX, pub MoveY);

impl Movement {
    /// The x shift as a mathematical integer.
    pub open spec fn dx(self) -> int {
        (self.0).0 as int
    }

    /// The y shift as a mathematical integer.
    pub open spec fn dy(self) -> int {
        (self.1).0 as int
    }

    pub fn x(&self) -> (r: MoveX)
        ensures
            r == self.0,
    {
        self.0
    }

    pub fn y(&self) -> (r: MoveY)
        ensures
            r == self.1,
    {
        self.1
    }
}

/// A shift of `shift` cells to the right.
pub fn right(shift: Shift) -> (r: MoveX)
    ensures
        r.0 == shift,
{
    MoveX(shift)
}

/// A shift of `shift` cells to the left.
pub fn left(shift: Shift) -> (r: MoveX)
    requires
        shift > i8::MIN,
    ensures
        r.0 == -shift,
{
    MoveX(-shift)
}

/// A shift of `shift` cells downwards.
pub fn below(shift: Shift) -> (r: MoveY)
    ensures
        r.0 == shift,
{
    MoveY(shift)
}

/// A shift of `shift` cells upwards.
pub fn above(shift: Shift) -> (r: MoveY)
    requires
        shift > i8::MIN,
    ensures
        r.0 == -shift,
{
    MoveY(-shift)
}

impl Add<MoveX> for PosX {
    type Output = PosX;

    fn add(self, rhs: MoveX) -> (r: PosX) {
        PosX { right_shift: self.right_shift + rhs.0 }
    }
}

impl vstd::std_specs::ops::AddSpecImpl<MoveX> for PosX {
    open spec fn obeys_add_spec() -> bool {
        true
    }

    open spec fn add_req(self, rhs: MoveX) -> bool {
        fits_shift(self.right_shift + rhs.0)
    }

    open spec fn add_spec(self, rhs: MoveX) -> PosX {
        PosX { right_shift: (self.right_shift + rhs.0) as i8 }
    }
}

impl Sub<PosX> for PosX {
    type Output = MoveX;

    fn sub(self, rhs: PosX) -> (r: MoveX) {
        MoveX(self.right_shift - rhs.right_shift)
    }
}

impl vstd::std_specs::ops::SubSpecImpl<PosX> for PosX {
    open spec fn obeys_sub_spec() -> bool {
        true
    }

    open spec fn sub_req(self, rhs: PosX) -> bool {
        fits_shift(self.right_shift - rhs.right_shift)
    }

    open spec fn sub_spec(self, rhs: PosX) -> MoveX {
        MoveX((self.right_shift - rhs.right_shift) as i8)
    }
}

impl Add<MoveX> for MoveX {
    type Output = MoveX;

    fn add(self, rhs: MoveX) -> (r: MoveX) {
        MoveX(self.0 + rhs.0)
    }
}

impl vstd::std_specs::ops::AddSpecImpl<MoveX> for MoveX {
    open spec fn obeys_add_spec() -> bool {
        true
    }

    open spec fn add_req(self, rhs: MoveX) -> bool {
        fits_shift(self.0 + rhs.0)
    }

    open spec fn add_spec(self, rhs: MoveX) -> MoveX {
        MoveX((self.0 + rhs.0) as i8)
    }
}

impl Sub<MoveX> for MoveX {
    type Output = MoveX;

    fn sub(self, rhs: MoveX) -> (r: MoveX) {
        MoveX(self.0 - rhs.0)
    }
}

impl vstd::std_specs::ops::SubSpecImpl<MoveX> for MoveX {
    open spec fn obeys_sub_spec() -> bool {
        true
    }

    open spec fn sub_req(self, rhs: MoveX) -> bool {
        fits_shift(self.0 - rhs.0)
    }

    open spec fn sub_spec(self, rhs: MoveX) -> MoveX {
        MoveX((self.0 - rhs.0) as i8)
    }
}

impl Add<MoveY> for PosY {
    type Output = PosY;

    fn add(self, rhs: MoveY) -> (r: PosY) {
        PosY { below_shift: self.below_shift + rhs.0 }
    }
}

impl vstd::std_specs::ops::AddSpecImpl<MoveY> for PosY {
    open spec fn obeys_add_spec() -> bool {
        true
    }

    open spec fn add_req(self, rhs: MoveY) -> bool {
        fits_shift(self.below_shift + rhs.0)
    }

    open spec fn add_spec(self, rhs: MoveY) -> PosY {
        PosY { below_shift: (self.below_shift + rhs.0) as i8 }
    }
}

impl Sub<PosY> for PosY {
    type Output = MoveY;

    fn sub(self, rhs: PosY) -> (r: MoveY) {
        MoveY(self.below_shift - rhs.below_shift)
    }
}

impl vstd::std_specs::ops::SubSpecImpl<PosY> for PosY {
    open spec fn obeys_sub_spec() -> bool {
        true
    }

    open spec fn sub_req(self, rhs: PosY) -> bool {
        fits_shift(self.below_shift - rhs.below_shift)
    }

    open spec fn sub_spec(self, rhs: PosY) -> MoveY {
        MoveY((self.below_shift - rhs.below_shift) as i8)
    }
}

impl Add<MoveY> for MoveY {
    type Output = MoveY;

    fn add(self, rhs: MoveY) -> (r: MoveY) {
        MoveY(self.0 + rhs.0)
    }
}

impl vstd::std_specs::ops::AddSpecImpl<MoveY> for MoveY {
    open spec fn obeys_add_spec() -> bool {
        true
    }

    open spec fn add_req(self, rhs: MoveY) -> bool {
        fits_shift(self.0 + rhs.0)
    }

    open spec fn add_spec(self, rhs: MoveY) -> MoveY {
        MoveY((self.0 + rhs.0) as i8)
    }
}

impl Sub<MoveY> for MoveY {
    type Output = MoveY;

    fn sub(self, rhs: MoveY) -> (r: MoveY) {
        MoveY(self.0 - rhs.0)
    }
}

impl vstd::std_specs::ops::SubSpecImpl<MoveY> for MoveY {
    open spec fn obeys_sub_spec() -> bool {
        true
    }

    open spec fn sub_req(self, rhs: MoveY) -> bool {
        fits_shift(self.0 - rhs.0)
    }

    open spec fn sub_spec(self, rhs: MoveY) -> MoveY {
        MoveY((self.0 - rhs.0) as i8)
    }
}

impl From<MoveX> for Movement {
    fn from(x: MoveX) -> (r: Movement) {
        Movement(x, MoveY(0))
    }
}

impl vstd::std_specs::convert::FromSpecImpl<MoveX> for Movement {
    open spec fn obeys_from_spec() -> bool {
        true
    }

    open spec fn from_spec(x: MoveX) -> Movement {
        Movement(x, MoveY(0))
    }
}

impl From<MoveY> for Movement {
    fn from(y: MoveY) -> (r: Movement) {
        Movement(MoveX(0), y)
    }
}

impl vstd::std_specs::convert::FromSpecImpl<MoveY> for Movement {
    open spec fn obeys_from_spec() -> bool {
        true
    }

    open spec fn from_spec(y: MoveY) -> Movement {
        Movement(MoveX(0), y)
    }
}

impl Add<MoveY> for MoveX {
    type Output = Movement;

    fn add(self, rhs: MoveY) -> (r: Movement) {
        Movement(self, rhs)
    }
}

impl vstd::std_specs::ops::AddSpecImpl<MoveY> for MoveX {
    open spec fn obeys_add_spec() -> bool {
        true
    }

    open spec fn add_req(self, rhs: MoveY) -> bool {
        true
    }

    open spec fn add_spec(self, rhs: MoveY) -> Movement {
        Movement(self, rhs)
    }
}

impl Add<MoveX> for MoveY {
    type Output = Movement;

    fn add(self, rhs: MoveX) -> (r: Movement) {
        Movement(rhs, self)
    }
}

impl vstd::std_specs::ops::AddSpecImpl<MoveX> for MoveY {
    open spec fn obeys_add_spec() -> bool {
        true
    }

    open spec fn add_req(self, rhs: MoveX) -> bool {
        true
    }

    open spec fn add_spec(self, rhs: MoveX) -> Movement {
        Movement(rhs, self)
    }
}

impl Add<Movement> for Movement {
    type Output = Movement;

    fn add(self, rhs: Movement) -> (r: Movement) {
        Movement(self.0 + rhs.0, self.1 + rhs.1)
    }
}

impl vstd::std_specs::ops::AddSpecImpl<Movement> for Movement {
    open spec fn obeys_add_spec() -> bool {
        true
    }

    open spec fn add_req(self, rhs: Movement) -> bool {
        fits_shift(self.dx() + rhs.dx()) && fits_shift(self.dy() + rhs.dy())
    }

    open spec fn add_spec(self, rhs: Movement) -> Movement {
        Movement(MoveX((self.dx() + rhs.dx()) as i8), MoveY((self.dy() + rhs.dy()) as i8))
    }
}

impl Add<MoveX> for Movement {
    type Output = Movement;

    fn add(self, rhs: MoveX) -> (r: Movement) {
        Movement(self.0 + rhs, self.1)
    }
}

impl vstd::std_specs::ops::AddSpecImpl<MoveX> for Movement {
    open spec fn obeys_add_spec() -> bool {
        true
    }

    open spec fn add_req(self, rhs: MoveX) -> bool {
        fits_shift(self.dx() + rhs.0)
    }

    open spec fn add_spec(self, rhs: MoveX) -> Movement {
        Movement(MoveX((self.dx() + rhs.0) as i8), self.1)
    }
}

impl Add<MoveY> for Movement {
    type Output = Movement;

    fn add(self, rhs: MoveY) -> (r: Movement) {
        Movement(self.0, self.1 + rhs)
    }
}

impl vstd::std_specs::ops::AddSpecImpl<MoveY> for Movement {
    open spec fn obeys_add_spec() -> bool {
        true
    }

    open spec fn add_req(self, rhs: MoveY) -> bool {
        fits_shift(self.dy() + rhs.0)
    }

    open spec fn add_spec(self, rhs: MoveY) -> Movement {
        Movement(self.0, MoveY((self.dy() + rhs.0) as i8))
    }
}

impl Add<Movement> for Pos {
    type Output = Pos;

    fn add(self, rhs: Movement) -> (r: Pos) {
        Pos(self.0 + rhs.0, self.1 + rhs.1)
    }
}

impl vstd::std_specs::ops::AddSpecImpl<Movement> for Pos {
    open spec fn obeys_add_spec() -> bool {
        true
    }

    open spec fn add_req(self, rhs: Movement) -> bool {
        fits_shift(self.sx() + rhs.dx()) && fits_shift(self.sy() + rhs.dy())
    }

    open spec fn add_spec(self, rhs: Movement) -> Pos {
        Pos(
            PosX { right_shift: (self.sx() + rhs.dx()) as i8 },
            PosY { below_shift: (self.sy() + rhs.dy()) as i8 },
        )
    }
}

impl Add<MoveX> for Pos {
    type Output = Pos;

    fn add(self, rhs: MoveX) -> (r: Pos) {
        Pos(self.0 + rhs, self.1)
    }
}

impl vstd::std_specs::ops::AddSpecImpl<MoveX> for Pos {
    open spec fn obeys_add_spec() -> bool {
        true
    }

    open spec fn add_req(self, rhs: MoveX) -> bool {
        fits_shift(self.sx() + rhs.0)
    }

    open spec fn add_spec(self, rhs: MoveX) -> Pos {
        Pos(PosX { right_shift: (self.sx() + rhs.0) as i8 }, self.1)
    }
}

impl Add<MoveY> for Pos {
    type Output = Pos;

    fn add(self, rhs: MoveY) -> (r: Pos) {
        Pos(self.0, self.1 + rhs)
    }
}

impl vstd::std_specs::ops::AddSpecImpl<MoveY> for Pos {
    open spec fn obeys_add_spec() -> bool {
        true
    }

    open spec fn add_req(self, rhs: MoveY) -> bool {
        fits_shift(self.sy() + rhs.0)
    }

    open spec fn add_spec(self, rhs: MoveY) -> Pos {
        Pos(self.0, PosY { below_shift: (self.sy() + rhs.0) as i8 })
    }
}

impl Sub<Pos> for Pos {
    type Output = Movement;

    fn sub(self, rhs: Pos) -> (r: Movement) {
        Movement(self.0 - rhs.0, self.1 - rhs.1)
    }
}

impl vstd::std_specs::ops::SubSpecImpl<Pos> for Pos {
    open spec fn obeys_sub_spec() -> bool {
        true
    }

    open spec fn sub_req(self, rhs: Pos) -> bool {
        fits_shift(self.sx() - rhs.sx()) && fits_shift(self.sy() - rhs.sy())
    }

    open spec fn sub_spec(self, rhs: Pos) -> Movement {
        Movement(MoveX((self.sx() - rhs.sx()) as i8), MoveY((self.sy() - rhs.sy()) as i8))
    }
}

/// The position `(x, y)`.
pub open spec fn spec_pos(x: int, y: int) -> Pos {
    Pos(PosX { right_shift: x as i8 }, PosY { below_shift: y as i8 })
}

/// Builds the position `(x, y)`.
pub fn pos_at(x: Shift, y: Shift) -> (r: Pos)
    ensures
        r.sx() == x,
        r.sy() == y,
        r == spec_pos(x as int, y as int),
{
    Pos(PosX { right_shift: x }, PosY { below_shift: y })
}

} // verus!
