use vstd::prelude::*;
use crate::game::cell::Cell;
use crate::geometry::position::{pos_at, Pos};

verus! {

/// Side length of the square table that holds a block.
pub const BLOCK_TABLE_SIZE: usize = 5;
/// Number of cells of a block table.
pub const BLOCK_CELLS: usize = BLOCK_TABLE_SIZE * BLOCK_TABLE_SIZE;

/// The shape of a block, grouped by its number of occupied cells.
#[derive(Debug, Clone, Copy, PartialEq, Eq, Structural, Hash)]
pub enum BlockShape {
    Single(SingleBlockShape),
    Double(DoubleBlockShape),
    Triple(TripleBlockShape),
    Quadruple(QuadrupleBlockShape),
    Quintuple(QuintupleBlockShape),
}

impl BlockShape {
    /// Number of occupied cells of a block of this shape.
    pub open spec fn spec_cell_count(self) -> nat {
        match self {
            BlockShape::Single(_) => 1,
            BlockShape::Double(_) => 2,
            BlockShape::Triple(_) => 3,
            BlockShape::Quadruple(_) => 4,
            BlockShape::Quintuple(_) => 5,
        }
    }

    /// Number of occupied cells of a block of this shape.
    pub fn non_empty_cell_count(&self) -> (r: usize)
        ensures
            r == self.spec_cell_count(),
    {
        match self {
            BlockShape::Single(_) => 1,
            BlockShape::Double(_) => 2,
            BlockShape::Triple(_) => 3,
            BlockShape::Quadruple(_) => 4,
            BlockShape::Quintuple(_) => 5,
        }
    }
}

/// Shapes made of one occupied cell.
#[derive(Debug, Clone, Copy, PartialEq, Eq, Structural, Hash)]
pub enum SingleBlockShape {
    O,
}

impl From<SingleBlockShape> for BlockShape {
    fn from(s: SingleBlockShape) -> (r: BlockShape) {
        BlockShape::Single(s)
    }
}

impl vstd::std_specs::convert::FromSpecImpl<SingleBlockShape> for BlockShape {
    open spec fn obeys_from_spec() -> bool {
        true
    }

    open spec fn from_spec(s: SingleBlockShape) -> BlockShape {
        BlockShape::Single(s)
    }
}

/// Shapes made of two occupied cells.
#[derive(Debug, Clone, Copy, PartialEq, Eq, Structural, Hash)]
pub enum DoubleBlockShape {
    ShortI,
}

impl From<DoubleBlockShape> for BlockShape {
    fn from(s: DoubleBlockShape) -> (r: BlockShape) {
        BlockShape::Double(s)
    }
}

impl vstd::std_specs::convert::FromSpecImpl<DoubleBlockShape> for BlockShape {
    open spec fn obeys_from_spec() -> bool {
        true
    }

    open spec fn from_spec(s: DoubleBlockShape) -> BlockShape {
        BlockShape::Double(s)
    }
}

/// Shapes made of three occupied cells.
#[derive(Debug, Clone, Copy, PartialEq, Eq, Structural, Hash)]
pub enum TripleBlockShape {
    ShortI,
    ShortL,
    ShortJ,
}

impl From<TripleBlockShape> for BlockShape {
    fn from(s: TripleBlockShape) -> (r: BlockShape) {
        BlockShape::Triple(s)
    }
}

impl vstd::std_specs::convert::FromSpecImpl<TripleBlockShape> for BlockShape {
    open spec fn obeys_from_spec() -> bool {
        true
    }

    open spec fn from_spec(s: TripleBlockShape) -> BlockShape {
        BlockShape::Triple(s)
    }
}

/// Shapes made of four occupied cells.
#[derive(Debug, Clone, Copy, PartialEq, Eq, Structural, Hash)]
pub enum QuadrupleBlockShape {
    O,
    Z,
    S,
    J,
    L,
    T,
    I,
}

impl From<QuadrupleBlockShape> for BlockShape {
    fn from(s: QuadrupleBlockShape) -> (r: BlockShape) {
        BlockShape::Quadruple(s)
    }
}

impl vstd::std_specs::convert::FromSpecImpl<QuadrupleBlockShape> for BlockShape {
    open spec fn obeys_from_spec() -> bool {
        true
    }

    open spec fn from_spec(s: QuadrupleBlockShape) -> BlockShape {
        BlockShape::Quadruple(s)
    }
}

/// Shapes made of five occupied cells.
#[derive(Debug, Clone, Copy, PartialEq, Eq, Structural, Hash)]
pub enum QuintupleBlockShape {
    LongI,
    LongL,
    LongJ,
    LargeL,
    LargeJ,
    LongTLeft,
    LongTRight,
    LargeT,
    Star,
    OUpperLeft,
    OLowerLeft,
    LongZ,
    LongS,
    LargeZ,
    LargeS,
    JT,
    LT,
}

impl From<QuintupleBlockShape> for BlockShape {
    fn from(s: QuintupleBlockShape) -> (r: BlockShape) {
        BlockShape::Quintuple(s)
    }
}

impl vstd::std_specs::convert::FromSpecImpl<QuintupleBlockShape> for BlockShape {
    open spec fn obeys_from_spec() -> bool {
        true
    }

    open spec fn from_spec(s: QuintupleBlockShape) -> BlockShape {
        BlockShape::Quintuple(s)
    }
}

/// Where the bombs of a block are.
#[derive(Debug, Clone, Copy, PartialEq, Eq, Structural, Hash)]
pub enum BombTag {
    /// No bomb: every occupied cell is normal.
    NoBomb,
    /// Only the occupied cell with the given label is a bomb.
    Single(usize),
    /// Every occupied cell is a bomb.
    All,
}

/// The orientation of a block.
#[derive(Debug, Clone, Copy, PartialEq, Eq, Structural, Hash)]
pub enum Direction {
    Left,
    Below,
    Right,
    Above,
}

impl Direction {
    pub open spec fn spec_rotate_clockwise(self) -> Direction {
        match self {
            Direction::Left => Direction::Above,
            Direction::Above => Direction::Right,
            Direction::Right => Direction::Below,
            Direction::Below => Direction::Left,
        }
    }

    pub open spec fn spec_rotate_unticlockwise(self) -> Direction {
        match self {
            Direction::Left => Direction::Below,
            Direction::Below => Direction::Right,
            Direction::Right => Direction::Above,
            Direction::Above => Direction::Left,
        }
    }

    /// The orientation after a quarter turn clockwise.
    pub fn rotate_clockwise(self) -> (r: Direction)
        ensures
            r == self.spec_rotate_clockwise(),
    {
        match self {
            Direction::Left => Direction::Above,
            Direction::Above => Direction::Right,
            Direction::Right => Direction::Below,
            Direction::Below => Direction::Left,
        }
    }

    /// The orientation after a quarter turn anticlockwise.
    pub fn rotate_unticlockwise(self) -> (r: Direction)
        ensures
            r == self.spec_rotate_unticlockwise(),
    {
        match self {
            Direction::Left => Direction::Below,
            Direction::Below => Direction::Right,
            Direction::Right => Direction::Above,
            Direction::Above => Direction::Left,
        }
    }
}

/// The catalog of block layouts: for each shape and orientation, a 5x5 table written as
/// 25 octal digits, row by row from the top, each row from the left. Digit 0 is an empty
/// cell; digit `k > 0` is an occupied cell with label `k - 1`.
pub open spec fn template(shape: BlockShape, direction: Direction) -> u128 {
    match shape {
        BlockShape::Single(SingleBlockShape::O) => match direction {
            Direction::Right => 0o00000_00000_00100_00000_00000,
            Direction::Below => 0o00000_00000_00100_00000_00000,
            Direction::Left => 0o00000_00000_00100_00000_00000,
            Direction::Above => 0o00000_00000_00100_00000_00000,
        },
        BlockShape::Double(DoubleBlockShape::ShortI) => match direction {
            Direction::Right => 0o00000_00000_00120_00000_00000,
            Direction::Below => 0o00000_00000_00100_00200_00000,
            Direction::Left => 0o00000_00000_02100_00000_00000,
            Direction::Above => 0o00000_00200_00100_00000_00000,
        },
        BlockShape::Triple(TripleBlockShape::ShortI) => match direction {
            Direction::Right => 0o00000_00000_01230_00000_00000,
            Direction::Below => 0o00000_00100_00200_00300_00000,
            Direction::Left => 0o00000_00000_03210_00000_00000,
            Direction::Above => 0o00000_00300_00200_00100_00000,
        },
        BlockShape::Triple(TripleBlockShape::ShortL) => match direction {
            Direction::Right => 0o00000_00300_00120_00000_00000,
            Direction::Below => 0o00000_00000_00130_00200_00000,
            Direction::Left => 0o00000_00000_02100_00300_00000,
            Direction::Above => 0o00000_00200_03100_00000_00000,
        },
        BlockShape::Triple(TripleBlockShape::ShortJ) => match direction {
            Direction::Right => 0o00000_00030_00120_00000_00000,
            Direction::Below => 0o00000_00000_00100_00230_00000,
            Direction::Left => 0o00000_00000_02100_03000_00000,
            Direction::Above => 0o00000_03200_00100_00000_00000,
        },
        BlockShape::Quadruple(QuadrupleBlockShape::O) => match direction {
            Direction::Right => 0o00000_00430_00120_00000_00000,
            Direction::Below => 0o00000_00140_00230_00000_00000,
            Direction::Left => 0o00000_00210_00340_00000_00000,
            Direction::Above => 0o00000_00320_00410_00000_00000,
        },
        BlockShape::Quadruple(QuadrupleBlockShape::Z) => match direction {
            Direction::Right => 0o00000_00040_00130_00200_00000,
            Direction::Below => 0o00000_00000_02100_00340_00000,
            Direction::Left => 0o00000_00200_03100_04000_00000,
            Direction::Above => 0o00000_04300_00120_00000_00000,
        },
        BlockShape::Quadruple(QuadrupleBlockShape::S) => match direction {
            Direction::Right => 0o00000_00200_00130_00040_00000,
            Direction::Below => 0o00000_00000_00120_04300_00000,
            Direction::Left => 0o00000_04000_03100_00200_00000,
            Direction::Above => 0o00000_00340_02100_00000_00000,
        },
        BlockShape::Quadruple(QuadrupleBlockShape::J) => match direction {
            Direction::Right => 0o00000_00340_00200_00100_00000,
            Direction::Below => 0o00000_00000_01230_00040_00000,
            Direction::Left => 0o00000_00100_00200_04300_00000,
            Direction::Above => 0o00000_04000_03210_00000_00000,
        },
        BlockShape::Quadruple(QuadrupleBlockShape::L) => match direction {
            Direction::Right => 0o00000_00100_00200_00340_00000,
            Direction::Below => 0o00000_00000_03210_04000_00000,
            Direction::Left => 0o00000_04300_00200_00100_00000,
            Direction::Above => 0o00000_00040_01230_00000_00000,
        },
        BlockShape::Quadruple(QuadrupleBlockShape::T) => match direction {
            Direction::Right => 0o00000_00100_00240_00300_00000,
            Direction::Below => 0o00000_00000_03210_00400_00000,
            Direction::Left => 0o00000_00300_04200_00100_00000,
            Direction::Above => 0o00000_00400_01230_00000_00000,
        },
        BlockShape::Quadruple(QuadrupleBlockShape::I) => match direction {
            Direction::Right => 0o00100_00200_00300_00400_00000,
            Direction::Below => 0o00000_00000_04321_00000_00000,
            Direction::Left => 0o00400_00300_00200_00100_00000,
            Direction::Above => 0o00000_00000_01234_00000_00000,
        },
        BlockShape::Quintuple(QuintupleBlockShape::LongI) => match direction {
            Direction::Right => 0o00100_00200_00300_00400_00500,
            Direction::Below => 0o00000_00000_54321_00000_00000,
            Direction::Left => 0o00500_00400_00300_00200_00100,
            Direction::Above => 0o00000_00000_12345_00000_00000,
        },
        BlockShape::Quintuple(QuintupleBlockShape::LongL) => match direction {
            Direction::Right => 0o00010_00020_00030_00045_00000,
            Direction::Below => 0o00000_00000_04321_05000_00000,
            Direction::Left => 0o00000_00540_00030_00020_00010,
            Direction::Above => 0o00000_00005_01234_00000_00000,
        },
        BlockShape::Quintuple(QuintupleBlockShape::LongJ) => match direction {
            Direction::Right => 0o00000_00540_00030_00020_00010,
            Direction::Below => 0o00000_00005_01234_00000_00000,
            Direction::Left => 0o00100_00200_00300_00450_00000,
            Direction::Above => 0o00000_00000_04321_05000_00000,
        },
        BlockShape::Quintuple(QuintupleBlockShape::LargeL) => match direction {
            Direction::Right => 0o00000_00321_00400_00500_00000,
            Direction::Below => 0o00000_05430_00020_00010_00000,
            Direction::Left => 0o00050_00040_01230_00000_00000,
            Direction::Above => 0o00000_00100_00200_00345_00000,
        },
        BlockShape::Quintuple(QuintupleBlockShape::LargeJ) => match direction {
            Direction::Right => 0o00000_00500_00400_00321_00000,
            Direction::Below => 0o00000_00000_00345_00200_00100,
            Direction::Left => 0o00000_00000_01230_00040_00050,
            Direction::Above => 0o00000_00010_00020_05430_00000,
        },
        BlockShape::Quintuple(QuintupleBlockShape::LongTLeft) => match direction {
            Direction::Right => 0o00100_00200_00350_00400_00000,
            Direction::Below => 0o00000_00000_04321_00500_00000,
            Direction::Left => 0o00000_00400_05300_00200_00100,
            Direction::Above => 0o00000_00500_12340_00000_00000,
        },
        BlockShape::Quintuple(QuintupleBlockShape::LongTRight) => match direction {
            Direction::Right => 0o00100_00200_05300_00400_00000,
            Direction::Below => 0o00000_00500_04321_00000_00000,
            Direction::Left => 0o00000_00400_00350_00200_00100,
            Direction::Above => 0o00000_00000_12340_00050_00000,
        },
        BlockShape::Quintuple(QuintupleBlockShape::LargeT) => match direction {
            Direction::Right => 0o01000_02450_03000_00000_00000,
            Direction::Below => 0o03210_00400_00500_00000_00000,
            Direction::Left => 0o00030_05420_00010_00000_00000,
            Direction::Above => 0o00500_00400_01230_00000_00000,
        },
        BlockShape::Quintuple(QuintupleBlockShape::Star) => match direction {
            Direction::Right => 0o00000_00100_05240_00300_00000,
            Direction::Below => 0o00000_00500_03210_00400_00000,
            Direction::Left => 0o00000_00300_04250_00100_00000,
            Direction::Above => 0o00000_00400_01230_00500_00000,
        },
        BlockShape::Quintuple(QuintupleBlockShape::OUpperLeft) => match direction {
            Direction::Right => 0o00050_00140_00230_00000_00000,
            Direction::Below => 0o00000_00210_00345_00000_00000,
            Direction::Left => 0o00000_00320_00410_00500_00000,
            Direction::Above => 0o00000_05430_00120_00000_00000,
        },
        BlockShape::Quintuple(QuintupleBlockShape::OLowerLeft) => match direction {
            Direction::Right => 0o00500_00410_00320_00000_00000,
            Direction::Below => 0o00000_00345_00210_00000_00000,
            Direction::Left => 0o00000_00230_00140_00050_00000,
            Direction::Above => 0o00000_00120_05430_00000_00000,
        },
        BlockShape::Quintuple(QuintupleBlockShape::LongZ) => match direction {
            Direction::Right => 0o00100_00200_04300_05000_00000,
            Direction::Below => 0o00000_05400_00321_00000_00000,
            Direction::Left => 0o00000_00050_00340_00200_00100,
            Direction::Above => 0o00000_00000_12300_00450_00000,
        },
        BlockShape::Quintuple(QuintupleBlockShape::LongS) => match direction {
            Direction::Right => 0o00000_01000_02300_00400_00500,
            Direction::Below => 0o00000_00210_54300_00000_00000,
            Direction::Left => 0o00500_00400_00320_00010_00000,
            Direction::Above => 0o00000_00000_00345_01200_00000,
        },
        BlockShape::Quintuple(QuintupleBlockShape::LargeZ) => match direction {
            Direction::Right => 0o00000_01200_00300_00450_00000,
            Direction::Below => 0o00000_00010_04320_05000_00000,
            Direction::Left => 0o00000_05400_00300_00210_00000,
            Direction::Above => 0o00000_00050_02340_01000_00000,
        },
        BlockShape::Quintuple(QuintupleBlockShape::LargeS) => match direction {
            Direction::Right => 0o00000_00450_00300_01200_00000,
            Direction::Below => 0o00000_01000_02340_00050_00000,
            Direction::Left => 0o00000_00210_00300_05400_00000,
            Direction::Above => 0o00000_05000_04320_00010_00000,
        },
        BlockShape::Quintuple(QuintupleBlockShape::JT) => match direction {
            Direction::Right => 0o00000_01000_02340_00500_00000,
            Direction::Below => 0o00000_00210_05300_00400_00000,
            Direction::Left => 0o00000_00500_04320_00010_00000,
            Direction::Above => 0o00000_00400_00350_01200_00000,
        },
        BlockShape::Quintuple(QuintupleBlockShape::LT) => match direction {
            Direction::Right => 0o00000_00500_02340_01000_00000,
            Direction::Below => 0o00000_01200_00350_00400_00000,
            Direction::Left => 0o00000_00010_04320_00500_00000,
            Direction::Above => 0o00000_00400_05300_00210_00000,
        },
    }
}

/// Looks up the layout of `shape` in `direction` in the catalog.
fn template_code(shape: BlockShape, direction: Direction) -> (r: u128)
    ensures
        r == template(shape, direction),
{
    match shape {
        BlockShape::Single(SingleBlockShape::O) => match direction {
            Direction::Right => 0o00000_00000_00100_00000_00000,
            Direction::Below => 0o00000_00000_00100_00000_00000,
            Direction::Left => 0o00000_00000_00100_00000_00000,
            Direction::Above => 0o00000_00000_00100_00000_00000,
        },
        BlockShape::Double(DoubleBlockShape::ShortI) => match direction {
            Direction::Right => 0o00000_00000_00120_00000_00000,
            Direction::Below => 0o00000_00000_00100_00200_00000,
            Direction::Left => 0o00000_00000_02100_00000_00000,
            Direction::Above => 0o00000_00200_00100_00000_00000,
        },
        BlockShape::Triple(TripleBlockShape::ShortI) => match direction {
            Direction::Right => 0o00000_00000_01230_00000_00000,
            Direction::Below => 0o00000_00100_00200_00300_00000,
            Direction::Left => 0o00000_00000_03210_00000_00000,
            Direction::Above => 0o00000_00300_00200_00100_00000,
        },
        BlockShape::Triple(TripleBlockShape::ShortL) => match direction {
            Direction::Right => 0o00000_00300_00120_00000_00000,
            Direction::Below => 0o00000_00000_00130_00200_00000,
            Direction::Left => 0o00000_00000_02100_00300_00000,
            Direction::Above => 0o00000_00200_03100_00000_00000,
        },
        BlockShape::Triple(TripleBlockShape::ShortJ) => match direction {
            Direction::Right => 0o00000_00030_00120_00000_00000,
            Direction::Below => 0o00000_00000_00100_00230_00000,
            Direction::Left => 0o00000_00000_02100_03000_00000,
            Direction::Above => 0o00000_03200_00100_00000_00000,
        },
        BlockShape::Quadruple(QuadrupleBlockShape::O) => match direction {
            Direction::Right => 0o00000_00430_00120_00000_00000,
            Direction::Below => 0o00000_00140_00230_00000_00000,
            Direction::Left => 0o00000_00210_00340_00000_00000,
            Direction::Above => 0o00000_00320_00410_00000_00000,
        },
        BlockShape::Quadruple(QuadrupleBlockShape::Z) => match direction {
            Direction::Right => 0o00000_00040_00130_00200_00000,
            Direction::Below => 0o00000_00000_02100_00340_00000,
            Direction::Left => 0o00000_00200_03100_04000_00000,
            Direction::Above => 0o00000_04300_00120_00000_00000,
        },
        BlockShape::Quadruple(QuadrupleBlockShape::S) => match direction {
            Direction::Right => 0o00000_00200_00130_00040_00000,
            Direction::Below => 0o00000_00000_00120_04300_00000,
            Direction::Left => 0o00000_04000_03100_00200_00000,
            Direction::Above => 0o00000_00340_02100_00000_00000,
        },
        BlockShape::Quadruple(QuadrupleBlockShape::J) => match direction {
            Direction::Right => 0o00000_00340_00200_00100_00000,
            Direction::Below => 0o00000_00000_01230_00040_00000,
            Direction::Left => 0o00000_00100_00200_04300_00000,
            Direction::Above => 0o00000_04000_03210_00000_00000,
        },
        BlockShape::Quadruple(QuadrupleBlockShape::L) => match direction {
            Direction::Right => 0o00000_00100_00200_00340_00000,
            Direction::Below => 0o00000_00000_03210_04000_00000,
            Direction::Left => 0o00000_04300_00200_00100_00000,
            Direction::Above => 0o00000_00040_01230_00000_00000,
        },
        BlockShape::Quadruple(QuadrupleBlockShape::T) => match direction {
            Direction::Right => 0o00000_00100_00240_00300_00000,
            Direction::Below => 0o00000_00000_03210_00400_00000,
            Direction::Left => 0o00000_00300_04200_00100_00000,
            Direction::Above => 0o00000_00400_01230_00000_00000,
        },
        BlockShape::Quadruple(QuadrupleBlockShape::I) => match direction {
            Direction::Right => 0o00100_00200_00300_00400_00000,
            Direction::Below => 0o00000_00000_04321_00000_00000,
            Direction::Left => 0o00400_00300_00200_00100_00000,
            Direction::Above => 0o00000_00000_01234_00000_00000,
        },
        BlockShape::Quintuple(QuintupleBlockShape::LongI) => match direction {
            Direction::Right => 0o00100_00200_00300_00400_00500,
            Direction::Below => 0o00000_00000_54321_00000_00000,
            Direction::Left => 0o00500_00400_00300_00200_00100,
            Direction::Above => 0o00000_00000_12345_00000_00000,
        },
        BlockShape::Quintuple(QuintupleBlockShape::LongL) => match direction {
            Direction::Right => 0o00010_00020_00030_00045_00000,
            Direction::Below => 0o00000_00000_04321_05000_00000,
            Direction::Left => 0o00000_00540_00030_00020_00010,
            Direction::Above => 0o00000_00005_01234_00000_00000,
        },
        BlockShape::Quintuple(QuintupleBlockShape::LongJ) => match direction {
            Direction::Right => 0o00000_00540_00030_00020_00010,
            Direction::Below => 0o00000_00005_01234_00000_00000,
            Direction::Left => 0o00100_00200_00300_00450_00000,
            Direction::Above => 0o00000_00000_04321_05000_00000,
        },
        BlockShape::Quintuple(QuintupleBlockShape::LargeL) => match direction {
            Direction::Right => 0o00000_00321_00400_00500_00000,
            Direction::Below => 0o00000_05430_00020_00010_00000,
            Direction::Left => 0o00050_00040_01230_00000_00000,
            Direction::Above => 0o00000_00100_00200_00345_00000,
        },
        BlockShape::Quintuple(QuintupleBlockShape::LargeJ) => match direction {
            Direction::Right => 0o00000_00500_00400_00321_00000,
            Direction::Below => 0o00000_00000_00345_00200_00100,
            Direction::Left => 0o00000_00000_01230_00040_00050,
            Direction::Above => 0o00000_00010_00020_05430_00000,
        },
        BlockShape::Quintuple(QuintupleBlockShape::LongTLeft) => match direction {
            Direction::Right => 0o00100_00200_00350_00400_00000,
            Direction::Below => 0o00000_00000_04321_00500_00000,
            Direction::Left => 0o00000_00400_05300_00200_00100,
            Direction::Above => 0o00000_00500_12340_00000_00000,
        },
        BlockShape::Quintuple(QuintupleBlockShape::LongTRight) => match direction {
            Direction::Right => 0o00100_00200_05300_00400_00000,
            Direction::Below => 0o00000_00500_04321_00000_00000,
            Direction::Left => 0o00000_00400_00350_00200_00100,
            Direction::Above => 0o00000_00000_12340_00050_00000,
        },
        BlockShape::Quintuple(QuintupleBlockShape::LargeT) => match direction {
            Direction::Right => 0o01000_02450_03000_00000_00000,
            Direction::Below => 0o03210_00400_00500_00000_00000,
            Direction::Left => 0o00030_05420_00010_00000_00000,
            Direction::Above => 0o00500_00400_01230_00000_00000,
        },
        BlockShape::Quintuple(QuintupleBlockShape::Star) => match direction {
            Direction::Right => 0o00000_00100_05240_00300_00000,
            Direction::Below => 0o00000_00500_03210_00400_00000,
            Direction::Left => 0o00000_00300_04250_00100_00000,
            Direction::Above => 0o00000_00400_01230_00500_00000,
        },
        BlockShape::Quintuple(QuintupleBlockShape::OUpperLeft) => match direction {
            Direction::Right => 0o00050_00140_00230_00000_00000,
            Direction::Below => 0o00000_00210_00345_00000_00000,
            Direction::Left => 0o00000_00320_00410_00500_00000,
            Direction::Above => 0o00000_05430_00120_00000_00000,
        },
        BlockShape::Quintuple(QuintupleBlockShape::OLowerLeft) => match direction {
            Direction::Right => 0o00500_00410_00320_00000_00000,
            Direction::Below => 0o00000_00345_00210_00000_00000,
            Direction::Left => 0o00000_00230_00140_00050_00000,
            Direction::Above => 0o00000_00120_05430_00000_00000,
        },
        BlockShape::Quintuple(QuintupleBlockShape::LongZ) => match direction {
            Direction::Right => 0o00100_00200_04300_05000_00000,
            Direction::Below => 0o00000_05400_00321_00000_00000,
            Direction::Left => 0o00000_00050_00340_00200_00100,
            Direction::Above => 0o00000_00000_12300_00450_00000,
        },
        BlockShape::Quintuple(QuintupleBlockShape::LongS) => match direction {
            Direction::Right => 0o00000_01000_02300_00400_00500,
            Direction::Below => 0o00000_00210_54300_00000_00000,
            Direction::Left => 0o00500_00400_00320_00010_00000,
            Direction::Above => 0o00000_00000_00345_01200_00000,
        },
        BlockShape::Quintuple(QuintupleBlockShape::LargeZ) => match direction {
            Direction::Right => 0o00000_01200_00300_00450_00000,
            Direction::Below => 0o00000_00010_04320_05000_00000,
            Direction::Left => 0o00000_05400_00300_00210_00000,
            Direction::Above => 0o00000_00050_02340_01000_00000,
        },
        BlockShape::Quintuple(QuintupleBlockShape::LargeS) => match direction {
            Direction::Right => 0o00000_00450_00300_01200_00000,
            Direction::Below => 0o00000_01000_02340_00050_00000,
            Direction::Left => 0o00000_00210_00300_05400_00000,
            Direction::Above => 0o00000_05000_04320_00010_00000,
        },
        BlockShape::Quintuple(QuintupleBlockShape::JT) => match direction {
            Direction::Right => 0o00000_01000_02340_00500_00000,
            Direction::Below => 0o00000_00210_05300_00400_00000,
            Direction::Left => 0o00000_00500_04320_00010_00000,
            Direction::Above => 0o00000_00400_00350_01200_00000,
        },
        BlockShape::Quintuple(QuintupleBlockShape::LT) => match direction {
            Direction::Right => 0o00000_00500_02340_01000_00000,
            Direction::Below => 0o00000_01200_00350_00400_00000,
            Direction::Left => 0o00000_00010_04320_00500_00000,
            Direction::Above => 0o00000_00400_05300_00210_00000,
        },
    }
}

/// The place value of octal digit `k`, counted from the lowest: eight to the power `k`.
pub open spec fn octal_place(k: int) -> int {
    if k <= 0 {
        1
    } else if k == 1 {
        8

    } else if k == 2 {
        64

    } else if k == 3 {
        512

    } else if k == 4 {
        4096

    } else if k == 5 {
        32768

    } else if k == 6 {
        262144

    } else if k == 7 {
        2097152

    } else if k == 8 {
        16777216

    } else if k == 9 {
        134217728

    } else if k == 10 {
        1073741824

    } else if k == 11 {
        8589934592

    } else if k == 12 {
        68719476736

    } else if k == 13 {
        549755813888

    } else if k == 14 {
        4398046511104

    } else if k == 15 {
        35184372088832

    } else if k == 16 {
        281474976710656

    } else if k == 17 {
        2251799813685248

    } else if k == 18 {
        18014398509481984

    } else if k == 19 {
        144115188075855872

    } else if k == 20 {
        1152921504606846976

    } else if k == 21 {
        9223372036854775808

    } else if k == 22 {
        73786976294838206464

    } else if k == 23 {
        590295810358705651712

    } else if k == 24 {
        4722366482869645213696
    } else {
        37778931862957161709568
    }
}

/// The place value of octal digit `k`, counted from the lowest.
fn octal_place_value(k: usize) -> (r: u128)
    requires
        k < BLOCK_CELLS,
    ensures
        r == octal_place(k as int),
{
    match k {
        0 => 1,
        1 => 8,
        2 => 64,
        3 => 512,
        4 => 4096,
        5 => 32768,
        6 => 262144,
        7 => 2097152,
        8 => 16777216,
        9 => 134217728,
        10 => 1073741824,
        11 => 8589934592,
        12 => 68719476736,
        13 => 549755813888,
        14 => 4398046511104,
        15 => 35184372088832,
        16 => 281474976710656,
        17 => 2251799813685248,
        18 => 18014398509481984,
        19 => 144115188075855872,
        20 => 1152921504606846976,
        21 => 9223372036854775808,
        22 => 73786976294838206464,
        23 => 590295810358705651712,
        24 => 4722366482869645213696,
        _ => 37778931862957161709568,
    }
}

/// The digit of cell `i` (row-major) of a layout code.
pub open spec fn tag_digit(code: u128, i: int) -> int {
    (code as int / octal_place(24 - i)) % 8
}

/// The cell that a layout digit gives under a bomb assignment.
pub open spec fn cell_for(digit: int, bomb_tag: BombTag) -> Cell {
    if digit == 0 {
        Cell::Empty
    } else {
        match bomb_tag {
            BombTag::NoBomb => Cell::Normal,
            BombTag::All => Cell::Bomb,
            BombTag::Single(j) => if digit - 1 == j {
                Cell::Bomb
            } else {
                Cell::Normal
            },
        }
    }
}

/// The cells of a block of `shape` in `direction` under `bomb_tag`, row-major.
pub open spec fn spec_cells(shape: BlockShape, direction: Direction, bomb_tag: BombTag) -> Seq<Cell> {
    Seq::new(BLOCK_CELLS as nat, |i: int| cell_for(tag_digit(template(shape, direction), i), bomb_tag))
}

/// Position of cell `i` (row-major) in a block table.
pub open spec fn block_pos(i: int) -> Pos {
    Pos(
        crate::geometry::position::PosX { right_shift: (i % BLOCK_TABLE_SIZE as int) as i8 },
        crate::geometry::position::PosY { below_shift: (i / BLOCK_TABLE_SIZE as int) as i8 },
    )
}

/// The occupied cells among the first `n` cells of a table, with their positions, in order.
pub open spec fn occupied_prefix(cells: Seq<Cell>, n: int) -> Seq<(Pos, Cell)>
    decreases n,
{
    if n <= 0 {
        Seq::empty()
    } else if cells[n - 1] == Cell::Empty {
        occupied_prefix(cells, n - 1)
    } else {
        occupied_prefix(cells, n - 1).push((block_pos(n - 1), cells[n - 1]))
    }
}

/// What a block is, mathematically: its cells and how they were made.
pub struct BlockView {
    pub cells: Seq<Cell>,
    pub shape: BlockShape,
    pub direction: Direction,
    pub bomb_tag: BombTag,
}

impl BlockView {
    /// The block of the catalog for `shape` in `direction` under `bomb_tag`.
    pub open spec fn made(shape: BlockShape, direction: Direction, bomb_tag: BombTag) -> BlockView {
        BlockView { cells: spec_cells(shape, direction, bomb_tag), shape, direction, bomb_tag }
    }

    /// The cells agree with the catalog entry for the shape and orientation.
    pub open spec fn wf(self) -> bool {
        self.cells == spec_cells(self.shape, self.direction, self.bomb_tag)
    }

    /// This block turned a quarter clockwise.
    pub open spec fn rotated_clockwise(self) -> BlockView {
        BlockView::made(self.shape, self.direction.spec_rotate_clockwise(), self.bomb_tag)
    }

    /// This block turned a quarter anticlockwise.
    pub open spec fn rotated_unticlockwise(self) -> BlockView {
        BlockView::made(self.shape, self.direction.spec_rotate_unticlockwise(), self.bomb_tag)
    }
}

/// A block: a 5x5 table of cells, made from a shape, an orientation and a bomb assignment.
#[derive(Debug, Clone, Copy, PartialEq, Eq)]
pub struct Block {
    /// The cells, row-major.
    pub cells: [Cell; BLOCK_CELLS],
    /// The shape the block was made from.
    pub shape: BlockShape,
    /// The orientation of the block.
    pub direction: Direction,
    /// Which occupied cells are bombs.
    pub bomb_tag: BombTag,
}

impl View for Block {
    type V = BlockView;

    open spec fn view(&self) -> BlockView {
        BlockView {
            cells: self.cells@,
            shape: self.shape,
            direction: self.direction,
            bomb_tag: self.bomb_tag,
        }
    }
}

impl Block {
    /// The cells agree with the catalog entry for the shape and orientation.
    pub open spec fn wf(self) -> bool {
        self@.wf()
    }

    /// The cell at `(x, y)` of the table.
    pub open spec fn at(self, x: int, y: int) -> Cell {
        self.cells@[y * BLOCK_TABLE_SIZE as int + x]
    }

    /// Makes the block of `shape` in `direction` with bombs as `bomb_tag` says.
    pub fn new(shape: BlockShape, direction: Direction, bomb_tag: BombTag) -> (r: Block)
        ensures
            r@ == BlockView::made(shape, direction, bomb_tag),
            occupied_prefix(r.cells@, BLOCK_CELLS as int).len() == shape.spec_cell_count(),
    {
        let cells = Self::generate_cells(shape, direction, bomb_tag);
        proof {
            lemma_block_cell_count(BlockView::made(shape, direction, bomb_tag));
        }
        Block { cells, shape, direction, bomb_tag }
    }

    /// The table of cells of the block of `shape` in `direction` under `bomb_tag`.
    fn generate_cells(shape: BlockShape, direction: Direction, bomb_tag: BombTag) -> (r: [Cell; BLOCK_CELLS])
        ensures
            r@ == spec_cells(shape, direction, bomb_tag),
    {
        let code = template_code(shape, direction);
        let mut cells = [Cell::Empty; BLOCK_CELLS];
        let mut i: usize = 0;
        while i < BLOCK_CELLS
            invariant
                code == template(shape, direction),
                0 <= i <= BLOCK_CELLS,
                cells@.len() == BLOCK_CELLS,
                forall|k: int| 0 <= k < i ==> #[trigger] cells@[k] == spec_cells(shape, direction, bomb_tag)[k],
            decreases BLOCK_CELLS - i,
        {
            let digit: u128 = (code / octal_place_value(24 - i)) % 8;
            let cell = if digit == 0 {
                Cell::Empty
            } else {
                match bomb_tag {
                    BombTag::NoBomb => Cell::Normal,
                    BombTag::All => Cell::Bomb,
                    BombTag::Single(j) => if digit == j as u128 + 1 {
                        Cell::Bomb
                    } else {
                        Cell::Normal
                    },
                }
            };
            cells[i] = cell;
            i = i + 1;
        }
        proof {
            assert(cells@ =~= spec_cells(shape, direction, bomb_tag));
        }
        cells
    }

    /// The occupied cells with their positions in the table, row by row from the top,
    /// each row from the left.
    pub fn iter_pos_and_occupied_cell(&self) -> (r: Vec<(Pos, Cell)>)
        ensures
            r@ == occupied_prefix(self.cells@, BLOCK_CELLS as int),
    {
        let mut out: Vec<(Pos, Cell)> = Vec::new();
        let mut i: usize = 0;
        while i < BLOCK_CELLS
            invariant
                0 <= i <= BLOCK_CELLS,
                self.cells@.len() == BLOCK_CELLS,
                out@ == occupied_prefix(self.cells@, i as int),
            decreases BLOCK_CELLS - i,
        {
            let c = self.cells[i];
            if !c.is_empty() {
                out.push((pos_at((i % BLOCK_TABLE_SIZE) as i8, (i / BLOCK_TABLE_SIZE) as i8), c));
            }
            i = i + 1;
        }
        out
    }

    /// Every cell with its position in the table, row by row from the top, each row from
    /// the left.
    pub fn iter_pos_and_cell(&self) -> (r: Vec<(Pos, Cell)>)
        ensures
            r@.len() == BLOCK_CELLS,
            forall|i: int| 0 <= i < BLOCK_CELLS ==> #[trigger] r@[i] == (block_pos(i), self.cells@[i]),
    {
        let mut out: Vec<(Pos, Cell)> = Vec::new();
        let mut i: usize = 0;
        while i < BLOCK_CELLS
            invariant
                0 <= i <= BLOCK_CELLS,
                self.cells@.len() == BLOCK_CELLS,
                out@.len() == i,
                forall|k: int| 0 <= k < i ==> #[trigger] out@[k] == (block_pos(k), self.cells@[k]),
            decreases BLOCK_CELLS - i,
        {
            out.push((pos_at((i % BLOCK_TABLE_SIZE) as i8, (i / BLOCK_TABLE_SIZE) as i8), self.cells[i]));
            i = i + 1;
        }
        out
    }

    /// The same block turned a quarter clockwise.
    pub fn rotate_clockwise(&self) -> (r: Block)
        ensures
            r@ == self@.rotated_clockwise(),
    {
        Self::new(self.shape, self.direction.rotate_clockwise(), self.bomb_tag)
    }

    /// The same block turned a quarter anticlockwise.
    pub fn rotate_unticlockwise(&self) -> (r: Block)
        ensures
            r@ == self@.rotated_unticlockwise(),
    {
        Self::new(self.shape, self.direction.rotate_unticlockwise(), self.bomb_tag)
    }

    /// Side length of the table that holds the block.
    pub fn cell_table_size(&self) -> (r: usize)
        ensures
            r == BLOCK_TABLE_SIZE,
    {
        BLOCK_TABLE_SIZE
    }
}

impl Default for Block {
    /// The single-cell block, upright, without bomb.
    fn default() -> (r: Block)
        ensures
            r.shape == BlockShape::Single(SingleBlockShape::O),
            r.direction == Direction::Above,
            r.bomb_tag == BombTag::NoBomb,
            r.wf(),
    {
        Self::new(BlockShape::Single(SingleBlockShape::O), Direction::Above, BombTag::NoBomb)
    }
}

/// Four quarter turns clockwise give back the block that was turned.
pub proof fn lemma_rotate_clockwise_four_times(b: BlockView)
    requires
        b.wf(),
    ensures
        b.rotated_clockwise().rotated_clockwise().rotated_clockwise().rotated_clockwise() == b,
{
}

/// Four quarter turns anticlockwise give back the block that was turned.
pub proof fn lemma_rotate_unticlockwise_four_times(b: BlockView)
    requires
        b.wf(),
    ensures
        b.rotated_unticlockwise().rotated_unticlockwise().rotated_unticlockwise().rotated_unticlockwise()
            == b,
{
}

/// A half turn is the same either way round, and three quarter turns one way are one
/// quarter turn the other way.
pub proof fn lemma_rotation_directions_agree(b: BlockView)
    ensures
        b.rotated_clockwise().rotated_clockwise() == b.rotated_unticlockwise().rotated_unticlockwise(),
        b.rotated_clockwise().rotated_clockwise().rotated_clockwise() == b.rotated_unticlockwise(),
        b.rotated_unticlockwise().rotated_unticlockwise().rotated_unticlockwise() == b.rotated_clockwise(),
{
}

/// Number of nonzero digits among the first `n` cells of a layout code.
pub open spec fn nonzero_digits(code: u128, n: int) -> nat
    decreases n,
{
    if n <= 0 {
        0
    } else {
        nonzero_digits(code, n - 1) + if tag_digit(code, n - 1) != 0 {
            1nat
        } else {
            0nat
        }
    }
}

/// A table has as many occupied cells as its layout has nonzero digits.
proof fn lemma_occupied_count(shape: BlockShape, direction: Direction, bomb_tag: BombTag, n: int)
    requires
        0 <= n <= BLOCK_CELLS,
    ensures
        occupied_prefix(spec_cells(shape, direction, bomb_tag), n).len() == nonzero_digits(
            template(shape, direction),
            n,
        ),
    decreases n,
{
    if n > 0 {
        lemma_occupied_count(shape, direction, bomb_tag, n - 1);
    }
}

/// Every layout of the catalog has as many occupied cells as its shape says.
#[verifier::rlimit(100)]
proof fn lemma_catalog_counts(shape: BlockShape)
    ensures
        forall|d: Direction|
            #[trigger] nonzero_digits(template(shape, d), BLOCK_CELLS as int)
                == shape.spec_cell_count(),
{
    reveal_with_fuel(nonzero_digits, 26);
    match shape {
        BlockShape::Single(SingleBlockShape::O) => {
            assert(nonzero_digits(0o00000_00000_00100_00000_00000, 25) == 1);
            assert(nonzero_digits(0o00000_00000_00100_00000_00000, 25) == 1);
            assert(nonzero_digits(0o00000_00000_00100_00000_00000, 25) == 1);
            assert(nonzero_digits(0o00000_00000_00100_00000_00000, 25) == 1);
        },
        BlockShape::Double(DoubleBlockShape::ShortI) => {
            assert(nonzero_digits(0o00000_00000_00120_00000_00000, 25) == 2);
            assert(nonzero_digits(0o00000_00000_00100_00200_00000, 25) == 2);
            assert(nonzero_digits(0o00000_00000_02100_00000_00000, 25) == 2);
            assert(nonzero_digits(0o00000_00200_00100_00000_00000, 25) == 2);
        },
        BlockShape::Triple(TripleBlockShape::ShortI) => {
            assert(nonzero_digits(0o00000_00000_01230_00000_00000, 25) == 3);
            assert(nonzero_digits(0o00000_00100_00200_00300_00000, 25) == 3);
            assert(nonzero_digits(0o00000_00000_03210_00000_00000, 25) == 3);
            assert(nonzero_digits(0o00000_00300_00200_00100_00000, 25) == 3);
        },
        BlockShape::Triple(TripleBlockShape::ShortL) => {
            assert(nonzero_digits(0o00000_00300_00120_00000_00000, 25) == 3);
            assert(nonzero_digits(0o00000_00000_00130_00200_00000, 25) == 3);
            assert(nonzero_digits(0o00000_00000_02100_00300_00000, 25) == 3);
            assert(nonzero_digits(0o00000_00200_03100_00000_00000, 25) == 3);
        },
        BlockShape::Triple(TripleBlockShape::ShortJ) => {
            assert(nonzero_digits(0o00000_00030_00120_00000_00000, 25) == 3);
            assert(nonzero_digits(0o00000_00000_00100_00230_00000, 25) == 3);
            assert(nonzero_digits(0o00000_00000_02100_03000_00000, 25) == 3);
            assert(nonzero_digits(0o00000_03200_00100_00000_00000, 25) == 3);
        },
        BlockShape::Quadruple(QuadrupleBlockShape::O) => {
            assert(nonzero_digits(0o00000_00430_00120_00000_00000, 25) == 4);
            assert(nonzero_digits(0o00000_00140_00230_00000_00000, 25) == 4);
            assert(nonzero_digits(0o00000_00210_00340_00000_00000, 25) == 4);
            assert(nonzero_digits(0o00000_00320_00410_00000_00000, 25) == 4);
        },
        BlockShape::Quadruple(QuadrupleBlockShape::Z) => {
            assert(nonzero_digits(0o00000_00040_00130_00200_00000, 25) == 4);
            assert(nonzero_digits(0o00000_00000_02100_00340_00000, 25) == 4);
            assert(nonzero_digits(0o00000_00200_03100_04000_00000, 25) == 4);
            assert(nonzero_digits(0o00000_04300_00120_00000_00000, 25) == 4);
        },
        BlockShape::Quadruple(QuadrupleBlockShape::S) => {
            assert(nonzero_digits(0o00000_00200_00130_00040_00000, 25) == 4);
            assert(nonzero_digits(0o00000_00000_00120_04300_00000, 25) == 4);
            assert(nonzero_digits(0o00000_04000_03100_00200_00000, 25) == 4);
            assert(nonzero_digits(0o00000_00340_02100_00000_00000, 25) == 4);
        },
        BlockShape::Quadruple(QuadrupleBlockShape::J) => {
            assert(nonzero_digits(0o00000_00340_00200_00100_00000, 25) == 4);
            assert(nonzero_digits(0o00000_00000_01230_00040_00000, 25) == 4);
            assert(nonzero_digits(0o00000_00100_00200_04300_00000, 25) == 4);
            assert(nonzero_digits(0o00000_04000_03210_00000_00000, 25) == 4);
        },
        BlockShape::Quadruple(QuadrupleBlockShape::L) => {
            assert(nonzero_digits(0o00000_00100_00200_00340_00000, 25) == 4);
            assert(nonzero_digits(0o00000_00000_03210_04000_00000, 25) == 4);
            assert(nonzero_digits(0o00000_04300_00200_00100_00000, 25) == 4);
            assert(nonzero_digits(0o00000_00040_01230_00000_00000, 25) == 4);
        },
        BlockShape::Quadruple(QuadrupleBlockShape::T) => {
            assert(nonzero_digits(0o00000_00100_00240_00300_00000, 25) == 4);
            assert(nonzero_digits(0o00000_00000_03210_00400_00000, 25) == 4);
            assert(nonzero_digits(0o00000_00300_04200_00100_00000, 25) == 4);
            assert(nonzero_digits(0o00000_00400_01230_00000_00000, 25) == 4);
        },
        BlockShape::Quadruple(QuadrupleBlockShape::I) => {
            assert(nonzero_digits(0o00100_00200_00300_00400_00000, 25) == 4);
            assert(nonzero_digits(0o00000_00000_04321_00000_00000, 25) == 4);
            assert(nonzero_digits(0o00400_00300_00200_00100_00000, 25) == 4);
            assert(nonzero_digits(0o00000_00000_01234_00000_00000, 25) == 4);
        },
        BlockShape::Quintuple(QuintupleBlockShape::LongI) => {
            assert(nonzero_digits(0o00100_00200_00300_00400_00500, 25) == 5);
            assert(nonzero_digits(0o00000_00000_54321_00000_00000, 25) == 5);
            assert(nonzero_digits(0o00500_00400_00300_00200_00100, 25) == 5);
            assert(nonzero_digits(0o00000_00000_12345_00000_00000, 25) == 5);
        },
        BlockShape::Quintuple(QuintupleBlockShape::LongL) => {
            assert(nonzero_digits(0o00010_00020_00030_00045_00000, 25) == 5);
            assert(nonzero_digits(0o00000_00000_04321_05000_00000, 25) == 5);
            assert(nonzero_digits(0o00000_00540_00030_00020_00010, 25) == 5);
            assert(nonzero_digits(0o00000_00005_01234_00000_00000, 25) == 5);
        },
        BlockShape::Quintuple(QuintupleBlockShape::LongJ) => {
            assert(nonzero_digits(0o00000_00540_00030_00020_00010, 25) == 5);
            assert(nonzero_digits(0o00000_00005_01234_00000_00000, 25) == 5);
            assert(nonzero_digits(0o00100_00200_00300_00450_00000, 25) == 5);
            assert(nonzero_digits(0o00000_00000_04321_05000_00000, 25) == 5);
        },
        BlockShape::Quintuple(QuintupleBlockShape::LargeL) => {
            assert(nonzero_digits(0o00000_00321_00400_00500_00000, 25) == 5);
            assert(nonzero_digits(0o00000_05430_00020_00010_00000, 25) == 5);
            assert(nonzero_digits(0o00050_00040_01230_00000_00000, 25) == 5);
            assert(nonzero_digits(0o00000_00100_00200_00345_00000, 25) == 5);
        },
        BlockShape::Quintuple(QuintupleBlockShape::LargeJ) => {
            assert(nonzero_digits(0o00000_00500_00400_00321_00000, 25) == 5);
            assert(nonzero_digits(0o00000_00000_00345_00200_00100, 25) == 5);
            assert(nonzero_digits(0o00000_00000_01230_00040_00050, 25) == 5);
            assert(nonzero_digits(0o00000_00010_00020_05430_00000, 25) == 5);
        },
        BlockShape::Quintuple(QuintupleBlockShape::LongTLeft) => {
            assert(nonzero_digits(0o00100_00200_00350_00400_00000, 25) == 5);
            assert(nonzero_digits(0o00000_00000_04321_00500_00000, 25) == 5);
            assert(nonzero_digits(0o00000_00400_05300_00200_00100, 25) == 5);
            assert(nonzero_digits(0o00000_00500_12340_00000_00000, 25) == 5);
        },
        BlockShape::Quintuple(QuintupleBlockShape::LongTRight) => {
            assert(nonzero_digits(0o00100_00200_05300_00400_00000, 25) == 5);
            assert(nonzero_digits(0o00000_00500_04321_00000_00000, 25) == 5);
            assert(nonzero_digits(0o00000_00400_00350_00200_00100, 25) == 5);
            assert(nonzero_digits(0o00000_00000_12340_00050_00000, 25) == 5);
        },
        BlockShape::Quintuple(QuintupleBlockShape::LargeT) => {
            assert(nonzero_digits(0o01000_02450_03000_00000_00000, 25) == 5);
            assert(nonzero_digits(0o03210_00400_00500_00000_00000, 25) == 5);
            assert(nonzero_digits(0o00030_05420_00010_00000_00000, 25) == 5);
            assert(nonzero_digits(0o00500_00400_01230_00000_00000, 25) == 5);
        },
        BlockShape::Quintuple(QuintupleBlockShape::Star) => {
            assert(nonzero_digits(0o00000_00100_05240_00300_00000, 25) == 5);
            assert(nonzero_digits(0o00000_00500_03210_00400_00000, 25) == 5);
            assert(nonzero_digits(0o00000_00300_04250_00100_00000, 25) == 5);
            assert(nonzero_digits(0o00000_00400_01230_00500_00000, 25) == 5);
        },
        BlockShape::Quintuple(QuintupleBlockShape::OUpperLeft) => {
            assert(nonzero_digits(0o00050_00140_00230_00000_00000, 25) == 5);
            assert(nonzero_digits(0o00000_00210_00345_00000_00000, 25) == 5);
            assert(nonzero_digits(0o00000_00320_00410_00500_00000, 25) == 5);
            assert(nonzero_digits(0o00000_05430_00120_00000_00000, 25) == 5);
        },
        BlockShape::Quintuple(QuintupleBlockShape::OLowerLeft) => {
            assert(nonzero_digits(0o00500_00410_00320_00000_00000, 25) == 5);
            assert(nonzero_digits(0o00000_00345_00210_00000_00000, 25) == 5);
            assert(nonzero_digits(0o00000_00230_00140_00050_00000, 25) == 5);
            assert(nonzero_digits(0o00000_00120_05430_00000_00000, 25) == 5);
        },
        BlockShape::Quintuple(QuintupleBlockShape::LongZ) => {
            assert(nonzero_digits(0o00100_00200_04300_05000_00000, 25) == 5);
            assert(nonzero_digits(0o00000_05400_00321_00000_00000, 25) == 5);
            assert(nonzero_digits(0o00000_00050_00340_00200_00100, 25) == 5);
            assert(nonzero_digits(0o00000_00000_12300_00450_00000, 25) == 5);
        },
        BlockShape::Quintuple(QuintupleBlockShape::LongS) => {
            assert(nonzero_digits(0o00000_01000_02300_00400_00500, 25) == 5);
            assert(nonzero_digits(0o00000_00210_54300_00000_00000, 25) == 5);
            assert(nonzero_digits(0o00500_00400_00320_00010_00000, 25) == 5);
            assert(nonzero_digits(0o00000_00000_00345_01200_00000, 25) == 5);
        },
        BlockShape::Quintuple(QuintupleBlockShape::LargeZ) => {
            assert(nonzero_digits(0o00000_01200_00300_00450_00000, 25) == 5);
            assert(nonzero_digits(0o00000_00010_04320_05000_00000, 25) == 5);
            assert(nonzero_digits(0o00000_05400_00300_00210_00000, 25) == 5);
            assert(nonzero_digits(0o00000_00050_02340_01000_00000, 25) == 5);
        },
        BlockShape::Quintuple(QuintupleBlockShape::LargeS) => {
            assert(nonzero_digits(0o00000_00450_00300_01200_00000, 25) == 5);
            assert(nonzero_digits(0o00000_01000_02340_00050_00000, 25) == 5);
            assert(nonzero_digits(0o00000_00210_00300_05400_00000, 25) == 5);
            assert(nonzero_digits(0o00000_05000_04320_00010_00000, 25) == 5);
        },
        BlockShape::Quintuple(QuintupleBlockShape::JT) => {
            assert(nonzero_digits(0o00000_01000_02340_00500_00000, 25) == 5);
            assert(nonzero_digits(0o00000_00210_05300_00400_00000, 25) == 5);
            assert(nonzero_digits(0o00000_00500_04320_00010_00000, 25) == 5);
            assert(nonzero_digits(0o00000_00400_00350_01200_00000, 25) == 5);
        },
        BlockShape::Quintuple(QuintupleBlockShape::LT) => {
            assert(nonzero_digits(0o00000_00500_02340_01000_00000, 25) == 5);
            assert(nonzero_digits(0o00000_01200_00350_00400_00000, 25) == 5);
            assert(nonzero_digits(0o00000_00010_04320_00500_00000, 25) == 5);
            assert(nonzero_digits(0o00000_00400_05300_00210_00000, 25) == 5);
        },
    }
    assert forall|d: Direction|
        #[trigger] nonzero_digits(template(shape, d), BLOCK_CELLS as int)
            == shape.spec_cell_count() by {
        match d {
            Direction::Right => {},
            Direction::Below => {},
            Direction::Left => {},
            Direction::Above => {},
        }
    }
}

/// A block made from the catalog has as many occupied cells as its shape says, in every
/// orientation: the count is kept by every turn.
pub proof fn lemma_block_cell_count(b: BlockView)
    requires
        b.wf(),
    ensures
        occupied_prefix(b.cells, BLOCK_CELLS as int).len() == b.shape.spec_cell_count(),
        occupied_prefix(b.rotated_clockwise().cells, BLOCK_CELLS as int).len()
            == b.shape.spec_cell_count(),
        occupied_prefix(b.rotated_unticlockwise().cells, BLOCK_CELLS as int).len()
            == b.shape.spec_cell_count(),
{
    lemma_catalog_counts(b.shape);
    lemma_occupied_count(b.shape, b.direction, b.bomb_tag, BLOCK_CELLS as int);
    lemma_occupied_count(
        b.shape,
        b.direction.spec_rotate_clockwise(),
        b.bomb_tag,
        BLOCK_CELLS as int,
    );
    lemma_occupied_count(
        b.shape,
        b.direction.spec_rotate_unticlockwise(),
        b.bomb_tag,
        BLOCK_CELLS as int,
    );
}

/// The rule by which new blocks are chosen; the game's user supplies it.
pub trait BlockSelector {
    /// Chooses the shape of the next block.
    fn select_block_shape(&mut self) -> BlockShape;

    /// Chooses where the bombs of a block of `shape` go.
    fn select_bomb(&mut self, shape: BlockShape) -> BombTag;

    /// Makes the next block, upright, from the chosen shape and bombs.
    fn generate_block(&mut self) -> (r: Block)
        ensures
            r.wf(),
            r.direction == Direction::Above,
    {
        let shape = self.select_block_shape();
        let bomb = self.select_bomb(shape);
        Block::new(shape, Direction::Above, bomb)
    }
}

} // verus!
