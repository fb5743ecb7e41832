use vstd::prelude::*;
use crate::game::cell::Cell;
use crate::geometry::position::{below, Pos, PosY};

verus! {

/// Number of columns of a field.
pub const FIELD_WIDTH: usize = 10;
/// Number of rows of a field.
pub const FIELD_HEIGHT: usize = 20;
/// Number of cells of a field.
pub const FIELD_CELLS: usize = FIELD_WIDTH * FIELD_HEIGHT;

/// Whether `(x, y)` lies on the field.
pub open spec fn in_field(x: int, y: int) -> bool {
    0 <= x < FIELD_WIDTH as int && 0 <= y < FIELD_HEIGHT as int
}

/// Index of `(x, y)` in the row-major cell array.
pub open spec fn field_index(x: int, y: int) -> int {
    y * FIELD_WIDTH as int + x
}

/// The playing field: a fixed grid of cells, stored row by row from the top.
#[derive(Debug, Clone, Copy)]
pub struct Field {
    /// The cells, row-major: the cell at `(x, y)` is at `y * FIELD_WIDTH + x`.
    pub cells: [Cell; FIELD_CELLS],
}

impl Field {
    /// The cell at `(x, y)`; meaningful where `in_field(x, y)`.
    pub open spec fn at(self, x: int, y: int) -> Cell {
        self.cells@[field_index(x, y)]
    }

    /// Whether `(x, y)` lies on the field and its cell is empty.
    pub open spec fn is_free(self, x: int, y: int) -> bool {
        in_field(x, y) && self.at(x, y) == Cell::Empty
    }

    /// Whether every cell of row `y` is occupied.
    pub open spec fn row_full(self, y: int) -> bool {
        forall|x: int| 0 <= x < FIELD_WIDTH as int ==> self.at(x, y) != Cell::Empty
    }

    /// An empty field.
    pub fn empty() -> (r: Field)
        ensures
            forall|x: int, y: int| in_field(x, y) ==> #[trigger] r.at(x, y) == Cell::Empty,
    {
        let r = Field { cells: [Cell::Empty; FIELD_CELLS] };
        proof {
            assert forall|x: int, y: int| in_field(x, y) implies #[trigger] r.at(x, y)
                == Cell::Empty by {
                assert(0 <= field_index(x, y) < FIELD_CELLS);
            }
        }
        r
    }

    /// Number of columns.
    pub fn width(&self) -> (r: usize)
        ensures
            r == FIELD_WIDTH,
    {
        FIELD_WIDTH
    }

    /// Number of rows.
    pub fn height(&self) -> (r: usize)
        ensures
            r == FIELD_HEIGHT,
    {
        FIELD_HEIGHT
    }

    /// The cell at `(x, y)`, given as indices on the field.
    pub fn cell_at(&self, x: usize, y: usize) -> (r: Cell)
        requires
            in_field(x as int, y as int),
        ensures
            r == self.at(x as int, y as int),
    {
        self.cells[y * FIELD_WIDTH + x]
    }

    /// Writes `c` at `(x, y)`, given as indices on the field.
    pub fn set_at(&mut self, x: usize, y: usize, c: Cell)
        requires
            in_field(x as int, y as int),
        ensures
            final(self).cells@ == old(self).cells@.update(field_index(x as int, y as int), c),
    {
        self.cells[y * FIELD_WIDTH + x] = c;
    }

    /// The cell at `p`, or `None` where `p` lies off the field.
    pub fn get(&self, p: Pos) -> (r: Option<&Cell>)
        ensures
            in_field(p.sx(), p.sy()) ==> r == Some(&self.at(p.sx(), p.sy())),
            !in_field(p.sx(), p.sy()) ==> r.is_none(),
    {
        let xs = p.0.right_shift;
        let ys = p.1.below_shift;
        if 0 <= xs && (xs as usize) < FIELD_WIDTH && 0 <= ys && (ys as usize) < FIELD_HEIGHT {
            Some(&self.cells[(ys as usize) * FIELD_WIDTH + xs as usize])
        } else {
            None
        }
    }

    /// The cell at `p` to write to, or `None` where `p` lies off the field.
    pub fn get_mut(&mut self, p: Pos) -> (r: Option<&mut Cell>)
        ensures
            in_field(p.sx(), p.sy()) ==> r is Some && *r.unwrap() == old(self).at(p.sx(), p.sy())
                && final(self).cells@ == old(self).cells@.update(
                field_index(p.sx(), p.sy()),
                *final(r.unwrap()),
            ),
            !in_field(p.sx(), p.sy()) ==> r is None && *final(self) == *old(self),
    {
        let xs = p.0.right_shift;
        let ys = p.1.below_shift;
        if 0 <= xs && (xs as usize) < FIELD_WIDTH && 0 <= ys && (ys as usize) < FIELD_HEIGHT {
            Some(&mut self.cells[(ys as usize) * FIELD_WIDTH + xs as usize])
        } else {
            None
        }
    }

    /// Writes `c` at `p` and returns `true`; returns `false`, changing nothing, where `p`
    /// lies off the field.
    pub fn set(&mut self, p: Pos, c: Cell) -> (r: bool)
        ensures
            r == in_field(p.sx(), p.sy()),
            r ==> final(self).cells@ == old(self).cells@.update(field_index(p.sx(), p.sy()), c),
            !r ==> *final(self) == *old(self),
    {
        let xs = p.0.right_shift;
        let ys = p.1.below_shift;
        if 0 <= xs && (xs as usize) < FIELD_WIDTH && 0 <= ys && (ys as usize) < FIELD_HEIGHT {
            self.cells[(ys as usize) * FIELD_WIDTH + xs as usize] = c;
            true
        } else {
            false
        }
    }

    /// The row at height `y`, or `None` where `y` lies off the field.
    pub fn row(&self, y: PosY) -> (r: Option<FieldRow>)
        ensures
            0 <= y.below_shift < FIELD_HEIGHT ==> r.is_some() && r.unwrap().y_index
                == y.below_shift && r.unwrap().wf_for(*self),
            !(0 <= y.below_shift < FIELD_HEIGHT) ==> r.is_none(),
    {
        if y.below_shift >= 0 && (y.below_shift as usize) < FIELD_HEIGHT {
            Some(FieldRow::from_y_index(self, y.below_shift as usize))
        } else {
            None
        }
    }

    /// All rows, from the top.
    pub fn rows(&self) -> (r: Vec<FieldRow>)
        ensures
            r@.len() == FIELD_HEIGHT,
            forall|i: int|
                0 <= i < FIELD_HEIGHT ==> (#[trigger] r@[i]).y_index == i && r@[i].wf_for(*self),
    {
        let mut out: Vec<FieldRow> = Vec::new();
        let mut i: usize = 0;
        while i < FIELD_HEIGHT
            invariant
                0 <= i <= FIELD_HEIGHT,
                out@.len() == i,
                forall|j: int|
                    0 <= j < i ==> (#[trigger] out@[j]).y_index == j && out@[j].wf_for(*self),
            decreases FIELD_HEIGHT - i,
        {
            out.push(FieldRow::from_y_index(self, i));
            i = i + 1;
        }
        out
    }

    /// Whether every cell of row `y` is occupied.
    pub fn is_row_full(&self, y: usize) -> (r: bool)
        requires
            y < FIELD_HEIGHT,
        ensures
            r == self.row_full(y as int),
    {
        let mut x: usize = 0;
        while x < FIELD_WIDTH
            invariant
                y < FIELD_HEIGHT,
                0 <= x <= FIELD_WIDTH,
                forall|k: int| 0 <= k < x ==> self.at(k, y as int) != Cell::Empty,
            decreases FIELD_WIDTH - x,
        {
            if self.cell_at(x, y).is_empty() {
                return false;
            }
            x = x + 1;
        }
        true
    }
}

/// A copy of one row of a field, with its height.
#[derive(Debug, Clone, Copy, PartialEq, Eq)]
pub struct FieldRow {
    /// The cells of the row, from the left.
    pub cells: [Cell; FIELD_WIDTH],
    /// The height of the row on the field.
    pub y_index: usize,
}

impl FieldRow {
    /// This row holds the cells of `field` at its height.
    pub open spec fn wf_for(self, field: Field) -> bool {
        &&& self.y_index < FIELD_HEIGHT
        &&& forall|x: int|
            0 <= x < FIELD_WIDTH as int ==> #[trigger] self.cells@[x] == field.at(
                x,
                self.y_index as int,
            )
    }

    /// The height of this row.
    pub fn y(&self) -> (r: PosY)
        requires
            self.y_index < FIELD_HEIGHT,
        ensures
            r.below_shift == self.y_index,
    {
        PosY::origin() + below(self.y_index as i8)
    }

    /// Number of cells in this row.
    pub fn len(&self) -> (r: usize)
        ensures
            r == FIELD_WIDTH,
    {
        FIELD_WIDTH
    }

    fn from_y_index(field: &Field, y_index: usize) -> (r: FieldRow)
        requires
            y_index < FIELD_HEIGHT,
        ensures
            r.y_index == y_index,
            r.wf_for(*field),
    {
        let mut cells = [Cell::Empty; FIELD_WIDTH];
        let mut x: usize = 0;
        while x < FIELD_WIDTH
            invariant
                y_index < FIELD_HEIGHT,
                0 <= x <= FIELD_WIDTH,
                forall|k: int| 0 <= k < x ==> #[trigger] cells@[k] == field.at(k, y_index as int),
            decreases FIELD_WIDTH - x,
        {
            cells[x] = field.cell_at(x, y_index);
            x = x + 1;
        }
        FieldRow { cells, y_index }
    }
}

} // verus!
