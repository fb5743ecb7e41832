use vstd::prelude::*;
use crate::data_type::pair::Pair;
use crate::data_type::table::{Table, TableIndex, TableMut, TableSize};
use std::ops::Index;

verus! {

/// Views of the lines of a table.
pub open spec fn line_views<T>(lines: Seq<Vec<T>>) -> Seq<Seq<T>> {
    lines.map_values(|l: Vec<T>| l@)
}

/// Lines all of length `w` flatten to `w` times as many items.
proof fn lemma_flatten_len<T>(lines: Seq<Seq<T>>, w: nat)
    requires
        forall|i: int| 0 <= i < lines.len() ==> #[trigger] lines[i].len() == w,
    ensures
        lines.flatten().len() == lines.len() * w,
    decreases lines.len(),
{
    if lines.len() > 0 {
        lemma_flatten_len(lines.drop_first(), w);
        assert(lines.flatten() == lines.first() + lines.drop_first().flatten());
        assert(lines.len() * w == w + (lines.len() - 1) * w) by (nonlinear_arith);
    }
}

/// The index of `(x, y)` lies within a table of `w` by `h` items.
proof fn lemma_index_in_table(x: int, y: int, w: int, h: int)
    requires
        0 <= x < w,
        0 <= y < h,
    ensures
        0 <= y * w + x < w * h,
{
    assert(0 <= y * w) by (nonlinear_arith)
        requires
            0 <= y,
            0 <= w,
    ;
    assert(y * w + x < w * h) by (nonlinear_arith)
        requires
            0 <= x < w,
            0 <= y < h,
    ;
}

/// A table of fixed width and height, stored row by row in one vector.
#[derive(Debug, Clone)]
pub struct RowMajorTable<T> {
    /// The items: row 0 from the left, then row 1, and so on.
    vec: Vec<T>,
    /// Width and height.
    size: TableSize,
}

impl<T> RowMajorTable<T> {
    /// The items, row by row.
    pub closed spec fn items(&self) -> Seq<T> {
        self.vec@
    }

    /// Number of columns.
    pub closed spec fn spec_width(&self) -> nat {
        self.size.x as nat
    }

    /// Number of rows.
    pub closed spec fn spec_height(&self) -> nat {
        self.size.y as nat
    }

    /// Both sides are positive and the items fill the table.
    pub open spec fn wf(&self) -> bool {
        &&& self.spec_width() > 0
        &&& self.spec_height() > 0
        &&& self.items().len() == self.spec_width() * self.spec_height()
    }

    /// The item at column `x` of row `y`.
    pub open spec fn spec_at(&self, x: int, y: int) -> T {
        self.items()[y * self.spec_width() + x]
    }

    /// A table of the size `size` holding `vec` row by row.
    pub fn from_vec(vec: Vec<T>, size: TableSize) -> (r: RowMajorTable<T>)
        requires
            size.x > 0,
            size.y > 0,
            vec@.len() == size.x * size.y,
        ensures
            r.wf(),
            r.items() == vec@,
            r.spec_width() == size.x,
            r.spec_height() == size.y,
    {
        RowMajorTable { vec, size }
    }

    /// A table whose rows are `lines`.
    pub fn from_lines(lines: Vec<Vec<T>>) -> (r: RowMajorTable<T>)
        requires
            lines@.len() > 0,
            lines@[0]@.len() > 0,
            forall|i: int| 0 <= i < lines@.len() ==> #[trigger] lines@[i]@.len() == lines@[0]@.len(),
        ensures
            r.wf(),
            r.items() == line_views(lines@).flatten(),
            r.spec_width() == lines@[0]@.len(),
            r.spec_height() == lines@.len(),
    {
        let width = lines[0].len();
        let height = lines.len();
        let ghost all = line_views(lines@);
        let mut rest = lines;
        let mut v: Vec<T> = Vec::new();
        while rest.len() > 0
            invariant
                v@ + line_views(rest@).flatten() == all.flatten(),
                forall|i: int| 0 <= i < rest@.len() ==> #[trigger] rest@[i]@.len() == width,
            decreases rest@.len(),
        {
            let ghost before = rest@;
            let mut line = rest.remove(0);
            proof {
                assert(line_views(rest@) =~= line_views(before).drop_first());
                assert(line_views(before).flatten() == line_views(before).first() + line_views(
                    before,
                ).drop_first().flatten());
                assert(v@ + line@ + line_views(rest@).flatten() =~= v@ + line_views(before).flatten());
            }
            v.append(&mut line);
        }
        proof {
            assert(line_views(rest@) =~= Seq::<Seq<T>>::empty());
            assert(v@ =~= all.flatten());
            assert forall|i: int| 0 <= i < all.len() implies #[trigger] all[i].len() == width by {}
            lemma_flatten_len(all, width as nat);
            assert(all.len() * width == width * height) by (nonlinear_arith)
                requires
                    all.len() == height,
            ;
        }
        RowMajorTable { vec: v, size: Pair::new(width, height) }
    }

    /// All items, row by row.
    pub fn iter_items(&self) -> (r: &[T])
        ensures
            r@ == self.items(),
    {
        self.vec.as_slice()
    }

    /// The rows, from the first.
    pub fn iter_row(&self) -> (r: Vec<&[T]>)
        requires
            self.wf(),
        ensures
            r@.len() == self.spec_height(),
            forall|y: int|
                0 <= y < self.spec_height() ==> (#[trigger] r@[y])@ == self.items().subrange(
                    y * self.spec_width(),
                    (y + 1) * self.spec_width(),
                ),
    {
        let width = self.size.x;
        let height = self.size.y;
        let total = self.vec.len();
        let mut out: Vec<&[T]> = Vec::new();
        let mut y: usize = 0;
        while y < height
            invariant
                self.wf(),
                total == width * height,
                width == self.spec_width(),
                height == self.spec_height(),
                0 <= y <= height,
                out@.len() == y,
                forall|k: int|
                    0 <= k < y ==> (#[trigger] out@[k])@ == self.items().subrange(
                        k * width,
                        (k + 1) * width,
                    ),
            decreases height - y,
        {
            proof {
                assert((y + 1) * width <= width * height) by (nonlinear_arith)
                    requires
                        y < height,
                ;
                assert((y + 1) * width == y * width + width) by (nonlinear_arith);
            }
            let row = vstd::slice::slice_subrange(self.vec.as_slice(), y * width, (y + 1) * width);
            out.push(row);
            y = y + 1;
        }
        out
    }

    /// The columns, from the first, each from the top.
    pub fn iter_column(&self) -> (r: Vec<Vec<&T>>)
        requires
            self.wf(),
        ensures
            r@.len() == self.spec_width(),
            forall|x: int|
                0 <= x < self.spec_width() ==> (#[trigger] r@[x])@.len() == self.spec_height(),
            forall|x: int, y: int|
                0 <= x < self.spec_width() && 0 <= y < self.spec_height() ==> *(#[trigger] r@[x]@[y])
                    == self.spec_at(x, y),
    {
        let width = self.size.x;
        let height = self.size.y;
        let total = self.vec.len();
        let mut out: Vec<Vec<&T>> = Vec::new();
        let mut x: usize = 0;
        while x < width
            invariant
                self.wf(),
                total == width * height,
                width == self.spec_width(),
                height == self.spec_height(),
                0 <= x <= width,
                out@.len() == x,
                forall|k: int| 0 <= k < x ==> (#[trigger] out@[k])@.len() == height,
                forall|k: int, y: int|
                    0 <= k < x && 0 <= y < height ==> *(#[trigger] out@[k]@[y]) == self.spec_at(k, y),
            decreases width - x,
        {
            let mut column: Vec<&T> = Vec::new();
            let mut y: usize = 0;
            while y < height
                invariant
                    self.wf(),
                    total == width * height,
                    width == self.spec_width(),
                    height == self.spec_height(),
                    0 <= x < width,
                    0 <= y <= height,
                    column@.len() == y,
                    forall|k: int| 0 <= k < y ==> *(#[trigger] column@[k]) == self.spec_at(x as int, k),
                decreases height - y,
            {
                proof {
                    lemma_index_in_table(x as int, y as int, width as int, height as int);
                }
                column.push(&self.vec[y * width + x]);
                y = y + 1;
            }
            out.push(column);
            x = x + 1;
        }
        out
    }

    /// All items, row by row.
    pub fn as_raw_slice(&self) -> (r: &[T])
        ensures
            r@ == self.items(),
    {
        self.vec.as_slice()
    }

    /// The vector of all items, row by row.
    pub fn into_inner(self) -> (r: Vec<T>)
        ensures
            r@ == self.items(),
    {
        self.vec
    }

    /// The table of the same size holding `f` of each item.
    pub fn map<U, F: Fn(T) -> U>(self, f: F) -> (r: RowMajorTable<U>)
        requires
            self.wf(),
            forall|i: int| 0 <= i < self.items().len() ==> f.requires((#[trigger] self.items()[i],)),
        ensures
            r.wf(),
            r.spec_width() == self.spec_width(),
            r.spec_height() == self.spec_height(),
            r.items().len() == self.items().len(),
            forall|i: int|
                0 <= i < self.items().len() ==> f.ensures(
                    (self.items()[i],),
                    #[trigger] r.items()[i],
                ),
    {
        let ghost items = self.items();
        let size = self.size;
        let mut rest = self.vec;
        let mut out: Vec<U> = Vec::new();
        while rest.len() > 0
            invariant
                out@.len() + rest@.len() == items.len(),
                rest@ == items.subrange(out@.len() as int, items.len() as int),
                forall|i: int| 0 <= i < items.len() ==> f.requires((#[trigger] items[i],)),
                forall|i: int| 0 <= i < out@.len() ==> f.ensures((items[i],), #[trigger] out@[i]),
            decreases rest@.len(),
        {
            let ghost before = rest@;
            let item = rest.remove(0);
            assert(item == items[out@.len() as int]);
            let mapped = f(item);
            out.push(mapped);
            assert(rest@ =~= items.subrange(out@.len() as int, items.len() as int));
        }
        RowMajorTable { vec: out, size }
    }

    /// The index in the item vector of `index`, or `None` where `index` lies off the table.
    pub fn raw_index_of(&self, index: TableIndex) -> (r: Option<usize>)
        requires
            self.wf(),
        ensures
            index.x < self.spec_width() && index.y < self.spec_height() ==> r == Some(
                (index.y * self.spec_width() + index.x) as usize,
            ),
            !(index.x < self.spec_width() && index.y < self.spec_height()) ==> r is None,
    {
        let total = self.vec.len();
        if index.x < self.size.x && index.y < self.size.y {
            proof {
                lemma_index_in_table(
                    index.x as int,
                    index.y as int,
                    self.size.x as int,
                    self.size.y as int,
                );
            }
            Some(index.y * self.size.x + index.x)
        } else {
            None
        }
    }

    /// Number of columns.
    pub fn width(&self) -> (r: usize)
        ensures
            r == self.spec_width(),
    {
        self.size.x
    }

    /// Number of rows.
    pub fn height(&self) -> (r: usize)
        ensures
            r == self.spec_height(),
    {
        self.size.y
    }

    /// Width and height.
    pub fn size(&self) -> (r: TableSize)
        ensures
            r.x == self.spec_width(),
            r.y == self.spec_height(),
    {
        self.size
    }

    /// The item at `index`, or `None` where `index` lies off the table.
    pub fn get(&self, index: TableIndex) -> (r: Option<&T>)
        requires
            self.wf(),
        ensures
            index.x < self.spec_width() && index.y < self.spec_height() ==> r == Some(
                &self.spec_at(index.x as int, index.y as int),
            ),
            !(index.x < self.spec_width() && index.y < self.spec_height()) ==> r is None,
    {
        if index.x < self.size.x && index.y < self.size.y {
            let total = self.vec.len();
            proof {
                lemma_index_in_table(
                    index.x as int,
                    index.y as int,
                    self.size.x as int,
                    self.size.y as int,
                );
            }
            let i = index.y * self.size.x + index.x;
            Some(&self.vec[i])
        } else {
            None
        }
    }
}

impl<T> RowMajorTable<T> {
    /// The item at `index` to write to, or `None` where `index` lies off the table.
    pub fn get_mut(&mut self, index: TableIndex) -> (r: Option<&mut T>)
        requires
            old(self).wf(),
        ensures
            index.x < old(self).spec_width() && index.y < old(self).spec_height() ==> r is Some
                && *r.unwrap() == old(self).spec_at(index.x as int, index.y as int)
                && final(self).items() == old(self).items().update(
                index.y * old(self).spec_width() + index.x,
                *final(r.unwrap()),
            ) && final(self).spec_width() == old(self).spec_width() && final(self).spec_height()
                == old(self).spec_height(),
            !(index.x < old(self).spec_width() && index.y < old(self).spec_height()) ==> r is None
                && final(self).items() == old(self).items() && final(self).spec_width() == old(
                self,
            ).spec_width() && final(self).spec_height() == old(self).spec_height(),
    {
        if index.x < self.size.x && index.y < self.size.y {
            let total = self.vec.len();
            proof {
                lemma_index_in_table(
                    index.x as int,
                    index.y as int,
                    self.size.x as int,
                    self.size.y as int,
                );
            }
            let i = index.y * self.size.x + index.x;
            Some(&mut self.vec[i])
        } else {
            None
        }
    }
}

impl<T> RowMajorTable<T> {
    /// All items, row by row, to write to.
    pub fn as_raw_slice_mut(&mut self) -> (r: &mut [T])
        ensures
            r@ == old(self).items(),
            final(r)@ == final(self).items(),
            final(self).spec_width() == old(self).spec_width(),
            final(self).spec_height() == old(self).spec_height(),
    {
        self.vec.as_mut_slice()
    }
}

impl<T> Index<TableIndex> for RowMajorTable<T> {
    type Output = T;

    /// The item at `index`, which lies on the table.
    fn index(&self, index: TableIndex) -> &T {
        let total = self.vec.len();
        proof {
            lemma_index_in_table(
                index.x as int,
                index.y as int,
                self.size.x as int,
                self.size.y as int,
            );
        }
        &self.vec[index.y * self.size.x + index.x]
    }
}

impl<T> vstd::std_specs::core::IndexSpecImpl<TableIndex> for RowMajorTable<T> {
    open spec fn index_req(&self, index: &TableIndex) -> bool {
        self.wf() && index.x < self.spec_width() && index.y < self.spec_height()
    }
}

impl<T: Clone> RowMajorTable<T> {
    /// A table of the size `size` with each item a clone of `init`.
    pub fn from_fill(init: T, size: TableSize) -> (r: RowMajorTable<T>)
        requires
            size.x > 0,
            size.y > 0,
            (size.x as int) * (size.y as int) <= usize::MAX,
        ensures
            r.wf(),
            r.spec_width() == size.x,
            r.spec_height() == size.y,
            forall|i: int| 0 <= i < r.items().len() ==> cloned(init, #[trigger] r.items()[i]),
    {
        let width = size.x;
        let height = size.y;
        assert((width as int) * (height as int) <= usize::MAX);
        let n = width * height;
        RowMajorTable::from_vec(vec![init; n], size)
    }
}

impl<T> Table for RowMajorTable<T> {
    type Item = T;

    fn width(&self) -> usize {
        self.size.x
    }

    fn height(&self) -> usize {
        self.size.y
    }

    fn size(&self) -> TableSize {
        self.size
    }

    fn get(&self, index: TableIndex) -> Option<&T> {
        if index.x < self.size.x && index.y < self.size.y {
            if let Some(row_start) = index.y.checked_mul(self.size.x) {
                if let Some(i) = row_start.checked_add(index.x) {
                    if i < self.vec.len() {
                        return Some(&self.vec[i]);
                    }
                }
            }
        }
        None
    }
}

impl<T> TableMut for RowMajorTable<T> {
    fn get_mut(&mut self, index: TableIndex) -> Option<&mut T> {
        if index.x < self.size.x && index.y < self.size.y {
            if let Some(row_start) = index.y.checked_mul(self.size.x) {
                if let Some(i) = row_start.checked_add(index.x) {
                    if i < self.vec.len() {
                        return Some(&mut self.vec[i]);
                    }
                }
            }
        }
        None
    }
}

} // verus!
