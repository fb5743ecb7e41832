use vstd::prelude::*;
use crate::data_type::pair::Pair;

verus! {

/// The width and height of a table.
pub type TableSize = Pair<usize>;
/// The position of an item of a table: column, then row.
pub type TableIndex = Pair<usize>;

/// A rectangular arrangement of items.
pub trait Table {
    type Item;

    /// Number of columns.
    fn width(&self) -> usize;

    /// Number of rows.
    fn height(&self) -> usize;

    /// Width and height.
    fn size(&self) -> TableSize;

    /// The item at `index`, or `None` where `index` lies off the table.
    fn get(&self, index: TableIndex) -> Option<&Self::Item>;
}

/// A table whose items can be written.
pub trait TableMut: Table {
    /// The item at `index` to write to, or `None` where `index` lies off the table.
    fn get_mut(&mut self, index: TableIndex) -> Option<&mut Self::Item>;
}

} // verus!
