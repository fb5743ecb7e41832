pub mod counter;
pub mod pair;
pub mod row_major_table;
pub mod shake;
pub mod table;

pub use counter::{Counter, CounterEnd};
pub use pair::Pair;
pub use row_major_table::RowMajorTable;
pub use shake::Shake;
pub use table::{Table, TableIndex, TableMut, TableSize};
