use blast_blocks::data_type::{Counter, CounterEnd, Pair, RowMajorTable, Shake, Table, TableIndex, TableSize};

#[test]
fn test_exclusive_range() {
    let mut counter = Counter::new(1, CounterEnd::Excluded(4));
    assert_eq!(1, counter.current());
    assert!(!counter.is_ended());

    assert!(counter.next().is_some());
    assert_eq!(2, counter.current());
    assert!(!counter.is_ended());

    assert!(counter.next().is_some());
    assert_eq!(3, counter.current());
    assert!(counter.is_ended());

    assert!(counter.next().is_none());
    assert_eq!(3, counter.current());
    assert!(counter.is_ended());
}

#[test]
fn test_inclusive_range() {
    let mut counter = Counter::new(1, CounterEnd::Included(3));
    assert_eq!(1, counter.current());
    assert!(!counter.is_ended());

    assert!(counter.next().is_some());
    assert_eq!(2, counter.current());
    assert!(!counter.is_ended());

    assert!(counter.next().is_some());
    assert_eq!(3, counter.current());
    assert!(counter.is_ended());

    assert!(counter.next().is_none());
    assert_eq!(3, counter.current());
    assert!(counter.is_ended());
}

#[test]
fn counter_unbounded_stops_at_the_largest_value() {
    let mut counter = Counter::new(usize::MAX - 1, CounterEnd::Unbounded);
    assert!(!counter.is_ended());
    assert!(counter.next().is_some());
    assert_eq!(usize::MAX, counter.current());
    assert!(counter.is_ended());
    assert!(counter.next().is_none());
}

#[test]
fn pair_test_new() {
    let p = Pair::new(1, 2);
    assert_eq!(1, p.x);
    assert_eq!(2, p.y);
}

#[test]
fn pair_swap() {
    let p = Pair::new(1, 2).swap();
    assert_eq!(2, p.x);
    assert_eq!(1, p.y);
}

#[test]
fn test_into() {
    let p = Pair::<i32>::new(1, 2).into::<f64>();
    assert_eq!(1.0, p.x);
    assert_eq!(2.0, p.y);
}

#[test]
fn test_try_into_success() {
    let p = Pair::<i32>::new(1, 2).try_into::<usize>();
    assert_eq!(Ok(Pair::new(1, 2)), p);
}

#[test]
fn test_try_into_fail() {
    let p = Pair::new(1000, 2).try_into::<u8>();
    assert!(p.is_err());
}

#[test]
fn pair_test_map() {
    let p = Pair::new(2, 5);
    let mapped = p.map(|e| e * e);
    assert_eq!(Pair::new(4, 25), mapped);
}

#[test]
fn test_default() {
    let p: Pair<i32> = Pair::default();
    assert_eq!(i32::default(), p.x);
    assert_eq!(i32::default(), p.y);
}

#[test]
fn pair_test_add() {
    let lhs = Pair::new(1, 2);
    let rhs = Pair::new(3, 4);
    assert_eq!(Pair::new(4, 6), lhs + rhs);
}

#[test]
fn pair_test_sub() {
    let lhs = Pair::new(1, 2);
    let rhs = Pair::new(3, 5);
    assert_eq!(Pair::new(-2, -3), lhs - rhs);
}

#[test]
fn test_mul() {
    let lhs = Pair::new(1, 2);
    let rhs = 3;
    assert_eq!(Pair::new(3, 6), lhs * rhs);
}

#[test]
fn test_div() {
    let lhs = Pair::new(2, 6);
    let rhs = 2;
    assert_eq!(Pair::new(1, 3), lhs / rhs);
}

#[test]
fn pair_division_rounds_towards_zero() {
    assert_eq!(Pair::new(-3, 3), Pair::new(-7, 7) / 2);
    assert_eq!(Pair::new(3, -3), Pair::new(-7, 7) / -2);
}

#[test]
fn test_neg() {
    let p = Pair::new(1, -2);
    assert_eq!(Pair::new(-1, 2), -p);
}

#[test]
fn test_from_vec() {
    let v = vec![0, 1, 2, 3];
    let size = TableSize::new(2, 2);
    let table = RowMajorTable::from_vec(v, size);
    assert_eq!(table.size(), size);
}

#[test]
fn test_from_fill() {
    let x = 1;
    let size = TableSize::new(2, 2);
    let table = RowMajorTable::from_fill(x, size);
    assert_eq!(table.size(), size);
}

#[test]
fn test_from_lines() {
    let table = RowMajorTable::from_lines(vec![vec![0, 1, 2], vec![3, 4, 5], vec![6, 7, 8]]);
    assert_eq!(TableSize::new(3, 3), table.size());
    assert_eq!(0, table[TableIndex::new(0, 0)]);
    assert_eq!(1, table[TableIndex::new(1, 0)]);
    assert_eq!(2, table[TableIndex::new(2, 0)]);
    assert_eq!(3, table[TableIndex::new(0, 1)]);
    assert_eq!(4, table[TableIndex::new(1, 1)]);
    assert_eq!(5, table[TableIndex::new(2, 1)]);
    assert_eq!(6, table[TableIndex::new(0, 2)]);
    assert_eq!(7, table[TableIndex::new(1, 2)]);
    assert_eq!(8, table[TableIndex::new(2, 2)]);
}

#[test]
fn row_major_table_test_get() {
    let table = RowMajorTable::from_lines(vec![vec![0, 1], vec![2, 3]]);
    assert_eq!(Some(&0), table.get(TableIndex::new(0, 0)));
    assert_eq!(Some(&1), table.get(TableIndex::new(1, 0)));
    assert_eq!(Some(&2), table.get(TableIndex::new(0, 1)));
    assert_eq!(Some(&3), table.get(TableIndex::new(1, 1)));

    assert!(table.get(TableIndex::new(0, 2)).is_none());
    assert!(table.get(TableIndex::new(2, 0)).is_none());
    assert!(table.get(TableIndex::new(2, 2)).is_none());
}

#[test]
fn row_major_table_test_get_mut() {
    let mut table = RowMajorTable::from_lines(vec![vec![0, 1], vec![2, 3]]);
    assert_eq!(Some(&mut 0), table.get_mut(TableIndex::new(0, 0)));
    assert_eq!(Some(&mut 1), table.get_mut(TableIndex::new(1, 0)));
    assert_eq!(Some(&mut 2), table.get_mut(TableIndex::new(0, 1)));
    assert_eq!(Some(&mut 3), table.get_mut(TableIndex::new(1, 1)));

    *table.get_mut(TableIndex::new(1, 0)).unwrap() = 100;

    assert_eq!(Some(&mut 0), table.get_mut(TableIndex::new(0, 0)));
    assert_eq!(Some(&mut 100), table.get_mut(TableIndex::new(1, 0)));
    assert_eq!(Some(&mut 2), table.get_mut(TableIndex::new(0, 1)));
    assert_eq!(Some(&mut 3), table.get_mut(TableIndex::new(1, 1)));

    assert!(table.get_mut(TableIndex::new(0, 2)).is_none());
    assert!(table.get_mut(TableIndex::new(2, 0)).is_none());
    assert!(table.get_mut(TableIndex::new(2, 2)).is_none());
}

#[test]
fn test_as_raw_slice_mut() {
    let mut table = RowMajorTable::from_lines(vec![vec![0, 1, 2], vec![3, 4, 5]]);

    let slice = table.as_raw_slice_mut();
    assert_eq!(&[0, 1, 2, 3, 4, 5], slice);

    slice[1] = 100;
    assert_eq!(&[0, 100, 2, 3, 4, 5], slice);
}

#[test]
fn test_index() {
    let table = RowMajorTable::from_lines(vec![vec![0, 1], vec![2, 3]]);
    assert_eq!(0, table[TableIndex::new(0, 0)]);
    assert_eq!(1, table[TableIndex::new(1, 0)]);
    assert_eq!(2, table[TableIndex::new(0, 1)]);
    assert_eq!(3, table[TableIndex::new(1, 1)]);
}

#[test]
fn test_size() {
    let size = TableSize::new(2, 4);
    let table = RowMajorTable::from_fill(1, size);
    assert_eq!(table.size(), size);
    assert_eq!(2, table.width());
    assert_eq!(4, table.height());
}

#[test]
fn test_iter_items() {
    let table = RowMajorTable::from_lines(vec![vec![0, 1], vec![2, 3]]);
    let mut iterator = table.iter_items().iter();
    assert_eq!(Some(&0), iterator.next());
    assert_eq!(Some(&1), iterator.next());
    assert_eq!(Some(&2), iterator.next());
    assert_eq!(Some(&3), iterator.next());
    assert_eq!(None, iterator.next());
}

#[test]
fn test_iter_row() {
    let table = RowMajorTable::from_lines(vec![vec![0, 1, 2], vec![3, 4, 5]]);
    let rows = table.iter_row();
    let mut iter = rows.into_iter();
    assert_eq!(Some(vec![0, 1, 2].as_slice()), iter.next());
    assert_eq!(Some(vec![3, 4, 5].as_slice()), iter.next());
    assert_eq!(None, iter.next());
}

#[test]
fn test_iter_column() {
    let table = RowMajorTable::from_lines(vec![vec![0, 1, 2], vec![3, 4, 5]]);
    let mut column_iter = table.iter_column().into_iter();
    assert_eq!(vec![&0, &3], column_iter.next().unwrap());
    assert_eq!(vec![&1, &4], column_iter.next().unwrap());
    assert_eq!(vec![&2, &5], column_iter.next().unwrap());
    assert!(column_iter.next().is_none());
}

#[test]
fn test_as_raw_slice() {
    let table = RowMajorTable::from_lines(vec![vec![0, 1, 2], vec![3, 4, 5]]);
    assert_eq!(&[0, 1, 2, 3, 4, 5], table.as_raw_slice());
}

#[test]
fn test_as_raw_vec() {
    let table = RowMajorTable::from_lines(vec![vec![0, 1, 2], vec![3, 4, 5]]);
    assert_eq!(vec![0, 1, 2, 3, 4, 5], table.into_inner());
}

#[test]
fn row_major_table_test_map() {
    let table = RowMajorTable::from_lines(vec![vec![0, 1], vec![2, 3]]);
    let mapped = table.map(|x| x * x);
    assert_eq!(0, mapped[TableIndex::new(0, 0)]);
    assert_eq!(1, mapped[TableIndex::new(1, 0)]);
    assert_eq!(4, mapped[TableIndex::new(0, 1)]);
    assert_eq!(9, mapped[TableIndex::new(1, 1)]);
}

#[test]
fn row_major_table_raw_index_of() {
    let table = RowMajorTable::from_lines(vec![vec![0, 1, 2], vec![3, 4, 5]]);
    assert_eq!(Some(4), table.raw_index_of(TableIndex::new(1, 1)));
    assert_eq!(None, table.raw_index_of(TableIndex::new(3, 0)));
    assert_eq!(None, table.raw_index_of(TableIndex::new(0, 2)));
}

#[test]
fn row_major_table_through_the_trait() {
    let table = RowMajorTable::from_lines(vec![vec![0, 1, 2], vec![3, 4, 5]]);
    assert_eq!(3, Table::width(&table));
    assert_eq!(2, Table::height(&table));
    assert_eq!(Some(&5), Table::get(&table, TableIndex::new(2, 1)));
    assert_eq!(None, Table::get(&table, TableIndex::new(3, 1)));
}

#[test]
fn test_iter() {
    let mut shake = Shake::new();
    let mut values = Vec::new();
    for _ in 0..5 {
        values.push(shake.next().unwrap());
    }
    assert_eq!(vec![0, 1, -1, 2, -2], values);
}
