use blast_blocks::geometry::{above, below, left, right, MoveX, Movement, Pos, PosX, PosY, RegionOfInterest};

#[test]
fn position_test_origin() {
    let x = PosX::origin();
    assert_eq!(0, x.right_shift);
}

#[test]
fn test_right_from_origin() {
    assert_eq!(PosX::origin() + right(5), PosX::right(5));
}

#[test]
fn position_test_as_positive_index() {
    assert_eq!(Some(2), PosX::right(2).as_positive_index());
    assert_eq!(Some(0), PosX::origin().as_positive_index());
    assert!(PosX::right(-1).as_positive_index().is_none());
}

#[test]
fn position_test_add() {
    assert_eq!(9, (PosX::origin() + right(9)).right_shift);
}

#[test]
fn position_test_sub() {
    let first = PosX::right(10);
    let second = PosX::right(5);
    assert_eq!(right(5), first - second);
}

#[test]
fn move_x_test_add() {
    assert_eq!(right(5), right(2) + right(3));
}

#[test]
fn move_x_as_positive_index() {
    assert_eq!(Some(3), MoveX(3).as_positive_index());
    assert_eq!(None, left(3).as_positive_index());
}

#[test]
fn position_y_test_origin() {
    let y = PosY::origin();
    assert_eq!(0, y.below_shift);
}

#[test]
fn test_below() {
    assert_eq!(PosY::origin() + below(5), PosY::below(5));
}

#[test]
fn position_y_test_as_positive_index() {
    assert_eq!(Some(2), PosY::below(2).as_positive_index());
    assert_eq!(Some(0), PosY::origin().as_positive_index());
    assert!(PosY::below(-1).as_positive_index().is_none());
}

#[test]
fn position_y_test_add() {
    assert_eq!(9, (PosY::origin() + below(9)).below_shift);
}

#[test]
fn position_y_test_sub() {
    let first = PosY::below(10);
    let second = PosY::below(5);
    assert_eq!(below(5), first - second);
}

#[test]
fn move_y_test_add() {
    assert_eq!(below(5), below(2) + below(3));
}

#[test]
fn move_y_as_positive_index() {
    assert_eq!(Some(4), below(4).as_positive_index());
    assert_eq!(None, above(4).as_positive_index());
}

#[test]
fn test_from_movex() {
    let m = Movement::from(left(1));
    assert_eq!(Movement(left(1), below(0)), m);
}

#[test]
fn test_from_movey() {
    let m = Movement::from(below(1));
    assert_eq!(Movement(left(0), below(1)), m);
}

#[test]
fn movement_test_add() {
    let m1 = Movement(left(1), below(2));
    let m2 = Movement(left(3), below(4));
    assert_eq!(Movement(left(4), below(6)), m1 + m2);
}

#[test]
fn pos_origin() {
    let p = Pos::origin();
    assert_eq!(PosX::origin(), p.0);
    assert_eq!(PosY::origin(), p.1);
}

#[test]
fn pos_add_movement() {
    let p = Pos::origin();
    let m = Movement(right(5), below(10));
    let p = p + m;
    assert_eq!(PosX::right(5), p.0);
    assert_eq!(PosY::below(10), p.1);
}

#[test]
fn position_difference() {
    let p = Pos(PosX::right(7), PosY::below(2));
    let q = Pos(PosX::right(3), PosY::below(5));
    assert_eq!(Movement(right(4), above(3)), p - q);
    assert_eq!(PosX::right(7), p.x());
    assert_eq!(PosY::below(2), p.y());
}

#[test]
fn roi_test_new() {
    let left_top = Pos(PosX::right(2), PosY::below(3));
    let size = right(1) + below(1);
    let _roi = RegionOfInterest::new(left_top, size);
}

#[test]
fn roi_test_right_below() {
    let left_top = Pos(PosX::right(2), PosY::below(3));
    let size = right(5) + below(6);
    let roi = RegionOfInterest::new(left_top, size);
    assert_eq!(
        Pos::origin() + right(2 + 5 - 1) + below(3 + 6 - 1),
        roi.right_below()
    );
}

#[test]
fn roi_test_contains() {
    let left_top = Pos(PosX::right(2), PosY::below(3));
    let size = right(5) + below(6);
    let roi = RegionOfInterest::new(left_top, size);

    assert!(roi.contains(left_top));
    assert!(roi.contains(left_top + right(4)));
    assert!(roi.contains(left_top + below(5)));
    assert!(roi.contains(roi.right_below()));
    assert!(!roi.contains(left_top + left(1)));
    assert!(!roi.contains(left_top + above(1)));
    assert!(!roi.contains(roi.right_below() + right(1)));
    assert!(!roi.contains(roi.right_below() + below(1)));
}

#[test]
fn test_iter_pos() {
    let left_top = Pos(PosX::right(4), PosY::below(5));
    let size = right(2) + below(3);
    let roi = RegionOfInterest::new(left_top, size);
    let mut iter = roi.iter_pos().into_iter();

    assert_eq!(Some(Pos::origin() + right(4) + below(5)), iter.next());
    assert_eq!(Some(Pos::origin() + right(5) + below(5)), iter.next());
    assert_eq!(Some(Pos::origin() + right(4) + below(6)), iter.next());
    assert_eq!(Some(Pos::origin() + right(5) + below(6)), iter.next());
    assert_eq!(Some(Pos::origin() + right(4) + below(7)), iter.next());
    assert_eq!(Some(Pos::origin() + right(5) + below(7)), iter.next());
    assert!(iter.next().is_none());
}
