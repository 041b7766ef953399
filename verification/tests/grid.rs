use grid_defense::GridPos;

#[test]
fn new_keeps_coordinates() {
    let pos = GridPos::new(5, -3);
    assert_eq!(pos.x, 5);
    assert_eq!(pos.y, -3);
}

#[test]
fn positions_compare_by_coordinates() {
    assert_eq!(GridPos::new(2, 7), GridPos::new(2, 7));
    assert_ne!(GridPos::new(2, 7), GridPos::new(7, 2));
    assert_ne!(GridPos::new(0, 1), GridPos::new(1, 0));
}

#[test]
fn sub_is_component_wise() {
    let diff = GridPos::new(0, 0) - GridPos::new(4, -7);
    assert_eq!(diff, GridPos::new(-4, 7));
    assert_eq!(GridPos::new(9, 2) - GridPos::new(3, 5), GridPos::new(6, -3));
}

#[test]
fn sub_of_a_cell_from_itself_is_the_origin() {
    let cell = GridPos::new(-12, 40);
    assert_eq!(cell - cell, GridPos::new(0, 0));
}

#[test]
fn checked_sub_agrees_with_sub_where_it_fits() {
    let a = GridPos::new(9, 2);
    let b = GridPos::new(3, 5);
    assert_eq!(a.checked_sub(b), Some(a - b));
    assert_eq!(
        GridPos::new(isize::MAX, isize::MIN).checked_sub(GridPos::new(0, 0)),
        Some(GridPos::new(isize::MAX, isize::MIN))
    );
}

#[test]
fn checked_sub_refuses_what_does_not_fit() {
    assert_eq!(GridPos::new(isize::MIN, 0).checked_sub(GridPos::new(1, 0)), None);
    assert_eq!(GridPos::new(0, isize::MAX).checked_sub(GridPos::new(0, -1)), None);
    assert_eq!(GridPos::new(0, 0).checked_sub(GridPos::new(isize::MIN, 0)), None);
}

#[test]
fn manhattan_distance_adds_both_axes() {
    assert_eq!(GridPos::new(0, 0).manhattan_distance(GridPos::new(3, -4)), 7);
    assert_eq!(GridPos::new(3, -4).manhattan_distance(GridPos::new(0, 0)), 7);
    assert_eq!(GridPos::new(-2, -2).manhattan_distance(GridPos::new(-2, -2)), 0);
    assert_eq!(GridPos::new(1, 1).manhattan_distance(GridPos::new(-1, 5)), 6);
}

#[test]
fn manhattan_distance_is_total() {
    let low = GridPos::new(isize::MIN, isize::MIN);
    let high = GridPos::new(isize::MAX, isize::MAX);
    let side = (isize::MAX as u128) + (isize::MAX as u128) + 1;
    assert_eq!(low.manhattan_distance(high), 2 * side);
    assert_eq!(GridPos::new(0, 0).manhattan_distance(low), side + 1);
}

#[test]
fn manhattan_distance_matches_the_difference() {
    let a = GridPos::new(0, 0);
    let b = GridPos::new(17, -5);
    let diff = a - b;
    let expected = diff.x.unsigned_abs() as u128 + diff.y.unsigned_abs() as u128;
    assert_eq!(a.manhattan_distance(b), expected);
    assert_eq!(expected, 22);
}
