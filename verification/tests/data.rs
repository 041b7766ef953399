use grid_defense::{Entity, GameData, GridPos};

#[test]
fn new_data_has_the_defaults() {
    let data = GameData::new();
    assert_eq!(data.selected(), GridPos::new(0, 0));
    assert_eq!(data.resource_count(), 10);
    assert_eq!(data.occupant(GridPos::new(0, 0)), None);
    assert!(!data.is_occupied(GridPos::new(0, 0)));
}

#[test]
fn occupy_then_occupant() {
    let mut data = GameData::new();
    data.occupy(GridPos::new(2, -1), Entity(5));
    assert_eq!(data.occupant(GridPos::new(2, -1)), Some(Entity(5)));
    assert!(data.is_occupied(GridPos::new(2, -1)));
    assert_eq!(data.occupant(GridPos::new(-1, 2)), None);
    assert_eq!(data.occupant(GridPos::new(2, 1)), None);
}

#[test]
fn occupy_replaces_the_occupant() {
    let mut data = GameData::new();
    data.occupy(GridPos::new(0, 0), Entity(1));
    data.occupy(GridPos::new(0, 0), Entity(2));
    assert_eq!(data.occupant(GridPos::new(0, 0)), Some(Entity(2)));
}

#[test]
fn neighbouring_and_mirrored_cells_are_distinct() {
    let mut data = GameData::new();
    data.occupy(GridPos::new(0, 1), Entity(1));
    data.occupy(GridPos::new(1, 0), Entity(2));
    data.occupy(GridPos::new(-1, 0), Entity(3));
    data.occupy(GridPos::new(0, -1), Entity(4));
    assert_eq!(data.occupant(GridPos::new(0, 1)), Some(Entity(1)));
    assert_eq!(data.occupant(GridPos::new(1, 0)), Some(Entity(2)));
    assert_eq!(data.occupant(GridPos::new(-1, 0)), Some(Entity(3)));
    assert_eq!(data.occupant(GridPos::new(0, -1)), Some(Entity(4)));
    assert_eq!(data.occupant(GridPos::new(0, 0)), None);
}

#[test]
fn cells_at_the_edge_of_the_coordinate_range_are_distinct() {
    let mut data = GameData::new();
    let corners = [
        GridPos::new(isize::MIN, isize::MIN),
        GridPos::new(isize::MIN, isize::MAX),
        GridPos::new(isize::MAX, isize::MIN),
        GridPos::new(isize::MAX, isize::MAX),
        GridPos::new(isize::MIN + 1, isize::MIN),
        GridPos::new(isize::MIN, isize::MIN + 1),
    ];
    for (i, corner) in corners.iter().enumerate() {
        data.occupy(*corner, Entity(i as u64));
    }
    for (i, corner) in corners.iter().enumerate() {
        assert_eq!(data.occupant(*corner), Some(Entity(i as u64)));
    }
    assert_eq!(data.occupant(GridPos::new(0, 0)), None);
}

#[test]
fn select_moves_the_selection_only() {
    let mut data = GameData::new();
    data.occupy(GridPos::new(1, 1), Entity(3));
    data.select(GridPos::new(-4, 9));
    assert_eq!(data.selected(), GridPos::new(-4, 9));
    assert_eq!(data.resource_count(), 10);
    assert_eq!(data.occupant(GridPos::new(1, 1)), Some(Entity(3)));
}

#[test]
fn spend_takes_exactly_one_resource() {
    let mut data = GameData::new();
    data.spend();
    assert_eq!(data.resource_count(), 9);
    data.spend();
    data.spend();
    assert_eq!(data.resource_count(), 7);
    assert_eq!(data.selected(), GridPos::new(0, 0));
}

#[test]
fn clone_holds_the_same_values() {
    let mut data = GameData::new();
    data.occupy(GridPos::new(1, 2), Entity(3));
    data.select(GridPos::new(1, 2));
    data.spend();
    let copy = data.clone();
    data.spend();
    data.occupy(GridPos::new(1, 2), Entity(4));
    assert_eq!(copy.occupant(GridPos::new(1, 2)), Some(Entity(3)));
    assert_eq!(copy.selected(), GridPos::new(1, 2));
    assert_eq!(copy.resource_count(), 9);
}
