use grid_defense::{AlarmId, Entity, Frame, Game, GridPos, PlayerUnit, Upgrade};

const BASE: Entity = Entity(100);
const TURRET: Entity = Entity(7);
const ALARM: AlarmId = AlarmId(3);

fn fresh_game() -> Game {
    let mut game = Game::new();
    game.scene_setup(BASE);
    game
}

fn drained_game() -> Game {
    let mut game = fresh_game();
    for _ in 0..10 {
        game.manager_update(GridPos::new(0, 0), false, true, None);
    }
    assert_eq!(game.resource_count(), 0);
    game
}

#[test]
fn frame_without_buttons_moves_the_selection_only() {
    let mut game = fresh_game();
    let frame = game.manager_update(GridPos::new(2, -3), false, false, None);
    assert_eq!(frame, Frame { placed: false, upgrade: Upgrade::Nothing, cursor_distance: 5 });
    assert_eq!(game.selected(), GridPos::new(2, -3));
    assert_eq!(game.resource_count(), 10);
    assert_eq!(game.occupant(GridPos::new(2, -3)), None);
    assert_eq!(game.unit(BASE), Some(PlayerUnit::Base { level: 1 }));
}

#[test]
fn turret_is_due_over_a_free_cell_with_the_button_down() {
    let game = fresh_game();
    assert!(game.turret_due_at(GridPos::new(1, 0), true));
    assert!(!game.turret_due_at(GridPos::new(1, 0), false));
    assert!(!game.turret_due_at(GridPos::new(0, 0), true));
    assert_eq!(game.selected(), GridPos::new(0, 0));
}

#[test]
fn turret_is_never_due_without_resources() {
    let game = drained_game();
    assert!(!game.turret_due_at(GridPos::new(1, 0), true));
    assert!(!game.turret_due_at(GridPos::new(-9, 4), true));
}

#[test]
fn frame_places_the_turret_on_the_selected_cell() {
    let mut game = fresh_game();
    let cell = GridPos::new(1, 0);
    assert!(game.turret_due_at(cell, true));
    let frame = game.manager_update(cell, true, false, Some((TURRET, ALARM)));
    assert_eq!(frame, Frame { placed: true, upgrade: Upgrade::Nothing, cursor_distance: 1 });
    assert_eq!(game.occupant(cell), Some(TURRET));
    assert_eq!(
        game.unit(TURRET),
        Some(PlayerUnit::Turret { level: 1, shoot_alarm: ALARM, target: None })
    );
    assert_eq!(game.resource_count(), 9);
}

#[test]
fn frame_places_nothing_while_the_primary_button_is_up() {
    let mut game = fresh_game();
    let cell = GridPos::new(1, 0);
    let frame = game.manager_update(cell, false, false, Some((TURRET, ALARM)));
    assert!(!frame.placed);
    assert_eq!(game.occupant(cell), None);
    assert_eq!(game.unit(TURRET), None);
    assert_eq!(game.resource_count(), 10);
}

#[test]
fn frame_places_nothing_without_a_turret_from_the_host() {
    let mut game = fresh_game();
    let cell = GridPos::new(1, 0);
    let frame = game.manager_update(cell, true, false, None);
    assert!(!frame.placed);
    assert_eq!(game.occupant(cell), None);
    assert_eq!(game.resource_count(), 10);
}

#[test]
fn frame_over_an_occupied_cell_leaves_the_grid_alone() {
    let mut game = fresh_game();
    let frame = game.manager_update(GridPos::new(0, 0), true, false, Some((TURRET, ALARM)));
    assert_eq!(frame, Frame { placed: false, upgrade: Upgrade::Nothing, cursor_distance: 0 });
    assert_eq!(game.occupant(GridPos::new(0, 0)), Some(BASE));
    assert_eq!(game.unit(TURRET), None);
    assert_eq!(game.resource_count(), 10);
}

#[test]
fn frame_upgrades_the_base_with_the_secondary_button() {
    let mut game = fresh_game();
    let frame = game.manager_update(GridPos::new(0, 0), false, true, None);
    assert_eq!(
        frame,
        Frame {
            placed: false,
            upgrade: Upgrade::Base { entity: BASE, level: 2 },
            cursor_distance: 0
        }
    );
    assert_eq!(game.unit(BASE), Some(PlayerUnit::Base { level: 2 }));
    assert_eq!(game.resource_count(), 9);
}

#[test]
fn frame_with_both_buttons_places_and_upgrades_at_once() {
    let mut game = fresh_game();
    let cell = GridPos::new(-2, 2);
    let frame = game.manager_update(cell, true, true, Some((TURRET, ALARM)));
    assert_eq!(
        frame,
        Frame {
            placed: true,
            upgrade: Upgrade::Turret { entity: TURRET, level: 2 },
            cursor_distance: 4
        }
    );
    assert_eq!(
        game.unit(TURRET),
        Some(PlayerUnit::Turret { level: 2, shoot_alarm: ALARM, target: None })
    );
    assert_eq!(game.resource_count(), 8);
}

#[test]
fn frame_with_both_buttons_and_one_resource_only_places() {
    let mut game = fresh_game();
    for _ in 0..9 {
        game.manager_update(GridPos::new(0, 0), false, true, None);
    }
    assert_eq!(game.resource_count(), 1);
    let cell = GridPos::new(3, 3);
    let frame = game.manager_update(cell, true, true, Some((TURRET, ALARM)));
    assert_eq!(frame, Frame { placed: true, upgrade: Upgrade::Nothing, cursor_distance: 6 });
    assert_eq!(
        game.unit(TURRET),
        Some(PlayerUnit::Turret { level: 1, shoot_alarm: ALARM, target: None })
    );
    assert_eq!(game.resource_count(), 0);
}

#[test]
fn frame_without_resources_moves_the_selection_only() {
    let mut game = drained_game();
    let cell = GridPos::new(5, 5);
    let frame = game.manager_update(cell, true, true, Some((TURRET, ALARM)));
    assert_eq!(frame, Frame { placed: false, upgrade: Upgrade::Nothing, cursor_distance: 10 });
    assert_eq!(game.selected(), cell);
    assert_eq!(game.occupant(cell), None);
    assert_eq!(game.unit(TURRET), None);
    assert_eq!(game.unit(BASE), Some(PlayerUnit::Base { level: 11 }));

    let frame = game.manager_update(GridPos::new(0, 0), false, true, None);
    assert_eq!(frame.upgrade, Upgrade::Nothing);
    assert_eq!(game.unit(BASE), Some(PlayerUnit::Base { level: 11 }));
}

#[test]
fn frame_agrees_with_its_steps() {
    let cell = GridPos::new(4, -1);

    let mut whole = fresh_game();
    let frame = whole.manager_update(cell, true, true, Some((TURRET, ALARM)));

    let mut stepwise = fresh_game();
    stepwise.select(cell);
    assert!(stepwise.turret_due(true));
    let placed = stepwise.place_turret(TURRET, ALARM);
    let upgrade = stepwise.upgrade_selected(true);
    let cursor_distance = stepwise.cursor_distance();

    assert_eq!(frame, Frame { placed, upgrade, cursor_distance });
    assert_eq!(whole.selected(), stepwise.selected());
    assert_eq!(whole.resource_count(), stepwise.resource_count());
    assert_eq!(whole.occupant(cell), stepwise.occupant(cell));
    assert_eq!(whole.unit(TURRET), stepwise.unit(TURRET));
}
