use grid_defense::{AlarmId, Entity, PlayerUnit, MIN_ENEMY_COUNT, STARTING_RESOURCES};

#[test]
fn constants_have_the_game_values() {
    assert_eq!(MIN_ENEMY_COUNT, 5);
    assert_eq!(STARTING_RESOURCES, 10);
}

#[test]
fn new_turret_starts_at_level_one_without_target() {
    let turret = PlayerUnit::new_turret(AlarmId(42));
    assert_eq!(
        turret,
        PlayerUnit::Turret { level: 1, shoot_alarm: AlarmId(42), target: None }
    );
    assert_eq!(turret.level(), 1);
}

#[test]
fn upgraded_base_gains_one_level() {
    let base = PlayerUnit::Base { level: 1 };
    assert_eq!(base.level(), 1);
    assert_eq!(base.upgraded(), PlayerUnit::Base { level: 2 });
    assert_eq!(base.upgraded().upgraded().level(), 3);
}

#[test]
fn upgraded_turret_keeps_alarm_and_target() {
    let turret = PlayerUnit::Turret {
        level: 4,
        shoot_alarm: AlarmId(8),
        target: Some(Entity(15)),
    };
    assert_eq!(
        turret.upgraded(),
        PlayerUnit::Turret { level: 5, shoot_alarm: AlarmId(8), target: Some(Entity(15)) }
    );
}
