//! Laws of the game, proved of the state machine in `model`.

use crate::entity::{AlarmId, Entity};
use crate::grid::{abs, manhattan, GridPos};
use crate::manager::{lemma_with_entity, lemma_without_entity};
use crate::model::{first_collider, lemma_first_collider, Frame, GameView, Upgrade};
use crate::units::{PlayerUnit, MIN_ENEMY_COUNT};
use vstd::prelude::*;
use vstd::std_specs::ops::SubSpec;

verus! {

/// Where the difference of two cells is representable, the Manhattan distance
/// between them is the sum of the magnitudes of its coordinates.
pub proof fn lemma_manhattan_of_difference(a: GridPos, b: GridPos)
    requires
        a.can_sub(b),
    ensures
        manhattan(a, b) == abs(a.sub_spec(b).x as int) + abs(a.sub_spec(b).y as int),
        manhattan(a, b) == manhattan(b, a),
{
}

/// Every event leads from a reachable state to a reachable state, and the
/// state before scene setup is one.
pub proof fn lemma_events_preserve_wf(
    pre: GameView,
    entity: Entity,
    shoot_alarm: AlarmId,
    cell: GridPos,
    primary: bool,
    secondary: bool,
    turret: Option<(Entity, AlarmId)>,
    others: Seq<Entity>,
)
    requires
        pre.wf(),
    ensures
        GameView::initial().wf(),
        pre.scene_setup(entity).wf(),
        pre.select(cell).wf(),
        pre.place_turret(entity, shoot_alarm).wf(),
        pre.upgrade_selected(secondary).wf(),
        pre.manager_update(cell, primary, secondary, turret).wf(),
        pre.spawn_enemy(entity).wf(),
        pre.on_enemy_collision(entity, others).wf(),
{
    lemma_with_entity(pre.enemies, entity);
    lemma_without_entity(pre.enemies, entity);
}

/// Placing a turret on an occupied cell is a no-op: neither the grid nor the
/// resources change, nor anything else.
pub proof fn lemma_place_on_occupied_cell_is_noop(
    pre: GameView,
    entity: Entity,
    shoot_alarm: AlarmId,
)
    requires
        pre.grid.contains_key(pre.selected),
    ensures
        pre.place_turret(entity, shoot_alarm).grid == pre.grid,
        pre.place_turret(entity, shoot_alarm).resource_count == pre.resource_count,
        pre.place_turret(entity, shoot_alarm) == pre,
{
}

/// Without resources no turret comes to be: the host is never asked to
/// create the entity, and a placement leaves the units as they are.
pub proof fn lemma_no_turret_without_resources(
    pre: GameView,
    pressed: bool,
    entity: Entity,
    shoot_alarm: AlarmId,
)
    requires
        pre.resource_count == 0,
    ensures
        !pre.turret_due(pressed),
        pre.place_turret(entity, shoot_alarm).units == pre.units,
        pre.place_turret(entity, shoot_alarm) == pre,
{
}

/// A placement that is due puts a level-1 turret without a target on the
/// selected cell and costs exactly one resource.
pub proof fn lemma_place_turret(pre: GameView, entity: Entity, shoot_alarm: AlarmId)
    requires
        pre.can_place(),
    ensures
        ({
            let post = pre.place_turret(entity, shoot_alarm);
            &&& post.grid.contains_key(pre.selected)
            &&& post.grid[pre.selected] == entity
            &&& post.units.contains_key(entity)
            &&& post.units[entity] == (PlayerUnit::Turret { level: 1, shoot_alarm, target: None })
            &&& post.resource_count == pre.resource_count - 1
            &&& forall|cell: GridPos|
                cell != pre.selected ==> post.grid.contains_key(cell) == pre.grid.contains_key(cell)
                    && post.grid[cell] == pre.grid[cell]
        }),
{
}

/// Upgrading a base raises its level by exactly one and costs exactly one
/// resource, each time.
pub proof fn lemma_upgrade_base(pre: GameView, level: usize)
    requires
        pre.wf(),
        pre.can_upgrade(),
        pre.units[pre.grid[pre.selected]] == (PlayerUnit::Base { level }),
    ensures
        ({
            let entity = pre.grid[pre.selected];
            let post = pre.upgrade_selected(true);
            &&& post.units[entity] == (PlayerUnit::Base { level: (level + 1) as usize })
            &&& post.units[entity].spec_level() == level + 1
            &&& post.resource_count == pre.resource_count - 1
            &&& pre.upgrade_outcome(true) == (Upgrade::Base { entity, level: (level + 1) as usize })
        }),
{
}

/// Upgrading a turret raises its level by exactly one, keeps its alarm and
/// its target, and costs exactly one resource.
pub proof fn lemma_upgrade_turret(
    pre: GameView,
    level: usize,
    shoot_alarm: AlarmId,
    target: Option<Entity>,
)
    requires
        pre.wf(),
        pre.can_upgrade(),
        pre.units[pre.grid[pre.selected]] == (PlayerUnit::Turret { level, shoot_alarm, target }),
    ensures
        ({
            let entity = pre.grid[pre.selected];
            let post = pre.upgrade_selected(true);
            &&& post.units[entity] == (PlayerUnit::Turret {
                level: (level + 1) as usize,
                shoot_alarm,
                target,
            })
            &&& post.units[entity].spec_level() == level + 1
            &&& post.resource_count == pre.resource_count - 1
            &&& pre.upgrade_outcome(true) == (Upgrade::Turret {
                entity,
                level: (level + 1) as usize,
            })
        }),
{
}

/// An upgrade request changes nothing when the button is up, when no
/// resource is left, or when the selected cell is empty.
pub proof fn lemma_upgrade_guarded(pre: GameView, pressed: bool)
    requires
        !pressed || pre.resource_count == 0 || !pre.grid.contains_key(pre.selected),
    ensures
        pre.upgrade_selected(pressed) == pre,
        pre.upgrade_outcome(pressed) == Upgrade::Nothing,
{
}

/// A frame in which no button is pressed moves the selection and does nothing
/// else.
pub proof fn lemma_frame_without_buttons(
    pre: GameView,
    cell: GridPos,
    turret: Option<(Entity, AlarmId)>,
)
    ensures
        !pre.turret_due_at(cell, false),
        pre.manager_update(cell, false, false, turret) == pre.select(cell),
        pre.frame_outcome(cell, false, false, turret) == (Frame {
            placed: false,
            upgrade: Upgrade::Nothing,
            cursor_distance: manhattan(GridPos::origin(), cell) as u128,
        }),
{
}

/// A frame over an occupied cell places nothing, whatever the buttons: the
/// grid stays as it is, and a resource is spent only on an upgrade.
pub proof fn lemma_frame_on_occupied_cell(
    pre: GameView,
    cell: GridPos,
    primary: bool,
    secondary: bool,
    turret: Option<(Entity, AlarmId)>,
)
    requires
        pre.grid.contains_key(cell),
    ensures
        !pre.turret_due_at(cell, primary),
        !pre.frame_outcome(cell, primary, secondary, turret).placed,
        pre.manager_update(cell, primary, secondary, turret).grid == pre.grid,
        pre.manager_update(cell, primary, secondary, turret) == pre.select(cell).upgrade_selected(
            secondary,
        ),
{
}

/// A frame without resources moves the selection and does nothing else: no
/// turret is asked for, none is placed, nothing is upgraded.
pub proof fn lemma_frame_without_resources(
    pre: GameView,
    cell: GridPos,
    primary: bool,
    secondary: bool,
    turret: Option<(Entity, AlarmId)>,
)
    requires
        pre.resource_count == 0,
    ensures
        !pre.turret_due_at(cell, primary),
        pre.manager_update(cell, primary, secondary, turret) == pre.select(cell),
        pre.frame_outcome(cell, primary, secondary, turret) == (Frame {
            placed: false,
            upgrade: Upgrade::Nothing,
            cursor_distance: manhattan(GridPos::origin(), cell) as u128,
        }),
{
}

/// With both buttons pressed over a free cell and two resources left, the
/// frame places the turret and upgrades it at once: it ends at level 2 and
/// two resources are spent.
pub proof fn lemma_frame_places_then_upgrades(
    pre: GameView,
    cell: GridPos,
    entity: Entity,
    shoot_alarm: AlarmId,
)
    requires
        pre.wf(),
        !pre.grid.contains_key(cell),
        pre.resource_count >= 2,
    ensures
        ({
            let post = pre.manager_update(cell, true, true, Some((entity, shoot_alarm)));
            let frame = pre.frame_outcome(cell, true, true, Some((entity, shoot_alarm)));
            &&& pre.turret_due_at(cell, true)
            &&& post.grid[cell] == entity
            &&& post.units[entity] == (PlayerUnit::Turret { level: 2, shoot_alarm, target: None })
            &&& post.resource_count == pre.resource_count - 2
            &&& frame.placed
            &&& frame.upgrade == (Upgrade::Turret { entity, level: 2 })
        }),
{
}

/// No event gains resources, and only a placement or an upgrade that takes
/// place spends one.
pub proof fn lemma_resources_never_grow(
    pre: GameView,
    entity: Entity,
    shoot_alarm: AlarmId,
    cell: GridPos,
    pressed: bool,
    others: Seq<Entity>,
)
    ensures
        pre.scene_setup(entity).resource_count == pre.resource_count,
        pre.select(cell).resource_count == pre.resource_count,
        pre.spawn_enemy(entity).resource_count == pre.resource_count,
        pre.on_enemy_collision(entity, others).resource_count == pre.resource_count,
        pre.place_turret(entity, shoot_alarm).resource_count == (if pre.can_place() {
            pre.resource_count - 1
        } else {
            pre.resource_count as int
        }),
        pre.upgrade_selected(pressed).resource_count == (if pressed && pre.can_upgrade() {
            pre.resource_count - 1
        } else {
            pre.resource_count as int
        }),
{
}

/// No unit ever loses a level, as long as the host hands fresh entities to
/// scene setup and turret placement.
pub proof fn lemma_levels_never_drop(
    pre: GameView,
    unit: Entity,
    entity: Entity,
    shoot_alarm: AlarmId,
    cell: GridPos,
    pressed: bool,
    others: Seq<Entity>,
)
    requires
        pre.wf(),
        pre.units.contains_key(unit),
    ensures
        pre.upgrade_selected(pressed).units.contains_key(unit),
        pre.upgrade_selected(pressed).units[unit].spec_level() >= pre.units[unit].spec_level(),
        pre.select(cell).units == pre.units,
        pre.spawn_enemy(entity).units == pre.units,
        pre.on_enemy_collision(entity, others).units == pre.units,
        entity != unit ==> pre.place_turret(entity, shoot_alarm).units[unit] == pre.units[unit],
        entity != unit ==> pre.scene_setup(entity).units[unit] == pre.units[unit],
{
}

/// After a collision that destroys the enemy, exactly one spawn alarm is
/// scheduled if fewer than `MIN_ENEMY_COUNT` enemies are left, and none
/// otherwise. A collision that destroys nothing schedules none.
pub proof fn lemma_collision_spawn_alarms(pre: GameView, enemy: Entity, others: Seq<Entity>)
    requires
        pre.wf(),
    ensures
        ({
            let post = pre.on_enemy_collision(enemy, others);
            let outcome = pre.collision_outcome(enemy, others);
            let destroyed = first_collider(pre.enemies, others) is Some;
            &&& destroyed <==> outcome is Destroyed
            &&& destroyed ==> !post.enemies.contains(enemy)
            &&& destroyed && post.enemies.len() < MIN_ENEMY_COUNT ==> outcome.spawn_alarms() == 1
            &&& !(destroyed && post.enemies.len() < MIN_ENEMY_COUNT) ==> outcome.spawn_alarms() == 0
            &&& !destroyed ==> post == pre
        }),
{
    lemma_without_entity(pre.enemies, enemy);
}

/// Whether a collision destroys the enemy, and the state it leaves, do not
/// depend on the order of the other colliders.
pub proof fn lemma_collision_ignores_order(
    pre: GameView,
    enemy: Entity,
    others: Seq<Entity>,
    reordered: Seq<Entity>,
)
    requires
        forall|e: Entity| others.contains(e) <==> reordered.contains(e),
    ensures
        pre.collision_outcome(enemy, others) is Destroyed <==> pre.collision_outcome(
            enemy,
            reordered,
        ) is Destroyed,
        pre.on_enemy_collision(enemy, others) == pre.on_enemy_collision(enemy, reordered),
        pre.collision_outcome(enemy, others).spawn_alarms() == pre.collision_outcome(
            enemy,
            reordered,
        ).spawn_alarms(),
{
    lemma_first_collider(pre.enemies, others);
    lemma_first_collider(pre.enemies, reordered);
    // A collider that is no enemy in one list stands somewhere in the other.
    if first_collider(pre.enemies, others) is Some {
        let i: int = choose|i: int|
            0 <= i < others.len() && !pre.enemies.contains(#[trigger] others[i]);
        assert(others.contains(others[i]));
        let j: int = reordered.index_of(others[i]);
        assert(!pre.enemies.contains(reordered[j]));
    }
    if first_collider(pre.enemies, reordered) is Some {
        let i: int = choose|i: int|
            0 <= i < reordered.len() && !pre.enemies.contains(#[trigger] reordered[i]);
        assert(reordered.contains(reordered[i]));
        let j: int = others.index_of(reordered[i]);
        assert(!pre.enemies.contains(others[j]));
    }
}

/// The spawner stops by itself: a spawned enemy is alive afterwards, counts
/// once, and asks for the next spawn alarm exactly while the enemies are fewer
/// than `MIN_ENEMY_COUNT`.
pub proof fn lemma_spawn_chain(pre: GameView, entity: Entity)
    requires
        pre.wf(),
    ensures
        ({
            let post = pre.spawn_enemy(entity);
            &&& post.enemies.contains(entity)
            &&& post.enemies.len() == (if pre.enemies.contains(entity) {
                pre.enemies.len()
            } else {
                pre.enemies.len() + 1
            })
            &&& post.spawn_due() <==> post.enemies.len() < MIN_ENEMY_COUNT
            &&& pre.enemies.len() >= MIN_ENEMY_COUNT ==> !post.spawn_due()
        }),
{
    lemma_with_entity(pre.enemies, entity);
}

} // verus!
