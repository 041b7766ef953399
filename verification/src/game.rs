//! The executable game state and the events that change it.

use crate::data::GameData;
use crate::entity::{AlarmId, Entity};
use crate::grid::{manhattan, GridPos};
use crate::manager::{lemma_with_entity, lemma_without_entity, ComponentManager};
use crate::model::{first_collider, lemma_first_collider, Collision, Frame, GameView, Upgrade};
use crate::units::{Enemy, PlayerUnit, MIN_ENEMY_COUNT};
use vstd::prelude::*;

verus! {

/// The gameplay state of one scene: the singleton game data, the player
/// units and the enemies.
///
/// The host engine creates and destroys entities, draws them and keeps the
/// timers. It reports what happened through the methods below and carries
/// out what they return:
///
/// - Once, when the scene is built, `scene_setup` with the base's entity.
/// - Whenever the scene is loaded or reloaded, `scene_reset`; on `true` it
///   schedules one spawn alarm.
/// - Every frame, `turret_due_at` with the cell under the cursor and the
///   state of the primary button; where a turret is due it creates an entity
///   with a fire alarm. Then `manager_update`, which selects the cell, places
///   the turret and upgrades, and says what to rescale and how far the camera
///   backs off. The steps of a frame can also be taken one by one: `select`,
///   `turret_due` and `place_turret`, `upgrade_selected`, `cursor_distance`.
/// - When a spawn alarm fires, `spawn_enemy`; on `true` it schedules the next.
/// - When an enemy collides, `on_enemy_collision`; on `Destroyed` it destroys
///   the enemy's entity and, where asked, schedules one spawn alarm.
#[derive(Debug)]
pub struct Game {
    data: GameData,
    units: ComponentManager<PlayerUnit>,
    enemies: ComponentManager<Enemy>,
}

impl View for Game {
    type V = GameView;

    closed spec fn view(&self) -> GameView {
        GameView {
            grid: self.data@.grid,
            selected: self.data@.selected,
            resource_count: self.data@.resource_count,
            units: self.units@,
            enemies: self.enemies.order(),
        }
    }
}

impl Clone for Game {
    /// A copy in the same state.
    fn clone(&self) -> (copy: Self)
        ensures
            self.wf() ==> copy.wf() && copy@ == self@,
    {
        let copy = Game {
            data: self.data.clone(),
            units: self.units.clone(),
            enemies: self.enemies.clone(),
        };
        proof {
            if self.wf() {
                assert(copy@ =~= self@);
            }
        }
        copy
    }
}

impl Game {
    /// The component stores are sound.
    pub closed spec fn stores_wf(&self) -> bool {
        self.units.wf() && self.enemies.wf()
    }

    /// The state is one that the game can reach.
    pub open spec fn wf(&self) -> bool {
        self.stores_wf() && self@.wf()
    }

    /// The state before the scene is set up: nothing on the grid, no units,
    /// no enemies, the starting resources.
    pub fn new() -> (game: Game)
        ensures
            game.wf(),
            game@ == GameView::initial(),
    {
        Game {
            data: GameData::new(),
            units: ComponentManager::new(),
            enemies: ComponentManager::new(),
        }
    }

    /// The grid cell currently selected by the player.
    pub fn selected(&self) -> (cell: GridPos)
        ensures
            cell == self@.selected,
    {
        self.data.selected()
    }

    /// What the player can still spend.
    pub fn resource_count(&self) -> (count: usize)
        ensures
            count == self@.resource_count,
    {
        self.data.resource_count()
    }

    /// The entity that occupies `cell`, if any.
    pub fn occupant(&self, cell: GridPos) -> (entity: Option<Entity>)
        ensures
            entity == (if self@.grid.contains_key(cell) {
                Some(self@.grid[cell])
            } else {
                None
            }),
    {
        self.data.occupant(cell)
    }

    /// The player unit that `entity` is, if it is one.
    pub fn unit(&self, entity: Entity) -> (unit: Option<PlayerUnit>)
        requires
            self.wf(),
        ensures
            unit == (if self@.units.contains_key(entity) {
                Some(self@.units[entity])
            } else {
                None
            }),
    {
        match self.units.get(entity) {
            Some(unit) => Some(*unit),
            None => None,
        }
    }

    /// Whether `entity` is a live enemy.
    pub fn is_enemy(&self, entity: Entity) -> (enemy: bool)
        requires
            self.wf(),
        ensures
            enemy == self@.enemies.contains(entity),
    {
        proof {
            self.enemies.lemma_order_matches_view();
        }
        self.enemies.contains(entity)
    }

    /// Number of live enemies.
    pub fn enemy_count(&self) -> (count: usize)
        requires
            self.wf(),
        ensures
            count == self@.enemies.len(),
    {
        self.enemies.len()
    }

    /// The live enemies, in the order in which they spawned.
    pub fn enemies(&self) -> (list: &[Entity])
        ensures
            list@ == self@.enemies,
    {
        self.enemies.entities()
    }

    /// Sets the scene up: `base_entity` becomes the player's base, at level 1
    /// on the origin cell.
    pub fn scene_setup(&mut self, base_entity: Entity)
        requires
            old(self).wf(),
        ensures
            final(self).wf(),
            final(self)@ == old(self)@.scene_setup(base_entity),
    {
        self.data.occupy(GridPos::new(0, 0), base_entity);
        self.units.assign(base_entity, PlayerUnit::Base { level: 1 });
        assert(self@ =~= old(self)@.scene_setup(base_entity));
    }

    /// Whether a spawn alarm has to be scheduled when the scene is reset:
    /// exactly when fewer than `MIN_ENEMY_COUNT` enemies live.
    pub fn scene_reset(&self) -> (spawn: bool)
        requires
            self.wf(),
        ensures
            spawn == self@.spawn_due(),
    {
        self.enemies.len() < MIN_ENEMY_COUNT
    }

    /// The cursor moved: `cell` is the selected cell from now on.
    pub fn select(&mut self, cell: GridPos)
        requires
            old(self).wf(),
        ensures
            final(self).wf(),
            final(self)@ == old(self)@.select(cell),
    {
        self.data.select(cell);
    }

    /// Whether the host has to create a turret entity: the primary button is
    /// pressed, a resource is left and the selected cell is free.
    pub fn turret_due(&self, pressed: bool) -> (due: bool)
        ensures
            due == self@.turret_due(pressed),
    {
        pressed && self.data.resource_count() > 0 && !self.data.is_occupied(self.data.selected())
    }

    /// Places the turret `unit_entity`, whose fire alarm is `shoot_alarm`, on
    /// the selected cell and spends one resource.
    ///
    /// Without a resource, or on an occupied cell, nothing changes and the
    /// result is `false`.
    pub fn place_turret(&mut self, unit_entity: Entity, shoot_alarm: AlarmId) -> (placed: bool)
        requires
            old(self).wf(),
        ensures
            final(self).wf(),
            placed == old(self)@.can_place(),
            final(self)@ == old(self)@.place_turret(unit_entity, shoot_alarm),
    {
        let selected = self.data.selected();
        if self.data.resource_count() > 0 && !self.data.is_occupied(selected) {
            self.units.assign(unit_entity, PlayerUnit::new_turret(shoot_alarm));
            self.data.occupy(selected, unit_entity);
            self.data.spend();
            assert(self@ =~= old(self)@.place_turret(unit_entity, shoot_alarm));
            true
        } else {
            false
        }
    }

    /// Upgrades the occupant of the selected cell by one level and spends one
    /// resource, if the secondary button is pressed, a resource is left and
    /// the cell is occupied. Otherwise nothing changes.
    ///
    /// The result names the upgraded unit and its new level.
    pub fn upgrade_selected(&mut self, pressed: bool) -> (outcome: Upgrade)
        requires
            old(self).wf(),
        ensures
            final(self).wf(),
            final(self)@ == old(self)@.upgrade_selected(pressed),
            outcome == old(self)@.upgrade_outcome(pressed),
    {
        if !(pressed && self.data.resource_count() > 0) {
            return Upgrade::Nothing;
        }
        let entity = match self.data.occupant(self.data.selected()) {
            Some(entity) => entity,
            None => {
                return Upgrade::Nothing;
            },
        };
        let unit = match self.units.get(entity) {
            Some(unit) => *unit,
            None => {
                // Does not happen: whatever occupies a cell is a player unit.
                assert(false);
                return Upgrade::Nothing;
            },
        };
        // The level cannot overflow: level and resources together stay bounded.
        let upgraded = unit.upgraded();
        self.units.assign(entity, upgraded);
        self.data.spend();
        match upgraded {
            PlayerUnit::Base { level } => Upgrade::Base { entity, level },
            PlayerUnit::Turret { level, .. } => Upgrade::Turret { entity, level },
        }
    }

    /// Manhattan distance, in cells, between the base's cell and the selected
    /// cell. The camera backs off by this much.
    pub fn cursor_distance(&self) -> (cells: u128)
        ensures
            cells == manhattan(GridPos::origin(), self@.selected),
    {
        GridPos::new(0, 0).manhattan_distance(self.data.selected())
    }

    /// Whether the host has to create a turret entity, with its fire alarm,
    /// before it calls `manager_update` for a frame that selects `cell` while
    /// the primary button is in the state `pressed`.
    pub fn turret_due_at(&self, cell: GridPos, pressed: bool) -> (due: bool)
        ensures
            due == self@.turret_due_at(cell, pressed),
    {
        pressed && self.data.resource_count() > 0 && !self.data.is_occupied(cell)
    }

    /// One frame of the update system, in one step.
    ///
    /// `cell` is the cell under the cursor, `primary` and `secondary` the
    /// states of the two mouse buttons, and `turret` the entity and the fire
    /// alarm that the host created because `turret_due_at` asked for them.
    /// The frame selects `cell`, places the turret if `primary` is pressed,
    /// and then upgrades what stands on the selected cell if `secondary` is
    /// pressed. With both buttons pressed a turret just placed is upgraded
    /// at once, a resource permitting.
    pub fn manager_update(
        &mut self,
        cell: GridPos,
        primary: bool,
        secondary: bool,
        turret: Option<(Entity, AlarmId)>,
    ) -> (frame: Frame)
        requires
            old(self).wf(),
        ensures
            final(self).wf(),
            final(self)@ == old(self)@.manager_update(cell, primary, secondary, turret),
            frame == old(self)@.frame_outcome(cell, primary, secondary, turret),
    {
        self.select(cell);
        let placed = match turret {
            Some((unit_entity, shoot_alarm)) => primary && self.place_turret(
                unit_entity,
                shoot_alarm,
            ),
            None => false,
        };
        let upgrade = self.upgrade_selected(secondary);
        Frame { placed, upgrade, cursor_distance: self.cursor_distance() }
    }

    /// The spawn alarm fired for `entity`: marks it as an enemy.
    ///
    /// The result says whether one more spawn alarm has to be scheduled,
    /// which is when the enemies, this one included, are still fewer than
    /// `MIN_ENEMY_COUNT`.
    pub fn spawn_enemy(&mut self, entity: Entity) -> (respawn: bool)
        requires
            old(self).wf(),
        ensures
            final(self).wf(),
            final(self)@ == old(self)@.spawn_enemy(entity),
            respawn == final(self)@.spawn_due(),
    {
        self.enemies.assign(entity, Enemy);
        proof {
            lemma_with_entity(old(self)@.enemies, entity);
            assert(self@ =~= old(self)@.spawn_enemy(entity));
        }
        self.enemies.len() < MIN_ENEMY_COUNT
    }

    /// The first of `others` that is not an enemy.
    fn find_collider(&self, others: &[Entity]) -> (found: Option<Entity>)
        requires
            self.wf(),
        ensures
            found == first_collider(self@.enemies, others@),
    {
        let mut i: usize = 0;
        assert(others@.subrange(0, others@.len() as int) =~= others@);
        while i < others.len()
            invariant
                self.wf(),
                i <= others@.len(),
                first_collider(self@.enemies, others@) == first_collider(
                    self@.enemies,
                    others@.subrange(i as int, others@.len() as int),
                ),
            decreases others@.len() - i,
        {
            let other = others[i];
            proof {
                self.enemies.lemma_order_matches_view();
                let rest = others@.subrange(i as int, others@.len() as int);
                assert(rest.drop_first() =~= others@.subrange(i + 1, others@.len() as int));
            }
            if !self.enemies.contains(other) {
                return Some(other);
            }
            i += 1;
        }
        None
    }

    /// A collision was reported for the enemy `enemy_entity` against `others`.
    ///
    /// Other enemies among `others` are skipped. At the first that is not an
    /// enemy, `enemy_entity` is destroyed: it stops being an enemy, and the
    /// result asks for one spawn alarm if fewer than `MIN_ENEMY_COUNT`
    /// enemies are left. If all of `others` are enemies, nothing changes.
    pub fn on_enemy_collision(&mut self, enemy_entity: Entity, others: &[Entity]) -> (outcome:
        Collision)
        requires
            old(self).wf(),
        ensures
            final(self).wf(),
            final(self)@ == old(self)@.on_enemy_collision(enemy_entity, others@),
            outcome == old(self)@.collision_outcome(enemy_entity, others@),
            outcome is Ignored <==> forall|i: int|
                0 <= i < others@.len() ==> old(self)@.enemies.contains(#[trigger] others@[i]),
    {
        proof {
            lemma_first_collider(self@.enemies, others@);
        }
        match self.find_collider(others) {
            Some(other) => {
                self.enemies.remove(enemy_entity);
                proof {
                    lemma_without_entity(old(self)@.enemies, enemy_entity);
                    assert(self@ =~= old(self)@.on_enemy_collision(enemy_entity, others@));
                }
                let respawn = self.enemies.len() < MIN_ENEMY_COUNT;
                Collision::Destroyed { other, respawn }
            },
            None => Collision::Ignored,
        }
    }
}

} // verus!
