//! The game as a mathematical state machine.
//!
//! `GameView` is the state; each gameplay event is a function from one state
//! to the next. The executable `Game` promises to follow these functions.

use crate::data::STARTING_RESOURCES;
use crate::entity::{AlarmId, Entity};
use crate::grid::{manhattan, GridPos};
use crate::manager::{with_entity, without_entity};
use crate::units::{PlayerUnit, MIN_ENEMY_COUNT};
use vstd::prelude::*;

verus! {

/// The first entity of `others` that is not in `enemies`, if there is one.
pub open spec fn first_collider(enemies: Seq<Entity>, others: Seq<Entity>) -> Option<Entity>
    decreases others.len(),
{
    if others.len() == 0 {
        None
    } else if !enemies.contains(others[0]) {
        Some(others[0])
    } else {
        first_collider(enemies, others.drop_first())
    }
}

/// `first_collider` finds something exactly when some entity of `others` is
/// not an enemy, and what it finds is the first such entity.
pub proof fn lemma_first_collider(enemies: Seq<Entity>, others: Seq<Entity>)
    ensures
        first_collider(enemies, others) is Some <==> exists|i: int|
            0 <= i < others.len() && !enemies.contains(#[trigger] others[i]),
        first_collider(enemies, others) matches Some(other) ==> exists|i: int|
            ({
                &&& 0 <= i < others.len()
                &&& #[trigger] others[i] == other
                &&& !enemies.contains(other)
                &&& forall|j: int| 0 <= j < i ==> enemies.contains(#[trigger] others[j])
            }),
    decreases others.len(),
{
    if others.len() > 0 && enemies.contains(others[0]) {
        // The search goes on behind the first entity, where slot `i` holds
        // what `others` holds in slot `i + 1`.
        let rest = others.drop_first();
        lemma_first_collider(enemies, rest);
        if let Some(other) = first_collider(enemies, rest) {
            let i: int = choose|i: int|
                ({
                    &&& 0 <= i < rest.len()
                    &&& #[trigger] rest[i] == other
                    &&& !enemies.contains(other)
                    &&& forall|j: int| 0 <= j < i ==> enemies.contains(#[trigger] rest[j])
                });
            assert(others[i + 1] == other);
            assert forall|j: int| 0 <= j < i + 1 implies enemies.contains(#[trigger] others[j]) by {
                if j > 0 {
                    assert(rest[j - 1] == others[j]);
                }
            }
        }
        if exists|i: int| 0 <= i < others.len() && !enemies.contains(#[trigger] others[i]) {
            let i: int = choose|i: int|
                0 <= i < others.len() && !enemies.contains(#[trigger] others[i]);
            assert(rest[i - 1] == others[i]);
        }
    }
}

/// What the host has to do after an upgrade request.
#[derive(Debug, Clone, Copy, PartialEq, Eq, Structural)]
pub enum Upgrade {
    /// Nothing was upgraded and nothing was spent.
    Nothing,
    /// The base `entity` rose to `level`; its visual scale follows the level.
    Base { entity: Entity, level: usize },
    /// The turret `entity` rose to `level`.
    Turret { entity: Entity, level: usize },
}

/// What one frame of the update system did, for the host to act on.
#[derive(Debug, Clone, Copy, PartialEq, Eq, Structural)]
pub struct Frame {
    /// Whether the turret that the host created was placed.
    pub placed: bool,
    /// What was upgraded, if anything.
    pub upgrade: Upgrade,
    /// Manhattan distance, in cells, between the base's cell and the selected
    /// cell. The camera backs off by this much.
    pub cursor_distance: u128,
}

/// How a collision reported for an enemy ended.
#[derive(Debug, Clone, Copy, PartialEq, Eq, Structural)]
pub enum Collision {
    /// Every other collider was an enemy: nothing happens.
    Ignored,
    /// The enemy ran into `other` and is destroyed. With `respawn` set, one
    /// spawn alarm has to be scheduled.
    Destroyed { other: Entity, respawn: bool },
}

impl Collision {
    /// How many spawn alarms the host has to schedule: one or none.
    pub open spec fn spawn_alarms(self) -> nat {
        match self {
            Collision::Destroyed { respawn: true, .. } => 1,
            _ => 0,
        }
    }
}

/// The whole gameplay state, as mathematical values.
#[verifier::ext_equal]
pub struct GameView {
    /// The entity that occupies each occupied cell.
    pub grid: Map<GridPos, Entity>,
    /// The grid cell currently selected by the player.
    pub selected: GridPos,
    /// What the player can still spend.
    pub resource_count: nat,
    /// The player unit of each entity that is one.
    pub units: Map<Entity, PlayerUnit>,
    /// The live enemies, in the order in which they spawned.
    pub enemies: Seq<Entity>,
}

impl GameView {
    /// What every reachable state satisfies.
    ///
    /// No enemy is listed twice; whatever occupies a cell is a player unit;
    /// resources are never gained; and no unit has been upgraded more often
    /// than resources were spent.
    pub open spec fn wf(self) -> bool {
        &&& self.enemies.no_duplicates()
        &&& forall|cell: GridPos| #[trigger]
            self.grid.contains_key(cell) ==> self.units.contains_key(self.grid[cell])
        &&& forall|entity: Entity| #[trigger]
            self.units.contains_key(entity) ==> self.units[entity].spec_level()
                + self.resource_count <= STARTING_RESOURCES + 1
        &&& self.resource_count <= STARTING_RESOURCES
    }

    /// The state before the scene is set up.
    pub open spec fn initial() -> GameView {
        GameView {
            grid: Map::empty(),
            selected: GridPos::origin(),
            resource_count: STARTING_RESOURCES as nat,
            units: Map::empty(),
            enemies: Seq::empty(),
        }
    }

    /// Scene setup: `base` becomes a level-1 base on the origin cell.
    pub open spec fn scene_setup(self, base: Entity) -> GameView {
        GameView {
            grid: self.grid.insert(GridPos::origin(), base),
            units: self.units.insert(base, PlayerUnit::Base { level: 1 }),
            ..self
        }
    }

    /// Whether fewer enemies live than the spawner tolerates.
    pub open spec fn spawn_due(self) -> bool {
        self.enemies.len() < MIN_ENEMY_COUNT
    }

    /// The cursor moved: `cell` is selected.
    pub open spec fn select(self, cell: GridPos) -> GameView {
        GameView { selected: cell, ..self }
    }

    /// Whether a turret can be placed: a resource is left and the selected
    /// cell is free.
    pub open spec fn can_place(self) -> bool {
        self.resource_count > 0 && !self.grid.contains_key(self.selected)
    }

    /// Whether the host has to create a turret entity: the primary button
    /// is pressed and a turret can be placed.
    pub open spec fn turret_due(self, pressed: bool) -> bool {
        pressed && self.can_place()
    }

    /// Placing the turret `entity` on the selected cell. Without a resource,
    /// or on an occupied cell, nothing changes.
    pub open spec fn place_turret(self, entity: Entity, shoot_alarm: AlarmId) -> GameView {
        if self.can_place() {
            GameView {
                grid: self.grid.insert(self.selected, entity),
                units: self.units.insert(entity, PlayerUnit::spec_new_turret(shoot_alarm)),
                resource_count: (self.resource_count - 1) as nat,
                ..self
            }
        } else {
            self
        }
    }

    /// Whether an upgrade can happen: a resource is left and the selected
    /// cell is occupied.
    pub open spec fn can_upgrade(self) -> bool {
        self.resource_count > 0 && self.grid.contains_key(self.selected)
    }

    /// Upgrading the occupant of the selected cell, if `pressed` asks for it.
    pub open spec fn upgrade_selected(self, pressed: bool) -> GameView {
        if pressed && self.can_upgrade() {
            let entity = self.grid[self.selected];
            GameView {
                units: self.units.insert(entity, self.units[entity].spec_upgraded()),
                resource_count: (self.resource_count - 1) as nat,
                ..self
            }
        } else {
            self
        }
    }

    /// What `upgrade_selected` reports to the host.
    pub open spec fn upgrade_outcome(self, pressed: bool) -> Upgrade {
        if pressed && self.can_upgrade() {
            let entity = self.grid[self.selected];
            let level: usize = self.units[entity].spec_upgraded().spec_level();
            match self.units[entity] {
                PlayerUnit::Base { .. } => Upgrade::Base { entity, level },
                PlayerUnit::Turret { .. } => Upgrade::Turret { entity, level },
            }
        } else {
            Upgrade::Nothing
        }
    }

    /// Whether the host has to create a turret entity in a frame that selects
    /// `cell` while the primary button is in the state `pressed`.
    pub open spec fn turret_due_at(self, cell: GridPos, pressed: bool) -> bool {
        self.select(cell).turret_due(pressed)
    }

    /// The state in the middle of a frame: `cell` is selected and, with the
    /// primary button pressed, the turret that the host created is placed.
    pub open spec fn frame_placement(
        self,
        cell: GridPos,
        primary: bool,
        turret: Option<(Entity, AlarmId)>,
    ) -> GameView {
        match turret {
            Some((entity, shoot_alarm)) if primary => self.select(cell).place_turret(
                entity,
                shoot_alarm,
            ),
            _ => self.select(cell),
        }
    }

    /// One frame of the update system: the cursor selects `cell`, then the
    /// primary button places the turret that the host created, then the
    /// secondary button upgrades what stands on the selected cell, which may
    /// be the turret just placed.
    pub open spec fn manager_update(
        self,
        cell: GridPos,
        primary: bool,
        secondary: bool,
        turret: Option<(Entity, AlarmId)>,
    ) -> GameView {
        self.frame_placement(cell, primary, turret).upgrade_selected(secondary)
    }

    /// What `manager_update` reports to the host.
    pub open spec fn frame_outcome(
        self,
        cell: GridPos,
        primary: bool,
        secondary: bool,
        turret: Option<(Entity, AlarmId)>,
    ) -> Frame {
        Frame {
            placed: turret is Some && self.turret_due_at(cell, primary),
            upgrade: self.frame_placement(cell, primary, turret).upgrade_outcome(secondary),
            cursor_distance: manhattan(GridPos::origin(), cell) as u128,
        }
    }

    /// The spawn alarm fired for `entity`: it is an enemy from now on.
    pub open spec fn spawn_enemy(self, entity: Entity) -> GameView {
        GameView { enemies: with_entity(self.enemies, entity), ..self }
    }

    /// The enemy `enemy` collided with `others`. It is destroyed if one of
    /// them is not an enemy.
    pub open spec fn on_enemy_collision(self, enemy: Entity, others: Seq<Entity>) -> GameView {
        if first_collider(self.enemies, others) is Some {
            GameView { enemies: without_entity(self.enemies, enemy), ..self }
        } else {
            self
        }
    }

    /// What `on_enemy_collision` reports to the host.
    pub open spec fn collision_outcome(self, enemy: Entity, others: Seq<Entity>) -> Collision {
        match first_collider(self.enemies, others) {
            Some(other) => Collision::Destroyed {
                other,
                respawn: self.on_enemy_collision(enemy, others).spawn_due(),
            },
            None => Collision::Ignored,
        }
    }
}

} // verus!
