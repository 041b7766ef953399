//! The components that the game attaches to entities.

use crate::entity::{AlarmId, Entity};
use vstd::prelude::*;

verus! {

/// Fewest live enemies the spawner tolerates before it runs again.
pub const MIN_ENEMY_COUNT: usize = 5;

/// A unit owned by the player, standing on one grid cell.
#[derive(Debug, Clone, Copy, PartialEq, Eq, Structural)]
pub enum PlayerUnit {
    /// The base that the enemies walk towards.
    Base { level: usize },
    /// A turret. `shoot_alarm` names its repeating fire alarm, `target` the
    /// enemy it aims at, if any; neither is owned by the turret.
    Turret { level: usize, shoot_alarm: AlarmId, target: Option<Entity> },
}

/// Marks an entity as an enemy.
#[derive(Debug, Clone, Copy, PartialEq, Eq, Structural)]
pub struct Enemy;

impl PlayerUnit {
    /// The unit's level, as a specification value.
    pub open spec fn spec_level(self) -> usize {
        match self {
            PlayerUnit::Base { level } => level,
            PlayerUnit::Turret { level, .. } => level,
        }
    }

    /// The unit one level higher, everything else unchanged.
    pub open spec fn spec_upgraded(self) -> PlayerUnit {
        match self {
            PlayerUnit::Base { level } => PlayerUnit::Base { level: (level + 1) as usize },
            PlayerUnit::Turret { level, shoot_alarm, target } => PlayerUnit::Turret {
                level: (level + 1) as usize,
                shoot_alarm,
                target,
            },
        }
    }

    /// A freshly placed turret: level 1, no target yet.
    pub open spec fn spec_new_turret(shoot_alarm: AlarmId) -> PlayerUnit {
        PlayerUnit::Turret { level: 1, shoot_alarm, target: None }
    }

    /// A freshly placed turret: level 1, no target yet.
    pub fn new_turret(shoot_alarm: AlarmId) -> (unit: PlayerUnit)
        ensures
            unit == Self::spec_new_turret(shoot_alarm),
    {
        PlayerUnit::Turret { level: 1, shoot_alarm, target: None }
    }

    /// The unit's level.
    #[verifier::when_used_as_spec(spec_level)]
    pub fn level(self) -> (level: usize)
        ensures
            level == self.spec_level(),
    {
        match self {
            PlayerUnit::Base { level } => level,
            PlayerUnit::Turret { level, .. } => level,
        }
    }

    /// Raises the level by one. A turret keeps its alarm and its target.
    pub fn upgraded(self) -> (unit: PlayerUnit)
        requires
            self.spec_level() < usize::MAX,
        ensures
            unit == self.spec_upgraded(),
            unit.spec_level() == self.spec_level() + 1,
    {
        match self {
            PlayerUnit::Base { level } => PlayerUnit::Base { level: level + 1 },
            PlayerUnit::Turret { level, shoot_alarm, target } => PlayerUnit::Turret {
                level: level + 1,
                shoot_alarm,
                target,
            },
        }
    }
}

} // verus!
