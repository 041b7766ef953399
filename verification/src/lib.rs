//! Gameplay rules of a grid-based tower-defense game.
//!
//! The crate holds the part of the game that decides: what stands on which
//! grid cell, whether a turret may be placed or a unit upgraded and what that
//! costs, when the enemy spawner has to run again, and how a collision ends.
//! A host engine owns rendering, input, timers and entity allocation; it
//! feeds the functions here with plain values and carries out what they
//! return.
//!
//! - `grid`: cell coordinates and their arithmetic.
//! - `entity`: handles for the host's entities and alarms.
//! - `manager`: the store that holds one component per entity.
//! - `units`: the components of the game.
//! - `data`: the singleton state, with the grid, the selection and the
//!   resources.
//! - `model`: the game as a mathematical state machine.
//! - `game`: the executable state, whose methods follow the state machine.
//! - `laws`: what holds of every state and every event.

pub mod data;
pub mod entity;
pub mod game;
pub mod grid;
pub mod laws;
pub mod manager;
pub mod model;
pub mod units;

pub use data::{GameData, GameDataView, STARTING_RESOURCES};
pub use entity::{AlarmId, Entity};
pub use game::Game;
pub use grid::GridPos;
pub use manager::ComponentManager;
pub use model::{Collision, Frame, GameView, Upgrade};
pub use units::{Enemy, PlayerUnit, MIN_ENEMY_COUNT};
