//! The game's singleton state: the grid, the selection and the resources.

use crate::entity::Entity;
use crate::grid::GridPos;
use std::collections::HashMap;
use vstd::prelude::*;

verus! {

/// Resources that a new game starts with.
pub const STARTING_RESOURCES: usize = 10;

/// One number per cell, so that the grid can live in a hash map keyed by an
/// integer: both coordinates shifted to be non-negative, `x` in the high half.
spec fn cell_key(cell: GridPos) -> u128 {
    ((cell.x - isize::MIN) * 0x1_0000_0000_0000_0000 + (cell.y - isize::MIN)) as u128
}

/// Different cells have different keys: each shifted coordinate is below
/// `2^64`, so a key is `x * 2^64 + y` for one pair only.
proof fn lemma_cell_key_injective(a: GridPos, b: GridPos)
    requires
        cell_key(a) == cell_key(b),
    ensures
        a == b,
{
}

/// Computes `cell_key`.
fn key_of(cell: GridPos) -> (key: u128)
    ensures
        key == cell_key(cell),
{
    let hi: u128 = (cell.x as i128 - isize::MIN as i128) as u128;
    let lo: u128 = (cell.y as i128 - isize::MIN as i128) as u128;
    hi * 0x1_0000_0000_0000_0000 + lo
}

/// The state that exists once per game.
#[derive(Debug)]
pub struct GameData {
    /// A map between a grid coordinate and its contents, keyed by `cell_key`.
    grid: HashMap<u128, Entity>,
    /// The grid cell currently selected by the player.
    selected: GridPos,
    /// What the player can still spend on placing and upgrading units.
    resource_count: usize,
}

/// What a `GameData` holds, as mathematical values.
#[verifier::ext_equal]
pub struct GameDataView {
    /// The entity that occupies each occupied cell.
    pub grid: Map<GridPos, Entity>,
    /// The grid cell currently selected by the player.
    pub selected: GridPos,
    /// What the player can still spend.
    pub resource_count: nat,
}

impl View for GameData {
    type V = GameDataView;

    closed spec fn view(&self) -> GameDataView {
        GameDataView {
            grid: Map::new(
                |cell: GridPos| self.grid@.contains_key(cell_key(cell)),
                |cell: GridPos| self.grid@[cell_key(cell)],
            ),
            selected: self.selected,
            resource_count: self.resource_count as nat,
        }
    }
}

impl Clone for GameData {
    /// A copy that holds the same values.
    fn clone(&self) -> (copy: Self)
        ensures
            copy@ == self@,
    {
        GameData {
            grid: self.grid.clone(),
            selected: self.selected,
            resource_count: self.resource_count,
        }
    }
}

impl GameData {
    /// The state of a new game: an empty grid, the origin selected and
    /// `STARTING_RESOURCES` to spend.
    pub fn new() -> (data: GameData)
        ensures
            data@.grid == Map::<GridPos, Entity>::empty(),
            data@.selected == GridPos::origin(),
            data@.resource_count == STARTING_RESOURCES,
    {
        GameData {
            grid: HashMap::new(),
            selected: GridPos::new(0, 0),
            resource_count: STARTING_RESOURCES,
        }
    }

    /// The grid cell currently selected by the player.
    pub fn selected(&self) -> (cell: GridPos)
        ensures
            cell == self@.selected,
    {
        self.selected
    }

    /// What the player can still spend.
    pub fn resource_count(&self) -> (count: usize)
        ensures
            count == self@.resource_count,
    {
        self.resource_count
    }

    /// The entity that occupies `cell`, if any.
    pub fn occupant(&self, cell: GridPos) -> (entity: Option<Entity>)
        ensures
            entity == (if self@.grid.contains_key(cell) {
                Some(self@.grid[cell])
            } else {
                None
            }),
    {
        let key: u128 = key_of(cell);
        match self.grid.get(&key) {
            Some(entity) => Some(*entity),
            None => None,
        }
    }

    /// Whether an entity occupies `cell`.
    pub fn is_occupied(&self, cell: GridPos) -> (occupied: bool)
        ensures
            occupied == self@.grid.contains_key(cell),
    {
        let key: u128 = key_of(cell);
        self.grid.contains_key(&key)
    }

    /// Makes `cell` the selected cell.
    pub fn select(&mut self, cell: GridPos)
        ensures
            final(self)@ == (GameDataView { selected: cell, ..old(self)@ }),
    {
        self.selected = cell;
    }

    /// Records `entity` as the occupant of `cell`, in place of any other.
    pub fn occupy(&mut self, cell: GridPos, entity: Entity)
        ensures
            final(self)@ == (GameDataView {
                grid: old(self)@.grid.insert(cell, entity),
                ..old(self)@
            }),
    {
        let key: u128 = key_of(cell);
        self.grid.insert(key, entity);
        proof {
            // No other cell shares the key, so no other cell's occupant changed.
            assert forall|other: GridPos| other != cell implies cell_key(other) != cell_key(
                cell,
            ) by {
                if cell_key(other) == cell_key(cell) {
                    lemma_cell_key_injective(other, cell);
                }
            }
        }
    }

    /// Spends one resource.
    pub fn spend(&mut self)
        requires
            old(self)@.resource_count > 0,
        ensures
            final(self)@ == (GameDataView {
                resource_count: (old(self)@.resource_count - 1) as nat,
                ..old(self)@
            }),
    {
        self.resource_count = self.resource_count - 1;
    }
}

} // verus!
