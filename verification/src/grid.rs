//! Grid addressing: discrete cell coordinates and their arithmetic.

use vstd::prelude::*;
use vstd::std_specs::ops::SubSpecImpl;

verus! {

/// A coordinate in the 2D game grid.
///
/// The grid lies in the global x-y plane. A grid position names the minimum
/// corner of its cell, so `(5, 3)` covers the cell between `(5, 3)` and
/// `(6, 4)` in units of one cell width.
#[derive(Debug, Clone, Copy, PartialOrd, Ord, PartialEq, Eq, Hash, Structural)]
pub struct GridPos {
    pub x: isize,
    pub y: isize,
}

/// Absolute value of a mathematical integer.
pub open spec fn abs(v: int) -> nat {
    if v < 0 {
        (-v) as nat
    } else {
        v as nat
    }
}

/// Manhattan distance between two cells, over unbounded integers.
pub open spec fn manhattan(a: GridPos, b: GridPos) -> nat {
    abs(a.x - b.x) + abs(a.y - b.y)
}

impl GridPos {
    /// The cell with the given coordinates, as a specification value.
    pub open spec fn spec_new(x: isize, y: isize) -> GridPos {
        GridPos { x, y }
    }

    /// The cell with the given coordinates.
    #[verifier::when_used_as_spec(spec_new)]
    pub fn new(x: isize, y: isize) -> (pos: GridPos)
        ensures
            pos == Self::spec_new(x, y),
    {
        GridPos { x, y }
    }

    /// The cell that holds the player's base.
    pub open spec fn origin() -> GridPos {
        GridPos { x: 0, y: 0 }
    }

    /// Whether `self - rhs` is representable, coordinate by coordinate.
    pub open spec fn can_sub(self, rhs: GridPos) -> bool {
        &&& isize::MIN <= self.x - rhs.x <= isize::MAX
        &&& isize::MIN <= self.y - rhs.y <= isize::MAX
    }

    /// `self - rhs`, or `None` where a coordinate of the difference does not
    /// fit.
    pub fn checked_sub(self, rhs: GridPos) -> (diff: Option<GridPos>)
        ensures
            diff is Some <==> self.can_sub(rhs),
            diff matches Some(d) ==> d.x == self.x - rhs.x && d.y == self.y - rhs.y,
    {
        match (self.x.checked_sub(rhs.x), self.y.checked_sub(rhs.y)) {
            (Some(x), Some(y)) => Some(GridPos { x, y }),
            _ => None,
        }
    }

    /// Manhattan distance to `other`: `|self.x - other.x| + |self.y - other.y|`.
    ///
    /// The result is wide enough for any pair of cells, so the function is total.
    pub fn manhattan_distance(self, other: GridPos) -> (d: u128)
        ensures
            d == manhattan(self, other),
    {
        let dx: i128 = self.x as i128 - other.x as i128;
        let dy: i128 = self.y as i128 - other.y as i128;
        let ax: u128 = if dx < 0 { (-dx) as u128 } else { dx as u128 };
        let ay: u128 = if dy < 0 { (-dy) as u128 } else { dy as u128 };
        ax + ay
    }
}

impl core::ops::Sub for GridPos {
    type Output = GridPos;

    /// Component-wise subtraction.
    fn sub(self, rhs: GridPos) -> (diff: GridPos) {
        GridPos { x: self.x - rhs.x, y: self.y - rhs.y }
    }
}

impl SubSpecImpl for GridPos {
    open spec fn obeys_sub_spec() -> bool {
        true
    }

    open spec fn sub_req(self, rhs: GridPos) -> bool {
        self.can_sub(rhs)
    }

    open spec fn sub_spec(self, rhs: GridPos) -> GridPos {
        GridPos { x: (self.x - rhs.x) as isize, y: (self.y - rhs.y) as isize }
    }
}

} // verus!
