//! Level-to-level transitions. The world is a row of levels, each with its
//! rectangular bounds in world coordinates; the loaded level follows the
//! player: whichever level's bounds contain the player's position is
//! selected. Coordinates are in fixed-point sub-pixel world units.

use vstd::prelude::*;

verus! {

/// The world-space bounds of one level, half-open on the high edges.
#[derive(Copy, Clone, Eq, PartialEq, Debug)]
pub struct LevelBounds {
    pub min_x: i64,
    pub min_y: i64,
    pub max_x: i64,
    pub max_y: i64,
}

impl LevelBounds {
    /// Whether the point `(x, y)` lies inside these bounds.
    pub open spec fn spec_contains(&self, x: int, y: int) -> bool {
        &&& self.min_x <= x < self.max_x
        &&& self.min_y <= y < self.max_y
    }

    /// Whether the point `(x, y)` lies inside these bounds.
    pub fn contains(&self, x: i64, y: i64) -> (r: bool)
        ensures
            r == self.spec_contains(x as int, y as int),
    {
        self.min_x <= x && x < self.max_x && self.min_y <= y && y < self.max_y
    }
}

/// The level the player is in: the first level in the world whose bounds
/// contain the player's position, or none if the player is outside every
/// level.
pub fn select_level(levels: &Vec<LevelBounds>, x: i64, y: i64) -> (r: Option<usize>)
    ensures
        match r {
            Some(i) => i < levels@.len() && levels@[i as int].spec_contains(x as int, y as int)
                && forall|j: int|
                    0 <= j < i ==> !levels@[j].spec_contains(x as int, y as int),
            None => forall|j: int|
                0 <= j < levels@.len() ==> !levels@[j].spec_contains(x as int, y as int),
        },
{
    let mut i: usize = 0;
    while i < levels.len()
        invariant
            i <= levels@.len(),
            forall|j: int| 0 <= j < i ==> !levels@[j].spec_contains(x as int, y as int),
        decreases levels@.len() - i,
    {
        if levels[i].contains(x, y) {
            return Some(i);
        }
        i = i + 1;
    }
    None
}

} // verus!
