//! Patrol routes for enemies. A route is the list of waypoints an enemy
//! walks: its spawn point first, then the points drawn in the level editor.
//! The enemy walks the list forward to its last point, turns, walks it back
//! to the first, and so on (ping-pong, not a loop).
//!
//! Coordinates are in fixed-point sub-pixel world units, so they stay
//! integral after the level loader's pivot adjustments.

use vstd::prelude::*;

verus! {

/// A waypoint position in fixed-point sub-pixel world units.
#[derive(Copy, Clone, Eq, PartialEq, Debug)]
pub struct PatrolPoint {
    pub x: i64,
    pub y: i64,
}

/// A patrol route and the enemy's position on it: the waypoint currently
/// walked toward, and the direction of travel along the list.
#[derive(Clone, Debug, PartialEq)]
pub struct Patrol {
    pub points: Vec<PatrolPoint>,
    pub index: usize,
    pub forward: bool,
}

/// The direction of travel after a waypoint is reached: turn forward at the
/// first waypoint, backward at the last, keep going otherwise.
pub open spec fn spec_next_forward(p: Patrol) -> bool {
    if p.index == 0 {
        true
    } else if p.index == p.points@.len() - 1 {
        false
    } else {
        p.forward
    }
}

impl Patrol {
    /// On a route with more than one waypoint, the target index is in
    /// bounds. (A one-point route is never walked, so its index is free.)
    pub open spec fn wf(&self) -> bool {
        self.points@.len() > 1 ==> self.index < self.points@.len()
    }

    /// Build the route the level loader found for an enemy: the spawn point
    /// first, then the drawn waypoints, with the enemy heading forward
    /// toward the second point.
    pub fn from_points(spawn: PatrolPoint, rest: Vec<PatrolPoint>) -> (p: Patrol)
        ensures
            p.points@ == seq![spawn] + rest@,
            p.index == 1,
            p.forward,
            p.wf(),
    {
        let mut points: Vec<PatrolPoint> = Vec::new();
        points.push(spawn);
        let mut i: usize = 0;
        while i < rest.len()
            invariant
                i <= rest@.len(),
                points@ == seq![spawn] + rest@.subrange(0, i as int),
            decreases rest@.len() - i,
        {
            points.push(rest[i]);
            proof {
                assert(rest@.subrange(0, i + 1) == rest@.subrange(0, i as int).push(rest@[i as int]));
            }
            i = i + 1;
        }
        proof {
            assert(rest@.subrange(0, rest@.len() as int) == rest@);
        }
        Patrol { points, index: 1, forward: true }
    }

    /// The waypoint the enemy is currently walking toward.
    pub fn target(&self) -> (t: PatrolPoint)
        requires
            self.wf(),
            self.points@.len() > 1,
        ensures
            t == self.points@[self.index as int],
    {
        self.points[self.index]
    }

    /// Step to the next waypoint once the current one is reached: turn at
    /// either end of the route, then move the target index one step in the
    /// direction of travel. The route itself never changes.
    pub fn advance(&mut self)
        requires
            old(self).wf(),
            old(self).points@.len() > 1,
        ensures
            final(self).points@ == old(self).points@,
            final(self).forward == spec_next_forward(*old(self)),
            final(self).index == if spec_next_forward(*old(self)) {
                old(self).index + 1
            } else {
                old(self).index - 1
            },
            final(self).wf(),
    {
        if self.index == 0 {
            self.forward = true;
        } else if self.index == self.points.len() - 1 {
            self.forward = false;
        }
        if self.forward {
            self.index = self.index + 1;
        } else {
            self.index = self.index - 1;
        }
    }
}

} // verus!
