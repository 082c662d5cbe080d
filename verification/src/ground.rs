//! Ground sensing. A small sensor hangs under each foot-bearing entity; the
//! physics engine reports when the sensor starts or stops intersecting a
//! solid tile. The sensor keeps the set of ground entities it currently
//! intersects, and the entity is on ground exactly when that set is
//! non-empty. Entities are identified by the engine's numeric ids.

use vstd::prelude::*;
use crate::components::GroundDetection;

verus! {

/// The foot sensor of one entity: which entity's `GroundDetection` it
/// feeds, and the ground entities it currently intersects.
#[derive(Clone, Debug)]
pub struct GroundSensor {
    pub ground_detection_entity: u64,
    pub intersecting_ground_entities: Vec<u64>,
}

impl GroundSensor {
    /// Whether the sensor currently intersects ground entity `e`.
    pub open spec fn intersects(&self, e: u64) -> bool {
        self.intersecting_ground_entities@.contains(e)
    }

    /// Each intersecting ground entity is recorded once.
    pub open spec fn wf(&self) -> bool {
        self.intersecting_ground_entities@.no_duplicates()
    }

    /// A fresh sensor for the given entity, intersecting nothing.
    pub fn new(ground_detection_entity: u64) -> (s: GroundSensor)
        ensures
            s.wf(),
            s.ground_detection_entity == ground_detection_entity,
            forall|e: u64| !s.intersects(e),
    {
        GroundSensor { ground_detection_entity, intersecting_ground_entities: Vec::new() }
    }

    /// Whether ground entity `other` is currently intersected.
    pub fn is_intersecting(&self, other: u64) -> (r: bool)
        ensures
            r == self.intersects(other),
    {
        let mut i: usize = 0;
        while i < self.intersecting_ground_entities.len()
            invariant
                i <= self.intersecting_ground_entities@.len(),
                forall|j: int| 0 <= j < i ==> self.intersecting_ground_entities@[j] != other,
            decreases self.intersecting_ground_entities@.len() - i,
        {
            if self.intersecting_ground_entities[i] == other {
                return true;
            }
            i = i + 1;
        }
        false
    }

    /// The physics engine reported that the sensor started intersecting
    /// ground entity `other`: record it.
    pub fn ground_started(&mut self, other: u64)
        requires
            old(self).wf(),
        ensures
            final(self).wf(),
            final(self).ground_detection_entity == old(self).ground_detection_entity,
            forall|e: u64|
                final(self).intersects(e) == (old(self).intersects(e) || e == other),
    {
        if !self.is_intersecting(other) {
            let ghost before = self.intersecting_ground_entities@;
            self.intersecting_ground_entities.push(other);
            proof {
                assert forall|e: u64|
                    self.intersects(e) == (before.contains(e) || e == other) by {
                    if before.push(other).contains(e) {
                        let k = choose|k: int|
                            0 <= k < before.push(other).len() && before.push(other)[k] == e;
                        if k < before.len() {
                            assert(before[k] == e);
                        }
                    }
                    if before.contains(e) {
                        let k = choose|k: int| 0 <= k < before.len() && before[k] == e;
                        assert(before.push(other)[k] == e);
                    }
                    if e == other {
                        assert(before.push(other)[before.len() as int] == e);
                    }
                }
                assert forall|a: int, b: int|
                    0 <= a < before.push(other).len() && 0 <= b < before.push(other).len()
                        && a != b implies before.push(other)[a] != before.push(other)[b] by {
                    if a < before.len() && b < before.len() {
                        assert(before[a] != before[b]);
                    } else if b == before.len() {
                        assert(before[a] != other);
                    } else {
                        assert(before[b] != other);
                    }
                }
            }
        }
    }

    /// The index at which ground entity `other` is recorded, if any.
    fn index_of(&self, other: u64) -> (r: Option<usize>)
        ensures
            match r {
                Some(i) => i < self.intersecting_ground_entities@.len()
                    && self.intersecting_ground_entities@[i as int] == other,
                None => !self.intersects(other),
            },
    {
        let mut i: usize = 0;
        while i < self.intersecting_ground_entities.len()
            invariant
                i <= self.intersecting_ground_entities@.len(),
                forall|j: int| 0 <= j < i ==> self.intersecting_ground_entities@[j] != other,
            decreases self.intersecting_ground_entities@.len() - i,
        {
            if self.intersecting_ground_entities[i] == other {
                return Some(i);
            }
            i = i + 1;
        }
        None
    }

    /// The physics engine reported that the sensor stopped intersecting
    /// ground entity `other`: forget it.
    pub fn ground_stopped(&mut self, other: u64)
        requires
            old(self).wf(),
        ensures
            final(self).wf(),
            final(self).ground_detection_entity == old(self).ground_detection_entity,
            forall|e: u64|
                final(self).intersects(e) == (old(self).intersects(e) && e != other),
    {
        let found = self.index_of(other);
        match found {
            Some(i) => {
                let ghost s = self.intersecting_ground_entities@;
                self.intersecting_ground_entities.remove(i);
                proof {
                    s.remove_ensures(i as int);
                    let r = s.remove(i as int);
                    assert forall|e: u64| r.contains(e) == (s.contains(e) && e != other) by {
                        if r.contains(e) {
                            let k = choose|k: int| 0 <= k < r.len() && r[k] == e;
                            if k < i {
                                assert(s[k] == e);
                                assert(s[k] != s[i as int]);
                            } else {
                                assert(s[k + 1] == e);
                                assert(s[k + 1] != s[i as int]);
                            }
                        }
                        if s.contains(e) && e != other {
                            let k = choose|k: int| 0 <= k < s.len() && s[k] == e;
                            if k < i {
                                assert(r[k] == e);
                            } else {
                                assert(r[k - 1] == e);
                            }
                        }
                    }
                    assert forall|a: int, b: int|
                        0 <= a < r.len() && 0 <= b < r.len() && a != b implies r[a] != r[b] by {
                        let ra: int = if a < i { a } else { a + 1 };
                        let rb: int = if b < i { b } else { b + 1 };
                        assert(r[a] == s[ra]);
                        assert(r[b] == s[rb]);
                        assert(s[ra] != s[rb]);
                    }
                }
            },
            None => {},
        }
    }

    /// Whether the sensor intersects any ground entity at all.
    pub fn intersects_any(&self) -> (r: bool)
        ensures
            r == exists|e: u64| self.intersects(e),
    {
        let n: usize = self.intersecting_ground_entities.len();
        if n > 0 {
            proof {
                assert(self.intersects(self.intersecting_ground_entities@[0]));
            }
            true
        } else {
            false
        }
    }
}

/// Per-frame update: an entity stands on ground exactly when its foot
/// sensor intersects some ground entity.
pub fn update_on_ground(detection: &mut GroundDetection, sensor: &GroundSensor)
    ensures
        final(detection).on_ground == exists|e: u64| sensor.intersects(e),
{
    detection.on_ground = sensor.intersects_any();
}

} // verus!
