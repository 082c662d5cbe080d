//! Damage events. Each frame, the physics engine reports which entities the
//! player's attack area overlaps and which enemies touch the player's body;
//! one event is emitted per such entity. Entities are identified by the
//! engine's numeric ids.

use vstd::prelude::*;

verus! {

/// An event occurring when there's damage made to or by the player.
#[derive(Copy, Clone, Eq, PartialEq, Debug)]
pub enum DamageEvent {
    /// The player gives damage to the entity.
    Given(u64),
    /// The player takes damage from the entity.
    Taken(u64),
}

impl DamageEvent {
    /// The entity the event concerns.
    pub fn entity(&self) -> (e: u64)
        ensures
            *self matches DamageEvent::Given(g) ==> e == g,
            *self matches DamageEvent::Taken(t) ==> e == t,
    {
        match self {
            DamageEvent::Given(g) => *g,
            DamageEvent::Taken(t) => *t,
        }
    }
}

/// One event per reported entity: damage given if the player is the
/// attacker, damage taken otherwise. Order is kept.
pub fn damage_events_for(entities: &Vec<u64>, player_is_attacker: bool) -> (events: Vec<
    DamageEvent,
>)
    ensures
        events@.len() == entities@.len(),
        forall|i: int|
            0 <= i < entities@.len() ==> events@[i] == (if player_is_attacker {
                DamageEvent::Given(entities@[i])
            } else {
                DamageEvent::Taken(entities@[i])
            }),
{
    let mut events: Vec<DamageEvent> = Vec::new();
    let mut i: usize = 0;
    while i < entities.len()
        invariant
            i <= entities@.len(),
            events@.len() == i,
            forall|j: int|
                0 <= j < i ==> events@[j] == (if player_is_attacker {
                    DamageEvent::Given(entities@[j])
                } else {
                    DamageEvent::Taken(entities@[j])
                }),
        decreases entities@.len() - i,
    {
        let e: u64 = entities[i];
        if player_is_attacker {
            events.push(DamageEvent::Given(e));
        } else {
            events.push(DamageEvent::Taken(e));
        }
        i = i + 1;
    }
    events
}

} // verus!
