//! Lifetimes of transient entities.

use vstd::prelude::*;
use crate::commands::Command;
use crate::components::Lifetime;
use crate::entity::Entity;
use crate::schedule::{CoreStage, SessionBuilder, SystemId};
use crate::world::{EntityData, Resources, World, WorldView};

verus! {

impl Lifetime {
    /// The lifetime after `delta` more nanoseconds. The count stops at the top of its
    /// range.
    pub open spec fn aged(self, delta: u64) -> Lifetime {
        Lifetime {
            age: if self.age + delta > u64::MAX {
                u64::MAX
            } else {
                (self.age + delta) as u64
            },
            ..self
        }
    }

    /// Time left to live.
    pub open spec fn remaining_spec(self) -> int {
        if self.age >= self.lifetime {
            0
        } else {
            self.lifetime - self.age
        }
    }

    /// The entity has lived its time.
    pub open spec fn expired(self) -> bool {
        self.age >= self.lifetime
    }

    /// Counts `delta` more nanoseconds.
    pub fn tick(&mut self, delta: u64)
        ensures
            *final(self) == old(self).aged(delta),
    {
        if delta > u64::MAX - self.age {
            self.age = u64::MAX;
        } else {
            self.age = self.age + delta;
        }
    }

    /// Whether the entity has lived its time.
    pub fn is_expired(&self) -> (b: bool)
        ensures
            b == self.expired(),
    {
        self.age >= self.lifetime
    }
}

/// The world after the lifetime in slot `i`, if there is one, has counted this tick. An
/// entity that has lived its time has its destruction recorded.
pub open spec fn lifetime_entity_spec(w: WorldView, res: &Resources, i: int) -> WorldView
    recommends
        0 <= i < w.entities.len(),
{
    let e = w.entities[i];
    match e.lifetime {
        Some(lifetime) if e.alive => {
            let aged = lifetime.aged(res.time.delta);
            let w = w.with(i, EntityData { lifetime: Some(aged), ..e });
            if aged.expired() {
                w.enqueue(Command::DestroyEntity { entity: Entity { index: i as usize } })
            } else {
                w
            }
        },
        _ => w,
    }
}

/// The world after the lifetimes in the first `n` slots have counted this tick.
pub open spec fn lifetimes_upto(w: WorldView, res: &Resources, n: int) -> WorldView
    decreases n,
{
    if n <= 0 {
        w
    } else {
        lifetime_entity_spec(lifetimes_upto(w, res, n - 1), res, n - 1)
    }
}

/// The lifetime in slot `i` runs out on this tick, or has run out before.
pub open spec fn expires_at(w: WorldView, res: &Resources, i: int) -> bool {
    match w.entities[i].lifetime {
        Some(lifetime) => w.entities[i].alive && lifetime.aged(res.time.delta).expired(),
        None => false,
    }
}

/// The commands that destroy the entities among the first `n` slots that have lived
/// their time, in ascending order of the slots.
pub open spec fn expiries_upto(w: WorldView, res: &Resources, n: int) -> Seq<Command>
    decreases n,
{
    if n <= 0 {
        Seq::empty()
    } else if expires_at(w, res, n - 1) {
        expiries_upto(w, res, n - 1).push(Command::DestroyEntity { entity: Entity { index: (n - 1) as usize } })
    } else {
        expiries_upto(w, res, n - 1)
    }
}

/// The world after the lifetime pass has dealt with the first `n` slots: each lifetime
/// among them has counted this tick, and the destruction of each entity that has lived
/// its time is recorded, in ascending order of the slots.
pub open spec fn lifetime_pass_upto(w: WorldView, res: &Resources, n: int) -> WorldView {
    WorldView {
        entities: Seq::new(
            w.entities.len(),
            |j: int|
                match w.entities[j].lifetime {
                    Some(lifetime) if j < n && w.entities[j].alive => EntityData {
                        lifetime: Some(lifetime.aged(res.time.delta)),
                        ..w.entities[j]
                    },
                    _ => w.entities[j],
                },
        ),
        commands: w.commands + expiries_upto(w, res, n),
        ..w
    }
}

/// Visiting the slots one after another deals with every lifetime once, on its own.
pub proof fn lemma_lifetime_pass(w: WorldView, res: &Resources, n: int)
    requires
        0 <= n <= w.entities.len(),
    ensures
        lifetimes_upto(w, res, n) == lifetime_pass_upto(w, res, n),
    decreases n,
{
    if n > 0 {
        lemma_lifetime_pass(w, res, n - 1);
    }
}

/// Counts the tick on every lifetime and records the destruction of each entity that
/// has lived its time. The entities are gone after the next drain of the queue.
pub fn update_lifetimes(world: &mut World, res: &Resources)
    ensures
        final(world)@ == lifetime_pass_upto(old(world)@, res, old(world)@.entities.len() as int),
        final(world)@ == lifetimes_upto(old(world)@, res, old(world)@.entities.len() as int),
        final(world)@.entities.len() == old(world)@.entities.len(),
{
    proof {
        lemma_lifetime_pass(old(world)@, res, old(world)@.entities.len() as int);
    }
    let n = world.entities.len();
    let mut i: usize = 0;
    while i < n
        invariant
            i <= n,
            n == old(world)@.entities.len(),
            world@.entities.len() == n,
            world@ == lifetimes_upto(old(world)@, res, i as int),
        decreases n - i,
    {
        let e = world.entities[i];
        if e.alive {
            if let Some(lifetime) = e.lifetime {
                let mut aged = lifetime;
                aged.tick(res.time.delta);
                let mut slot = e;
                slot.lifetime = Some(aged);
                world.put(i, slot);
                if aged.is_expired() {
                    world.enqueue(Command::DestroyEntity { entity: Entity { index: i } });
                }
            }
        }
        i = i + 1;
    }
}

/// Installs the lifetimes, which are counted in the first stage.
pub fn install(session: &mut SessionBuilder)
    ensures
        final(session).stages@ == old(session).stages@.add(CoreStage::First, SystemId::Lifetimes),
        final(session).schemas == old(session).schemas,
{
    session.stages.add_system_to_stage(CoreStage::First, SystemId::Lifetimes);
}

/// Time left to live never grows and never goes below zero, and an entity that has
/// lived its time stays that way.
pub proof fn lemma_lifetime_runs_down(lifetime: Lifetime, delta: u64)
    ensures
        0 <= lifetime.aged(delta).remaining_spec() <= lifetime.remaining_spec(),
        lifetime.expired() ==> lifetime.aged(delta).expired(),
        lifetime.aged(delta).expired() <==> lifetime.age + delta >= lifetime.lifetime,
{
}

} // verus!
