//! Hydration: turning the map slots authored for kick bombs into live bombs, and
//! again after a bomb is gone.

use vstd::prelude::*;
use crate::assets::UntypedHandle;
use crate::commands::Command;
use crate::components::{ElementHandle, MapElementHydrated, Transform};
use crate::entity::Entity;
use crate::world::{EntityData, Resources, World, WorldView};

verus! {

/// What the map slot `i` is to be hydrated with: its position and the handle of the
/// kick bomb settings its element wraps. Nothing if the slot is not a live map slot
/// with a position, is hydrated already, or is authored for something else than a kick
/// bomb.
pub open spec fn dry_slot_spec(
    w: WorldView,
    res: &Resources,
    i: int,
) -> Option<(Transform, ElementHandle, UntypedHandle)> {
    let e = w.entities[i];
    match (e.element_handle, e.transform) {
        (Some(element_handle), Some(transform)) if e.alive && e.hydrated is None => match res.assets.element_spec(
            element_handle.0,
        ) {
            Some(element) if res.assets.kick_bomb_spec(element.data.index) is Some => Some(
                (transform, element_handle, element.data),
            ),
            _ => None,
        },
        _ => None,
    }
}

/// The world after slot `i` has been looked at for hydration. A map slot authored for
/// a kick bomb that is not hydrated is marked as hydrated, and the command that makes
/// its bomb is recorded. Any other slot is left alone.
pub open spec fn hydrate_entity_spec(w: WorldView, res: &Resources, i: int) -> WorldView
    recommends
        0 <= i < w.entities.len(),
{
    match dry_slot_spec(w, res, i) {
        Some((transform, element_handle, data)) => w.with(
            i,
            EntityData { hydrated: Some(MapElementHydrated), ..w.entities[i] },
        ).enqueue(
            Command::HydrateKickBomb {
                slot: Entity { index: i as usize },
                element_handle,
                transform,
                handle: data,
            },
        ),
        None => w,
    }
}

/// The world after the first `n` slots have been looked at for hydration, in ascending
/// order.
pub open spec fn hydrate_upto(w: WorldView, res: &Resources, n: int) -> WorldView
    decreases n,
{
    if n <= 0 {
        w
    } else {
        hydrate_entity_spec(hydrate_upto(w, res, n - 1), res, n - 1)
    }
}

/// The commands that make the bombs of the dry slots among the first `n`, in ascending
/// order of the slots.
pub open spec fn hydrations_upto(w: WorldView, res: &Resources, n: int) -> Seq<Command>
    decreases n,
{
    if n <= 0 {
        Seq::empty()
    } else {
        match dry_slot_spec(w, res, n - 1) {
            Some((transform, element_handle, data)) => hydrations_upto(w, res, n - 1).push(
                Command::HydrateKickBomb {
                    slot: Entity { index: (n - 1) as usize },
                    element_handle,
                    transform,
                    handle: data,
                },
            ),
            None => hydrations_upto(w, res, n - 1),
        }
    }
}

/// The world after the hydration pass has dealt with the first `n` slots: each dry slot
/// among them is marked as hydrated, and the commands that make their bombs are
/// recorded in ascending order of the slots.
pub open spec fn hydrate_pass_upto(w: WorldView, res: &Resources, n: int) -> WorldView {
    WorldView {
        entities: Seq::new(
            w.entities.len(),
            |j: int|
                if j < n && dry_slot_spec(w, res, j) is Some {
                    EntityData { hydrated: Some(MapElementHydrated), ..w.entities[j] }
                } else {
                    w.entities[j]
                },
        ),
        commands: w.commands + hydrations_upto(w, res, n),
        ..w
    }
}

/// Visiting the slots one after another gives the world in which every dry slot has
/// been dealt with once, on its own.
pub proof fn lemma_hydrate_pass(w: WorldView, res: &Resources, n: int)
    requires
        0 <= n <= w.entities.len(),
    ensures
        hydrate_upto(w, res, n) == hydrate_pass_upto(w, res, n),
    decreases n,
{
    if n > 0 {
        lemma_hydrate_pass(w, res, n - 1);
    }
}

fn hydrate_entity(world: &mut World, res: &Resources, i: usize)
    requires
        i < old(world)@.entities.len(),
    ensures
        final(world)@ == hydrate_entity_spec(old(world)@, res, i as int),
        final(world)@.entities.len() == old(world)@.entities.len(),
{
    let e = world.entities[i];
    if !e.alive || e.hydrated.is_some() {
        return ;
    }
    let (element_handle, transform) = match (e.element_handle, e.transform) {
        (Some(element_handle), Some(transform)) => (element_handle, transform),
        _ => {
            return ;
        },
    };
    // Check if the spawner's element handle is for a kick bomb.
    let element = match res.assets.element(element_handle.0) {
        Some(element) => element,
        None => {
            return ;
        },
    };
    if res.assets.kick_bomb(element.data.index).is_none() {
        return ;
    }
    let mut slot = e;
    slot.hydrated = Some(MapElementHydrated);
    world.put(i, slot);
    world.enqueue(
        Command::HydrateKickBomb { slot: Entity { index: i }, element_handle, transform, handle: element.data },
    );
}

/// Hydrates every map slot authored for a kick bomb that has no live bomb: the slot is
/// marked as hydrated, and the command that makes its bomb, an idle bomb at the slot's
/// position that refers back to the slot, is recorded for the next drain of the queue.
pub fn hydrate(world: &mut World, res: &Resources)
    ensures
        final(world)@ == hydrate_pass_upto(old(world)@, res, old(world)@.entities.len() as int),
        final(world)@ == hydrate_upto(old(world)@, res, old(world)@.entities.len() as int),
        final(world)@.entities.len() == old(world)@.entities.len(),
{
    proof {
        lemma_hydrate_pass(old(world)@, res, old(world)@.entities.len() as int);
    }
    let n = world.entities.len();
    let mut i: usize = 0;
    while i < n
        invariant
            i <= n,
            n == old(world)@.entities.len(),
            world@.entities.len() == n,
            world@ == hydrate_upto(old(world)@, res, i as int),
        decreases n - i,
    {
        hydrate_entity(world, res, i);
        i = i + 1;
    }
}

/// A map slot is hydrated once: after the pass has looked at a slot, the slot is
/// hydrated or was not due, and looking at it again changes nothing. So no slot gets a
/// second live bomb while the first is there.
pub proof fn lemma_hydrate_once(w: WorldView, res: &Resources, i: int)
    requires
        0 <= i < w.entities.len(),
    ensures
        ({
            let after = hydrate_entity_spec(w, res, i);
            &&& dry_slot_spec(after, res, i) is None
            &&& hydrate_entity_spec(after, res, i) == after
            &&& w.entities[i].hydrated is Some ==> after == w
            &&& dry_slot_spec(w, res, i) is Some ==> after.entities[i].hydrated is Some
        }),
{
}

} // verus!
