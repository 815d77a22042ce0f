//! One live bomb per map slot.
//!
//! A map slot and the bomb made for it are tied in both directions: the slot carries
//! the hydration mark while its bomb lives, and the bomb refers back to the slot. A
//! bomb that has gone off is still there until the drain at the end of the stage
//! destroys it; in the meantime its slot is free again. This module states what it
//! means for those ties to be in order, and proves that a tick keeps them in order as
//! long as no stage runs the pass over the lit bombs twice. In a world so ordered no
//! slot has two live bombs when a tick is over.

use vstd::prelude::*;
use crate::commands::{apply_upto, drain_spec, lemma_drain_empties_queue, Command};
use crate::components::DehydrateOutOfBounds;
use crate::debug::{damage_outline_spec, damage_outlines_upto, emote_outline_spec, emote_outlines_upto};
use crate::entity::Entity;
use crate::hydration::{hydrate_entity_spec, hydrate_upto};
use crate::idle_bombs::{update_idle_entity_spec, update_idle_upto};
use crate::inventories::PlayerInventories;
use crate::item::{drop_seat_spec, drop_upto, grab_entity_spec, grab_upto, Inv};
use crate::item_throw::{throw_entity_spec, throw_upto};
use crate::lifetime::{lifetime_entity_spec, lifetimes_upto};
use crate::lit_bombs::{update_lit_entity_spec, update_lit_upto};
use crate::player_state::{age_entity_spec, age_upto};
use crate::schedule::{StagesView, SystemId};
use crate::tick::{run_stage_spec, run_system_spec, run_systems_upto, run_tick_spec};
use crate::tick_laws::lemma_systems_keep_entities;
use crate::walk::{transition_entity_spec, transition_upto, update_entity_spec, update_upto};
use crate::world::{Resources, WorldView};

verus! {

/// The command destroys the bomb in slot `e`, having gone off.
pub open spec fn blows_up(command: Command, e: int) -> bool {
    match command {
        Command::Explode { entity, .. } => entity.index == e,
        _ => false,
    }
}

/// The entity in slot `e` is on its way out: one of the commands of the queue from
/// position `from` up to, not including, position `upto` blows it up.
pub open spec fn doomed(queue: Seq<Command>, from: int, upto: int, e: int) -> bool {
    exists|j: int| from <= j < upto && j < queue.len() && #[trigger] blows_up(queue[j], e)
}

/// The entity in slot `e` is a live bomb of the map slot `s`.
pub open spec fn bomb_of(w: WorldView, e: int, s: Entity) -> bool {
    0 <= e < w.entities.len() && w.entities[e].alive && w.entities[e].dehydrate_out_of_bounds == Some(
        DehydrateOutOfBounds(s),
    )
}

/// The map slot `s` exists and does not carry the hydration mark.
pub open spec fn unmarked(w: WorldView, s: Entity) -> bool {
    w.live(s) && w.at(s).hydrated is None
}

/// No two live bombs that are to stay are bombs of the same map slot.
pub open spec fn one_bomb_per_slot(w: WorldView, queue: Seq<Command>, from: int) -> bool {
    forall|e1: int, e2: int|
        #![trigger w.entities[e1], w.entities[e2]]
        0 <= e1 < w.entities.len() && 0 <= e2 < w.entities.len() && w.entities[e1].alive
            && w.entities[e2].alive && w.entities[e1].dehydrate_out_of_bounds is Some
            && w.entities[e1].dehydrate_out_of_bounds == w.entities[e2].dehydrate_out_of_bounds && !doomed(
            queue,
            from,
            queue.len() as int,
            e1,
        ) && !doomed(queue, from, queue.len() as int, e2) ==> e1 == e2
}

/// The slot of every live bomb is a slot of the store, and, unless the bomb is on its
/// way out, is marked while it exists.
pub open spec fn bombs_have_marked_slots(w: WorldView, queue: Seq<Command>, from: int) -> bool {
    forall|e: int|
        0 <= e < w.entities.len() && (#[trigger] w.entities[e]).alive ==> match w.entities[e].dehydrate_out_of_bounds {
            Some(slot) => slot.0.index < w.entities.len() && (!doomed(queue, from, queue.len() as int, e)
                ==> !unmarked(w, slot.0)),
            None => true,
        }
}

/// Every command from position `from` onward that makes the bomb of a map slot finds
/// that slot in the store, marked if it exists, and every live bomb of the slot blown
/// up by a command before it. And every command that blows up a bomb names a slot of
/// the store.
pub open spec fn pending_in_order(w: WorldView, queue: Seq<Command>, from: int) -> bool {
    forall|k: int|
        from <= k < queue.len() ==> match #[trigger] queue[k] {
            Command::HydrateKickBomb { slot, .. } => slot.index < w.entities.len() && !unmarked(w, slot)
                && forall|e: int|
                0 <= e < w.entities.len() && (#[trigger] w.entities[e]).alive
                    && w.entities[e].dehydrate_out_of_bounds == Some(DehydrateOutOfBounds(slot)) ==> doomed(
                    queue,
                    from,
                    k,
                    e,
                ),
            Command::Explode { entity, .. } => entity.index < w.entities.len(),
            _ => true,
        }
}

/// From position `from` of the queue onward, no two commands make the bomb of the same
/// map slot.
pub open spec fn pending_bombs_differ(queue: Seq<Command>, from: int) -> bool {
    forall|k1: int, k2: int|
        #![trigger queue[k1], queue[k2]]
        from <= k1 < queue.len() && from <= k2 < queue.len() ==> match (queue[k1], queue[k2]) {
            (Command::HydrateKickBomb { slot: s1, .. }, Command::HydrateKickBomb { slot: s2, .. }) => s1 == s2
                ==> k1 == k2,
            _ => true,
        }
}

/// The ties between map slots and bombs are in order, in the world and in what is left
/// of the queue from position `from` onward.
pub open spec fn slots_in_order(w: WorldView, queue: Seq<Command>, from: int) -> bool {
    &&& one_bomb_per_slot(w, queue, from)
    &&& bombs_have_marked_slots(w, queue, from)
    &&& pending_in_order(w, queue, from)
    &&& pending_bombs_differ(queue, from)
}

/// The ties between map slots and bombs are in order in the world and its queue.
pub open spec fn world_in_order(w: WorldView) -> bool {
    slots_in_order(w, w.commands, 0)
}

/// No command of the queue blows up a bomb.
pub open spec fn no_explosions(queue: Seq<Command>) -> bool {
    forall|k: int| 0 <= k < queue.len() ==> !(#[trigger] queue[k] is Explode)
}

/// In a world that is in order and whose queue is empty, a map slot has at most one
/// live bomb.
pub proof fn lemma_at_most_one_bomb(w: WorldView, e1: int, e2: int, s: Entity)
    requires
        world_in_order(w),
        w.commands.len() == 0,
        bomb_of(w, e1, s),
        bomb_of(w, e2, s),
    ensures
        e1 == e2,
{
    assert(w.entities[e1].alive && w.entities[e2].alive);
}

/// `v` is `w` as far as the ties go: the same entities are alive, tied to the same
/// slots and marked alike, and the queue has grown by commands that neither make a
/// bomb nor blow one up.
pub open spec fn undisturbed(w: WorldView, v: WorldView) -> bool {
    &&& v.entities.len() == w.entities.len()
    &&& forall|j: int|
        0 <= j < w.entities.len() ==> (#[trigger] v.entities[j]).alive == w.entities[j].alive
            && v.entities[j].dehydrate_out_of_bounds == w.entities[j].dehydrate_out_of_bounds
            && v.entities[j].hydrated == w.entities[j].hydrated
    &&& v.commands.len() >= w.commands.len()
    &&& forall|k: int| 0 <= k < w.commands.len() ==> #[trigger] v.commands[k] == w.commands[k]
    &&& forall|k: int|
        w.commands.len() <= k < v.commands.len() ==> !(#[trigger] v.commands[k] is HydrateKickBomb)
            && !(v.commands[k] is Explode)
}

proof fn lemma_same_doom(w: WorldView, v: WorldView, upto: int, e: int)
    requires
        v.commands.len() >= w.commands.len(),
        forall|k: int| 0 <= k < w.commands.len() ==> #[trigger] v.commands[k] == w.commands[k],
        forall|k: int| w.commands.len() <= k < v.commands.len() ==> !(#[trigger] v.commands[k] is Explode),
    ensures
        doomed(v.commands, 0, upto, e) == doomed(w.commands, 0, upto, e),
{
    if doomed(v.commands, 0, upto, e) {
        let j = choose|j: int| 0 <= j < upto && j < v.commands.len() && #[trigger] blows_up(v.commands[j], e);
        assert(v.commands[j] is Explode);
        assert(j < w.commands.len());
        assert(v.commands[j] == w.commands[j]);
        assert(blows_up(w.commands[j], e));
    }
    if doomed(w.commands, 0, upto, e) {
        let j = choose|j: int| 0 <= j < upto && j < w.commands.len() && #[trigger] blows_up(w.commands[j], e);
        assert(v.commands[j] == w.commands[j]);
        assert(blows_up(v.commands[j], e));
    }
}

proof fn lemma_undisturbed_in_order(w: WorldView, v: WorldView)
    requires
        world_in_order(w),
        undisturbed(w, v),
    ensures
        world_in_order(v),
        no_explosions(w.commands) ==> no_explosions(v.commands),
{
    let qw = w.commands;
    let qv = v.commands;
    assert forall|e: int, upto: int| doomed(qv, 0, upto, e) == doomed(qw, 0, upto, e) by {
        lemma_same_doom(w, v, upto, e);
    }
    assert forall|e: int| doomed(qv, 0, qv.len() as int, e) == doomed(qw, 0, qw.len() as int, e) by {
        lemma_same_doom(w, v, qv.len() as int, e);
        if doomed(qw, 0, qv.len() as int, e) {
            let j = choose|j: int| 0 <= j < qv.len() && j < qw.len() && #[trigger] blows_up(qw[j], e);
            assert(blows_up(qw[j], e));
        }
    }
    assert forall|s: Entity| unmarked(v, s) == unmarked(w, s) by {
        if (s.index as int) < w.entities.len() {
            assert(v.entities[s.index as int].alive == w.entities[s.index as int].alive);
        }
    }
    assert(one_bomb_per_slot(v, qv, 0)) by {
        assert forall|e1: int, e2: int|
            #![trigger v.entities[e1], v.entities[e2]]
            0 <= e1 < v.entities.len() && 0 <= e2 < v.entities.len() && v.entities[e1].alive
                && v.entities[e2].alive && v.entities[e1].dehydrate_out_of_bounds is Some
                && v.entities[e1].dehydrate_out_of_bounds == v.entities[e2].dehydrate_out_of_bounds && !doomed(
                qv,
                0,
                qv.len() as int,
                e1,
            ) && !doomed(qv, 0, qv.len() as int, e2) implies e1 == e2 by {
            assert(w.entities[e1].alive && w.entities[e2].alive);
        }
    }
    assert(bombs_have_marked_slots(v, qv, 0)) by {
        assert forall|e: int| 0 <= e < v.entities.len() && (#[trigger] v.entities[e]).alive implies match v.entities[e].dehydrate_out_of_bounds {
            Some(slot) => slot.0.index < v.entities.len() && (!doomed(qv, 0, qv.len() as int, e)
                ==> !unmarked(v, slot.0)),
            None => true,
        } by {
            assert(w.entities[e].alive);
        }
    }
    assert(pending_in_order(v, qv, 0)) by {
        assert forall|k: int| 0 <= k < qv.len() implies match #[trigger] qv[k] {
            Command::HydrateKickBomb { slot, .. } => slot.index < v.entities.len() && !unmarked(v, slot)
                && forall|e: int|
                0 <= e < v.entities.len() && (#[trigger] v.entities[e]).alive
                    && v.entities[e].dehydrate_out_of_bounds == Some(DehydrateOutOfBounds(slot)) ==> doomed(
                    qv,
                    0,
                    k,
                    e,
                ),
            Command::Explode { entity, .. } => entity.index < v.entities.len(),
            _ => true,
        } by {
            if k < qw.len() {
                assert(qv[k] == qw[k]);
                match qw[k] {
                    Command::HydrateKickBomb { slot, .. } => {
                        assert forall|e: int|
                            0 <= e < v.entities.len() && (#[trigger] v.entities[e]).alive
                                && v.entities[e].dehydrate_out_of_bounds == Some(
                                DehydrateOutOfBounds(slot),
                            ) implies doomed(qv, 0, k, e) by {
                            assert(w.entities[e].alive);
                            assert(doomed(qw, 0, k, e));
                        }
                    },
                    _ => {},
                }
            }
        }
    }
    assert(pending_bombs_differ(qv, 0)) by {
        assert forall|k1: int, k2: int|
            #![trigger qv[k1], qv[k2]]
            0 <= k1 < qv.len() && 0 <= k2 < qv.len() implies match (qv[k1], qv[k2]) {
            (Command::HydrateKickBomb { slot: s1, .. }, Command::HydrateKickBomb { slot: s2, .. }) => s1
                == s2 ==> k1 == k2,
            _ => true,
        } by {
            if k1 < qw.len() && k2 < qw.len() {
                assert(qv[k1] == qw[k1] && qv[k2] == qw[k2]);
            }
        }
    }
    if no_explosions(qw) {
        assert forall|k: int| 0 <= k < qv.len() implies !(#[trigger] qv[k] is Explode) by {
            if k < qw.len() {
                assert(qv[k] == qw[k]);
            }
        }
    }
}

proof fn lemma_undisturbed_chain(w: WorldView, v: WorldView, u: WorldView)
    requires
        undisturbed(w, v),
        undisturbed(v, u),
    ensures
        undisturbed(w, u),
{
    assert forall|j: int| 0 <= j < w.entities.len() implies (#[trigger] u.entities[j]).alive
        == w.entities[j].alive && u.entities[j].dehydrate_out_of_bounds
        == w.entities[j].dehydrate_out_of_bounds && u.entities[j].hydrated == w.entities[j].hydrated by {
        assert(v.entities[j].alive == w.entities[j].alive);
    }
    assert forall|k: int| 0 <= k < w.commands.len() implies #[trigger] u.commands[k] == w.commands[k] by {
        assert(v.commands[k] == w.commands[k]);
    }
    assert forall|k: int| w.commands.len() <= k < u.commands.len() implies !(#[trigger] u.commands[k]
        is HydrateKickBomb) && !(u.commands[k] is Explode) by {
        if k < v.commands.len() {
            assert(u.commands[k] == v.commands[k]);
        }
    }
}

proof fn lemma_idle_undisturbed(w: WorldView, res: &Resources, n: int)
    requires
        0 <= n <= w.entities.len(),
    ensures
        undisturbed(w, update_idle_upto(w, res, n)),
    decreases n,
{
    if n > 0 {
        lemma_idle_undisturbed(w, res, n - 1);
        let v = update_idle_upto(w, res, n - 1);
        assert(undisturbed(v, update_idle_entity_spec(v, res, n - 1)));
        lemma_undisturbed_chain(w, v, update_idle_entity_spec(v, res, n - 1));
    }
}

proof fn lemma_grab_undisturbed(w: WorldView, n: int)
    requires
        0 <= n <= w.entities.len(),
    ensures
        undisturbed(w, grab_upto(w, n)),
    decreases n,
{
    if n > 0 {
        lemma_grab_undisturbed(w, n - 1);
        let v = grab_upto(w, n - 1);
        assert(undisturbed(v, grab_entity_spec(v, n - 1)));
        lemma_undisturbed_chain(w, v, grab_entity_spec(v, n - 1));
    }
}

proof fn lemma_drop_undisturbed(w: WorldView, seats: Seq<Option<Inv>>, n: int)
    requires
        0 <= n <= seats.len(),
    ensures
        undisturbed(w, drop_upto(w, seats, n)),
    decreases n,
{
    if n > 0 {
        lemma_drop_undisturbed(w, seats, n - 1);
        let v = drop_upto(w, seats, n - 1);
        assert(undisturbed(v, drop_seat_spec(v, seats, n - 1)));
        lemma_undisturbed_chain(w, v, drop_seat_spec(v, seats, n - 1));
    }
}

proof fn lemma_throw_undisturbed(w: WorldView, res: &Resources, n: int)
    requires
        0 <= n <= w.entities.len(),
    ensures
        undisturbed(w, throw_upto(w, res, n)),
    decreases n,
{
    if n > 0 {
        lemma_throw_undisturbed(w, res, n - 1);
        let v = throw_upto(w, res, n - 1);
        assert(undisturbed(v, throw_entity_spec(v, res, n - 1)));
        lemma_undisturbed_chain(w, v, throw_entity_spec(v, res, n - 1));
    }
}

proof fn lemma_transition_undisturbed(w: WorldView, res: &Resources, n: int)
    requires
        0 <= n <= w.entities.len(),
    ensures
        undisturbed(w, transition_upto(w, res, n)),
    decreases n,
{
    if n > 0 {
        lemma_transition_undisturbed(w, res, n - 1);
        let v = transition_upto(w, res, n - 1);
        assert(undisturbed(v, transition_entity_spec(v, res, n - 1)));
        lemma_undisturbed_chain(w, v, transition_entity_spec(v, res, n - 1));
    }
}

proof fn lemma_walk_undisturbed(w: WorldView, res: &Resources, n: int)
    requires
        0 <= n <= w.entities.len(),
    ensures
        undisturbed(w, update_upto(w, res, n)),
    decreases n,
{
    if n > 0 {
        lemma_walk_undisturbed(w, res, n - 1);
        let v = update_upto(w, res, n - 1);
        assert(undisturbed(v, update_entity_spec(v, res, n - 1)));
        lemma_undisturbed_chain(w, v, update_entity_spec(v, res, n - 1));
    }
}

proof fn lemma_age_undisturbed(w: WorldView, n: int)
    requires
        0 <= n <= w.entities.len(),
    ensures
        undisturbed(w, age_upto(w, n)),
    decreases n,
{
    if n > 0 {
        lemma_age_undisturbed(w, n - 1);
        let v = age_upto(w, n - 1);
        assert(undisturbed(v, age_entity_spec(v, n - 1)));
        lemma_undisturbed_chain(w, v, age_entity_spec(v, n - 1));
    }
}

proof fn lemma_lifetimes_undisturbed(w: WorldView, res: &Resources, n: int)
    requires
        0 <= n <= w.entities.len(),
    ensures
        undisturbed(w, lifetimes_upto(w, res, n)),
    decreases n,
{
    if n > 0 {
        lemma_lifetimes_undisturbed(w, res, n - 1);
        let v = lifetimes_upto(w, res, n - 1);
        assert(undisturbed(v, lifetime_entity_spec(v, res, n - 1)));
        lemma_undisturbed_chain(w, v, lifetime_entity_spec(v, res, n - 1));
    }
}

proof fn lemma_damage_outlines_undisturbed(w: WorldView, res: &Resources, n: int)
    requires
        0 <= n <= w.entities.len(),
    ensures
        undisturbed(w, damage_outlines_upto(w, res, n)),
    decreases n,
{
    if n > 0 {
        lemma_damage_outlines_undisturbed(w, res, n - 1);
        let v = damage_outlines_upto(w, res, n - 1);
        assert(undisturbed(v, damage_outline_spec(v, res, n - 1)));
        lemma_undisturbed_chain(w, v, damage_outline_spec(v, res, n - 1));
    }
}

proof fn lemma_emote_outlines_undisturbed(w: WorldView, res: &Resources, n: int)
    requires
        0 <= n <= w.entities.len(),
    ensures
        undisturbed(w, emote_outlines_upto(w, res, n)),
    decreases n,
{
    if n > 0 {
        lemma_emote_outlines_undisturbed(w, res, n - 1);
        let v = emote_outlines_upto(w, res, n - 1);
        assert(undisturbed(v, emote_outline_spec(v, res, n - 1)));
        lemma_undisturbed_chain(w, v, emote_outline_spec(v, res, n - 1));
    }
}

/// A command added at the end of the queue leaves every entity as doomed as before,
/// unless it blows the entity up.
proof fn lemma_doom_after_push(queue: Seq<Command>, command: Command, upto: int, e: int)
    ensures
        upto <= queue.len() ==> doomed(queue.push(command), 0, upto, e) == doomed(queue, 0, upto, e),
        doomed(queue.push(command), 0, queue.len() as int + 1, e) == (doomed(queue, 0, queue.len() as int, e)
            || blows_up(command, e)),
{
    let longer = queue.push(command);
    if upto <= queue.len() {
        if doomed(longer, 0, upto, e) {
            let j = choose|j: int| 0 <= j < upto && j < longer.len() && #[trigger] blows_up(longer[j], e);
            assert(longer[j] == queue[j]);
            assert(blows_up(queue[j], e));
        }
        if doomed(queue, 0, upto, e) {
            let j = choose|j: int| 0 <= j < upto && j < queue.len() && #[trigger] blows_up(queue[j], e);
            assert(longer[j] == queue[j]);
            assert(blows_up(longer[j], e));
        }
    }
    if doomed(longer, 0, queue.len() as int + 1, e) {
        let j = choose|j: int| 0 <= j < queue.len() + 1 && j < longer.len() && #[trigger] blows_up(longer[j], e);
        if j < queue.len() {
            assert(longer[j] == queue[j]);
            assert(blows_up(queue[j], e));
        } else {
            assert(longer[j] == command);
        }
    }
    if doomed(queue, 0, queue.len() as int, e) {
        let j = choose|j: int| 0 <= j < queue.len() && j < queue.len() && #[trigger] blows_up(queue[j], e);
        assert(longer[j] == queue[j]);
        assert(blows_up(longer[j], e));
    }
    if blows_up(command, e) {
        assert(longer[queue.len() as int] == command);
        assert(blows_up(longer[queue.len() as int], e));
    }
}

proof fn lemma_hydrate_step_in_order(w: WorldView, res: &Resources, i: int)
    requires
        world_in_order(w),
        0 <= i < w.entities.len() <= usize::MAX,
    ensures
        world_in_order(hydrate_entity_spec(w, res, i)),
        hydrate_entity_spec(w, res, i).entities.len() == w.entities.len(),
        no_explosions(w.commands) ==> no_explosions(hydrate_entity_spec(w, res, i).commands),
{
    let v = hydrate_entity_spec(w, res, i);
    let qw = w.commands;
    let qv = v.commands;
    if v != w {
        let s = Entity { index: i as usize };
        assert(unmarked(w, s));
        let made = qv[qw.len() as int];
        assert(qv == qw.push(made));
        assert(made is HydrateKickBomb);
        assert forall|e: int, upto: int| upto <= qw.len() implies doomed(qv, 0, upto, e) == doomed(
            qw,
            0,
            upto,
            e,
        ) by {
            lemma_doom_after_push(qw, made, upto, e);
        }
        assert forall|e: int| doomed(qv, 0, qv.len() as int, e) == doomed(qw, 0, qw.len() as int, e) by {
            lemma_doom_after_push(qw, made, 0, e);
        }
        assert forall|t: Entity| unmarked(v, t) implies unmarked(w, t) by {}
        assert(one_bomb_per_slot(v, qv, 0)) by {
            assert forall|e1: int, e2: int|
                #![trigger v.entities[e1], v.entities[e2]]
                0 <= e1 < v.entities.len() && 0 <= e2 < v.entities.len() && v.entities[e1].alive
                    && v.entities[e2].alive && v.entities[e1].dehydrate_out_of_bounds is Some
                    && v.entities[e1].dehydrate_out_of_bounds == v.entities[e2].dehydrate_out_of_bounds
                    && !doomed(qv, 0, qv.len() as int, e1) && !doomed(qv, 0, qv.len() as int, e2) implies e1
                == e2 by {
                assert(w.entities[e1].alive && w.entities[e2].alive);
            }
        }
        assert(bombs_have_marked_slots(v, qv, 0)) by {
            assert forall|e: int| 0 <= e < v.entities.len() && (#[trigger] v.entities[e]).alive implies match v.entities[e].dehydrate_out_of_bounds {
                Some(slot) => slot.0.index < v.entities.len() && (!doomed(qv, 0, qv.len() as int, e)
                    ==> !unmarked(v, slot.0)),
                None => true,
            } by {
                assert(w.entities[e].alive);
            }
        }
        assert(pending_in_order(v, qv, 0)) by {
            assert forall|k: int| 0 <= k < qv.len() implies match #[trigger] qv[k] {
                Command::HydrateKickBomb { slot, .. } => slot.index < v.entities.len() && !unmarked(v, slot)
                    && forall|e: int|
                    0 <= e < v.entities.len() && (#[trigger] v.entities[e]).alive
                        && v.entities[e].dehydrate_out_of_bounds == Some(DehydrateOutOfBounds(slot))
                        ==> doomed(qv, 0, k, e),
                Command::Explode { entity, .. } => entity.index < v.entities.len(),
                _ => true,
            } by {
                if k < qw.len() {
                    assert(qv[k] == qw[k]);
                    match qw[k] {
                        Command::HydrateKickBomb { slot, .. } => {
                            assert forall|e: int|
                                0 <= e < v.entities.len() && (#[trigger] v.entities[e]).alive
                                    && v.entities[e].dehydrate_out_of_bounds == Some(
                                    DehydrateOutOfBounds(slot),
                                ) implies doomed(qv, 0, k, e) by {
                                assert(w.entities[e].alive);
                                assert(doomed(qw, 0, k, e));
                            }
                        },
                        _ => {},
                    }
                } else {
                    assert forall|e: int|
                        0 <= e < v.entities.len() && (#[trigger] v.entities[e]).alive
                            && v.entities[e].dehydrate_out_of_bounds == Some(
                            DehydrateOutOfBounds(s),
                        ) implies doomed(qv, 0, k, e) by {
                        assert(w.entities[e].alive);
                        assert(doomed(qw, 0, qw.len() as int, e));
                    }
                }
            }
        }
        assert(pending_bombs_differ(qv, 0)) by {
            assert forall|k1: int, k2: int|
                #![trigger qv[k1], qv[k2]]
                0 <= k1 < qv.len() && 0 <= k2 < qv.len() implies match (qv[k1], qv[k2]) {
                (Command::HydrateKickBomb { slot: s1, .. }, Command::HydrateKickBomb { slot: s2, .. }) => s1
                    == s2 ==> k1 == k2,
                _ => true,
            } by {
                if k1 < qw.len() {
                    assert(qv[k1] == qw[k1]);
                }
                if k2 < qw.len() {
                    assert(qv[k2] == qw[k2]);
                }
            }
        }
        if no_explosions(qw) {
            assert forall|k: int| 0 <= k < qv.len() implies !(#[trigger] qv[k] is Explode) by {
                if k < qw.len() {
                    assert(qv[k] == qw[k]);
                }
            }
        }
    }
}

proof fn lemma_hydrate_in_order(w: WorldView, res: &Resources, n: int)
    requires
        world_in_order(w),
        0 <= n <= w.entities.len() <= usize::MAX,
    ensures
        world_in_order(hydrate_upto(w, res, n)),
        hydrate_upto(w, res, n).entities.len() == w.entities.len(),
        no_explosions(w.commands) ==> no_explosions(hydrate_upto(w, res, n).commands),
    decreases n,
{
    if n > 0 {
        lemma_hydrate_in_order(w, res, n - 1);
        lemma_hydrate_step_in_order(hydrate_upto(w, res, n - 1), res, n - 1);
    }
}

/// Every command of the queue that blows up a bomb names a slot below `i`.
spec fn explosions_below(queue: Seq<Command>, i: int) -> bool {
    forall|k: int|
        0 <= k < queue.len() ==> match #[trigger] queue[k] {
            Command::Explode { entity, .. } => entity.index < i,
            _ => true,
        }
}

proof fn lemma_not_doomed(queue: Seq<Command>, i: int, e: int)
    requires
        explosions_below(queue, i),
        e >= i,
    ensures
        !doomed(queue, 0, queue.len() as int, e),
        forall|upto: int| !doomed(queue, 0, upto, e),
{
    assert forall|upto: int| !doomed(queue, 0, upto, e) by {
        if doomed(queue, 0, upto, e) {
            let j = choose|j: int| 0 <= j < upto && j < queue.len() && #[trigger] blows_up(queue[j], e);
            assert(queue[j] is Explode);
        }
    }
}

proof fn lemma_lit_step_in_order(w: WorldView, res: &Resources, held: Seq<Option<Inv>>, i: int)
    requires
        world_in_order(w),
        0 <= i < w.entities.len() <= usize::MAX,
        explosions_below(w.commands, i),
    ensures
        world_in_order(update_lit_entity_spec(w, res, held, i)),
        update_lit_entity_spec(w, res, held, i).entities.len() == w.entities.len(),
        explosions_below(update_lit_entity_spec(w, res, held, i).commands, i + 1),
{
    let v = update_lit_entity_spec(w, res, held, i);
    let qw = w.commands;
    let qv = v.commands;
    assert(v.entities.len() == w.entities.len());
    if qv.len() == qw.len() {
        assert(undisturbed(w, v));
        lemma_undisturbed_in_order(w, v);
        assert(qv == qw);
    } else {
        // The bomb in slot `i` went off.
        assert(w.entities[i].alive);
        let blast = qv[qw.len() as int];
        assert(qv == qw.push(blast));
        assert(blows_up(blast, i));
        assert(blast is Explode);
        lemma_not_doomed(qw, i, i);
        assert forall|e: int, upto: int| upto <= qw.len() implies doomed(qv, 0, upto, e) == doomed(
            qw,
            0,
            upto,
            e,
        ) by {
            lemma_doom_after_push(qw, blast, upto, e);
        }
        assert forall|e: int| doomed(qv, 0, qv.len() as int, e) == (doomed(qw, 0, qw.len() as int, e) || e
            == i) by {
            lemma_doom_after_push(qw, blast, 0, e);
        }
        assert forall|j: int| 0 <= j < w.entities.len() implies (#[trigger] v.entities[j]).alive
            == w.entities[j].alive && v.entities[j].dehydrate_out_of_bounds
            == w.entities[j].dehydrate_out_of_bounds by {}
        assert(one_bomb_per_slot(v, qv, 0)) by {
            assert forall|e1: int, e2: int|
                #![trigger v.entities[e1], v.entities[e2]]
                0 <= e1 < v.entities.len() && 0 <= e2 < v.entities.len() && v.entities[e1].alive
                    && v.entities[e2].alive && v.entities[e1].dehydrate_out_of_bounds is Some
                    && v.entities[e1].dehydrate_out_of_bounds == v.entities[e2].dehydrate_out_of_bounds
                    && !doomed(qv, 0, qv.len() as int, e1) && !doomed(qv, 0, qv.len() as int, e2) implies e1
                == e2 by {
                assert(w.entities[e1].alive && w.entities[e2].alive);
            }
        }
        assert(bombs_have_marked_slots(v, qv, 0)) by {
            assert forall|e: int| 0 <= e < v.entities.len() && (#[trigger] v.entities[e]).alive implies match v.entities[e].dehydrate_out_of_bounds {
                Some(slot) => slot.0.index < v.entities.len() && (!doomed(qv, 0, qv.len() as int, e)
                    ==> !unmarked(v, slot.0)),
                None => true,
            } by {
                assert(w.entities[e].alive);
                match v.entities[e].dehydrate_out_of_bounds {
                    Some(slot) => {
                        if !doomed(qv, 0, qv.len() as int, e) && unmarked(v, slot.0) {
                            // Then the slot was freed by the bomb in slot `i`, which was
                            // tied to it too, and neither was on its way out.
                            assert(e != i);
                            assert(!unmarked(w, slot.0));
                            assert(w.entities[i].dehydrate_out_of_bounds == Some(slot));
                            assert(w.entities[e].dehydrate_out_of_bounds
                                == w.entities[i].dehydrate_out_of_bounds);
                        }
                    },
                    None => {},
                }
            }
        }
        assert(pending_in_order(v, qv, 0)) by {
            assert forall|k: int| 0 <= k < qv.len() implies match #[trigger] qv[k] {
                Command::HydrateKickBomb { slot, .. } => slot.index < v.entities.len() && !unmarked(v, slot)
                    && forall|e: int|
                    0 <= e < v.entities.len() && (#[trigger] v.entities[e]).alive
                        && v.entities[e].dehydrate_out_of_bounds == Some(DehydrateOutOfBounds(slot))
                        ==> doomed(qv, 0, k, e),
                Command::Explode { entity, .. } => entity.index < v.entities.len(),
                _ => true,
            } by {
                if k < qw.len() {
                    assert(qv[k] == qw[k]);
                    match qw[k] {
                        Command::HydrateKickBomb { slot, .. } => {
                            // The bomb in slot `i` is no bomb of this slot: it would have
                            // had to be on its way out already.
                            if w.entities[i].dehydrate_out_of_bounds == Some(DehydrateOutOfBounds(slot)) {
                                assert(doomed(qw, 0, k, i));
                            }
                            assert(!unmarked(w, slot));
                            assert forall|e: int|
                                0 <= e < v.entities.len() && (#[trigger] v.entities[e]).alive
                                    && v.entities[e].dehydrate_out_of_bounds == Some(
                                    DehydrateOutOfBounds(slot),
                                ) implies doomed(qv, 0, k, e) by {
                                assert(w.entities[e].alive);
                                assert(doomed(qw, 0, k, e));
                            }
                        },
                        _ => {},
                    }
                }
            }
        }
        assert(pending_bombs_differ(qv, 0)) by {
            assert forall|k1: int, k2: int|
                #![trigger qv[k1], qv[k2]]
                0 <= k1 < qv.len() && 0 <= k2 < qv.len() implies match (qv[k1], qv[k2]) {
                (Command::HydrateKickBomb { slot: s1, .. }, Command::HydrateKickBomb { slot: s2, .. }) => s1
                    == s2 ==> k1 == k2,
                _ => true,
            } by {
                if k1 < qw.len() {
                    assert(qv[k1] == qw[k1]);
                }
                if k2 < qw.len() {
                    assert(qv[k2] == qw[k2]);
                }
            }
        }
    }
    assert forall|k: int| 0 <= k < qv.len() implies match #[trigger] qv[k] {
        Command::Explode { entity, .. } => entity.index < i + 1,
        _ => true,
    } by {
        if k < qw.len() {
            assert(qv[k] == qw[k]);
        }
    }
}

proof fn lemma_lit_in_order(w: WorldView, res: &Resources, held: Seq<Option<Inv>>, n: int)
    requires
        world_in_order(w),
        no_explosions(w.commands),
        0 <= n <= w.entities.len() <= usize::MAX,
    ensures
        world_in_order(update_lit_upto(w, res, held, n)),
        update_lit_upto(w, res, held, n).entities.len() == w.entities.len(),
        explosions_below(update_lit_upto(w, res, held, n).commands, n),
    decreases n,
{
    if n > 0 {
        lemma_lit_in_order(w, res, held, n - 1);
        lemma_lit_step_in_order(update_lit_upto(w, res, held, n - 1), res, held, n - 1);
    }
}

/// How often the pass over the lit bombs is among the first `n` of `systems`.
pub open spec fn lit_runs(systems: Seq<SystemId>, n: int) -> int
    decreases n,
{
    if n <= 0 {
        0
    } else {
        lit_runs(systems, n - 1) + if systems[n - 1] is UpdateLitKickBombs {
            1int
        } else {
            0int
        }
    }
}

/// No stage runs the pass over the lit bombs more than once.
pub open spec fn lit_once_per_stage(stages: StagesView) -> bool {
    &&& lit_runs(stages.first, stages.first.len() as int) <= 1
    &&& lit_runs(stages.pre_update, stages.pre_update.len() as int) <= 1
    &&& lit_runs(stages.update, stages.update.len() as int) <= 1
    &&& lit_runs(stages.post_update, stages.post_update.len() as int) <= 1
    &&& lit_runs(stages.last, stages.last.len() as int) <= 1
}

proof fn lemma_lit_runs_grow(systems: Seq<SystemId>, n: int, m: int)
    requires
        0 <= n <= m,
    ensures
        0 <= lit_runs(systems, n) <= lit_runs(systems, m),
    decreases m,
{
    if n < m {
        lemma_lit_runs_grow(systems, n, m - 1);
    } else if n > 0 {
        lemma_lit_runs_grow(systems, n - 1, m - 1);
    }
}

/// Every system keeps the ties between map slots and bombs in order, the pass over the
/// lit bombs provided that no bomb has gone off since the last drain. Hydration marks a
/// slot only when it has no bomb that is to stay and none is on its way, an explosion
/// frees the slot of the bomb that went off and of no other, and no other system
/// touches the ties.
pub proof fn lemma_system_keeps_order(system: SystemId, w: WorldView, res: &Resources, held: Seq<Option<Inv>>)
    requires
        world_in_order(w),
        w.entities.len() <= usize::MAX,
        system is UpdateLitKickBombs ==> no_explosions(w.commands),
    ensures
        world_in_order(run_system_spec(system, w, res, held)),
        !(system is UpdateLitKickBombs) && no_explosions(w.commands) ==> no_explosions(
            run_system_spec(system, w, res, held).commands,
        ),
{
    let n = w.entities.len() as int;
    let v = run_system_spec(system, w, res, held);
    match system {
        SystemId::Hydrate => lemma_hydrate_in_order(w, res, n),
        SystemId::UpdateLitKickBombs => lemma_lit_in_order(w, res, held, n),
        SystemId::UpdateIdleKickBombs => {
            lemma_idle_undisturbed(w, res, n);
            lemma_undisturbed_in_order(w, v);
        },
        SystemId::GrabItems => {
            lemma_grab_undisturbed(w, n);
            lemma_undisturbed_in_order(w, v);
        },
        SystemId::DropItems => {
            lemma_drop_undisturbed(w, held, held.len() as int);
            lemma_undisturbed_in_order(w, v);
        },
        SystemId::ThrowDroppedItems => {
            lemma_throw_undisturbed(w, res, n);
            lemma_undisturbed_in_order(w, v);
        },
        SystemId::WalkTransition => {
            lemma_transition_undisturbed(w, res, n);
            lemma_undisturbed_in_order(w, v);
        },
        SystemId::WalkUpdate => {
            lemma_walk_undisturbed(w, res, n);
            lemma_undisturbed_in_order(w, v);
        },
        SystemId::PlayerStateAge => {
            lemma_age_undisturbed(w, n);
            lemma_undisturbed_in_order(w, v);
        },
        SystemId::Lifetimes => {
            lemma_lifetimes_undisturbed(w, res, n);
            lemma_undisturbed_in_order(w, v);
        },
        SystemId::DebugRenderDamageRegions => {
            lemma_damage_outlines_undisturbed(w, res, n);
            lemma_undisturbed_in_order(w, v);
        },
        SystemId::DebugRenderEmoteRegions => {
            lemma_emote_outlines_undisturbed(w, res, n);
            lemma_undisturbed_in_order(w, v);
        },
        SystemId::Music => {},
        SystemId::UseDropOrGrabItems(_) => {},
        SystemId::DebugRenderColliders => {},
    }
}

proof fn lemma_systems_keep_order(
    systems: Seq<SystemId>,
    w: WorldView,
    res: &Resources,
    held: Seq<Option<Inv>>,
    n: int,
)
    requires
        world_in_order(w),
        no_explosions(w.commands),
        w.entities.len() <= usize::MAX,
        0 <= n <= systems.len(),
        lit_runs(systems, systems.len() as int) <= 1,
    ensures
        world_in_order(run_systems_upto(systems, w, res, held, n)),
        run_systems_upto(systems, w, res, held, n).entities.len() == w.entities.len(),
        lit_runs(systems, n) == 0 ==> no_explosions(run_systems_upto(systems, w, res, held, n).commands),
    decreases n,
{
    if n > 0 {
        lemma_systems_keep_order(systems, w, res, held, n - 1);
        lemma_lit_runs_grow(systems, n - 1, n);
        lemma_lit_runs_grow(systems, n, systems.len() as int);
        lemma_lit_runs_grow(systems, 0, n - 1);
        let u = run_systems_upto(systems, w, res, held, n - 1);
        lemma_system_keeps_order(systems[n - 1], u, res, held);
        lemma_systems_keep_entities(systems[n - 1], u, res, held);
    }
}

/// Whether the command at position `k` blows an entity up decides how its doom from
/// `k` differs from its doom from the next position.
proof fn lemma_doom_shift(queue: Seq<Command>, k: int, upto: int, e: int)
    requires
        0 <= k,
    ensures
        doomed(queue, k, upto, e) == (doomed(queue, k + 1, upto, e) || (k < upto && k < queue.len()
            && blows_up(queue[k], e))),
{
    if doomed(queue, k, upto, e) {
        let j = choose|j: int| k <= j < upto && j < queue.len() && #[trigger] blows_up(queue[j], e);
        if j > k {
            assert(blows_up(queue[j], e));
        }
    }
    if doomed(queue, k + 1, upto, e) {
        let j = choose|j: int| k + 1 <= j < upto && j < queue.len() && #[trigger] blows_up(queue[j], e);
        assert(blows_up(queue[j], e));
    }
    if k < upto && k < queue.len() && blows_up(queue[k], e) {
        assert(blows_up(queue[k], e));
    }
}

/// `v` is `w` as far as the ties go, and may hold new entities at the end that are
/// tied to no slot. The entity in slot `gone`, if one is named, is not alive.
spec fn settled(w: WorldView, v: WorldView, gone: Option<int>) -> bool {
    &&& v.entities.len() >= w.entities.len()
    &&& forall|j: int|
        0 <= j < w.entities.len() ==> if gone == Some(j) {
            !(#[trigger] v.entities[j]).alive
        } else {
            v.entities[j].alive == w.entities[j].alive && v.entities[j].dehydrate_out_of_bounds
                == w.entities[j].dehydrate_out_of_bounds && v.entities[j].hydrated == w.entities[j].hydrated
        }
    &&& forall|j: int|
        w.entities.len() <= j < v.entities.len() ==> (#[trigger] v.entities[j]).dehydrate_out_of_bounds is None
}

proof fn lemma_settled_in_order(w: WorldView, v: WorldView, gone: Option<int>, queue: Seq<Command>, k: int)
    requires
        slots_in_order(w, queue, k),
        settled(w, v, gone),
        0 <= k < queue.len(),
        forall|e: int| blows_up(queue[k], e) ==> gone == Some(e),
    ensures
        slots_in_order(v, queue, k + 1),
{
    let len = queue.len() as int;
    assert forall|e: int, upto: int|
        doomed(queue, k, upto, e) == (#[trigger] doomed(queue, k + 1, upto, e) || (k < upto && blows_up(
            queue[k],
            e,
        ))) by {
        lemma_doom_shift(queue, k, upto, e);
    }
    assert forall|s: Entity| (s.index as int) < w.entities.len() && unmarked(v, s) implies unmarked(w, s) by {
        assert(v.entities[s.index as int].alive);
    }
    assert(one_bomb_per_slot(v, queue, k + 1)) by {
        assert forall|e1: int, e2: int|
            #![trigger v.entities[e1], v.entities[e2]]
            0 <= e1 < v.entities.len() && 0 <= e2 < v.entities.len() && v.entities[e1].alive
                && v.entities[e2].alive && v.entities[e1].dehydrate_out_of_bounds is Some
                && v.entities[e1].dehydrate_out_of_bounds == v.entities[e2].dehydrate_out_of_bounds && !doomed(
                queue,
                k + 1,
                len,
                e1,
            ) && !doomed(queue, k + 1, len, e2) implies e1 == e2 by {
            assert(e1 < w.entities.len() && e2 < w.entities.len());
            assert(w.entities[e1].alive && w.entities[e2].alive);
            lemma_doom_shift(queue, k, len, e1);
            lemma_doom_shift(queue, k, len, e2);
        }
    }
    assert(bombs_have_marked_slots(v, queue, k + 1)) by {
        assert forall|e: int| 0 <= e < v.entities.len() && (#[trigger] v.entities[e]).alive implies match v.entities[e].dehydrate_out_of_bounds {
            Some(slot) => slot.0.index < v.entities.len() && (!doomed(queue, k + 1, len, e) ==> !unmarked(
                v,
                slot.0,
            )),
            None => true,
        } by {
            if e < w.entities.len() {
                assert(w.entities[e].alive);
                lemma_doom_shift(queue, k, len, e);
            }
        }
    }
    assert(pending_in_order(v, queue, k + 1)) by {
        assert forall|j: int| k + 1 <= j < queue.len() implies match #[trigger] queue[j] {
            Command::HydrateKickBomb { slot, .. } => slot.index < v.entities.len() && !unmarked(v, slot)
                && forall|e: int|
                0 <= e < v.entities.len() && (#[trigger] v.entities[e]).alive
                    && v.entities[e].dehydrate_out_of_bounds == Some(DehydrateOutOfBounds(slot)) ==> doomed(
                    queue,
                    k + 1,
                    j,
                    e,
                ),
            Command::Explode { entity, .. } => entity.index < v.entities.len(),
            _ => true,
        } by {
            match queue[j] {
                Command::HydrateKickBomb { slot, .. } => {
                    assert forall|e: int|
                        0 <= e < v.entities.len() && (#[trigger] v.entities[e]).alive
                            && v.entities[e].dehydrate_out_of_bounds == Some(
                            DehydrateOutOfBounds(slot),
                        ) implies doomed(queue, k + 1, j, e) by {
                        assert(e < w.entities.len());
                        assert(w.entities[e].alive);
                        assert(doomed(queue, k, j, e));
                        lemma_doom_shift(queue, k, j, e);
                    }
                },
                _ => {},
            }
        }
    }
    assert(pending_bombs_differ(queue, k + 1)) by {
        assert forall|k1: int, k2: int|
            #![trigger queue[k1], queue[k2]]
            k + 1 <= k1 < queue.len() && k + 1 <= k2 < queue.len() implies match (queue[k1], queue[k2]) {
            (Command::HydrateKickBomb { slot: s1, .. }, Command::HydrateKickBomb { slot: s2, .. }) => s1
                == s2 ==> k1 == k2,
            _ => true,
        } by {}
    }
}

proof fn lemma_bomb_made_in_order(w: WorldView, res: &Resources, queue: Seq<Command>, k: int)
    requires
        slots_in_order(w, queue, k),
        0 <= k < queue.len(),
        queue[k] is HydrateKickBomb,
        queue[k].apply_spec(w, res) != w,
    ensures
        slots_in_order(queue[k].apply_spec(w, res), queue, k + 1),
{
    let v = queue[k].apply_spec(w, res);
    let s = queue[k]->HydrateKickBomb_slot;
    let made = w.entities.len() as int;
    let len = queue.len() as int;
    assert(v.entities.len() == w.entities.len() + 1);
    assert(v.entities[made].alive && v.entities[made].dehydrate_out_of_bounds == Some(DehydrateOutOfBounds(s)));
    assert(s.index < w.entities.len());
    assert forall|e: int, upto: int| doomed(queue, k, upto, e) == #[trigger] doomed(queue, k + 1, upto, e) by {
        lemma_doom_shift(queue, k, upto, e);
    }
    // No live bomb of the slot is left: each would have had to be blown up by a command
    // before this one.
    assert forall|e: int|
        0 <= e < w.entities.len() && (#[trigger] w.entities[e]).alive implies w.entities[e].dehydrate_out_of_bounds
        != Some(DehydrateOutOfBounds(s)) by {
        if w.entities[e].dehydrate_out_of_bounds == Some(DehydrateOutOfBounds(s)) {
            assert(doomed(queue, k, k, e));
            let j = choose|j: int| k <= j < k && j < queue.len() && #[trigger] blows_up(queue[j], e);
        }
    }
    // The new bomb is not on its way out: the commands that blow bombs up name slots
    // that were there before.
    assert(!doomed(queue, k + 1, len, made)) by {
        if doomed(queue, k + 1, len, made) {
            let j = choose|j: int| k + 1 <= j < len && j < queue.len() && #[trigger] blows_up(queue[j], made);
            assert(queue[j] is Explode);
        }
    }
    assert forall|j: int| 0 <= j < w.entities.len() implies (#[trigger] v.entities[j]).alive
        == w.entities[j].alive && v.entities[j].dehydrate_out_of_bounds
        == w.entities[j].dehydrate_out_of_bounds && v.entities[j].hydrated == w.entities[j].hydrated by {}
    assert forall|t: Entity| (t.index as int) < w.entities.len() && unmarked(v, t) implies unmarked(w, t) by {
        assert(v.entities[t.index as int].alive);
    }
    assert(one_bomb_per_slot(v, queue, k + 1)) by {
        assert forall|e1: int, e2: int|
            #![trigger v.entities[e1], v.entities[e2]]
            0 <= e1 < v.entities.len() && 0 <= e2 < v.entities.len() && v.entities[e1].alive
                && v.entities[e2].alive && v.entities[e1].dehydrate_out_of_bounds is Some
                && v.entities[e1].dehydrate_out_of_bounds == v.entities[e2].dehydrate_out_of_bounds && !doomed(
                queue,
                k + 1,
                len,
                e1,
            ) && !doomed(queue, k + 1, len, e2) implies e1 == e2 by {
            if e1 < made {
                assert(w.entities[e1].alive);
            }
            if e2 < made {
                assert(w.entities[e2].alive);
            }
        }
    }
    assert(bombs_have_marked_slots(v, queue, k + 1)) by {
        assert forall|e: int| 0 <= e < v.entities.len() && (#[trigger] v.entities[e]).alive implies match v.entities[e].dehydrate_out_of_bounds {
            Some(slot) => slot.0.index < v.entities.len() && (!doomed(queue, k + 1, len, e) ==> !unmarked(
                v,
                slot.0,
            )),
            None => true,
        } by {
            if e < made {
                assert(w.entities[e].alive);
            }
        }
    }
    assert(pending_in_order(v, queue, k + 1)) by {
        assert forall|j: int| k + 1 <= j < queue.len() implies match #[trigger] queue[j] {
            Command::HydrateKickBomb { slot, .. } => slot.index < v.entities.len() && !unmarked(v, slot)
                && forall|e: int|
                0 <= e < v.entities.len() && (#[trigger] v.entities[e]).alive
                    && v.entities[e].dehydrate_out_of_bounds == Some(DehydrateOutOfBounds(slot)) ==> doomed(
                    queue,
                    k + 1,
                    j,
                    e,
                ),
            Command::Explode { entity, .. } => entity.index < v.entities.len(),
            _ => true,
        } by {
            match queue[j] {
                Command::HydrateKickBomb { slot, .. } => {
                    assert(queue[k] is HydrateKickBomb);
                    assert(slot != s);
                    assert forall|e: int|
                        0 <= e < v.entities.len() && (#[trigger] v.entities[e]).alive
                            && v.entities[e].dehydrate_out_of_bounds == Some(
                            DehydrateOutOfBounds(slot),
                        ) implies doomed(queue, k + 1, j, e) by {
                        assert(e < made);
                        assert(w.entities[e].alive);
                        assert(doomed(queue, k, j, e));
                    }
                },
                _ => {},
            }
        }
    }
    assert(pending_bombs_differ(queue, k + 1)) by {
        assert forall|k1: int, k2: int|
            #![trigger queue[k1], queue[k2]]
            k + 1 <= k1 < queue.len() && k + 1 <= k2 < queue.len() implies match (queue[k1], queue[k2]) {
            (Command::HydrateKickBomb { slot: s1, .. }, Command::HydrateKickBomb { slot: s2, .. }) => s1
                == s2 ==> k1 == k2,
            _ => true,
        } by {}
    }
}

/// Every command keeps the ties between map slots and bombs in order. The command that
/// makes the bomb of a slot finds every earlier bomb of the slot destroyed; the command
/// that blows a bomb up removes a bomb whose slot was freed when it went off; and no
/// other command touches the ties.
pub proof fn lemma_command_keeps_order(w: WorldView, res: &Resources, queue: Seq<Command>, k: int)
    requires
        slots_in_order(w, queue, k),
        0 <= k < queue.len(),
    ensures
        slots_in_order(queue[k].apply_spec(w, res), queue, k + 1),
{
    let v = queue[k].apply_spec(w, res);
    match queue[k] {
        Command::DestroyEntity { entity } => {
            assert(settled(w, v, Some(entity.index as int)));
            lemma_settled_in_order(w, v, Some(entity.index as int), queue, k);
        },
        Command::SetInventory { player, item } => {
            assert(settled(w, v, None));
            lemma_settled_in_order(w, v, None, queue, k);
        },
        Command::LightKickBomb { entity, arm_delay, fuse_time } => {
            assert(settled(w, v, None));
            lemma_settled_in_order(w, v, None, queue, k);
        },
        Command::Explode { entity, transform, blast } => {
            assert(entity.index < w.entities.len());
            assert(settled(w, v, Some(entity.index as int)));
            lemma_settled_in_order(w, v, Some(entity.index as int), queue, k);
        },
        Command::SpawnKickBomb { entity, transform, handle, lit, player_flip } => {
            assert(settled(w, v, None));
            lemma_settled_in_order(w, v, None, queue, k);
        },
        Command::HydrateKickBomb { slot, element_handle, transform, handle } => {
            if v == w {
                assert(settled(w, v, None));
                lemma_settled_in_order(w, v, None, queue, k);
            } else {
                lemma_bomb_made_in_order(w, res, queue, k);
            }
        },
        Command::RunEffect { entity, effect } => {
            assert(settled(w, v, None));
            lemma_settled_in_order(w, v, None, queue, k);
        },
    }
}

/// No command removes a slot.
pub proof fn lemma_command_grows(command: Command, w: WorldView, res: &Resources)
    ensures
        command.apply_spec(w, res).entities.len() >= w.entities.len(),
{
}

proof fn lemma_apply_grows(w: WorldView, res: &Resources, queue: Seq<Command>, n: int)
    requires
        0 <= n <= queue.len(),
    ensures
        apply_upto(w, res, queue, n).entities.len() >= w.entities.len(),
    decreases n,
{
    if n > 0 {
        lemma_apply_grows(w, res, queue, n - 1);
        lemma_command_grows(queue[n - 1], apply_upto(w, res, queue, n - 1), res);
    }
}

proof fn lemma_apply_in_order(w: WorldView, res: &Resources, queue: Seq<Command>, n: int)
    requires
        slots_in_order(w, queue, 0),
        0 <= n <= queue.len(),
    ensures
        slots_in_order(apply_upto(w, res, queue, n), queue, n),
    decreases n,
{
    if n > 0 {
        lemma_apply_in_order(w, res, queue, n - 1);
        lemma_command_keeps_order(apply_upto(w, res, queue, n - 1), res, queue, n - 1);
    }
}

/// Nothing is doomed where no command is left.
proof fn lemma_no_doom_left(queue: Seq<Command>, from: int, upto: int, e: int)
    requires
        from >= upto || from >= queue.len(),
    ensures
        !doomed(queue, from, upto, e),
{
}

/// The drain of the command queue keeps the ties between map slots and bombs in order.
/// After it no bomb is on its way out any more: every bomb that went off is gone, and
/// every slot that is marked without a bomb of its own is a slot whose bomb was
/// destroyed by other means.
pub proof fn lemma_drain_keeps_order(w: WorldView, res: &Resources)
    requires
        world_in_order(w),
    ensures
        world_in_order(drain_spec(w, res)),
        drain_spec(w, res).commands.len() == 0,
        drain_spec(w, res).entities.len() >= w.entities.len(),
{
    let start = WorldView { commands: Seq::empty(), ..w };
    let queue = w.commands;
    let n = queue.len() as int;
    assert(slots_in_order(start, queue, 0)) by {
        assert forall|s: Entity| unmarked(start, s) == unmarked(w, s) by {}
    }
    lemma_apply_in_order(start, res, queue, n);
    lemma_apply_grows(start, res, queue, n);
    lemma_drain_empties_queue(w, res);
    let v = drain_spec(w, res);
    let none = v.commands;
    assert forall|e: int, upto: int| !doomed(queue, n, upto, e) && !doomed(none, 0, upto, e) by {
        lemma_no_doom_left(queue, n, upto, e);
        lemma_no_doom_left(none, 0, upto, e);
    }
    assert(one_bomb_per_slot(v, none, 0)) by {
        assert forall|e1: int, e2: int|
            #![trigger v.entities[e1], v.entities[e2]]
            0 <= e1 < v.entities.len() && 0 <= e2 < v.entities.len() && v.entities[e1].alive
                && v.entities[e2].alive && v.entities[e1].dehydrate_out_of_bounds is Some
                && v.entities[e1].dehydrate_out_of_bounds == v.entities[e2].dehydrate_out_of_bounds implies e1
            == e2 by {
            assert(!doomed(queue, n, n, e1) && !doomed(queue, n, n, e2));
        }
    }
    assert(bombs_have_marked_slots(v, none, 0)) by {
        assert forall|e: int| 0 <= e < v.entities.len() && (#[trigger] v.entities[e]).alive implies match v.entities[e].dehydrate_out_of_bounds {
            Some(slot) => slot.0.index < v.entities.len() && (!doomed(none, 0, none.len() as int, e)
                ==> !unmarked(v, slot.0)),
            None => true,
        } by {
            assert(!doomed(queue, n, n, e));
        }
    }
}

/// A stage keeps the ties between map slots and bombs in order, whatever systems are
/// registered to it and in whatever order, as long as the pass over the lit bombs is
/// among them at most once, the stage starts with an empty queue, and the store stays
/// within what the machine can address.
pub proof fn lemma_stage_keeps_order(systems: Seq<SystemId>, w: WorldView, res: &Resources, held: Seq<Option<Inv>>)
    requires
        world_in_order(w),
        w.commands.len() == 0,
        lit_runs(systems, systems.len() as int) <= 1,
        w.entities.len() <= usize::MAX,
    ensures
        world_in_order(run_stage_spec(systems, w, res, held)),
        run_stage_spec(systems, w, res, held).commands.len() == 0,
        run_stage_spec(systems, w, res, held).entities.len() >= w.entities.len(),
{
    let n = systems.len() as int;
    lemma_systems_keep_order(systems, w, res, held, n);
    lemma_drain_keeps_order(run_systems_upto(systems, w, res, held, n), res);
}

/// One live bomb per map slot, tick after tick. If the ties between map slots and bombs
/// are in order before a tick and the queue is empty, they are in order after it and
/// the queue is empty again, whatever systems are registered to the stages and in
/// whatever order, as long as no stage runs the pass over the lit bombs twice and the
/// store stays within what the machine can address. So from a world in order no tick
/// leads to a world in which a map slot has two live bombs.
pub proof fn lemma_tick_keeps_order(stages: StagesView, w: WorldView, res: &Resources)
    requires
        world_in_order(w),
        w.commands.len() == 0,
        lit_once_per_stage(stages),
        run_tick_spec(stages, w, res).entities.len() <= usize::MAX,
    ensures
        world_in_order(run_tick_spec(stages, w, res)),
        run_tick_spec(stages, w, res).commands.len() == 0,
        forall|e1: int, e2: int, s: Entity|
            bomb_of(run_tick_spec(stages, w, res), e1, s) && bomb_of(run_tick_spec(stages, w, res), e2, s)
                ==> e1 == e2,
{
    let held = PlayerInventories::snapshot(w);
    let w1 = run_stage_spec(stages.first, w, res, held);
    let w2 = run_stage_spec(stages.pre_update, w1, res, held);
    let w3 = run_stage_spec(stages.update, w2, res, held);
    let w4 = run_stage_spec(stages.post_update, w3, res, held);
    let w5 = run_stage_spec(stages.last, w4, res, held);
    lemma_stage_grows(stages.first, w, res, held);
    lemma_stage_grows(stages.pre_update, w1, res, held);
    lemma_stage_grows(stages.update, w2, res, held);
    lemma_stage_grows(stages.post_update, w3, res, held);
    lemma_stage_grows(stages.last, w4, res, held);
    lemma_stage_keeps_order(stages.first, w, res, held);
    lemma_stage_keeps_order(stages.pre_update, w1, res, held);
    lemma_stage_keeps_order(stages.update, w2, res, held);
    lemma_stage_keeps_order(stages.post_update, w3, res, held);
    lemma_stage_keeps_order(stages.last, w4, res, held);
    assert forall|e1: int, e2: int, s: Entity| bomb_of(w5, e1, s) && bomb_of(w5, e2, s) implies e1 == e2 by {
        lemma_at_most_one_bomb(w5, e1, e2, s);
    }
}

proof fn lemma_systems_keep_len(systems: Seq<SystemId>, w: WorldView, res: &Resources, held: Seq<Option<Inv>>, n: int)
    requires
        0 <= n <= systems.len(),
    ensures
        run_systems_upto(systems, w, res, held, n).entities.len() == w.entities.len(),
    decreases n,
{
    if n > 0 {
        lemma_systems_keep_len(systems, w, res, held, n - 1);
        lemma_systems_keep_entities(systems[n - 1], run_systems_upto(systems, w, res, held, n - 1), res, held);
    }
}

proof fn lemma_stage_grows(systems: Seq<SystemId>, w: WorldView, res: &Resources, held: Seq<Option<Inv>>)
    ensures
        run_stage_spec(systems, w, res, held).entities.len() >= w.entities.len(),
{
    let n = systems.len() as int;
    lemma_systems_keep_len(systems, w, res, held, n);
    let u = run_systems_upto(systems, w, res, held, n);
    lemma_apply_grows(WorldView { commands: Seq::empty(), ..u }, res, u.commands, u.commands.len() as int);
}

/// A world without bombs and with an empty queue is in order.
pub proof fn lemma_fresh_world_in_order(w: WorldView)
    requires
        w.commands.len() == 0,
        forall|e: int| 0 <= e < w.entities.len() ==> (#[trigger] w.entities[e]).dehydrate_out_of_bounds is None,
    ensures
        world_in_order(w),
{
}

} // verus!
