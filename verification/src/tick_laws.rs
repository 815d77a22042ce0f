//! What every tick keeps true of a world.
//!
//! First, entities appear and vanish only when the command queue is drained: no system
//! makes or destroys one.
//!
//! Second, a bomb is idle or lit, never both, and it changes from the one to the other
//! only when the command queue is drained.
//!
//! Third, the systems record only commands that can be carried out, so a tick that
//! starts with a sound queue can drain it after every stage.

use vstd::prelude::*;
use crate::commands::{apply_upto, queue_sound, Command};
use crate::debug::{damage_outline_spec, damage_outlines_upto, emote_outline_spec, emote_outlines_upto};
use crate::hydration::{hydrate_entity_spec, hydrate_upto};
use crate::idle_bombs::{update_idle_entity_spec, update_idle_upto};
use crate::inventories::PlayerInventories;
use crate::item::{drop_seat_spec, drop_upto, grab_entity_spec, grab_upto, Inv};
use crate::item_throw::{throw_entity_spec, throw_upto};
use crate::lifetime::{lifetime_entity_spec, lifetimes_upto};
use crate::lit_bombs::{update_lit_entity_spec, update_lit_upto};
use crate::player_state::{age_entity_spec, age_upto};
use crate::schedule::{StagesView, SystemId};
use crate::tick::{run_stage_spec, run_system_spec, run_systems_upto, run_tick_spec};
use crate::walk::{transition_entity_spec, transition_upto, update_entity_spec, update_upto};
use crate::world::{Resources, WorldView};

verus! {

/// The two worlds hold the same entities: the same slots, and the same of them alive.
pub open spec fn same_entities(w: WorldView, v: WorldView) -> bool {
    &&& v.entities.len() == w.entities.len()
    &&& forall|j: int| 0 <= j < w.entities.len() ==> (#[trigger] v.entities[j]).alive == w.entities[j].alive
}

/// No entity is an idle bomb and a lit bomb at once.
pub open spec fn idle_or_lit(w: WorldView) -> bool {
    forall|e: int|
        0 <= e < w.entities.len() ==> !((#[trigger] w.entities[e]).idle_kick_bomb is Some
            && w.entities[e].lit_kick_bomb is Some)
}

/// From `w` to `v` no bomb has become idle or lit.
pub open spec fn none_lit(w: WorldView, v: WorldView) -> bool {
    &&& v.entities.len() == w.entities.len()
    &&& forall|j: int|
        0 <= j < w.entities.len() ==> (#[trigger] v.entities[j]).idle_kick_bomb == w.entities[j].idle_kick_bomb
            && (v.entities[j].lit_kick_bomb is Some ==> w.entities[j].lit_kick_bomb is Some)
}

/// From `w` to `v` the queue has only grown, and by commands that can be carried out.
pub open spec fn queue_grown(w: WorldView, v: WorldView) -> bool {
    &&& v.commands.len() >= w.commands.len()
    &&& forall|k: int| 0 <= k < w.commands.len() ==> #[trigger] v.commands[k] == w.commands[k]
    &&& forall|k: int| w.commands.len() <= k < v.commands.len() ==> (#[trigger] v.commands[k]).sound()
}

/// What a system leaves of a world: the same entities, no bomb newly idle or lit, and
/// a queue that has grown by sound commands.
pub open spec fn carried_on(w: WorldView, v: WorldView) -> bool {
    &&& same_entities(w, v)
    &&& none_lit(w, v)
    &&& queue_grown(w, v)
}

proof fn lemma_carried_on_chain(w: WorldView, v: WorldView, u: WorldView)
    requires
        carried_on(w, v),
        carried_on(v, u),
    ensures
        carried_on(w, u),
{
    assert forall|j: int| 0 <= j < w.entities.len() implies (#[trigger] u.entities[j]).alive
        == w.entities[j].alive && u.entities[j].idle_kick_bomb == w.entities[j].idle_kick_bomb && (
    u.entities[j].lit_kick_bomb is Some ==> w.entities[j].lit_kick_bomb is Some) by {
        assert(v.entities[j].alive == w.entities[j].alive);
    }
    assert forall|k: int| 0 <= k < w.commands.len() implies #[trigger] u.commands[k] == w.commands[k] by {
        assert(v.commands[k] == w.commands[k]);
    }
    assert forall|k: int| w.commands.len() <= k < u.commands.len() implies (#[trigger] u.commands[k]).sound() by {
        if k < v.commands.len() {
            assert(u.commands[k] == v.commands[k]);
        }
    }
}

proof fn lemma_hydrate_carries_on(w: WorldView, res: &Resources, n: int)
    requires
        0 <= n <= w.entities.len(),
    ensures
        carried_on(w, hydrate_upto(w, res, n)),
    decreases n,
{
    if n > 0 {
        lemma_hydrate_carries_on(w, res, n - 1);
        let v = hydrate_upto(w, res, n - 1);
        assert(carried_on(v, hydrate_entity_spec(v, res, n - 1)));
        lemma_carried_on_chain(w, v, hydrate_entity_spec(v, res, n - 1));
    }
}

proof fn lemma_lit_carries_on(w: WorldView, res: &Resources, held: Seq<Option<Inv>>, n: int)
    requires
        0 <= n <= w.entities.len(),
    ensures
        carried_on(w, update_lit_upto(w, res, held, n)),
    decreases n,
{
    if n > 0 {
        lemma_lit_carries_on(w, res, held, n - 1);
        let v = update_lit_upto(w, res, held, n - 1);
        assert(carried_on(v, update_lit_entity_spec(v, res, held, n - 1)));
        lemma_carried_on_chain(w, v, update_lit_entity_spec(v, res, held, n - 1));
    }
}

proof fn lemma_idle_carries_on(w: WorldView, res: &Resources, n: int)
    requires
        0 <= n <= w.entities.len(),
    ensures
        carried_on(w, update_idle_upto(w, res, n)),
    decreases n,
{
    if n > 0 {
        lemma_idle_carries_on(w, res, n - 1);
        let v = update_idle_upto(w, res, n - 1);
        assert(carried_on(v, update_idle_entity_spec(v, res, n - 1)));
        lemma_carried_on_chain(w, v, update_idle_entity_spec(v, res, n - 1));
    }
}

proof fn lemma_grab_carries_on(w: WorldView, n: int)
    requires
        0 <= n <= w.entities.len(),
    ensures
        carried_on(w, grab_upto(w, n)),
    decreases n,
{
    if n > 0 {
        lemma_grab_carries_on(w, n - 1);
        let v = grab_upto(w, n - 1);
        assert(carried_on(v, grab_entity_spec(v, n - 1)));
        lemma_carried_on_chain(w, v, grab_entity_spec(v, n - 1));
    }
}

proof fn lemma_drop_carries_on(w: WorldView, seats: Seq<Option<Inv>>, n: int)
    requires
        0 <= n <= seats.len(),
    ensures
        carried_on(w, drop_upto(w, seats, n)),
    decreases n,
{
    if n > 0 {
        lemma_drop_carries_on(w, seats, n - 1);
        let v = drop_upto(w, seats, n - 1);
        assert(carried_on(v, drop_seat_spec(v, seats, n - 1)));
        lemma_carried_on_chain(w, v, drop_seat_spec(v, seats, n - 1));
    }
}

proof fn lemma_throw_carries_on(w: WorldView, res: &Resources, n: int)
    requires
        0 <= n <= w.entities.len(),
    ensures
        carried_on(w, throw_upto(w, res, n)),
    decreases n,
{
    if n > 0 {
        lemma_throw_carries_on(w, res, n - 1);
        let v = throw_upto(w, res, n - 1);
        assert(carried_on(v, throw_entity_spec(v, res, n - 1)));
        lemma_carried_on_chain(w, v, throw_entity_spec(v, res, n - 1));
    }
}

proof fn lemma_transition_carries_on(w: WorldView, res: &Resources, n: int)
    requires
        0 <= n <= w.entities.len(),
    ensures
        carried_on(w, transition_upto(w, res, n)),
    decreases n,
{
    if n > 0 {
        lemma_transition_carries_on(w, res, n - 1);
        let v = transition_upto(w, res, n - 1);
        assert(carried_on(v, transition_entity_spec(v, res, n - 1)));
        lemma_carried_on_chain(w, v, transition_entity_spec(v, res, n - 1));
    }
}

proof fn lemma_walk_carries_on(w: WorldView, res: &Resources, n: int)
    requires
        0 <= n <= w.entities.len(),
    ensures
        carried_on(w, update_upto(w, res, n)),
    decreases n,
{
    if n > 0 {
        lemma_walk_carries_on(w, res, n - 1);
        let v = update_upto(w, res, n - 1);
        assert(carried_on(v, update_entity_spec(v, res, n - 1)));
        lemma_carried_on_chain(w, v, update_entity_spec(v, res, n - 1));
    }
}

proof fn lemma_age_carries_on(w: WorldView, n: int)
    requires
        0 <= n <= w.entities.len(),
    ensures
        carried_on(w, age_upto(w, n)),
    decreases n,
{
    if n > 0 {
        lemma_age_carries_on(w, n - 1);
        let v = age_upto(w, n - 1);
        assert(carried_on(v, age_entity_spec(v, n - 1)));
        lemma_carried_on_chain(w, v, age_entity_spec(v, n - 1));
    }
}

proof fn lemma_lifetimes_carries_on(w: WorldView, res: &Resources, n: int)
    requires
        0 <= n <= w.entities.len(),
    ensures
        carried_on(w, lifetimes_upto(w, res, n)),
    decreases n,
{
    if n > 0 {
        lemma_lifetimes_carries_on(w, res, n - 1);
        let v = lifetimes_upto(w, res, n - 1);
        assert(carried_on(v, lifetime_entity_spec(v, res, n - 1)));
        lemma_carried_on_chain(w, v, lifetime_entity_spec(v, res, n - 1));
    }
}

proof fn lemma_damage_outlines_carries_on(w: WorldView, res: &Resources, n: int)
    requires
        0 <= n <= w.entities.len(),
    ensures
        carried_on(w, damage_outlines_upto(w, res, n)),
    decreases n,
{
    if n > 0 {
        lemma_damage_outlines_carries_on(w, res, n - 1);
        let v = damage_outlines_upto(w, res, n - 1);
        assert(carried_on(v, damage_outline_spec(v, res, n - 1)));
        lemma_carried_on_chain(w, v, damage_outline_spec(v, res, n - 1));
    }
}

proof fn lemma_emote_outlines_carries_on(w: WorldView, res: &Resources, n: int)
    requires
        0 <= n <= w.entities.len(),
    ensures
        carried_on(w, emote_outlines_upto(w, res, n)),
    decreases n,
{
    if n > 0 {
        lemma_emote_outlines_carries_on(w, res, n - 1);
        let v = emote_outlines_upto(w, res, n - 1);
        assert(carried_on(v, emote_outline_spec(v, res, n - 1)));
        lemma_carried_on_chain(w, v, emote_outline_spec(v, res, n - 1));
    }
}

/// No system makes or destroys an entity, lights a bomb or makes one idle, or records a
/// command that cannot be carried out. Whatever a system does, the world holds the same
/// entities after it as before; entities appear and vanish, and bombs change between
/// idle and lit, only when the command queue is drained between stages.
pub proof fn lemma_systems_keep_entities(system: SystemId, w: WorldView, res: &Resources, held: Seq<Option<Inv>>)
    ensures
        same_entities(w, run_system_spec(system, w, res, held)),
        none_lit(w, run_system_spec(system, w, res, held)),
        queue_grown(w, run_system_spec(system, w, res, held)),
{
    let n = w.entities.len() as int;
    match system {
        SystemId::Hydrate => lemma_hydrate_carries_on(w, res, n),
        SystemId::UpdateLitKickBombs => lemma_lit_carries_on(w, res, held, n),
        SystemId::UpdateIdleKickBombs => lemma_idle_carries_on(w, res, n),
        SystemId::GrabItems => lemma_grab_carries_on(w, n),
        SystemId::DropItems => lemma_drop_carries_on(w, held, held.len() as int),
        SystemId::ThrowDroppedItems => lemma_throw_carries_on(w, res, n),
        SystemId::WalkTransition => lemma_transition_carries_on(w, res, n),
        SystemId::WalkUpdate => lemma_walk_carries_on(w, res, n),
        SystemId::PlayerStateAge => lemma_age_carries_on(w, n),
        SystemId::Lifetimes => lemma_lifetimes_carries_on(w, res, n),
        SystemId::DebugRenderDamageRegions => lemma_damage_outlines_carries_on(w, res, n),
        SystemId::DebugRenderEmoteRegions => lemma_emote_outlines_carries_on(w, res, n),
        SystemId::Music => {},
        SystemId::UseDropOrGrabItems(_) => {},
        SystemId::DebugRenderColliders => {},
    }
}

/// A system leaves a sound queue sound.
pub proof fn lemma_system_keeps_queue_sound(system: SystemId, w: WorldView, res: &Resources, held: Seq<Option<Inv>>)
    requires
        queue_sound(w.commands),
    ensures
        queue_sound(run_system_spec(system, w, res, held).commands),
{
    lemma_systems_keep_entities(system, w, res, held);
    let v = run_system_spec(system, w, res, held);
    assert forall|k: int| 0 <= k < v.commands.len() implies (#[trigger] v.commands[k]).sound() by {
        if k < w.commands.len() {
            assert(v.commands[k] == w.commands[k]);
        }
    }
}

/// The systems of a stage leave a sound queue sound, so the drain at the end of the
/// stage can carry out every command.
pub proof fn lemma_systems_keep_queue_sound(
    systems: Seq<SystemId>,
    w: WorldView,
    res: &Resources,
    held: Seq<Option<Inv>>,
    n: int,
)
    requires
        queue_sound(w.commands),
        0 <= n <= systems.len(),
    ensures
        queue_sound(run_systems_upto(systems, w, res, held, n).commands),
    decreases n,
{
    if n > 0 {
        lemma_systems_keep_queue_sound(systems, w, res, held, n - 1);
        lemma_system_keeps_queue_sound(systems[n - 1], run_systems_upto(systems, w, res, held, n - 1), res, held);
    }
}

/// No system lights a bomb or makes one idle: a bomb changes between idle and lit only
/// when the command queue is drained. So a system keeps every bomb idle or lit, never
/// both.
pub proof fn lemma_system_keeps_idle_or_lit(
    system: SystemId,
    w: WorldView,
    res: &Resources,
    held: Seq<Option<Inv>>,
)
    requires
        idle_or_lit(w),
    ensures
        idle_or_lit(run_system_spec(system, w, res, held)),
{
    lemma_systems_keep_entities(system, w, res, held);
    let v = run_system_spec(system, w, res, held);
    assert forall|e: int| 0 <= e < v.entities.len() implies !((#[trigger] v.entities[e]).idle_kick_bomb
        is Some && v.entities[e].lit_kick_bomb is Some) by {
        assert(!(w.entities[e].idle_kick_bomb is Some && w.entities[e].lit_kick_bomb is Some));
    }
}

/// Every command keeps every bomb idle or lit, never both: lighting takes the idle
/// marker away, and a bomb is made as the one or the other.
pub proof fn lemma_command_keeps_idle_or_lit(command: Command, w: WorldView, res: &Resources)
    requires
        idle_or_lit(w),
    ensures
        idle_or_lit(command.apply_spec(w, res)),
{
    let v = command.apply_spec(w, res);
    assert forall|e: int| 0 <= e < v.entities.len() implies !((#[trigger] v.entities[e]).idle_kick_bomb
        is Some && v.entities[e].lit_kick_bomb is Some) by {
        if e < w.entities.len() {
            assert(!(w.entities[e].idle_kick_bomb is Some && w.entities[e].lit_kick_bomb is Some));
        }
    }
}

proof fn lemma_apply_keeps_idle_or_lit(w: WorldView, res: &Resources, queue: Seq<Command>, n: int)
    requires
        idle_or_lit(w),
        0 <= n <= queue.len(),
    ensures
        idle_or_lit(apply_upto(w, res, queue, n)),
    decreases n,
{
    if n > 0 {
        lemma_apply_keeps_idle_or_lit(w, res, queue, n - 1);
        lemma_command_keeps_idle_or_lit(queue[n - 1], apply_upto(w, res, queue, n - 1), res);
    }
}

proof fn lemma_systems_keep_idle_or_lit(
    systems: Seq<SystemId>,
    w: WorldView,
    res: &Resources,
    held: Seq<Option<Inv>>,
    n: int,
)
    requires
        idle_or_lit(w),
        0 <= n <= systems.len(),
    ensures
        idle_or_lit(run_systems_upto(systems, w, res, held, n)),
    decreases n,
{
    if n > 0 {
        lemma_systems_keep_idle_or_lit(systems, w, res, held, n - 1);
        lemma_system_keeps_idle_or_lit(systems[n - 1], run_systems_upto(systems, w, res, held, n - 1), res, held);
    }
}

proof fn lemma_stage_keeps_idle_or_lit(
    systems: Seq<SystemId>,
    w: WorldView,
    res: &Resources,
    held: Seq<Option<Inv>>,
)
    requires
        idle_or_lit(w),
    ensures
        idle_or_lit(run_stage_spec(systems, w, res, held)),
{
    lemma_systems_keep_idle_or_lit(systems, w, res, held, systems.len() as int);
    let u = run_systems_upto(systems, w, res, held, systems.len() as int);
    let start = WorldView { commands: Seq::empty(), ..u };
    assert(idle_or_lit(start));
    lemma_apply_keeps_idle_or_lit(start, res, u.commands, u.commands.len() as int);
}

/// A bomb is idle or lit, never both, tick after tick: if that holds of every entity
/// before a tick, it holds after it, whatever systems are registered to the stages.
pub proof fn lemma_tick_keeps_idle_or_lit(stages: StagesView, w: WorldView, res: &Resources)
    requires
        idle_or_lit(w),
    ensures
        idle_or_lit(run_tick_spec(stages, w, res)),
{
    let held = PlayerInventories::snapshot(w);
    let w1 = run_stage_spec(stages.first, w, res, held);
    let w2 = run_stage_spec(stages.pre_update, w1, res, held);
    let w3 = run_stage_spec(stages.update, w2, res, held);
    let w4 = run_stage_spec(stages.post_update, w3, res, held);
    lemma_stage_keeps_idle_or_lit(stages.first, w, res, held);
    lemma_stage_keeps_idle_or_lit(stages.pre_update, w1, res, held);
    lemma_stage_keeps_idle_or_lit(stages.update, w2, res, held);
    lemma_stage_keeps_idle_or_lit(stages.post_update, w3, res, held);
    lemma_stage_keeps_idle_or_lit(stages.last, w4, res, held);
}

} // verus!
