//! Running the systems of a tick.

use vstd::prelude::*;
use crate::commands::{apply_commands, drain_spec, queue_sound, skipped_upto, Skipped};
use crate::debug::{
    damage_outlines_upto, debug_render_damage_regions, debug_render_emote_regions, emote_outlines_upto,
};
use crate::hydration::{hydrate, hydrate_upto};
use crate::idle_bombs::{update_idle_kick_bombs, update_idle_upto};
use crate::inventories::PlayerInventories;
use crate::item::{drop_items, drop_upto, grab_items, grab_upto, Inv};
use crate::item_throw::{throw_dropped_items, throw_upto};
use crate::lifetime::{lifetimes_upto, update_lifetimes};
use crate::lit_bombs::{update_lit_kick_bombs, update_lit_upto};
use crate::player_state::{age_upto, update_player_state_age};
use crate::schedule::{CoreStage, StagesView, SystemId, SystemStages};
use crate::slot_laws::{lemma_tick_keeps_order, lit_once_per_stage, world_in_order};
use crate::tick_laws::{idle_or_lit, lemma_system_keeps_queue_sound, lemma_tick_keeps_idle_or_lit};
use crate::walk::{handle_player_state, player_state_transition, transition_upto, update_upto};
use crate::world::{Resources, World, WorldView};

verus! {

/// The host runs this system; the simulation only keeps its place in the order.
pub open spec fn is_host_system(system: SystemId) -> bool {
    system is Music || system is UseDropOrGrabItems || system is DebugRenderColliders
}

/// The world after one system has run. A system that looks through the store does so
/// slot by slot in ascending order; one that needs to know who carries what works from
/// `held`, the snapshot of the inventories taken at the start of the tick. A system of
/// the host leaves the world as it is.
pub open spec fn run_system_spec(
    system: SystemId,
    w: WorldView,
    res: &Resources,
    held: Seq<Option<Inv>>,
) -> WorldView {
    let n = w.entities.len() as int;
    match system {
        SystemId::Hydrate => hydrate_upto(w, res, n),
        SystemId::UpdateLitKickBombs => update_lit_upto(w, res, held, n),
        SystemId::UpdateIdleKickBombs => update_idle_upto(w, res, n),
        SystemId::GrabItems => grab_upto(w, n),
        SystemId::DropItems => drop_upto(w, held, held.len() as int),
        SystemId::ThrowDroppedItems => throw_upto(w, res, n),
        SystemId::WalkTransition => transition_upto(w, res, n),
        SystemId::WalkUpdate => update_upto(w, res, n),
        SystemId::PlayerStateAge => age_upto(w, n),
        SystemId::Lifetimes => lifetimes_upto(w, res, n),
        SystemId::DebugRenderDamageRegions => damage_outlines_upto(w, res, n),
        SystemId::DebugRenderEmoteRegions => emote_outlines_upto(w, res, n),
        SystemId::Music => w,
        SystemId::UseDropOrGrabItems(_) => w,
        SystemId::DebugRenderColliders => w,
    }
}

/// Runs one system. Returns whether it ran: a system of the host is not run here, and
/// is left for the host to run at this point of the tick.
pub fn run_system(
    system: SystemId,
    world: &mut World,
    res: &Resources,
    player_inventories: &PlayerInventories,
) -> (ran: bool)
    ensures
        final(world)@ == run_system_spec(system, old(world)@, res, player_inventories@),
        ran == !is_host_system(system),
{
    match system {
        SystemId::Hydrate => {
            hydrate(world, res);
            true
        },
        SystemId::UpdateLitKickBombs => {
            update_lit_kick_bombs(world, res, player_inventories);
            true
        },
        SystemId::UpdateIdleKickBombs => {
            update_idle_kick_bombs(world, res);
            true
        },
        SystemId::GrabItems => {
            grab_items(world);
            true
        },
        SystemId::DropItems => {
            drop_items(world, player_inventories);
            true
        },
        SystemId::ThrowDroppedItems => {
            throw_dropped_items(world, res);
            true
        },
        SystemId::WalkTransition => {
            player_state_transition(world, res);
            true
        },
        SystemId::WalkUpdate => {
            handle_player_state(world, res);
            true
        },
        SystemId::PlayerStateAge => {
            update_player_state_age(world);
            true
        },
        SystemId::Lifetimes => {
            update_lifetimes(world, res);
            true
        },
        SystemId::DebugRenderDamageRegions => {
            debug_render_damage_regions(world, res);
            true
        },
        SystemId::DebugRenderEmoteRegions => {
            debug_render_emote_regions(world, res);
            true
        },
        SystemId::Music => false,
        SystemId::UseDropOrGrabItems(_) => false,
        SystemId::DebugRenderColliders => false,
    }
}

/// The world after the first `n` of `systems` have run in order.
pub open spec fn run_systems_upto(
    systems: Seq<SystemId>,
    w: WorldView,
    res: &Resources,
    held: Seq<Option<Inv>>,
    n: int,
) -> WorldView
    decreases n,
{
    if n <= 0 {
        w
    } else {
        run_system_spec(systems[n - 1], run_systems_upto(systems, w, res, held, n - 1), res, held)
    }
}

/// The systems of the host among the first `n` of `systems`, in order.
pub open spec fn host_systems_upto(systems: Seq<SystemId>, n: int) -> Seq<SystemId>
    decreases n,
{
    if n <= 0 {
        Seq::empty()
    } else if is_host_system(systems[n - 1]) {
        host_systems_upto(systems, n - 1).push(systems[n - 1])
    } else {
        host_systems_upto(systems, n - 1)
    }
}

/// The world after a stage: its systems have run in registration order, and then the
/// command queue has been drained.
pub open spec fn run_stage_spec(
    systems: Seq<SystemId>,
    w: WorldView,
    res: &Resources,
    held: Seq<Option<Inv>>,
) -> WorldView {
    drain_spec(run_systems_upto(systems, w, res, held, systems.len() as int), res)
}

/// The world after a tick: the snapshot of the inventories has been taken, and the five
/// stages have run in their fixed order, all sharing that snapshot.
pub open spec fn run_tick_spec(stages: StagesView, w: WorldView, res: &Resources) -> WorldView {
    let held = PlayerInventories::snapshot(w);
    let w = run_stage_spec(stages.first, w, res, held);
    let w = run_stage_spec(stages.pre_update, w, res, held);
    let w = run_stage_spec(stages.update, w, res, held);
    let w = run_stage_spec(stages.post_update, w, res, held);
    run_stage_spec(stages.last, w, res, held)
}

/// The systems of the host in a tick, in the order of the tick.
pub open spec fn host_systems_spec(stages: StagesView) -> Seq<SystemId> {
    host_systems_upto(stages.first, stages.first.len() as int) + host_systems_upto(
        stages.pre_update,
        stages.pre_update.len() as int,
    ) + host_systems_upto(stages.update, stages.update.len() as int) + host_systems_upto(
        stages.post_update,
        stages.post_update.len() as int,
    ) + host_systems_upto(stages.last, stages.last.len() as int)
}

/// The commands that the drain at the end of a stage skips.
pub open spec fn stage_skipped_spec(
    systems: Seq<SystemId>,
    w: WorldView,
    res: &Resources,
    held: Seq<Option<Inv>>,
) -> Seq<Skipped> {
    let queue = run_systems_upto(systems, w, res, held, systems.len() as int).commands;
    skipped_upto(res, queue, queue.len() as int)
}

/// The commands that the drains of a tick skip, stage by stage.
pub open spec fn tick_skipped_spec(
    stages: StagesView,
    w: WorldView,
    res: &Resources,
) -> Seq<Skipped> {
    let held = PlayerInventories::snapshot(w);
    let w1 = run_stage_spec(stages.first, w, res, held);
    let w2 = run_stage_spec(stages.pre_update, w1, res, held);
    let w3 = run_stage_spec(stages.update, w2, res, held);
    let w4 = run_stage_spec(stages.post_update, w3, res, held);
    stage_skipped_spec(stages.first, w, res, held) + stage_skipped_spec(stages.pre_update, w1, res, held)
        + stage_skipped_spec(stages.update, w2, res, held) + stage_skipped_spec(
        stages.post_update,
        w3,
        res,
        held,
    ) + stage_skipped_spec(stages.last, w4, res, held)
}

/// What a tick leaves for the host to deal with.
pub struct TickReport {
    /// The systems of the host that the tick holds, in order. They have not run.
    pub left_to_host: Vec<SystemId>,
    /// The commands that could not be carried out, in order, each with its position in
    /// the queue of the stage that recorded it.
    pub skipped: Vec<Skipped>,
}

/// Runs one stage: every system registered to it, in registration order, and then the
/// drain of the command queue. `player_inventories` is the snapshot taken at the start
/// of the tick. Every command that waits in the queue when the stage starts must be
/// sound. The systems of the host that the stage holds are appended to `left_to_host`.
/// Returns the commands that the drain had to skip.
pub fn run_stage(
    stages: &SystemStages,
    stage: CoreStage,
    world: &mut World,
    res: &Resources,
    player_inventories: &PlayerInventories,
    left_to_host: &mut Vec<SystemId>,
) -> (skipped: Vec<Skipped>)
    requires
        queue_sound(old(world)@.commands),
    ensures
        final(world)@ == run_stage_spec(stages@.systems(stage), old(world)@, res, player_inventories@),
        final(world)@.commands.len() == 0,
        final(left_to_host)@ == old(left_to_host)@ + host_systems_upto(
            stages@.systems(stage),
            stages@.systems(stage).len() as int,
        ),
        skipped@ == stage_skipped_spec(stages@.systems(stage), old(world)@, res, player_inventories@),
{
    let systems = stages.systems(stage);
    let mut k: usize = 0;
    while k < systems.len()
        invariant
            k <= systems@.len(),
            systems@ == stages@.systems(stage),
            world@ == run_systems_upto(systems@, old(world)@, res, player_inventories@, k as int),
            queue_sound(world@.commands),
            left_to_host@ == old(left_to_host)@ + host_systems_upto(systems@, k as int),
        decreases systems@.len() - k,
    {
        let system = systems[k];
        proof {
            lemma_system_keeps_queue_sound(system, world@, res, player_inventories@);
        }
        if !run_system(system, world, res, player_inventories) {
            left_to_host.push(system);
        }
        k = k + 1;
    }
    apply_commands(world, res)
}

/// Runs one tick: takes the snapshot of the inventories, then runs the five stages in
/// their fixed order, each followed by the drain of the command queue. Reports the
/// systems of the host that the tick holds, which have not run, and the commands that
/// had to be skipped.
///
/// Every command that waits in the queue when the tick starts must be sound. A tick
/// leaves the queue empty, and it keeps every bomb idle or lit, never both. If no
/// stage runs the pass over the lit bombs twice, a tick that starts with an empty queue
/// also keeps the ties between map slots and their bombs in order: if no map slot has
/// two live bombs before the tick, none has after.
pub fn run_tick(stages: &SystemStages, world: &mut World, res: &Resources) -> (report: TickReport)
    requires
        queue_sound(old(world)@.commands),
    ensures
        final(world)@ == run_tick_spec(stages@, old(world)@, res),
        final(world)@.commands.len() == 0,
        report.left_to_host@ == host_systems_spec(stages@),
        report.skipped@ == tick_skipped_spec(stages@, old(world)@, res),
        idle_or_lit(old(world)@) ==> idle_or_lit(final(world)@),
        world_in_order(old(world)@) && old(world)@.commands.len() == 0 && lit_once_per_stage(stages@)
            ==> world_in_order(final(world)@),
{
    let player_inventories = PlayerInventories::get_state(world);
    let mut left_to_host: Vec<SystemId> = Vec::new();
    let mut skipped = run_stage(stages, CoreStage::First, world, res, &player_inventories, &mut left_to_host);
    let mut more = run_stage(stages, CoreStage::PreUpdate, world, res, &player_inventories, &mut left_to_host);
    skipped.append(&mut more);
    let mut more = run_stage(stages, CoreStage::Update, world, res, &player_inventories, &mut left_to_host);
    skipped.append(&mut more);
    let mut more = run_stage(stages, CoreStage::PostUpdate, world, res, &player_inventories, &mut left_to_host);
    skipped.append(&mut more);
    let mut more = run_stage(stages, CoreStage::Last, world, res, &player_inventories, &mut left_to_host);
    skipped.append(&mut more);
    proof {
        if idle_or_lit(old(world)@) {
            lemma_tick_keeps_idle_or_lit(stages@, old(world)@, res);
        }
        if world_in_order(old(world)@) && old(world)@.commands.len() == 0 && lit_once_per_stage(stages@) {
            assert(world@.entities.len() == world.entities.len());
            lemma_tick_keeps_order(stages@, old(world)@, res);
        }
    }
    TickReport { left_to_host, skipped }
}

/// The world after the systems of `systems` from position `from` up to, not including,
/// position `to` have run in order.
pub open spec fn run_systems_between(
    systems: Seq<SystemId>,
    w: WorldView,
    res: &Resources,
    held: Seq<Option<Inv>>,
    from: int,
    to: int,
) -> WorldView
    decreases to - from,
{
    if to <= from {
        w
    } else {
        run_system_spec(systems[to - 1], run_systems_between(systems, w, res, held, from, to - 1), res, held)
    }
}

/// Position of the first system of the host at or after position `from`; the length of
/// `systems` if there is none.
pub open spec fn next_host(systems: Seq<SystemId>, from: int) -> int
    decreases systems.len() - from,
{
    if from < 0 || from >= systems.len() {
        systems.len() as int
    } else if is_host_system(systems[from]) {
        from
    } else {
        next_host(systems, from + 1)
    }
}

/// Where a run through a stage came to a halt.
pub enum StageStop {
    /// At the system of the host at this position of the stage, which is to run next.
    AtHost(usize),
    /// At the end of the stage, after the drain of the command queue, which had to skip
    /// these commands.
    Drained(Vec<Skipped>),
}

/// Runs the systems of a stage from position `from` up to the next system of the host
/// and halts there, for the host to run that system and to call again from the
/// position after it. If no system of the host is left, runs the stage to its end and
/// drains the command queue. Every command that waits in the queue must be sound.
pub fn run_to_host(
    stages: &SystemStages,
    stage: CoreStage,
    from: usize,
    world: &mut World,
    res: &Resources,
    player_inventories: &PlayerInventories,
) -> (stop: StageStop)
    requires
        queue_sound(old(world)@.commands),
        from <= stages@.systems(stage).len(),
    ensures
        ({
            let systems = stages@.systems(stage);
            let halt = next_host(systems, from as int);
            let ran = run_systems_between(systems, old(world)@, res, player_inventories@, from as int, halt);
            match stop {
                StageStop::AtHost(at) => at == halt && halt < systems.len() && is_host_system(systems[halt])
                    && final(world)@ == ran,
                StageStop::Drained(skipped) => halt == systems.len() && final(world)@ == drain_spec(ran, res)
                    && skipped@ == skipped_upto(res, ran.commands, ran.commands.len() as int),
            }
        }),
{
    let systems = stages.systems(stage);
    let mut k: usize = from;
    while k < systems.len()
        invariant
            from <= k <= systems@.len(),
            systems@ == stages@.systems(stage),
            next_host(systems@, k as int) == next_host(systems@, from as int),
            world@ == run_systems_between(systems@, old(world)@, res, player_inventories@, from as int, k as int),
            queue_sound(world@.commands),
        decreases systems@.len() - k,
    {
        let system = systems[k];
        proof {
            lemma_system_keeps_queue_sound(system, world@, res, player_inventories@);
        }
        if !run_system(system, world, res, player_inventories) {
            return StageStop::AtHost(k);
        }
        k = k + 1;
    }
    StageStop::Drained(apply_commands(world, res))
}

} // verus!
