//! The walk state: a player on the ground who moves sideways.

use vstd::prelude::*;
use crate::assets::{AnimName, PlayerMeta, ANIM_WALK};
use crate::audio::AudioEvent;
use crate::components::{AnimationBankSprite, AtlasSprite, KinematicBody};
use crate::input::PlayerControl;
use crate::math::{fx_add, fx_mul, fx_mul_spec, saturate, Vec2};
use crate::player_state::{PlayerState, PlayerStateId};
use crate::schedule::{CoreStage, SessionBuilder, SystemId};
use crate::world::{EntityData, Resources, World, WorldView};

verus! {

/// How far the stick must point down for a walking player to crouch.
pub const CROUCH_THRESHOLD: i32 = -500;

/// Identifier of this state.
pub fn id() -> (id: PlayerStateId)
    ensures
        id == PlayerStateId::Walk,
{
    PlayerStateId::Walk
}

/// The state a walking player changes to, if any. The guards are tried in this order
/// and the first that holds decides: ragdoll was just pressed; the player left the
/// ground; the stick points down past the crouch threshold; the stick does not point
/// sideways. If none holds the player keeps walking.
pub open spec fn next_state_spec(
    control: PlayerControl,
    body: KinematicBody,
) -> Option<PlayerStateId> {
    if control.ragdoll_just_pressed {
        Some(PlayerStateId::Ragdoll)
    } else if !body.is_on_ground {
        Some(PlayerStateId::Midair)
    } else if control.move_direction.y < CROUCH_THRESHOLD {
        Some(PlayerStateId::Crouch)
    } else if control.move_direction.x == 0 {
        Some(PlayerStateId::Idle)
    } else {
        None
    }
}

/// The state a walking player changes to, if any.
pub fn next_state(control: &PlayerControl, body: &KinematicBody) -> (next: Option<PlayerStateId>)
    ensures
        next == next_state_spec(*control, *body),
{
    if control.ragdoll_just_pressed {
        Some(PlayerStateId::Ragdoll)
    } else if !body.is_on_ground {
        Some(PlayerStateId::Midair)
    } else if control.move_direction.y < CROUCH_THRESHOLD {
        Some(PlayerStateId::Crouch)
    } else if control.move_direction.x == 0 {
        Some(PlayerStateId::Idle)
    } else {
        None
    }
}

/// The input of the walking player in slot `i`, if that slot holds a live entity with a
/// seat that has input, a state that says walk, and a body.
pub open spec fn walker_control(w: WorldView, res: &Resources, i: int) -> Option<PlayerControl> {
    let e = w.entities[i];
    match (e.player_idx, e.player_state, e.body) {
        (Some(idx), Some(state), Some(_)) if e.alive && state.served_by(PlayerStateId::Walk) => match res.inputs.seat_spec(
            idx.0,
        ) {
            Some(input) => Some(input.control),
            None => None,
        },
        _ => None,
    }
}

/// The world after the walking player in slot `i`, if there is one, has been tried for
/// a change of state. A player who changes enters the new state with age zero.
pub open spec fn transition_entity_spec(w: WorldView, res: &Resources, i: int) -> WorldView
    recommends
        0 <= i < w.entities.len(),
{
    let e = w.entities[i];
    match walker_control(w, res, i) {
        Some(control) => match next_state_spec(control, e.body.unwrap()) {
            Some(next) => w.with(i, EntityData { player_state: Some(PlayerState::entered(next)), ..e }),
            None => w,
        },
        None => w,
    }
}

/// The world after the walking players in the first `n` slots have been tried for a
/// change of state.
pub open spec fn transition_upto(w: WorldView, res: &Resources, n: int) -> WorldView
    decreases n,
{
    if n <= 0 {
        w
    } else {
        transition_entity_spec(transition_upto(w, res, n - 1), res, n - 1)
    }
}

/// The world after the transition pass has dealt with the first `n` slots: each of them
/// is as the guards, tried on the world before the pass, leave it.
pub open spec fn transition_pass_upto(w: WorldView, res: &Resources, n: int) -> WorldView {
    WorldView {
        entities: Seq::new(
            w.entities.len(),
            |j: int|
                if j < n {
                    transition_entity_spec(w, res, j).entities[j]
                } else {
                    w.entities[j]
                },
        ),
        ..w
    }
}

/// Visiting the slots one after another gives the world in which every walking player
/// has been tried once, on its own state, body and input.
pub proof fn lemma_transition_pass(w: WorldView, res: &Resources, n: int)
    requires
        0 <= n <= w.entities.len(),
    ensures
        transition_upto(w, res, n) == transition_pass_upto(w, res, n),
    decreases n,
{
    if n > 0 {
        lemma_transition_pass(w, res, n - 1);
    }
}

/// Lets every walking player change state where a guard holds. A player changes state
/// at most once, and players in other states are not touched.
pub fn player_state_transition(world: &mut World, res: &Resources)
    ensures
        final(world)@ == transition_pass_upto(old(world)@, res, old(world)@.entities.len() as int),
        final(world)@ == transition_upto(old(world)@, res, old(world)@.entities.len() as int),
        final(world)@.entities.len() == old(world)@.entities.len(),
{
    proof {
        lemma_transition_pass(old(world)@, res, old(world)@.entities.len() as int);
    }
    let n = world.entities.len();
    let mut i: usize = 0;
    while i < n
        invariant
            i <= n,
            n == old(world)@.entities.len(),
            world@.entities.len() == n,
            world@ == transition_upto(old(world)@, res, i as int),
        decreases n - i,
    {
        let e = world.entities[i];
        if e.alive {
            if let (Some(idx), Some(state), Some(body)) = (e.player_idx, e.player_state, e.body) {
                if state.is(PlayerStateId::Walk) {
                    if let Some(input) = res.inputs.seat(idx.0) {
                        if let Some(next) = next_state(&input.control, &body) {
                            let mut slot = e;
                            slot.player_state = Some(PlayerState::new(next));
                            world.put(i, slot);
                        }
                    }
                }
            }
        }
        i = i + 1;
    }
}

/// Horizontal velocity of a walking player after one tick: the velocity before, pushed
/// by the acceleration times the stick's sideways deflection, and then held to the walk
/// speed times that deflection, from above when the stick points right or rests, from
/// below when it points left.
pub open spec fn walk_velocity_spec(
    velocity_x: i32,
    accel: i32,
    walk_speed: i32,
    move_x: i32,
) -> int {
    let pushed = saturate(velocity_x as int + fx_mul_spec(accel as int, move_x as int));
    let limit = fx_mul_spec(walk_speed as int, move_x as int);
    if move_x >= 0 {
        if pushed < limit {
            pushed
        } else {
            limit
        }
    } else {
        if pushed > limit {
            pushed
        } else {
            limit
        }
    }
}

/// Horizontal velocity of a walking player after one tick.
pub fn walk_velocity(velocity_x: i32, accel: i32, walk_speed: i32, move_x: i32) -> (v: i32)
    ensures
        v as int == walk_velocity_spec(velocity_x, accel, walk_speed, move_x),
        move_x >= 0 ==> v as int <= fx_mul_spec(walk_speed as int, move_x as int),
        move_x < 0 ==> v as int >= fx_mul_spec(walk_speed as int, move_x as int),
{
    let pushed = fx_add(velocity_x, fx_mul(accel, move_x));
    let limit = fx_mul(walk_speed, move_x);
    if move_x >= 0 {
        if pushed < limit {
            pushed
        } else {
            limit
        }
    } else {
        if pushed > limit {
            pushed
        } else {
            limit
        }
    }
}

/// The facing of a sprite after its owner has walked: mirrored when the stick points
/// left, unmirrored when it points right, unchanged when it rests.
pub open spec fn facing_spec(flip_x: bool, move_x: i32) -> bool {
    if move_x > 0 {
        false
    } else if move_x < 0 {
        true
    } else {
        flip_x
    }
}

/// What the walking player in slot `i` walks with: its input and the settings of the
/// character it plays. Nothing if the slot holds no walking player with an animation
/// bank and a sprite, or if the character's settings are not loaded.
pub open spec fn walker_spec(
    w: WorldView,
    res: &Resources,
    i: int,
) -> Option<(PlayerControl, PlayerMeta)> {
    let e = w.entities[i];
    match (e.player_idx, e.player_state, e.body, e.animation_bank, e.sprite) {
        (Some(idx), Some(state), Some(_), Some(_), Some(_)) if e.alive && state.served_by(
            PlayerStateId::Walk,
        ) => match res.inputs.seat_spec(idx.0) {
            Some(input) => match res.assets.player_spec(input.selected_player) {
                Some(meta) => Some((input.control, meta)),
                None => None,
            },
            None => None,
        },
        _ => None,
    }
}

/// The walking player after one tick of walking.
pub open spec fn walked_spec(e: EntityData, control: PlayerControl, meta: PlayerMeta) -> EntityData
    recommends
        e.player_state is Some,
        e.body is Some,
        e.animation_bank is Some,
        e.sprite is Some,
{
    let body = e.body.unwrap();
    EntityData {
        animation_bank: Some(
            if e.player_state.unwrap().age == 0 {
                AnimationBankSprite { current: AnimName { id: ANIM_WALK } }
            } else {
                e.animation_bank.unwrap()
            },
        ),
        body: Some(
            KinematicBody {
                velocity: Vec2 {
                    x: walk_velocity_spec(
                        body.velocity.x,
                        meta.stats.accel_walk_speed,
                        meta.stats.walk_speed,
                        control.move_direction.x,
                    ) as i32,
                    y: if control.jump_just_pressed {
                        meta.stats.jump_speed
                    } else {
                        body.velocity.y
                    },
                },
                ..body
            },
        ),
        sprite: Some(
            AtlasSprite { flip_x: facing_spec(e.sprite.unwrap().flip_x, control.move_direction.x), ..e.sprite.unwrap() },
        ),
        ..e
    }
}

/// The world after the walking player in slot `i`, if there is one, has walked for a
/// tick. On its first tick in the state the player takes up the walk animation. A jump
/// that was just pressed is heard and sets the upward velocity, once per press. The
/// player speeds up sideways within the walk speed, and its sprite faces the way the
/// stick points.
pub open spec fn update_entity_spec(w: WorldView, res: &Resources, i: int) -> WorldView
    recommends
        0 <= i < w.entities.len(),
{
    match walker_spec(w, res, i) {
        Some((control, meta)) => {
            let w = w.with(i, walked_spec(w.entities[i], control, meta));
            if control.jump_just_pressed {
                w.play_sound(
                    AudioEvent::PlaySound { sound_source: meta.sounds.jump, volume: meta.sounds.jump_volume },
                )
            } else {
                w
            }
        },
        None => w,
    }
}

/// The world after the walking players in the first `n` slots have walked for a tick.
pub open spec fn update_upto(w: WorldView, res: &Resources, n: int) -> WorldView
    decreases n,
{
    if n <= 0 {
        w
    } else {
        update_entity_spec(update_upto(w, res, n - 1), res, n - 1)
    }
}

fn update_entity(world: &mut World, res: &Resources, i: usize)
    requires
        i < old(world)@.entities.len(),
    ensures
        final(world)@ == update_entity_spec(old(world)@, res, i as int),
        final(world)@.entities.len() == old(world)@.entities.len(),
{
    let e = world.entities[i];
    if !e.alive {
        return ;
    }
    let (idx, state, body, animation, sprite) = match (
        e.player_idx,
        e.player_state,
        e.body,
        e.animation_bank,
        e.sprite,
    ) {
        (Some(idx), Some(state), Some(body), Some(animation), Some(sprite)) => (
            idx,
            state,
            body,
            animation,
            sprite,
        ),
        _ => {
            return ;
        },
    };
    if !state.is(PlayerStateId::Walk) {
        return ;
    }
    let input = match res.inputs.seat(idx.0) {
        Some(input) => input,
        None => {
            return ;
        },
    };
    let meta = match res.assets.player(input.selected_player) {
        Some(meta) => meta,
        None => {
            return ;
        },
    };
    let control = input.control;
    let mut slot = e;
    // If this is the first frame of this state, set our animation.
    if state.age == 0 {
        slot.animation_bank = Some(AnimationBankSprite { current: AnimName { id: ANIM_WALK } });
    }
    let mut moved = body;
    // If we are jumping, move up.
    if control.jump_just_pressed {
        moved.velocity.y = meta.stats.jump_speed;
    }
    // Walk in movement direction.
    moved.velocity.x = walk_velocity(
        body.velocity.x,
        meta.stats.accel_walk_speed,
        meta.stats.walk_speed,
        control.move_direction.x,
    );
    slot.body = Some(moved);
    // Point in movement direction.
    let mut facing = sprite;
    if control.move_direction.x > 0 {
        facing.flip_x = false;
    } else if control.move_direction.x < 0 {
        facing.flip_x = true;
    }
    slot.sprite = Some(facing);
    world.put(i, slot);
    if control.jump_just_pressed {
        world.audio.play_sound(meta.sounds.jump, meta.sounds.jump_volume);
    }
}

/// The jump sounds of the walking players in the first `n` slots, in ascending order.
pub open spec fn jump_sounds_upto(w: WorldView, res: &Resources, n: int) -> Seq<AudioEvent>
    decreases n,
{
    if n <= 0 {
        Seq::empty()
    } else {
        match walker_spec(w, res, n - 1) {
            Some((control, meta)) if control.jump_just_pressed => jump_sounds_upto(w, res, n - 1).push(
                AudioEvent::PlaySound { sound_source: meta.sounds.jump, volume: meta.sounds.jump_volume },
            ),
            _ => jump_sounds_upto(w, res, n - 1),
        }
    }
}

/// The world after the walk pass has dealt with the first `n` slots: each walking
/// player among them has walked for a tick, and the jumps are heard in ascending order
/// of the slots.
pub open spec fn update_pass_upto(w: WorldView, res: &Resources, n: int) -> WorldView {
    WorldView {
        entities: Seq::new(
            w.entities.len(),
            |j: int|
                match walker_spec(w, res, j) {
                    Some((control, meta)) if j < n => walked_spec(w.entities[j], control, meta),
                    _ => w.entities[j],
                },
        ),
        audio: w.audio + jump_sounds_upto(w, res, n),
        ..w
    }
}

/// Visiting the slots one after another gives the world in which every walking player
/// has walked once, on its own state, body and input.
pub proof fn lemma_update_pass(w: WorldView, res: &Resources, n: int)
    requires
        0 <= n <= w.entities.len(),
    ensures
        update_upto(w, res, n) == update_pass_upto(w, res, n),
    decreases n,
{
    if n > 0 {
        lemma_update_pass(w, res, n - 1);
    }
}

/// Moves every walking player for one tick. Players in other states are not touched.
pub fn handle_player_state(world: &mut World, res: &Resources)
    ensures
        final(world)@ == update_pass_upto(old(world)@, res, old(world)@.entities.len() as int),
        final(world)@ == update_upto(old(world)@, res, old(world)@.entities.len() as int),
        final(world)@.entities.len() == old(world)@.entities.len(),
{
    proof {
        lemma_update_pass(old(world)@, res, old(world)@.entities.len() as int);
    }
    let n = world.entities.len();
    let mut i: usize = 0;
    while i < n
        invariant
            i <= n,
            n == old(world)@.entities.len(),
            world@.entities.len() == n,
            world@ == update_upto(old(world)@, res, i as int),
        decreases n - i,
    {
        update_entity(world, res, i);
        i = i + 1;
    }
}

/// The walk module serves exactly the players whose state says walk: a slot that holds
/// anything else comes out of both of the module's routines as it went in.
pub proof fn lemma_walk_serves_walkers_only(w: WorldView, res: &Resources, i: int)
    requires
        0 <= i < w.entities.len(),
        !(w.entities[i].player_state matches Some(state) && state.served_by(PlayerStateId::Walk)),
    ensures
        transition_entity_spec(w, res, i) == w,
        update_entity_spec(w, res, i) == w,
{
}

/// A player changes state at most once per tick: whoever leaves the walk state is not
/// tried again by the walk module, and enters the new state with age zero.
pub proof fn lemma_one_transition_per_tick(w: WorldView, res: &Resources, i: int)
    requires
        0 <= i < w.entities.len(),
        transition_entity_spec(w, res, i) != w,
    ensures
        ({
            let after = transition_entity_spec(w, res, i);
            &&& after.entities[i].player_state matches Some(state) && state.age == 0 && !state.served_by(
                PlayerStateId::Walk,
            )
            &&& transition_entity_spec(after, res, i) == after
        }),
{
}

/// Installs the walk state into a session: its changes of state are decided before the
/// update; in the update walking players walk and then get to use, drop or grab items.
pub fn install(session: &mut SessionBuilder)
    ensures
        final(session).stages@ == old(session).stages@.add(CoreStage::PreUpdate, SystemId::WalkTransition).add(
            CoreStage::Update,
            SystemId::WalkUpdate,
        ).add(CoreStage::Update, SystemId::UseDropOrGrabItems(PlayerStateId::Walk)),
        final(session).schemas == old(session).schemas,
{
    PlayerState::add_player_state_transition_system(session, SystemId::WalkTransition);
    PlayerState::add_player_state_update_system(session, SystemId::WalkUpdate);
    PlayerState::add_player_state_update_system(session, SystemId::UseDropOrGrabItems(id()));
}

} // verus!
