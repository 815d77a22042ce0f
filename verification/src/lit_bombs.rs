//! The lit kick bombs of a world: what a tick holds for each, and the pass that
//! advances them.

use vstd::prelude::*;
use crate::audio::AudioEvent;
use crate::commands::Command;
use crate::components::{KinematicBody, Transform, EXPLOSION_DEPTH};
use crate::entity::Entity;
use crate::inventories::PlayerInventories;
use crate::item::Inv;
use crate::kick_bomb::{KickBombMeta, Kicker, LitTick};
use crate::lit_pass::{lemma_lit_pass_independent, lit_pass_spec};
use crate::math::Vec3;
use crate::world::{EntityData, Resources, World, WorldView};

verus! {

/// Strength of the camera shake of an explosion.
pub const EXPLOSION_TRAUMA: i32 = 7_500;

/// Where an explosion is drawn: at the bomb's position, upright, in front of almost
/// everything.
pub open spec fn explosion_transform(at: Transform) -> Transform {
    Transform {
        translation: Vec3 { x: at.translation.x, y: at.translation.y, z: EXPLOSION_DEPTH },
        rotation: 0,
    }
}

/// The settings of the lit bomb in slot `i`, if that slot holds one: a live entity with
/// lit state and a handle to loaded settings.
pub open spec fn lit_bomb_meta(w: WorldView, res: &Resources, i: int) -> Option<KickBombMeta> {
    let e = w.entities[i];
    if e.alive && e.lit_kick_bomb is Some {
        match e.kick_bomb_handle {
            Some(handle) => res.assets.kick_bomb_spec(handle.0),
            None => None,
        }
    } else {
        None
    }
}

/// How the player `p` stands to the bomb in slot `i`, if all that a kick needs is
/// there: a body and a position for the bomb, a sprite and a position for the player.
pub open spec fn kicker_spec(w: WorldView, p: Entity, i: int) -> Option<Kicker> {
    match (w.entities[i].body, w.entities[i].transform, w.at(p).sprite, w.at(p).transform) {
        (Some(_), Some(bomb_at), Some(sprite), Some(player_at)) => Some(
            Kicker {
                facing_left: sprite.flip_x,
                standing_left: player_at.translation.x <= bomb_at.translation.x,
            },
        ),
        _ => None,
    }
}

/// What this tick holds for the lit bomb in slot `i`.
pub open spec fn lit_tick_spec(
    w: WorldView,
    res: &Resources,
    held: Seq<Option<Inv>>,
    i: int,
) -> LitTick
    recommends
        lit_bomb_meta(w, res, i) is Some,
{
    let entity = Entity { index: i as usize };
    let contact = res.collisions.first_player_contact_spec(w, entity);
    LitTick {
        delta: res.time.delta,
        touched: contact is Some,
        held: PlayerInventories::find_item_spec(held, entity) is Some,
        kicker: match contact {
            Some(p) => kicker_spec(w, p, i),
            None => None,
        },
        stationary: match w.entities[i].body {
            Some(body) => body.velocity.x == 0,
            None => false,
        },
    }
}

/// The explosion of the bomb in slot `i`: its sound is queued, the camera shakes, the
/// map slot the bomb came from, if it has one, is no longer marked as hydrated, and the
/// command that replaces the bomb by its blast is recorded. The bomb itself stays as
/// it is until that command destroys it.
pub open spec fn explode_spec(w: WorldView, meta: KickBombMeta, i: int) -> WorldView
    recommends
        0 <= i < w.entities.len(),
        w.entities[i].transform is Some,
{
    let e = w.entities[i];
    let w = w.play_sound(
        AudioEvent::PlaySound { sound_source: meta.explosion_sound, volume: meta.explosion_volume },
    ).shake(EXPLOSION_TRAUMA);
    let w = match e.dehydrate_out_of_bounds {
        Some(spawner) => w.with_entity(spawner.0, EntityData { hydrated: None, ..w.at(spawner.0) }),
        None => w,
    };
    w.enqueue(
        Command::Explode {
            entity: Entity { index: i as usize },
            transform: explosion_transform(e.transform.unwrap()),
            blast: meta.blast_spec(),
        },
    )
}

/// One tick of slot `i` as far as lit bombs go. A slot that holds no lit bomb is left
/// alone. A lit bomb takes its step and keeps the state the step leaves it in; a kick
/// changes the velocity of its body; and if the step sets it off, it explodes where it
/// is. A bomb without a position has no place to explode at and does not.
pub open spec fn update_lit_entity_spec(
    w: WorldView,
    res: &Resources,
    held: Seq<Option<Inv>>,
    i: int,
) -> WorldView
    recommends
        0 <= i < w.entities.len(),
{
    match lit_bomb_meta(w, res, i) {
        None => w,
        Some(meta) => {
            let e = w.entities[i];
            let out = e.lit_kick_bomb.unwrap().step_spec(meta, lit_tick_spec(w, res, held, i));
            let body = match (out.deflect, e.body) {
                (Some(velocity), Some(body)) => Some(KinematicBody { velocity, ..body }),
                _ => e.body,
            };
            let w = w.with(i, EntityData { lit_kick_bomb: Some(out.bomb), body, ..e });
            if out.explode && e.transform is Some {
                explode_spec(w, meta, i)
            } else {
                w
            }
        },
    }
}

/// The world after the lit bombs in the first `n` slots have taken their tick, slot by
/// slot in ascending order.
pub open spec fn update_lit_upto(
    w: WorldView,
    res: &Resources,
    held: Seq<Option<Inv>>,
    n: int,
) -> WorldView
    decreases n,
{
    if n <= 0 {
        w
    } else {
        update_lit_entity_spec(update_lit_upto(w, res, held, n - 1), res, held, n - 1)
    }
}

fn explode(world: &mut World, meta: &KickBombMeta, i: usize)
    requires
        i < old(world)@.entities.len(),
        old(world)@.entities[i as int].transform is Some,
    ensures
        final(world)@ == explode_spec(old(world)@, *meta, i as int),
        final(world)@.entities.len() == old(world)@.entities.len(),
{
    let e = world.entities[i];
    world.audio.play_sound(meta.explosion_sound, meta.explosion_volume);
    world.trauma.push(EXPLOSION_TRAUMA);
    if let Some(spawner) = e.dehydrate_out_of_bounds {
        // Cause the item to respawn by un-hydrating its spawner.
        let mut slot = world.at(spawner.0);
        slot.hydrated = None;
        world.set(spawner.0, slot);
    }
    let at = e.transform.unwrap();
    let transform = Transform {
        translation: Vec3 { x: at.translation.x, y: at.translation.y, z: EXPLOSION_DEPTH },
        rotation: 0,
    };
    world.enqueue(Command::Explode { entity: Entity { index: i }, transform, blast: meta.blast() });
}

fn update_lit_entity(world: &mut World, res: &Resources, player_inventories: &PlayerInventories, i: usize)
    requires
        i < old(world)@.entities.len(),
    ensures
        final(world)@ == update_lit_entity_spec(old(world)@, res, player_inventories@, i as int),
        final(world)@.entities.len() == old(world)@.entities.len(),
{
    let e = world.entities[i];
    if !e.alive {
        return ;
    }
    let (lit, handle) = match (e.lit_kick_bomb, e.kick_bomb_handle) {
        (Some(lit), Some(handle)) => (lit, handle),
        _ => {
            return ;
        },
    };
    let meta = match res.assets.kick_bomb(handle.0) {
        Some(meta) => meta,
        None => {
            return ;
        },
    };
    let entity = Entity { index: i };
    let contact = res.collisions.first_player_contact(world, entity);
    let kicker = match contact {
        Some(p) => {
            let player = world.at(p);
            match (e.body, e.transform, player.sprite, player.transform) {
                (Some(_), Some(bomb_at), Some(sprite), Some(player_at)) => Some(
                    Kicker {
                        facing_left: sprite.flip_x,
                        standing_left: player_at.translation.x <= bomb_at.translation.x,
                    },
                ),
                _ => None,
            }
        },
        None => None,
    };
    let tick = LitTick {
        delta: res.time.delta,
        touched: contact.is_some(),
        held: player_inventories.find_item(entity).is_some(),
        kicker,
        stationary: match e.body {
            Some(body) => body.velocity.x == 0,
            None => false,
        },
    };
    let out = lit.step(&meta, &tick);
    let mut slot = e;
    slot.lit_kick_bomb = Some(out.bomb);
    if let (Some(velocity), Some(body)) = (out.deflect, e.body) {
        let mut kicked = body;
        kicked.velocity = velocity;
        slot.body = Some(kicked);
    }
    world.put(i, slot);
    if out.explode && e.transform.is_some() {
        explode(world, &meta, i);
    }
}

/// Advances every lit kick bomb by one tick.
///
/// The bombs are visited in ascending order of their slots, and each is judged by the
/// world as it was before the pass.
///
/// Each bomb's timers advance by the tick's length. A bomb whose fuse has run out
/// explodes; so does an armed bomb touched by a player, if it is set to explode on
/// contact. A bomb in a player's inventory is neither kicked nor set off. Any other
/// kickable bomb counts each new contact as a kick, explodes past the third, and is
/// otherwise knocked away by the player who touches it. An exploding bomb queues its
/// sound and a camera shake, frees its map slot for respawning, and records the
/// command that replaces it by a damage region and an explosion. Until that command
/// is applied the bomb is still there, with the state its last step left it in.
pub fn update_lit_kick_bombs(
    world: &mut World,
    res: &Resources,
    player_inventories: &PlayerInventories,
)
    ensures
        final(world)@ == lit_pass_spec(old(world)@, res, player_inventories@),
        final(world)@ == update_lit_upto(old(world)@, res, player_inventories@, old(world)@.entities.len() as int),
        final(world)@.entities.len() == old(world)@.entities.len(),
{
    let n = world.entities.len();
    let mut i: usize = 0;
    while i < n
        invariant
            i <= n,
            n == old(world)@.entities.len(),
            world@.entities.len() == n,
            world@ == update_lit_upto(old(world)@, res, player_inventories@, i as int),
        decreases n - i,
    {
        update_lit_entity(world, res, player_inventories, i);
        i = i + 1;
    }
    proof {
        lemma_lit_pass_independent(old(world)@, res, player_inventories@);
    }
}

} // verus!
