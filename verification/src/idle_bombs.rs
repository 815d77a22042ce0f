//! The idle kick bombs of a world, and the pass that lights the ones that were used.

use vstd::prelude::*;
use crate::audio::AudioEvent;
use crate::commands::Command;
use crate::components::AnimatedSprite;
use crate::entity::Entity;
use crate::item::ItemMarker;
use crate::kick_bomb::KickBombMeta;
use crate::world::{EntityData, Resources, World, WorldView};

verus! {

/// The settings of the idle bomb in slot `i`, if that slot holds a complete idle bomb: a
/// live entity with the idle marker, an animated sprite, and a handle to loaded
/// settings.
pub open spec fn idle_bomb_meta(w: WorldView, res: &Resources, i: int) -> Option<KickBombMeta> {
    let e = w.entities[i];
    if e.alive && e.idle_kick_bomb is Some && e.animated_sprite is Some {
        match e.kick_bomb_handle {
            Some(handle) => res.assets.kick_bomb_spec(handle.0),
            None => None,
        }
    } else {
        None
    }
}

/// The world after slot `i` has been looked at for an idle bomb that was used. Such a
/// bomb loses the used marker, is heard, shows its lit frames in a loop, and has the
/// command recorded that makes it a lit bomb. Any other slot is left alone.
pub open spec fn update_idle_entity_spec(w: WorldView, res: &Resources, i: int) -> WorldView
    recommends
        0 <= i < w.entities.len(),
{
    let e = w.entities[i];
    match idle_bomb_meta(w, res, i) {
        Some(meta) if e.marker is Used => w.with(
            i,
            EntityData {
                marker: ItemMarker::Unmarked,
                animated_sprite: Some(
                    AnimatedSprite {
                        frames_start: meta.lit_frames_start,
                        frames_end: meta.lit_frames_end,
                        fps: meta.lit_fps,
                        repeat: true,
                    },
                ),
                ..e
            },
        ).play_sound(
            AudioEvent::PlaySound { sound_source: meta.fuse_sound, volume: meta.fuse_sound_volume },
        ).enqueue(
            Command::LightKickBomb {
                entity: Entity { index: i as usize },
                arm_delay: meta.arm_delay,
                fuse_time: meta.fuse_time,
            },
        ),
        _ => w,
    }
}

/// The world after the first `n` slots have been looked at for idle bombs that were
/// used, in ascending order.
pub open spec fn update_idle_upto(w: WorldView, res: &Resources, n: int) -> WorldView
    decreases n,
{
    if n <= 0 {
        w
    } else {
        update_idle_entity_spec(update_idle_upto(w, res, n - 1), res, n - 1)
    }
}

fn update_idle_entity(world: &mut World, res: &Resources, i: usize)
    requires
        i < old(world)@.entities.len(),
    ensures
        final(world)@ == update_idle_entity_spec(old(world)@, res, i as int),
        final(world)@.entities.len() == old(world)@.entities.len(),
{
    let e = world.entities[i];
    if !e.alive || e.idle_kick_bomb.is_none() || e.animated_sprite.is_none() {
        return ;
    }
    let handle = match e.kick_bomb_handle {
        Some(handle) => handle,
        None => {
            return ;
        },
    };
    let meta = match res.assets.kick_bomb(handle.0) {
        Some(meta) => meta,
        None => {
            return ;
        },
    };
    if let ItemMarker::Used(_) = e.marker {
        let mut slot = e;
        slot.marker = ItemMarker::Unmarked;
        slot.animated_sprite = Some(
            AnimatedSprite {
                frames_start: meta.lit_frames_start,
                frames_end: meta.lit_frames_end,
                fps: meta.lit_fps,
                repeat: true,
            },
        );
        world.put(i, slot);
        world.audio.play_sound(meta.fuse_sound, meta.fuse_sound_volume);
        world.enqueue(
            Command::LightKickBomb {
                entity: Entity { index: i },
                arm_delay: meta.arm_delay,
                fuse_time: meta.fuse_time,
            },
        );
    }
}

/// The idle bomb in slot `i` was used and is to be lit with these settings.
pub open spec fn lighting_at(w: WorldView, res: &Resources, i: int) -> Option<KickBombMeta> {
    match idle_bomb_meta(w, res, i) {
        Some(meta) if w.entities[i].marker is Used => Some(meta),
        _ => None,
    }
}

/// The commands that light the used bombs in the first `n` slots, in ascending order of
/// the slots.
pub open spec fn lightings_upto(w: WorldView, res: &Resources, n: int) -> Seq<Command>
    decreases n,
{
    if n <= 0 {
        Seq::empty()
    } else {
        match lighting_at(w, res, n - 1) {
            Some(meta) => lightings_upto(w, res, n - 1).push(
                Command::LightKickBomb {
                    entity: Entity { index: (n - 1) as usize },
                    arm_delay: meta.arm_delay,
                    fuse_time: meta.fuse_time,
                },
            ),
            None => lightings_upto(w, res, n - 1),
        }
    }
}

/// The fuse sounds of the used bombs in the first `n` slots, in ascending order.
pub open spec fn fuse_sounds_upto(w: WorldView, res: &Resources, n: int) -> Seq<AudioEvent>
    decreases n,
{
    if n <= 0 {
        Seq::empty()
    } else {
        match lighting_at(w, res, n - 1) {
            Some(meta) => fuse_sounds_upto(w, res, n - 1).push(
                AudioEvent::PlaySound { sound_source: meta.fuse_sound, volume: meta.fuse_sound_volume },
            ),
            None => fuse_sounds_upto(w, res, n - 1),
        }
    }
}

/// The world after the pass over the idle bombs has dealt with the first `n` slots:
/// each used bomb among them has lost the used marker and shows its lit frames, and
/// the fuses are heard and the lightings recorded in ascending order of the slots.
pub open spec fn idle_pass_upto(w: WorldView, res: &Resources, n: int) -> WorldView {
    WorldView {
        entities: Seq::new(
            w.entities.len(),
            |j: int|
                match lighting_at(w, res, j) {
                    Some(meta) if j < n => EntityData {
                        marker: ItemMarker::Unmarked,
                        animated_sprite: Some(
                            AnimatedSprite {
                                frames_start: meta.lit_frames_start,
                                frames_end: meta.lit_frames_end,
                                fps: meta.lit_fps,
                                repeat: true,
                            },
                        ),
                        ..w.entities[j]
                    },
                    _ => w.entities[j],
                },
        ),
        commands: w.commands + lightings_upto(w, res, n),
        audio: w.audio + fuse_sounds_upto(w, res, n),
        ..w
    }
}

/// Visiting the slots one after another gives the world in which every used idle bomb
/// has been dealt with once, on its own.
pub proof fn lemma_idle_pass(w: WorldView, res: &Resources, n: int)
    requires
        0 <= n <= w.entities.len(),
    ensures
        update_idle_upto(w, res, n) == idle_pass_upto(w, res, n),
    decreases n,
{
    if n > 0 {
        lemma_idle_pass(w, res, n - 1);
    }
}

/// A use is acted on once: the bomb no longer carries the used marker, so looking at
/// its slot again changes nothing.
pub proof fn lemma_use_acted_on_once(w: WorldView, res: &Resources, i: int)
    requires
        0 <= i < w.entities.len(),
    ensures
        lighting_at(update_idle_entity_spec(w, res, i), res, i) is None,
        update_idle_entity_spec(update_idle_entity_spec(w, res, i), res, i) == update_idle_entity_spec(
            w,
            res,
            i,
        ),
{
}

/// Lights every idle kick bomb that was used: the used marker is consumed, the fuse is
/// heard, the sprite shows the lit frames, and the change from idle to lit is recorded
/// for the next drain of the queue.
pub fn update_idle_kick_bombs(world: &mut World, res: &Resources)
    ensures
        final(world)@ == idle_pass_upto(old(world)@, res, old(world)@.entities.len() as int),
        final(world)@ == update_idle_upto(old(world)@, res, old(world)@.entities.len() as int),
        final(world)@.entities.len() == old(world)@.entities.len(),
{
    proof {
        lemma_idle_pass(old(world)@, res, old(world)@.entities.len() as int);
    }
    let n = world.entities.len();
    let mut i: usize = 0;
    while i < n
        invariant
            i <= n,
            n == old(world)@.entities.len(),
            world@.entities.len() == n,
            world@ == update_idle_upto(old(world)@, res, i as int),
        decreases n - i,
    {
        update_idle_entity(world, res, i);
        i = i + 1;
    }
}

} // verus!
