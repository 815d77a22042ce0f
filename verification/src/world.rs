//! The entity store as the gameplay systems see it.
//!
//! Entities are slots in one table; a slot holds every component its entity may carry.
//! Slots are never reused: a destroyed entity leaves an empty slot behind, so a stale
//! handle finds nothing instead of a stranger. Looking up a component of an entity that
//! is gone, or was never there, gives nothing and is no error.

use vstd::prelude::*;
use crate::assets::AssetServer;
use crate::audio::{AudioCenter, AudioEvent};
use crate::commands::Command;
use crate::components::{
    AnimatedSprite, AnimationBankSprite, AtlasSprite, DamageRegion, DehydrateOutOfBounds, ElementHandle,
    EmoteRegion, Invincibility, KinematicBody, Lifetime, MapElementHydrated, PlayerBodyAttachment,
    PlayerIdx, PlayerLayers, PlayerSpawner, SpawnedMapLayerMeta, Spawner, Transform,
};
use crate::debug::{DebugSettings, Outline};
use crate::entity::Entity;
use crate::input::MatchInputs;
use crate::item::{DropItem, EffectId, Inventory, Item, ItemGrab, ItemMarker};
use crate::item_throw::ItemThrow;
use crate::kick_bomb::{IdleKickBomb, KickBombHandle, LitKickBomb};
use crate::player_state::PlayerState;

verus! {

/// Everything stored about one entity.
#[derive(Clone, Copy, Debug, PartialEq, Eq)]
pub struct EntityData {
    /// The entity exists. A slot that is not alive holds nothing.
    pub alive: bool,
    pub transform: Option<Transform>,
    pub body: Option<KinematicBody>,
    pub sprite: Option<AtlasSprite>,
    pub animated_sprite: Option<AnimatedSprite>,
    pub animation_bank: Option<AnimationBankSprite>,
    pub player_idx: Option<PlayerIdx>,
    pub player_state: Option<PlayerState>,
    pub player_layers: Option<PlayerLayers>,
    pub inventory: Option<Inventory>,
    pub invincibility: Option<Invincibility>,
    pub item: Option<Item>,
    pub item_grab: Option<ItemGrab>,
    pub item_throw: Option<ItemThrow>,
    pub marker: ItemMarker,
    pub drop_item: Option<DropItem>,
    pub attachment: Option<PlayerBodyAttachment>,
    pub idle_kick_bomb: Option<IdleKickBomb>,
    pub lit_kick_bomb: Option<LitKickBomb>,
    pub kick_bomb_handle: Option<KickBombHandle>,
    pub hydrated: Option<MapElementHydrated>,
    pub element_handle: Option<ElementHandle>,
    pub dehydrate_out_of_bounds: Option<DehydrateOutOfBounds>,
    pub spawner: Option<Spawner>,
    pub map_layer: Option<SpawnedMapLayerMeta>,
    pub player_spawner: Option<PlayerSpawner>,
    pub damage_region: Option<DamageRegion>,
    pub emote_region: Option<EmoteRegion>,
    pub lifetime: Option<Lifetime>,
    pub outline: Option<Outline>,
}

impl EntityData {
    /// A slot without any component.
    pub open spec fn bare(alive: bool) -> EntityData {
        EntityData {
            alive,
            transform: None,
            body: None,
            sprite: None,
            animated_sprite: None,
            animation_bank: None,
            player_idx: None,
            player_state: None,
            player_layers: None,
            inventory: None,
            invincibility: None,
            item: None,
            item_grab: None,
            item_throw: None,
            marker: ItemMarker::Unmarked,
            drop_item: None,
            attachment: None,
            idle_kick_bomb: None,
            lit_kick_bomb: None,
            kick_bomb_handle: None,
            hydrated: None,
            element_handle: None,
            dehydrate_out_of_bounds: None,
            spawner: None,
            map_layer: None,
            player_spawner: None,
            damage_region: None,
            emote_region: None,
            lifetime: None,
            outline: None,
        }
    }

    /// A live entity without any component.
    pub open spec fn fresh() -> EntityData {
        Self::bare(true)
    }

    /// The slot of an entity that is gone.
    pub open spec fn vacant() -> EntityData {
        Self::bare(false)
    }

    /// A live entity without any component.
    pub fn new() -> (e: EntityData)
        ensures
            e == Self::fresh(),
    {
        Self::blank(true)
    }

    /// A slot without any component.
    pub fn blank(alive: bool) -> (e: EntityData)
        ensures
            e == Self::bare(alive),
    {
        EntityData {
            alive,
            transform: None,
            body: None,
            sprite: None,
            animated_sprite: None,
            animation_bank: None,
            player_idx: None,
            player_state: None,
            player_layers: None,
            inventory: None,
            invincibility: None,
            item: None,
            item_grab: None,
            item_throw: None,
            marker: ItemMarker::Unmarked,
            drop_item: None,
            attachment: None,
            idle_kick_bomb: None,
            lit_kick_bomb: None,
            kick_bomb_handle: None,
            hydrated: None,
            element_handle: None,
            dehydrate_out_of_bounds: None,
            spawner: None,
            map_layer: None,
            player_spawner: None,
            damage_region: None,
            emote_region: None,
            lifetime: None,
            outline: None,
        }
    }
}

/// Two colliders that overlap on this tick, as reported by the physics engine.
#[derive(Clone, Copy, Debug, PartialEq, Eq)]
pub struct Overlap {
    pub actor: Entity,
    pub other: Entity,
}

/// The overlaps of the current tick, in the order the physics engine reported them.
pub struct CollisionWorld {
    pub overlaps: Vec<Overlap>,
}

/// The clock of the simulation.
#[derive(Clone, Copy, Debug, PartialEq, Eq)]
pub struct Time {
    /// Nanoseconds since the previous tick.
    pub delta: u64,
}

/// What the systems read but never change during a tick.
pub struct Resources {
    pub assets: AssetServer,
    pub inputs: MatchInputs,
    pub collisions: CollisionWorld,
    pub time: Time,
    pub debug: DebugSettings,
    /// Gravity given to bodies that have none of their own.
    pub gravity: i32,
}

/// A one-shot routine waiting for the host to run it.
#[derive(Clone, Copy, Debug, PartialEq, Eq)]
pub struct PendingEffect {
    pub entity: Entity,
    pub effect: EffectId,
}

/// The state that the systems change.
pub struct World {
    pub entities: Vec<EntityData>,
    /// Structural changes asked for during the current stage, oldest first.
    pub commands: Vec<Command>,
    pub audio: AudioCenter,
    /// Camera shakes asked for, by strength.
    pub trauma: Vec<i32>,
    /// Routines for the host to run, oldest first.
    pub effects: Vec<PendingEffect>,
}

/// The world as a mathematical value.
#[verifier::ext_equal]
pub struct WorldView {
    pub entities: Seq<EntityData>,
    pub commands: Seq<Command>,
    pub audio: Seq<AudioEvent>,
    pub trauma: Seq<i32>,
    pub effects: Seq<PendingEffect>,
}

impl View for World {
    type V = WorldView;

    open spec fn view(&self) -> WorldView {
        WorldView {
            entities: self.entities@,
            commands: self.commands@,
            audio: self.audio.events@,
            trauma: self.trauma@,
            effects: self.effects@,
        }
    }
}

impl WorldView {
    /// `e` names an entity that exists.
    pub open spec fn live(self, e: Entity) -> bool {
        (e.index as int) < self.entities.len() && self.entities[e.index as int].alive
    }

    /// What is stored about `e`; nothing at all if `e` does not exist.
    pub open spec fn at(self, e: Entity) -> EntityData {
        if self.live(e) {
            self.entities[e.index as int]
        } else {
            EntityData::vacant()
        }
    }

    /// The world with slot `i` replaced.
    pub open spec fn with(self, i: int, data: EntityData) -> WorldView {
        WorldView { entities: self.entities.update(i, data), ..self }
    }

    /// The world with the data of `e` replaced, if `e` exists.
    pub open spec fn with_entity(self, e: Entity, data: EntityData) -> WorldView {
        if self.live(e) {
            self.with(e.index as int, data)
        } else {
            self
        }
    }

    /// The world with one more command at the end of the queue.
    pub open spec fn enqueue(self, command: Command) -> WorldView {
        WorldView { commands: self.commands.push(command), ..self }
    }

    /// The world with one more sound to play.
    pub open spec fn play_sound(self, event: AudioEvent) -> WorldView {
        WorldView { audio: self.audio.push(event), ..self }
    }

    /// The world with one more camera shake.
    pub open spec fn shake(self, strength: i32) -> WorldView {
        WorldView { trauma: self.trauma.push(strength), ..self }
    }

    /// The world with one more routine for the host to run.
    pub open spec fn schedule(self, effect: PendingEffect) -> WorldView {
        WorldView { effects: self.effects.push(effect), ..self }
    }

    /// The world with one more entity, holding `data`, in a new slot at the end.
    pub open spec fn spawn(self, data: EntityData) -> WorldView {
        WorldView { entities: self.entities.push(data), ..self }
    }

    /// The world without `e`: its slot is emptied and marked dead.
    pub open spec fn kill(self, e: Entity) -> WorldView {
        self.with_entity(e, EntityData::vacant())
    }

    /// The handle of the entity that the next `spawn` makes.
    pub open spec fn next_entity(self) -> Entity {
        Entity { index: self.entities.len() as usize }
    }
}

impl World {
    /// A world without entities, with empty queues.
    pub fn new() -> (world: World)
        ensures
            world@.entities.len() == 0,
            world@.commands.len() == 0,
            world@.audio.len() == 0,
            world@.trauma.len() == 0,
            world@.effects.len() == 0,
    {
        World {
            entities: Vec::new(),
            commands: Vec::new(),
            audio: AudioCenter::new(),
            trauma: Vec::new(),
            effects: Vec::new(),
        }
    }

    /// Number of slots, live and vacant.
    pub fn len(&self) -> (n: usize)
        ensures
            n == self@.entities.len(),
    {
        self.entities.len()
    }

    /// Whether `e` names an entity that exists.
    pub fn contains(&self, e: Entity) -> (b: bool)
        ensures
            b == self@.live(e),
    {
        e.slot() < self.entities.len() && self.entities[e.slot()].alive
    }

    /// What is stored about `e`; nothing at all if `e` does not exist.
    pub fn at(&self, e: Entity) -> (data: EntityData)
        ensures
            data == self@.at(e),
    {
        if self.contains(e) {
            self.entities[e.slot()]
        } else {
            EntityData::blank(false)
        }
    }

    /// What is stored about `e`, if `e` exists.
    pub fn get(&self, e: Entity) -> (data: Option<EntityData>)
        ensures
            data == if self@.live(e) {
                Some(self@.entities[e.index as int])
            } else {
                None
            },
    {
        if self.contains(e) {
            Some(self.entities[e.slot()])
        } else {
            None
        }
    }

    /// Replaces what is stored about `e`. Returns whether `e` exists; if it does not,
    /// nothing changes.
    pub fn set(&mut self, e: Entity, data: EntityData) -> (found: bool)
        ensures
            found == old(self)@.live(e),
            final(self)@ == old(self)@.with_entity(e, data),
    {
        if self.contains(e) {
            self.entities.set(e.slot(), data);
            true
        } else {
            false
        }
    }

    /// Replaces the content of slot `i`.
    pub fn put(&mut self, i: usize, data: EntityData)
        requires
            i < old(self)@.entities.len(),
        ensures
            final(self)@ == old(self)@.with(i as int, data),
    {
        self.entities.set(i, data);
    }

    /// Makes a new entity holding `data`, in a new slot at the end of the table.
    pub fn spawn(&mut self, data: EntityData) -> (e: Entity)
        ensures
            e == old(self)@.next_entity(),
            final(self)@ == old(self)@.spawn(data),
    {
        let index: usize = self.entities.len();
        self.entities.push(data);
        Entity { index }
    }

    /// Makes a new entity without components.
    pub fn create(&mut self) -> (e: Entity)
        ensures
            e == old(self)@.next_entity(),
            final(self)@ == old(self)@.spawn(EntityData::fresh()),
    {
        self.spawn(EntityData::new())
    }

    /// Destroys `e` with all its components. Destroying what does not exist does
    /// nothing.
    pub fn kill(&mut self, e: Entity)
        ensures
            final(self)@ == old(self)@.kill(e),
    {
        if self.contains(e) {
            self.entities.set(e.slot(), EntityData::blank(false));
        }
    }

    /// Appends a command to the queue.
    pub fn enqueue(&mut self, command: Command)
        ensures
            final(self)@ == old(self)@.enqueue(command),
    {
        self.commands.push(command);
    }
}

impl CollisionWorld {
    /// `e` is a player who can be hurt.
    pub open spec fn vulnerable_player(w: WorldView, e: Entity) -> bool {
        w.at(e).player_idx is Some && w.at(e).invincibility is None
    }

    /// The first player who can be hurt among the overlaps of `actor` from position `k`
    /// of the report onward.
    pub open spec fn contact_from(&self, w: WorldView, actor: Entity, k: int) -> Option<Entity>
        decreases self.overlaps@.len() - k,
    {
        if k < 0 || k >= self.overlaps@.len() {
            None
        } else if self.overlaps@[k].actor == actor && Self::vulnerable_player(w, self.overlaps@[k].other) {
            Some(self.overlaps@[k].other)
        } else {
            self.contact_from(w, actor, k + 1)
        }
    }

    /// The first player, in the order of the physics engine's report, who overlaps
    /// `actor` and can be hurt.
    pub open spec fn first_player_contact_spec(
        &self,
        w: WorldView,
        actor: Entity,
    ) -> Option<Entity> {
        self.contact_from(w, actor, 0)
    }

    /// The entities that overlap `actor`, among the first `n` overlaps of the report, in
    /// the order of the report.
    pub open spec fn collisions_upto(&self, actor: Entity, n: int) -> Seq<Entity>
        decreases n,
    {
        if n <= 0 {
            Seq::empty()
        } else if self.overlaps@[n - 1].actor == actor {
            self.collisions_upto(actor, n - 1).push(self.overlaps@[n - 1].other)
        } else {
            self.collisions_upto(actor, n - 1)
        }
    }

    /// All entities whose colliders overlap that of `actor`, in the order of the physics
    /// engine's report.
    pub fn actor_collisions(&self, actor: Entity) -> (others: Vec<Entity>)
        ensures
            others@ == self.collisions_upto(actor, self.overlaps@.len() as int),
    {
        let mut others: Vec<Entity> = Vec::new();
        let mut k: usize = 0;
        while k < self.overlaps.len()
            invariant
                k <= self.overlaps@.len(),
                others@ == self.collisions_upto(actor, k as int),
            decreases self.overlaps@.len() - k,
        {
            let overlap = self.overlaps[k];
            if overlap.actor.index == actor.index {
                others.push(overlap.other);
            }
            k = k + 1;
        }
        others
    }

    /// The first player, in the order of the physics engine's report, who overlaps
    /// `actor` and can be hurt.
    pub fn first_player_contact(&self, world: &World, actor: Entity) -> (contact: Option<Entity>)
        ensures
            contact == self.first_player_contact_spec(world@, actor),
    {
        let mut k: usize = 0;
        while k < self.overlaps.len()
            invariant
                k <= self.overlaps@.len(),
                self.contact_from(world@, actor, k as int) == self.contact_from(world@, actor, 0),
            decreases self.overlaps@.len() - k,
        {
            let overlap = self.overlaps[k];
            if overlap.actor.index == actor.index {
                let other = world.at(overlap.other);
                if other.player_idx.is_some() && other.invincibility.is_none() {
                    return Some(overlap.other);
                }
            }
            k = k + 1;
        }
        None
    }
}

/// A reported contact is a real one: the player overlaps the actor, can be hurt, and no
/// earlier overlap in the report qualifies.
pub proof fn lemma_first_contact_is_first(c: &CollisionWorld, w: WorldView, actor: Entity, k: int)
    requires
        0 <= k <= c.overlaps@.len(),
    ensures
        match c.contact_from(w, actor, k) {
            Some(p) => exists|j: int|
                k <= j < c.overlaps@.len() && (#[trigger] c.overlaps@[j]).actor == actor && c.overlaps@[j].other
                    == p && CollisionWorld::vulnerable_player(w, p) && forall|m: int|
                    k <= m < j ==> !((#[trigger] c.overlaps@[m]).actor == actor
                        && CollisionWorld::vulnerable_player(w, c.overlaps@[m].other)),
            None => forall|j: int|
                k <= j < c.overlaps@.len() ==> !((#[trigger] c.overlaps@[j]).actor == actor
                    && CollisionWorld::vulnerable_player(w, c.overlaps@[j].other)),
        },
    decreases c.overlaps@.len() - k,
{
    if k < c.overlaps@.len() {
        if c.overlaps@[k].actor == actor && CollisionWorld::vulnerable_player(w, c.overlaps@[k].other) {
        } else {
            lemma_first_contact_is_first(c, w, actor, k + 1);
            match c.contact_from(w, actor, k + 1) {
                Some(p) => {
                    let j = choose|j: int|
                        k + 1 <= j < c.overlaps@.len() && (#[trigger] c.overlaps@[j]).actor == actor
                            && c.overlaps@[j].other == p && CollisionWorld::vulnerable_player(w, p)
                            && forall|m: int|
                            k + 1 <= m < j ==> !((#[trigger] c.overlaps@[m]).actor == actor
                                && CollisionWorld::vulnerable_player(w, c.overlaps@[m].other));
                    assert(k <= j < c.overlaps@.len() && c.overlaps@[j].actor == actor && c.overlaps@[j].other
                        == p && CollisionWorld::vulnerable_player(w, p) && forall|m: int|
                        k <= m < j ==> !((#[trigger] c.overlaps@[m]).actor == actor
                            && CollisionWorld::vulnerable_player(w, c.overlaps@[m].other)));
                },
                None => {},
            }
        }
    }
}

} // verus!
