//! The kick bomb: an explosive prop that players can carry, throw and kick around.
//!
//! A bomb is idle until somebody uses it. Once lit it runs on two timers, a fuse and an
//! arming delay, counts the kicks it takes, and ends in an explosion. This module holds
//! the bomb's settings and state, the step a lit bomb takes on a tick, and the commands
//! that make, light and blow up bombs. The passes over the bombs of a world are in
//! [`crate::hydration`], [`crate::idle_bombs`] and [`crate::lit_bombs`].

use vstd::prelude::*;
use crate::assets::{try_cast_meta_handle, AnimName, AtlasHandle, HandleCastError, SoundHandle, UntypedHandle};
use crate::commands::{Blast, Command};
use crate::components::{
    AnimatedSprite, AtlasSprite, ColliderShape, DamageRegion, DehydrateOutOfBounds, ElementHandle,
    KinematicBody, Lifetime, MapElementHydrated, Spawner, Transform,
};
use crate::entity::Entity;
use crate::item::{Item, ItemGrab};
use crate::item_throw::ItemThrow;
use crate::math::{fx_neg, fx_ratio, fx_ratio_spec, saturate, Vec2};
use crate::schedule::{register_spec, CoreStage, Game, Schema, SessionBuilder, SystemId};
use crate::timer::Timer;
use crate::world::{EntityData, Resources, World, WorldView};

verus! {

/// How many kicks a lit bomb survives. The contact made when it is dropped counts too.
pub const MAX_KICKS: u32 = 3;

/// Authored settings of a kick bomb.
#[derive(Clone, Copy, Debug, PartialEq, Eq)]
pub struct KickBombMeta {
    pub body_diameter: i32,
    pub fin_anim: AnimName,
    pub grab_offset: Vec2,
    pub damage_region_size: Vec2,
    pub damage_region_lifetime: u64,
    pub kick_velocity: Vec2,
    pub kickable: bool,
    pub throw_velocity: i32,
    pub explosion_lifetime: u64,
    pub explosion_frames: u32,
    pub explosion_fps: i32,
    pub explosion_sound: SoundHandle,
    pub explosion_volume: i32,
    pub lit_frames_start: u32,
    pub lit_frames_end: u32,
    pub lit_fps: i32,
    pub fuse_sound: SoundHandle,
    pub fuse_sound_volume: i32,
    /// Nanoseconds from lighting to explosion.
    pub fuse_time: u64,
    pub can_rotate: bool,
    pub atlas: AtlasHandle,
    pub explosion_atlas: AtlasHandle,
    pub bounciness: i32,
    pub angular_velocity: i32,
    /// Nanoseconds from lighting until contact can set the bomb off.
    pub arm_delay: u64,
    pub explode_on_contact: bool,
}

/// Marks a bomb that has not been lit.
#[derive(Clone, Copy, Debug, Default, PartialEq, Eq)]
pub struct IdleKickBomb;

/// State of a lit bomb.
#[derive(Clone, Copy, Debug, PartialEq, Eq)]
pub struct LitKickBomb {
    pub arm_delay: Timer,
    pub fuse_time: Timer,
    /// Whether a player was in contact on the previous tick.
    pub kicking: bool,
    /// Number of separate contacts so far.
    pub kicks: u32,
}

/// Component holding the handle of a bomb's metadata.
#[derive(Clone, Copy, Debug, PartialEq, Eq)]
pub struct KickBombHandle(pub u32);

/// Commands for kick bombs.
#[derive(Clone, Copy, Debug)]
pub struct KickBombCommand;

/// How the player in contact stands to a bomb, as far as the direction of a kick depends
/// on it.
#[derive(Clone, Copy, Debug, PartialEq, Eq)]
pub struct Kicker {
    /// The player's sprite is mirrored, that is, the player looks to the left.
    pub facing_left: bool,
    /// The player stands at or to the left of the bomb.
    pub standing_left: bool,
}

/// What one tick of a lit bomb depends on besides the bomb and its settings.
#[derive(Clone, Copy, Debug, PartialEq, Eq)]
pub struct LitTick {
    /// Nanoseconds since the previous tick.
    pub delta: u64,
    /// Some player who can be hurt overlaps the bomb.
    pub touched: bool,
    /// The bomb is in some player's inventory.
    pub held: bool,
    /// How the first player in contact who can be hurt stands to the bomb. Nothing if
    /// nobody touches the bomb, or if the bomb or the player lacks what a kick needs: a
    /// body and a position for the bomb, a sprite and a position for the player.
    pub kicker: Option<Kicker>,
    /// The bomb is not moving horizontally.
    pub stationary: bool,
}

/// What one tick of a lit bomb results in.
#[derive(Clone, Copy, Debug, PartialEq, Eq)]
pub struct LitOutcome {
    /// The bomb's state after the tick.
    pub bomb: LitKickBomb,
    /// The bomb goes off this tick.
    pub explode: bool,
    /// The velocity a kick gives the bomb, if it was deflected.
    pub deflect: Option<Vec2>,
}

impl LitKickBomb {
    /// A bomb lit just now: both timers fresh, not in contact, no kicks counted.
    pub open spec fn lit_spec(arm_delay: u64, fuse_time: u64) -> LitKickBomb {
        LitKickBomb {
            arm_delay: Timer { duration: arm_delay, elapsed: 0, finished: false },
            fuse_time: Timer { duration: fuse_time, elapsed: 0, finished: false },
            kicking: false,
            kicks: 0,
        }
    }

    /// The bomb after a tick in contact with a player: a contact that continues from
    /// the previous tick is not a new kick.
    pub open spec fn kicked(self) -> LitKickBomb {
        LitKickBomb {
            kicking: true,
            kicks: if self.kicking || self.kicks == u32::MAX {
                self.kicks
            } else {
                (self.kicks + 1) as u32
            },
            ..self
        }
    }

    /// The bomb with both timers advanced by `delta`.
    pub open spec fn aged(self, delta: u64) -> LitKickBomb {
        LitKickBomb {
            arm_delay: self.arm_delay.ticked(delta),
            fuse_time: self.fuse_time.ticked(delta),
            ..self
        }
    }

    /// One tick of a lit bomb.
    ///
    /// Both timers advance. Then, in this order: a finished fuse sets the bomb off; so
    /// does contact with a player once the bomb is armed, if it is set to explode on
    /// contact; a bomb that is held forgets the last contact and does nothing; a bomb
    /// that cannot be kicked does nothing; a bomb nobody touches forgets the last
    /// contact; a bomb in contact counts the kick and goes off past the kick limit.
    /// Within the limit it is knocked away, if it is known how the kicker stands to it,
    /// unless the kicker faces the wrong way for that, in which case it goes off if
    /// armed.
    pub open spec fn step_spec(self, meta: KickBombMeta, tick: LitTick) -> LitOutcome {
        let bomb = self.aged(tick.delta);
        let armed = bomb.arm_delay.finished;
        if bomb.fuse_time.finished {
            LitOutcome { bomb, explode: true, deflect: None }
        } else if meta.explode_on_contact && tick.touched && armed {
            LitOutcome { bomb, explode: true, deflect: None }
        } else if tick.held {
            LitOutcome { bomb: LitKickBomb { kicking: false, ..bomb }, explode: false, deflect: None }
        } else if !meta.kickable {
            LitOutcome { bomb, explode: false, deflect: None }
        } else if !tick.touched {
            LitOutcome { bomb: LitKickBomb { kicking: false, ..bomb }, explode: false, deflect: None }
        } else {
            let bomb = bomb.kicked();
            if bomb.kicks > MAX_KICKS {
                LitOutcome { bomb, explode: true, deflect: None }
            } else {
                match tick.kicker {
                    None => LitOutcome { bomb, explode: false, deflect: None },
                    Some(kicker) => if tick.stationary {
                        LitOutcome {
                            bomb,
                            explode: false,
                            deflect: Some(meta.kick_velocity.mirrored_spec(kicker.facing_left)),
                        }
                    } else if kicker.standing_left && !kicker.facing_left {
                        LitOutcome { bomb, explode: false, deflect: Some(meta.kick_velocity) }
                    } else if !kicker.standing_left && kicker.facing_left {
                        LitOutcome {
                            bomb,
                            explode: false,
                            deflect: Some(meta.kick_velocity.mirrored_spec(true)),
                        }
                    } else {
                        LitOutcome { bomb, explode: armed, deflect: None }
                    },
                }
            }
        }
    }

    /// A bomb lit just now.
    pub fn lit(arm_delay: u64, fuse_time: u64) -> (bomb: LitKickBomb)
        ensures
            bomb == Self::lit_spec(arm_delay, fuse_time),
    {
        LitKickBomb {
            arm_delay: Timer::new(arm_delay),
            fuse_time: Timer::new(fuse_time),
            kicking: false,
            kicks: 0,
        }
    }

    /// Advances a lit bomb by one tick and says what becomes of it.
    pub fn step(self, meta: &KickBombMeta, tick: &LitTick) -> (out: LitOutcome)
        ensures
            out == self.step_spec(*meta, *tick),
    {
        let mut bomb = self;
        bomb.fuse_time.tick(tick.delta);
        bomb.arm_delay.tick(tick.delta);
        let armed = bomb.arm_delay.finished();
        if bomb.fuse_time.finished() {
            return LitOutcome { bomb, explode: true, deflect: None };
        }
        if meta.explode_on_contact && tick.touched && armed {
            return LitOutcome { bomb, explode: true, deflect: None };
        }
        if tick.held {
            bomb.kicking = false;
            return LitOutcome { bomb, explode: false, deflect: None };
        }
        if !meta.kickable {
            return LitOutcome { bomb, explode: false, deflect: None };
        }
        if !tick.touched {
            bomb.kicking = false;
            return LitOutcome { bomb, explode: false, deflect: None };
        }
        if !bomb.kicking && bomb.kicks < u32::MAX {
            bomb.kicks = bomb.kicks + 1;
        }
        bomb.kicking = true;
        // Dropping the bomb is detected as a kick, so it goes off when the counter
        // reaches four.
        if bomb.kicks > MAX_KICKS {
            return LitOutcome { bomb, explode: true, deflect: None };
        }
        match tick.kicker {
            None => LitOutcome { bomb, explode: false, deflect: None },
            Some(kicker) => {
                if tick.stationary {
                    LitOutcome {
                        bomb,
                        explode: false,
                        deflect: Some(meta.kick_velocity.mirrored(kicker.facing_left)),
                    }
                } else if kicker.standing_left && !kicker.facing_left {
                    LitOutcome { bomb, explode: false, deflect: Some(meta.kick_velocity) }
                } else if !kicker.standing_left && kicker.facing_left {
                    LitOutcome { bomb, explode: false, deflect: Some(meta.kick_velocity.mirrored(true)) }
                } else {
                    LitOutcome { bomb, explode: armed, deflect: None }
                }
            },
        }
    }
}

impl KickBombMeta {
    /// What an explosion of this bomb leaves behind.
    pub open spec fn blast_spec(self) -> Blast {
        Blast {
            damage_region_size: self.damage_region_size,
            damage_region_lifetime: self.damage_region_lifetime,
            explosion_lifetime: self.explosion_lifetime,
            explosion_atlas: self.explosion_atlas,
            explosion_fps: self.explosion_fps,
            explosion_frames: self.explosion_frames,
        }
    }

    /// What an explosion of this bomb leaves behind.
    pub fn blast(&self) -> (b: Blast)
        ensures
            b == self.blast_spec(),
    {
        Blast {
            damage_region_size: self.damage_region_size,
            damage_region_lifetime: self.damage_region_lifetime,
            explosion_lifetime: self.explosion_lifetime,
            explosion_atlas: self.explosion_atlas,
            explosion_fps: self.explosion_fps,
            explosion_frames: self.explosion_frames,
        }
    }

    /// The body of a bomb with these settings, at rest.
    pub open spec fn body_spec(self, gravity: i32) -> KinematicBody {
        KinematicBody {
            shape: ColliderShape::Circle { diameter: self.body_diameter },
            gravity,
            has_mass: true,
            has_friction: true,
            can_rotate: self.can_rotate,
            bounciness: self.bounciness,
            ..KinematicBody::default_spec()
        }
    }

    /// Velocity of a bomb that is thrown lit: the throw speed forward, the way the
    /// thrower looks, and two fifths of it upward.
    pub open spec fn lit_throw_velocity(self, flip: bool) -> Vec2 {
        Vec2 {
            x: if flip {
                saturate(-(self.throw_velocity as int)) as i32
            } else {
                self.throw_velocity
            },
            y: fx_ratio_spec(self.throw_velocity as int, 2, 5) as i32,
        }
    }

    /// The components of a bomb with these settings, loaded under `index`, laid over
    /// what `before` holds. A lit bomb gets its timers and, from the facing of its
    /// thrower, its throw velocity and spin. An unlit bomb gets the idle marker. Either
    /// way the bomb is one or the other, never both.
    pub open spec fn bomb_spec(
        self,
        before: EntityData,
        index: u32,
        transform: Transform,
        gravity: i32,
        lit: bool,
        player_flip: Option<bool>,
    ) -> EntityData
        recommends
            lit ==> player_flip is Some,
    {
        let body = self.body_spec(gravity);
        let common = EntityData {
            kick_bomb_handle: Some(KickBombHandle(index)),
            item: Some(Item),
            item_throw: Some(
                ItemThrow { spin: self.angular_velocity, ..ItemThrow::strength_spec(self.throw_velocity) },
            ),
            item_grab: Some(
                ItemGrab { fin_anim: self.fin_anim, sync_animation: false, grab_offset: self.grab_offset },
            ),
            sprite: Some(AtlasSprite { atlas: self.atlas, flip_x: false }),
            transform: Some(transform),
            animated_sprite: Some(AnimatedSprite::default_spec()),
            body: Some(body),
            ..before
        };
        if lit {
            EntityData {
                idle_kick_bomb: None,
                lit_kick_bomb: Some(LitKickBomb::lit_spec(self.arm_delay, self.fuse_time)),
                body: Some(
                    KinematicBody {
                        velocity: self.lit_throw_velocity(player_flip.unwrap()),
                        angular_velocity: self.angular_velocity,
                        ..body
                    },
                ),
                ..common
            }
        } else {
            EntityData { idle_kick_bomb: Some(IdleKickBomb), lit_kick_bomb: None, ..common }
        }
    }

    fn bomb(
        &self,
        before: EntityData,
        index: u32,
        transform: Transform,
        gravity: i32,
        lit: bool,
        player_flip: Option<bool>,
    ) -> (data: EntityData)
        requires
            lit ==> player_flip is Some,
        ensures
            data == self.bomb_spec(before, index, transform, gravity, lit, player_flip),
    {
        let mut body = KinematicBody::default();
        body.shape = ColliderShape::Circle { diameter: self.body_diameter };
        body.gravity = gravity;
        body.has_mass = true;
        body.has_friction = true;
        body.can_rotate = self.can_rotate;
        body.bounciness = self.bounciness;
        let mut data = before;
        data.kick_bomb_handle = Some(KickBombHandle(index));
        data.item = Some(Item);
        data.item_throw = Some(ItemThrow::strength(self.throw_velocity).with_spin(self.angular_velocity));
        data.item_grab = Some(
            ItemGrab { fin_anim: self.fin_anim, sync_animation: false, grab_offset: self.grab_offset },
        );
        data.sprite = Some(AtlasSprite::new(self.atlas));
        data.transform = Some(transform);
        data.animated_sprite = Some(AnimatedSprite::default());
        if lit {
            data.idle_kick_bomb = None;
            data.lit_kick_bomb = Some(LitKickBomb::lit(self.arm_delay, self.fuse_time));
            let flip = player_flip.unwrap();
            body.velocity = Vec2 {
                x: if flip {
                    fx_neg(self.throw_velocity)
                } else {
                    self.throw_velocity
                },
                y: fx_ratio(self.throw_velocity, 2, 5),
            };
            body.angular_velocity = self.angular_velocity;
        } else {
            data.idle_kick_bomb = Some(IdleKickBomb);
            data.lit_kick_bomb = None;
        }
        data.body = Some(body);
        data
    }
}

impl KickBombCommand {
    /// The world after a kick bomb has been spawned.
    ///
    /// If the handle cannot be used as a kick bomb handle, nothing is spawned and
    /// nothing changes. Otherwise the bomb's components are laid over `entity` if one
    /// is given and exists, and over a new entity if none is given. A given entity
    /// that does not exist is a miss, and nothing changes.
    pub open spec fn spawn_spec(
        w: WorldView,
        res: &Resources,
        entity: Option<Entity>,
        transform: Transform,
        handle: UntypedHandle,
        lit: bool,
        player_flip: Option<bool>,
    ) -> WorldView {
        match res.assets.cast_kick_bomb_spec(handle) {
            Err(_) => w,
            Ok(index) => {
                let meta = res.assets.kick_bomb_spec(index).unwrap();
                match entity {
                    Some(e) => w.with_entity(
                        e,
                        meta.bomb_spec(w.at(e), index, transform, res.gravity, lit, player_flip),
                    ),
                    None => w.spawn(
                        meta.bomb_spec(EntityData::fresh(), index, transform, res.gravity, lit, player_flip),
                    ),
                }
            },
        }
    }

    /// The world after an idle bomb has been lit: the idle marker is gone and a lit
    /// state with fresh timers is in its place. A bomb is lit once: an entity that is
    /// not an idle bomb, or does not exist, is a miss, and nothing changes.
    pub open spec fn light_spec(
        w: WorldView,
        entity: Entity,
        arm_delay: u64,
        fuse_time: u64,
    ) -> WorldView {
        if w.at(entity).idle_kick_bomb is Some {
            w.with_entity(
                entity,
                EntityData {
                    idle_kick_bomb: None,
                    lit_kick_bomb: Some(LitKickBomb::lit_spec(arm_delay, fuse_time)),
                    ..w.at(entity)
                },
            )
        } else {
            w
        }
    }

    /// The damage region an explosion leaves behind.
    pub open spec fn damage_region_spec(transform: Transform, blast: Blast) -> EntityData {
        EntityData {
            transform: Some(transform),
            damage_region: Some(DamageRegion { size: blast.damage_region_size }),
            lifetime: Some(Lifetime { lifetime: blast.damage_region_lifetime, age: 0 }),
            ..EntityData::fresh()
        }
    }

    /// The explosion animation: the frames from the first up to `explosion_frames`,
    /// played once.
    pub open spec fn explosion_spec(transform: Transform, blast: Blast) -> EntityData {
        EntityData {
            transform: Some(transform),
            sprite: Some(AtlasSprite { atlas: blast.explosion_atlas, flip_x: false }),
            animated_sprite: Some(
                AnimatedSprite {
                    frames_start: 0,
                    frames_end: blast.explosion_frames,
                    fps: blast.explosion_fps,
                    repeat: false,
                },
            ),
            lifetime: Some(Lifetime { lifetime: blast.explosion_lifetime, age: 0 }),
            ..EntityData::fresh()
        }
    }

    /// The world after a bomb has exploded: the bomb is destroyed, and a damage region
    /// and an explosion animation, both short-lived, stand where it was.
    pub open spec fn explode_spec(
        w: WorldView,
        entity: Entity,
        transform: Transform,
        blast: Blast,
    ) -> WorldView {
        w.kill(entity).spawn(Self::damage_region_spec(transform, blast)).spawn(
            Self::explosion_spec(transform, blast),
        )
    }

    /// Command for spawning a kick bomb.
    ///
    /// If `entity` is given, the bomb's components are added to it; otherwise the
    /// command makes the entity. `kick_bomb_meta_handle` must lead to kick bomb
    /// settings, directly or through an element that wraps them. `player_flip_f` says
    /// whether the player who throws a lit bomb looks to the left; a lit bomb must come
    /// with it.
    #[must_use]
    pub fn spawn_kick_bomb(
        entity: Option<Entity>,
        transform: Transform,
        kick_bomb_meta_handle: UntypedHandle,
        lit: bool,
        player_flip_f: Option<bool>,
    ) -> (command: Command)
        requires
            lit ==> player_flip_f is Some,
        ensures
            command.sound(),
            command == (Command::SpawnKickBomb {
                entity,
                transform,
                handle: kick_bomb_meta_handle,
                lit,
                player_flip: player_flip_f,
            }),
    {
        Command::SpawnKickBomb { entity, transform, handle: kick_bomb_meta_handle, lit, player_flip: player_flip_f }
    }

    /// Spawns a kick bomb now. A lit bomb must come with the facing of its thrower.
    /// Fails, changing nothing, exactly when the handle cannot be used as a kick bomb
    /// handle; the error says why.
    pub fn spawn_now(
        world: &mut World,
        res: &Resources,
        entity: Option<Entity>,
        transform: Transform,
        handle: UntypedHandle,
        lit: bool,
        player_flip: Option<bool>,
    ) -> (r: Result<(), HandleCastError>)
        requires
            lit ==> player_flip is Some,
        ensures
            final(world)@ == Self::spawn_spec(old(world)@, res, entity, transform, handle, lit, player_flip),
            match res.assets.cast_kick_bomb_spec(handle) {
                Ok(_) => r is Ok,
                Err(e) => r == Err::<(), HandleCastError>(e),
            },
    {
        // Try to use the handle as a kick bomb handle.
        let index = match try_cast_meta_handle(handle, &res.assets) {
            Ok(index) => index,
            Err(err) => {
                return Err(err);
            },
        };
        let meta = res.assets.kick_bomb(index).unwrap();
        match entity {
            Some(e) => {
                let data = meta.bomb(world.at(e), index, transform, res.gravity, lit, player_flip);
                world.set(e, data);
            },
            None => {
                let data = meta.bomb(EntityData::new(), index, transform, res.gravity, lit, player_flip);
                world.spawn(data);
            },
        }
        Ok(())
    }

    /// Lights an idle bomb now.
    pub fn light_now(world: &mut World, entity: Entity, arm_delay: u64, fuse_time: u64)
        ensures
            final(world)@ == Self::light_spec(old(world)@, entity, arm_delay, fuse_time),
    {
        let mut data = world.at(entity);
        if data.idle_kick_bomb.is_some() {
            data.idle_kick_bomb = None;
            data.lit_kick_bomb = Some(LitKickBomb::lit(arm_delay, fuse_time));
            world.set(entity, data);
        }
    }

    /// Replaces a bomb by its blast now.
    pub fn explode_now(world: &mut World, entity: Entity, transform: Transform, blast: Blast)
        ensures
            final(world)@ == Self::explode_spec(old(world)@, entity, transform, blast),
    {
        // Despawn the kick bomb.
        world.kill(entity);
        // Spawn the damage region.
        let mut region = EntityData::new();
        region.transform = Some(transform);
        region.damage_region = Some(DamageRegion { size: blast.damage_region_size });
        region.lifetime = Some(Lifetime::new(blast.damage_region_lifetime));
        world.spawn(region);
        // Spawn the explosion animation.
        let mut explosion = EntityData::new();
        explosion.transform = Some(transform);
        explosion.sprite = Some(AtlasSprite::new(blast.explosion_atlas));
        explosion.animated_sprite = Some(
            AnimatedSprite {
                frames_start: 0,
                frames_end: blast.explosion_frames,
                fps: blast.explosion_fps,
                repeat: false,
            },
        );
        explosion.lifetime = Some(Lifetime::new(blast.explosion_lifetime));
        world.spawn(explosion);
    }

    /// The world after the bomb of a map slot has been made. If the handle cannot be
    /// used as a kick bomb handle, nothing is made and nothing changes. Otherwise a new
    /// entity is an idle bomb at the given position; it is marked as hydrated, carries
    /// the slot's element handle, and refers back to the slot; and the slot, if it still
    /// exists, notes the entity made for it.
    pub open spec fn hydrate_spec(
        w: WorldView,
        res: &Resources,
        slot: Entity,
        element_handle: ElementHandle,
        transform: Transform,
        handle: UntypedHandle,
    ) -> WorldView {
        match res.assets.cast_kick_bomb_spec(handle) {
            Err(_) => w,
            Ok(index) => {
                let entity = w.next_entity();
                let w = w.spawn(
                    res.assets.kick_bomb_spec(index).unwrap().bomb_spec(
                        EntityData {
                            hydrated: Some(MapElementHydrated),
                            element_handle: Some(element_handle),
                            dehydrate_out_of_bounds: Some(DehydrateOutOfBounds(slot)),
                            ..EntityData::fresh()
                        },
                        index,
                        transform,
                        res.gravity,
                        false,
                        None,
                    ),
                );
                w.with_entity(slot, EntityData { spawner: Some(Spawner { spawned: entity }), ..w.at(slot) })
            },
        }
    }

    /// Makes the bomb of a map slot now. Fails, changing nothing, exactly when the
    /// handle cannot be used as a kick bomb handle; the error says why.
    pub fn hydrate_now(
        world: &mut World,
        res: &Resources,
        slot: Entity,
        element_handle: ElementHandle,
        transform: Transform,
        handle: UntypedHandle,
    ) -> (r: Result<(), HandleCastError>)
        ensures
            final(world)@ == Self::hydrate_spec(old(world)@, res, slot, element_handle, transform, handle),
            match res.assets.cast_kick_bomb_spec(handle) {
                Ok(_) => r is Ok,
                Err(e) => r == Err::<(), HandleCastError>(e),
            },
    {
        let index = match try_cast_meta_handle(handle, &res.assets) {
            Ok(index) => index,
            Err(err) => {
                return Err(err);
            },
        };
        let meta = res.assets.kick_bomb(index).unwrap();
        let mut data = EntityData::new();
        data.hydrated = Some(MapElementHydrated);
        data.element_handle = Some(element_handle);
        data.dehydrate_out_of_bounds = Some(DehydrateOutOfBounds(slot));
        let entity = world.spawn(meta.bomb(data, index, transform, res.gravity, false, None));
        let mut spawner = world.at(slot);
        spawner.spawner = Some(Spawner { spawned: entity });
        world.set(slot, spawner);
        Ok(())
    }
}

/// Installs the kick bomb into a game: registers the schema of its settings.
pub fn game_plugin(game: &mut Game)
    ensures
        final(game).schemas.schemas@ == register_spec(old(game).schemas.schemas@, Schema::KickBombMeta),
        final(game).sessions == old(game).sessions,
        final(game).shared_resources == old(game).shared_resources,
{
    game.schemas.register(Schema::KickBombMeta);
}

/// Installs the kick bomb into a session: hydration runs before the update, and the
/// lit and the idle bombs are served after it, in that order.
pub fn session_plugin(session: &mut SessionBuilder)
    ensures
        final(session).stages@ == old(session).stages@.add(CoreStage::PreUpdate, SystemId::Hydrate).add(
            CoreStage::PostUpdate,
            SystemId::UpdateLitKickBombs,
        ).add(CoreStage::PostUpdate, SystemId::UpdateIdleKickBombs),
        final(session).schemas == old(session).schemas,
{
    session.stages.add_system_to_stage(CoreStage::PreUpdate, SystemId::Hydrate);
    session.stages.add_system_to_stage(CoreStage::PostUpdate, SystemId::UpdateLitKickBombs);
    session.stages.add_system_to_stage(CoreStage::PostUpdate, SystemId::UpdateIdleKickBombs);
}

/// A bomb goes from idle to lit once. Lighting leaves the bomb lit and not idle, and
/// lighting it again changes nothing: the timers that run are the ones it was lit with.
pub proof fn lemma_lit_once(
    w: WorldView,
    entity: Entity,
    arm_delay: u64,
    fuse_time: u64,
    again_arm: u64,
    again_fuse: u64,
)
    ensures
        ({
            let lit = KickBombCommand::light_spec(w, entity, arm_delay, fuse_time);
            &&& lit.at(entity).idle_kick_bomb is None
            &&& w.at(entity).idle_kick_bomb is Some ==> lit.at(entity).lit_kick_bomb == Some(
                LitKickBomb::lit_spec(arm_delay, fuse_time),
            )
            &&& KickBombCommand::light_spec(lit, entity, again_arm, again_fuse) == lit
        }),
{
}

/// A spawned bomb is idle or lit, never both.
pub proof fn lemma_spawned_idle_or_lit(
    meta: KickBombMeta,
    before: EntityData,
    index: u32,
    transform: Transform,
    gravity: i32,
    lit: bool,
    player_flip: Option<bool>,
)
    ensures
        ({
            let bomb = meta.bomb_spec(before, index, transform, gravity, lit, player_flip);
            &&& bomb.lit_kick_bomb is Some <==> lit
            &&& bomb.idle_kick_bomb is Some <==> !lit
        }),
{
}

} // verus!
