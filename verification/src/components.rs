//! Plain-data components shared by the gameplay systems.

use vstd::prelude::*;
use crate::assets::{AnimName, AtlasHandle};
use crate::entity::Entity;
use crate::math::{Vec2, Vec3};

verus! {

/// Largest number of players in a match.
pub const MAX_PLAYERS: u32 = 4;

/// Draw depth given to explosions, in front of almost everything else.
pub const EXPLOSION_DEPTH: i32 = -10_000;

/// Position and rotation of an entity.
#[derive(Clone, Copy, Debug, PartialEq, Eq)]
pub struct Transform {
    pub translation: Vec3,
    /// Rotation about the depth axis, in thousandths of a radian.
    pub rotation: i32,
}

impl Transform {
    pub fn from_translation(translation: Vec3) -> (t: Transform)
        ensures
            t == (Transform { translation, rotation: 0 }),
    {
        Transform { translation, rotation: 0 }
    }
}

/// Outline of a physics body.
#[derive(Clone, Copy, Debug, PartialEq, Eq)]
pub enum ColliderShape {
    Circle { diameter: i32 },
    Rectangle { size: Vec2 },
}

/// A body moved by the game's own kinematics.
#[derive(Clone, Copy, Debug, PartialEq, Eq)]
pub struct KinematicBody {
    pub velocity: Vec2,
    pub angular_velocity: i32,
    pub shape: ColliderShape,
    pub gravity: i32,
    pub has_mass: bool,
    pub has_friction: bool,
    pub can_rotate: bool,
    pub bounciness: i32,
    /// The body is carried by something else and takes no part in physics.
    pub is_deactivated: bool,
    pub is_on_ground: bool,
}

impl KinematicBody {
    /// A body at rest without any physical property switched on.
    pub open spec fn default_spec() -> KinematicBody {
        KinematicBody {
            velocity: Vec2 { x: 0, y: 0 },
            angular_velocity: 0,
            shape: ColliderShape::Rectangle { size: Vec2 { x: 10_000, y: 10_000 } },
            gravity: 0,
            has_mass: false,
            has_friction: false,
            can_rotate: false,
            bounciness: 0,
            is_deactivated: false,
            is_on_ground: false,
        }
    }
}

impl Default for KinematicBody {
    fn default() -> (b: KinematicBody)
        ensures
            b == KinematicBody::default_spec(),
    {
        KinematicBody {
            velocity: Vec2 { x: 0, y: 0 },
            angular_velocity: 0,
            shape: ColliderShape::Rectangle { size: Vec2 { x: 10_000, y: 10_000 } },
            gravity: 0,
            has_mass: false,
            has_friction: false,
            can_rotate: false,
            bounciness: 0,
            is_deactivated: false,
            is_on_ground: false,
        }
    }
}

/// A sprite cut from an atlas.
#[derive(Clone, Copy, Debug, PartialEq, Eq)]
pub struct AtlasSprite {
    pub atlas: AtlasHandle,
    /// The sprite is mirrored: its owner looks to the left.
    pub flip_x: bool,
}

impl AtlasSprite {
    pub fn new(atlas: AtlasHandle) -> (s: AtlasSprite)
        ensures
            s == (AtlasSprite { atlas, flip_x: false }),
    {
        AtlasSprite { atlas, flip_x: false }
    }
}

/// A frame-sequence animation: the frames `frames_start .. frames_end` of the atlas.
#[derive(Clone, Copy, Debug, PartialEq, Eq)]
pub struct AnimatedSprite {
    pub frames_start: u32,
    pub frames_end: u32,
    pub fps: i32,
    pub repeat: bool,
}

impl AnimatedSprite {
    /// No frames, no speed, repeating.
    pub open spec fn default_spec() -> AnimatedSprite {
        AnimatedSprite { frames_start: 0, frames_end: 0, fps: 0, repeat: true }
    }
}

impl Default for AnimatedSprite {
    fn default() -> (s: AnimatedSprite)
        ensures
            s == AnimatedSprite::default_spec(),
    {
        AnimatedSprite { frames_start: 0, frames_end: 0, fps: 0, repeat: true }
    }
}

/// The animation a character currently plays, out of its bank of named animations.
#[derive(Clone, Copy, Debug, PartialEq, Eq)]
pub struct AnimationBankSprite {
    pub current: AnimName,
}

/// Seat of a player in the match.
#[derive(Clone, Copy, Debug, PartialEq, Eq)]
pub struct PlayerIdx(pub u32);

/// The layered parts of a player's sprite that items can change.
#[derive(Clone, Copy, Debug, PartialEq, Eq)]
pub struct PlayerLayers {
    pub fin_anim: AnimName,
}

impl PlayerLayers {
    /// Depth of the fin layer in front of the body.
    pub const FIN_Z_OFFSET: i32 = 2;
}

/// Ties an entity to a player's body, so that it moves along with it.
#[derive(Clone, Copy, Debug, PartialEq, Eq)]
pub struct PlayerBodyAttachment {
    pub player: Entity,
    pub sync_animation: bool,
    pub sync_color: bool,
    pub head: bool,
    pub offset: Vec3,
}

/// Marks a player who cannot be hurt for the moment.
#[derive(Clone, Copy, Debug, Default, PartialEq, Eq)]
pub struct Invincibility;

/// Marks a map slot whose element is live, and the live element itself.
#[derive(Clone, Copy, Debug, Default, PartialEq, Eq)]
pub struct MapElementHydrated;

/// The element metadata a map slot or a live element was authored with.
#[derive(Clone, Copy, Debug, PartialEq, Eq)]
pub struct ElementHandle(pub u32);

/// Back-reference from a live element to the map slot it was hydrated from.
#[derive(Clone, Copy, Debug, PartialEq, Eq)]
pub struct DehydrateOutOfBounds(pub Entity);

/// Record, on a map slot, of the live element hydrated from it.
#[derive(Clone, Copy, Debug, PartialEq, Eq)]
pub struct Spawner {
    pub spawned: Entity,
}

/// The authored map layer an entity belongs to.
#[derive(Clone, Copy, Debug, PartialEq, Eq)]
pub struct SpawnedMapLayerMeta {
    pub layer_idx: u32,
}

/// Marks a map slot at which players enter the match.
#[derive(Clone, Copy, Debug, Default, PartialEq, Eq)]
pub struct PlayerSpawner;

/// An axis-aligned box that hurts whoever overlaps it.
#[derive(Clone, Copy, Debug, PartialEq, Eq)]
pub struct DamageRegion {
    pub size: Vec2,
}

/// An axis-aligned box in which players react with an emote.
#[derive(Clone, Copy, Debug, PartialEq, Eq)]
pub struct EmoteRegion {
    pub size: Vec2,
}

/// Countdown after which a transient entity is destroyed.
#[derive(Clone, Copy, Debug, PartialEq, Eq)]
pub struct Lifetime {
    /// Nanoseconds the entity is to live.
    pub lifetime: u64,
    /// Nanoseconds it has lived.
    pub age: u64,
}

impl Lifetime {
    pub fn new(lifetime: u64) -> (l: Lifetime)
        ensures
            l == (Lifetime { lifetime, age: 0 }),
    {
        Lifetime { lifetime, age: 0 }
    }
}

/// Draw depth of an authored map layer: layers start far back and lie two units apart.
pub open spec fn z_depth_for_map_layer_spec(layer_idx: u32) -> int {
    crate::math::saturate(-900_000 + layer_idx as int * 2_000)
}

/// Draw depth of an authored map layer.
pub fn z_depth_for_map_layer(layer_idx: u32) -> (z: i32)
    ensures
        z as int == z_depth_for_map_layer_spec(layer_idx),
{
    let depth: i64 = -900_000 + (layer_idx as i64) * 2_000;
    if depth > i32::MAX as i64 {
        i32::MAX
    } else {
        depth as i32
    }
}

} // verus!
