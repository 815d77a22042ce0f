//! Typed handles and the metadata they resolve to.
//!
//! Names that the game data refers to by string (sounds, atlases, animations) are
//! resolved once at load time into small numeric symbols, so that no per-tick loop
//! compares strings.

use vstd::prelude::*;
use crate::kick_bomb::KickBombMeta;

verus! {

/// Symbol of a loaded sound.
#[derive(Clone, Copy, Debug, PartialEq, Eq, Structural)]
pub struct SoundHandle {
    pub id: u32,
}

/// Symbol of a loaded sprite atlas.
#[derive(Clone, Copy, Debug, PartialEq, Eq, Structural)]
pub struct AtlasHandle {
    pub id: u32,
}

/// Symbol of an animation name.
#[derive(Clone, Copy, Debug, PartialEq, Eq, Structural)]
pub struct AnimName {
    pub id: u32,
}

/// The symbol reserved for the walk animation.
pub const ANIM_WALK: u32 = 1;

/// A handle whose target type is not known until it is looked up.
#[derive(Clone, Copy, Debug, PartialEq, Eq, Structural)]
pub struct UntypedHandle {
    pub index: u32,
}

/// Metadata of a map element: a wrapper around the handle of the element's own data.
#[derive(Clone, Copy, Debug, PartialEq, Eq)]
pub struct ElementMeta {
    pub data: UntypedHandle,
}

/// Sounds of a playable character.
#[derive(Clone, Copy, Debug, PartialEq, Eq)]
pub struct PlayerSounds {
    pub jump: SoundHandle,
    pub jump_volume: i32,
}

/// Movement figures of a playable character.
#[derive(Clone, Copy, Debug, PartialEq, Eq)]
pub struct PlayerStats {
    pub jump_speed: i32,
    pub accel_walk_speed: i32,
    pub walk_speed: i32,
}

/// Metadata of a playable character.
#[derive(Clone, Copy, Debug, PartialEq, Eq)]
pub struct PlayerMeta {
    pub sounds: PlayerSounds,
    pub stats: PlayerStats,
}

/// One loaded asset.
#[derive(Clone, Copy, Debug, PartialEq, Eq)]
pub enum Asset {
    KickBomb(KickBombMeta),
    Element(ElementMeta),
    Player(PlayerMeta),
    Other,
}

/// Why an untyped handle could not be used as a kick bomb handle.
#[derive(Clone, Copy, Debug, PartialEq, Eq, Structural)]
pub enum HandleCastError {
    /// Nothing is loaded under the handle.
    NotLoaded,
    /// The handle leads to an asset of another type.
    Mismatch,
}

/// The loaded assets, addressed by handle index.
pub struct AssetServer {
    pub assets: Vec<Asset>,
}

impl AssetServer {
    /// What is loaded under `index`, if anything.
    pub open spec fn lookup(&self, index: u32) -> Option<Asset> {
        if (index as int) < self.assets@.len() {
            Some(self.assets@[index as int])
        } else {
            None
        }
    }

    /// The kick bomb metadata under `index`, if that is what is loaded there.
    pub open spec fn kick_bomb_spec(&self, index: u32) -> Option<KickBombMeta> {
        match self.lookup(index) {
            Some(Asset::KickBomb(meta)) => Some(meta),
            _ => None,
        }
    }

    /// The player metadata under `index`, if that is what is loaded there.
    pub open spec fn player_spec(&self, index: u32) -> Option<PlayerMeta> {
        match self.lookup(index) {
            Some(Asset::Player(meta)) => Some(meta),
            _ => None,
        }
    }

    /// The element metadata under `index`, if that is what is loaded there.
    pub open spec fn element_spec(&self, index: u32) -> Option<ElementMeta> {
        match self.lookup(index) {
            Some(Asset::Element(meta)) => Some(meta),
            _ => None,
        }
    }

    /// Result of using `handle` as a kick bomb handle: the handle itself when it names
    /// kick bomb metadata, the inner handle when it names an element that wraps kick
    /// bomb metadata, and an error otherwise.
    pub open spec fn cast_kick_bomb_spec(
        &self,
        handle: UntypedHandle,
    ) -> Result<u32, HandleCastError> {
        match self.lookup(handle.index) {
            None => Err(HandleCastError::NotLoaded),
            Some(Asset::KickBomb(_)) => Ok(handle.index),
            Some(Asset::Element(element)) => match self.lookup(element.data.index) {
                None => Err(HandleCastError::NotLoaded),
                Some(Asset::KickBomb(_)) => Ok(element.data.index),
                Some(_) => Err(HandleCastError::Mismatch),
            },
            Some(_) => Err(HandleCastError::Mismatch),
        }
    }

    pub fn new() -> (s: AssetServer)
        ensures
            s.assets@.len() == 0,
    {
        AssetServer { assets: Vec::new() }
    }

    /// Loads `asset` and returns the handle it can be found under from now on.
    pub fn load(&mut self, asset: Asset) -> (h: UntypedHandle)
        requires
            old(self).assets@.len() < u32::MAX,
        ensures
            h.index == old(self).assets@.len(),
            final(self).assets@ == old(self).assets@.push(asset),
            final(self).lookup(h.index) == Some(asset),
    {
        let index: u32 = self.assets.len() as u32;
        self.assets.push(asset);
        UntypedHandle { index }
    }

    /// What is loaded under `index`, if anything.
    pub fn get(&self, index: u32) -> (a: Option<Asset>)
        ensures
            a == self.lookup(index),
    {
        if (index as usize) < self.assets.len() {
            Some(self.assets[index as usize])
        } else {
            None
        }
    }

    /// The kick bomb metadata under `index`, if that is what is loaded there.
    pub fn kick_bomb(&self, index: u32) -> (m: Option<KickBombMeta>)
        ensures
            m == self.kick_bomb_spec(index),
    {
        match self.get(index) {
            Some(Asset::KickBomb(meta)) => Some(meta),
            _ => None,
        }
    }

    /// The player metadata under `index`, if that is what is loaded there.
    pub fn player(&self, index: u32) -> (m: Option<PlayerMeta>)
        ensures
            m == self.player_spec(index),
    {
        match self.get(index) {
            Some(Asset::Player(meta)) => Some(meta),
            _ => None,
        }
    }

    /// The element metadata under `index`, if that is what is loaded there.
    pub fn element(&self, index: u32) -> (m: Option<ElementMeta>)
        ensures
            m == self.element_spec(index),
    {
        match self.get(index) {
            Some(Asset::Element(meta)) => Some(meta),
            _ => None,
        }
    }
}

/// Uses an untyped handle as a kick bomb handle.
///
/// Succeeds with the handle's own index when kick bomb metadata is loaded under it, and
/// with the wrapped index when an element is loaded under it whose data is kick bomb
/// metadata. Fails with `NotLoaded` when the handle, or the handle an element wraps,
/// leads nowhere, and with `Mismatch` when it leads to anything else.
pub fn try_cast_meta_handle(
    handle: UntypedHandle,
    assets: &AssetServer,
) -> (r: Result<u32, HandleCastError>)
    ensures
        r == assets.cast_kick_bomb_spec(handle),
        r matches Ok(index) ==> assets.kick_bomb_spec(index) is Some,
{
    match assets.get(handle.index) {
        None => Err(HandleCastError::NotLoaded),
        Some(Asset::KickBomb(_)) => Ok(handle.index),
        Some(Asset::Element(element)) => match assets.get(element.data.index) {
            None => Err(HandleCastError::NotLoaded),
            Some(Asset::KickBomb(_)) => Ok(element.data.index),
            Some(_) => Err(HandleCastError::Mismatch),
        },
        Some(_) => Err(HandleCastError::Mismatch),
    }
}

} // verus!
