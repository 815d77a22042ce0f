//! Deferred structural changes.

use vstd::prelude::*;
use crate::assets::{AtlasHandle, HandleCastError, UntypedHandle};
use crate::components::{ElementHandle, Transform};
use crate::entity::Entity;
use crate::item::{EffectId, Inventory, ItemDropped, ItemGrabbed, ItemMarker};
use crate::kick_bomb::KickBombCommand;
use crate::math::Vec2;
use crate::world::{EntityData, PendingEffect, Resources, World, WorldView};

verus! {

/// What an explosion leaves behind.
#[derive(Clone, Copy, Debug, PartialEq, Eq)]
pub struct Blast {
    pub damage_region_size: Vec2,
    pub damage_region_lifetime: u64,
    pub explosion_lifetime: u64,
    pub explosion_atlas: AtlasHandle,
    pub explosion_fps: i32,
    pub explosion_frames: u32,
}

/// A structural change recorded during a stage and applied after it.
///
/// A command holds handles and copies of values, never a reference into the store.
#[derive(Clone, Copy, Debug, PartialEq, Eq)]
#[allow(inconsistent_fields)]
pub enum Command {
    /// Destroy an entity.
    DestroyEntity { entity: Entity },
    /// Put `item` into the player's hands, or empty them.
    SetInventory { player: Entity, item: Option<Entity> },
    /// Turn an idle kick bomb into a lit one.
    LightKickBomb { entity: Entity, arm_delay: u64, fuse_time: u64 },
    /// Destroy a kick bomb and put its blast in its place.
    Explode { entity: Entity, transform: Transform, blast: Blast },
    /// Make a kick bomb, out of `entity` if one is given.
    SpawnKickBomb {
        entity: Option<Entity>,
        transform: Transform,
        handle: UntypedHandle,
        lit: bool,
        player_flip: Option<bool>,
    },
    /// Make the kick bomb of a map slot.
    HydrateKickBomb { slot: Entity, element_handle: ElementHandle, transform: Transform, handle: UntypedHandle },
    /// Have the host run a one-shot routine.
    RunEffect { entity: Entity, effect: EffectId },
}

/// A command that could not be carried out.
#[derive(Clone, Copy, Debug, PartialEq, Eq)]
pub struct Skipped {
    /// Position of the command in the queue that was drained.
    pub position: usize,
    pub error: HandleCastError,
}

impl Command {
    /// The command can be carried out: a command that spawns a lit kick bomb says which
    /// way its thrower looks. Every other command is sound as it is.
    pub open spec fn sound(self) -> bool {
        match self {
            Command::SpawnKickBomb { lit, player_flip, .. } => lit ==> player_flip is Some,
            _ => true,
        }
    }

    /// Whether the command can be carried out.
    pub fn is_sound(&self) -> (b: bool)
        ensures
            b == self.sound(),
    {
        match *self {
            Command::SpawnKickBomb { lit, player_flip, .. } => !lit || player_flip.is_some(),
            _ => true,
        }
    }

    /// The world after a player's inventory has been set. A player without an
    /// inventory, or who does not exist, is a miss, and nothing changes. Otherwise the
    /// item the player carried, if any, is marked as dropped by the player; the item it
    /// is to carry, if any, is marked as grabbed by the player; and the inventory
    /// refers to the new item or to nothing.
    pub open spec fn set_inventory_spec(
        w: WorldView,
        player: Entity,
        item: Option<Entity>,
    ) -> WorldView {
        match w.at(player).inventory {
            None => w,
            Some(Inventory(carried)) => {
                let w = match carried {
                    Some(old_item) => w.with_entity(
                        old_item,
                        EntityData { marker: ItemMarker::Dropped(ItemDropped { player }), ..w.at(old_item) },
                    ),
                    None => w,
                };
                let w = match item {
                    Some(new_item) => w.with_entity(
                        new_item,
                        EntityData { marker: ItemMarker::Grabbed(ItemGrabbed { player }), ..w.at(new_item) },
                    ),
                    None => w,
                };
                w.with_entity(player, EntityData { inventory: Some(Inventory(item)), ..w.at(player) })
            },
        }
    }

    /// The world after this command has been carried out. A command that refers to an
    /// entity that no longer exists finds nothing and changes nothing.
    pub open spec fn apply_spec(self, w: WorldView, res: &Resources) -> WorldView {
        match self {
            Command::DestroyEntity { entity } => w.kill(entity),
            Command::SetInventory { player, item } => Self::set_inventory_spec(w, player, item),
            Command::LightKickBomb { entity, arm_delay, fuse_time } => KickBombCommand::light_spec(
                w,
                entity,
                arm_delay,
                fuse_time,
            ),
            Command::Explode { entity, transform, blast } => KickBombCommand::explode_spec(
                w,
                entity,
                transform,
                blast,
            ),
            Command::SpawnKickBomb { entity, transform, handle, lit, player_flip } => KickBombCommand::spawn_spec(
                w,
                res,
                entity,
                transform,
                handle,
                lit,
                player_flip,
            ),
            Command::HydrateKickBomb { slot, element_handle, transform, handle } => KickBombCommand::hydrate_spec(
                w,
                res,
                slot,
                element_handle,
                transform,
                handle,
            ),
            Command::RunEffect { entity, effect } => w.schedule(PendingEffect { entity, effect }),
        }
    }

    /// Why this command is skipped, if it is: a command that makes a kick bomb and
    /// whose handle cannot be used as a kick bomb handle. Every other command is
    /// carried out.
    pub open spec fn error_spec(self, res: &Resources) -> Option<HandleCastError> {
        match self {
            Command::SpawnKickBomb { handle, .. } | Command::HydrateKickBomb { handle, .. } => {
                match res.assets.cast_kick_bomb_spec(handle) {
                    Err(e) => Some(e),
                    Ok(_) => None,
                }
            },
            _ => None,
        }
    }

    /// Sets a player's inventory now.
    pub fn set_inventory_now(world: &mut World, player: Entity, item: Option<Entity>)
        ensures
            final(world)@ == Self::set_inventory_spec(old(world)@, player, item),
    {
        let carried = match world.at(player).inventory {
            Some(Inventory(carried)) => carried,
            None => {
                return ;
            },
        };
        // If there was a previous item, drop it.
        if let Some(old_item) = carried {
            let mut data = world.at(old_item);
            data.marker = ItemMarker::Dropped(ItemDropped { player });
            world.set(old_item, data);
        }
        if let Some(new_item) = item {
            let mut data = world.at(new_item);
            data.marker = ItemMarker::Grabbed(ItemGrabbed { player });
            world.set(new_item, data);
        }
        // Update the player's inventory.
        let mut holder = world.at(player);
        holder.inventory = Some(Inventory(item));
        world.set(player, holder);
    }

    /// Carries this command out. The command must be sound. It fails exactly when it is
    /// to make a kick bomb and its handle cannot be used as a kick bomb handle; the bomb
    /// is then not made and nothing changes.
    pub fn apply(&self, world: &mut World, res: &Resources) -> (r: Result<(), HandleCastError>)
        requires
            self.sound(),
        ensures
            final(world)@ == self.apply_spec(old(world)@, res),
            match self.error_spec(res) {
                Some(e) => r == Err::<(), HandleCastError>(e) && final(world)@ == old(world)@,
                None => r is Ok,
            },
    {
        match *self {
            Command::DestroyEntity { entity } => {
                world.kill(entity);
                Ok(())
            },
            Command::SetInventory { player, item } => {
                Self::set_inventory_now(world, player, item);
                Ok(())
            },
            Command::LightKickBomb { entity, arm_delay, fuse_time } => {
                KickBombCommand::light_now(world, entity, arm_delay, fuse_time);
                Ok(())
            },
            Command::Explode { entity, transform, blast } => {
                KickBombCommand::explode_now(world, entity, transform, blast);
                Ok(())
            },
            Command::SpawnKickBomb { entity, transform, handle, lit, player_flip } => {
                KickBombCommand::spawn_now(world, res, entity, transform, handle, lit, player_flip)
            },
            Command::HydrateKickBomb { slot, element_handle, transform, handle } => {
                KickBombCommand::hydrate_now(world, res, slot, element_handle, transform, handle)
            },
            Command::RunEffect { entity, effect } => {
                world.effects.push(PendingEffect { entity, effect });
                Ok(())
            },
        }
    }
}

/// What the drop command comes to. When the hands of a player who carries an item are
/// emptied, the inventory of the player refers to nothing and the item, if it exists,
/// carries the dropped marker with the player's name.
pub proof fn lemma_set_inventory_drops(w: WorldView, player: Entity, item: Entity)
    requires
        w.at(player).inventory == Some(Inventory(Some(item))),
    ensures
        ({
            let after = Command::set_inventory_spec(w, player, None);
            &&& after.at(player).inventory == Some(Inventory(None))
            &&& w.live(item) ==> after.at(item).marker == ItemMarker::Dropped(ItemDropped { player })
            &&& after.entities.len() == w.entities.len()
        }),
{
}

/// Every command of the queue can be carried out.
pub open spec fn queue_sound(queue: Seq<Command>) -> bool {
    forall|k: int| 0 <= k < queue.len() ==> (#[trigger] queue[k]).sound()
}

/// The world after the first `n` of `commands` have been carried out in order.
pub open spec fn apply_upto(
    w: WorldView,
    res: &Resources,
    commands: Seq<Command>,
    n: int,
) -> WorldView
    decreases n,
{
    if n <= 0 {
        w
    } else {
        commands[n - 1].apply_spec(apply_upto(w, res, commands, n - 1), res)
    }
}

/// The commands among the first `n` that are skipped, with their positions.
pub open spec fn skipped_upto(res: &Resources, commands: Seq<Command>, n: int) -> Seq<Skipped>
    decreases n,
{
    if n <= 0 {
        Seq::empty()
    } else {
        let before = skipped_upto(res, commands, n - 1);
        match commands[n - 1].error_spec(res) {
            Some(error) => before.push(Skipped { position: (n - 1) as usize, error }),
            None => before,
        }
    }
}

/// The world after its queue has been drained: the queue is empty, and every command
/// that was in it has been carried out, oldest first.
pub open spec fn drain_spec(w: WorldView, res: &Resources) -> WorldView {
    apply_upto(WorldView { commands: Seq::empty(), ..w }, res, w.commands, w.commands.len() as int)
}

/// Carrying out commands records no new command.
pub proof fn lemma_apply_leaves_queue(w: WorldView, res: &Resources, commands: Seq<Command>, n: int)
    requires
        0 <= n <= commands.len(),
    ensures
        apply_upto(w, res, commands, n).commands == w.commands,
    decreases n,
{
    if n > 0 {
        lemma_apply_leaves_queue(w, res, commands, n - 1);
    }
}

/// After a drain the queue is empty.
pub proof fn lemma_drain_empties_queue(w: WorldView, res: &Resources)
    ensures
        drain_spec(w, res).commands.len() == 0,
{
    lemma_apply_leaves_queue(
        WorldView { commands: Seq::empty(), ..w },
        res,
        w.commands,
        w.commands.len() as int,
    );
}

/// Draining an empty queue changes nothing, however often it is done.
pub proof fn lemma_drain_empty_is_noop(w: WorldView, res: &Resources)
    requires
        w.commands.len() == 0,
    ensures
        drain_spec(w, res) == w,
        drain_spec(drain_spec(w, res), res) == w,
{
}

/// A second drain right after a drain changes nothing.
pub proof fn lemma_drain_idempotent(w: WorldView, res: &Resources)
    ensures
        drain_spec(drain_spec(w, res), res) == drain_spec(w, res),
{
    lemma_drain_empties_queue(w, res);
    lemma_drain_empty_is_noop(drain_spec(w, res), res);
}

/// Drains the command queue: carries out every recorded command, oldest first, and
/// leaves the queue empty. Every command in the queue must be sound. Returns the
/// commands that had to be skipped.
pub fn apply_commands(world: &mut World, res: &Resources) -> (skipped: Vec<Skipped>)
    requires
        queue_sound(old(world)@.commands),
    ensures
        final(world)@ == drain_spec(old(world)@, res),
        final(world)@.commands.len() == 0,
        old(world)@.commands.len() == 0 ==> final(world)@ == old(world)@ && skipped@.len() == 0,
        skipped@ == skipped_upto(res, old(world)@.commands, old(world)@.commands.len() as int),
{
    let mut commands: Vec<Command> = Vec::new();
    std::mem::swap(&mut commands, &mut world.commands);
    let mut skipped: Vec<Skipped> = Vec::new();
    let ghost start = world@;
    let mut k: usize = 0;
    while k < commands.len()
        invariant
            k <= commands@.len(),
            commands@ == old(world)@.commands,
            queue_sound(commands@),
            world@ == apply_upto(start, res, commands@, k as int),
            skipped@ == skipped_upto(res, commands@, k as int),
        decreases commands@.len() - k,
    {
        let command = commands[k];
        if let Err(error) = command.apply(world, res) {
            skipped.push(Skipped { position: k, error });
        }
        k = k + 1;
    }
    proof {
        lemma_drain_empties_queue(old(world)@, res);
        if old(world)@.commands.len() == 0 {
            lemma_drain_empty_is_noop(old(world)@, res);
        }
    }
    skipped
}

} // verus!
