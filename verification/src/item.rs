//! Common item code.
//!
//! An item is anything in the game that a player can pick up. An item goes from free to
//! grabbed, from there to used or dropped, and a dropped item is thrown on the next tick.
//! This module holds the item components and the passes that grab and drop; throwing is
//! in [`crate::item_throw`], and the snapshot of who carries what in
//! [`crate::inventories`].

use vstd::prelude::*;
use crate::assets::AnimName;
use crate::commands::Command;
use crate::components::{KinematicBody, PlayerBodyAttachment, PlayerLayers};
use crate::entity::Entity;
use crate::inventories::PlayerInventories;
use crate::math::{Vec2, Vec3};
use crate::schedule::{register_spec, CoreStage, Schema, SessionBuilder, SystemId};
use crate::world::{EntityData, World, WorldView};

verus! {

/// Marker component for items: entities that players can pick up and use.
#[derive(Clone, Copy, Debug, Default, PartialEq, Eq)]
pub struct Item;

/// The entity a player carries, if any.
#[derive(Clone, Copy, Debug, PartialEq, Eq)]
pub struct Inventory(pub Option<Entity>);

/// Marker component that may be added to an item to have its holder drop it.
#[derive(Clone, Copy, Debug, Default, PartialEq, Eq)]
pub struct DropItem;

/// A player together with the entity it carries.
#[derive(Clone, Copy, Debug, PartialEq, Eq)]
pub struct Inv {
    pub player: Entity,
    pub inventory: Entity,
}

/// Marker placed on an item when it is dropped.
#[derive(Clone, Copy, Debug, PartialEq, Eq)]
pub struct ItemDropped {
    /// The player that dropped the item.
    pub player: Entity,
}

/// Marker placed on an item when it is grabbed.
#[derive(Clone, Copy, Debug, PartialEq, Eq)]
pub struct ItemGrabbed {
    /// The player that grabbed the item.
    pub player: Entity,
}

/// Marker placed on an item when it is used.
#[derive(Clone, Copy, Debug, PartialEq, Eq)]
pub struct ItemUsed {
    /// The player that used the item.
    pub owner: Entity,
}

/// The event pending on an item. An item carries at most one at a time: placing a
/// marker replaces the one before, and the system that acts on a marker removes it.
#[derive(Clone, Copy, Debug, PartialEq, Eq)]
pub enum ItemMarker {
    Unmarked,
    Grabbed(ItemGrabbed),
    Dropped(ItemDropped),
    Used(ItemUsed),
}

impl ItemMarker {
    pub open spec fn is_grabbed(self) -> bool {
        self is Grabbed
    }

    pub open spec fn is_dropped(self) -> bool {
        self is Dropped
    }

    pub open spec fn is_used(self) -> bool {
        self is Used
    }

    /// How many of the three markers are present.
    pub open spec fn count(self) -> nat {
        (if self.is_grabbed() { 1nat } else { 0nat })
            + (if self.is_dropped() { 1nat } else { 0nat })
            + (if self.is_used() { 1nat } else { 0nat })
    }
}

/// No item ever carries more than one of the grabbed, dropped and used markers.
pub proof fn lemma_markers_exclusive(marker: ItemMarker)
    ensures
        marker.count() <= 1,
        marker.count() == 0 <==> marker == ItemMarker::Unmarked,
{
}

/// In every world, at the start of a tick as at any other moment, each entity carries
/// at most one of the grabbed, dropped and used markers.
pub proof fn lemma_one_marker_per_item(w: WorldView, i: int)
    requires
        0 <= i < w.entities.len(),
    ensures
        w.entities[i].marker.count() <= 1,
{
}

/// How an item sits in its holder's hands.
#[derive(Clone, Copy, Debug, PartialEq, Eq)]
pub struct ItemGrab {
    pub fin_anim: AnimName,
    pub grab_offset: Vec2,
    pub sync_animation: bool,
}

/// Name of a one-shot routine that the host runs on behalf of an item.
#[derive(Clone, Copy, Debug, PartialEq, Eq)]
pub struct EffectId {
    pub id: u32,
}

/// The grab that is due for slot `i`, if one is: the slot holds a live item with grab
/// settings that carries the grabbed marker. Gives the settings and the player who
/// grabbed the item.
pub open spec fn grab_due(w: WorldView, i: int) -> Option<(ItemGrab, Entity)> {
    let e = w.entities[i];
    match (e.item, e.item_grab, e.marker) {
        (Some(_), Some(grab), ItemMarker::Grabbed(grabbed)) if e.alive => Some((grab, grabbed.player)),
        _ => None,
    }
}

/// An item after it has been grabbed: the marker is gone, the body, if there is one, is
/// taken out of physics, and the item is attached to the player who grabbed it, at the
/// item's grab offset and half a fin layer in front of the body.
pub open spec fn grabbed_spec(e: EntityData, grab: ItemGrab, player: Entity) -> EntityData {
    EntityData {
        marker: ItemMarker::Unmarked,
        body: match e.body {
            Some(body) => Some(KinematicBody { is_deactivated: true, ..body }),
            None => None,
        },
        attachment: Some(
            PlayerBodyAttachment {
                player,
                sync_animation: grab.sync_animation,
                sync_color: false,
                head: false,
                offset: Vec3 {
                    x: grab.grab_offset.x,
                    y: grab.grab_offset.y,
                    z: (PlayerLayers::FIN_Z_OFFSET / 2) as i32,
                },
            },
        ),
        ..e
    }
}

/// The world after slot `i` has been looked at for a grab. If a grab is due, the item
/// is grabbed, and the fin animation of the player who grabbed it becomes the item's,
/// if the player has layers. Any other slot is left alone.
pub open spec fn grab_entity_spec(w: WorldView, i: int) -> WorldView
    recommends
        0 <= i < w.entities.len(),
{
    match grab_due(w, i) {
        Some((grab, holder)) => {
            let w = w.with(i, grabbed_spec(w.entities[i], grab, holder));
            let player = w.at(holder);
            match player.player_layers {
                Some(_) => w.with_entity(
                    holder,
                    EntityData { player_layers: Some(PlayerLayers { fin_anim: grab.fin_anim }), ..player },
                ),
                None => w,
            }
        },
        None => w,
    }
}

/// The world after the first `n` slots have been looked at for grabs, in ascending
/// order.
pub open spec fn grab_upto(w: WorldView, n: int) -> WorldView
    decreases n,
{
    if n <= 0 {
        w
    } else {
        grab_entity_spec(grab_upto(w, n - 1), n - 1)
    }
}

fn grab_entity(world: &mut World, i: usize)
    requires
        i < old(world)@.entities.len(),
    ensures
        final(world)@ == grab_entity_spec(old(world)@, i as int),
        final(world)@.entities.len() == old(world)@.entities.len(),
{
    let e = world.entities[i];
    if !e.alive || e.item.is_none() {
        return ;
    }
    let grab = match e.item_grab {
        Some(grab) => grab,
        None => {
            return ;
        },
    };
    if let ItemMarker::Grabbed(ItemGrabbed { player }) = e.marker {
        let mut slot = e;
        slot.marker = ItemMarker::Unmarked;
        if let Some(body) = e.body {
            let mut held = body;
            held.is_deactivated = true;
            slot.body = Some(held);
        }
        slot.attachment = Some(
            PlayerBodyAttachment {
                player,
                sync_animation: grab.sync_animation,
                sync_color: false,
                head: false,
                offset: grab.grab_offset.extend(PlayerLayers::FIN_Z_OFFSET / 2),
            },
        );
        world.put(i, slot);
        let mut holder = world.at(player);
        if holder.player_layers.is_some() {
            holder.player_layers = Some(PlayerLayers { fin_anim: grab.fin_anim });
            world.set(player, holder);
        }
    }
}

/// A grab is acted on once: the item no longer carries the grabbed marker, so looking
/// at its slot again changes nothing.
pub proof fn lemma_grab_acted_on_once(w: WorldView, i: int)
    requires
        0 <= i < w.entities.len(),
    ensures
        !(grab_entity_spec(w, i).entities[i].item is Some && grab_entity_spec(w, i).entities[i].item_grab is Some
            && grab_entity_spec(w, i).entities[i].alive && grab_entity_spec(w, i).entities[i].marker is Grabbed),
        grab_entity_spec(grab_entity_spec(w, i), i) == grab_entity_spec(w, i),
{
}

/// The fin animation that the grabs in the first `n` slots leave on the player in slot
/// `p`: that of the last item among them that the player grabbed. Nothing if the player
/// grabbed none of them.
pub open spec fn fin_anim_upto(w: WorldView, n: int, p: int) -> Option<AnimName>
    decreases n,
{
    if n <= 0 {
        None
    } else {
        match grab_due(w, n - 1) {
            Some((grab, holder)) if holder.index == p => Some(grab.fin_anim),
            _ => fin_anim_upto(w, n - 1, p),
        }
    }
}

/// The slot `j` after the grab pass has dealt with the first `n` slots: an item among
/// them that was due is grabbed, and a live player with layers who grabbed any of them
/// shows the fin animation of the last one.
pub open spec fn grab_slot_after(w: WorldView, n: int, j: int) -> EntityData {
    let e = w.entities[j];
    let item = match grab_due(w, j) {
        Some((grab, holder)) if j < n => grabbed_spec(e, grab, holder),
        _ => e,
    };
    match (fin_anim_upto(w, n, j), e.player_layers) {
        (Some(fin_anim), Some(_)) if e.alive => EntityData {
            player_layers: Some(PlayerLayers { fin_anim }),
            ..item
        },
        _ => item,
    }
}

/// The world after the grab pass has dealt with the first `n` slots, every item judged
/// by the world before the pass.
pub open spec fn grab_pass_upto(w: WorldView, n: int) -> WorldView {
    WorldView { entities: Seq::new(w.entities.len(), |j: int| grab_slot_after(w, n, j)), ..w }
}

/// Visiting the slots one after another gives the world in which every item due for a
/// grab has been grabbed once, as the world before the pass has it, and every player
/// shows the fin animation of the last item it grabbed.
pub proof fn lemma_grab_pass(w: WorldView, n: int)
    requires
        0 <= n <= w.entities.len(),
    ensures
        grab_upto(w, n) == grab_pass_upto(w, n),
    decreases n,
{
    if n > 0 {
        lemma_grab_pass(w, n - 1);
        let v = grab_pass_upto(w, n - 1);
        let i = n - 1;
        assert(v.entities[i] == grab_slot_after(w, n - 1, i));
        assert(grab_due(v, i) == grab_due(w, i));
        let next = grab_entity_spec(v, i);
        match grab_due(w, i) {
            Some((grab, holder)) => {
                let p = holder.index as int;
                if p < w.entities.len() {
                    assert(v.entities[p] == grab_slot_after(w, n - 1, p));
                }
                assert forall|j: int| 0 <= j < w.entities.len() implies #[trigger] next.entities[j]
                    == grab_slot_after(w, n, j) by {
                    assert(v.entities[j] == grab_slot_after(w, n - 1, j));
                }
            },
            None => {
                assert forall|j: int| 0 <= j < w.entities.len() implies #[trigger] next.entities[j]
                    == grab_slot_after(w, n, j) by {
                    assert(v.entities[j] == grab_slot_after(w, n - 1, j));
                }
            },
        }
        assert(next.entities =~= grab_pass_upto(w, n).entities);
    }
    assert(grab_upto(w, n).entities =~= grab_pass_upto(w, n).entities);
}

/// What a grab comes to. Take an item due for a grab by a live player with layers, and
/// let no later slot hold another item that the same player grabbed. After the pass
/// the item no longer carries the grabbed marker, its body is out of physics, it is
/// attached to the player as its grab settings say, and the player shows the item's
/// fin animation.
pub proof fn lemma_grab_effect(w: WorldView, i: int)
    requires
        0 <= i < w.entities.len(),
        grab_due(w, i) is Some,
        w.at(grab_due(w, i).unwrap().1).player_layers is Some,
        forall|j: int|
            i < j < w.entities.len() ==> match #[trigger] grab_due(w, j) {
                Some((_, holder)) => holder != grab_due(w, i).unwrap().1,
                None => true,
            },
    ensures
        ({
            let (grab, holder) = grab_due(w, i).unwrap();
            let before = w.entities[i];
            let after = grab_upto(w, w.entities.len() as int);
            &&& after.entities[i].marker == ItemMarker::Unmarked
            &&& after.entities[i].body == grabbed_spec(before, grab, holder).body
            &&& before.body is Some ==> after.entities[i].body.unwrap().is_deactivated
            &&& after.entities[i].attachment == Some(
                PlayerBodyAttachment {
                    player: holder,
                    sync_animation: grab.sync_animation,
                    sync_color: false,
                    head: false,
                    offset: Vec3 {
                        x: grab.grab_offset.x,
                        y: grab.grab_offset.y,
                        z: (PlayerLayers::FIN_Z_OFFSET / 2) as i32,
                    },
                },
            )
            &&& after.at(holder).player_layers == Some(PlayerLayers { fin_anim: grab.fin_anim })
        }),
{
    let (grab, holder) = grab_due(w, i).unwrap();
    let n = w.entities.len() as int;
    lemma_grab_pass(w, n);
    lemma_last_grab(w, n, i);
    assert(grab_pass_upto(w, n).entities[i] == grab_slot_after(w, n, i));
    assert(grab_pass_upto(w, n).entities[holder.index as int] == grab_slot_after(w, n, holder.index as int));
}

/// The last grab by a player decides the fin animation.
proof fn lemma_last_grab(w: WorldView, n: int, i: int)
    requires
        0 <= i < n <= w.entities.len(),
        grab_due(w, i) is Some,
        forall|j: int|
            i < j < w.entities.len() ==> match #[trigger] grab_due(w, j) {
                Some((_, holder)) => holder != grab_due(w, i).unwrap().1,
                None => true,
            },
    ensures
        fin_anim_upto(w, n, grab_due(w, i).unwrap().1.index as int) == Some(grab_due(w, i).unwrap().0.fin_anim),
    decreases n,
{
    if n - 1 > i {
        lemma_last_grab(w, n - 1, i);
        assert(grab_due(w, n - 1) is Some ==> grab_due(w, n - 1).unwrap().1 != grab_due(w, i).unwrap().1);
    }
}

/// Attaches every item that carries a grabbed marker to the player who grabbed it, and
/// removes the marker. The items are visited in ascending order of their slots, and
/// each is judged by the world as it was before the pass; should one player have grabbed
/// several, the fin animation of the last one stays.
pub fn grab_items(world: &mut World)
    ensures
        final(world)@ == grab_pass_upto(old(world)@, old(world)@.entities.len() as int),
        final(world)@ == grab_upto(old(world)@, old(world)@.entities.len() as int),
        final(world)@.entities.len() == old(world)@.entities.len(),
{
    proof {
        lemma_grab_pass(old(world)@, old(world)@.entities.len() as int);
    }
    let n = world.entities.len();
    let mut i: usize = 0;
    while i < n
        invariant
            i <= n,
            n == old(world)@.entities.len(),
            world@.entities.len() == n,
            world@ == grab_upto(old(world)@, i as int),
        decreases n - i,
    {
        grab_entity(world, i);
        i = i + 1;
    }
}

/// The world after seat `k` of the snapshot has been looked at for a drop. If the item
/// the player in that seat carries is marked for dropping, the mark is removed and the
/// command that empties the player's hands is recorded.
pub open spec fn drop_seat_spec(w: WorldView, seats: Seq<Option<Inv>>, k: int) -> WorldView
    recommends
        0 <= k < seats.len(),
{
    match seats[k] {
        Some(inv) if w.at(inv.inventory).drop_item is Some => w.with_entity(
            inv.inventory,
            EntityData { drop_item: None, ..w.at(inv.inventory) },
        ).enqueue(Command::SetInventory { player: inv.player, item: None }),
        _ => w,
    }
}

/// The world after the first `n` seats have been looked at for drops, in ascending
/// order.
pub open spec fn drop_upto(w: WorldView, seats: Seq<Option<Inv>>, n: int) -> WorldView
    decreases n,
{
    if n <= 0 {
        w
    } else {
        drop_seat_spec(drop_upto(w, seats, n - 1), seats, n - 1)
    }
}

/// Some seat among the first `n` of the snapshot holds the item in slot `j`.
pub open spec fn held_upto(seats: Seq<Option<Inv>>, n: int, j: int) -> bool
    decreases n,
{
    n > 0 && (held_upto(seats, n - 1, j) || match seats[n - 1] {
        Some(inv) => inv.inventory.index == j,
        None => false,
    })
}

/// The drop that is due for seat `k`, if one is: the player in that seat carries an
/// item that is marked for dropping, and no lower seat holds the same item.
pub open spec fn drop_due(w: WorldView, seats: Seq<Option<Inv>>, k: int) -> Option<Inv> {
    match seats[k] {
        Some(inv) if w.at(inv.inventory).drop_item is Some && !held_upto(seats, k, inv.inventory.index as int) => Some(
            inv,
        ),
        _ => None,
    }
}

/// The commands that the drops of the first `n` seats record, in ascending order of the
/// seats: one for each drop that is due, emptying the hands of the player in that seat.
pub open spec fn drops_upto(w: WorldView, seats: Seq<Option<Inv>>, n: int) -> Seq<Command>
    decreases n,
{
    if n <= 0 {
        Seq::empty()
    } else {
        match drop_due(w, seats, n - 1) {
            Some(inv) => drops_upto(w, seats, n - 1).push(Command::SetInventory { player: inv.player, item: None }),
            None => drops_upto(w, seats, n - 1),
        }
    }
}

/// The world after the drop pass has dealt with the first `n` seats, every seat judged
/// by the world before the pass: each item that is marked for dropping and held in one
/// of those seats has lost the mark, and the drops are recorded in ascending order of
/// the seats.
pub open spec fn drop_pass_upto(w: WorldView, seats: Seq<Option<Inv>>, n: int) -> WorldView {
    WorldView {
        entities: Seq::new(
            w.entities.len(),
            |j: int|
                if w.entities[j].alive && held_upto(seats, n, j) {
                    EntityData { drop_item: None, ..w.entities[j] }
                } else {
                    w.entities[j]
                },
        ),
        commands: w.commands + drops_upto(w, seats, n),
        ..w
    }
}

/// Visiting the seats one after another gives the world in which every carried item
/// that was marked for dropping has been dealt with once, for the player in the lowest
/// seat that holds it.
pub proof fn lemma_drop_pass(w: WorldView, seats: Seq<Option<Inv>>, n: int)
    requires
        0 <= n <= seats.len(),
    ensures
        drop_upto(w, seats, n) == drop_pass_upto(w, seats, n),
    decreases n,
{
    if n > 0 {
        lemma_drop_pass(w, seats, n - 1);
        let v = drop_pass_upto(w, seats, n - 1);
        let next = drop_seat_spec(v, seats, n - 1);
        match seats[n - 1] {
            Some(inv) => {
                let j = inv.inventory.index as int;
                if j < w.entities.len() {
                    assert(v.entities[j] == if w.entities[j].alive && held_upto(seats, n - 1, j) {
                        EntityData { drop_item: None, ..w.entities[j] }
                    } else {
                        w.entities[j]
                    });
                }
                assert((v.at(inv.inventory).drop_item is Some) == (drop_due(w, seats, n - 1) is Some));
            },
            None => {},
        }
        assert forall|j: int| 0 <= j < w.entities.len() implies #[trigger] next.entities[j]
            == drop_pass_upto(w, seats, n).entities[j] by {
            assert(v.entities[j] == if w.entities[j].alive && held_upto(seats, n - 1, j) {
                EntityData { drop_item: None, ..w.entities[j] }
            } else {
                w.entities[j]
            });
        }
        assert(next.entities =~= drop_pass_upto(w, seats, n).entities);
        assert(next.commands =~= drop_pass_upto(w, seats, n).commands);
    }
    assert(drop_upto(w, seats, n).entities =~= drop_pass_upto(w, seats, n).entities);
    assert(drop_upto(w, seats, n).commands =~= drop_pass_upto(w, seats, n).commands);
}

/// Every drop that is due is recorded: the command that empties the hands of the
/// player in that seat is among those of the pass.
pub proof fn lemma_drop_recorded(w: WorldView, seats: Seq<Option<Inv>>, n: int, k: int)
    requires
        0 <= k < n <= seats.len(),
        drop_due(w, seats, k) is Some,
    ensures
        drops_upto(w, seats, n).contains(
            Command::SetInventory { player: drop_due(w, seats, k).unwrap().player, item: None },
        ),
    decreases n,
{
    let command = Command::SetInventory { player: drop_due(w, seats, k).unwrap().player, item: None };
    let all = drops_upto(w, seats, n);
    if k == n - 1 {
        assert(all.last() == command);
    } else {
        lemma_drop_recorded(w, seats, n - 1, k);
        let before = drops_upto(w, seats, n - 1);
        let at = choose|at: int| 0 <= at < before.len() && before[at] == command;
        assert(all[at] == command);
    }
}

/// A seat that holds an item keeps holding it as the pass goes on.
proof fn lemma_held_stays(seats: Seq<Option<Inv>>, k: int, n: int, j: int)
    requires
        0 <= k < n <= seats.len(),
        seats[k] matches Some(inv) && inv.inventory.index == j,
    ensures
        held_upto(seats, n, j),
    decreases n,
{
    if k < n - 1 {
        lemma_held_stays(seats, k, n - 1, j);
    }
}

/// What a drop request comes to. Take a player whose seat in the snapshot holds a live
/// item that is marked for dropping, and let no lower seat hold the same item. After
/// the pass the item is no longer marked for dropping, and the command that empties
/// the player's hands is in the queue.
pub proof fn lemma_drop_effect(w: WorldView, seats: Seq<Option<Inv>>, k: int)
    requires
        0 <= k < seats.len(),
        drop_due(w, seats, k) is Some,
    ensures
        ({
            let inv = drop_due(w, seats, k).unwrap();
            let after = drop_upto(w, seats, seats.len() as int);
            &&& seats[k] == Some(inv)
            &&& after.at(inv.inventory).drop_item is None
            &&& after.commands.contains(Command::SetInventory { player: inv.player, item: None })
        }),
{
    let inv = drop_due(w, seats, k).unwrap();
    let n = seats.len() as int;
    lemma_drop_pass(w, seats, n);
    lemma_drop_recorded(w, seats, n, k);
    lemma_held_stays(seats, k, n, inv.inventory.index as int);
    let drops = drops_upto(w, seats, n);
    let command = Command::SetInventory { player: inv.player, item: None };
    let at = choose|at: int| 0 <= at < drops.len() && drops[at] == command;
    assert((w.commands + drops)[w.commands.len() + at] == command);
}

/// Drop items that have the [`DropItem`] component added to them.
///
/// For every player who carries an item so marked, the mark is removed and the command
/// that empties the player's hands is recorded; should several seats hold one item, the
/// lowest seat has it. The drop itself, which clears the inventory and marks the item
/// as dropped, happens when the queue is drained.
pub fn drop_items(world: &mut World, player_inventories: &PlayerInventories)
    ensures
        final(world)@ == drop_pass_upto(old(world)@, player_inventories@, player_inventories@.len() as int),
        final(world)@ == drop_upto(old(world)@, player_inventories@, player_inventories@.len() as int),
        final(world)@.entities.len() == old(world)@.entities.len(),
{
    proof {
        lemma_drop_pass(old(world)@, player_inventories@, player_inventories@.len() as int);
    }
    let n = player_inventories.seats.len();
    let mut k: usize = 0;
    while k < n
        invariant
            k <= n,
            n == player_inventories@.len(),
            world@.entities.len() == old(world)@.entities.len(),
            world@ == drop_upto(old(world)@, player_inventories@, k as int),
        decreases n - k,
    {
        if let Some(inv) = player_inventories.seats[k] {
            let mut item = world.at(inv.inventory);
            if item.drop_item.is_some() {
                item.drop_item = None;
                world.set(inv.inventory, item);
                world.enqueue(Command::SetInventory { player: inv.player, item: None });
            }
        }
        k = k + 1;
    }
}

/// Installs the item systems into a session: registers the schemas of the item
/// components and has grabbing, dropping and throwing run, in that order, in the last
/// stage.
pub fn install(session: &mut SessionBuilder)
    ensures
        final(session).schemas.schemas@ == register_spec(
            register_spec(
                register_spec(
                    register_spec(register_spec(old(session).schemas.schemas@, Schema::Item), Schema::ItemThrow),
                    Schema::ItemGrab,
                ),
                Schema::DropItem,
            ),
            Schema::ItemUsed,
        ),
        final(session).stages@ == old(session).stages@.add(CoreStage::Last, SystemId::GrabItems).add(
            CoreStage::Last,
            SystemId::DropItems,
        ).add(CoreStage::Last, SystemId::ThrowDroppedItems),
{
    session.schemas.register(Schema::Item);
    session.schemas.register(Schema::ItemThrow);
    session.schemas.register(Schema::ItemGrab);
    session.schemas.register(Schema::DropItem);
    session.schemas.register(Schema::ItemUsed);
    session.stages.add_system_to_stage(CoreStage::Last, SystemId::GrabItems);
    session.stages.add_system_to_stage(CoreStage::Last, SystemId::DropItems);
    session.stages.add_system_to_stage(CoreStage::Last, SystemId::ThrowDroppedItems);
}

} // verus!
