//! Throwing: the velocities an item can leave its holder with, and the pass that
//! throws the items that were dropped.

use vstd::prelude::*;
use crate::commands::Command;
use crate::components::{z_depth_for_map_layer, z_depth_for_map_layer_spec, KinematicBody, Transform};
use crate::entity::Entity;
use crate::input::PlayerControl;
use crate::item::{EffectId, ItemDropped, ItemMarker};
use crate::math::{fx_neg, saturate, Vec2, Vec3};
use crate::world::{EntityData, Resources, World, WorldView};

verus! {

/// The six ways to let go of an item.
#[derive(Clone, Copy, Debug, PartialEq, Eq, Structural)]
pub enum ThrowKind {
    Normal,
    Fast,
    Up,
    Drop,
    Lob,
    Roll,
}

impl ThrowKind {
    /// The throw that a stick direction asks for: pushing down rolls the item when the
    /// stick also points sideways and drops it otherwise; a stick that points sideways
    /// lobs when it points up as well and throws fast when it does not; a stick that
    /// only points up throws upward; a stick at rest gives the normal throw.
    pub open spec fn from_direction(direction: Vec2) -> ThrowKind {
        let moving = direction.x != 0;
        if direction.y < 0 {
            if moving {
                ThrowKind::Roll
            } else {
                ThrowKind::Drop
            }
        } else if moving {
            if direction.y > 0 {
                ThrowKind::Lob
            } else {
                ThrowKind::Fast
            }
        } else if direction.y > 0 {
            ThrowKind::Up
        } else {
            ThrowKind::Normal
        }
    }

    /// Classifies a stick direction.
    pub fn classify(direction: Vec2) -> (kind: ThrowKind)
        ensures
            kind == Self::from_direction(direction),
    {
        let moving = direction.x != 0;
        if direction.y < 0 {
            if moving {
                ThrowKind::Roll
            } else {
                ThrowKind::Drop
            }
        } else if moving {
            if direction.y > 0 {
                ThrowKind::Lob
            } else {
                ThrowKind::Fast
            }
        } else if direction.y > 0 {
            ThrowKind::Up
        } else {
            ThrowKind::Normal
        }
    }
}

/// The velocity an item leaves its holder with, for each kind of throw.
#[derive(Clone, Copy, Debug, PartialEq, Eq)]
pub struct ItemThrow {
    pub normal: Vec2,
    pub fast: Vec2,
    pub up: Vec2,
    pub drop: Vec2,
    pub lob: Vec2,
    pub roll: Vec2,
    pub spin: i32,
    /// A routine that runs once when the item is thrown.
    pub system: Option<EffectId>,
}

impl ItemThrow {
    /// The relative velocities of the throws, for a strength of one.
    pub open spec fn base_spec() -> ItemThrow {
        ItemThrow {
            normal: Vec2 { x: 469, y: 375 },
            fast: Vec2 { x: 781, y: 625 },
            up: Vec2 { x: 0, y: 1100 },
            drop: Vec2 { x: 0, y: 0 },
            lob: Vec2 { x: 409, y: 1021 },
            roll: Vec2 { x: 400, y: -100i32 },
            spin: 0,
            system: None,
        }
    }

    /// The base velocities multiplied by `strength`.
    pub open spec fn strength_spec(strength: i32) -> ItemThrow {
        let base = Self::base_spec();
        ItemThrow {
            normal: base.normal.scaled_spec(strength),
            fast: base.fast.scaled_spec(strength),
            up: base.up.scaled_spec(strength),
            drop: base.drop.scaled_spec(strength),
            lob: base.lob.scaled_spec(strength),
            roll: base.roll.scaled_spec(strength),
            spin: 0,
            system: None,
        }
    }

    /// The velocity stored for one kind of throw.
    pub open spec fn of_kind(self, kind: ThrowKind) -> Vec2 {
        match kind {
            ThrowKind::Normal => self.normal,
            ThrowKind::Fast => self.fast,
            ThrowKind::Up => self.up,
            ThrowKind::Drop => self.drop,
            ThrowKind::Lob => self.lob,
            ThrowKind::Roll => self.roll,
        }
    }

    /// The velocity that a player's controls select.
    pub open spec fn velocity_spec(self, control: PlayerControl) -> Vec2 {
        self.of_kind(ThrowKind::from_direction(control.move_direction))
    }

    /// Velocity of a thrown item: the selected velocity, mirrored when the thrower
    /// looks to the left.
    pub open spec fn launch_velocity(self, control: PlayerControl, flip: bool) -> Vec2 {
        self.velocity_spec(control).mirrored_spec(flip)
    }

    /// Spin of a thrown item: the configured spin, reversed once when the thrower looks
    /// to the left and once more when the item is thrown downward.
    pub open spec fn launch_spin(self, control: PlayerControl, flip: bool) -> i32 {
        if flip != (self.velocity_spec(control).y < 0) {
            saturate(-(self.spin as int)) as i32
        } else {
            self.spin
        }
    }

    /// The relative velocities of each kind of throw.
    ///
    /// Multiplied by the desired strength in [`Self::strength`], they give a throw
    /// pattern from a single speed.
    pub fn base() -> (t: ItemThrow)
        ensures
            t == Self::base_spec(),
    {
        ItemThrow {
            normal: Vec2 { x: 469, y: 375 },
            fast: Vec2 { x: 781, y: 625 },
            up: Vec2 { x: 0, y: 1100 },
            drop: Vec2 { x: 0, y: 0 },
            lob: Vec2 { x: 409, y: 1021 },
            roll: Vec2 { x: 400, y: -100 },
            spin: 0,
            system: None,
        }
    }

    /// [`Self::base`] with the throw values multiplied by `strength`.
    pub fn strength(strength: i32) -> (t: ItemThrow)
        ensures
            t == Self::strength_spec(strength),
    {
        let base = Self::base();
        ItemThrow {
            normal: base.normal.scaled(strength),
            fast: base.fast.scaled(strength),
            up: base.up.scaled(strength),
            drop: base.drop.scaled(strength),
            lob: base.lob.scaled(strength),
            roll: base.roll.scaled(strength),
            spin: 0,
            system: None,
        }
    }

    /// The same throws with another spin.
    pub fn with_spin(self, spin: i32) -> (t: ItemThrow)
        ensures
            t == (ItemThrow { spin, ..self }),
    {
        ItemThrow { spin, ..self }
    }

    /// The same throws with a routine to run once on each throw.
    pub fn with_system(self, system: EffectId) -> (t: ItemThrow)
        ensures
            t == (ItemThrow { system: Some(system), ..self }),
    {
        ItemThrow { system: Some(system), ..self }
    }

    /// Chooses one of the throw values based on a player's controls.
    pub fn velocity_from_control(&self, player_control: &PlayerControl) -> (v: Vec2)
        ensures
            v == self.velocity_spec(*player_control),
    {
        match ThrowKind::classify(player_control.move_direction) {
            ThrowKind::Normal => self.normal,
            ThrowKind::Fast => self.fast,
            ThrowKind::Up => self.up,
            ThrowKind::Drop => self.drop,
            ThrowKind::Lob => self.lob,
            ThrowKind::Roll => self.roll,
        }
    }

    /// Spin to give an item thrown with `velocity` by a thrower who looks to the left
    /// when `flip` is set.
    pub fn spin_for(&self, velocity: Vec2, flip: bool) -> (s: i32)
        ensures
            s == if flip != (velocity.y < 0) {
                saturate(-(self.spin as int)) as i32
            } else {
                self.spin
            },
    {
        if flip != (velocity.y < 0) {
            fx_neg(self.spin)
        } else {
            self.spin
        }
    }
}

impl Default for ItemThrow {
    fn default() -> (t: ItemThrow)
        ensures
            t == ItemThrow::base_spec(),
    {
        Self::base()
    }
}

/// A stick pushed sideways and up selects the lob, and a thrower who looks to the right
/// throws it unmirrored: the item leaves with the base lob vector scaled by the
/// configured strength.
pub proof fn lemma_lob_facing_right(strength: i32, control: PlayerControl)
    requires
        control.move_direction.x != 0,
        control.move_direction.y > 0,
    ensures
        ThrowKind::from_direction(control.move_direction) == ThrowKind::Lob,
        ItemThrow::strength_spec(strength).launch_velocity(control, false)
            == ItemThrow::base_spec().lob.scaled_spec(strength),
{
}

/// The layer of the first player spawn point in the slots from `k` onward.
pub open spec fn spawn_layer_from(w: WorldView, k: int) -> Option<u32>
    decreases w.entities.len() - k,
{
    if k < 0 || k >= w.entities.len() {
        None
    } else {
        let e = w.entities[k];
        match (e.player_spawner, e.map_layer) {
            (Some(_), Some(layer)) if e.alive => Some(layer.layer_idx),
            _ => spawn_layer_from(w, k + 1),
        }
    }
}

/// Draw depth for an item dropped from slot `i`: that of the layer of the map slot the
/// item came from, or, for an item that came from none, that of the layer of the player
/// spawn point with the lowest index. Nothing if no such layer is known.
pub open spec fn drop_depth_spec(w: WorldView, i: int) -> Option<i32>
    recommends
        0 <= i < w.entities.len(),
{
    match w.entities[i].dehydrate_out_of_bounds {
        Some(spawner) => match w.at(spawner.0).map_layer {
            Some(layer) => Some(z_depth_for_map_layer_spec(layer.layer_idx) as i32),
            None => None,
        },
        None => match spawn_layer_from(w, 0) {
            Some(layer_idx) => Some(z_depth_for_map_layer_spec(layer_idx) as i32),
            None => None,
        },
    }
}

/// A throw that is due: the settings of the item, the controls of the player who
/// dropped it, and whether that player looks to the left.
pub struct Throw {
    pub throw: ItemThrow,
    pub control: PlayerControl,
    pub flip: bool,
}

/// The throw that is due for slot `i`, if one is: the slot holds a live item with throw
/// settings and a position that carries the dropped marker, and the player who dropped
/// it still has a sprite and a seat with input.
pub open spec fn throw_due(w: WorldView, res: &Resources, i: int) -> Option<Throw> {
    let e = w.entities[i];
    match (e.item, e.item_throw, e.transform, e.marker) {
        (Some(_), Some(throw), Some(_), ItemMarker::Dropped(dropped)) if e.alive => {
            let player = w.at(dropped.player);
            match (player.sprite, player.player_idx) {
                (Some(sprite), Some(idx)) => match res.inputs.seat_spec(idx.0) {
                    Some(input) => Some(Throw { throw, control: input.control, flip: sprite.flip_x }),
                    None => None,
                },
                _ => None,
            }
        },
        _ => None,
    }
}

/// An item after it has been thrown: the marker and the attachment are gone, the item
/// is at its drop depth if one is known, and its body, if it has one, takes part in
/// physics again, with the velocity and spin that the thrower's stick and facing
/// select.
pub open spec fn thrown_spec(e: EntityData, t: Throw, depth: Option<i32>) -> EntityData
    recommends
        e.transform is Some,
{
    let transform = e.transform.unwrap();
    EntityData {
        marker: ItemMarker::Unmarked,
        attachment: None,
        transform: Some(
            match depth {
                Some(z) => Transform { translation: Vec3 { z, ..transform.translation }, ..transform },
                None => transform,
            },
        ),
        body: match e.body {
            Some(body) => Some(
                KinematicBody {
                    velocity: t.throw.launch_velocity(t.control, t.flip),
                    angular_velocity: t.throw.launch_spin(t.control, t.flip),
                    is_deactivated: false,
                    ..body
                },
            ),
            None => None,
        },
        ..e
    }
}

/// The world after slot `i` has been looked at for a throw. If a throw is due the item
/// is thrown, and if its throw settings name a routine, the command to run it is
/// recorded. Any other slot is left alone.
pub open spec fn throw_entity_spec(w: WorldView, res: &Resources, i: int) -> WorldView
    recommends
        0 <= i < w.entities.len(),
{
    match throw_due(w, res, i) {
        Some(t) => {
            let w = w.with(i, thrown_spec(w.entities[i], t, drop_depth_spec(w, i)));
            match t.throw.system {
                Some(effect) => w.enqueue(Command::RunEffect { entity: Entity { index: i as usize }, effect }),
                None => w,
            }
        },
        None => w,
    }
}

/// The world after the first `n` slots have been looked at for throws, in ascending
/// order.
pub open spec fn throw_upto(w: WorldView, res: &Resources, n: int) -> WorldView
    decreases n,
{
    if n <= 0 {
        w
    } else {
        throw_entity_spec(throw_upto(w, res, n - 1), res, n - 1)
    }
}

fn first_spawn_layer(world: &World) -> (layer: Option<u32>)
    ensures
        layer == spawn_layer_from(world@, 0),
{
    let mut k: usize = 0;
    while k < world.entities.len()
        invariant
            k <= world@.entities.len(),
            spawn_layer_from(world@, k as int) == spawn_layer_from(world@, 0),
        decreases world@.entities.len() - k,
    {
        let e = world.entities[k];
        if e.alive && e.player_spawner.is_some() {
            if let Some(layer) = e.map_layer {
                return Some(layer.layer_idx);
            }
        }
        k = k + 1;
    }
    None
}

fn drop_depth(world: &World, i: usize) -> (z: Option<i32>)
    requires
        i < world@.entities.len(),
    ensures
        z == drop_depth_spec(world@, i as int),
{
    match world.entities[i].dehydrate_out_of_bounds {
        // Use the item's spawner depth as the drop depth.
        Some(spawner) => match world.at(spawner.0).map_layer {
            Some(layer) => Some(z_depth_for_map_layer(layer.layer_idx)),
            None => None,
        },
        // Use the first player spawner for the depth.
        None => match first_spawn_layer(world) {
            Some(layer_idx) => Some(z_depth_for_map_layer(layer_idx)),
            None => None,
        },
    }
}

fn throw_entity(world: &mut World, res: &Resources, i: usize)
    requires
        i < old(world)@.entities.len(),
    ensures
        final(world)@ == throw_entity_spec(old(world)@, res, i as int),
        final(world)@.entities.len() == old(world)@.entities.len(),
{
    let e = world.entities[i];
    if !e.alive || e.item.is_none() {
        return ;
    }
    let (throw, transform, player) = match (e.item_throw, e.transform, e.marker) {
        (Some(throw), Some(transform), ItemMarker::Dropped(ItemDropped { player })) => (throw, transform, player),
        _ => {
            return ;
        },
    };
    let thrower = world.at(player);
    let (sprite, idx) = match (thrower.sprite, thrower.player_idx) {
        (Some(sprite), Some(idx)) => (sprite, idx),
        _ => {
            return ;
        },
    };
    let input = match res.inputs.seat(idx.0) {
        Some(input) => input,
        None => {
            return ;
        },
    };
    let throw_velocity = throw.velocity_from_control(&input.control);
    let mut slot = e;
    slot.marker = ItemMarker::Unmarked;
    slot.attachment = None;
    if let Some(z) = drop_depth(world, i) {
        let mut placed = transform;
        placed.translation.z = z;
        slot.transform = Some(placed);
    }
    if let Some(body) = e.body {
        let mut thrown = body;
        thrown.velocity = throw_velocity.mirrored(sprite.flip_x);
        thrown.angular_velocity = throw.spin_for(throw_velocity, sprite.flip_x);
        thrown.is_deactivated = false;
        slot.body = Some(thrown);
    }
    world.put(i, slot);
    if let Some(effect) = throw.system {
        world.enqueue(Command::RunEffect { entity: Entity { index: i }, effect });
    }
}

/// The commands that the throws in the first `n` slots record, in ascending order of
/// the slots: one for each thrown item whose settings name a routine.
pub open spec fn throw_effects_upto(w: WorldView, res: &Resources, n: int) -> Seq<Command>
    decreases n,
{
    if n <= 0 {
        Seq::empty()
    } else {
        match throw_due(w, res, n - 1) {
            Some(Throw { throw: ItemThrow { system: Some(effect), .. }, .. }) => throw_effects_upto(
                w,
                res,
                n - 1,
            ).push(Command::RunEffect { entity: Entity { index: (n - 1) as usize }, effect }),
            _ => throw_effects_upto(w, res, n - 1),
        }
    }
}

/// The world after the throw pass has dealt with the first `n` slots, every item judged
/// by the world before the pass.
pub open spec fn throw_pass_upto(w: WorldView, res: &Resources, n: int) -> WorldView {
    WorldView {
        entities: Seq::new(
            w.entities.len(),
            |j: int|
                match throw_due(w, res, j) {
                    Some(t) if j < n => thrown_spec(w.entities[j], t, drop_depth_spec(w, j)),
                    _ => w.entities[j],
                },
        ),
        commands: w.commands + throw_effects_upto(w, res, n),
        ..w
    }
}

/// `b` is `a` but for what a throw changes.
spec fn same_but_thrown(a: EntityData, b: EntityData) -> bool {
    b == (EntityData { marker: b.marker, attachment: b.attachment, transform: b.transform, body: b.body, ..a })
}

proof fn lemma_same_spawn_layer(w: WorldView, v: WorldView, k: int)
    requires
        v.entities.len() == w.entities.len(),
        forall|j: int| 0 <= j < w.entities.len() ==> same_but_thrown(w.entities[j], #[trigger] v.entities[j]),
        0 <= k,
    ensures
        spawn_layer_from(v, k) == spawn_layer_from(w, k),
    decreases w.entities.len() - k,
{
    if k < w.entities.len() {
        assert(same_but_thrown(w.entities[k], v.entities[k]));
        lemma_same_spawn_layer(w, v, k + 1);
    }
}

/// Visiting the slots one after another gives the world in which every item due for a
/// throw has been thrown once, as the world before the pass has it.
pub proof fn lemma_throw_pass(w: WorldView, res: &Resources, n: int)
    requires
        0 <= n <= w.entities.len(),
    ensures
        throw_upto(w, res, n) == throw_pass_upto(w, res, n),
    decreases n,
{
    if n > 0 {
        lemma_throw_pass(w, res, n - 1);
        let v = throw_pass_upto(w, res, n - 1);
        let i = n - 1;
        assert(v.entities[i] == w.entities[i]);
        assert forall|j: int| 0 <= j < w.entities.len() implies same_but_thrown(
            w.entities[j],
            #[trigger] v.entities[j],
        ) by {}
        lemma_same_spawn_layer(w, v, 0);
        match w.entities[i].marker {
            ItemMarker::Dropped(dropped) => {
                let p = dropped.player;
                if (p.index as int) < w.entities.len() {
                    assert(same_but_thrown(w.entities[p.index as int], v.entities[p.index as int]));
                }
            },
            _ => {},
        }
        assert(throw_due(v, res, i) == throw_due(w, res, i));
        match w.entities[i].dehydrate_out_of_bounds {
            Some(spawner) => {
                if (spawner.0.index as int) < w.entities.len() {
                    assert(same_but_thrown(
                        w.entities[spawner.0.index as int],
                        v.entities[spawner.0.index as int],
                    ));
                }
            },
            None => {},
        }
        assert(drop_depth_spec(v, i) == drop_depth_spec(w, i));
        let next = throw_entity_spec(v, res, i);
        assert(next.entities =~= throw_pass_upto(w, res, n).entities);
        assert(next.commands =~= throw_pass_upto(w, res, n).commands);
    }
    assert(throw_upto(w, res, n).entities =~= throw_pass_upto(w, res, n).entities);
    assert(throw_upto(w, res, n).commands =~= throw_pass_upto(w, res, n).commands);
}

/// A throw fires once: the thrown item no longer carries the dropped marker, so
/// looking at its slot again changes nothing.
pub proof fn lemma_throw_fires_once(w: WorldView, res: &Resources, i: int)
    requires
        0 <= i < w.entities.len(),
    ensures
        throw_due(w, res, i) is Some ==> throw_entity_spec(w, res, i).entities[i].marker
            == ItemMarker::Unmarked,
        throw_due(throw_entity_spec(w, res, i), res, i) is None,
        throw_entity_spec(throw_entity_spec(w, res, i), res, i) == throw_entity_spec(w, res, i),
{
}

/// Throws every item that carries a dropped marker and whose thrower can be found, and
/// removes the marker. Every item is judged by the world as it was before the pass.
pub fn throw_dropped_items(world: &mut World, res: &Resources)
    ensures
        final(world)@ == throw_pass_upto(old(world)@, res, old(world)@.entities.len() as int),
        final(world)@ == throw_upto(old(world)@, res, old(world)@.entities.len() as int),
        final(world)@.entities.len() == old(world)@.entities.len(),
{
    proof {
        lemma_throw_pass(old(world)@, res, old(world)@.entities.len() as int);
    }
    let n = world.entities.len();
    let mut i: usize = 0;
    while i < n
        invariant
            i <= n,
            n == old(world)@.entities.len(),
            world@.entities.len() == n,
            world@ == throw_upto(old(world)@, res, i as int),
        decreases n - i,
    {
        throw_entity(world, res, i);
        i = i + 1;
    }
}

} // verus!
