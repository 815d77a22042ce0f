//! Debug outlines for collision boxes and the like.

use vstd::prelude::*;
use rapier2d::pipeline::DebugRenderPipeline;
use crate::components::Transform;
use crate::entity::Entity;
use crate::math::{fx_neg, saturate, Vec2, Vec3};
use crate::schedule::{CoreStage, SessionBuilder, SystemId};
use crate::world::{EntityData, Resources, World, WorldView};

verus! {

/// Resource configuring various debugging settings.
#[derive(Clone, Copy, Debug, Default, PartialEq, Eq)]
pub struct DebugSettings {
    /// Whether or not to render kinematic collider shapes.
    pub show_kinematic_colliders: bool,
    /// Whether or not to render damage region collider shapes.
    pub show_damage_regions: bool,
    /// Whether or not to show the pathfinding lines.
    pub show_pathfinding_lines: bool,
}

/// Colours of debug outlines.
#[derive(Clone, Copy, Debug, PartialEq, Eq, Structural)]
pub enum OutlineColor {
    Red,
    Green,
}

/// A rectangle for the host to draw around a region.
#[derive(Clone, Copy, Debug, PartialEq, Eq)]
pub struct Outline {
    pub color: OutlineColor,
    pub size: Vec2,
    /// Rotation to draw the rectangle with, in thousandths of a radian.
    pub rotation: i32,
    pub thickness: i32,
}

/// Thickness of region outlines.
pub const OUTLINE_THICKNESS: i32 = 1_000;

/// Draw depth of the collider lines, just in front of the map.
pub const COLLIDER_LINES_DEPTH: i32 = -1_000;

/// The debug renderer of the physics engine. The simulation keeps it for the host and
/// never looks inside.
#[verifier::external_type_specification]
#[verifier::external_body]
pub struct ExDebugRenderPipeline(rapier2d::pipeline::DebugRenderPipeline);

/// Resource containing the physics debug line entity.
pub struct RapierDebugContext {
    pub path_entity: Entity,
    pub debug_pipeline: DebugRenderPipeline,
}

/// Calls `DebugRenderPipeline::default()` of the physics engine, which makes a renderer
/// with the engine's default style and mode. Nothing is claimed of the renderer.
#[verifier::external_body]
fn default_pipeline() -> (pipeline: DebugRenderPipeline) {
    DebugRenderPipeline::default()
}

impl Clone for RapierDebugContext {
    /// A context for the same entity with a renderer of its own.
    fn clone(&self) -> (context: Self)
        ensures
            context.path_entity == self.path_entity,
    {
        RapierDebugContext { path_entity: self.path_entity, debug_pipeline: default_pipeline() }
    }
}

impl RapierDebugContext {
    /// The entity that carries the collider lines: nothing but a position at the depth
    /// of the lines.
    pub open spec fn path_entity_spec() -> EntityData {
        EntityData {
            transform: Some(
                Transform { translation: Vec3 { x: 0, y: 0, z: COLLIDER_LINES_DEPTH }, rotation: 0 },
            ),
            ..EntityData::fresh()
        }
    }

    /// Makes the context and, in the world, the entity that carries the collider lines.
    pub fn from_world(world: &mut World) -> (context: Self)
        ensures
            context.path_entity == old(world)@.next_entity(),
            final(world)@ == old(world)@.spawn(Self::path_entity_spec()),
    {
        let mut data = EntityData::new();
        data.transform = Some(Transform::from_translation(Vec3 { x: 0, y: 0, z: COLLIDER_LINES_DEPTH }));
        let path_entity = world.spawn(data);
        RapierDebugContext { path_entity, debug_pipeline: default_pipeline() }
    }
}

/// Install this module.
pub fn plugin(session: &mut SessionBuilder)
    ensures
        final(session).stages@ == old(session).stages@.add(
            CoreStage::Last,
            SystemId::DebugRenderColliders,
        ).add(CoreStage::Last, SystemId::DebugRenderDamageRegions).add(
            CoreStage::Last,
            SystemId::DebugRenderEmoteRegions,
        ),
        final(session).schemas == old(session).schemas,
{
    session.stages.add_system_to_stage(CoreStage::Last, SystemId::DebugRenderColliders);
    session.stages.add_system_to_stage(CoreStage::Last, SystemId::DebugRenderDamageRegions);
    session.stages.add_system_to_stage(CoreStage::Last, SystemId::DebugRenderEmoteRegions);
}

/// The outline of a region of the given size on an entity rotated by `rotation`.
/// Regions do not rotate with their entities, so the outline carries the opposite
/// rotation, which keeps it upright on screen.
pub open spec fn outline_spec(color: OutlineColor, size: Vec2, rotation: i32) -> Outline {
    Outline { color, size, rotation: saturate(-(rotation as int)) as i32, thickness: OUTLINE_THICKNESS }
}

fn outline(color: OutlineColor, size: Vec2, rotation: i32) -> (o: Outline)
    ensures
        o == outline_spec(color, size, rotation),
{
    Outline { color, size, rotation: fx_neg(rotation), thickness: OUTLINE_THICKNESS }
}

/// The world after slot `i` has been looked at for a damage region. With the setting
/// on, a region with a position gets a red outline; with the setting off, a region
/// loses whatever outline it has.
pub open spec fn damage_outline_spec(w: WorldView, res: &Resources, i: int) -> WorldView
    recommends
        0 <= i < w.entities.len(),
{
    let e = w.entities[i];
    match e.damage_region {
        Some(region) if e.alive => if res.debug.show_damage_regions {
            match e.transform {
                Some(transform) => w.with(
                    i,
                    EntityData {
                        outline: Some(outline_spec(OutlineColor::Red, region.size, transform.rotation)),
                        ..e
                    },
                ),
                None => w,
            }
        } else {
            w.with(i, EntityData { outline: None, ..e })
        },
        _ => w,
    }
}

/// The world after the first `n` slots have been looked at for damage regions.
pub open spec fn damage_outlines_upto(w: WorldView, res: &Resources, n: int) -> WorldView
    decreases n,
{
    if n <= 0 {
        w
    } else {
        damage_outline_spec(damage_outlines_upto(w, res, n - 1), res, n - 1)
    }
}

/// The world after the pass over the damage regions has dealt with the first `n` slots:
/// each region among them has its outline brought in line with the setting.
pub open spec fn damage_outline_pass_upto(w: WorldView, res: &Resources, n: int) -> WorldView {
    WorldView {
        entities: Seq::new(
            w.entities.len(),
            |j: int|
                if j < n {
                    damage_outline_spec(w, res, j).entities[j]
                } else {
                    w.entities[j]
                },
        ),
        ..w
    }
}

/// Visiting the slots one after another deals with every damage region once, on its own.
pub proof fn lemma_damage_outline_pass(w: WorldView, res: &Resources, n: int)
    requires
        0 <= n <= w.entities.len(),
    ensures
        damage_outlines_upto(w, res, n) == damage_outline_pass_upto(w, res, n),
    decreases n,
{
    if n > 0 {
        lemma_damage_outline_pass(w, res, n - 1);
    }
}

/// Renders debug lines for damage regions.
pub fn debug_render_damage_regions(world: &mut World, res: &Resources)
    ensures
        final(world)@ == damage_outline_pass_upto(old(world)@, res, old(world)@.entities.len() as int),
        final(world)@ == damage_outlines_upto(old(world)@, res, old(world)@.entities.len() as int),
        final(world)@.entities.len() == old(world)@.entities.len(),
{
    proof {
        lemma_damage_outline_pass(old(world)@, res, old(world)@.entities.len() as int);
    }
    let n = world.entities.len();
    let mut i: usize = 0;
    while i < n
        invariant
            i <= n,
            n == old(world)@.entities.len(),
            world@.entities.len() == n,
            world@ == damage_outlines_upto(old(world)@, res, i as int),
        decreases n - i,
    {
        let e = world.entities[i];
        if e.alive {
            if let Some(region) = e.damage_region {
                let mut slot = e;
                if res.debug.show_damage_regions {
                    if let Some(transform) = e.transform {
                        slot.outline = Some(outline(OutlineColor::Red, region.size, transform.rotation));
                        world.put(i, slot);
                    }
                } else {
                    slot.outline = None;
                    world.put(i, slot);
                }
            }
        }
        i = i + 1;
    }
}

/// The world after slot `i` has been looked at for an emote region. With the damage
/// region setting on, a region with a position gets a green outline; with the setting
/// off, a region loses whatever outline it has.
pub open spec fn emote_outline_spec(w: WorldView, res: &Resources, i: int) -> WorldView
    recommends
        0 <= i < w.entities.len(),
{
    let e = w.entities[i];
    match e.emote_region {
        Some(region) if e.alive => if res.debug.show_damage_regions {
            match e.transform {
                Some(transform) => w.with(
                    i,
                    EntityData {
                        outline: Some(outline_spec(OutlineColor::Green, region.size, transform.rotation)),
                        ..e
                    },
                ),
                None => w,
            }
        } else {
            w.with(i, EntityData { outline: None, ..e })
        },
        _ => w,
    }
}

/// The world after the first `n` slots have been looked at for emote regions.
pub open spec fn emote_outlines_upto(w: WorldView, res: &Resources, n: int) -> WorldView
    decreases n,
{
    if n <= 0 {
        w
    } else {
        emote_outline_spec(emote_outlines_upto(w, res, n - 1), res, n - 1)
    }
}

/// The world after the pass over the emote regions has dealt with the first `n` slots:
/// each region among them has its outline brought in line with the setting.
pub open spec fn emote_outline_pass_upto(w: WorldView, res: &Resources, n: int) -> WorldView {
    WorldView {
        entities: Seq::new(
            w.entities.len(),
            |j: int|
                if j < n {
                    emote_outline_spec(w, res, j).entities[j]
                } else {
                    w.entities[j]
                },
        ),
        ..w
    }
}

/// Visiting the slots one after another deals with every emote region once, on its own.
pub proof fn lemma_emote_outline_pass(w: WorldView, res: &Resources, n: int)
    requires
        0 <= n <= w.entities.len(),
    ensures
        emote_outlines_upto(w, res, n) == emote_outline_pass_upto(w, res, n),
    decreases n,
{
    if n > 0 {
        lemma_emote_outline_pass(w, res, n - 1);
    }
}

/// Renders debug lines for emote regions.
pub fn debug_render_emote_regions(world: &mut World, res: &Resources)
    ensures
        final(world)@ == emote_outline_pass_upto(old(world)@, res, old(world)@.entities.len() as int),
        final(world)@ == emote_outlines_upto(old(world)@, res, old(world)@.entities.len() as int),
        final(world)@.entities.len() == old(world)@.entities.len(),
{
    proof {
        lemma_emote_outline_pass(old(world)@, res, old(world)@.entities.len() as int);
    }
    let n = world.entities.len();
    let mut i: usize = 0;
    while i < n
        invariant
            i <= n,
            n == old(world)@.entities.len(),
            world@.entities.len() == n,
            world@ == emote_outlines_upto(old(world)@, res, i as int),
        decreases n - i,
    {
        let e = world.entities[i];
        if e.alive {
            if let Some(region) = e.emote_region {
                let mut slot = e;
                if res.debug.show_damage_regions {
                    if let Some(transform) = e.transform {
                        slot.outline = Some(outline(OutlineColor::Green, region.size, transform.rotation));
                        world.put(i, slot);
                    }
                } else {
                    slot.outline = None;
                    world.put(i, slot);
                }
            }
        }
        i = i + 1;
    }
}

} // verus!
