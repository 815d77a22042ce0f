//! The pass over the lit kick bombs, bomb by bomb.
//!
//! The pass visits the slots one after another, but no bomb sees what the pass did to
//! another: each takes its step from the world as it was before the pass. This module
//! states the outcome of the pass in those terms and proves that the pass has it.

use vstd::prelude::*;
use crate::audio::AudioEvent;
use crate::commands::Command;
use crate::components::{DehydrateOutOfBounds, KinematicBody};
use crate::entity::Entity;
use crate::item::Inv;
use crate::inventories::PlayerInventories;
use crate::kick_bomb::{LitOutcome, MAX_KICKS};
use crate::lit_bombs::{
    explode_spec, explosion_transform, kicker_spec, lit_bomb_meta, lit_tick_spec, update_lit_entity_spec,
    update_lit_upto, EXPLOSION_TRAUMA,
};
use crate::world::{CollisionWorld, EntityData, Resources, WorldView};

verus! {

/// The outcome of this tick for the slot `i`, if it holds a lit bomb.
pub open spec fn outcome_at(
    w: WorldView,
    res: &Resources,
    held: Seq<Option<Inv>>,
    i: int,
) -> Option<LitOutcome> {
    match lit_bomb_meta(w, res, i) {
        Some(meta) => Some(w.entities[i].lit_kick_bomb.unwrap().step_spec(meta, lit_tick_spec(w, res, held, i))),
        None => None,
    }
}

/// The bomb in slot `i` goes off on this tick: its step sets it off, and it has a
/// position to explode at.
pub open spec fn explodes_at(w: WorldView, res: &Resources, held: Seq<Option<Inv>>, i: int) -> bool {
    match outcome_at(w, res, held, i) {
        Some(out) => out.explode && w.entities[i].transform is Some,
        None => false,
    }
}

/// Some bomb in the first `n` slots goes off on this tick and came from the map slot
/// `j`, which exists.
pub open spec fn freed_upto(
    w: WorldView,
    res: &Resources,
    held: Seq<Option<Inv>>,
    n: int,
    j: int,
) -> bool
    decreases n,
{
    n > 0 && (freed_upto(w, res, held, n - 1, j) || (explodes_at(w, res, held, n - 1) && w.entities[j].alive
        && w.entities[n - 1].dehydrate_out_of_bounds == Some(
        DehydrateOutOfBounds(Entity { index: j as usize }),
    )))
}

/// The slot `j` after the pass has dealt with the first `n` slots: a lit bomb among them
/// has taken its step and, if kicked, its new velocity; a map slot whose bomb went off
/// is no longer marked as hydrated; everything else is as before. A bomb that went off
/// is still there, with the state its step left it in.
pub open spec fn slot_after(w: WorldView, res: &Resources, held: Seq<Option<Inv>>, n: int, j: int) -> EntityData {
    let e = w.entities[j];
    let hydrated = if freed_upto(w, res, held, n, j) {
        None
    } else {
        e.hydrated
    };
    match outcome_at(w, res, held, j) {
        Some(out) if j < n => EntityData {
            lit_kick_bomb: Some(out.bomb),
            body: match (out.deflect, e.body) {
                (Some(velocity), Some(body)) => Some(KinematicBody { velocity, ..body }),
                _ => e.body,
            },
            hydrated,
            ..e
        },
        _ => EntityData { hydrated, ..e },
    }
}

/// The commands that the bombs going off in the first `n` slots record, in ascending
/// order of their slots.
pub open spec fn explosions_upto(
    w: WorldView,
    res: &Resources,
    held: Seq<Option<Inv>>,
    n: int,
) -> Seq<Command>
    decreases n,
{
    if n <= 0 {
        Seq::empty()
    } else if explodes_at(w, res, held, n - 1) {
        explosions_upto(w, res, held, n - 1).push(
            Command::Explode {
                entity: Entity { index: (n - 1) as usize },
                transform: explosion_transform(w.entities[n - 1].transform.unwrap()),
                blast: lit_bomb_meta(w, res, n - 1).unwrap().blast_spec(),
            },
        )
    } else {
        explosions_upto(w, res, held, n - 1)
    }
}

/// The sounds of the bombs going off in the first `n` slots, in ascending order.
pub open spec fn explosion_sounds_upto(
    w: WorldView,
    res: &Resources,
    held: Seq<Option<Inv>>,
    n: int,
) -> Seq<AudioEvent>
    decreases n,
{
    if n <= 0 {
        Seq::empty()
    } else if explodes_at(w, res, held, n - 1) {
        explosion_sounds_upto(w, res, held, n - 1).push(
            AudioEvent::PlaySound {
                sound_source: lit_bomb_meta(w, res, n - 1).unwrap().explosion_sound,
                volume: lit_bomb_meta(w, res, n - 1).unwrap().explosion_volume,
            },
        )
    } else {
        explosion_sounds_upto(w, res, held, n - 1)
    }
}

/// One camera shake for each bomb going off in the first `n` slots.
pub open spec fn explosion_shakes_upto(
    w: WorldView,
    res: &Resources,
    held: Seq<Option<Inv>>,
    n: int,
) -> Seq<i32>
    decreases n,
{
    if n <= 0 {
        Seq::empty()
    } else if explodes_at(w, res, held, n - 1) {
        explosion_shakes_upto(w, res, held, n - 1).push(EXPLOSION_TRAUMA)
    } else {
        explosion_shakes_upto(w, res, held, n - 1)
    }
}

/// The world after the pass has dealt with the first `n` slots, every bomb judged by
/// the world before the pass.
pub open spec fn lit_pass_upto(
    w: WorldView,
    res: &Resources,
    held: Seq<Option<Inv>>,
    n: int,
) -> WorldView {
    WorldView {
        entities: Seq::new(w.entities.len(), |j: int| slot_after(w, res, held, n, j)),
        commands: w.commands + explosions_upto(w, res, held, n),
        audio: w.audio + explosion_sounds_upto(w, res, held, n),
        trauma: w.trauma + explosion_shakes_upto(w, res, held, n),
        effects: w.effects,
    }
}

/// The world after the whole pass.
pub open spec fn lit_pass_spec(w: WorldView, res: &Resources, held: Seq<Option<Inv>>) -> WorldView {
    lit_pass_upto(w, res, held, w.entities.len() as int)
}

/// `b` is `a` but for what the pass may change in a slot it has not reached: the
/// hydration mark.
spec fn same_but_hydration(a: EntityData, b: EntityData) -> bool {
    b == (EntityData { hydrated: b.hydrated, ..a })
}

/// `b` is `a` but for what the pass may change in any slot: the state of a lit bomb,
/// the velocity of its body, and the hydration mark.
spec fn same_but_bomb(a: EntityData, b: EntityData) -> bool {
    b == (EntityData { lit_kick_bomb: b.lit_kick_bomb, body: b.body, hydrated: b.hydrated, ..a })
}

/// `v` differs from `w` only in what the pass may change.
spec fn same_surroundings(w: WorldView, v: WorldView) -> bool {
    &&& v.entities.len() == w.entities.len()
    &&& forall|j: int| 0 <= j < w.entities.len() ==> same_but_bomb(w.entities[j], #[trigger] v.entities[j])
}

proof fn lemma_same_contacts(c: &CollisionWorld, w: WorldView, v: WorldView, actor: Entity, k: int)
    requires
        same_surroundings(w, v),
        0 <= k,
    ensures
        c.contact_from(v, actor, k) == c.contact_from(w, actor, k),
    decreases c.overlaps@.len() - k,
{
    if k < c.overlaps@.len() {
        let other = c.overlaps@[k].other;
        if w.live(other) {
            assert(same_but_bomb(w.entities[other.index as int], v.entities[other.index as int]));
        } else if (other.index as int) < w.entities.len() {
            assert(same_but_bomb(w.entities[other.index as int], v.entities[other.index as int]));
        }
        assert(CollisionWorld::vulnerable_player(v, other) == CollisionWorld::vulnerable_player(w, other));
        lemma_same_contacts(c, w, v, actor, k + 1);
    }
}

proof fn lemma_same_kicker(w: WorldView, v: WorldView, p: Entity, i: int)
    requires
        same_surroundings(w, v),
        0 <= i < w.entities.len(),
        same_but_hydration(w.entities[i], v.entities[i]),
    ensures
        kicker_spec(v, p, i) == kicker_spec(w, p, i),
{
    if (p.index as int) < w.entities.len() {
        assert(same_but_bomb(w.entities[p.index as int], v.entities[p.index as int]));
        if p.index == i {
            assert(v.entities[i].sprite == w.entities[i].sprite);
        }
    }
}

/// A bomb the pass has not reached meets the same fate in the world the pass has made
/// so far as in the world before the pass.
proof fn lemma_same_outcome(w: WorldView, v: WorldView, res: &Resources, held: Seq<Option<Inv>>, i: int)
    requires
        same_surroundings(w, v),
        0 <= i < w.entities.len(),
        same_but_hydration(w.entities[i], v.entities[i]),
    ensures
        lit_bomb_meta(v, res, i) == lit_bomb_meta(w, res, i),
        outcome_at(v, res, held, i) == outcome_at(w, res, held, i),
{
    let entity = Entity { index: i as usize };
    lemma_same_contacts(&res.collisions, w, v, entity, 0);
    match res.collisions.first_player_contact_spec(w, entity) {
        Some(p) => {
            lemma_same_kicker(w, v, p, i);
        },
        None => {},
    }
}

/// What is true of the world while the pass is under way.
spec fn pass_so_far(
    w: WorldView,
    v: WorldView,
    res: &Resources,
    held: Seq<Option<Inv>>,
    n: int,
) -> bool {
    &&& same_surroundings(w, v)
    &&& forall|j: int| 0 <= j < w.entities.len() ==> #[trigger] v.entities[j] == slot_after(w, res, held, n, j)
    &&& v.commands == w.commands + explosions_upto(w, res, held, n)
    &&& v.audio == w.audio + explosion_sounds_upto(w, res, held, n)
    &&& v.trauma == w.trauma + explosion_shakes_upto(w, res, held, n)
    &&& v.effects == w.effects
}

proof fn lemma_pass_step(w: WorldView, v: WorldView, res: &Resources, held: Seq<Option<Inv>>, n: int)
    requires
        0 <= n < w.entities.len() <= usize::MAX,
        pass_so_far(w, v, res, held, n),
    ensures
        pass_so_far(w, update_lit_entity_spec(v, res, held, n), res, held, n + 1),
{
    let next = update_lit_entity_spec(v, res, held, n);
    assert(v.entities[n] == slot_after(w, res, held, n, n));
    assert(same_but_hydration(w.entities[n], v.entities[n]));
    lemma_same_outcome(w, v, res, held, n);
    match lit_bomb_meta(w, res, n) {
        None => {
            assert(next == v);
            assert forall|j: int| 0 <= j < w.entities.len() implies #[trigger] next.entities[j] == slot_after(
                w,
                res,
                held,
                n + 1,
                j,
            ) by {
                assert(v.entities[j] == slot_after(w, res, held, n, j));
            }
        },
        Some(meta) => {
            let out = outcome_at(w, res, held, n).unwrap();
            let e = v.entities[n];
            let body = match (out.deflect, e.body) {
                (Some(velocity), Some(body)) => Some(KinematicBody { velocity, ..body }),
                _ => e.body,
            };
            let stepped = v.with(n, EntityData { lit_kick_bomb: Some(out.bomb), body, ..e });
            assert(stepped.entities.len() == w.entities.len());
            if out.explode && e.transform is Some {
                assert(next == explode_spec(stepped, meta, n));
                assert(next.entities.len() == w.entities.len());
                assert forall|j: int| 0 <= j < w.entities.len() implies #[trigger] next.entities[j]
                    == slot_after(w, res, held, n + 1, j) && same_but_bomb(w.entities[j], next.entities[j]) by {
                    assert(v.entities[j] == slot_after(w, res, held, n, j));
                    assert(same_but_bomb(w.entities[j], v.entities[j]));
                    let hit = w.entities[j].alive && w.entities[n].dehydrate_out_of_bounds == Some(
                        DehydrateOutOfBounds(Entity { index: j as usize }),
                    );
                    assert(freed_upto(w, res, held, n + 1, j) == (freed_upto(w, res, held, n, j) || hit));
                    match stepped.entities[n].dehydrate_out_of_bounds {
                        Some(spawner) => {
                            assert(hit == (stepped.live(spawner.0) && spawner.0.index == j));
                        },
                        None => {},
                    }
                }
            } else {
                assert(next == stepped);
                assert forall|j: int| 0 <= j < w.entities.len() implies #[trigger] next.entities[j]
                    == slot_after(w, res, held, n + 1, j) && same_but_bomb(w.entities[j], next.entities[j]) by {
                    assert(v.entities[j] == slot_after(w, res, held, n, j));
                    assert(same_but_bomb(w.entities[j], v.entities[j]));
                    assert(freed_upto(w, res, held, n + 1, j) == freed_upto(w, res, held, n, j));
                }
            }
        },
    }
    assert(next.commands =~= w.commands + explosions_upto(w, res, held, n + 1));
    assert(next.audio =~= w.audio + explosion_sounds_upto(w, res, held, n + 1));
    assert(next.trauma =~= w.trauma + explosion_shakes_upto(w, res, held, n + 1));
}

proof fn lemma_pass_so_far(w: WorldView, res: &Resources, held: Seq<Option<Inv>>, n: int)
    requires
        0 <= n <= w.entities.len() <= usize::MAX,
    ensures
        pass_so_far(w, update_lit_upto(w, res, held, n), res, held, n),
    decreases n,
{
    if n == 0 {
        assert(w.commands =~= w.commands + explosions_upto(w, res, held, 0));
        assert(w.audio =~= w.audio + explosion_sounds_upto(w, res, held, 0));
        assert(w.trauma =~= w.trauma + explosion_shakes_upto(w, res, held, 0));
    } else {
        lemma_pass_so_far(w, res, held, n - 1);
        lemma_pass_step(w, update_lit_upto(w, res, held, n - 1), res, held, n - 1);
    }
}

/// The pass treats every bomb on its own. Visiting the slots one after another gives
/// the world in which each lit bomb has taken the step that the world before the pass
/// holds for it, each map slot whose bomb went off has lost its hydration mark, and
/// the explosions are recorded, heard and felt in ascending order of their slots.
pub proof fn lemma_lit_pass_independent(w: WorldView, res: &Resources, held: Seq<Option<Inv>>)
    requires
        w.entities.len() <= usize::MAX,
    ensures
        update_lit_upto(w, res, held, w.entities.len() as int) == lit_pass_spec(w, res, held),
{
    let n = w.entities.len() as int;
    lemma_pass_so_far(w, res, held, n);
    let v = update_lit_upto(w, res, held, n);
    assert(v.entities =~= lit_pass_spec(w, res, held).entities);
    assert(v =~= lit_pass_spec(w, res, held));
}

/// Every bomb that goes off has its explosion recorded: the command that replaces the
/// bomb by its blast, at the bomb's position, is among those of the pass.
pub proof fn lemma_explosion_recorded(
    w: WorldView,
    res: &Resources,
    held: Seq<Option<Inv>>,
    n: int,
    i: int,
)
    requires
        0 <= i < n,
        explodes_at(w, res, held, i),
    ensures
        explosions_upto(w, res, held, n).contains(
            Command::Explode {
                entity: Entity { index: i as usize },
                transform: explosion_transform(w.entities[i].transform.unwrap()),
                blast: lit_bomb_meta(w, res, i).unwrap().blast_spec(),
            },
        ),
    decreases n,
{
    let command = Command::Explode {
        entity: Entity { index: i as usize },
        transform: explosion_transform(w.entities[i].transform.unwrap()),
        blast: lit_bomb_meta(w, res, i).unwrap().blast_spec(),
    };
    let all = explosions_upto(w, res, held, n);
    if i == n - 1 {
        assert(all.last() == command);
    } else {
        lemma_explosion_recorded(w, res, held, n - 1, i);
        let before = explosions_upto(w, res, held, n - 1);
        let k = choose|k: int| 0 <= k < before.len() && before[k] == command;
        assert(all[k] == command);
    }
}

/// A lit bomb whose fuse runs out on this tick goes off on this tick, whatever else is
/// true of the world, and neither its kick count nor the velocity of its body changes.
pub proof fn lemma_fuse_explodes_in_pass(w: WorldView, res: &Resources, held: Seq<Option<Inv>>, n: int, i: int)
    requires
        0 <= i < n,
        i < w.entities.len(),
        lit_bomb_meta(w, res, i) is Some,
        w.entities[i].transform is Some,
        w.entities[i].lit_kick_bomb.unwrap().fuse_time.ticked(res.time.delta).finished,
    ensures
        explodes_at(w, res, held, i),
        slot_after(w, res, held, n, i).lit_kick_bomb.unwrap().kicks
            == w.entities[i].lit_kick_bomb.unwrap().kicks,
        slot_after(w, res, held, n, i).body == w.entities[i].body,
{
}

/// The fourth contact sets a bomb off. Take a kickable lit bomb with a position that
/// nobody holds, whose fuse does not run out on this tick, which contact alone does
/// not set off, and which has counted three kicks and was out of contact. When a
/// player who can be hurt touches it, the bomb goes off on this tick; the bomb that is
/// left until the command destroys it has counted four kicks, and the velocity of its
/// body is as it was.
pub proof fn lemma_fourth_contact_in_pass(w: WorldView, res: &Resources, held: Seq<Option<Inv>>, n: int, i: int)
    requires
        0 <= i < n,
        i < w.entities.len(),
        lit_bomb_meta(w, res, i) is Some,
        lit_bomb_meta(w, res, i).unwrap().kickable,
        !lit_bomb_meta(w, res, i).unwrap().explode_on_contact,
        w.entities[i].transform is Some,
        res.collisions.first_player_contact_spec(w, Entity { index: i as usize }) is Some,
        PlayerInventories::find_item_spec(held, Entity { index: i as usize }) is None,
        !w.entities[i].lit_kick_bomb.unwrap().fuse_time.ticked(res.time.delta).finished,
        w.entities[i].lit_kick_bomb.unwrap().kicks == MAX_KICKS,
        !w.entities[i].lit_kick_bomb.unwrap().kicking,
    ensures
        explodes_at(w, res, held, i),
        slot_after(w, res, held, n, i).lit_kick_bomb.unwrap().kicks == MAX_KICKS + 1,
        slot_after(w, res, held, n, i).lit_kick_bomb.unwrap().kicking,
        slot_after(w, res, held, n, i).body == w.entities[i].body,
{
}

/// A contact that lasts is one kick. Take a kickable lit bomb that nobody holds, whose
/// fuse does not run out on this tick, which contact alone does not set off, and which
/// was in contact on the tick before. When a player who can be hurt still touches it,
/// the kick count stays as it is and the bomb stays in contact, whether or not the bomb
/// goes off on this tick.
pub proof fn lemma_continued_contact_in_pass(w: WorldView, res: &Resources, held: Seq<Option<Inv>>, n: int, i: int)
    requires
        0 <= i < n,
        i < w.entities.len(),
        lit_bomb_meta(w, res, i) is Some,
        lit_bomb_meta(w, res, i).unwrap().kickable,
        !lit_bomb_meta(w, res, i).unwrap().explode_on_contact,
        res.collisions.first_player_contact_spec(w, Entity { index: i as usize }) is Some,
        PlayerInventories::find_item_spec(held, Entity { index: i as usize }) is None,
        !w.entities[i].lit_kick_bomb.unwrap().fuse_time.ticked(res.time.delta).finished,
        w.entities[i].lit_kick_bomb.unwrap().kicking,
    ensures
        slot_after(w, res, held, n, i).lit_kick_bomb.unwrap().kicks
            == w.entities[i].lit_kick_bomb.unwrap().kicks,
        slot_after(w, res, held, n, i).lit_kick_bomb.unwrap().kicking,
        w.entities[i].lit_kick_bomb.unwrap().kicks <= MAX_KICKS && !w.entities[i].lit_kick_bomb.unwrap().arm_delay.ticked(
            res.time.delta,
        ).finished ==> !explodes_at(w, res, held, i),
{
}

} // verus!
