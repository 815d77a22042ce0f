//! What holds of a lit kick bomb over a run of ticks: when the fuse sets it off, and
//! how many kicks it takes.

use vstd::prelude::*;
use crate::kick_bomb::{KickBombMeta, LitKickBomb, LitOutcome, LitTick, MAX_KICKS};
use crate::timer::Timer;

verus! {

impl LitKickBomb {
    /// The bomb's history over a run of ticks: each tick steps the bomb, and an explosion
    /// ends the history, so the outcome of the tick that set the bomb off is the outcome
    /// of every longer run.
    pub open spec fn run_spec(self, meta: KickBombMeta, ticks: Seq<LitTick>) -> LitOutcome
        decreases ticks.len(),
    {
        if ticks.len() == 0 {
            LitOutcome { bomb: self, explode: false, deflect: None }
        } else {
            let before = self.run_spec(meta, ticks.drop_last());
            if before.explode {
                before
            } else {
                before.bomb.step_spec(meta, ticks.last())
            }
        }
    }
}

/// Time that passes over a run of ticks.
pub open spec fn elapsed_time(ticks: Seq<LitTick>) -> int
    decreases ticks.len(),
{
    if ticks.len() == 0 {
        0
    } else {
        elapsed_time(ticks.drop_last()) + ticks.last().delta
    }
}

/// Number of separate contacts in a run of ticks: ticks in contact that follow a tick
/// without contact, or open the run.
pub open spec fn contact_edges(ticks: Seq<LitTick>) -> int
    decreases ticks.len(),
{
    if ticks.len() == 0 {
        0
    } else {
        let earlier = ticks.drop_last();
        let continued = earlier.len() > 0 && earlier.last().touched;
        contact_edges(earlier) + if ticks.last().touched && !continued {
            1int
        } else {
            0int
        }
    }
}

/// Nobody holds the bomb during any tick of the run.
pub open spec fn never_held(ticks: Seq<LitTick>) -> bool {
    forall|i: int| 0 <= i < ticks.len() ==> !(#[trigger] ticks[i]).held
}

/// Nobody touches the bomb during any tick of the run.
pub open spec fn never_touched(ticks: Seq<LitTick>) -> bool {
    forall|i: int| 0 <= i < ticks.len() ==> !(#[trigger] ticks[i]).touched
}

/// A lit bomb goes off on the tick that completes its fuse, whoever touches, holds or
/// kicks it on that tick. The decision leaves the kick count and the contact flag as
/// they were, and knocks the bomb nowhere.
pub proof fn lemma_fuse_sets_off(bomb: LitKickBomb, meta: KickBombMeta, tick: LitTick)
    requires
        bomb.fuse_time.ticked(tick.delta).finished,
    ensures
        bomb.step_spec(meta, tick).explode,
        bomb.step_spec(meta, tick).deflect is None,
        bomb.step_spec(meta, tick).bomb.kicks == bomb.kicks,
        bomb.step_spec(meta, tick).bomb.kicking == bomb.kicking,
{
}

/// The kick count never goes down, and a tick adds at most one kick.
pub proof fn lemma_kicks_never_decrease(bomb: LitKickBomb, meta: KickBombMeta, tick: LitTick)
    ensures
        bomb.kicks <= bomb.step_spec(meta, tick).bomb.kicks <= bomb.kicks + 1,
{
}

/// A bomb that goes off is knocked nowhere: the tick that sets it off leaves the
/// velocity of its body alone.
pub proof fn lemma_no_kick_on_explosion(bomb: LitKickBomb, meta: KickBombMeta, tick: LitTick)
    requires
        bomb.step_spec(meta, tick).explode,
    ensures
        bomb.step_spec(meta, tick).deflect is None,
{
}

/// One tick in contact of a kickable bomb that nobody holds, whose fuse is not done and
/// which contact alone does not set off. The contact is counted whether or not it is
/// known how the player stands to the bomb: a new contact adds one kick, a continued
/// contact adds none, the contact flag is set, and past the kick limit the bomb goes
/// off.
pub proof fn lemma_contact_is_counted(bomb: LitKickBomb, meta: KickBombMeta, tick: LitTick)
    requires
        meta.kickable,
        !tick.held,
        tick.touched,
        !bomb.fuse_time.ticked(tick.delta).finished,
        !(meta.explode_on_contact && bomb.arm_delay.ticked(tick.delta).finished),
        bomb.kicks < u32::MAX,
    ensures
        ({
            let out = bomb.step_spec(meta, tick);
            &&& out.bomb.kicking
            &&& out.bomb.kicks == if bomb.kicking { bomb.kicks as int } else { bomb.kicks + 1 }
            &&& out.bomb.kicks > MAX_KICKS ==> out.explode
            &&& out.bomb.kicks <= MAX_KICKS && !bomb.arm_delay.ticked(tick.delta).finished ==> !out.explode
        }),
{
}

/// Time only moves forward.
pub proof fn lemma_elapsed_time_grows(ticks: Seq<LitTick>)
    ensures
        0 <= elapsed_time(ticks),
        ticks.len() > 0 ==> elapsed_time(ticks.drop_last()) <= elapsed_time(ticks),
    decreases ticks.len(),
{
    if ticks.len() > 0 {
        lemma_elapsed_time_grows(ticks.drop_last());
    }
}

/// A bomb lit with a fuse of `fuse_time` has gone off by the end of any run of ticks
/// whose lengths add up to `fuse_time` or more, regardless of contact. As long as it
/// has not gone off, its fuse timer holds exactly the time that has passed.
pub proof fn lemma_explodes_when_fuse_runs_out(
    arm_delay: u64,
    fuse_time: u64,
    meta: KickBombMeta,
    ticks: Seq<LitTick>,
)
    ensures
        ({
            let out = LitKickBomb::lit_spec(arm_delay, fuse_time).run_spec(meta, ticks);
            &&& ticks.len() > 0 && elapsed_time(ticks) >= fuse_time ==> out.explode
            &&& !out.explode ==> out.bomb.fuse_time == (Timer {
                duration: fuse_time,
                elapsed: elapsed_time(ticks) as u64,
                finished: false,
            })
            &&& !out.explode && ticks.len() > 0 ==> elapsed_time(ticks) < fuse_time
        }),
    decreases ticks.len(),
{
    lemma_elapsed_time_grows(ticks);
    if ticks.len() > 0 {
        lemma_explodes_when_fuse_runs_out(arm_delay, fuse_time, meta, ticks.drop_last());
        lemma_elapsed_time_grows(ticks.drop_last());
    }
}

/// A lit bomb that nobody touches goes off on the first tick on which the time passed
/// reaches the fuse duration, and not before.
pub proof fn lemma_untouched_bomb_waits_for_fuse(
    arm_delay: u64,
    fuse_time: u64,
    meta: KickBombMeta,
    ticks: Seq<LitTick>,
)
    requires
        never_touched(ticks),
    ensures
        LitKickBomb::lit_spec(arm_delay, fuse_time).run_spec(meta, ticks).explode <==> ticks.len() > 0
            && elapsed_time(ticks) >= fuse_time,
    decreases ticks.len(),
{
    lemma_explodes_when_fuse_runs_out(arm_delay, fuse_time, meta, ticks);
    if ticks.len() > 0 {
        let earlier = ticks.drop_last();
        assert(never_touched(earlier)) by {
            assert forall|i: int| 0 <= i < earlier.len() implies !(#[trigger] earlier[i]).touched by {
                assert(earlier[i] == ticks[i]);
            }
        }
        lemma_untouched_bomb_waits_for_fuse(arm_delay, fuse_time, meta, earlier);
        lemma_explodes_when_fuse_runs_out(arm_delay, fuse_time, meta, earlier);
        lemma_elapsed_time_grows(ticks);
        lemma_elapsed_time_grows(earlier);
    }
}

/// One tick of a kickable bomb in contact, with neither timer done and nobody holding
/// it: a new contact adds one kick, a continued contact adds none, and the bomb goes
/// off exactly when the count has passed the limit.
pub proof fn lemma_kick_counts_once_per_contact(
    bomb: LitKickBomb,
    meta: KickBombMeta,
    tick: LitTick,
)
    requires
        meta.kickable,
        !tick.held,
        tick.touched,
        !bomb.fuse_time.ticked(tick.delta).finished,
        !bomb.arm_delay.ticked(tick.delta).finished,
        bomb.kicks < u32::MAX,
    ensures
        ({
            let out = bomb.step_spec(meta, tick);
            &&& out.bomb.kicking
            &&& out.bomb.kicks == if bomb.kicking { bomb.kicks as int } else { bomb.kicks + 1 }
            &&& out.explode <==> out.bomb.kicks > MAX_KICKS
        }),
{
}

/// The kick limit over a whole run. Take a kickable bomb lit just now, and a run of
/// ticks during which nobody holds it and neither the fuse nor the arming delay runs
/// out. Then the bomb has gone off by the end of the run exactly when the run holds
/// more than three separate contacts: three kicks leave it whole, and the fourth
/// contact sets it off. Until then it has counted every separate contact once.
pub proof fn lemma_fourth_contact_sets_off(
    arm_delay: u64,
    fuse_time: u64,
    meta: KickBombMeta,
    ticks: Seq<LitTick>,
)
    requires
        meta.kickable,
        never_held(ticks),
        elapsed_time(ticks) < fuse_time,
        elapsed_time(ticks) < arm_delay,
    ensures
        ({
            let out = LitKickBomb::lit_spec(arm_delay, fuse_time).run_spec(meta, ticks);
            &&& out.explode <==> contact_edges(ticks) > MAX_KICKS
            &&& !out.explode ==> out.bomb.kicks == contact_edges(ticks)
            &&& !out.explode ==> out.bomb.kicking == (ticks.len() > 0 && ticks.last().touched)
            &&& !out.explode ==> out.bomb.arm_delay == (Timer {
                duration: arm_delay,
                elapsed: elapsed_time(ticks) as u64,
                finished: false,
            })
            &&& !out.explode ==> out.bomb.fuse_time == (Timer {
                duration: fuse_time,
                elapsed: elapsed_time(ticks) as u64,
                finished: false,
            })
            &&& 0 <= contact_edges(ticks) <= ticks.len()
        }),
    decreases ticks.len(),
{
    lemma_elapsed_time_grows(ticks);
    if ticks.len() > 0 {
        let earlier = ticks.drop_last();
        assert(never_held(earlier)) by {
            assert forall|i: int| 0 <= i < earlier.len() implies !(#[trigger] earlier[i]).held by {
                assert(earlier[i] == ticks[i]);
            }
        }
        lemma_elapsed_time_grows(earlier);
        lemma_fourth_contact_sets_off(arm_delay, fuse_time, meta, earlier);
        assert(!ticks[ticks.len() - 1].held);
    }
}

} // verus!
