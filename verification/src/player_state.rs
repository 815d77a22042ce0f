//! The behaviour state of a player.
//!
//! Every state has a module of its own, named by the state's identifier. The module
//! decides when a player leaves the state and what a player does while in it. On each
//! tick a player is served by the one module whose identifier its state carries.

use vstd::prelude::*;
use crate::schedule::{CoreStage, SessionBuilder, SystemId};
use crate::world::{EntityData, World, WorldView};

verus! {

/// The behaviour states a player can be in.
#[derive(Clone, Copy, Debug, PartialEq, Eq, Hash, Structural)]
pub enum PlayerStateId {
    Idle,
    Walk,
    Crouch,
    Midair,
    Ragdoll,
}

/// The state a player is in and for how many ticks.
#[derive(Clone, Copy, Debug, PartialEq, Eq)]
pub struct PlayerState {
    pub current: PlayerStateId,
    /// Ticks spent in the current state; zero on the tick the state is entered.
    pub age: u64,
}

/// The identifiers of the state modules, in the order the modules are installed.
pub open spec fn registered_states() -> Seq<PlayerStateId> {
    seq![
        PlayerStateId::Idle,
        PlayerStateId::Walk,
        PlayerStateId::Crouch,
        PlayerStateId::Midair,
        PlayerStateId::Ragdoll,
    ]
}

impl PlayerState {
    /// The module named `module` serves a player in this state.
    pub open spec fn served_by(self, module: PlayerStateId) -> bool {
        self.current == module
    }

    /// The state on entering `next`.
    pub open spec fn entered(next: PlayerStateId) -> PlayerState {
        PlayerState { current: next, age: 0 }
    }

    /// The state one tick later, if the player stays in it.
    pub open spec fn aged(self) -> PlayerState {
        PlayerState {
            age: if self.age == u64::MAX {
                self.age
            } else {
                (self.age + 1) as u64
            },
            ..self
        }
    }

    /// A player who has just entered `current`.
    pub fn new(current: PlayerStateId) -> (state: PlayerState)
        ensures
            state == Self::entered(current),
    {
        PlayerState { current, age: 0 }
    }

    /// Whether the module named `module` serves a player in this state.
    pub fn is(&self, module: PlayerStateId) -> (b: bool)
        ensures
            b == self.served_by(module),
    {
        self.current == module
    }

    /// Enters `next`: the state changes and its age starts over.
    pub fn transition_to(&mut self, next: PlayerStateId)
        ensures
            *final(self) == Self::entered(next),
    {
        self.current = next;
        self.age = 0;
    }

    /// Counts one more tick in the current state.
    pub fn tick(&mut self)
        ensures
            *final(self) == old(self).aged(),
    {
        if self.age < u64::MAX {
            self.age = self.age + 1;
        }
    }
}

/// Every player state carries the identifier of exactly one installed module: there is
/// one module that serves a player in that state, and no second one.
pub proof fn lemma_exactly_one_module(state: PlayerState)
    ensures
        exists|k: int|
            0 <= k < registered_states().len() && state.served_by(#[trigger] registered_states()[k])
                && forall|j: int|
                0 <= j < registered_states().len() && state.served_by(#[trigger] registered_states()[j])
                    ==> j == k,
{
    let k: int = match state.current {
        PlayerStateId::Idle => 0,
        PlayerStateId::Walk => 1,
        PlayerStateId::Crouch => 2,
        PlayerStateId::Midair => 3,
        PlayerStateId::Ragdoll => 4,
    };
    assert(state.served_by(registered_states()[k]));
    assert forall|j: int|
        0 <= j < registered_states().len() && state.served_by(#[trigger] registered_states()[j]) implies j
        == k by {
        assert(registered_states()[0] == PlayerStateId::Idle);
        assert(registered_states()[1] == PlayerStateId::Walk);
        assert(registered_states()[2] == PlayerStateId::Crouch);
        assert(registered_states()[3] == PlayerStateId::Midair);
        assert(registered_states()[4] == PlayerStateId::Ragdoll);
    }
}

/// The world after the player in slot `i`, if there is one, has aged by a tick.
pub open spec fn age_entity_spec(w: WorldView, i: int) -> WorldView
    recommends
        0 <= i < w.entities.len(),
{
    let e = w.entities[i];
    match e.player_state {
        Some(state) if e.alive => w.with(i, EntityData { player_state: Some(state.aged()), ..e }),
        _ => w,
    }
}

/// The world after the players in the first `n` slots have aged by a tick.
pub open spec fn age_upto(w: WorldView, n: int) -> WorldView
    decreases n,
{
    if n <= 0 {
        w
    } else {
        age_entity_spec(age_upto(w, n - 1), n - 1)
    }
}

/// The world after the ageing pass has dealt with the first `n` slots: each player among
/// them has counted one more tick in its state.
pub open spec fn age_pass_upto(w: WorldView, n: int) -> WorldView {
    WorldView {
        entities: Seq::new(
            w.entities.len(),
            |j: int|
                if j < n {
                    age_entity_spec(w, j).entities[j]
                } else {
                    w.entities[j]
                },
        ),
        ..w
    }
}

/// Visiting the slots one after another ages every player once.
pub proof fn lemma_age_pass(w: WorldView, n: int)
    requires
        0 <= n <= w.entities.len(),
    ensures
        age_upto(w, n) == age_pass_upto(w, n),
    decreases n,
{
    if n > 0 {
        lemma_age_pass(w, n - 1);
        let v = age_pass_upto(w, n - 1);
        assert(v.entities[n - 1] == w.entities[n - 1]);
        assert(age_entity_spec(v, n - 1).entities =~= age_pass_upto(w, n).entities);
    }
    assert(age_upto(w, n).entities =~= age_pass_upto(w, n).entities);
}

/// Counts one more tick in the state of every player. It runs at the end of a tick, so
/// that a state entered during the tick is seen with age zero by that tick's update and
/// with age one by the next.
pub fn update_player_state_age(world: &mut World)
    ensures
        final(world)@ == age_pass_upto(old(world)@, old(world)@.entities.len() as int),
        final(world)@ == age_upto(old(world)@, old(world)@.entities.len() as int),
        final(world)@.entities.len() == old(world)@.entities.len(),
{
    proof {
        lemma_age_pass(old(world)@, old(world)@.entities.len() as int);
    }
    let n = world.entities.len();
    let mut i: usize = 0;
    while i < n
        invariant
            i <= n,
            n == old(world)@.entities.len(),
            world@.entities.len() == n,
            world@ == age_upto(old(world)@, i as int),
        decreases n - i,
    {
        let e = world.entities[i];
        if e.alive {
            if let Some(state) = e.player_state {
                let mut slot = e;
                let mut aged = state;
                aged.tick();
                slot.player_state = Some(aged);
                world.put(i, slot);
            }
        }
        i = i + 1;
    }
}

impl PlayerState {
    /// Registers a system that decides changes of state. Such systems run before the
    /// update.
    pub fn add_player_state_transition_system(session: &mut SessionBuilder, system: SystemId)
        ensures
            final(session).stages@ == old(session).stages@.add(CoreStage::PreUpdate, system),
            final(session).schemas == old(session).schemas,
    {
        session.stages.add_system_to_stage(CoreStage::PreUpdate, system);
    }

    /// Registers a system that acts for the players in a state. Such systems run in
    /// the update, after every change of state has been decided.
    pub fn add_player_state_update_system(session: &mut SessionBuilder, system: SystemId)
        ensures
            final(session).stages@ == old(session).stages@.add(CoreStage::Update, system),
            final(session).schemas == old(session).schemas,
    {
        session.stages.add_system_to_stage(CoreStage::Update, system);
    }
}

/// Installs the ageing of player states, which runs in the last stage.
pub fn install(session: &mut SessionBuilder)
    ensures
        final(session).stages@ == old(session).stages@.add(CoreStage::Last, SystemId::PlayerStateAge),
        final(session).schemas == old(session).schemas,
{
    session.stages.add_system_to_stage(CoreStage::Last, SystemId::PlayerStateAge);
}

} // verus!
