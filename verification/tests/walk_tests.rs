use jumpy_core::assets::{AnimName, Asset, AssetServer, AtlasHandle, PlayerMeta, PlayerSounds, PlayerStats, SoundHandle, ANIM_WALK};
use jumpy_core::audio::AudioEvent;
use jumpy_core::components::{AnimationBankSprite, AtlasSprite, KinematicBody, PlayerIdx};
use jumpy_core::debug::DebugSettings;
use jumpy_core::input::{MatchInputs, PlayerControl, PlayerInput};
use jumpy_core::math::Vec2;
use jumpy_core::player_state::{update_player_state_age, PlayerState, PlayerStateId};
use jumpy_core::schedule::{SessionBuilder, SystemId};
use jumpy_core::tick::run_tick;
use jumpy_core::walk::{handle_player_state, id, next_state, player_state_transition, walk_velocity, CROUCH_THRESHOLD};
use jumpy_core::world::{CollisionWorld, EntityData, Resources, Time, World};

fn meta() -> PlayerMeta {
    PlayerMeta {
        sounds: PlayerSounds { jump: SoundHandle { id: 4 }, jump_volume: 150 },
        stats: PlayerStats { jump_speed: 9_000, accel_walk_speed: 500, walk_speed: 3_000 },
    }
}

fn pad(x: i32, y: i32, jump: bool, ragdoll: bool) -> PlayerControl {
    PlayerControl { move_direction: Vec2 { x, y }, jump_just_pressed: jump, ragdoll_just_pressed: ragdoll }
}

fn res(controls: Vec<PlayerControl>) -> Resources {
    Resources {
        assets: AssetServer { assets: vec![Asset::Other, Asset::Player(meta())] },
        inputs: MatchInputs {
            players: controls.into_iter().map(|control| PlayerInput { selected_player: 1, control }).collect(),
        },
        collisions: CollisionWorld { overlaps: Vec::new() },
        time: Time { delta: 16_000_000 },
        debug: DebugSettings::default(),
        gravity: 0,
    }
}

fn grounded() -> KinematicBody {
    let mut b = KinematicBody::default();
    b.is_on_ground = true;
    b
}

fn walker(seat: u32, state: PlayerStateId, age: u64) -> EntityData {
    let mut e = EntityData::new();
    e.player_idx = Some(PlayerIdx(seat));
    e.player_state = Some(PlayerState { current: state, age });
    e.body = Some(grounded());
    e.sprite = Some(AtlasSprite { atlas: AtlasHandle { id: 1 }, flip_x: false });
    e.animation_bank = Some(AnimationBankSprite { current: AnimName { id: 77 } });
    e
}

#[test]
fn walk_id_is_walk() {
    assert_eq!(id(), PlayerStateId::Walk);
    assert_eq!(CROUCH_THRESHOLD, -500);
}

#[test]
fn walk_guards_in_priority_order() {
    let air = KinematicBody::default();
    // ragdoll beats everything
    assert_eq!(next_state(&pad(0, -1000, false, true), &air), Some(PlayerStateId::Ragdoll));
    // then leaving the ground
    assert_eq!(next_state(&pad(0, -1000, false, false), &air), Some(PlayerStateId::Midair));
    // then crouching
    assert_eq!(next_state(&pad(0, -501, false, false), &grounded()), Some(PlayerStateId::Crouch));
    // then standing still
    assert_eq!(next_state(&pad(0, -500, false, false), &grounded()), Some(PlayerStateId::Idle));
    assert_eq!(next_state(&pad(0, 1000, true, false), &grounded()), Some(PlayerStateId::Idle));
    // otherwise keep walking
    assert_eq!(next_state(&pad(1, -500, false, false), &grounded()), None);
    assert_eq!(next_state(&pad(-1000, 0, true, false), &grounded()), None);
}

#[test]
fn transition_touches_walkers_only_and_zeroes_age() {
    let mut world = World::new();
    let a = world.spawn(walker(0, PlayerStateId::Walk, 12));
    let b = world.spawn(walker(1, PlayerStateId::Walk, 12));
    let c = world.spawn(walker(2, PlayerStateId::Idle, 12));
    let d = world.spawn(walker(7, PlayerStateId::Walk, 12));
    let r = res(vec![pad(0, 0, false, false), pad(1000, 0, false, false), pad(0, 0, false, true)]);
    player_state_transition(&mut world, &r);
    assert_eq!(world.at(a).player_state, Some(PlayerState { current: PlayerStateId::Idle, age: 0 }));
    assert_eq!(world.at(b).player_state, Some(PlayerState { current: PlayerStateId::Walk, age: 12 }));
    // not walking: the walk module leaves it alone, ragdoll or not
    assert_eq!(world.at(c).player_state, Some(PlayerState { current: PlayerStateId::Idle, age: 12 }));
    // no input for the seat
    assert_eq!(world.at(d).player_state, Some(PlayerState { current: PlayerStateId::Walk, age: 12 }));
}

#[test]
fn walk_velocity_accelerates_and_clamps() {
    // 0.5 per tick at full deflection, limit 3.0
    assert_eq!(walk_velocity(0, 500, 3_000, 1_000), 500);
    assert_eq!(walk_velocity(2_800, 500, 3_000, 1_000), 3_000);
    assert_eq!(walk_velocity(5_000, 500, 3_000, 1_000), 3_000);
    assert_eq!(walk_velocity(0, 500, 3_000, -1_000), -500);
    assert_eq!(walk_velocity(-2_800, 500, 3_000, -1_000), -3_000);
    assert_eq!(walk_velocity(-5_000, 500, 3_000, -1_000), -3_000);
    // half deflection: half the push, half the limit
    assert_eq!(walk_velocity(0, 500, 3_000, 500), 250);
    assert_eq!(walk_velocity(1_400, 500, 3_000, 500), 1_500);
    // turning round: moving right, stick left
    assert_eq!(walk_velocity(2_000, 500, 3_000, -1_000), 1_500);
    // stick at rest: no push, and the limit is zero from above
    assert_eq!(walk_velocity(2_000, 500, 3_000, 0), 0);
    assert_eq!(walk_velocity(-2_000, 500, 3_000, 0), -2_000);
    assert_eq!(walk_velocity(i32::MAX, i32::MAX, i32::MAX, 1_000), i32::MAX);
}

#[test]
fn walk_update_moves_turns_and_animates() {
    let mut world = World::new();
    let fresh = world.spawn(walker(0, PlayerStateId::Walk, 0));
    let old = world.spawn(walker(1, PlayerStateId::Walk, 3));
    let idle = world.spawn(walker(2, PlayerStateId::Idle, 0));
    let r = res(vec![pad(-1_000, 0, false, false), pad(1_000, 0, true, false), pad(1_000, 0, true, false)]);
    let idle_before = world.at(idle);
    handle_player_state(&mut world, &r);

    let e = world.at(fresh);
    assert_eq!(e.animation_bank, Some(AnimationBankSprite { current: AnimName { id: ANIM_WALK } }));
    assert_eq!(e.body.unwrap().velocity, Vec2 { x: -500, y: 0 });
    assert!(e.sprite.unwrap().flip_x);

    let e = world.at(old);
    assert_eq!(e.animation_bank, Some(AnimationBankSprite { current: AnimName { id: 77 } }));
    assert_eq!(e.body.unwrap().velocity, Vec2 { x: 500, y: 9_000 });
    assert!(!e.sprite.unwrap().flip_x);

    assert_eq!(world.at(idle), idle_before);
    // one jump sound, for the one walking player who jumped
    assert_eq!(world.audio.events.len(), 1);
    assert!(matches!(
        world.audio.events[0],
        AudioEvent::PlaySound { sound_source: SoundHandle { id: 4 }, volume: 150 }
    ));
}

#[test]
fn walk_update_keeps_facing_when_stick_rests() {
    let mut world = World::new();
    let mut w = walker(0, PlayerStateId::Walk, 1);
    w.sprite = Some(AtlasSprite { atlas: AtlasHandle { id: 1 }, flip_x: true });
    let p = world.spawn(w);
    let r = res(vec![pad(0, 0, false, false)]);
    handle_player_state(&mut world, &r);
    assert!(world.at(p).sprite.unwrap().flip_x);
}

#[test]
fn walk_update_skips_players_without_loaded_character() {
    let mut world = World::new();
    let p = world.spawn(walker(0, PlayerStateId::Walk, 0));
    let before = world.at(p);
    let mut r = res(vec![pad(1_000, 0, true, false)]);
    r.inputs.players[0].selected_player = 0;
    handle_player_state(&mut world, &r);
    assert_eq!(world.at(p), before);
    assert!(world.audio.events.is_empty());
}

#[test]
fn player_state_age_counts_ticks() {
    let mut s = PlayerState::new(PlayerStateId::Walk);
    assert_eq!(s.age, 0);
    s.tick();
    s.tick();
    assert_eq!(s, PlayerState { current: PlayerStateId::Walk, age: 2 });
    assert!(s.is(PlayerStateId::Walk));
    assert!(!s.is(PlayerStateId::Idle));
    s.transition_to(PlayerStateId::Midair);
    assert_eq!(s, PlayerState { current: PlayerStateId::Midair, age: 0 });
    let mut top = PlayerState { current: PlayerStateId::Idle, age: u64::MAX };
    top.tick();
    assert_eq!(top.age, u64::MAX);

    let mut world = World::new();
    let p = world.spawn(walker(0, PlayerStateId::Crouch, 5));
    let q = world.spawn(EntityData::new());
    update_player_state_age(&mut world);
    assert_eq!(world.at(p).player_state.map(|s| s.age), Some(6));
    assert_eq!(world.at(q), EntityData::new());
}

#[test]
fn exactly_one_module_serves_each_state() {
    let all = [
        PlayerStateId::Idle,
        PlayerStateId::Walk,
        PlayerStateId::Crouch,
        PlayerStateId::Midair,
        PlayerStateId::Ragdoll,
    ];
    for current in all {
        let state = PlayerState::new(current);
        assert_eq!(all.iter().filter(|m| state.is(**m)).count(), 1);
    }
}

#[test]
fn walk_install_and_a_tick_of_walking() {
    let mut session = SessionBuilder::new();
    jumpy_core::walk::install(&mut session);
    jumpy_core::player_state::install(&mut session);
    assert_eq!(session.stages.pre_update, vec![SystemId::WalkTransition]);
    assert_eq!(
        session.stages.update,
        vec![SystemId::WalkUpdate, SystemId::UseDropOrGrabItems(PlayerStateId::Walk)]
    );
    assert_eq!(session.stages.last, vec![SystemId::PlayerStateAge]);

    let mut world = World::new();
    let walking = world.spawn(walker(0, PlayerStateId::Walk, 0));
    let stopping = world.spawn(walker(1, PlayerStateId::Walk, 4));
    let r = res(vec![pad(1_000, 0, false, false), pad(0, 0, false, false)]);
    let left = run_tick(&session.stages, &mut world, &r).left_to_host;
    assert_eq!(left, vec![SystemId::UseDropOrGrabItems(PlayerStateId::Walk)]);
    // still walking: walked once and aged once
    let e = world.at(walking);
    assert_eq!(e.player_state, Some(PlayerState { current: PlayerStateId::Walk, age: 1 }));
    assert_eq!(e.body.unwrap().velocity.x, 500);
    assert_eq!(e.animation_bank.unwrap().current, AnimName { id: ANIM_WALK });
    // stopped: left the state before the update, so the walk update did not run for it
    let e = world.at(stopping);
    assert_eq!(e.player_state, Some(PlayerState { current: PlayerStateId::Idle, age: 1 }));
    assert_eq!(e.body.unwrap().velocity.x, 0);
    assert_eq!(e.animation_bank.unwrap().current, AnimName { id: 77 });
}
