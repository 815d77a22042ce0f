use jumpy_core::assets::{Asset, AssetServer, HandleCastError, UntypedHandle};
use jumpy_core::audio::{game_plugin, AudioCenter, AudioCenterExt, AudioEvent};
use jumpy_core::assets::SoundHandle;
use jumpy_core::commands::{apply_commands, Command, Skipped};
use jumpy_core::components::{DamageRegion, EmoteRegion, Lifetime, PlayerIdx, Transform};
use jumpy_core::lifetime::update_lifetimes;
use jumpy_core::debug::{
    debug_render_damage_regions, debug_render_emote_regions, plugin, DebugSettings, Outline, OutlineColor,
    OUTLINE_THICKNESS,
};
use jumpy_core::entity::Entity;
use jumpy_core::input::MatchInputs;
use jumpy_core::inventories::PlayerInventories;
use jumpy_core::item::{DropItem, EffectId, Inventory, ItemDropped, ItemGrabbed, ItemMarker};
use jumpy_core::kick_bomb::{IdleKickBomb, LitKickBomb};
use jumpy_core::math::{Vec2, Vec3};
use jumpy_core::schedule::{CoreStage, Game, SessionBuilder, SessionName, SharedResource, SystemId, SystemStages};
use jumpy_core::tick::{run_stage, run_system, run_tick, run_to_host, StageStop};
use jumpy_core::world::{CollisionWorld, EntityData, Overlap, PendingEffect, Resources, Time, World};
use kira::sound::static_sound::StaticSoundSettings;

fn res(debug: DebugSettings) -> Resources {
    Resources {
        assets: AssetServer { assets: vec![Asset::Other] },
        inputs: MatchInputs { players: Vec::new() },
        collisions: CollisionWorld { overlaps: Vec::new() },
        time: Time { delta: 1 },
        debug,
        gravity: 0,
    }
}

#[test]
fn world_create_get_set_kill() {
    let mut world = World::new();
    assert_eq!(world.len(), 0);
    let a = world.create();
    let b = world.create();
    assert_eq!((a.index, b.index), (0, 1));
    assert!(world.contains(a));
    assert!(!world.contains(Entity::new(2)));
    assert_eq!(world.get(a), Some(EntityData::new()));
    assert_eq!(world.get(Entity::new(2)), None);

    let mut data = EntityData::new();
    data.inventory = Some(Inventory(Some(b)));
    assert!(world.set(a, data));
    assert_eq!(world.at(a), data);
    assert!(!world.set(Entity::new(9), data));

    world.kill(a);
    assert!(!world.contains(a));
    assert_eq!(world.get(a), None);
    assert_eq!(world.at(a), EntityData::blank(false));
    // a destroyed entity cannot be written to, and its slot is not handed out again
    assert!(!world.set(a, data));
    let c = world.create();
    assert_eq!(c.index, 2);
    world.kill(a);
    world.kill(Entity::new(100));
    assert_eq!(world.len(), 3);
    world.put(1, data);
    assert_eq!(world.at(b), data);
}

#[test]
fn drain_on_empty_queue_is_a_no_op() {
    let mut world = World::new();
    let a = world.create();
    let mut data = EntityData::new();
    data.inventory = Some(Inventory(None));
    world.set(a, data);
    world.trauma.push(3);
    let r = res(DebugSettings::default());
    let before = world.entities.clone();
    assert!(apply_commands(&mut world, &r).is_empty());
    assert!(apply_commands(&mut world, &r).is_empty());
    assert_eq!(world.entities, before);
    assert_eq!(world.trauma, vec![3]);
    assert!(world.commands.is_empty());
    assert!(world.effects.is_empty());
    assert!(world.audio.events.is_empty());
}

#[test]
fn drain_applies_commands_in_order_and_empties_queue() {
    let mut world = World::new();
    let p = world.create();
    let i = world.create();
    let mut data = EntityData::new();
    data.inventory = Some(Inventory(None));
    world.set(p, data);
    world.enqueue(Command::SetInventory { player: p, item: Some(i) });
    world.enqueue(Command::RunEffect { entity: i, effect: EffectId { id: 1 } });
    world.enqueue(Command::DestroyEntity { entity: i });
    // refers to an entity destroyed by an earlier command of the same drain
    world.enqueue(Command::LightKickBomb { entity: i, arm_delay: 1, fuse_time: 2 });
    world.enqueue(Command::SetInventory { player: i, item: Some(p) });
    world.enqueue(Command::RunEffect { entity: i, effect: EffectId { id: 2 } });
    let r = res(DebugSettings::default());
    let skipped = apply_commands(&mut world, &r);
    assert!(skipped.is_empty());
    assert!(world.commands.is_empty());
    assert_eq!(world.at(p).inventory, Some(Inventory(Some(i))));
    assert!(!world.contains(i));
    assert_eq!(world.at(i), EntityData::blank(false));
    assert_eq!(world.at(p).marker, ItemMarker::Unmarked);
    assert_eq!(
        world.effects,
        vec![
            PendingEffect { entity: i, effect: EffectId { id: 1 } },
            PendingEffect { entity: i, effect: EffectId { id: 2 } },
        ]
    );
    // a second drain right after does nothing
    let after = world.entities.clone();
    assert!(apply_commands(&mut world, &r).is_empty());
    assert_eq!(world.entities, after);
    assert_eq!(world.effects.len(), 2);
}

#[test]
fn drain_reports_skipped_spawns() {
    let mut world = World::new();
    let t = Transform::from_translation(Vec3 { x: 0, y: 0, z: 0 });
    world.enqueue(Command::DestroyEntity { entity: Entity::new(0) });
    world.enqueue(Command::SpawnKickBomb { entity: None, transform: t, handle: UntypedHandle { index: 0 }, lit: false, player_flip: None });
    world.enqueue(Command::SpawnKickBomb { entity: None, transform: t, handle: UntypedHandle { index: 3 }, lit: true, player_flip: Some(true) });
    let r = res(DebugSettings::default());
    let skipped = apply_commands(&mut world, &r);
    assert_eq!(
        skipped,
        vec![
            Skipped { position: 1, error: HandleCastError::Mismatch },
            Skipped { position: 2, error: HandleCastError::NotLoaded },
        ]
    );
    assert_eq!(world.len(), 0);
    assert!(world.commands.is_empty());
}

#[test]
fn set_inventory_marks_old_and_new_item() {
    let mut world = World::new();
    let p = world.create();
    let old_item = world.create();
    let new_item = world.create();
    let mut data = EntityData::new();
    data.inventory = Some(Inventory(Some(old_item)));
    world.set(p, data);
    Command::set_inventory_now(&mut world, p, Some(new_item));
    assert_eq!(world.at(p).inventory, Some(Inventory(Some(new_item))));
    assert!(matches!(world.at(old_item).marker, ItemMarker::Dropped(d) if d.player == p));
    assert_eq!(world.at(new_item).marker, ItemMarker::Grabbed(ItemGrabbed { player: p }));
    // a player without an inventory is a miss
    let before = world.entities.clone();
    Command::set_inventory_now(&mut world, new_item, Some(old_item));
    Command::set_inventory_now(&mut world, Entity::new(77), None);
    assert_eq!(world.entities, before);
}

#[test]
fn command_apply_returns_the_cast_error() {
    let mut world = World::new();
    let r = res(DebugSettings::default());
    let t = Transform::from_translation(Vec3 { x: 0, y: 0, z: 0 });
    let bad = Command::SpawnKickBomb { entity: None, transform: t, handle: UntypedHandle { index: 0 }, lit: false, player_flip: None };
    assert_eq!(bad.apply(&mut world, &r), Err(HandleCastError::Mismatch));
    assert_eq!(Command::DestroyEntity { entity: Entity::new(0) }.apply(&mut world, &r), Ok(()));
    assert_eq!(world.len(), 0);
}

#[test]
fn audio_center_queues_in_order() {
    let mut audio = AudioCenter::new();
    audio.play_sound(SoundHandle { id: 1 }, 500);
    let settings = StaticSoundSettings::new().reverse(true);
    audio.play_music_from_settings(SoundHandle { id: 2 }, settings, true);
    audio.play_music_from_settings(SoundHandle { id: 3 }, StaticSoundSettings::default(), false);
    assert_eq!(audio.events.len(), 3);
    assert!(matches!(audio.events[0], AudioEvent::PlaySound { sound_source: SoundHandle { id: 1 }, volume: 500 }));
    match &audio.events[1] {
        AudioEvent::PlayMusic { sound_source, sound_settings, force_restart } => {
            assert_eq!(*sound_source, SoundHandle { id: 2 });
            assert_eq!(**sound_settings, settings);
            assert!(sound_settings.reverse);
            assert!(*force_restart);
        }
        _ => panic!("expected music"),
    }
    match &audio.events[2] {
        AudioEvent::PlayMusic { sound_source, sound_settings, force_restart } => {
            assert_eq!(*sound_source, SoundHandle { id: 3 });
            assert!(!sound_settings.reverse);
            assert!(!*force_restart);
        }
        _ => panic!("expected music"),
    }
    let taken = audio.take_events();
    assert_eq!(taken.len(), 3);
    assert!(audio.events.is_empty());
}

#[test]
fn audio_plugin_adds_music_to_the_audio_session() {
    let mut game = Game::new();
    game.add_session(SessionName::Match, SessionBuilder::new());
    game.add_session(SessionName::Audio, SessionBuilder::new());
    game.add_session(SessionName::Audio, SessionBuilder::new());
    assert_eq!(game.find_session(SessionName::Audio), Some(1));
    game_plugin(&mut game);
    assert_eq!(game.shared_resources, vec![SharedResource::AudioCenter]);
    assert!(game.sessions[0].session.stages.first.is_empty());
    assert_eq!(game.sessions[1].session.stages.first, vec![SystemId::Music]);
    assert!(game.sessions[2].session.stages.first.is_empty());
    assert_eq!(game.sessions.len(), 3);
    game.init_shared_resource(SharedResource::AudioCenter);
    assert_eq!(game.shared_resources.len(), 1);
    assert_eq!(Game::new().find_session(SessionName::Audio), None);
}

#[test]
fn stages_keep_registration_order() {
    let mut stages = SystemStages::new();
    stages.add_system_to_stage(CoreStage::Update, SystemId::WalkUpdate);
    stages.add_system_to_stage(CoreStage::Last, SystemId::ThrowDroppedItems);
    stages.add_system_to_stage(CoreStage::Update, SystemId::Hydrate);
    stages.add_system_to_stage(CoreStage::First, SystemId::Music);
    stages.add_system_to_stage(CoreStage::Update, SystemId::WalkUpdate);
    assert_eq!(
        stages.systems(CoreStage::Update),
        &vec![SystemId::WalkUpdate, SystemId::Hydrate, SystemId::WalkUpdate]
    );
    assert_eq!(stages.systems(CoreStage::First), &vec![SystemId::Music]);
    assert_eq!(stages.systems(CoreStage::Last), &vec![SystemId::ThrowDroppedItems]);
    assert!(stages.systems(CoreStage::PreUpdate).is_empty());
    assert!(stages.systems(CoreStage::PostUpdate).is_empty());
}

#[test]
fn host_systems_are_left_to_the_host_in_order() {
    let mut session = SessionBuilder::new();
    plugin(&mut session);
    session.stages.add_system_to_stage(CoreStage::First, SystemId::Music);
    assert_eq!(
        session.stages.last,
        vec![
            SystemId::DebugRenderColliders,
            SystemId::DebugRenderDamageRegions,
            SystemId::DebugRenderEmoteRegions
        ]
    );
    let mut world = World::new();
    let r = res(DebugSettings::default());
    let inv = PlayerInventories::get_state(&world);
    assert!(!run_system(SystemId::Music, &mut world, &r, &inv));
    assert!(!run_system(SystemId::DebugRenderColliders, &mut world, &r, &inv));
    assert!(run_system(SystemId::GrabItems, &mut world, &r, &inv));
    let left = run_tick(&session.stages, &mut world, &r).left_to_host;
    assert_eq!(left, vec![SystemId::Music, SystemId::DebugRenderColliders]);
    let mut seen = vec![SystemId::Hydrate];
    let skipped = run_stage(&session.stages, CoreStage::Last, &mut world, &r, &inv, &mut seen);
    assert!(skipped.is_empty());
    assert_eq!(seen, vec![SystemId::Hydrate, SystemId::DebugRenderColliders]);
}

#[test]
fn commands_are_applied_between_stages() {
    // a command recorded before the tick is in place when the first system runs
    let mut stages = SystemStages::new();
    stages.add_system_to_stage(CoreStage::PreUpdate, SystemId::GrabItems);
    let mut world = World::new();
    let p = world.spawn({
        let mut e = EntityData::new();
        e.inventory = Some(Inventory(None));
        e
    });
    let i = world.spawn({
        let mut e = EntityData::new();
        e.item = Some(jumpy_core::item::Item);
        e.item_grab = Some(jumpy_core::item::ItemGrab {
            fin_anim: jumpy_core::assets::AnimName { id: 1 },
            grab_offset: Vec2 { x: 0, y: 0 },
            sync_animation: false,
        });
        e
    });
    world.enqueue(Command::SetInventory { player: p, item: Some(i) });
    let r = res(DebugSettings::default());
    run_tick(&stages, &mut world, &r);
    assert_eq!(world.at(i).marker, ItemMarker::Unmarked);
    assert_eq!(world.at(i).attachment.map(|a| a.player), Some(p));
}

#[test]
fn debug_outlines_follow_the_setting() {
    let mut world = World::new();
    let hurt = world.spawn({
        let mut e = EntityData::new();
        e.damage_region = Some(DamageRegion { size: Vec2 { x: 10, y: 20 } });
        e.transform = Some(Transform { translation: Vec3 { x: 0, y: 0, z: 0 }, rotation: 785 });
        e
    });
    let emote = world.spawn({
        let mut e = EntityData::new();
        e.emote_region = Some(EmoteRegion { size: Vec2 { x: 30, y: 40 } });
        e.transform = Some(Transform { translation: Vec3 { x: 0, y: 0, z: 0 }, rotation: -5 });
        e
    });
    let nowhere = world.spawn({
        let mut e = EntityData::new();
        e.damage_region = Some(DamageRegion { size: Vec2 { x: 1, y: 1 } });
        e
    });
    let plain = world.spawn(EntityData::new());
    let on = res(DebugSettings { show_damage_regions: true, ..DebugSettings::default() });
    debug_render_damage_regions(&mut world, &on);
    debug_render_emote_regions(&mut world, &on);
    assert_eq!(
        world.at(hurt).outline,
        Some(Outline { color: OutlineColor::Red, size: Vec2 { x: 10, y: 20 }, rotation: -785, thickness: OUTLINE_THICKNESS })
    );
    assert_eq!(
        world.at(emote).outline,
        Some(Outline { color: OutlineColor::Green, size: Vec2 { x: 30, y: 40 }, rotation: 5, thickness: 1_000 })
    );
    assert_eq!(world.at(nowhere).outline, None);
    assert_eq!(world.at(plain), EntityData::new());

    let off = res(DebugSettings { show_kinematic_colliders: true, show_pathfinding_lines: true, ..DebugSettings::default() });
    debug_render_emote_regions(&mut world, &off);
    assert!(world.at(hurt).outline.is_some());
    assert_eq!(world.at(emote).outline, None);
    debug_render_damage_regions(&mut world, &off);
    assert_eq!(world.at(hurt).outline, None);
}

#[test]
fn debug_context_makes_its_path_entity() {
    let mut world = World::new();
    world.create();
    let context = jumpy_core::debug::RapierDebugContext::from_world(&mut world);
    assert_eq!(context.path_entity, Entity::new(1));
    assert_eq!(world.len(), 2);
    let mut expected = EntityData::new();
    expected.transform = Some(Transform::from_translation(Vec3 { x: 0, y: 0, z: -1_000 }));
    assert_eq!(world.at(context.path_entity), expected);
    let copy = context.clone();
    assert_eq!(copy.path_entity, context.path_entity);
    assert_eq!(world.len(), 2);
}

#[test]
fn lifetimes_count_down_and_destroy() {
    let mut world = World::new();
    let short = world.spawn({
        let mut e = EntityData::new();
        e.lifetime = Some(Lifetime::new(2));
        e
    });
    let long = world.spawn({
        let mut e = EntityData::new();
        e.lifetime = Some(Lifetime::new(3));
        e
    });
    let forever = world.create();
    let r = res(DebugSettings::default());
    update_lifetimes(&mut world, &r);
    assert!(world.commands.is_empty());
    assert_eq!(world.at(short).lifetime, Some(Lifetime { lifetime: 2, age: 1 }));
    update_lifetimes(&mut world, &r);
    assert_eq!(world.commands, vec![Command::DestroyEntity { entity: short }]);
    assert!(world.contains(short));
    apply_commands(&mut world, &r);
    assert!(!world.contains(short));
    assert!(world.contains(long));
    assert!(world.contains(forever));
    update_lifetimes(&mut world, &r);
    assert_eq!(world.commands, vec![Command::DestroyEntity { entity: long }]);

    let mut l = Lifetime { lifetime: u64::MAX, age: u64::MAX - 1 };
    assert!(!l.is_expired());
    l.tick(5);
    assert_eq!(l.age, u64::MAX);
    assert!(l.is_expired());
    let mut zero = Lifetime::new(0);
    assert!(zero.is_expired());
    zero.tick(0);
    assert!(zero.is_expired());
}

#[test]
fn explosion_leftovers_expire() {
    let mut session = SessionBuilder::new();
    jumpy_core::lifetime::install(&mut session);
    assert_eq!(session.stages.first, vec![SystemId::Lifetimes]);
    let mut world = World::new();
    let bomb = world.create();
    let t = Transform::from_translation(Vec3 { x: 5, y: 6, z: 7 });
    let blast = jumpy_core::commands::Blast {
        damage_region_size: Vec2 { x: 1, y: 1 },
        damage_region_lifetime: 2,
        explosion_lifetime: 3,
        explosion_atlas: jumpy_core::assets::AtlasHandle { id: 0 },
        explosion_fps: 1,
        explosion_frames: 4,
    };
    world.enqueue(Command::Explode { entity: bomb, transform: t, blast });
    let r = res(DebugSettings::default());
    // the blast appears with the first drain of the tick; its lifetimes start on the next
    run_tick(&session.stages, &mut world, &r);
    assert!(!world.contains(bomb));
    let (region, explosion) = (Entity::new(1), Entity::new(2));
    assert!(world.contains(region) && world.contains(explosion));
    run_tick(&session.stages, &mut world, &r);
    run_tick(&session.stages, &mut world, &r);
    assert!(!world.contains(region));
    assert!(world.contains(explosion));
    run_tick(&session.stages, &mut world, &r);
    assert!(!world.contains(explosion));
}

#[test]
fn inventories_are_snapshot_once_per_tick() {
    let mut stages = SystemStages::new();
    stages.add_system_to_stage(CoreStage::Last, SystemId::DropItems);
    let mut world = World::new();
    let p = world.spawn({
        let mut e = EntityData::new();
        e.player_idx = Some(PlayerIdx(0));
        e.inventory = Some(Inventory(None));
        e
    });
    let i = world.spawn({
        let mut e = EntityData::new();
        e.drop_item = Some(DropItem);
        e
    });
    world.enqueue(Command::SetInventory { player: p, item: Some(i) });
    let r = res(DebugSettings::default());
    // the inventory is filled by the first drain of the tick, after the snapshot was taken
    run_tick(&stages, &mut world, &r);
    assert_eq!(world.at(p).inventory, Some(Inventory(Some(i))));
    assert_eq!(world.at(i).drop_item, Some(DropItem));
    // the next tick sees it
    run_tick(&stages, &mut world, &r);
    assert_eq!(world.at(i).drop_item, None);
    assert_eq!(world.at(p).inventory, Some(Inventory(None)));
    assert_eq!(world.at(i).marker, ItemMarker::Dropped(ItemDropped { player: p }));
}

#[test]
fn actor_collisions_in_report_order() {
    let (a, b, c) = (Entity::new(0), Entity::new(1), Entity::new(2));
    let collisions = CollisionWorld {
        overlaps: vec![
            Overlap { actor: a, other: c },
            Overlap { actor: b, other: a },
            Overlap { actor: a, other: b },
            Overlap { actor: a, other: c },
        ],
    };
    assert_eq!(collisions.actor_collisions(a), vec![c, b, c]);
    assert_eq!(collisions.actor_collisions(b), vec![a]);
    assert!(collisions.actor_collisions(c).is_empty());
}

#[test]
fn a_bomb_is_lit_once() {
    let mut world = World::new();
    let bomb = world.spawn({
        let mut e = EntityData::new();
        e.idle_kick_bomb = Some(IdleKickBomb);
        e
    });
    let plain = world.create();
    world.enqueue(Command::LightKickBomb { entity: bomb, arm_delay: 1, fuse_time: 2 });
    world.enqueue(Command::LightKickBomb { entity: bomb, arm_delay: 10, fuse_time: 20 });
    world.enqueue(Command::LightKickBomb { entity: plain, arm_delay: 1, fuse_time: 2 });
    let r = res(DebugSettings::default());
    apply_commands(&mut world, &r);
    assert_eq!(world.at(bomb).idle_kick_bomb, None);
    assert_eq!(world.at(bomb).lit_kick_bomb, Some(LitKickBomb::lit(1, 2)));
    assert_eq!(world.at(plain), EntityData::new());
}

#[test]
fn tick_reports_skipped_commands() {
    let stages = SystemStages::new();
    let mut world = World::new();
    let t = Transform::from_translation(Vec3 { x: 0, y: 0, z: 0 });
    world.enqueue(Command::RunEffect { entity: Entity::new(0), effect: EffectId { id: 1 } });
    world.enqueue(Command::SpawnKickBomb { entity: None, transform: t, handle: UntypedHandle { index: 9 }, lit: false, player_flip: None });
    let r = res(DebugSettings::default());
    let report = run_tick(&stages, &mut world, &r);
    assert!(report.left_to_host.is_empty());
    assert_eq!(report.skipped, vec![Skipped { position: 1, error: HandleCastError::NotLoaded }]);
    assert_eq!(world.len(), 0);
    assert_eq!(world.effects.len(), 1);
    let report = run_tick(&stages, &mut world, &r);
    assert!(report.skipped.is_empty());
}

#[test]
fn run_to_host_halts_at_each_host_system() {
    let mut stages = SystemStages::new();
    for system in [
        SystemId::GrabItems,
        SystemId::Music,
        SystemId::DebugRenderColliders,
        SystemId::Lifetimes,
    ] {
        stages.add_system_to_stage(CoreStage::Update, system);
    }
    let mut world = World::new();
    let short = world.spawn({
        let mut e = EntityData::new();
        e.lifetime = Some(Lifetime::new(1));
        e
    });
    let r = res(DebugSettings::default());
    let inv = PlayerInventories::get_state(&world);
    assert!(matches!(run_to_host(&stages, CoreStage::Update, 0, &mut world, &r, &inv), StageStop::AtHost(1)));
    assert!(matches!(run_to_host(&stages, CoreStage::Update, 2, &mut world, &r, &inv), StageStop::AtHost(2)));
    // the lifetime has not counted yet
    assert_eq!(world.at(short).lifetime, Some(Lifetime { lifetime: 1, age: 0 }));
    match run_to_host(&stages, CoreStage::Update, 3, &mut world, &r, &inv) {
        StageStop::Drained(skipped) => assert!(skipped.is_empty()),
        StageStop::AtHost(at) => panic!("halted at {at}"),
    }
    assert!(!world.contains(short));
    assert!(world.commands.is_empty());
    // a stage without systems is drained at once
    assert!(matches!(run_to_host(&stages, CoreStage::First, 0, &mut world, &r, &inv), StageStop::Drained(_)));
    assert!(matches!(run_to_host(&stages, CoreStage::Update, 4, &mut world, &r, &inv), StageStop::Drained(_)));
}
