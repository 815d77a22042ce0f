use jumpy_core::assets::{AnimName, AssetServer, AtlasHandle};
use jumpy_core::commands::{apply_commands, Command};
use jumpy_core::components::{
    z_depth_for_map_layer, AtlasSprite, DehydrateOutOfBounds, KinematicBody, PlayerBodyAttachment, PlayerIdx,
    PlayerLayers, PlayerSpawner, SpawnedMapLayerMeta, Transform, MAX_PLAYERS,
};
use jumpy_core::debug::DebugSettings;
use jumpy_core::entity::Entity;
use jumpy_core::input::{MatchInputs, PlayerControl, PlayerInput};
use jumpy_core::inventories::PlayerInventories;
use jumpy_core::item::{
    drop_items, grab_items, DropItem, EffectId, Inv, Inventory, Item, ItemDropped, ItemGrab, ItemGrabbed,
    ItemMarker, ItemUsed,
};
use jumpy_core::item_throw::{throw_dropped_items, ItemThrow, ThrowKind};
use jumpy_core::math::{Vec2, Vec3};
use jumpy_core::schedule::{Schema, SessionBuilder, SystemId};
use jumpy_core::tick::run_tick;
use jumpy_core::world::{CollisionWorld, EntityData, PendingEffect, Resources, Time, World};

fn control(x: i32, y: i32) -> PlayerControl {
    PlayerControl { move_direction: Vec2 { x, y }, jump_just_pressed: false, ragdoll_just_pressed: false }
}

fn res_with_controls(controls: Vec<PlayerControl>) -> Resources {
    Resources {
        assets: AssetServer::new(),
        inputs: MatchInputs {
            players: controls.into_iter().map(|control| PlayerInput { selected_player: 0, control }).collect(),
        },
        collisions: CollisionWorld { overlaps: Vec::new() },
        time: Time { delta: 16_000_000 },
        debug: DebugSettings::default(),
        gravity: 0,
    }
}

fn player(seat: u32, flip_x: bool) -> EntityData {
    let mut e = EntityData::new();
    e.player_idx = Some(PlayerIdx(seat));
    e.sprite = Some(AtlasSprite { atlas: AtlasHandle { id: 1 }, flip_x });
    e.inventory = Some(Inventory(None));
    e.player_layers = Some(PlayerLayers { fin_anim: AnimName { id: 0 } });
    e.transform = Some(Transform::from_translation(Vec3 { x: 0, y: 0, z: 0 }));
    e
}

fn item(strength: i32, spin: i32) -> EntityData {
    let mut e = EntityData::new();
    e.item = Some(Item);
    e.item_throw = Some(ItemThrow::strength(strength).with_spin(spin));
    e.item_grab = Some(ItemGrab {
        fin_anim: AnimName { id: 9 },
        grab_offset: Vec2 { x: 4_000, y: -2_000 },
        sync_animation: true,
    });
    e.transform = Some(Transform::from_translation(Vec3 { x: 1, y: 2, z: 3 }));
    e.body = Some(KinematicBody::default());
    e
}

#[test]
fn base_throw_profile() {
    let base = ItemThrow::base();
    assert_eq!(base.normal, Vec2 { x: 469, y: 375 });
    assert_eq!(base.fast, Vec2 { x: 781, y: 625 });
    assert_eq!(base.up, Vec2 { x: 0, y: 1100 });
    assert_eq!(base.drop, Vec2 { x: 0, y: 0 });
    assert_eq!(base.lob, Vec2 { x: 409, y: 1021 });
    assert_eq!(base.roll, Vec2 { x: 400, y: -100 });
    assert_eq!(base.spin, 0);
    assert_eq!(base.system, None);
    assert_eq!(ItemThrow::default(), base);
}

#[test]
fn base_throw_profile_matches_the_unit_vectors() {
    // normal: (1.5, 1.2) normalised times 0.6; fast: (1.5, 1.2) normalised;
    // lob: (1.0, 2.5) normalised times 1.1
    let n = (1.5f64 * 1.5 + 1.2 * 1.2).sqrt();
    let l = (1.0f64 + 2.5 * 2.5).sqrt();
    let base = ItemThrow::base();
    let close = |v: i32, f: f64| (v as f64 - f * 1000.0).abs() <= 0.5;
    assert!(close(base.normal.x, 1.5 / n * 0.6));
    assert!(close(base.normal.y, 1.2 / n * 0.6));
    assert!(close(base.fast.x, 1.5 / n));
    assert!(close(base.fast.y, 1.2 / n));
    assert!(close(base.lob.x, 1.0 / l * 1.1));
    assert!(close(base.lob.y, 2.5 / l * 1.1));
}

#[test]
fn strength_scales_every_throw() {
    let t = ItemThrow::strength(2_000);
    assert_eq!(t.normal, Vec2 { x: 938, y: 750 });
    assert_eq!(t.fast, Vec2 { x: 1562, y: 1250 });
    assert_eq!(t.up, Vec2 { x: 0, y: 2200 });
    assert_eq!(t.drop, Vec2 { x: 0, y: 0 });
    assert_eq!(t.lob, Vec2 { x: 818, y: 2042 });
    assert_eq!(t.roll, Vec2 { x: 800, y: -200 });
    assert_eq!(t.spin, 0);
    assert_eq!(ItemThrow::strength(1_000), ItemThrow::base());
}

#[test]
fn with_spin_and_with_system_change_one_field() {
    let t = ItemThrow::strength(2_000).with_spin(77).with_system(EffectId { id: 5 });
    assert_eq!(t.spin, 77);
    assert_eq!(t.system, Some(EffectId { id: 5 }));
    assert_eq!(t.lob, ItemThrow::strength(2_000).lob);
}

#[test]
fn throw_kind_from_stick() {
    assert_eq!(ThrowKind::classify(Vec2 { x: 1, y: -1 }), ThrowKind::Roll);
    assert_eq!(ThrowKind::classify(Vec2 { x: -1000, y: -1000 }), ThrowKind::Roll);
    assert_eq!(ThrowKind::classify(Vec2 { x: 0, y: -1 }), ThrowKind::Drop);
    assert_eq!(ThrowKind::classify(Vec2 { x: 1000, y: 1000 }), ThrowKind::Lob);
    assert_eq!(ThrowKind::classify(Vec2 { x: -1, y: 1 }), ThrowKind::Lob);
    assert_eq!(ThrowKind::classify(Vec2 { x: 1000, y: 0 }), ThrowKind::Fast);
    assert_eq!(ThrowKind::classify(Vec2 { x: -1000, y: 0 }), ThrowKind::Fast);
    assert_eq!(ThrowKind::classify(Vec2 { x: 0, y: 1 }), ThrowKind::Up);
    assert_eq!(ThrowKind::classify(Vec2 { x: 0, y: 0 }), ThrowKind::Normal);
}

#[test]
fn velocity_from_control_selects_each_profile() {
    let t = ItemThrow::strength(2_000);
    assert_eq!(t.velocity_from_control(&control(500, -500)), t.roll);
    assert_eq!(t.velocity_from_control(&control(0, -500)), t.drop);
    assert_eq!(t.velocity_from_control(&control(500, 500)), t.lob);
    assert_eq!(t.velocity_from_control(&control(-500, 0)), t.fast);
    assert_eq!(t.velocity_from_control(&control(0, 500)), t.up);
    assert_eq!(t.velocity_from_control(&control(0, 0)), t.normal);
}

#[test]
fn throw_lob_facing_right_is_unmirrored() {
    // holder facing right, stick at (1, 1): the lob, scaled by the strength, unmirrored
    let strength = 3_000;
    let t = ItemThrow::strength(strength);
    let v = t.velocity_from_control(&control(1_000, 1_000));
    assert_eq!(v, ItemThrow::base().lob.scaled(strength));
    assert_eq!(v, Vec2 { x: 1227, y: 3063 });

    let mut world = World::new();
    let holder = world.spawn(player(0, false));
    let thrown = world.spawn({
        let mut e = item(strength, 0);
        e.marker = ItemMarker::Dropped(ItemDropped { player: holder });
        e
    });
    let res = res_with_controls(vec![control(1_000, 1_000)]);
    throw_dropped_items(&mut world, &res);
    assert_eq!(world.at(thrown).body.unwrap().velocity, Vec2 { x: 1227, y: 3063 });
}

#[test]
fn throw_facing_left_mirrors_velocity_and_spin() {
    let mut world = World::new();
    let holder = world.spawn(player(0, true));
    let thrown = world.spawn({
        let mut e = item(2_000, 300);
        e.marker = ItemMarker::Dropped(ItemDropped { player: holder });
        e
    });
    let rolled = world.spawn({
        let mut e = item(2_000, 300);
        e.marker = ItemMarker::Dropped(ItemDropped { player: holder });
        e
    });
    let res = res_with_controls(vec![control(1_000, 1_000)]);
    throw_dropped_items(&mut world, &res);
    let body = world.at(thrown).body.unwrap();
    assert_eq!(body.velocity, Vec2 { x: -818, y: 2042 });
    assert_eq!(body.angular_velocity, -300);
    let _ = rolled;

    // downward throw while facing left: the two reversals cancel
    let mut world = World::new();
    let holder = world.spawn(player(0, true));
    let rolled = world.spawn({
        let mut e = item(2_000, 300);
        e.marker = ItemMarker::Dropped(ItemDropped { player: holder });
        e
    });
    let res = res_with_controls(vec![control(1_000, -1_000)]);
    throw_dropped_items(&mut world, &res);
    let body = world.at(rolled).body.unwrap();
    assert_eq!(body.velocity, Vec2 { x: -800, y: -200 });
    assert_eq!(body.angular_velocity, 300);

    // downward throw while facing right: reversed once
    let mut world = World::new();
    let holder = world.spawn(player(0, false));
    let rolled = world.spawn({
        let mut e = item(2_000, 300);
        e.marker = ItemMarker::Dropped(ItemDropped { player: holder });
        e
    });
    throw_dropped_items(&mut world, &res);
    let body = world.at(rolled).body.unwrap();
    assert_eq!(body.velocity, Vec2 { x: 800, y: -200 });
    assert_eq!(body.angular_velocity, -300);
}

#[test]
fn spin_for_matches_the_sign_rule() {
    let t = ItemThrow::base().with_spin(10);
    assert_eq!(t.spin_for(Vec2 { x: 0, y: 0 }, false), 10);
    assert_eq!(t.spin_for(Vec2 { x: 0, y: 5 }, true), -10);
    assert_eq!(t.spin_for(Vec2 { x: 0, y: -5 }, false), -10);
    assert_eq!(t.spin_for(Vec2 { x: 0, y: -5 }, true), 10);
    assert_eq!(ItemThrow::base().with_spin(i32::MIN).spin_for(Vec2 { x: 0, y: 1 }, true), i32::MAX);
}

#[test]
fn throw_uses_spawner_layer_for_depth() {
    let mut world = World::new();
    let holder = world.spawn(player(0, false));
    let slot = world.spawn({
        let mut e = EntityData::new();
        e.map_layer = Some(SpawnedMapLayerMeta { layer_idx: 3 });
        e
    });
    let spawn_point = world.spawn({
        let mut e = EntityData::new();
        e.player_spawner = Some(PlayerSpawner);
        e.map_layer = Some(SpawnedMapLayerMeta { layer_idx: 8 });
        e
    });
    let second_spawn_point = world.spawn({
        let mut e = EntityData::new();
        e.player_spawner = Some(PlayerSpawner);
        e.map_layer = Some(SpawnedMapLayerMeta { layer_idx: 1 });
        e
    });
    let from_slot = world.spawn({
        let mut e = item(1_000, 0);
        e.dehydrate_out_of_bounds = Some(DehydrateOutOfBounds(slot));
        e.marker = ItemMarker::Dropped(ItemDropped { player: holder });
        e
    });
    let loose = world.spawn({
        let mut e = item(1_000, 0);
        e.marker = ItemMarker::Dropped(ItemDropped { player: holder });
        e
    });
    let _ = (spawn_point, second_spawn_point);
    let res = res_with_controls(vec![control(0, 0)]);
    throw_dropped_items(&mut world, &res);
    assert_eq!(z_depth_for_map_layer(3), -894_000);
    assert_eq!(z_depth_for_map_layer(0), -900_000);
    assert_eq!(z_depth_for_map_layer(u32::MAX), i32::MAX);
    let t = world.at(from_slot).transform.unwrap().translation;
    assert_eq!(t, Vec3 { x: 1, y: 2, z: -894_000 });
    // without a slot of its own: the player spawn point with the lowest index decides
    let t = world.at(loose).transform.unwrap().translation;
    assert_eq!(t, Vec3 { x: 1, y: 2, z: z_depth_for_map_layer(8) });
}

#[test]
fn throw_without_any_layer_keeps_depth() {
    let mut world = World::new();
    let holder = world.spawn(player(0, false));
    let loose = world.spawn({
        let mut e = item(1_000, 0);
        e.marker = ItemMarker::Dropped(ItemDropped { player: holder });
        e
    });
    let res = res_with_controls(vec![control(0, 0)]);
    throw_dropped_items(&mut world, &res);
    assert_eq!(world.at(loose).transform.unwrap().translation.z, 3);
    assert_eq!(world.at(loose).marker, ItemMarker::Unmarked);
}

#[test]
fn throw_schedules_the_item_routine_once() {
    let mut world = World::new();
    let holder = world.spawn(player(0, false));
    let thrown = world.spawn({
        let mut e = item(1_000, 0);
        e.item_throw = Some(ItemThrow::strength(1_000).with_system(EffectId { id: 42 }));
        e.marker = ItemMarker::Dropped(ItemDropped { player: holder });
        e
    });
    let res = res_with_controls(vec![control(0, 0)]);
    throw_dropped_items(&mut world, &res);
    throw_dropped_items(&mut world, &res);
    assert_eq!(world.commands, vec![Command::RunEffect { entity: thrown, effect: EffectId { id: 42 } }]);
    apply_commands(&mut world, &res);
    assert_eq!(world.effects, vec![PendingEffect { entity: thrown, effect: EffectId { id: 42 } }]);
    assert!(world.commands.is_empty());
}

#[test]
fn throw_waits_while_the_thrower_cannot_be_found() {
    let mut world = World::new();
    let thrown = world.spawn({
        let mut e = item(1_000, 0);
        e.marker = ItemMarker::Dropped(ItemDropped { player: Entity::new(50) });
        e
    });
    let before = world.at(thrown);
    let res = res_with_controls(vec![control(0, 0)]);
    throw_dropped_items(&mut world, &res);
    assert_eq!(world.at(thrown), before);

    // a thrower in a seat without input
    let holder = world.spawn(player(3, false));
    let mut e = before;
    e.marker = ItemMarker::Dropped(ItemDropped { player: holder });
    world.set(thrown, e);
    throw_dropped_items(&mut world, &res);
    assert_eq!(world.at(thrown), e);
}

#[test]
fn grab_attaches_item_and_consumes_marker() {
    let mut world = World::new();
    let holder = world.spawn(player(0, false));
    let grabbed = world.spawn({
        let mut e = item(1_000, 0);
        e.marker = ItemMarker::Grabbed(ItemGrabbed { player: holder });
        e
    });
    let free = world.spawn(item(1_000, 0));
    let free_before = world.at(free);
    grab_items(&mut world);
    let e = world.at(grabbed);
    assert_eq!(e.marker, ItemMarker::Unmarked);
    assert!(e.body.unwrap().is_deactivated);
    assert_eq!(
        e.attachment,
        Some(PlayerBodyAttachment {
            player: holder,
            sync_animation: true,
            sync_color: false,
            head: false,
            offset: Vec3 { x: 4_000, y: -2_000, z: PlayerLayers::FIN_Z_OFFSET / 2 },
        })
    );
    assert_eq!(world.at(holder).player_layers, Some(PlayerLayers { fin_anim: AnimName { id: 9 } }));
    assert_eq!(world.at(free), free_before);
    // the marker is gone, so a second pass changes nothing
    let after = world.entities.clone();
    grab_items(&mut world);
    assert_eq!(world.entities, after);
}

#[test]
fn grab_by_a_player_without_layers_still_attaches() {
    let mut world = World::new();
    let holder = world.spawn({
        let mut p = player(0, false);
        p.player_layers = None;
        p
    });
    let grabbed = world.spawn({
        let mut e = item(1_000, 0);
        e.body = None;
        e.marker = ItemMarker::Grabbed(ItemGrabbed { player: holder });
        e
    });
    grab_items(&mut world);
    assert_eq!(world.at(grabbed).attachment.map(|a| a.player), Some(holder));
    assert_eq!(world.at(grabbed).body, None);
    assert_eq!(world.at(holder).player_layers, None);
}

#[test]
fn player_inventories_snapshot_and_find_item() {
    let mut world = World::new();
    let a = world.spawn(player(2, false));
    let b = world.spawn(player(0, false));
    let out_of_range = world.spawn(player(MAX_PLAYERS, false));
    let thing = world.spawn(item(1_000, 0));
    let other = world.spawn(item(1_000, 0));
    for (p, i) in [(a, thing), (b, other), (out_of_range, thing)] {
        let mut e = world.at(p);
        e.inventory = Some(Inventory(Some(i)));
        world.set(p, e);
    }
    let inv = PlayerInventories::get_state(&world);
    assert_eq!(inv.seats.len(), MAX_PLAYERS as usize);
    assert_eq!(inv.seats[0], Some(Inv { player: b, inventory: other }));
    assert_eq!(inv.seats[1], None);
    assert_eq!(inv.seats[2], Some(Inv { player: a, inventory: thing }));
    assert_eq!(inv.seats[3], None);
    assert_eq!(inv.find_item(thing), Some(Inv { player: a, inventory: thing }));
    assert_eq!(inv.find_item(other), Some(Inv { player: b, inventory: other }));
    assert_eq!(inv.find_item(a), None);
    // a dead player carries nothing
    world.kill(a);
    let inv = PlayerInventories::get_state(&world);
    assert_eq!(inv.find_item(thing), None);
}

#[test]
fn drop_items_consumes_request_and_queues_the_drop() {
    let mut world = World::new();
    let holder = world.spawn(player(1, false));
    let idle_holder = world.spawn(player(0, false));
    let held = world.spawn({
        let mut e = item(1_000, 0);
        e.drop_item = Some(DropItem);
        e
    });
    let kept = world.spawn(item(1_000, 0));
    let lying = world.spawn({
        let mut e = item(1_000, 0);
        e.drop_item = Some(DropItem);
        e
    });
    for (p, i) in [(holder, held), (idle_holder, kept)] {
        let mut e = world.at(p);
        e.inventory = Some(Inventory(Some(i)));
        world.set(p, e);
    }
    let inv = PlayerInventories::get_state(&world);
    drop_items(&mut world, &inv);
    assert_eq!(world.at(held).drop_item, None);
    // nobody carries it, so nobody drops it
    assert_eq!(world.at(lying).drop_item, Some(DropItem));
    assert_eq!(world.commands, vec![Command::SetInventory { player: holder, item: None }]);
    // the inventory itself changes with the drain
    assert_eq!(world.at(holder).inventory, Some(Inventory(Some(held))));
    let res = res_with_controls(vec![]);
    apply_commands(&mut world, &res);
    assert_eq!(world.at(holder).inventory, Some(Inventory(None)));
    assert_eq!(world.at(held).marker, ItemMarker::Dropped(ItemDropped { player: holder }));
    assert_eq!(world.at(idle_holder).inventory, Some(Inventory(Some(kept))));
    assert_eq!(world.at(kept).marker, ItemMarker::Unmarked);
}

#[test]
fn markers_replace_one_another() {
    let mut world = World::new();
    let p = world.spawn(player(0, false));
    let i = world.spawn({
        let mut e = item(1_000, 0);
        e.marker = ItemMarker::Used(ItemUsed { owner: p });
        e
    });
    Command::set_inventory_now(&mut world, p, Some(i));
    assert_eq!(world.at(i).marker, ItemMarker::Grabbed(ItemGrabbed { player: p }));
    Command::set_inventory_now(&mut world, p, None);
    assert_eq!(world.at(i).marker, ItemMarker::Dropped(ItemDropped { player: p }));
}

#[test]
fn grab_drop_throw_cycle() {
    let mut session = SessionBuilder::new();
    jumpy_core::item::install(&mut session);
    let stages = session.stages;
    let res = res_with_controls(vec![control(1_000, 0)]);

    let mut world = World::new();
    let p = world.spawn(player(0, true));
    let i = world.spawn(item(2_000, 100));

    // grab: the command marks the item and fills the inventory; the grab system attaches it
    world.enqueue(Command::SetInventory { player: p, item: Some(i) });
    run_tick(&stages, &mut world, &res);
    assert_eq!(world.at(p).inventory, Some(Inventory(Some(i))));
    assert_eq!(world.at(i).marker, ItemMarker::Unmarked);
    assert_eq!(world.at(i).attachment.map(|a| a.player), Some(p));
    assert!(world.at(i).body.unwrap().is_deactivated);

    // drop requested
    let mut e = world.at(i);
    e.drop_item = Some(DropItem);
    world.set(i, e);
    run_tick(&stages, &mut world, &res);
    assert_eq!(world.at(i).drop_item, None);
    assert_eq!(world.at(p).inventory, Some(Inventory(None)));
    assert_eq!(world.at(i).marker, ItemMarker::Dropped(ItemDropped { player: p }));
    // not thrown yet
    assert!(world.at(i).body.unwrap().is_deactivated);
    assert!(world.at(i).attachment.is_some());

    // next tick: the throw fires
    run_tick(&stages, &mut world, &res);
    let e = world.at(i);
    assert_eq!(e.marker, ItemMarker::Unmarked);
    assert_eq!(e.attachment, None);
    let body = e.body.unwrap();
    assert!(!body.is_deactivated);
    // stick sideways, level: the fast throw, mirrored because the player looks left
    assert_eq!(body.velocity, Vec2 { x: -1562, y: 1250 });
    assert_eq!(body.angular_velocity, -100);
    assert_eq!(world.at(p).inventory, Some(Inventory(None)));

    // and fires only once
    let after = world.entities.clone();
    run_tick(&stages, &mut world, &res);
    assert_eq!(world.entities, after);
    assert!(world.commands.is_empty());
}

#[test]
fn item_install_registers_schemas_and_systems() {
    let mut session = SessionBuilder::new();
    jumpy_core::item::install(&mut session);
    jumpy_core::item::install(&mut session);
    assert_eq!(
        session.schemas.schemas,
        vec![Schema::Item, Schema::ItemThrow, Schema::ItemGrab, Schema::DropItem, Schema::ItemUsed]
    );
    assert!(session.schemas.contains(Schema::ItemUsed));
    assert!(!session.schemas.contains(Schema::KickBombMeta));
    let once = vec![SystemId::GrabItems, SystemId::DropItems, SystemId::ThrowDroppedItems];
    let twice: Vec<SystemId> = once.iter().chain(once.iter()).copied().collect();
    assert_eq!(session.stages.last, twice);
}

#[test]
fn last_grab_by_a_player_decides_the_fin_animation() {
    let mut world = World::new();
    let first = world.spawn({
        let mut e = item(1_000, 0);
        e.item_grab = Some(ItemGrab { fin_anim: AnimName { id: 11 }, grab_offset: Vec2 { x: 1, y: 1 }, sync_animation: false });
        e
    });
    let holder = world.spawn(player(0, false));
    let second = world.spawn({
        let mut e = item(1_000, 0);
        e.item_grab = Some(ItemGrab { fin_anim: AnimName { id: 22 }, grab_offset: Vec2 { x: 2, y: 2 }, sync_animation: true });
        e
    });
    for i in [first, second] {
        let mut e = world.at(i);
        e.marker = ItemMarker::Grabbed(ItemGrabbed { player: holder });
        world.set(i, e);
    }
    grab_items(&mut world);
    for i in [first, second] {
        assert_eq!(world.at(i).marker, ItemMarker::Unmarked);
        assert!(world.at(i).body.unwrap().is_deactivated);
        assert_eq!(world.at(i).attachment.map(|a| a.player), Some(holder));
    }
    assert_eq!(world.at(first).attachment.unwrap().offset, Vec3 { x: 1, y: 1, z: 1 });
    assert_eq!(world.at(second).attachment.unwrap().offset, Vec3 { x: 2, y: 2, z: 1 });
    assert_eq!(world.at(holder).player_layers, Some(PlayerLayers { fin_anim: AnimName { id: 22 } }));
}

#[test]
fn item_held_in_two_seats_is_dropped_by_the_lowest() {
    let mut world = World::new();
    let high = world.spawn(player(2, false));
    let low = world.spawn(player(1, false));
    let shared = world.spawn({
        let mut e = item(1_000, 0);
        e.drop_item = Some(DropItem);
        e
    });
    for p in [high, low] {
        let mut e = world.at(p);
        e.inventory = Some(Inventory(Some(shared)));
        world.set(p, e);
    }
    let inv = PlayerInventories::get_state(&world);
    drop_items(&mut world, &inv);
    assert_eq!(world.at(shared).drop_item, None);
    assert_eq!(world.commands, vec![Command::SetInventory { player: low, item: None }]);
    let res = res_with_controls(vec![]);
    apply_commands(&mut world, &res);
    assert_eq!(world.at(low).inventory, Some(Inventory(None)));
    assert_eq!(world.at(high).inventory, Some(Inventory(Some(shared))));
    assert_eq!(world.at(shared).marker, ItemMarker::Dropped(ItemDropped { player: low }));
}
