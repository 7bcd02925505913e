use spacetime::anim::{AnimLibrary, ClipId, ClipInput, ClipPlay, ClipState, Motion};
use spacetime::assets::catalog::AdventurerClass;
use spacetime::assets::texture::{to_rgba8, PixelFormat};
use spacetime::assets::material::{
    all_materials, block_material, decode_albedo, fit_albedo, MatCache, Material, MATERIAL_COUNT,
};
use spacetime::input::{InputEdges, InputState};
use spacetime::items::catalog::{ItemId, BAG_SLOTS, COAL, IRON, ORE, RAW_MEAT, STICK, STONE, WOOD};
use spacetime::items::codec::{decode_slots, encode_slots};
use spacetime::items::logic::{count_item, insert_stack, step_furnace, take_inputs};
use spacetime::items::recipe::{recipe_by_id, recipes, recipes_for, smelt_of, CraftStation};
use spacetime::items::stack::{empty_slots, Stack};
use spacetime::items::station::StationKind;
use spacetime::meshes::ItemMeshes;
use spacetime::pause::{PauseHit, PauseMenu, PausePage, PauseResult, SettingsTab};
use spacetime::pause_view::{pause_buttons, pause_texts, PauseText};
use spacetime::hud::{slot_frames, FrameKind};
use spacetime::item_input::{item_input_step, ItemAction};
use spacetime::rpg::{equip_kind, equip_label, harvest_skill, EquipKind, Hero, SkillId, StatId};
use spacetime::scene::{ModelHandle, ObjectId};
use spacetime::server::{
    catch_up_station, drop_selected, pack_bag, pickup_loot, select_slot, swap_slots, unpack_bag, InventoryRow,
    LootRow, StationRow,
};
use spacetime::settings::{keycode_from_name, keycode_label, keycode_token, Action, KeyCode, Quality, Settings};
use spacetime::store::{LocalStore, SlotRef};
use spacetime::ui::{bag_cursor, ItemUi};
use spacetime::voxel::chunk::{terrain_block, Chunk, ChunkCoord};
use spacetime::voxel::materials::Block;
use spacetime::world_sync::{station_meshes, WorldSync};

fn bag_total(s: &LocalStore, item: u16) -> u32 {
    s.bag.iter().filter(|x| x.item == ItemId(item)).map(|x| x.count as u32).sum()
}

#[test]
fn place_ids_map_to_blocks() {
    assert_eq!(Block::from_place_id(4), Some(Block::Wood));
    assert_eq!(Block::from_place_id(9), Some(Block::Brick));
    assert_eq!(Block::from_place_id(11), Some(Block::Plank));
    assert_eq!(Block::from_place_id(0), None);
    assert!(Block::Stone.is_solid());
    assert!(!Block::Water.is_solid());
}

#[test]
fn roundtrip_tokens() {
    for a in Action::all() {
        let tok = keycode_token(a.default_key());
        assert_eq!(keycode_from_name(tok), Some(a.default_key()));
    }
}

#[test]
fn spending_caps_and_grants_hp() {
    let mut h = Hero::new();
    let hp = h.max_hp();
    assert!(h.spend(StatId::Vit));
    assert_eq!(h.vit, 6);
    assert!(h.max_hp() > hp);
    h.unspent = 0;
    assert!(!h.spend(StatId::Str));
}

#[test]
fn skill_xp_levels_up() {
    let mut h = Hero::new();
    h.add_skill_xp(SkillId::Mining, 10_000);
    assert!(h.skills[0].level > 1);
    assert!(h.level >= 1);
}

#[test]
fn craft_sticks_and_pickup() {
    let mut s = LocalStore::new();
    s.give(ItemId(WOOD), 2);
    assert!(s.craft(1));
    assert_eq!(bag_total(&s, STICK), 2);
    let id = s.spawn_loot(Stack::new(ItemId(COAL), 3));
    assert!(s.pickup(id));
    assert_eq!(bag_total(&s, COAL), 3);
}

#[test]
fn drop_and_repickup() {
    let mut s = LocalStore::new();
    s.give(ItemId(STONE), 2);
    s.select(0);
    let id = s.drop_selected();
    assert!(id.is_some());
    assert_eq!(s.loot.len(), 1);
    assert!(s.pickup(id.unwrap()));
    assert!(s.loot.is_empty());
}

#[test]
fn chest_transfer() {
    let mut s = LocalStore::new();
    s.give(ItemId(WOOD), 4);
    let id = s.spawn_station(StationKind::Chest);
    s.toggle_station(id);
    assert!(s.transfer_selected(true));
    let st = s.stations.iter().find(|x| x.id == id).unwrap();
    assert_eq!(st.slots[0].item, ItemId(WOOD));
    assert_eq!(st.slots[0].count, 4);
}

#[test]
fn nearby_same_item_merges_and_grows() {
    let mut s = LocalStore::new();
    let a = s.spawn_loot(Stack::new(ItemId(WOOD), 3));
    let b = s.spawn_loot(Stack::new(ItemId(WOOD), 5));
    s.merge_nearby_loot(&[(a, b)]);
    assert_eq!(s.view().loot.len(), 1);
    assert_eq!(s.view().loot[0].stack.count, 8);
    assert_eq!(ItemId(WOOD).visual_mesh(8), "Wood_Log_B");
    assert_eq!(ItemId(WOOD).visual_mesh(1), "Wood_Log_A");
}

#[test]
fn slot_codec_roundtrip_and_padding() {
    let slots = vec![Stack::new(ItemId(WOOD), 12), Stack::empty(), Stack::new(ItemId(COAL), 6)];
    let packed = encode_slots(&slots);
    assert_eq!(packed, "1:12|0:0|4:6");
    let back = decode_slots(&packed, 5);
    assert_eq!(back.len(), 5);
    assert_eq!(back[0], Stack::new(ItemId(WOOD), 12));
    assert!(back[1].is_empty());
    assert_eq!(back[2], Stack::new(ItemId(COAL), 6));
    assert!(back[3].is_empty() && back[4].is_empty());
    let bag = unpack_bag(&pack_bag(&slots));
    assert_eq!(bag.len(), BAG_SLOTS);
    assert_eq!(bag[2], Stack::new(ItemId(COAL), 6));
}

#[test]
fn garbage_slots_decode_empty() {
    let back = decode_slots("x:1|2:y|+3:4", 3);
    assert!(back[0].is_empty());
    assert!(back[1].is_empty());
    assert_eq!(back[2], Stack::new(ItemId(3), 4));
}

#[test]
fn insert_conserves_and_overflows() {
    let mut slots = empty_slots(2);
    let left = insert_stack(&mut slots, Stack::new(ItemId(WOOD), 100));
    assert_eq!(slots[0].count, 64);
    assert_eq!(slots[1].count, 36);
    assert!(left.is_empty());
    let left = insert_stack(&mut slots, Stack::new(ItemId(WOOD), 40));
    assert_eq!(slots[1].count, 64);
    assert_eq!(left.count, 12);
    assert_eq!(count_item(&slots, ItemId(WOOD)), 128);
}

#[test]
fn paying_a_recipe_removes_its_inputs() {
    let mut slots = empty_slots(4);
    insert_stack(&mut slots, Stack::new(ItemId(WOOD), 3));
    let sticks = recipe_by_id(1).unwrap();
    assert!(take_inputs(&mut slots, &sticks));
    assert_eq!(count_item(&slots, ItemId(WOOD)), 2);
    let mut none = empty_slots(4);
    assert!(!take_inputs(&mut none, &sticks));
    assert!(recipe_by_id(999).is_none());
}

#[test]
fn furnace_smelts_ore_with_coal() {
    let smelt = smelt_of(ItemId(ORE)).unwrap();
    let mut slots = vec![Stack::new(ItemId(ORE), 1), Stack::new(ItemId(COAL), 1), Stack::empty()];
    let mut fuel: u32 = 0;
    let mut cook: u32 = 0;
    let mut ticks = 0;
    while slots[2].is_empty() && ticks < 1000 {
        step_furnace(&mut slots, &mut fuel, &mut cook);
        ticks += 1;
    }
    assert_eq!(slots[2], Stack::new(ItemId(IRON), 1));
    assert!(slots[0].is_empty());
    assert!(ticks as u32 >= smelt.smelt_ticks);
}

#[test]
fn furnace_without_fuel_does_nothing() {
    let mut slots = vec![Stack::new(ItemId(ORE), 1), Stack::empty(), Stack::empty()];
    let mut fuel: u32 = 0;
    let mut cook: u32 = 0;
    step_furnace(&mut slots, &mut fuel, &mut cook);
    assert_eq!(slots[0], Stack::new(ItemId(ORE), 1));
    assert_eq!((fuel, cook), (0, 0));
}

#[test]
fn settings_text_roundtrip() {
    let mut s = Settings::default();
    s.vsync = false;
    s.width = 2560;
    s.height = 1440;
    s.quality = Quality::Ultra;
    s.brightness = 120;
    s.set_key(Action::Jump, KeyCode::KeyJ);
    let text = s.to_text();
    let back = Settings::from_text(&text);
    assert!(!back.vsync);
    assert_eq!((back.width, back.height), (2560, 1440));
    assert_eq!(back.quality, Quality::Ultra);
    assert_eq!(back.brightness, 120);
    assert_eq!(back.key(Action::Jump), KeyCode::KeyJ);
    assert_eq!(back.binds, s.binds);
}

#[test]
fn settings_text_format() {
    let text = Settings::default().to_text();
    assert!(text.starts_with("# spacetime settings"));
    assert!(text.contains("\nvsync=1\n"));
    assert!(text.contains("\nwidth=1280\n"));
    assert!(text.contains("\nquality=2\n"));
    assert!(text.contains("\nbind.forward=KeyW\n"));
    assert!(text.ends_with("bind.recipe_next=BracketRight\n"));
}

#[test]
fn settings_text_tolerates_noise() {
    let text = "  # comment\r\n\nvsync = TRUE \r\nfullscreen=yes\nwidth=+800\nheight=-5\nbrightness=255\nmouse_sens=10\nquality=7\nbind.jump = KeyZ\nbind.nothing=KeyX\nbind.drop=NoSuchKey\nno equals here\n";
    let s = Settings::from_text(text);
    assert!(s.vsync);
    assert!(!s.fullscreen);
    assert_eq!(s.width, 800);
    assert_eq!(s.height, 720);
    assert_eq!(s.brightness, 150);
    assert_eq!(s.mouse_sens, 50);
    assert_eq!(s.quality, Quality::High);
    assert_eq!(s.key(Action::Jump), KeyCode::KeyZ);
    assert_eq!(s.key(Action::Drop), KeyCode::KeyG);
}

#[test]
fn rebinding_unbinds_the_old_holder() {
    let mut s = Settings::default();
    s.set_key(Action::Jump, KeyCode::KeyW);
    assert_eq!(s.key(Action::Jump), KeyCode::KeyW);
    assert_eq!(s.key(Action::Forward), KeyCode::F24);
    assert!(s.matches(Action::Sprint, KeyCode::ShiftRight));
}

#[test]
fn key_press_is_an_edge_once() {
    let settings = Settings::default();
    let mut input = InputState::default();
    input.handle_key(&settings, KeyCode::KeyE, true);
    assert!(input.interact);
    let first: InputEdges = input.consume_edges();
    assert!(first.interact);
    let second = input.consume_edges();
    assert!(!second.interact);
    assert!(input.interact);
    input.handle_key(&settings, KeyCode::Digit3, true);
    input.add_wheel(1);
    let third = input.consume_edges();
    assert_eq!(third.hotbar, Some(2));
    assert_eq!(third.wheel, -1);
    let fourth = input.consume_edges();
    assert_eq!(fourth.hotbar, None);
    assert_eq!(fourth.wheel, 0);
}

#[test]
fn sprint_aliases_and_release() {
    let settings = Settings::default();
    let mut input = InputState::default();
    input.handle_key(&settings, KeyCode::ShiftRight, true);
    assert!(input.sprint);
    input.handle_key(&settings, KeyCode::ShiftRight, false);
    assert!(!input.sprint);
    input.set_lmb(true);
    assert!(input.consume_edges().lmb);
    input.toggle_mouse_capture();
    assert!(input.mouse_captured);
}

#[test]
fn clip_choice_walks_jumps_and_sits() {
    let mut st = ClipState::new();
    let ground = ClipInput {
        is_local: true,
        sit_toggle: false,
        attack: false,
        interact: false,
        grounded: true,
        current: None,
        motion: Motion::Back,
    };
    let walk = st.choose_clip(ground);
    assert_eq!(walk, Some(ClipPlay { clip: ClipId::Walk, looping: true, rate_milli: -1000, blend_ms: 120 }));
    let jump = st.choose_clip(ClipInput { grounded: false, ..ground });
    assert_eq!(jump.unwrap().clip, ClipId::JumpStart);
    let land = st.choose_clip(ground);
    assert_eq!(land.unwrap().clip, ClipId::JumpLand);
    let sit = st.choose_clip(ClipInput { sit_toggle: true, ..ground });
    assert_eq!(sit.unwrap().clip, ClipId::Idle);
    assert!(st.sitting);
    assert_eq!(st.choose_clip(ClipInput { attack: true, ..ground }).unwrap().clip, ClipId::Idle);
}

#[test]
fn attack_plays_once_until_done() {
    let mut st = ClipState::new();
    let input = ClipInput {
        is_local: true,
        sit_toggle: false,
        attack: true,
        interact: false,
        grounded: true,
        current: None,
        motion: Motion::Still,
    };
    assert_eq!(st.choose_clip(input).unwrap().clip, ClipId::Attack);
    assert_eq!(st.choose_clip(input), None);
    st.set_oneshot_done(true);
    assert_eq!(st.choose_clip(input).unwrap().clip, ClipId::Attack);
    assert_eq!(ClipId::Attack.key(), "Use_Item");
}

#[test]
fn adventurer_paths() {
    assert_eq!(AdventurerClass::RogueHooded.glb_path(), "assets/kaykit/characters/Rogue_Hooded.glb");
    assert_eq!(AdventurerClass::Rogue.default_weapon(), "assets/kaykit/weapons/dagger.gltf");
    assert_eq!(AdventurerClass::Knight.display_name(), "Knight");
    assert_eq!(AdventurerClass::all().len(), 6);
}

#[test]
fn material_cache_lookups() {
    let mut loaded = Vec::new();
    for (i, def) in all_materials().iter().enumerate() {
        if def.name == "stone" || def.name == "brick" {
            loaded.push(Some((2, 1, vec![i as u8; 8])));
        } else {
            loaded.push(None);
        }
    }
    let cache = MatCache::load(loaded);
    assert!(cache.named("stone").is_some());
    assert!(cache.named("grass").is_none());
    assert!(cache.named("nope").is_none());
    assert!(cache.block(Block::Stone).is_some());
    assert!(cache.block(Block::Air).is_none());
    assert_eq!(cache.or_solid("grass", [1, 2, 3, 4]), (1, 1, vec![1, 2, 3, 4]));
    assert_eq!(cache.or_solid("brick", [0; 4]).0, 2);
    assert_eq!(block_material(Block::Plank).unwrap().name, "planks");
    assert_eq!(Material::at(MATERIAL_COUNT - 1).def().name, "sand");
}

#[test]
fn meshes_pick_tier_then_icon() {
    let h = |n: u32| ModelHandle(n);
    let mut m = ItemMeshes::new(h(1), h(2), h(3), h(4), h(5));
    m.by_item.insert(WOOD, h(10));
    m.add_mesh("Wood_Log_B", h(11));
    m.add_mesh("Wood_Log_B", h(12));
    assert_eq!(m.visual(ItemId(WOOD), 8), Some(h(11)));
    assert_eq!(m.visual(ItemId(WOOD), 1), Some(h(10)));
    assert_eq!(m.item(ItemId(COAL)), None);
    m.block_by_item.insert(WOOD, h(20));
    assert_eq!(m.block_of(ItemId(WOOD)), Some(h(20)));
    let chest = station_meshes(&m, StationKind::Chest);
    assert_eq!((chest.body, chest.lid, chest.ember), (h(1), Some(h(2)), None));
    let furnace = station_meshes(&m, StationKind::Furnace);
    assert_eq!((furnace.body, furnace.lid, furnace.ember), (h(3), None, Some(h(4))));
}

#[test]
fn world_sync_prunes_dead_loot() {
    let mut w = WorldSync::new();
    w.track_loot(1, ObjectId(100));
    w.track_loot(2, ObjectId(200));
    w.track_loot(3, ObjectId(300));
    let mut gone = w.prune_loot(&[2]);
    gone.sort_by_key(|g| g.0);
    assert_eq!(gone, vec![(1, ObjectId(100)), (3, ObjectId(300))]);
    assert_eq!(w.loot_node(2), Some(ObjectId(200)));
    assert_eq!(w.loot_node(1), None);
    assert!(!w.shows_station(7));
    w.track_station(7, ObjectId(9));
    assert!(w.shows_station(7));
}

#[test]
fn bag_cursor_wraps_columns_and_stops_rows() {
    assert_eq!(bag_cursor(0, -1, 0), 8);
    assert_eq!(bag_cursor(8, 1, 0), 0);
    assert_eq!(bag_cursor(4, 0, -1), 4);
    assert_eq!(bag_cursor(31, 0, 1), 31);
    assert_eq!(bag_cursor(100, 0, 0), 35);
    assert_eq!(bag_cursor(13, 1, 1), 23);
}

#[test]
fn server_seeds_once_and_welcomes() {
    let seed = spacetime::server::seed_world(false).unwrap();
    assert_eq!(seed.stations.len(), 3);
    assert_eq!(seed.stations[0].kind, StationKind::Chest.as_u8());
    assert!(spacetime::server::seed_world(true).is_none());
    let starter = spacetime::server::give_starter(false).unwrap();
    assert_eq!(starter.selected, 0);
    assert!(spacetime::server::give_starter(true).is_none());
    let c = spacetime::server::client_connected(true, true, false, "0123456789abcdef");
    assert_eq!(c.new_player_name.as_deref(), Some("Player-01234567"));
    assert!(c.seed.is_none() && c.starter.is_none());
}

#[test]
fn server_pickup_drop_and_swap() {
    let mut inv = InventoryRow { slots: String::new(), selected: 0 };
    let left = pickup_loot(&mut inv, LootRow { id: 1, item_id: STONE, count: 3 });
    assert!(left.is_empty());
    assert!(inv.slots.starts_with("2:3|0:0"));
    swap_slots(&mut inv, 0, 5);
    assert!(inv.slots.starts_with("0:0|0:0|0:0|0:0|0:0|2:3"));
    select_slot(&mut inv, 200);
    assert_eq!(inv.selected, 35);
    select_slot(&mut inv, 5);
    let one = drop_selected(&mut inv);
    assert_eq!(one, Some(Stack::new(ItemId(STONE), 1)));
    assert!(inv.slots.contains("|2:2|"));
}

#[test]
fn server_furnace_catch_up() {
    let row = StationRow { id: 9, kind: StationKind::Furnace.as_u8(), slots: "3:1|4:1|0:0".to_string(), fuel: 0, cook: 0, last_tick: 0 };
    let later = catch_up_station(row, 10_000_000);
    assert_eq!(later.last_tick, 10_000_000);
    assert!(later.slots.ends_with("5:1"));
    let idle = StationRow { id: 2, kind: StationKind::Chest.as_u8(), slots: "1:1".to_string(), fuel: 0, cook: 0, last_tick: 0 };
    let same = catch_up_station(idle, 10_000_000);
    assert_eq!((same.slots.as_str(), same.last_tick), ("1:1", 0));
}

#[test]
fn moving_between_bag_and_chest_keeps_items() {
    let mut s = LocalStore::new();
    s.give(ItemId(WOOD), 10);
    let id = s.spawn_station(StationKind::Chest);
    s.toggle_station(id);
    assert!(s.move_between(SlotRef::Bag(0), SlotRef::Station(3), true));
    let chest = s.stations.iter().find(|x| x.id == id).unwrap();
    assert_eq!(chest.slots[3], Stack::new(ItemId(WOOD), 1));
    assert_eq!(bag_total(&s, WOOD), 9);
    assert!(s.move_between(SlotRef::Bag(0), SlotRef::Station(3), false));
    let chest = s.stations.iter().find(|x| x.id == id).unwrap();
    assert_eq!(chest.slots[3], Stack::new(ItemId(WOOD), 10));
    assert_eq!(bag_total(&s, WOOD), 0);
}

#[test]
fn full_bag_leaves_the_rest_on_the_ground() {
    let mut s = LocalStore::new();
    for _ in 0..36 {
        s.give(ItemId(STONE), 64);
    }
    let id = s.spawn_loot(Stack::new(ItemId(WOOD), 5));
    assert!(!s.pickup(id));
    assert_eq!(s.loot.len(), 1);
    assert_eq!(s.loot[0].id, id);
    assert_eq!(s.loot[0].stack.count, 5);
    assert_eq!(s.last_log, "inventory full");
}

#[test]
fn chunk_reads_back_writes() {
    let mut c = Chunk::empty(ChunkCoord { x: 0, y: 0, z: 0 });
    c.set(3, 4, 5, Block::Brick);
    assert_eq!(c.get(3, 4, 5), Block::Brick);
    assert_eq!(c.get(4, 4, 5), Block::Air);
    c.set(16, 0, 0, Block::Stone);
    assert_eq!(c.get(16, 0, 0), Block::Air);
    c.fill_column(0, 0, 5, &[false; 16]);
    assert_eq!(c.get(0, 5, 0), Block::Grass);
    assert_eq!(c.get(0, 4, 0), Block::Dirt);
    assert_eq!(c.get(0, 1, 0), Block::Stone);
    assert_eq!(c.get(0, 6, 0), Block::Air);
    assert_eq!(terrain_block(0, 5, true), Block::Iron);
}

#[test]
fn wire_ids_round_trip() {
    for v in 0..=13u8 {
        assert_eq!(Block::from_u8(v).as_u8(), v);
    }
    for k in [StationKind::Chest, StationKind::Furnace, StationKind::Workbench] {
        assert_eq!(StationKind::from_u8(k.as_u8()), k);
    }
    for q in [Quality::Low, Quality::Medium, Quality::High, Quality::Ultra] {
        assert_eq!(Quality::from_u8(q.as_u8()), q);
    }
    for a in Action::all() {
        assert_eq!(Action::at(a.index()), a);
    }
    assert_eq!(Block::Wood.drops(), Some((ItemId(WOOD), 1)));
    assert_eq!(Block::from_place_id(4).unwrap().drops().unwrap().0, ItemId(WOOD));
}

#[test]
fn pause_menu_flow_and_rebind() {
    let mut settings = Settings::default();
    let mut menu = PauseMenu::default();
    menu.toggle();
    assert!(menu.open);
    assert_eq!(menu.page, PausePage::Root);
    let out = menu.click(&mut settings, PauseHit::Exit);
    assert_eq!(out.result, PauseResult::Nothing);
    assert_eq!(menu.page, PausePage::ConfirmExit);
    assert_eq!(menu.click(&mut settings, PauseHit::ConfirmYes).result, PauseResult::Exit);
    menu.click(&mut settings, PauseHit::OpenSettings);
    menu.click(&mut settings, PauseHit::Bind(Action::Jump));
    assert_eq!(menu.waiting, Some(Action::Jump));
    assert!(menu.capture_rebind(&mut settings, KeyCode::KeyF));
    assert_eq!(settings.key(Action::Jump), KeyCode::KeyF);
    assert_eq!(menu.waiting, None);
    menu.click(&mut settings, PauseHit::Bind(Action::Drop));
    assert!(!menu.capture_rebind(&mut settings, KeyCode::Escape));
    assert_eq!(settings.key(Action::Drop), KeyCode::KeyG);
    let out = menu.click(&mut settings, PauseHit::Brightness(80));
    assert!(out.save);
    assert_eq!(settings.brightness, 150);
    assert_eq!(menu.click(&mut settings, PauseHit::Resume).result, PauseResult::Resume);
    assert!(!menu.open);
}

#[test]
fn item_ui_panels_and_hotbar() {
    let mut ui = ItemUi::default();
    ui.toggle_bag();
    assert!(ui.bag_open);
    ui.on_station_opened();
    assert!(ui.bag_open && !ui.focus_station);
    ui.focus_station = true;
    ui.toggle_bag();
    assert!(!ui.bag_open && !ui.focus_station);
    assert_eq!(ItemUi::next_hotbar(0, -1), 8);
    assert_eq!(ItemUi::next_hotbar(8, 1), 0);
    assert_eq!(ItemUi::bag_index(3, 8), 35);
    assert_eq!(ItemUi::bag_index(5, 0), 35);
}

#[test]
fn hero_stats_and_equipment() {
    let h = Hero::new();
    assert_eq!(h.max_hp(), 120);
    assert_eq!(h.max_stam(), 75);
    assert_eq!(h.carry(), 60);
    assert_eq!(h.next_level(), 120);
    assert_eq!(h.stat(StatId::Dex), 5);
    assert_eq!(StatId::from_u8(3), Some(StatId::Vit));
    assert_eq!(StatId::from_u8(9), None);
    assert_eq!(SkillId::from_u8(1), Some(SkillId::Woodcutting));
    assert_eq!(equip_kind(4), EquipKind::Weapon);
    assert_eq!(equip_kind(6), EquipKind::Nothing);
    assert_eq!(equip_label(0), "HEAD");
    assert_eq!(harvest_skill(ItemId(COAL)), Some((SkillId::Mining, 4)));
    assert_eq!(harvest_skill(ItemId(IRON)), None);
    let mut capped = Hero::new();
    capped.unspent = 100;
    for _ in 0..30 {
        capped.spend(StatId::Str);
    }
    assert_eq!(capped.str, 20);
}

#[test]
fn recipe_book_by_station() {
    let all = recipes();
    let bench = recipes_for(CraftStation::Workbench);
    let furnace = recipes_for(CraftStation::Furnace);
    let hand = recipes_for(CraftStation::Hand);
    assert_eq!(bench.len() + furnace.len() + hand.len(), all.len());
    assert!(furnace.iter().all(|r| r.smelt_ticks > 0));
    assert_eq!(recipe_by_id(16).unwrap().output.count, 2);
    assert!(smelt_of(ItemId(WOOD)).is_none());
}

#[test]
fn store_workbench_crafting_and_swap() {
    let mut s = LocalStore::with_default_world();
    assert_eq!(s.stations.len(), 3);
    assert_eq!(s.loot.len(), 5);
    assert!(!s.craft(16));
    let bench = s.stations.iter().find(|x| x.kind == StationKind::Workbench).unwrap().id;
    assert!(s.toggle_station(bench));
    s.give(ItemId(WOOD), 1);
    assert!(s.craft(16));
    s.swap(0, 1);
    s.swap(0, 1);
    assert!(s.available_recipes().iter().any(|r| r.id == 16));
    s.cycle_recipe(-1);
    assert!(s.recipe_cursor < s.available_recipes().len());
    s.close_station();
    assert_eq!(s.open_station, None);
}

#[test]
fn anim_library_stands_in_missing_variants() {
    let mut lib = AnimLibrary::new();
    assert_eq!(lib.add("Walking_B"), 0);
    assert_eq!(lib.add("Idle_B"), 1);
    assert_eq!(lib.add("Walking_B"), 0);
    assert_eq!(lib.len(), 2);
    assert_eq!(lib.get("Walking_A"), Some(0));
    assert_eq!(lib.get_id(ClipId::Idle), Some(1));
    assert_eq!(lib.get_id(ClipId::Run), None);
    assert!(!lib.contains("Hit_A"));
    assert_eq!(lib.add("Walking_A"), 2);
    assert_eq!(lib.get("Walking_A"), Some(2));
    assert_eq!(lib.index_of("Idle_A"), None);
}

#[test]
fn server_craft_smelts_next_to_a_furnace() {
    let mut bag = empty_slots(BAG_SLOTS);
    bag[0] = Stack::new(ItemId(ORE), 5);
    bag[1] = Stack::new(ItemId(COAL), 5);
    bag[2] = Stack::new(ItemId(WOOD), 3);
    let packed = pack_bag(&bag);
    let total = |slots: &str, item: u16| -> u32 {
        unpack_bag(slots).iter().filter(|x| x.item == ItemId(item)).map(|x| x.count as u32).sum()
    };
    let mut inv = InventoryRow { slots: packed.clone(), selected: 0 };
    let chest = [StationKind::Chest.as_u8()];
    assert!(!spacetime::server::craft(&mut inv, 10, &chest));
    assert_eq!(inv.slots, packed);
    let furnace = [StationKind::Furnace.as_u8()];
    assert!(spacetime::server::craft(&mut inv, 10, &furnace));
    assert_eq!(total(&inv.slots, ORE), 4);
    assert_eq!(total(&inv.slots, IRON), 1);
    assert!(spacetime::server::craft(&mut inv, 1, &furnace));
    assert_eq!(total(&inv.slots, STICK), 2);
    assert_eq!(total(&inv.slots, WOOD), 2);
}

#[test]
fn server_swap_twice_restores_the_bag() {
    let mut bag = empty_slots(BAG_SLOTS);
    bag[0] = Stack::new(ItemId(ORE), 5);
    bag[7] = Stack::new(ItemId(COAL), 2);
    let mut inv = InventoryRow { slots: pack_bag(&bag), selected: 3 };
    swap_slots(&mut inv, 0, 7);
    assert_eq!(unpack_bag(&inv.slots)[7], Stack::new(ItemId(ORE), 5));
    assert_eq!(unpack_bag(&inv.slots)[0], Stack::new(ItemId(COAL), 2));
    swap_slots(&mut inv, 0, 7);
    assert_eq!(unpack_bag(&inv.slots), bag);
    swap_slots(&mut inv, 0, 40);
    assert_eq!(unpack_bag(&inv.slots), bag);
    assert_eq!(inv.selected, 3);
}

#[test]
fn move_to_missing_slot_is_refused() {
    let mut s = LocalStore::new();
    s.give(ItemId(WOOD), 4);
    assert!(!s.move_between(SlotRef::Bag(0), SlotRef::Bag(99), false));
    assert!(!s.move_between(SlotRef::Bag(0), SlotRef::Station(0), false));
    assert_eq!(s.bag[0], Stack::new(ItemId(WOOD), 4));
    assert_eq!(bag_total(&s, WOOD), 4);
}

#[test]
fn move_one_onto_full_stack_keeps_the_item() {
    let mut s = LocalStore::new();
    s.give(ItemId(WOOD), 65);
    assert_eq!(s.bag[0].count, 64);
    assert_eq!(s.bag[1], Stack::new(ItemId(WOOD), 1));
    assert!(s.move_between(SlotRef::Bag(1), SlotRef::Bag(0), true));
    assert_eq!(s.bag[0].count, 64);
    assert_eq!(s.bag[1], Stack::new(ItemId(WOOD), 1));
    assert_eq!(bag_total(&s, WOOD), 65);
    assert!(s.move_between(SlotRef::Bag(1), SlotRef::Bag(5), true));
    assert_eq!(s.bag[1], Stack::empty());
    assert_eq!(s.bag[5], Stack::new(ItemId(WOOD), 1));
    assert_eq!(bag_total(&s, WOOD), 65);
}

#[test]
fn seeded_stations_start_cold() {
    let seed = spacetime::server::seed_world(false).unwrap();
    let kinds: Vec<u8> = seed.stations.iter().map(|s| s.kind).collect();
    assert_eq!(
        kinds,
        vec![StationKind::Chest.as_u8(), StationKind::Furnace.as_u8(), StationKind::Workbench.as_u8()]
    );
    assert_eq!(kinds, vec![0, 1, 2]);
    assert!(seed.stations.iter().all(|s| s.fuel == 0 && s.cook == 0));
}

#[test]
fn starter_bag_holds_the_kit() {
    let starter = spacetime::server::give_starter(false).unwrap();
    let bag = unpack_bag(&starter.slots);
    let total = |item: u16| -> u32 { bag.iter().filter(|x| x.item == ItemId(item)).map(|x| x.count as u32).sum() };
    assert_eq!(total(WOOD), 12);
    assert_eq!(total(STONE), 8);
    assert_eq!(total(COAL), 6);
    assert_eq!(total(ORE), 4);
    assert_eq!(total(RAW_MEAT), 2);
    assert_eq!(total(STICK), 4);
    assert_eq!(bag.len(), BAG_SLOTS);
}

#[test]
fn insert_keeps_slots_within_their_cap() {
    let mut slots = empty_slots(2);
    let left = insert_stack(&mut slots, Stack::new(ItemId(WOOD), 150));
    assert_eq!(slots[0], Stack::new(ItemId(WOOD), 64));
    assert_eq!(slots[1], Stack::new(ItemId(WOOD), 64));
    assert_eq!(left, Stack::new(ItemId(WOOD), 22));
}

#[test]
fn decode_reads_unparsable_parts_as_empty() {
    let out = decode_slots("5:2|x|3|1:+4|2:", 6);
    assert_eq!(out.len(), 6);
    assert_eq!(out[0], Stack::new(ItemId(IRON), 2));
    assert_eq!(out[1], Stack::empty());
    assert_eq!(out[2], Stack::empty());
    assert_eq!(out[3], Stack::new(ItemId(WOOD), 4));
    assert_eq!(out[4], Stack::empty());
    assert_eq!(out[5], Stack::empty());
    assert_eq!(decode_slots("1:3|2:4|3:5", 2).len(), 2);
    assert_eq!(
        decode_slots("5:2|x|3", 4),
        vec![Stack::new(ItemId(IRON), 2), Stack::empty(), Stack::empty(), Stack::empty()]
    );
}

#[test]
fn block_and_named_maps_agree() {
    let mut loaded = Vec::new();
    for i in 0..MATERIAL_COUNT {
        loaded.push(Some((1u32, 1u32, vec![i as u8, 0, 0, 255])));
    }
    let c = MatCache::load(loaded);
    for b in [Block::Air, Block::Grass, Block::Stone, Block::Plank, Block::Tiles, Block::Water] {
        let by_name = block_material(b).and_then(|d| c.named(d.name));
        assert_eq!(c.block(b), by_name);
    }
    assert!(c.block(Block::Air).is_none());
    assert_eq!(c.block(Block::Stone).unwrap().2[0], Material::Stone.index() as u8);
}

fn tiny_png(w: u32, h: u32) -> Vec<u8> {
    let img = image::RgbaImage::from_fn(w, h, |x, y| image::Rgba([x as u8 * 10, y as u8 * 20, 7, 255]));
    let mut buf = Vec::new();
    img.write_to(&mut std::io::Cursor::new(&mut buf), image::ImageFormat::Png).unwrap();
    buf
}

#[test]
fn albedo_decodes_png_bytes() {
    let png = tiny_png(2, 1);
    let (w, h, px) = decode_albedo(&png).unwrap();
    assert_eq!((w, h), (2, 1));
    assert_eq!(px, vec![0, 0, 7, 255, 10, 0, 7, 255]);
    assert!(decode_albedo(b"not an image").is_none());
    assert!(decode_albedo(&[]).is_none());
}

#[test]
fn albedo_fits_within_max_dim() {
    let small = vec![1u8, 2, 3, 4, 5, 6, 7, 8];
    assert_eq!(fit_albedo(2, 1, small.clone(), 1, 1), (2, 1, small));
    let edge = vec![9u8; 4 * 512];
    assert_eq!(fit_albedo(512, 1, edge.clone(), 3, 3), (512, 1, edge));
    let big = vec![200u8; 4 * 600];
    let (w, h, px) = fit_albedo(600, 1, big, 512, 1);
    assert_eq!((w, h), (512, 1));
    assert_eq!(px.len(), 4 * 512);
}

#[test]
fn texture_pixels_expand_to_rgba() {
    assert_eq!(to_rgba8(PixelFormat::R8G8B8, &[1, 2, 3, 4, 5, 6]), vec![1, 2, 3, 255, 4, 5, 6, 255]);
    assert_eq!(to_rgba8(PixelFormat::R8, &[9, 40]), vec![9, 9, 9, 255, 40, 40, 40, 255]);
    assert_eq!(to_rgba8(PixelFormat::R8G8, &[7, 100]), vec![7, 7, 7, 100]);
    assert_eq!(to_rgba8(PixelFormat::R8G8B8A8, &[1, 2, 3, 4]), vec![1, 2, 3, 4]);
    assert_eq!(to_rgba8(PixelFormat::Other, &[1, 2, 3, 4, 5, 6, 7, 8]), vec![255, 255, 255, 255]);
    assert!(to_rgba8(PixelFormat::R8G8B8, &[]).is_empty());
}

fn quiet_edges() -> InputEdges {
    InputEdges {
        sit: false,
        interact: false,
        attack: false,
        inventory: false,
        drop: false,
        craft: false,
        transfer: false,
        take: false,
        recipe_prev: false,
        recipe_next: false,
        cursor_left: false,
        cursor_right: false,
        cursor_up: false,
        cursor_down: false,
        debug: false,
        lmb: false,
        rmb: false,
        hotbar: None,
        wheel: 0,
    }
}

#[test]
fn pause_root_buttons_light_under_the_pointer() {
    let menu = PauseMenu::default();
    let settings = Settings::default();
    let b = pause_buttons(&menu, &settings, Some(PauseHit::Exit));
    let labels: Vec<&str> = b.iter().map(|x| x.label).collect();
    assert_eq!(labels, vec!["RESUME", "SETTINGS", "EXIT GAME"]);
    assert_eq!(b.iter().map(|x| x.on).collect::<Vec<_>>(), vec![false, false, true]);
    assert_eq!(b[0].hit, PauseHit::Resume);
    let texts = pause_texts(&menu, &settings);
    assert!(matches!(texts[0], PauseText::Caption("PAUSED")));
    assert_eq!(texts.len(), 2);
}

#[test]
fn pause_key_page_shows_binds_and_waiting() {
    let mut menu = PauseMenu::default();
    let mut settings = Settings::default();
    menu.click(&mut settings, PauseHit::OpenSettings);
    menu.click(&mut settings, PauseHit::Bind(Action::Jump));
    let b = pause_buttons(&menu, &settings, None);
    assert_eq!(b.len(), 3 + 16 + 1);
    assert_eq!(b[0].label, "KEYS");
    assert!(b[0].on && !b[1].on && !b[2].on);
    assert_eq!(b[3].hit, PauseHit::Bind(Action::Forward));
    assert_eq!(b[3].label, keycode_label(settings.key(Action::Forward)));
    assert!(!b[3].on);
    assert_eq!(b[3 + 4].hit, PauseHit::Bind(Action::Jump));
    assert_eq!(b[3 + 4].label, "...");
    assert!(b[3 + 4].on);
    assert_eq!(b[19].label, "BACK");
    let texts = pause_texts(&menu, &settings);
    assert_eq!(texts.len(), 1 + 16 + 1);
    assert!(matches!(texts[1], PauseText::Caption(l) if l == Action::Forward.label()));
}

#[test]
fn pause_display_and_graphics_pages() {
    let mut menu = PauseMenu::default();
    let mut settings = Settings::default();
    menu.click(&mut settings, PauseHit::OpenSettings);
    menu.click(&mut settings, PauseHit::Tab(SettingsTab::Display));
    let b = pause_buttons(&menu, &settings, None);
    assert_eq!(b.len(), 3 + 5 + 1 + 1);
    assert_eq!(b[3].label, "1280 X 720");
    assert!(b[3].on && !b[4].on);
    assert_eq!(b[8].hit, PauseHit::Fullscreen(true));
    assert_eq!(b[8].label, "MODE  WINDOWED");
    menu.click(&mut settings, PauseHit::Tab(SettingsTab::Graphics));
    let b = pause_buttons(&menu, &settings, Some(PauseHit::Sens(5)));
    let labels: Vec<&str> = b.iter().map(|x| x.label).collect();
    assert_eq!(
        labels,
        vec!["KEYS", "DISPLAY", "GRAPHICS", "VSYNC  ON", "LOW", "MEDIUM", "HIGH", "ULTRA", "-", "+", "-", "+", "BACK"]
    );
    assert!(b[6].on && !b[7].on);
    assert!(b[11].on && !b[10].on);
    assert_eq!(b[3].hit, PauseHit::Vsync(false));
    let texts = pause_texts(&menu, &settings);
    assert!(matches!(texts[3], PauseText::Number(100)));
    assert!(matches!(texts[5], PauseText::Number(100)));
}

#[test]
fn pause_hit_testing() {
    let mut menu = PauseMenu::default();
    let mut settings = Settings::default();
    assert_eq!(menu.hit(&settings, 0, 1800), Some(PauseHit::Resume));
    assert_eq!(menu.hit(&settings, 3000, 0), Some(PauseHit::OpenSettings));
    assert_eq!(menu.hit(&settings, 0, -2300), Some(PauseHit::Exit));
    assert_eq!(menu.hit(&settings, 9000, 9000), None);
    assert_eq!(menu.layout(&settings).len(), 3);
    menu.click(&mut settings, PauseHit::OpenSettings);
    assert_eq!(menu.hit(&settings, -1800, 3600), Some(PauseHit::Bind(Action::Forward)));
    assert_eq!(menu.hit(&settings, 5800, 3600), Some(PauseHit::Bind(Action::Attack)));
    assert_eq!(menu.hit(&settings, 0, -6200), Some(PauseHit::Back));
    assert_eq!(menu.hit(&settings, 4200, 5000), Some(PauseHit::Tab(SettingsTab::Graphics)));
}

#[test]
fn hud_frames_follow_selection_and_hand() {
    let mut s = LocalStore::new();
    s.give(ItemId(WOOD), 4);
    let mut ui = ItemUi::default();
    let view = s.view();
    let hot = slot_frames(&view, &ui, true);
    assert_eq!(hot.len(), 9);
    assert_eq!(hot[0].frame, FrameKind::Selected);
    assert_eq!(hot[0].shown, Some(Stack::new(ItemId(WOOD), 4)));
    assert_eq!(hot[1].frame, FrameKind::Plain);
    assert_eq!(hot[1].shown, None);
    assert!(slot_frames(&view, &ui, false).is_empty());
    assert_eq!(ui.click_slot(&view, SlotRef::Bag(0), false), None);
    assert!(ui.hides(SlotRef::Bag(0)));
    assert_eq!(ui.held_stack(&view), Stack::new(ItemId(WOOD), 4));
    assert_eq!(slot_frames(&view, &ui, true)[0].shown, None);
    assert_eq!(ui.click_slot(&view, SlotRef::Bag(5), false), Some((SlotRef::Bag(0), SlotRef::Bag(5), false)));
    assert_eq!(ui.held, None);
    assert_eq!(ui.click_slot(&view, SlotRef::Bag(3), true), None);
    assert_eq!(ui.held, None);
    let id = s.spawn_station(StationKind::Chest);
    s.toggle_station(id);
    ui.toggle_bag();
    let view = s.view();
    let n = view.open_station_view().unwrap().slots.len();
    let rest = slot_frames(&view, &ui, false);
    assert_eq!(rest.len(), 27 + n);
    assert_eq!(rest[0].slot, SlotRef::Bag(9));
    assert_eq!(rest[27].slot, SlotRef::Station(0));
    assert_eq!(rest[27].frame, FrameKind::Station);
}

#[test]
fn item_input_step_drives_the_store() {
    let mut s = LocalStore::new();
    s.give(ItemId(WOOD), 4);
    let mut ui = ItemUi::default();
    let mut e = quiet_edges();
    e.inventory = true;
    e.debug = true;
    let acts = item_input_step(&mut ui, &e, &s.view(), None, true);
    assert_eq!(acts, vec![ItemAction::FreeCursor, ItemAction::PickupNearest]);
    assert!(ui.bag_open && ui.debug);
    let mut e = quiet_edges();
    e.lmb = true;
    assert_eq!(item_input_step(&mut ui, &e, &s.view(), Some(SlotRef::Bag(0)), false), vec![ItemAction::PickupNearest]);
    assert_eq!(ui.held, Some((SlotRef::Bag(0), false)));
    let acts = item_input_step(&mut ui, &e, &s.view(), Some(SlotRef::Bag(4)), false);
    assert_eq!(acts, vec![ItemAction::Move(SlotRef::Bag(0), SlotRef::Bag(4), false), ItemAction::PickupNearest]);
    let mut e = quiet_edges();
    e.wheel = -1;
    e.cursor_down = true;
    e.craft = true;
    e.recipe_next = true;
    let acts = item_input_step(&mut ui, &e, &s.view(), None, false);
    assert_eq!(acts[0], ItemAction::Select(8));
    assert_eq!(acts[1], ItemAction::Select(17));
    assert_eq!(acts[2], ItemAction::CycleRecipe(1));
    assert!(matches!(acts[3], ItemAction::Craft(_)));
    assert_eq!(acts[4], ItemAction::PickupNearest);
    let mut e = quiet_edges();
    e.inventory = true;
    let acts = item_input_step(&mut ui, &e, &s.view(), None, false);
    assert_eq!(acts, vec![ItemAction::CloseStation, ItemAction::PickupNearest]);
    assert!(!ui.bag_open);
}
