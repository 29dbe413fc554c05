use rusty_roguelike::components::EquipmentSlot;
use rusty_roguelike::game_map::{GameMap, TileType};
use rusty_roguelike::map_builders::prefab_rooms::{checkerboard, silly_smile, totally_not_a_trap};
use rusty_roguelike::map_builders::prefab_sections::{
    underground_fort, HorizontalPlacement, VerticalPlacement,
};
use rusty_roguelike::random_table::RandomTable;
use rusty_roguelike::rect::Rect;
use rusty_roguelike::spawner::{
    bear_trap, confusion_scroll, dagger, fireball_scroll, goblin, health_potion, longsword,
    magic_mapping_scroll, magic_missile_scroll, orc, player, rations, room_floor_tiles, room_table,
    shield, spawn_entity, spawn_region, spawn_room, tower_shield,
};

#[test]
fn an_empty_table_takes_only_weighted_entries() {
    let table = RandomTable::new().add("a", 2).add("none", 0).add("b", 3).add("less", -4);
    assert_eq!(table.total_weight, 5);
    assert_eq!(table.entries, vec![("a", 2), ("b", 3)]);
}

#[test]
fn rolls_land_in_their_weight_bands() {
    let table = RandomTable::new().add("a", 2).add("b", 3);
    assert_eq!(table.roll_at(0), "a");
    assert_eq!(table.roll_at(1), "a");
    assert_eq!(table.roll_at(2), "b");
    assert_eq!(table.roll_at(4), "b");
}

#[test]
fn the_room_table_grows_teeth_with_depth() {
    let shallow = room_table(1);
    // 10 + 2 + 7 + 3 + 3 + 4 + 3 + 3 + 10 + 2 + 2, with no swords at depth one.
    assert_eq!(shallow.total_weight, 49);
    assert!(!shallow.entries.iter().any(|e| e.0 == "Longsword"));

    let deep = room_table(3);
    assert!(deep.entries.iter().any(|e| e.0 == "Longsword" && e.1 == 2));
    assert!(deep.entries.iter().any(|e| e.0 == "Orc" && e.1 == 4));
    assert_eq!(deep.entries[0], ("Goblin", 10));
}

#[test]
fn the_player_spawns_well_fed_and_watchful() {
    let b = player(11, 12);
    assert_eq!(b.position.x, 11);
    assert_eq!(b.position.y, 12);
    assert_eq!(b.name, "Player");
    assert!(b.player);
    assert!(!b.monster);
    assert_eq!(b.renderable.glyph, 64);
    assert_eq!(b.renderable.fg, (255, 255, 0));
    assert_eq!(b.viewshed_range, Some(8));
    let stats = b.combat_stats.unwrap();
    assert_eq!((stats.max_hp, stats.hp, stats.defense, stats.power), (30, 30, 2, 5));
    assert_eq!(b.hunger_clock.unwrap().duration, 20);
}

#[test]
fn monsters_block_their_tiles() {
    let o = orc(1, 2);
    assert_eq!(o.name, "Orc");
    assert_eq!(o.renderable.glyph, 111);
    assert!(o.monster && o.blocks_tile);
    let g = goblin(1, 2);
    assert_eq!(g.name, "Goblin");
    assert_eq!(g.renderable.glyph, 103);
    let stats = g.combat_stats.unwrap();
    assert_eq!((stats.max_hp, stats.defense, stats.power), (16, 1, 4));
}

#[test]
fn items_carry_their_effects() {
    assert_eq!(health_potion(0, 0).provides_healing, Some(8));
    let mm = magic_missile_scroll(0, 0);
    assert_eq!((mm.ranged, mm.inflicts_damage), (Some(6), Some(8)));
    let fb = fireball_scroll(0, 0);
    assert_eq!((fb.ranged, fb.inflicts_damage, fb.area_of_effect), (Some(6), Some(20), Some(3)));
    let cs = confusion_scroll(0, 0);
    assert_eq!((cs.ranged, cs.confusion), (Some(6), Some(4)));
    assert!(rations(0, 0).provides_food);
    assert!(magic_mapping_scroll(0, 0).magic_mapper);
}

#[test]
fn weapons_and_shields_slot_in() {
    assert_eq!(dagger(0, 0).melee_power_bonus, Some(2));
    assert_eq!(dagger(0, 0).equippable, Some(EquipmentSlot::Melee));
    assert_eq!(longsword(0, 0).melee_power_bonus, Some(4));
    assert_eq!(shield(0, 0).defense_bonus, Some(1));
    assert_eq!(shield(0, 0).equippable, Some(EquipmentSlot::Shield));
    let tower = tower_shield(0, 0);
    assert_eq!(tower.defense_bonus, Some(3));
    assert_eq!(tower.name, "Shield");
}

#[test]
fn a_bear_trap_lies_hidden_and_fires_once() {
    let t = bear_trap(0, 0);
    assert!(t.hidden && t.entry_trigger && t.single_activation);
    assert_eq!(t.inflicts_damage, Some(6));
    assert_eq!(t.renderable.glyph, 94);
}

#[test]
fn spawn_entities_land_where_their_index_says() {
    let idx = 2 * 80 + 5;
    let b = spawn_entity(idx, "Goblin").unwrap();
    assert_eq!((b.position.x, b.position.y), (5, 2));
    assert_eq!(b.name, "Goblin");
    assert!(spawn_entity(idx, "Orc").unwrap().monster);
    assert!(spawn_entity(idx, "Health Potion").unwrap().consumable);
    assert!(spawn_entity(idx, "Bear Trap").unwrap().entry_trigger);
    assert_eq!(spawn_entity(idx, "Dragon"), None);
    assert_eq!(spawn_entity(idx, ""), None);
}

#[test]
fn rooms_offer_their_open_floor() {
    let mut map = GameMap::new(1);
    for y in 4..=6 {
        for x in 4..=8 {
            let idx = map.xy_idx(x, y);
            map.tiles[idx] = TileType::Floor;
        }
    }
    // One tile stays rock.
    let rock = map.xy_idx(5, 5);
    map.tiles[rock] = TileType::Wall;

    let room = Rect::new(3, 3, 6, 4);  // interior 4..=8 by 4..=6
    let tiles = room_floor_tiles(&map, &room);
    assert_eq!(tiles.len(), 14);
    assert!(!tiles.contains(&rock));
    assert_eq!(tiles[0], map.xy_idx(4, 4));
    assert!(tiles.windows(2).all(|w| w[0] < w[1]));
}

#[test]
fn a_region_spawn_consumes_its_rolls_in_order() {
    let table = room_table(1);
    let area = vec![100usize, 101, 102];
    let mut spawn_list: Vec<(usize, &'static str)> = Vec::new();
    // One die of seven at depth one wants `roll - 3` spawns; a five gives two.
    spawn_region(&table, &area, 1, 5, &vec![1, 1], &vec![1, 11], &mut spawn_list);
    assert_eq!(spawn_list, vec![(100, "Goblin"), (101, "Orc")]);
}

#[test]
fn a_small_region_caps_its_spawns() {
    let table = room_table(1);
    let area = vec![100usize];
    let mut spawn_list: Vec<(usize, &'static str)> = Vec::new();
    spawn_region(&table, &area, 1, 7, &vec![1], &vec![1], &mut spawn_list);
    assert_eq!(spawn_list, vec![(100, "Goblin")]);
}

#[test]
fn a_low_roll_spawns_nothing() {
    let table = room_table(1);
    let area = vec![100usize, 101];
    let mut spawn_list: Vec<(usize, &'static str)> = Vec::new();
    spawn_region(&table, &area, 1, 2, &vec![], &vec![], &mut spawn_list);
    assert!(spawn_list.is_empty());
}

#[test]
fn a_room_spawn_draws_from_its_floor() {
    let mut map = GameMap::new(1);
    for y in 4..=5 {
        for x in 4..=5 {
            let idx = map.xy_idx(x, y);
            map.tiles[idx] = TileType::Floor;
        }
    }
    let room = Rect::new(3, 3, 3, 3);  // interior 4..=5 by 4..=5
    let table = room_table(1);
    let mut spawn_list: Vec<(usize, &'static str)> = Vec::new();
    spawn_room(&map, &table, &room, 1, 4, &vec![1], &vec![1], &mut spawn_list);
    assert_eq!(spawn_list, vec![(map.xy_idx(4, 4), "Goblin")]);
}

#[test]
fn rectangles_know_their_centers_and_overlaps() {
    let a = Rect::new(2, 2, 4, 6);
    assert_eq!(a, Rect { x1: 2, y1: 2, x2: 6, y2: 8 });
    assert_eq!(a.center(), (4, 5));
    let b = Rect::new(5, 5, 4, 4);
    let c = Rect::new(20, 20, 2, 2);
    assert!(a.intersect(&b));
    assert!(b.intersect(&a));
    assert!(!a.intersect(&c));
}

#[test]
fn prefab_vaults_measure_their_templates() {
    let trap = totally_not_a_trap();
    assert_eq!(trap.name, "totally not a trap");
    assert_eq!((trap.width, trap.height), (5, 5));
    // One leading newline, then five rows of five characters plus newlines.
    assert_eq!(trap.template.len(), 1 + (5 + 1) * 5);
    assert!(trap.template.contains("^!^"));
    assert_eq!((trap.first_depth, trap.last_depth), (0, 100));

    let smile = silly_smile();
    assert_eq!((smile.width, smile.height), (6, 6));
    assert_eq!(smile.template.len(), 1 + (6 + 1) * 6);

    let board = checkerboard();
    assert_eq!((board.width, board.height), (6, 5));
    assert!(board.template.contains("g#%#"));
}

#[test]
fn a_rolled_pick_always_names_a_table_entry() {
    let mut rng = rusty_roguelike::rng::new_rng();
    let lone = RandomTable::new().add("only", 3);
    for _ in 0..50 {
        assert_eq!(lone.roll(&mut rng), "only");
    }
    let pair = RandomTable::new().add("a", 1).add("b", 1);
    let mut saw_a = false;
    let mut saw_b = false;
    for _ in 0..200 {
        match pair.roll(&mut rng) {
            "a" => saw_a = true,
            "b" => saw_b = true,
            other => panic!("rolled a name not in the table: {}", other),
        }
    }
    assert!(saw_a && saw_b);
}

#[test]
fn spotting_hidden_things_is_rare_but_happens() {
    let mut rng = rusty_roguelike::rng::new_rng();
    let mut spotted = 0;
    for _ in 0..2000 {
        if rusty_roguelike::visibility::spot_hidden(&mut rng) {
            spotted += 1;
        }
    }
    // One in twenty-four over two thousand draws: tight enough bounds that
    // a fair die virtually never leaves them.
    assert!(spotted > 20 && spotted < 250);
}

#[test]
fn the_fort_spans_the_right_edge() {
    let fort = underground_fort();
    assert_eq!(fort.name, "underground fort");
    assert_eq!((fort.width, fort.height), (15, 43));
    assert_eq!(fort.placement, (HorizontalPlacement::Right, VerticalPlacement::Top));
    assert_eq!(fort.template.len(), 1 + (15 + 1) * 43);
    assert!(fort.template.contains('g'));
    assert!(fort.template.contains('^'));
}
