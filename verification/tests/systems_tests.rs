use rusty_roguelike::ai::{apply_monster_move, confusion_tick, is_adjacent, sees_player};
use rusty_roguelike::combat::{melee_attack, MeleeOutcome};
use rusty_roguelike::components::{
    CombatStats, Confused, DefenseBonus, Equipped, EquipmentSlot, HungerClock, HungerState,
    MeleePowerBonus, Position, Viewshed,
};
use rusty_roguelike::damage::{damage_system_entity, damage_total, DamageOutcome};
use rusty_roguelike::game_map::{GameMap, TileType};
use rusty_roguelike::hunger::{hunger_applies, hunger_tick, HungerTickEvent};
use rusty_roguelike::inventory::{
    apply_healing, clip_blast_tiles, eat, select_targets, targets_at_tile, unequip_list,
};
use rusty_roguelike::level::{entities_to_remove_on_level_change, level_change_heal};
use rusty_roguelike::run_state::RunState;
use rusty_roguelike::triggers::triggered_at;

fn stats(hp: i32, max_hp: i32, defense: i32, power: i32) -> CombatStats {
    CombatStats { max_hp, hp, defense, power }
}

#[test]
fn melee_leaves_the_dead_alone() {
    let r = melee_attack(1, &stats(10, 10, 0, 5), None, 2, &stats(0, 10, 0, 0), &vec![], &vec![]);
    assert_eq!(r, MeleeOutcome::TargetDead);
}

#[test]
fn melee_bounces_off_higher_defense() {
    let r = melee_attack(1, &stats(10, 10, 0, 2), None, 2, &stats(10, 10, 5, 0), &vec![], &vec![]);
    assert_eq!(r, MeleeOutcome::CannotHurt);
}

#[test]
fn melee_damage_is_power_minus_defense() {
    let r = melee_attack(1, &stats(10, 10, 0, 5), None, 2, &stats(10, 10, 1, 0), &vec![], &vec![]);
    assert_eq!(r, MeleeOutcome::Hit { damage: 4 });
}

#[test]
fn melee_counts_owned_equipment_and_a_full_stomach() {
    let power_bonuses = vec![
        (MeleePowerBonus { power: 2 }, Equipped { owner: 1, slot: EquipmentSlot::Melee }),
        (MeleePowerBonus { power: 9 }, Equipped { owner: 7, slot: EquipmentSlot::Melee }),
    ];
    let defense_bonuses = vec![
        (DefenseBonus { defense: 1 }, Equipped { owner: 2, slot: EquipmentSlot::Shield }),
        (DefenseBonus { defense: 5 }, Equipped { owner: 8, slot: EquipmentSlot::Shield }),
    ];
    let r = melee_attack(
        1,
        &stats(10, 10, 0, 5),
        Some(HungerState::WellFed),
        2,
        &stats(10, 10, 1, 0),
        &power_bonuses,
        &defense_bonuses,
    );
    // power 5 + 2 + 1 (well fed) against defense 1 + 1.
    assert_eq!(r, MeleeOutcome::Hit { damage: 6 });
}

#[test]
fn hungry_attackers_get_no_bonus() {
    let r = melee_attack(
        1,
        &stats(10, 10, 0, 2),
        Some(HungerState::Hungry),
        2,
        &stats(10, 10, 1, 0),
        &vec![],
        &vec![],
    );
    assert_eq!(r, MeleeOutcome::Hit { damage: 1 });
}

#[test]
fn damage_total_sums_the_queue() {
    assert_eq!(damage_total(&vec![]), 0);
    assert_eq!(damage_total(&vec![3, 4, 5]), 12);
}

#[test]
fn damage_stains_the_floor_and_spares_the_living() {
    let mut map = GameMap::new(1);
    let mut victim = stats(10, 10, 0, 0);
    let pos = Position { x: 4, y: 4 };
    let outcome = damage_system_entity(&mut map, &mut victim, pos, false, &vec![3, 4]);
    assert_eq!(outcome, DamageOutcome::Alive);
    assert_eq!(victim.hp, 3);
    assert!(map.is_bloody(map.xy_idx(4, 4)));
}

#[test]
fn lethal_damage_fells_a_monster() {
    let mut map = GameMap::new(1);
    let mut victim = stats(5, 10, 0, 0);
    let outcome =
        damage_system_entity(&mut map, &mut victim, Position { x: 1, y: 1 }, false, &vec![5]);
    assert_eq!(outcome, DamageOutcome::DeadMonster);
    assert_eq!(victim.hp, 0);
}

#[test]
fn lethal_damage_to_the_player_ends_the_game() {
    let mut map = GameMap::new(1);
    let mut victim = stats(2, 10, 0, 0);
    let outcome =
        damage_system_entity(&mut map, &mut victim, Position { x: 1, y: 1 }, true, &vec![9]);
    assert_eq!(outcome, DamageOutcome::DeadPlayer);
}

#[test]
fn hunger_ticks_only_on_the_owners_turn() {
    assert!(hunger_applies(RunState::PlayerTurn, true));
    assert!(!hunger_applies(RunState::PlayerTurn, false));
    assert!(hunger_applies(RunState::MonsterTurn, false));
    assert!(!hunger_applies(RunState::MonsterTurn, true));
    assert!(!hunger_applies(RunState::AwaitingInput, true));
}

#[test]
fn hunger_counts_down_quietly() {
    let mut clock = HungerClock { state: HungerState::WellFed, duration: 5 };
    let ev = hunger_tick(&mut clock, true);
    assert_eq!(ev, HungerTickEvent::NoChange);
    assert_eq!(clock.duration, 4);
    assert_eq!(clock.state, HungerState::WellFed);
}

#[test]
fn hunger_walks_through_its_stages() {
    let mut clock = HungerClock { state: HungerState::WellFed, duration: 1 };
    assert_eq!(hunger_tick(&mut clock, true), HungerTickEvent::BecameNormal);
    assert_eq!(clock, HungerClock { state: HungerState::Normal, duration: 200 });

    clock.duration = 1;
    assert_eq!(hunger_tick(&mut clock, true), HungerTickEvent::BecameHungry);
    assert_eq!(clock, HungerClock { state: HungerState::Hungry, duration: 200 });

    clock.duration = 1;
    assert_eq!(hunger_tick(&mut clock, true), HungerTickEvent::BecameStarving);
    assert_eq!(clock, HungerClock { state: HungerState::Starving, duration: 200 });
}

#[test]
fn starvation_hurts_every_turn_at_zero() {
    let mut clock = HungerClock { state: HungerState::Starving, duration: 1 };
    assert_eq!(hunger_tick(&mut clock, true), HungerTickEvent::StarvationDamage);
    assert_eq!(clock.state, HungerState::Starving);
    assert_eq!(clock.duration, 0);
}

#[test]
fn a_skipped_turn_leaves_the_clock_alone() {
    let mut clock = HungerClock { state: HungerState::Normal, duration: 7 };
    assert_eq!(hunger_tick(&mut clock, false), HungerTickEvent::NoChange);
    assert_eq!(clock.duration, 7);
}

#[test]
fn confusion_wears_off() {
    let mut confused = Confused { turns: 2 };
    assert!(!confusion_tick(&mut confused));
    assert_eq!(confused.turns, 1);
    assert!(confusion_tick(&mut confused));
}

#[test]
fn adjacency_is_one_step_in_any_direction() {
    let a = Position { x: 5, y: 5 };
    assert!(is_adjacent(a, Position { x: 6, y: 6 }));
    assert!(is_adjacent(a, Position { x: 5, y: 4 }));
    assert!(is_adjacent(a, a));
    assert!(!is_adjacent(a, Position { x: 7, y: 5 }));
    assert!(!is_adjacent(a, Position { x: 7, y: 7 }));
}

#[test]
fn a_monster_sees_the_player_through_its_viewshed() {
    let viewshed = Viewshed {
        visible_tiles: vec![Position { x: 3, y: 3 }],
        range: 8,
        dirty: false,
    };
    assert!(sees_player(&viewshed, Position { x: 3, y: 3 }));
    assert!(!sees_player(&viewshed, Position { x: 4, y: 3 }));
}

#[test]
fn a_chase_step_moves_the_blocker() {
    let mut map = GameMap::new(1);
    let mut pos = Position { x: 20, y: 1 };
    let mut viewshed = Viewshed { visible_tiles: Vec::new(), range: 8, dirty: false };
    let start = map.xy_idx(20, 1);
    let next = map.xy_idx(21, 1);
    map.blocked[start] = true;
    apply_monster_move(&mut map, &mut pos, &mut viewshed, start, next);
    assert_eq!(pos, Position { x: 21, y: 1 });
    assert!(viewshed.dirty);
    assert!(!map.blocked[start]);
    assert!(map.blocked[next]);
}

#[test]
fn healing_is_capped_at_the_maximum() {
    let mut s = stats(10, 30, 0, 0);
    apply_healing(&mut s, 8);
    assert_eq!(s.hp, 18);
    apply_healing(&mut s, 100);
    assert_eq!(s.hp, 30);
}

#[test]
fn eating_resets_the_clock() {
    let mut clock = HungerClock { state: HungerState::Starving, duration: 0 };
    eat(&mut clock);
    assert_eq!(clock, HungerClock { state: HungerState::WellFed, duration: 20 });
}

#[test]
fn an_unaimed_use_hits_the_user() {
    let map = GameMap::new(1);
    let targets = select_targets(&map, 42, None, None, &vec![1, 2, 3]);
    assert_eq!(targets, vec![42]);
}

#[test]
fn an_aimed_use_hits_the_combatants_on_the_tile() {
    let mut map = GameMap::new(1);
    let idx = map.xy_idx(6, 6);
    map.tile_content[idx] = vec![10, 11, 12];
    let combatants = vec![10, 12];
    let t = Position { x: 6, y: 6 };
    assert_eq!(targets_at_tile(&map, t, &combatants), vec![10, 12]);
    assert_eq!(select_targets(&map, 42, Some(t), None, &combatants), vec![10, 12]);
}

#[test]
fn a_blast_is_clipped_to_the_rim_and_hits_every_tile() {
    let mut map = GameMap::new(1);
    let a = map.xy_idx(6, 6);
    let b = map.xy_idx(7, 6);
    map.tile_content[a] = vec![10];
    map.tile_content[b] = vec![11, 3];
    let blast = vec![
        Position { x: 6, y: 6 },
        Position { x: 7, y: 6 },
        Position { x: 0, y: 6 },
        Position { x: 79, y: 6 },
        Position { x: 7, y: 42 },
    ];
    let clipped = clip_blast_tiles(&map, &blast);
    assert_eq!(clipped, vec![Position { x: 6, y: 6 }, Position { x: 7, y: 6 }]);
    let combatants = vec![10, 11];
    let hit = select_targets(&map, 42, Some(Position { x: 6, y: 6 }), Some(&blast), &combatants);
    assert_eq!(hit, vec![10, 11]);
}

#[test]
fn equipping_pushes_aside_what_fills_the_slot() {
    let equipped = vec![
        (100u64, Equipped { owner: 1, slot: EquipmentSlot::Melee }),
        (101u64, Equipped { owner: 1, slot: EquipmentSlot::Shield }),
        (102u64, Equipped { owner: 2, slot: EquipmentSlot::Melee }),
    ];
    assert_eq!(unequip_list(&equipped, 1, EquipmentSlot::Melee), vec![100]);
    assert_eq!(unequip_list(&equipped, 1, EquipmentSlot::Shield), vec![101]);
    assert_eq!(unequip_list(&equipped, 3, EquipmentSlot::Melee), Vec::<u64>::new());
}

#[test]
fn a_step_springs_every_other_trap_on_the_tile() {
    let mut map = GameMap::new(1);
    let idx = map.xy_idx(3, 3);
    map.tile_content[idx] = vec![7, 8, 9];
    let triggers = vec![7, 9];
    assert_eq!(triggered_at(&map, Position { x: 3, y: 3 }, 7, &triggers), vec![9]);
    assert_eq!(triggered_at(&map, Position { x: 3, y: 3 }, 1, &triggers), vec![7, 9]);
}

#[test]
fn a_level_change_keeps_the_player_and_its_gear() {
    let entities = vec![1u64, 2, 3, 4, 5];
    let backpack = vec![(2u64, 1u64), (4u64, 3u64)];
    let equipped = vec![(5u64, 1u64)];
    let removed = entities_to_remove_on_level_change(&entities, 1, &backpack, &equipped);
    assert_eq!(removed, vec![3, 4]);
}

#[test]
fn the_descent_heals_to_half_the_maximum() {
    let mut s = stats(10, 30, 0, 0);
    level_change_heal(&mut s);
    assert_eq!(s.hp, 15);
    let mut s = stats(20, 30, 0, 0);
    level_change_heal(&mut s);
    assert_eq!(s.hp, 20);
}

#[test]
fn floors_do_not_block_sight_but_walls_do() {
    let mut map = GameMap::new(1);
    let idx = map.xy_idx(2, 2);
    assert_eq!(map.tiles[idx], TileType::Wall);
    map.tiles[idx] = TileType::Floor;
    assert!(!map.is_opaque(idx));
}
