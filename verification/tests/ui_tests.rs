use rusty_roguelike::components::Position;
use rusty_roguelike::game_map::GameMap;
use rusty_roguelike::gui::{
    available_cells, game_over, item_menu_decision, main_menu, ranged_target_decision,
    tooltip_lines, tooltip_on_left, GameOverResult, ItemMenuResult, MainMenuResult,
    MainMenuSelection, MenuKey,
};
use rusty_roguelike::player::{
    get_item, movement_delta, player_action_for_key, player_input_followup, try_move_player,
    try_next_level, wait_heal, can_heal_waiting, GameKey, MoveResult, PlayerAction,
};
use rusty_roguelike::components::CombatStats;
use rusty_roguelike::game_map::TileType;
use rusty_roguelike::run_state::{
    advance_state, item_selected_followup, magic_map_followup, RunState,
};

#[test]
fn item_menus_select_by_letter_and_cancel_on_escape() {
    let items = vec![10u64, 20, 30];
    assert_eq!(item_menu_decision(&items, None), (ItemMenuResult::NoResponse, None));
    assert_eq!(item_menu_decision(&items, Some(MenuKey::Escape)), (ItemMenuResult::Cancel, None));
    assert_eq!(
        item_menu_decision(&items, Some(MenuKey::Choice(1))),
        (ItemMenuResult::Selected, Some(20))
    );
    assert_eq!(item_menu_decision(&items, Some(MenuKey::Choice(3))), (ItemMenuResult::NoResponse, None));
    assert_eq!(item_menu_decision(&items, Some(MenuKey::Choice(-1))), (ItemMenuResult::NoResponse, None));
    assert_eq!(item_menu_decision(&items, Some(MenuKey::Up)), (ItemMenuResult::NoResponse, None));
}

#[test]
fn the_main_menu_cycles_and_skips_a_missing_save() {
    let new_game = MainMenuSelection::NewGame;
    assert_eq!(
        main_menu(new_game, false, Some(MenuKey::Down)),
        MainMenuResult::NoSelection { selected: MainMenuSelection::Quit }
    );
    assert_eq!(
        main_menu(new_game, true, Some(MenuKey::Down)),
        MainMenuResult::NoSelection { selected: MainMenuSelection::LoadGame }
    );
    assert_eq!(
        main_menu(MainMenuSelection::Quit, false, Some(MenuKey::Up)),
        MainMenuResult::NoSelection { selected: MainMenuSelection::NewGame }
    );
    assert_eq!(
        main_menu(MainMenuSelection::Quit, true, Some(MenuKey::Up)),
        MainMenuResult::NoSelection { selected: MainMenuSelection::LoadGame }
    );
    assert_eq!(
        main_menu(new_game, false, Some(MenuKey::Confirm)),
        MainMenuResult::Selected { selected: new_game }
    );
    assert_eq!(
        main_menu(new_game, false, Some(MenuKey::Escape)),
        MainMenuResult::NoSelection { selected: MainMenuSelection::Quit }
    );
    assert_eq!(main_menu(new_game, false, None), MainMenuResult::NoSelection { selected: new_game });
}

#[test]
fn the_game_over_screen_waits_for_any_key() {
    assert_eq!(game_over(false), GameOverResult::NoSelection);
    assert_eq!(game_over(true), GameOverResult::QuitToMenu);
}

#[test]
fn targeting_offers_only_tiles_within_range() {
    let player = Position { x: 5, y: 5 };
    let visible = vec![
        Position { x: 5, y: 7 },
        Position { x: 5, y: 8 },
        Position { x: 7, y: 7 },
        Position { x: 6, y: 6 },
    ];
    let cells = available_cells(&visible, player, 2);
    assert_eq!(cells, vec![Position { x: 5, y: 7 }, Position { x: 6, y: 6 }]);
}

#[test]
fn a_click_selects_an_offered_tile_and_cancels_elsewhere() {
    let cells = vec![Position { x: 3, y: 3 }];
    assert_eq!(
        ranged_target_decision(&cells, 3, 3, true),
        (ItemMenuResult::Selected, Some(Position { x: 3, y: 3 }))
    );
    assert_eq!(ranged_target_decision(&cells, 4, 3, true), (ItemMenuResult::Cancel, None));
    assert_eq!(ranged_target_decision(&cells, 3, 3, false), (ItemMenuResult::NoResponse, None));
}

#[test]
fn tooltips_list_what_stands_on_the_visible_tile() {
    let mut map = GameMap::new(1);
    let idx = map.xy_idx(3, 3);
    map.visible_tiles[idx] = true;
    let named = vec![
        ("Goblin".to_string(), Position { x: 3, y: 3 }),
        ("Orc".to_string(), Position { x: 4, y: 4 }),
        ("Rat".to_string(), Position { x: 3, y: 3 }),
    ];
    assert_eq!(tooltip_lines(&map, &named, 3, 3), vec!["Goblin".to_string(), "Rat".to_string()]);
    // The tile at (4, 4) is not visible, so nothing shows there.
    assert_eq!(tooltip_lines(&map, &named, 4, 4), Vec::<String>::new());
    assert!(tooltip_on_left(41));
    assert!(!tooltip_on_left(40));
}

#[test]
fn movement_keys_map_to_their_deltas() {
    assert_eq!(movement_delta(GameKey::MoveLeft), Some((-1, 0)));
    assert_eq!(movement_delta(GameKey::MoveDownRight), Some((1, 1)));
    assert_eq!(movement_delta(GameKey::Grab), None);
}

#[test]
fn keys_become_player_actions() {
    assert_eq!(player_action_for_key(None), PlayerAction::KeepWaiting);
    assert_eq!(player_action_for_key(Some(GameKey::MoveUp)), PlayerAction::TryMove(0, -1));
    assert_eq!(player_action_for_key(Some(GameKey::Grab)), PlayerAction::GrabItem);
    assert_eq!(player_action_for_key(Some(GameKey::Inventory)), PlayerAction::OpenInventory);
    assert_eq!(player_action_for_key(Some(GameKey::Escape)), PlayerAction::SaveGame);
    assert_eq!(player_action_for_key(Some(GameKey::Wait)), PlayerAction::Wait);
    assert_eq!(player_action_for_key(Some(GameKey::Other)), PlayerAction::KeepWaiting);
}

#[test]
fn acting_starts_the_turn_and_menus_open_their_screens() {
    assert_eq!(player_input_followup(PlayerAction::TryMove(1, 0), true), RunState::PlayerTurn);
    assert_eq!(player_input_followup(PlayerAction::TryMove(1, 0), false), RunState::AwaitingInput);
    assert_eq!(player_input_followup(PlayerAction::OpenInventory, false), RunState::ShowInventory);
    assert_eq!(player_input_followup(PlayerAction::SaveGame, false), RunState::SaveGame);
    assert_eq!(player_input_followup(PlayerAction::Wait, false), RunState::PlayerTurn);
    assert_eq!(player_input_followup(PlayerAction::TryDescend, true), RunState::NextLevel);
}

#[test]
fn a_step_into_a_combatant_becomes_an_attack() {
    let mut map = GameMap::new(1);
    let dest = map.xy_idx(6, 5);
    map.tiles[dest] = TileType::Floor;
    map.populate_blocked();
    map.tile_content[dest] = vec![33, 44];
    let combatants = vec![44];
    let r = try_move_player(&map, &combatants, Position { x: 5, y: 5 }, 1, 0);
    assert_eq!(r, MoveResult::Attack(44));
}

#[test]
fn a_step_onto_open_floor_moves() {
    let mut map = GameMap::new(1);
    let dest = map.xy_idx(6, 5);
    map.tiles[dest] = TileType::Floor;
    map.populate_blocked();
    let r = try_move_player(&map, &vec![], Position { x: 5, y: 5 }, 1, 0);
    assert_eq!(r, MoveResult::Moved(Position { x: 6, y: 5 }));
}

#[test]
fn a_step_into_a_wall_is_blocked() {
    let mut map = GameMap::new(1);
    map.populate_blocked();
    let r = try_move_player(&map, &vec![], Position { x: 5, y: 5 }, 1, 0);
    assert_eq!(r, MoveResult::Blocked);
}

#[test]
fn picking_up_finds_the_first_item_underfoot() {
    let items = vec![
        (1u64, Position { x: 2, y: 2 }),
        (2u64, Position { x: 3, y: 3 }),
        (3u64, Position { x: 3, y: 3 }),
    ];
    assert_eq!(get_item(&items, Position { x: 3, y: 3 }), Some(2));
    assert_eq!(get_item(&items, Position { x: 9, y: 9 }), None);
}

#[test]
fn descending_needs_a_staircase() {
    let mut map = GameMap::new(1);
    assert!(!try_next_level(&map, Position { x: 5, y: 5 }));
    let idx = map.xy_idx(5, 5);
    map.tiles[idx] = TileType::DownStairs;
    assert!(try_next_level(&map, Position { x: 5, y: 5 }));
}

#[test]
fn waiting_heals_only_with_no_monster_in_sight() {
    let mut map = GameMap::new(1);
    let idx = map.xy_idx(2, 2);
    map.tile_content[idx] = vec![9];
    let visible = vec![Position { x: 2, y: 2 }];
    assert!(!can_heal_waiting(&map, &visible, &vec![9]));
    assert!(can_heal_waiting(&map, &visible, &vec![42]));
    assert!(can_heal_waiting(&map, &vec![], &vec![9]));

    let mut stats = CombatStats { max_hp: 30, hp: 29, defense: 0, power: 0 };
    wait_heal(&mut stats, true);
    assert_eq!(stats.hp, 30);
    wait_heal(&mut stats, true);
    assert_eq!(stats.hp, 30);
    stats.hp = 10;
    wait_heal(&mut stats, false);
    assert_eq!(stats.hp, 10);
}

#[test]
fn the_state_machine_steps_as_the_frame_opens() {
    assert_eq!(advance_state(RunState::PlayerTurn), RunState::MonsterTurn);
    assert_eq!(advance_state(RunState::MonsterTurn), RunState::AwaitingInput);
    assert_eq!(advance_state(RunState::AwaitingInput), RunState::AwaitingInput);
    assert_eq!(
        advance_state(RunState::SaveGame),
        RunState::MainMenu { menu_selection: MainMenuSelection::LoadGame }
    );
    assert_eq!(advance_state(RunState::NextLevel), RunState::MapGeneration);
    assert_eq!(advance_state(RunState::GameOver), RunState::GameOver);
    assert_eq!(advance_state(RunState::ShowInventory), RunState::ShowInventory);
    assert_eq!(
        advance_state(RunState::MagicMapReveal { row: 3 }),
        RunState::MagicMapReveal { row: 4 }
    );
}

#[test]
fn the_map_reveal_ends_on_the_last_row() {
    let advanced = RunState::MagicMapReveal { row: 11 };
    assert_eq!(magic_map_followup(10, advanced), advanced);
    assert_eq!(magic_map_followup(42, advanced), RunState::MonsterTurn);
}

#[test]
fn picking_a_ranged_item_opens_targeting() {
    assert_eq!(
        item_selected_followup(77, Some(6)),
        RunState::ShowTargeting { range: 6, item: 77 }
    );
    assert_eq!(item_selected_followup(77, None), RunState::PlayerTurn);
}
