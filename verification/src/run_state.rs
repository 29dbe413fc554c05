//! The turn state machine that the game loop steps through.

use vstd::prelude::*;

use crate::components::Entity;
use crate::game_map::MAPHEIGHT;
use crate::gui::MainMenuSelection;

verus! {

/// Which phase the game is in, and which screen owns the next frame.
#[derive(Clone, Copy, Debug, PartialEq, Eq, Structural)]
pub enum RunState {
    AwaitingInput,
    PlayerTurn,
    MonsterTurn,
    ShowInventory,
    ShowDropItem,
    ShowTargeting { range: i32, item: Entity },
    MainMenu { menu_selection: MainMenuSelection },
    SaveGame,
    NextLevel,
    ShowRemoveItem,
    GameOver,
    MagicMapReveal { row: i32 },
    MapGeneration,
}

/// The state a frame moves to before its screen has spoken: the player's
/// turn yields to the monsters, a save returns to the menu over the load
/// entry, a level change starts generation, the map reveal walks down one
/// row, the menus and screens hold, and everything else awaits input.
pub open spec fn spec_advance_state(state: RunState) -> RunState {
    match state {
        RunState::PlayerTurn => RunState::MonsterTurn,
        RunState::ShowInventory => state,
        RunState::ShowDropItem => state,
        RunState::ShowTargeting { .. } => state,
        RunState::MainMenu { .. } => state,
        RunState::SaveGame => RunState::MainMenu { menu_selection: MainMenuSelection::LoadGame },
        RunState::ShowRemoveItem => state,
        RunState::GameOver => state,
        RunState::MapGeneration => state,
        RunState::NextLevel => RunState::MapGeneration,
        RunState::MagicMapReveal { row } => RunState::MagicMapReveal { row: (row + 1) as i32 },
        _ => RunState::AwaitingInput,
    }
}

/// Steps the state machine at the top of a frame.
pub fn advance_state(state: RunState) -> (r: RunState)
    requires
        state matches RunState::MagicMapReveal { row } ==> row < i32::MAX,
    ensures
        r == spec_advance_state(state),
{
    match state {
        RunState::PlayerTurn => RunState::MonsterTurn,
        RunState::ShowInventory => state,
        RunState::ShowDropItem => state,
        RunState::ShowTargeting { .. } => state,
        RunState::MainMenu { .. } => state,
        RunState::SaveGame => RunState::MainMenu { menu_selection: MainMenuSelection::LoadGame },
        RunState::ShowRemoveItem => state,
        RunState::GameOver => state,
        RunState::MapGeneration => state,
        RunState::NextLevel => RunState::MapGeneration,
        RunState::MagicMapReveal { row } => RunState::MagicMapReveal { row: row + 1 },
        _ => RunState::AwaitingInput,
    }
}

/// What picking an item in the inventory leads to: an item aimed at a tile
/// opens targeting with its range; any other item is used outright, which
/// starts the player's turn.
pub fn item_selected_followup(item: Entity, ranged: Option<i32>) -> (r: RunState)
    ensures
        r == match ranged {
            Option::Some(range) => RunState::ShowTargeting { range, item },
            Option::None => RunState::PlayerTurn,
        },
{
    match ranged {
        Option::Some(range) => RunState::ShowTargeting { range, item },
        Option::None => RunState::PlayerTurn,
    }
}

/// After revealing a row, the reveal either walks on or, past the last row,
/// hands the turn to the monsters.
pub fn magic_map_followup(row: i32, advanced: RunState) -> (r: RunState)
    ensures
        r == if row >= MAPHEIGHT as i32 - 1 {
            RunState::MonsterTurn
        } else {
            advanced
        },
{
    if row >= MAPHEIGHT as i32 - 1 {
        RunState::MonsterTurn
    } else {
        advanced
    }
}

} // verus!
