//! Decisions behind the user interface: how each menu reacts to a key, which
//! tiles a targeting cursor may pick, and what a tooltip lists.
//!
//! Drawing happens outside the crate; these functions take the already-read
//! input and the game data, and return what the screen code should act on.

use vstd::prelude::*;

use crate::components::{Entity, Position};
use crate::game_map::GameMap;

verus! {

/// The entry the main menu rests on.
#[derive(Clone, Copy, Debug, PartialEq, Eq, Structural)]
pub enum MainMenuSelection {
    NewGame,
    LoadGame,
    Quit,
}

/// What the main menu came to this frame.
#[derive(Clone, Copy, Debug, PartialEq, Eq, Structural)]
pub enum MainMenuResult {
    NoSelection { selected: MainMenuSelection },
    Selected { selected: MainMenuSelection },
}

/// What an item menu came to this frame.
#[derive(Clone, Copy, Debug, PartialEq, Eq, Structural)]
pub enum ItemMenuResult {
    Cancel,
    NoResponse,
    Selected,
}

/// What the game-over screen came to.
#[derive(Clone, Copy, Debug, PartialEq, Eq, Structural)]
pub enum GameOverResult {
    NoSelection,
    QuitToMenu,
}

/// A key press as the menus see it: the cursor keys, confirm and cancel, or
/// a letter turned into a menu index (negative when it names no entry).
#[derive(Clone, Copy, Debug, PartialEq, Eq, Structural)]
pub enum MenuKey {
    Escape,
    Up,
    Down,
    Confirm,
    Choice(i32),
}

/// What an item menu answers for a list of entries and a key.
pub open spec fn spec_item_menu(items: Seq<Entity>, key: Option<MenuKey>) -> (
    ItemMenuResult,
    Option<Entity>,
) {
    match key {
        Option::None => (ItemMenuResult::NoResponse, Option::None),
        Option::Some(MenuKey::Escape) => (ItemMenuResult::Cancel, Option::None),
        Option::Some(MenuKey::Choice(s)) => if 0 <= s < items.len() {
            (ItemMenuResult::Selected, Option::Some(items[s as int]))
        } else {
            (ItemMenuResult::NoResponse, Option::None)
        },
        Option::Some(_) => (ItemMenuResult::NoResponse, Option::None),
    }
}

/// Decides an item menu (inventory, drop, or remove) for one frame: escape
/// cancels, a letter that names an entry selects that entry, anything else
/// waits.
pub fn item_menu_decision(items: &Vec<Entity>, key: Option<MenuKey>) -> (r: (
    ItemMenuResult,
    Option<Entity>,
))
    ensures
        r == spec_item_menu(items@, key),
{
    match key {
        Option::None => (ItemMenuResult::NoResponse, Option::None),
        Option::Some(MenuKey::Escape) => (ItemMenuResult::Cancel, Option::None),
        Option::Some(MenuKey::Choice(s)) => {
            if s > -1 && (s as usize) < items.len() {
                (ItemMenuResult::Selected, Option::Some(items[s as usize]))
            } else {
                (ItemMenuResult::NoResponse, Option::None)
            }
        },
        Option::Some(_) => (ItemMenuResult::NoResponse, Option::None),
    }
}

/// The entry above `selection`, skipping the load entry when no save exists.
pub open spec fn spec_menu_up(selection: MainMenuSelection, save_exists: bool) -> MainMenuSelection {
    let raw = match selection {
        MainMenuSelection::NewGame => MainMenuSelection::Quit,
        MainMenuSelection::LoadGame => MainMenuSelection::NewGame,
        MainMenuSelection::Quit => MainMenuSelection::LoadGame,
    };
    if raw == MainMenuSelection::LoadGame && !save_exists {
        MainMenuSelection::NewGame
    } else {
        raw
    }
}

/// The entry below `selection`, skipping the load entry when no save exists.
pub open spec fn spec_menu_down(selection: MainMenuSelection, save_exists: bool) -> MainMenuSelection {
    let raw = match selection {
        MainMenuSelection::NewGame => MainMenuSelection::LoadGame,
        MainMenuSelection::LoadGame => MainMenuSelection::Quit,
        MainMenuSelection::Quit => MainMenuSelection::NewGame,
    };
    if raw == MainMenuSelection::LoadGame && !save_exists {
        MainMenuSelection::Quit
    } else {
        raw
    }
}

/// What the main menu answers for a resting entry, a key, and whether a
/// saved game exists.
pub open spec fn spec_main_menu(
    selection: MainMenuSelection,
    save_exists: bool,
    key: Option<MenuKey>,
) -> MainMenuResult {
    match key {
        Option::None => MainMenuResult::NoSelection { selected: selection },
        Option::Some(MenuKey::Escape) => MainMenuResult::NoSelection {
            selected: MainMenuSelection::Quit,
        },
        Option::Some(MenuKey::Up) => MainMenuResult::NoSelection {
            selected: spec_menu_up(selection, save_exists),
        },
        Option::Some(MenuKey::Down) => MainMenuResult::NoSelection {
            selected: spec_menu_down(selection, save_exists),
        },
        Option::Some(MenuKey::Confirm) => MainMenuResult::Selected { selected: selection },
        Option::Some(_) => MainMenuResult::NoSelection { selected: selection },
    }
}

/// Decides the main menu for one frame: the cursor keys move the resting
/// entry (skipping the load entry when no save exists), confirm selects it,
/// and escape rests on the quit entry.
pub fn main_menu(selection: MainMenuSelection, save_exists: bool, key: Option<MenuKey>) -> (r:
    MainMenuResult)
    ensures
        r == spec_main_menu(selection, save_exists, key),
{
    match key {
        Option::None => MainMenuResult::NoSelection { selected: selection },
        Option::Some(MenuKey::Escape) => MainMenuResult::NoSelection {
            selected: MainMenuSelection::Quit,
        },
        Option::Some(MenuKey::Up) => {
            let mut new_selection = match selection {
                MainMenuSelection::NewGame => MainMenuSelection::Quit,
                MainMenuSelection::LoadGame => MainMenuSelection::NewGame,
                MainMenuSelection::Quit => MainMenuSelection::LoadGame,
            };
            if new_selection == MainMenuSelection::LoadGame && !save_exists {
                new_selection = MainMenuSelection::NewGame;
            }
            MainMenuResult::NoSelection { selected: new_selection }
        },
        Option::Some(MenuKey::Down) => {
            let mut new_selection = match selection {
                MainMenuSelection::NewGame => MainMenuSelection::LoadGame,
                MainMenuSelection::LoadGame => MainMenuSelection::Quit,
                MainMenuSelection::Quit => MainMenuSelection::NewGame,
            };
            if new_selection == MainMenuSelection::LoadGame && !save_exists {
                new_selection = MainMenuSelection::Quit;
            }
            MainMenuResult::NoSelection { selected: new_selection }
        },
        Option::Some(MenuKey::Confirm) => MainMenuResult::Selected { selected: selection },
        Option::Some(_) => MainMenuResult::NoSelection { selected: selection },
    }
}

/// Decides the game-over screen: any key returns to the menu.
pub fn game_over(key_pressed: bool) -> (r: GameOverResult)
    ensures
        r == if key_pressed {
            GameOverResult::QuitToMenu
        } else {
            GameOverResult::NoSelection
        },
{
    if key_pressed {
        GameOverResult::QuitToMenu
    } else {
        GameOverResult::NoSelection
    }
}

/// The tile `p` lies within `range` steps of `player` by straight-line
/// distance.
pub open spec fn spec_in_range(player: Position, p: Position, range: int) -> bool {
    let dx = p.x - player.x;
    let dy = p.y - player.y;
    dx * dx + dy * dy <= range * range
}

/// The positions of `s` within `range` of `player`, in order.
pub open spec fn spec_cells_in_range(s: Seq<Position>, player: Position, range: int) -> Seq<
    Position,
>
    decreases s.len(),
{
    if s.len() == 0 {
        Seq::empty()
    } else {
        let rest = spec_cells_in_range(s.drop_last(), player, range);
        if spec_in_range(player, s.last(), range) {
            rest.push(s.last())
        } else {
            rest
        }
    }
}

proof fn lemma_cells_in_range_take_step(s: Seq<Position>, player: Position, range: int, k: int)
    requires
        0 <= k < s.len(),
    ensures
        spec_cells_in_range(s.take(k + 1), player, range) == if spec_in_range(
            player,
            s[k],
            range,
        ) {
            spec_cells_in_range(s.take(k), player, range).push(s[k])
        } else {
            spec_cells_in_range(s.take(k), player, range)
        },
{
    assert(s.take(k + 1).drop_last() =~= s.take(k));
    assert(s.take(k + 1).last() == s[k]);
}

/// Keeps the visible tiles a targeted item may be aimed at: those within
/// its range of the player, in order.
pub fn available_cells(visible_tiles: &Vec<Position>, player_pos: Position, range: i32) -> (r: Vec<
    Position,
>)
    ensures
        r@ == spec_cells_in_range(visible_tiles@, player_pos, range as int),
{
    let mut r: Vec<Position> = Vec::new();
    let n = visible_tiles.len();
    let mut k: usize = 0;
    proof {
        assert(visible_tiles@.take(0) =~= Seq::<Position>::empty());
    }
    while k < n
        invariant
            n == visible_tiles@.len(),
            k <= n,
            r@ == spec_cells_in_range(visible_tiles@.take(k as int), player_pos, range as int),
        decreases n - k,
    {
        let p = visible_tiles[k];
        proof {
            lemma_cells_in_range_take_step(visible_tiles@, player_pos, range as int, k as int);
        }
        let dx: i128 = p.x as i128 - player_pos.x as i128;
        let dy: i128 = p.y as i128 - player_pos.y as i128;
        let range128: i128 = range as i128;
        proof {
            assert(dx * dx < 0x1_0000_0000_0000_0000i128 && dx * dx >= 0 && dy * dy
                < 0x1_0000_0000_0000_0000i128 && dy * dy >= 0 && range128 * range128
                < 0x1_0000_0000_0000_0000i128 && range128 * range128 >= 0) by (nonlinear_arith)
                requires
                    -0x1_0000_0000 < dx < 0x1_0000_0000,
                    -0x1_0000_0000 < dy < 0x1_0000_0000,
                    -0x8000_0000 <= range128 < 0x8000_0000,
            ;
        }
        if dx * dx + dy * dy <= range128 * range128 {
            r.push(p);
        }
        k = k + 1;
    }
    proof {
        assert(visible_tiles@.take(n as int) =~= visible_tiles@);
    }
    r
}

/// Decides a targeting frame: a click on an available cell selects it, a
/// click anywhere else cancels, and without a click nothing happens.
pub fn ranged_target_decision(
    available: &Vec<Position>,
    mouse_x: i32,
    mouse_y: i32,
    left_click: bool,
) -> (r: (ItemMenuResult, Option<Position>))
    ensures
        r == {
            let valid = available@.contains(Position { x: mouse_x, y: mouse_y });
            if valid && left_click {
                (ItemMenuResult::Selected, Option::Some(Position { x: mouse_x, y: mouse_y }))
            } else if !valid && left_click {
                (ItemMenuResult::Cancel, Option::<Position>::None)
            } else {
                (ItemMenuResult::NoResponse, Option::<Position>::None)
            }
        },
{
    let mut valid_target = false;
    let n = available.len();
    let mut k: usize = 0;
    while k < n
        invariant
            n == available@.len(),
            k <= n,
            valid_target == exists|j: int|
                0 <= j < k && available@[j] == (Position { x: mouse_x, y: mouse_y }),
        decreases n - k,
    {
        let p = available[k];
        if p.x == mouse_x && p.y == mouse_y {
            valid_target = true;
        }
        k = k + 1;
    }
    proof {
        if valid_target {
            assert(available@.contains(Position { x: mouse_x, y: mouse_y }));
        }
        if available@.contains(Position { x: mouse_x, y: mouse_y }) {
            let j = choose|j: int|
                0 <= j < available@.len() && available@[j] == (Position { x: mouse_x, y: mouse_y });
            assert(valid_target);
        }
    }
    if valid_target {
        if left_click {
            return (ItemMenuResult::Selected, Option::Some(Position { x: mouse_x, y: mouse_y }));
        }
    } else {
        if left_click {
            return (ItemMenuResult::Cancel, Option::None);
        }
    }
    (ItemMenuResult::NoResponse, Option::None)
}

/// The names of `s` standing on the visible tile under the mouse, in order.
pub open spec fn spec_tooltip_lines(
    m: GameMap,
    s: Seq<(Seq<char>, Position)>,
    mouse_x: int,
    mouse_y: int,
) -> Seq<Seq<char>>
    decreases s.len(),
{
    if s.len() == 0 {
        Seq::empty()
    } else {
        let rest = spec_tooltip_lines(m, s.drop_last(), mouse_x, mouse_y);
        let p = s.last().1;
        if p.x == mouse_x && p.y == mouse_y && m.visible_tiles[m.spec_idx(p.x as int, p.y as int)] {
            rest.push(s.last().0)
        } else {
            rest
        }
    }
}

proof fn lemma_tooltip_lines_take_step(
    m: GameMap,
    s: Seq<(Seq<char>, Position)>,
    mouse_x: int,
    mouse_y: int,
    k: int,
)
    requires
        0 <= k < s.len(),
    ensures
        spec_tooltip_lines(m, s.take(k + 1), mouse_x, mouse_y) == {
            let p = s[k].1;
            if p.x == mouse_x && p.y == mouse_y && m.visible_tiles[m.spec_idx(
                p.x as int,
                p.y as int,
            )] {
                spec_tooltip_lines(m, s.take(k), mouse_x, mouse_y).push(s[k].0)
            } else {
                spec_tooltip_lines(m, s.take(k), mouse_x, mouse_y)
            }
        },
{
    assert(s.take(k + 1).drop_last() =~= s.take(k));
    assert(s.take(k + 1).last() == s[k]);
}

/// Whether the tooltip hangs to the left of the mouse.
pub fn tooltip_on_left(mouse_x: i32) -> (r: bool)
    ensures
        r == (mouse_x > 40),
{
    mouse_x > 40
}

/// Collects the tooltip for the mouse position: the names of the named
/// entities standing on that tile, provided the tile is visible, in order.
pub fn tooltip_lines(map: &GameMap, named: &Vec<(String, Position)>, mouse_x: i32, mouse_y: i32) -> (r:
    Vec<String>)
    requires
        map.wf(),
        forall|k: int|
            0 <= k < named@.len() ==> map.spec_in_bounds(
                #[trigger] named@[k].1.x as int,
                named@[k].1.y as int,
            ),
    ensures
        r@.map_values(|s: String| s@) == spec_tooltip_lines(
            *map,
            named@.map_values(|t: (String, Position)| (t.0@, t.1)),
            mouse_x as int,
            mouse_y as int,
        ),
{
    let ghost names = named@.map_values(|t: (String, Position)| (t.0@, t.1));
    let mut r: Vec<String> = Vec::new();
    let n = named.len();
    let mut k: usize = 0;
    proof {
        assert(names.take(0) =~= Seq::<(Seq<char>, Position)>::empty());
        assert(r@.map_values(|s: String| s@) =~= Seq::<Seq<char>>::empty());
    }
    while k < n
        invariant
            map.wf(),
            n == named@.len(),
            names == named@.map_values(|t: (String, Position)| (t.0@, t.1)),
            k <= n,
            forall|j: int|
                0 <= j < named@.len() ==> map.spec_in_bounds(
                    #[trigger] named@[j].1.x as int,
                    named@[j].1.y as int,
                ),
            r@.map_values(|s: String| s@) == spec_tooltip_lines(
                *map,
                names.take(k as int),
                mouse_x as int,
                mouse_y as int,
            ),
        decreases n - k,
    {
        proof {
            lemma_tooltip_lines_take_step(*map, names, mouse_x as int, mouse_y as int, k as int);
            assert(names[k as int] == (named@[k as int].0@, named@[k as int].1));
        }
        let position = &named[k].1;
        let idx = map.xy_idx(position.x, position.y);
        if position.x == mouse_x && position.y == mouse_y && map.visible_tiles[idx] {
            let ghost r_before = r@;
            let name = named[k].0.clone();
            r.push(name);
            proof {
                assert(r@.map_values(|s: String| s@) =~= r_before.map_values(|s: String| s@).push(
                    names[k as int].0,
                ));
            }
        }
        k = k + 1;
    }
    proof {
        assert(names.take(n as int) =~= names);
    }
    r
}

} // verus!
