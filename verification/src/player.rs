//! What the player's key press does: movement with melee on contact,
//! picking things up, descending, waiting, and opening the menus.

use vstd::prelude::*;

use crate::components::{contains_entity, CombatStats, Entity, Position};
use crate::game_map::{GameMap, TileType};
use crate::run_state::RunState;

verus! {

/// A key press as the game sees it, already freed of the window library's
/// key codes.
#[derive(Clone, Copy, Debug, PartialEq, Eq, Structural)]
pub enum GameKey {
    MoveLeft,
    MoveRight,
    MoveUp,
    MoveDown,
    MoveUpLeft,
    MoveUpRight,
    MoveDownLeft,
    MoveDownRight,
    Grab,
    Inventory,
    DropItem,
    RemoveItem,
    Escape,
    Descend,
    Wait,
    Other,
}

/// The grid step a movement key asks for, if it is one.
pub open spec fn spec_movement_delta(key: GameKey) -> Option<(i32, i32)> {
    match key {
        GameKey::MoveLeft => Option::Some((-1i32, 0i32)),
        GameKey::MoveRight => Option::Some((1i32, 0i32)),
        GameKey::MoveUp => Option::Some((0i32, -1i32)),
        GameKey::MoveDown => Option::Some((0i32, 1i32)),
        GameKey::MoveUpLeft => Option::Some((-1i32, -1i32)),
        GameKey::MoveUpRight => Option::Some((1i32, -1i32)),
        GameKey::MoveDownLeft => Option::Some((-1i32, 1i32)),
        GameKey::MoveDownRight => Option::Some((1i32, 1i32)),
        _ => Option::None,
    }
}

/// Looks up the grid step a movement key asks for.
pub fn movement_delta(key: GameKey) -> (r: Option<(i32, i32)>)
    ensures
        r == spec_movement_delta(key),
{
    match key {
        GameKey::MoveLeft => Option::Some((-1, 0)),
        GameKey::MoveRight => Option::Some((1, 0)),
        GameKey::MoveUp => Option::Some((0, -1)),
        GameKey::MoveDown => Option::Some((0, 1)),
        GameKey::MoveUpLeft => Option::Some((-1, -1)),
        GameKey::MoveUpRight => Option::Some((1, -1)),
        GameKey::MoveDownLeft => Option::Some((-1, 1)),
        GameKey::MoveDownRight => Option::Some((1, 1)),
        _ => Option::None,
    }
}

/// What one step of the player came to.
#[derive(Clone, Copy, Debug, PartialEq, Eq, Structural)]
pub enum MoveResult {
    /// A combatant stands in the way; attack it instead.
    Attack(Entity),
    /// The step is taken; stand here now.
    Moved(Position),
    /// The way is blocked; nothing happens.
    Blocked,
}

/// The first entity of `content` that is a combatant, walking the tile's
/// occupancy list front to back.
pub open spec fn spec_first_combatant(content: Seq<Entity>, combatants: Seq<Entity>) -> Option<
    Entity,
>
    decreases content.len(),
{
    if content.len() == 0 {
        Option::None
    } else if combatants.contains(content[0]) {
        Option::Some(content[0])
    } else {
        spec_first_combatant(content.drop_first(), combatants)
    }
}

/// A coordinate clamped to the screen, as the original movement code wrote
/// it: into `0 ..= 79` across and `0 ..= 49` down.
pub open spec fn spec_clamp(v: int, high: int) -> int {
    if v < 0 {
        0
    } else if v > high {
        high
    } else {
        v
    }
}

/// What a step by `(delta_x, delta_y)` comes to: melee against the first
/// combatant on the destination tile, else the clamped step if the tile is
/// free, else nothing.
pub open spec fn spec_try_move_player(
    m: GameMap,
    combatants: Seq<Entity>,
    pos: Position,
    delta_x: int,
    delta_y: int,
) -> MoveResult {
    let dest = m.spec_idx(pos.x + delta_x, pos.y + delta_y);
    match spec_first_combatant(m.tile_content[dest]@, combatants) {
        Option::Some(e) => MoveResult::Attack(e),
        Option::None => if !m.blocked[dest] {
            MoveResult::Moved(
                Position {
                    x: spec_clamp(pos.x + delta_x, 79) as i32,
                    y: spec_clamp(pos.y + delta_y, 49) as i32,
                },
            )
        } else {
            MoveResult::Blocked
        },
    }
}

/// Steps the player by `(delta_x, delta_y)`. The destination tile must lie
/// on the grid; `combatants` lists the entities an attack may target.
#[verifier::loop_isolation(false)]
pub fn try_move_player(
    map: &GameMap,
    combatants: &Vec<Entity>,
    pos: Position,
    delta_x: i32,
    delta_y: i32,
) -> (r: MoveResult)
    requires
        map.wf(),
        map.spec_in_bounds(pos.x + delta_x, pos.y + delta_y),
    ensures
        r == spec_try_move_player(*map, combatants@, pos, delta_x as int, delta_y as int),
{
    let destination_idx = map.xy_idx(pos.x + delta_x, pos.y + delta_y);
    let content = &map.tile_content[destination_idx];

    let n = content.len();
    let mut k: usize = 0;
    proof {
        assert(content@.skip(0) =~= content@);
    }
    while k < n
        invariant
            n == content@.len(),
            k <= n,
            destination_idx < map.tile_content.len(),
            content@ == map.tile_content[destination_idx as int]@,
            spec_first_combatant(content@.skip(k as int), combatants@) == spec_first_combatant(
                content@,
                combatants@,
            ),
        decreases n - k,
    {
        proof {
            assert(content@.skip(k as int)[0] == content@[k as int]);
            assert(content@.skip(k as int).drop_first() =~= content@.skip(k as int + 1));
        }
        let target = content[k];
        if contains_entity(combatants, target) {
            proof {
                assert(spec_first_combatant(content@.skip(k as int), combatants@)
                    == Option::Some(target));
            }
            return MoveResult::Attack(target);
        }
        k = k + 1;
    }
    proof {
        assert(content@.skip(n as int) =~= Seq::<Entity>::empty());
    }

    if !map.blocked[destination_idx] {
        let mut nx = pos.x + delta_x;
        if nx < 0 {
            nx = 0;
        }
        if nx > 79 {
            nx = 79;
        }
        let mut ny = pos.y + delta_y;
        if ny < 0 {
            ny = 0;
        }
        if ny > 49 {
            ny = 49;
        }
        MoveResult::Moved(Position { x: nx, y: ny })
    } else {
        MoveResult::Blocked
    }
}

/// The first item lying exactly where the player stands, walking the list
/// front to back.
pub open spec fn spec_first_item_at(items: Seq<(Entity, Position)>, pos: Position) -> Option<
    Entity,
>
    decreases items.len(),
{
    if items.len() == 0 {
        Option::None
    } else if items[0].1.x == pos.x && items[0].1.y == pos.y {
        Option::Some(items[0].0)
    } else {
        spec_first_item_at(items.drop_first(), pos)
    }
}

/// Finds the item to pick up: the first one lying where the player stands.
#[verifier::loop_isolation(false)]
pub fn get_item(items: &Vec<(Entity, Position)>, player_pos: Position) -> (r: Option<Entity>)
    ensures
        r == spec_first_item_at(items@, player_pos),
{
    let n = items.len();
    let mut k: usize = 0;
    proof {
        assert(items@.skip(0) =~= items@);
    }
    while k < n
        invariant
            n == items@.len(),
            k <= n,
            spec_first_item_at(items@.skip(k as int), player_pos) == spec_first_item_at(
                items@,
                player_pos,
            ),
        decreases n - k,
    {
        proof {
            assert(items@.skip(k as int)[0] == items@[k as int]);
            assert(items@.skip(k as int).drop_first() =~= items@.skip(k as int + 1));
        }
        let (item_entity, position) = items[k];
        if position.x == player_pos.x && position.y == player_pos.y {
            proof {
                assert(spec_first_item_at(items@.skip(k as int), player_pos)
                    == Option::Some(item_entity));
            }
            return Option::Some(item_entity);
        }
        k = k + 1;
    }
    proof {
        assert(items@.skip(n as int) =~= Seq::<(Entity, Position)>::empty());
    }
    Option::None
}

/// Whether the player may descend: true exactly on a staircase tile.
pub fn try_next_level(map: &GameMap, player_pos: Position) -> (r: bool)
    requires
        map.wf(),
        map.spec_in_bounds(player_pos.x as int, player_pos.y as int),
    ensures
        r == (map.tiles[map.spec_idx(player_pos.x as int, player_pos.y as int)]
            == TileType::DownStairs),
{
    let player_idx = map.xy_idx(player_pos.x, player_pos.y);
    map.tiles[player_idx] == TileType::DownStairs
}

/// A monster stands on the tile `t`.
pub open spec fn spec_monster_on_tile(m: GameMap, t: Position, monsters: Seq<Entity>) -> bool {
    exists|j: int|
        {
            &&& 0 <= j < m.tile_content[m.spec_idx(t.x as int, t.y as int)]@.len()
            &&& monsters.contains(#[trigger] m.tile_content[m.spec_idx(t.x as int, t.y as int)]@[j])
        }
}

/// A monster stands on a tile the waiter can see.
pub open spec fn spec_monster_in_sight(
    m: GameMap,
    tiles: Seq<Position>,
    monsters: Seq<Entity>,
) -> bool {
    exists|k: int| 0 <= k < tiles.len() && spec_monster_on_tile(m, #[trigger] tiles[k], monsters)
}

/// Whether waiting may heal: no monster stands on any visible tile.
#[verifier::loop_isolation(false)]
pub fn can_heal_waiting(map: &GameMap, visible_tiles: &Vec<Position>, monsters: &Vec<Entity>) -> (r:
    bool)
    requires
        map.wf(),
        forall|k: int|
            0 <= k < visible_tiles@.len() ==> map.spec_in_bounds(
                #[trigger] visible_tiles@[k].x as int,
                visible_tiles@[k].y as int,
            ),
    ensures
        r == !spec_monster_in_sight(*map, visible_tiles@, monsters@),
{
    let n = visible_tiles.len();
    let mut k: usize = 0;
    while k < n
        invariant
            map.wf(),
            n == visible_tiles@.len(),
            k <= n,
            forall|t: int|
                0 <= t < visible_tiles@.len() ==> map.spec_in_bounds(
                    #[trigger] visible_tiles@[t].x as int,
                    visible_tiles@[t].y as int,
                ),
            forall|t: int|
                0 <= t < k ==> !spec_monster_on_tile(*map, #[trigger] visible_tiles@[t], monsters@),
        decreases n - k,
    {
        let tile = visible_tiles[k];
        let idx = map.xy_idx(tile.x, tile.y);
        let content = &map.tile_content[idx];
        let m = content.len();
        let mut j: usize = 0;
        while j < m
            invariant
                map.wf(),
                m == content@.len(),
                j <= m,
                content@ == map.tile_content[idx as int]@,
                idx < map.tile_content.len(),
                forall|jj: int| 0 <= jj < j ==> !monsters@.contains(#[trigger] content@[jj]),
            decreases m - j,
        {
            let entity_id = content[j];
            if contains_entity(monsters, entity_id) {
                proof {
                    assert(spec_monster_on_tile(*map, visible_tiles@[k as int], monsters@));
                    assert(spec_monster_in_sight(*map, visible_tiles@, monsters@));
                }
                return false;
            }
            j = j + 1;
        }
        proof {
            assert(!spec_monster_on_tile(*map, visible_tiles@[k as int], monsters@));
        }
        k = k + 1;
    }
    proof {
        if spec_monster_in_sight(*map, visible_tiles@, monsters@) {
            let t = choose|t: int|
                0 <= t < visible_tiles@.len() && spec_monster_on_tile(
                    *map,
                    #[trigger] visible_tiles@[t],
                    monsters@,
                );
            assert(false);
        }
    }
    true
}

/// Lets a waiting entity recover one hit point, up to its maximum, when no
/// monster is in sight.
pub fn wait_heal(stats: &mut CombatStats, can_heal: bool)
    requires
        old(stats).hp < i32::MAX,
    ensures
        can_heal ==> final(stats).hp == if old(stats).hp + 1 <= old(stats).max_hp {
            old(stats).hp + 1
        } else {
            old(stats).max_hp as int
        },
        !can_heal ==> final(stats).hp == old(stats).hp,
        final(stats).max_hp == old(stats).max_hp,
        final(stats).defense == old(stats).defense,
        final(stats).power == old(stats).power,
{
    if can_heal {
        let healed = stats.hp + 1;
        if healed <= stats.max_hp {
            stats.hp = healed;
        } else {
            stats.hp = stats.max_hp;
        }
    }
}

/// What a frame of input asks the game to do.
#[derive(Clone, Copy, Debug, PartialEq, Eq, Structural)]
pub enum PlayerAction {
    /// No key, or one the game ignores: keep waiting for input.
    KeepWaiting,
    /// Step (or attack) by this delta.
    TryMove(i32, i32),
    /// Pick up what lies here.
    GrabItem,
    /// Open the inventory menu.
    OpenInventory,
    /// Open the drop menu.
    OpenDropMenu,
    /// Open the remove-equipment menu.
    OpenRemoveMenu,
    /// Save and bail out to the menu.
    SaveGame,
    /// Try to take the stairs down.
    TryDescend,
    /// Stand still for a turn.
    Wait,
}

/// What a key press asks for, before the map has a say.
pub open spec fn spec_player_action(key: Option<GameKey>) -> PlayerAction {
    match key {
        Option::None => PlayerAction::KeepWaiting,
        Option::Some(k) => match spec_movement_delta(k) {
            Option::Some(d) => PlayerAction::TryMove(d.0, d.1),
            Option::None => match k {
                GameKey::Grab => PlayerAction::GrabItem,
                GameKey::Inventory => PlayerAction::OpenInventory,
                GameKey::DropItem => PlayerAction::OpenDropMenu,
                GameKey::RemoveItem => PlayerAction::OpenRemoveMenu,
                GameKey::Escape => PlayerAction::SaveGame,
                GameKey::Descend => PlayerAction::TryDescend,
                GameKey::Wait => PlayerAction::Wait,
                _ => PlayerAction::KeepWaiting,
            },
        },
    }
}

/// Turns a frame's key press into the action the game loop should take.
pub fn player_action_for_key(key: Option<GameKey>) -> (r: PlayerAction)
    ensures
        r == spec_player_action(key),
{
    match key {
        Option::None => PlayerAction::KeepWaiting,
        Option::Some(k) => {
            match movement_delta(k) {
                Option::Some(d) => PlayerAction::TryMove(d.0, d.1),
                Option::None => {
                    match k {
                        GameKey::Grab => PlayerAction::GrabItem,
                        GameKey::Inventory => PlayerAction::OpenInventory,
                        GameKey::DropItem => PlayerAction::OpenDropMenu,
                        GameKey::RemoveItem => PlayerAction::OpenRemoveMenu,
                        GameKey::Escape => PlayerAction::SaveGame,
                        GameKey::Descend => PlayerAction::TryDescend,
                        GameKey::Wait => PlayerAction::Wait,
                        _ => PlayerAction::KeepWaiting,
                    }
                },
            }
        },
    }
}

/// The state the input frame hands on: a successful action starts the
/// player's turn, a menu key opens its screen, and anything else keeps
/// waiting.
pub fn player_input_followup(action: PlayerAction, acted: bool) -> (r: RunState)
    ensures
        r == match action {
            PlayerAction::KeepWaiting => RunState::AwaitingInput,
            PlayerAction::TryMove(..) => if acted {
                RunState::PlayerTurn
            } else {
                RunState::AwaitingInput
            },
            PlayerAction::GrabItem => if acted {
                RunState::PlayerTurn
            } else {
                RunState::AwaitingInput
            },
            PlayerAction::OpenInventory => RunState::ShowInventory,
            PlayerAction::OpenDropMenu => RunState::ShowDropItem,
            PlayerAction::OpenRemoveMenu => RunState::ShowRemoveItem,
            PlayerAction::SaveGame => RunState::SaveGame,
            PlayerAction::TryDescend => if acted {
                RunState::NextLevel
            } else {
                RunState::AwaitingInput
            },
            PlayerAction::Wait => RunState::PlayerTurn,
        },
{
    match action {
        PlayerAction::KeepWaiting => RunState::AwaitingInput,
        PlayerAction::TryMove(..) => if acted {
            RunState::PlayerTurn
        } else {
            RunState::AwaitingInput
        },
        PlayerAction::GrabItem => if acted {
            RunState::PlayerTurn
        } else {
            RunState::AwaitingInput
        },
        PlayerAction::OpenInventory => RunState::ShowInventory,
        PlayerAction::OpenDropMenu => RunState::ShowDropItem,
        PlayerAction::OpenRemoveMenu => RunState::ShowRemoveItem,
        PlayerAction::SaveGame => RunState::SaveGame,
        PlayerAction::TryDescend => if acted {
            RunState::NextLevel
        } else {
            RunState::AwaitingInput
        },
        PlayerAction::Wait => RunState::PlayerTurn,
    }
}

} // verus!
