//! The monster's turn: confusion wears off, an adjacent player is attacked,
//! a seen player is chased one step along a path.
//!
//! The path itself comes from a search run outside the crate; the verified
//! code decides whether to act and commits the chosen step.

use vstd::prelude::*;

use crate::components::{contains_position, Confused, Position, Viewshed};
use crate::game_map::GameMap;
use vstd::arithmetic::div_mod::lemma_fundamental_div_mod;

verus! {

/// Ticks a confusion down by one turn; the spell expires when no turns are
/// left. A confused monster cannot act this turn.
pub fn confusion_tick(confused: &mut Confused) -> (expired: bool)
    requires
        old(confused).turns > i32::MIN,
    ensures
        final(confused).turns == old(confused).turns - 1,
        expired == (final(confused).turns < 1),
{
    confused.turns = confused.turns - 1;
    confused.turns < 1
}

/// Two positions are within melee reach: at most one step apart on each
/// axis, so the squared distance is at most two.
pub open spec fn spec_adjacent(a: Position, b: Position) -> bool {
    (a.x - b.x) * (a.x - b.x) + (a.y - b.y) * (a.y - b.y) <= 2
}

/// Whether a monster at `a` can reach a player at `b` this turn.
pub fn is_adjacent(a: Position, b: Position) -> (r: bool)
    ensures
        r == spec_adjacent(a, b),
{
    let dx: i128 = a.x as i128 - b.x as i128;
    let dy: i128 = a.y as i128 - b.y as i128;
    proof {
        assert(dx * dx < 0x1_0000_0000_0000_0000i128 && dx * dx >= 0 && dy * dy
            < 0x1_0000_0000_0000_0000i128 && dy * dy >= 0) by (nonlinear_arith)
            requires
                -0x1_0000_0000 < dx < 0x1_0000_0000,
                -0x1_0000_0000 < dy < 0x1_0000_0000,
        ;
    }
    dx * dx + dy * dy <= 2
}

/// Whether the monster sees the player: the player's tile is in its
/// viewshed.
pub fn sees_player(viewshed: &Viewshed, player_point: Position) -> (r: bool)
    ensures
        r == viewshed.visible_tiles@.contains(player_point),
{
    contains_position(&viewshed.visible_tiles, player_point)
}

/// Commits one chase step: the monster moves from the tile `start_idx` to
/// the tile `next_idx`, its viewshed goes stale, and the blocked flags
/// follow it.
pub fn apply_monster_move(
    map: &mut GameMap,
    pos: &mut Position,
    viewshed: &mut Viewshed,
    start_idx: usize,
    next_idx: usize,
)
    requires
        old(map).wf(),
        start_idx < old(map).blocked.len(),
        next_idx < old(map).blocked.len(),
    ensures
        final(map).wf(),
        final(pos).x == next_idx as int % (old(map).width as int),
        final(pos).y == next_idx as int / (old(map).width as int),
        final(viewshed).dirty,
        final(viewshed).visible_tiles == old(viewshed).visible_tiles,
        final(viewshed).range == old(viewshed).range,
        final(map).blocked@ == old(map).blocked@.update(start_idx as int, false).update(
            next_idx as int,
            true,
        ),
        final(map).tiles == old(map).tiles,
        final(map).width == old(map).width,
        final(map).height == old(map).height,
        final(map).revealed_tiles == old(map).revealed_tiles,
        final(map).visible_tiles == old(map).visible_tiles,
        final(map).depth == old(map).depth,
        final(map).bloodstains == old(map).bloodstains,
        final(map).tile_content == old(map).tile_content,
{
    let w = map.width as usize;
    let x = next_idx % w;
    let y = next_idx / w;
    proof {
        lemma_fundamental_div_mod(next_idx as int, w as int);
        assert(x < w);
        assert(y <= next_idx);
        assert(y < map.height) by (nonlinear_arith)
            requires
                next_idx == (map.width as int) * (y as int) + (x as int),
                next_idx < (map.width as int) * (map.height as int),
                0 <= x,
                0 < map.width,
                0 < map.height,
        ;
    }
    pos.x = x as i32;
    pos.y = y as i32;
    viewshed.dirty = true;
    map.blocked.set(start_idx, false);
    map.blocked.set(next_idx, true);
}

} // verus!
