//! Applies a freshly computed field of view to a viewer and to the map.
//!
//! The line-of-sight sweep itself runs outside the crate; it hands in the
//! list of positions it found, and the verified code filters that list to
//! the grid and commits it.

use vstd::prelude::*;

use crate::components::{Position, Viewshed};
use crate::game_map::GameMap;
use crate::rng::roll_dice;

verus! {

/// The positions of `s` that lie on the grid of `m`, in order.
pub open spec fn spec_points_on_map(m: GameMap, s: Seq<Position>) -> Seq<Position>
    decreases s.len(),
{
    if s.len() == 0 {
        Seq::empty()
    } else {
        let rest = spec_points_on_map(m, s.drop_last());
        if m.spec_in_bounds(s.last().x as int, s.last().y as int) {
            rest.push(s.last())
        } else {
            rest
        }
    }
}

/// Some position of `s` names the tile `i`.
pub open spec fn sees(m: GameMap, s: Seq<Position>, i: int) -> bool {
    exists|k: int|
        0 <= k < s.len() && m.spec_in_bounds(s[k].x as int, s[k].y as int) && m.spec_idx(
            s[k].x as int,
            s[k].y as int,
        ) == i
}

/// Extending the considered prefix by one position keeps exactly the
/// positions on the grid.
proof fn lemma_points_on_map_take_step(m: GameMap, s: Seq<Position>, k: int)
    requires
        0 <= k < s.len(),
    ensures
        spec_points_on_map(m, s.take(k + 1)) == if m.spec_in_bounds(s[k].x as int, s[k].y as int) {
            spec_points_on_map(m, s.take(k)).push(s[k])
        } else {
            spec_points_on_map(m, s.take(k))
        },
{
    assert(s.take(k + 1).drop_last() =~= s.take(k));
    assert(s.take(k + 1).last() == s[k]);
}

/// Extending the considered prefix by one position adds sight of exactly
/// that position's tile.
proof fn lemma_sees_take_step(m: GameMap, s: Seq<Position>, i: int, k: int)
    requires
        0 <= k < s.len(),
    ensures
        sees(m, s.take(k + 1), i) == (sees(m, s.take(k), i) || (m.spec_in_bounds(
            s[k].x as int,
            s[k].y as int,
        ) && m.spec_idx(s[k].x as int, s[k].y as int) == i)),
{
    let pre = s.take(k + 1);
    if sees(m, pre, i) {
        let j = choose|j: int|
            0 <= j < pre.len() && m.spec_in_bounds(pre[j].x as int, pre[j].y as int) && m.spec_idx(
                pre[j].x as int,
                pre[j].y as int,
            ) == i;
        if j < k {
            assert(s.take(k)[j] == pre[j]);
            assert(sees(m, s.take(k), i));
        } else {
            assert(pre[j] == s[k]);
        }
    }
    if sees(m, s.take(k), i) {
        let j = choose|j: int|
            0 <= j < s.take(k).len() && m.spec_in_bounds(
                s.take(k)[j].x as int,
                s.take(k)[j].y as int,
            ) && m.spec_idx(s.take(k)[j].x as int, s.take(k)[j].y as int) == i;
        assert(pre[j] == s.take(k)[j]);
        assert(sees(m, pre, i));
    }
    if m.spec_in_bounds(s[k].x as int, s[k].y as int) && m.spec_idx(s[k].x as int, s[k].y as int)
        == i {
        assert(pre[k] == s[k]);
        assert(sees(m, pre, i));
    }
}

/// Keeps only the positions that lie on the grid, in order.
pub fn points_on_map(map: &GameMap, pts: &Vec<Position>) -> (r: Vec<Position>)
    ensures
        r@ == spec_points_on_map(*map, pts@),
        forall|k: int|
            0 <= k < r@.len() ==> map.spec_in_bounds(#[trigger] r@[k].x as int, r@[k].y as int),
{
    let mut r: Vec<Position> = Vec::new();
    let n = pts.len();
    let mut k: usize = 0;
    proof {
        assert(pts@.take(0) =~= Seq::<Position>::empty());
    }
    while k < n
        invariant
            n == pts@.len(),
            k <= n,
            r@ == spec_points_on_map(*map, pts@.take(k as int)),
            forall|j: int|
                0 <= j < r@.len() ==> map.spec_in_bounds(#[trigger] r@[j].x as int, r@[j].y as int),
        decreases n - k,
    {
        let p = pts[k];
        proof {
            lemma_points_on_map_take_step(*map, pts@, k as int);
        }
        if map.contains_point(p) {
            r.push(p);
        }
        k = k + 1;
    }
    proof {
        assert(pts@.take(n as int) =~= pts@);
    }
    r
}

/// Commits a fresh field of view to a viewer: the viewshed holds exactly the
/// handed-in positions that lie on the grid, and is clean again.
pub fn update_viewshed(viewshed: &mut Viewshed, map: &GameMap, fov: Vec<Position>)
    ensures
        final(viewshed).visible_tiles@ == spec_points_on_map(*map, fov@),
        !final(viewshed).dirty,
        final(viewshed).range == old(viewshed).range,
{
    viewshed.dirty = false;
    viewshed.visible_tiles = points_on_map(map, &fov);
}

/// Reveals the player's sight on the map: afterwards exactly the tiles named
/// by `visible` are visible, and those tiles are revealed in addition to
/// what was revealed before.
pub fn reveal_player_sight(map: &mut GameMap, visible: &Vec<Position>)
    requires
        old(map).wf(),
        forall|k: int|
            0 <= k < visible@.len() ==> old(map).spec_in_bounds(
                #[trigger] visible@[k].x as int,
                visible@[k].y as int,
            ),
    ensures
        final(map).wf(),
        forall|i: int|
            0 <= i < final(map).visible_tiles.len() ==> final(map).visible_tiles[i] == sees(
                *old(map),
                visible@,
                i,
            ),
        forall|i: int|
            0 <= i < final(map).revealed_tiles.len() ==> final(map).revealed_tiles[i] == (old(
                map,
            ).revealed_tiles[i] || sees(*old(map), visible@, i)),
        final(map).tiles == old(map).tiles,
        final(map).width == old(map).width,
        final(map).height == old(map).height,
        final(map).blocked == old(map).blocked,
        final(map).depth == old(map).depth,
        final(map).bloodstains == old(map).bloodstains,
        final(map).tile_content == old(map).tile_content,
{
    let n_tiles = map.visible_tiles.len();
    let mut i: usize = 0;
    while i < n_tiles
        invariant
            map.wf(),
            n_tiles == map.visible_tiles.len(),
            i <= n_tiles,
            forall|j: int| 0 <= j < i ==> !map.visible_tiles[j],
            map.tiles == old(map).tiles,
            map.width == old(map).width,
            map.height == old(map).height,
            map.revealed_tiles == old(map).revealed_tiles,
            map.blocked == old(map).blocked,
            map.depth == old(map).depth,
            map.bloodstains == old(map).bloodstains,
            map.tile_content == old(map).tile_content,
        decreases n_tiles - i,
    {
        map.visible_tiles.set(i, false);
        i = i + 1;
    }

    let n = visible.len();
    let mut k: usize = 0;
    proof {
        assert(visible@.take(0) =~= Seq::<Position>::empty());
    }
    while k < n
        invariant
            map.wf(),
            n == visible@.len(),
            k <= n,
            forall|j: int|
                0 <= j < visible@.len() ==> map.spec_in_bounds(
                    #[trigger] visible@[j].x as int,
                    visible@[j].y as int,
                ),
            forall|i: int|
                0 <= i < map.visible_tiles.len() ==> map.visible_tiles[i] == sees(
                    *old(map),
                    visible@.take(k as int),
                    i,
                ),
            forall|i: int|
                0 <= i < map.revealed_tiles.len() ==> map.revealed_tiles[i] == (old(
                    map,
                ).revealed_tiles[i] || sees(*old(map), visible@.take(k as int), i)),
            map.tiles == old(map).tiles,
            map.width == old(map).width,
            map.height == old(map).height,
            map.blocked == old(map).blocked,
            map.depth == old(map).depth,
            map.bloodstains == old(map).bloodstains,
            map.tile_content == old(map).tile_content,
        decreases n - k,
    {
        let vis = visible[k];
        let idx = map.xy_idx(vis.x, vis.y);
        map.revealed_tiles.set(idx, true);
        map.visible_tiles.set(idx, true);
        proof {
            assert forall|i: int| 0 <= i < map.visible_tiles.len() implies map.visible_tiles[i]
                == sees(*old(map), visible@.take(k as int + 1), i) by {
                lemma_sees_take_step(*old(map), visible@, i, k as int);
            }
            assert forall|i: int| 0 <= i < map.revealed_tiles.len() implies map.revealed_tiles[i]
                == (old(map).revealed_tiles[i] || sees(*old(map), visible@.take(k as int + 1), i)) by {
                lemma_sees_take_step(*old(map), visible@, i, k as int);
            }
        }
        k = k + 1;
    }
    proof {
        assert(visible@.take(n as int) =~= visible@);
    }
}

/// Rolls whether a sharp eye spots a hidden thing this turn: a one on a
/// twenty-four-sided die. The die decides; either answer may come.
pub fn spot_hidden(rng: &mut rltk::RandomNumberGenerator) -> bool {
    roll_dice(rng, 1, 24) == 1
}

} // verus!
