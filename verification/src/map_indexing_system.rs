//! Rebuilds the map's blocking and occupancy bookkeeping from the entities
//! standing on it.

use vstd::prelude::*;

use crate::components::{Entity, Position};
use crate::game_map::{GameMap, TileType};

verus! {

/// The tile index an entity entry stands on. An entry is the entity's id,
/// its position, and whether it blocks its tile.
pub open spec fn entry_idx(m: GameMap, t: (Entity, Position, bool)) -> int {
    m.spec_idx(t.1.x as int, t.1.y as int)
}

/// The ids of the entries standing on tile `i`, in input order.
pub open spec fn occupants(m: GameMap, s: Seq<(Entity, Position, bool)>, i: int) -> Seq<Entity>
    decreases s.len(),
{
    if s.len() == 0 {
        Seq::empty()
    } else {
        let rest = occupants(m, s.drop_last(), i);
        if entry_idx(m, s.last()) == i {
            rest.push(s.last().0)
        } else {
            rest
        }
    }
}

/// Some blocking entry stands on tile `i`.
pub open spec fn blocks_at(m: GameMap, s: Seq<(Entity, Position, bool)>, i: int) -> bool {
    exists|k: int| 0 <= k < s.len() && s[k].2 && entry_idx(m, s[k]) == i
}

/// Extending the considered prefix by one entry extends the occupants of
/// exactly that entry's tile.
proof fn lemma_occupants_take_step(m: GameMap, s: Seq<(Entity, Position, bool)>, i: int, k: int)
    requires
        0 <= k < s.len(),
    ensures
        occupants(m, s.take(k + 1), i) == if entry_idx(m, s[k]) == i {
            occupants(m, s.take(k), i).push(s[k].0)
        } else {
            occupants(m, s.take(k), i)
        },
{
    assert(s.take(k + 1).drop_last() =~= s.take(k));
    assert(s.take(k + 1).last() == s[k]);
}

/// Extending the considered prefix by one entry blocks exactly that entry's
/// tile in addition.
proof fn lemma_blocks_at_take_step(m: GameMap, s: Seq<(Entity, Position, bool)>, i: int, k: int)
    requires
        0 <= k < s.len(),
    ensures
        blocks_at(m, s.take(k + 1), i) == (blocks_at(m, s.take(k), i) || (s[k].2 && entry_idx(
            m,
            s[k],
        ) == i)),
{
    let pre = s.take(k + 1);
    if blocks_at(m, pre, i) {
        let j = choose|j: int| 0 <= j < pre.len() && pre[j].2 && entry_idx(m, pre[j]) == i;
        if j < k {
            assert(s.take(k)[j] == pre[j]);
            assert(blocks_at(m, s.take(k), i));
        } else {
            assert(pre[j] == s[k]);
        }
    }
    if blocks_at(m, s.take(k), i) {
        let j = choose|j: int|
            0 <= j < s.take(k).len() && s.take(k)[j].2 && entry_idx(m, s.take(k)[j]) == i;
        assert(pre[j] == s.take(k)[j]);
        assert(blocks_at(m, pre, i));
    }
    if s[k].2 && entry_idx(m, s[k]) == i {
        assert(pre[k] == s[k]);
        assert(blocks_at(m, pre, i));
    }
}

/// Rebuilds the blocked flags and the per-tile occupancy lists. Afterwards a
/// tile is blocked exactly when it is a wall or a blocking entry stands on
/// it, and each tile lists exactly the ids of the entries standing on it, in
/// input order.
pub fn map_indexing_system(map: &mut GameMap, entities: &Vec<(Entity, Position, bool)>)
    requires
        old(map).wf(),
        forall|k: int|
            0 <= k < entities@.len() ==> old(map).spec_in_bounds(
                #[trigger] entities@[k].1.x as int,
                entities@[k].1.y as int,
            ),
    ensures
        final(map).wf(),
        forall|i: int|
            0 <= i < final(map).blocked.len() ==> final(map).blocked[i] == (final(map).tiles[i]
                == TileType::Wall || blocks_at(*old(map), entities@, i)),
        forall|i: int|
            0 <= i < final(map).tile_content.len() ==> final(map).tile_content[i]@ == occupants(
                *old(map),
                entities@,
                i,
            ),
        final(map).tiles == old(map).tiles,
        final(map).width == old(map).width,
        final(map).height == old(map).height,
        final(map).revealed_tiles == old(map).revealed_tiles,
        final(map).visible_tiles == old(map).visible_tiles,
        final(map).depth == old(map).depth,
        final(map).bloodstains == old(map).bloodstains,
{
    map.populate_blocked();
    map.clear_content_index();
    let n = entities.len();
    let mut k: usize = 0;
    proof {
        assert(entities@.take(0) =~= Seq::<(Entity, Position, bool)>::empty());
    }
    while k < n
        invariant
            map.wf(),
            n == entities@.len(),
            k <= n,
            forall|j: int|
                0 <= j < entities@.len() ==> map.spec_in_bounds(
                    #[trigger] entities@[j].1.x as int,
                    entities@[j].1.y as int,
                ),
            forall|i: int|
                0 <= i < map.blocked.len() ==> map.blocked[i] == (map.tiles[i] == TileType::Wall
                    || blocks_at(*old(map), entities@.take(k as int), i)),
            forall|i: int|
                0 <= i < map.tile_content.len() ==> map.tile_content[i]@ == occupants(
                    *old(map),
                    entities@.take(k as int),
                    i,
                ),
            map.tiles == old(map).tiles,
            map.width == old(map).width,
            map.height == old(map).height,
            map.revealed_tiles == old(map).revealed_tiles,
            map.visible_tiles == old(map).visible_tiles,
            map.depth == old(map).depth,
            map.bloodstains == old(map).bloodstains,
        decreases n - k,
    {
        let (entity, position, blocks) = entities[k];
        let idx = map.xy_idx(position.x, position.y);

        if blocks {
            map.blocked.set(idx, true);
        }

        let mut content: Vec<Entity> = Vec::new();
        map.tile_content.set_and_swap(idx, &mut content);
        content.push(entity);
        map.tile_content.set_and_swap(idx, &mut content);

        proof {
            assert(entry_idx(*old(map), entities@[k as int]) == idx as int);
            assert forall|i: int| 0 <= i < map.blocked.len() implies map.blocked[i] == (
            map.tiles[i] == TileType::Wall || blocks_at(
                *old(map),
                entities@.take(k as int + 1),
                i,
            )) by {
                lemma_blocks_at_take_step(*old(map), entities@, i, k as int);
            }
            assert forall|i: int| 0 <= i < map.tile_content.len() implies map.tile_content[i]@
                == occupants(*old(map), entities@.take(k as int + 1), i) by {
                lemma_occupants_take_step(*old(map), entities@, i, k as int);
                if i != idx as int {
                    assert(map.tile_content[i]@ == occupants(
                        *old(map),
                        entities@.take(k as int),
                        i,
                    ));
                }
            }
        }

        k = k + 1;
    }
    proof {
        assert(entities@.take(n as int) =~= entities@);
    }
}

} // verus!
