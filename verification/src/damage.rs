//! Applies queued damage to hit points, stains the floor, and decides who
//! dies of it.

use vstd::prelude::*;

use crate::components::{CombatStats, Entity, Position};
use crate::game_map::GameMap;

verus! {

/// A single hit to apply to an entity.
#[derive(Clone, Copy, Debug, PartialEq, Eq, Structural)]
pub struct DamageEvent {
    pub who: Entity,
    pub value: i32,
}

/// Sum of a damage queue.
pub open spec fn spec_damage_sum(s: Seq<i32>) -> int
    decreases s.len(),
{
    if s.len() == 0 {
        0
    } else {
        spec_damage_sum(s.drop_last()) + s.last()
    }
}

/// Every partial sum of the queue stays within `i32`, as the running total
/// does.
pub open spec fn damage_prefixes_fit(s: Seq<i32>) -> bool {
    forall|k: int| 0 <= k <= s.len() ==> i32::MIN <= #[trigger] spec_damage_sum(s.take(k)) <= i32::MAX
}

proof fn lemma_damage_sum_take_step(s: Seq<i32>, k: int)
    requires
        0 <= k < s.len(),
    ensures
        spec_damage_sum(s.take(k + 1)) == spec_damage_sum(s.take(k)) + s[k],
{
    assert(s.take(k + 1).drop_last() =~= s.take(k));
    assert(s.take(k + 1).last() == s[k]);
}

/// Adds up a damage queue.
pub fn damage_total(amounts: &Vec<i32>) -> (total: i32)
    requires
        damage_prefixes_fit(amounts@),
    ensures
        total == spec_damage_sum(amounts@),
{
    let mut total: i32 = 0;
    let n = amounts.len();
    let mut k: usize = 0;
    proof {
        assert(amounts@.take(0) =~= Seq::<i32>::empty());
    }
    while k < n
        invariant
            n == amounts@.len(),
            k <= n,
            total == spec_damage_sum(amounts@.take(k as int)),
            damage_prefixes_fit(amounts@),
        decreases n - k,
    {
        proof {
            lemma_damage_sum_take_step(amounts@, k as int);
            assert(i32::MIN <= spec_damage_sum(amounts@.take(k as int + 1)) <= i32::MAX);
        }
        total = total + amounts[k];
        k = k + 1;
    }
    proof {
        assert(amounts@.take(n as int) =~= amounts@);
    }
    total
}

/// What became of a victim once its queued damage landed.
#[derive(Clone, Copy, Debug, PartialEq, Eq, Structural)]
pub enum DamageOutcome {
    /// Still above zero hit points.
    Alive,
    /// A monster dropped to zero or below; it is despawned.
    DeadMonster,
    /// The player dropped to zero or below; the game is over.
    DeadPlayer,
}

/// Applies one victim's damage queue: hit points drop by the queue's sum,
/// the victim's tile is stained, and death is decided by whether the hit
/// points fell below one.
pub fn damage_system_entity(
    map: &mut GameMap,
    stats: &mut CombatStats,
    pos: Position,
    is_player: bool,
    amounts: &Vec<i32>,
) -> (outcome: DamageOutcome)
    requires
        old(map).wf(),
        old(map).spec_in_bounds(pos.x as int, pos.y as int),
        damage_prefixes_fit(amounts@),
        i32::MIN <= old(stats).hp - spec_damage_sum(amounts@) <= i32::MAX,
    ensures
        final(stats).hp == old(stats).hp - spec_damage_sum(amounts@),
        final(stats).max_hp == old(stats).max_hp,
        final(stats).defense == old(stats).defense,
        final(stats).power == old(stats).power,
        outcome == (if final(stats).hp < 1 {
            if is_player {
                DamageOutcome::DeadPlayer
            } else {
                DamageOutcome::DeadMonster
            }
        } else {
            DamageOutcome::Alive
        }),
        final(map).wf(),
        forall|j: usize|
            #[trigger] final(map).spec_bloody(j) == (old(map).spec_bloody(j) || j as int == old(
                map,
            ).spec_idx(pos.x as int, pos.y as int)),
        final(map).tiles == old(map).tiles,
        final(map).width == old(map).width,
        final(map).height == old(map).height,
        final(map).revealed_tiles == old(map).revealed_tiles,
        final(map).visible_tiles == old(map).visible_tiles,
        final(map).blocked == old(map).blocked,
        final(map).depth == old(map).depth,
        final(map).tile_content == old(map).tile_content,
{
    let total = damage_total(amounts);
    stats.hp = stats.hp - total;

    let idx = map.xy_idx(pos.x, pos.y);
    map.add_bloodstain(idx);

    if stats.hp < 1 {
        if is_player {
            DamageOutcome::DeadPlayer
        } else {
            DamageOutcome::DeadMonster
        }
    } else {
        DamageOutcome::Alive
    }
}

} // verus!
