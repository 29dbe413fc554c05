//! Traps: stepping onto a tile sets off every trigger standing there.

use vstd::prelude::*;

use crate::components::{contains_entity, Entity, Position};
use crate::game_map::GameMap;

verus! {

/// The triggers of `content` that a mover sets off: every listed trigger on
/// the tile except the mover itself, in order.
pub open spec fn spec_triggered(
    content: Seq<Entity>,
    mover: Entity,
    triggers: Seq<Entity>,
) -> Seq<Entity>
    decreases content.len(),
{
    if content.len() == 0 {
        Seq::empty()
    } else {
        let rest = spec_triggered(content.drop_last(), mover, triggers);
        if content.last() != mover && triggers.contains(content.last()) {
            rest.push(content.last())
        } else {
            rest
        }
    }
}

proof fn lemma_triggered_take_step(
    content: Seq<Entity>,
    mover: Entity,
    triggers: Seq<Entity>,
    k: int,
)
    requires
        0 <= k < content.len(),
    ensures
        spec_triggered(content.take(k + 1), mover, triggers) == if content[k] != mover
            && triggers.contains(content[k]) {
            spec_triggered(content.take(k), mover, triggers).push(content[k])
        } else {
            spec_triggered(content.take(k), mover, triggers)
        },
{
    assert(content.take(k + 1).drop_last() =~= content.take(k));
    assert(content.take(k + 1).last() == content[k]);
}

/// Finds what a mover standing at `pos` sets off: every trigger on its
/// tile other than itself, in the tile's order.
#[verifier::loop_isolation(false)]
pub fn triggered_at(map: &GameMap, pos: Position, mover: Entity, triggers: &Vec<Entity>) -> (r: Vec<
    Entity,
>)
    requires
        map.wf(),
        map.spec_in_bounds(pos.x as int, pos.y as int),
    ensures
        r@ == spec_triggered(
            map.tile_content[map.spec_idx(pos.x as int, pos.y as int)]@,
            mover,
            triggers@,
        ),
{
    let idx = map.xy_idx(pos.x, pos.y);
    let content = &map.tile_content[idx];
    let mut r: Vec<Entity> = Vec::new();
    let n = content.len();
    let mut k: usize = 0;
    proof {
        assert(content@.take(0) =~= Seq::<Entity>::empty());
    }
    while k < n
        invariant
            n == content@.len(),
            k <= n,
            r@ == spec_triggered(content@.take(k as int), mover, triggers@),
        decreases n - k,
    {
        proof {
            lemma_triggered_take_step(content@, mover, triggers@, k as int);
        }
        let other = content[k];
        if other != mover && contains_entity(triggers, other) {
            r.push(other);
        }
        k = k + 1;
    }
    proof {
        assert(content@.take(n as int) =~= content@);
    }
    r
}

} // verus!
