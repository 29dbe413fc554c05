//! Changing levels: what is carried along, what is left behind, and the
//! breather the descent grants.

use vstd::prelude::*;

use crate::components::{CombatStats, Entity};

verus! {

/// Some pair names this item with this owner.
pub open spec fn spec_owned(pairs: Seq<(Entity, Entity)>, item: Entity, owner: Entity) -> bool {
    exists|k: int| 0 <= k < pairs.len() && pairs[k] == (item, owner)
}

/// Whether the list of (item, owner) pairs names the pair.
pub fn contains_owned(pairs: &Vec<(Entity, Entity)>, item: Entity, owner: Entity) -> (r: bool)
    ensures
        r == spec_owned(pairs@, item, owner),
{
    let n = pairs.len();
    let mut i: usize = 0;
    while i < n
        invariant
            i <= n,
            n == pairs@.len(),
            forall|j: int| 0 <= j < i ==> pairs@[j] != (item, owner),
        decreases n - i,
    {
        let (e, o) = pairs[i];
        if e == item && o == owner {
            return true;
        }
        i = i + 1;
    }
    false
}

/// An entity stays across a level change exactly when it is the player or
/// sits in the player's backpack or hangs on the player's body.
pub open spec fn spec_kept(
    e: Entity,
    player: Entity,
    backpack: Seq<(Entity, Entity)>,
    equipped: Seq<(Entity, Entity)>,
) -> bool {
    e == player || spec_owned(backpack, e, player) || spec_owned(equipped, e, player)
}

/// The entities to delete, in input order: everything that is not kept.
pub open spec fn spec_to_delete(
    entities: Seq<Entity>,
    player: Entity,
    backpack: Seq<(Entity, Entity)>,
    equipped: Seq<(Entity, Entity)>,
) -> Seq<Entity>
    decreases entities.len(),
{
    if entities.len() == 0 {
        Seq::empty()
    } else {
        let rest = spec_to_delete(entities.drop_last(), player, backpack, equipped);
        if !spec_kept(entities.last(), player, backpack, equipped) {
            rest.push(entities.last())
        } else {
            rest
        }
    }
}

proof fn lemma_to_delete_take_step(
    entities: Seq<Entity>,
    player: Entity,
    backpack: Seq<(Entity, Entity)>,
    equipped: Seq<(Entity, Entity)>,
    k: int,
)
    requires
        0 <= k < entities.len(),
    ensures
        spec_to_delete(entities.take(k + 1), player, backpack, equipped) == if !spec_kept(
            entities[k],
            player,
            backpack,
            equipped,
        ) {
            spec_to_delete(entities.take(k), player, backpack, equipped).push(entities[k])
        } else {
            spec_to_delete(entities.take(k), player, backpack, equipped)
        },
{
    assert(entities.take(k + 1).drop_last() =~= entities.take(k));
    assert(entities.take(k + 1).last() == entities[k]);
}

/// Lists the entities a level change despawns: everything but the player
/// and what the player carries or wears. `backpack` and `equipped` are the
/// (item, owner) pairs in the world.
#[verifier::loop_isolation(false)]
pub fn entities_to_remove_on_level_change(
    entities: &Vec<Entity>,
    player: Entity,
    backpack: &Vec<(Entity, Entity)>,
    equipped: &Vec<(Entity, Entity)>,
) -> (r: Vec<Entity>)
    ensures
        r@ == spec_to_delete(entities@, player, backpack@, equipped@),
{
    let mut to_delete: Vec<Entity> = Vec::new();
    let n = entities.len();
    let mut k: usize = 0;
    proof {
        assert(entities@.take(0) =~= Seq::<Entity>::empty());
    }
    while k < n
        invariant
            n == entities@.len(),
            k <= n,
            to_delete@ == spec_to_delete(entities@.take(k as int), player, backpack@, equipped@),
        decreases n - k,
    {
        proof {
            lemma_to_delete_take_step(entities@, player, backpack@, equipped@, k as int);
        }
        let entity = entities[k];
        let mut should_delete = true;
        if entity == player {
            should_delete = false;
        }
        if contains_owned(backpack, entity, player) {
            should_delete = false;
        }
        if contains_owned(equipped, entity, player) {
            should_delete = false;
        }
        if should_delete {
            to_delete.push(entity);
        }
        k = k + 1;
    }
    proof {
        assert(entities@.take(n as int) =~= entities@);
    }
    to_delete
}

/// The breather the descent grants: hit points recover to at least half
/// the maximum.
pub fn level_change_heal(stats: &mut CombatStats)
    requires
        old(stats).max_hp >= 0,
    ensures
        final(stats).hp == if old(stats).hp >= old(stats).max_hp / 2 {
            old(stats).hp as int
        } else {
            old(stats).max_hp / 2
        },
        final(stats).max_hp == old(stats).max_hp,
        final(stats).defense == old(stats).defense,
        final(stats).power == old(stats).power,
{
    let half = ((stats.max_hp as u32) / 2) as i32;
    if stats.hp < half {
        stats.hp = half;
    }
}

} // verus!
