//! Using items: whom a use targets, what healing and eating do, and which
//! worn items an equip pushes aside.
//!
//! The blast shape of an area effect comes from the line-of-sight sweep
//! outside the crate; everything that decides follows here.

use vstd::prelude::*;

use crate::components::{
    contains_entity, CombatStats, Entity, Equipped, EquipmentSlot, HungerClock, HungerState,
    Position,
};
use crate::game_map::GameMap;

verus! {

/// Drinking or applying a healing item: hit points rise by the heal amount,
/// capped at the maximum.
pub fn apply_healing(stats: &mut CombatStats, heal_amount: i32)
    requires
        old(stats).hp + heal_amount <= i32::MAX,
        old(stats).hp + heal_amount >= i32::MIN,
    ensures
        final(stats).hp == if old(stats).hp + heal_amount <= old(stats).max_hp {
            old(stats).hp + heal_amount
        } else {
            old(stats).max_hp as int
        },
        final(stats).max_hp == old(stats).max_hp,
        final(stats).defense == old(stats).defense,
        final(stats).power == old(stats).power,
{
    let healed = stats.hp + heal_amount;
    if healed <= stats.max_hp {
        stats.hp = healed;
    } else {
        stats.hp = stats.max_hp;
    }
}

/// Eating: the hunger clock resets to well fed with twenty turns on it.
pub fn eat(clock: &mut HungerClock)
    ensures
        final(clock).state == HungerState::WellFed,
        final(clock).duration == 20,
{
    clock.state = HungerState::WellFed;
    clock.duration = 20;
}

/// The entities of `content` that are combatants, in order.
pub open spec fn spec_combatants_in(content: Seq<Entity>, combatants: Seq<Entity>) -> Seq<Entity>
    decreases content.len(),
{
    if content.len() == 0 {
        Seq::empty()
    } else {
        let rest = spec_combatants_in(content.drop_last(), combatants);
        if combatants.contains(content.last()) {
            rest.push(content.last())
        } else {
            rest
        }
    }
}

proof fn lemma_combatants_in_take_step(content: Seq<Entity>, combatants: Seq<Entity>, k: int)
    requires
        0 <= k < content.len(),
    ensures
        spec_combatants_in(content.take(k + 1), combatants) == if combatants.contains(content[k]) {
            spec_combatants_in(content.take(k), combatants).push(content[k])
        } else {
            spec_combatants_in(content.take(k), combatants)
        },
{
    assert(content.take(k + 1).drop_last() =~= content.take(k));
    assert(content.take(k + 1).last() == content[k]);
}

/// The combatants standing on the tile `target`: the single-target case of
/// an aimed item.
#[verifier::loop_isolation(false)]
pub fn targets_at_tile(map: &GameMap, target: Position, combatants: &Vec<Entity>) -> (r: Vec<
    Entity,
>)
    requires
        map.wf(),
        map.spec_in_bounds(target.x as int, target.y as int),
    ensures
        r@ == spec_combatants_in(
            map.tile_content[map.spec_idx(target.x as int, target.y as int)]@,
            combatants@,
        ),
{
    let idx = map.xy_idx(target.x, target.y);
    let content = &map.tile_content[idx];
    let mut r: Vec<Entity> = Vec::new();
    let n = content.len();
    let mut k: usize = 0;
    proof {
        assert(content@.take(0) =~= Seq::<Entity>::empty());
    }
    while k < n
        invariant
            n == content@.len(),
            k <= n,
            r@ == spec_combatants_in(content@.take(k as int), combatants@),
        decreases n - k,
    {
        proof {
            lemma_combatants_in_take_step(content@, combatants@, k as int);
        }
        let mob = content[k];
        if contains_entity(combatants, mob) {
            r.push(mob);
        }
        k = k + 1;
    }
    proof {
        assert(content@.take(n as int) =~= content@);
    }
    r
}

/// A blast tile that counts: strictly inside the map's rim.
pub open spec fn spec_inside_rim(m: GameMap, p: Position) -> bool {
    p.x > 0 && p.x < m.width - 1 && p.y > 0 && p.y < m.height - 1
}

/// The blast tiles strictly inside the rim, in order.
pub open spec fn spec_clip_blast(m: GameMap, s: Seq<Position>) -> Seq<Position>
    decreases s.len(),
{
    if s.len() == 0 {
        Seq::empty()
    } else {
        let rest = spec_clip_blast(m, s.drop_last());
        if spec_inside_rim(m, s.last()) {
            rest.push(s.last())
        } else {
            rest
        }
    }
}

proof fn lemma_clip_blast_take_step(m: GameMap, s: Seq<Position>, k: int)
    requires
        0 <= k < s.len(),
    ensures
        spec_clip_blast(m, s.take(k + 1)) == if spec_inside_rim(m, s[k]) {
            spec_clip_blast(m, s.take(k)).push(s[k])
        } else {
            spec_clip_blast(m, s.take(k))
        },
{
    assert(s.take(k + 1).drop_last() =~= s.take(k));
    assert(s.take(k + 1).last() == s[k]);
}

/// Keeps the blast tiles that lie strictly inside the rim, in order.
#[verifier::loop_isolation(false)]
pub fn clip_blast_tiles(map: &GameMap, blast: &Vec<Position>) -> (r: Vec<Position>)
    requires
        map.wf(),
    ensures
        r@ == spec_clip_blast(*map, blast@),
        forall|j: int| 0 <= j < r@.len() ==> spec_inside_rim(*map, #[trigger] r@[j]),
{
    let mut r: Vec<Position> = Vec::new();
    let n = blast.len();
    let mut k: usize = 0;
    proof {
        assert(blast@.take(0) =~= Seq::<Position>::empty());
    }
    while k < n
        invariant
            n == blast@.len(),
            k <= n,
            r@ == spec_clip_blast(*map, blast@.take(k as int)),
            forall|j: int| 0 <= j < r@.len() ==> spec_inside_rim(*map, #[trigger] r@[j]),
        decreases n - k,
    {
        proof {
            lemma_clip_blast_take_step(*map, blast@, k as int);
        }
        let p = blast[k];
        if p.x > 0 && p.x < map.width - 1 && p.y > 0 && p.y < map.height - 1 {
            r.push(p);
        }
        k = k + 1;
    }
    proof {
        assert(blast@.take(n as int) =~= blast@);
    }
    r
}

/// The combatants standing on any of the tiles, tile by tile, in order.
pub open spec fn spec_targets_in_tiles(
    m: GameMap,
    tiles: Seq<Position>,
    combatants: Seq<Entity>,
) -> Seq<Entity>
    decreases tiles.len(),
{
    if tiles.len() == 0 {
        Seq::empty()
    } else {
        spec_targets_in_tiles(m, tiles.drop_last(), combatants) + spec_combatants_in(
            m.tile_content[m.spec_idx(tiles.last().x as int, tiles.last().y as int)]@,
            combatants,
        )
    }
}

proof fn lemma_targets_in_tiles_take_step(
    m: GameMap,
    tiles: Seq<Position>,
    combatants: Seq<Entity>,
    k: int,
)
    requires
        0 <= k < tiles.len(),
    ensures
        spec_targets_in_tiles(m, tiles.take(k + 1), combatants) == spec_targets_in_tiles(
            m,
            tiles.take(k),
            combatants,
        ) + spec_combatants_in(
            m.tile_content[m.spec_idx(tiles[k].x as int, tiles[k].y as int)]@,
            combatants,
        ),
{
    assert(tiles.take(k + 1).drop_last() =~= tiles.take(k));
    assert(tiles.take(k + 1).last() == tiles[k]);
}

/// Collects the combatants hit by a blast over the given tiles.
#[verifier::loop_isolation(false)]
pub fn targets_in_tiles(map: &GameMap, tiles: &Vec<Position>, combatants: &Vec<Entity>) -> (r: Vec<
    Entity,
>)
    requires
        map.wf(),
        forall|j: int|
            0 <= j < tiles@.len() ==> map.spec_in_bounds(
                #[trigger] tiles@[j].x as int,
                tiles@[j].y as int,
            ),
    ensures
        r@ == spec_targets_in_tiles(*map, tiles@, combatants@),
{
    let mut r: Vec<Entity> = Vec::new();
    let n = tiles.len();
    let mut k: usize = 0;
    proof {
        assert(tiles@.take(0) =~= Seq::<Position>::empty());
    }
    while k < n
        invariant
            n == tiles@.len(),
            k <= n,
            r@ == spec_targets_in_tiles(*map, tiles@.take(k as int), combatants@),
        decreases n - k,
    {
        proof {
            lemma_targets_in_tiles_take_step(*map, tiles@, combatants@, k as int);
        }
        let tile = tiles[k];
        let mut found = targets_at_tile(map, tile, combatants);
        let m2 = found.len();
        let mut j: usize = 0;
        let ghost r_mid = r@;
        let ghost found_seq = found@;
        while j < m2
            invariant
                m2 == found_seq.len(),
                j <= m2,
                found@ == found_seq,
                r@ == r_mid + found_seq.take(j as int),
            decreases m2 - j,
        {
            proof {
                assert(found_seq.take(j as int + 1) =~= found_seq.take(j as int).push(
                    found_seq[j as int],
                ));
            }
            r.push(found[j]);
            j = j + 1;
        }
        proof {
            assert(found_seq.take(m2 as int) =~= found_seq);
        }
        k = k + 1;
    }
    proof {
        assert(tiles@.take(n as int) =~= tiles@);
    }
    r
}

/// Whom a use of an item reaches: the user itself when unaimed; the
/// combatants on the aimed tile; or, with a blast shape, the combatants on
/// every blast tile inside the rim.
pub open spec fn spec_selected_targets(
    m: GameMap,
    user: Entity,
    target: Option<Position>,
    blast: Option<Seq<Position>>,
    combatants: Seq<Entity>,
) -> Seq<Entity> {
    match target {
        Option::None => Seq::empty().push(user),
        Option::Some(t) => match blast {
            Option::None => spec_combatants_in(
                m.tile_content[m.spec_idx(t.x as int, t.y as int)]@,
                combatants,
            ),
            Option::Some(b) => spec_targets_in_tiles(m, spec_clip_blast(m, b), combatants),
        },
    }
}

/// Selects the targets of one item use. `blast` carries the tiles of an
/// area effect, already swept outside; without one, an aimed use hits the
/// aimed tile alone.
pub fn select_targets(
    map: &GameMap,
    user: Entity,
    target: Option<Position>,
    blast: Option<&Vec<Position>>,
    combatants: &Vec<Entity>,
) -> (r: Vec<Entity>)
    requires
        map.wf(),
        target matches Option::Some(t) ==> map.spec_in_bounds(t.x as int, t.y as int),
    ensures
        r@ == spec_selected_targets(
            *map,
            user,
            target,
            match blast {
                Option::None => Option::None,
                Option::Some(b) => Option::Some(b@),
            },
            combatants@,
        ),
{
    match target {
        Option::None => {
            let mut r: Vec<Entity> = Vec::new();
            r.push(user);
            r
        },
        Option::Some(t) => {
            match blast {
                Option::None => targets_at_tile(map, t, combatants),
                Option::Some(b) => {
                    let clipped = clip_blast_tiles(map, b);
                    proof {
                        assert forall|j: int| 0 <= j < clipped@.len() implies map.spec_in_bounds(
                            #[trigger] clipped@[j].x as int,
                            clipped@[j].y as int,
                        ) by {
                            assert(spec_inside_rim(*map, clipped@[j]));
                        }
                    }
                    targets_in_tiles(map, &clipped, combatants)
                },
            }
        },
    }
}

/// The worn items of `user` in the given slot, in order: what an equip of a
/// new item into that slot pushes aside.
pub open spec fn spec_unequip_list(
    equipped: Seq<(Entity, Equipped)>,
    user: Entity,
    slot: EquipmentSlot,
) -> Seq<Entity>
    decreases equipped.len(),
{
    if equipped.len() == 0 {
        Seq::empty()
    } else {
        let rest = spec_unequip_list(equipped.drop_last(), user, slot);
        if equipped.last().1.owner == user && equipped.last().1.slot == slot {
            rest.push(equipped.last().0)
        } else {
            rest
        }
    }
}

proof fn lemma_unequip_list_take_step(
    equipped: Seq<(Entity, Equipped)>,
    user: Entity,
    slot: EquipmentSlot,
    k: int,
)
    requires
        0 <= k < equipped.len(),
    ensures
        spec_unequip_list(equipped.take(k + 1), user, slot) == if equipped[k].1.owner == user
            && equipped[k].1.slot == slot {
            spec_unequip_list(equipped.take(k), user, slot).push(equipped[k].0)
        } else {
            spec_unequip_list(equipped.take(k), user, slot)
        },
{
    assert(equipped.take(k + 1).drop_last() =~= equipped.take(k));
    assert(equipped.take(k + 1).last() == equipped[k]);
}

/// Lists the items to take off before `user` equips into `slot`: everything
/// it already wears in that slot.
#[verifier::loop_isolation(false)]
pub fn unequip_list(equipped: &Vec<(Entity, Equipped)>, user: Entity, slot: EquipmentSlot) -> (r:
    Vec<Entity>)
    ensures
        r@ == spec_unequip_list(equipped@, user, slot),
{
    let mut r: Vec<Entity> = Vec::new();
    let n = equipped.len();
    let mut k: usize = 0;
    proof {
        assert(equipped@.take(0) =~= Seq::<(Entity, Equipped)>::empty());
    }
    while k < n
        invariant
            n == equipped@.len(),
            k <= n,
            r@ == spec_unequip_list(equipped@.take(k as int), user, slot),
        decreases n - k,
    {
        proof {
            lemma_unequip_list_take_step(equipped@, user, slot, k as int);
        }
        let (item_entity, already_equipped) = equipped[k];
        if already_equipped.owner == user && already_equipped.slot == slot {
            r.push(item_entity);
        }
        k = k + 1;
    }
    proof {
        assert(equipped@.take(n as int) =~= equipped@);
    }
    r
}

} // verus!
