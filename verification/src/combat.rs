//! Melee resolution: equipment and hunger modify attack and defense, and the
//! difference becomes queued damage.

use vstd::prelude::*;

use crate::components::{CombatStats, DefenseBonus, Entity, Equipped, HungerState, MeleePowerBonus};

verus! {

/// Sum of the melee power bonuses owned by `who`.
pub open spec fn spec_power_bonus(s: Seq<(MeleePowerBonus, Equipped)>, who: Entity) -> int
    decreases s.len(),
{
    if s.len() == 0 {
        0
    } else {
        spec_power_bonus(s.drop_last(), who) + if s.last().1.owner == who {
            s.last().0.power as int
        } else {
            0
        }
    }
}

/// Sum of the defense bonuses owned by `who`.
pub open spec fn spec_defense_bonus(s: Seq<(DefenseBonus, Equipped)>, who: Entity) -> int
    decreases s.len(),
{
    if s.len() == 0 {
        0
    } else {
        spec_defense_bonus(s.drop_last(), who) + if s.last().1.owner == who {
            s.last().0.defense as int
        } else {
            0
        }
    }
}

/// Every partial attack-power sum stays within `i32`, as the running total
/// of the attacker does.
pub open spec fn power_prefixes_fit(
    base: int,
    s: Seq<(MeleePowerBonus, Equipped)>,
    who: Entity,
) -> bool {
    forall|k: int|
        0 <= k <= s.len() ==> i32::MIN <= base + #[trigger] spec_power_bonus(s.take(k), who)
            <= i32::MAX
}

/// Every partial defense sum stays within `i32`.
pub open spec fn defense_prefixes_fit(
    base: int,
    s: Seq<(DefenseBonus, Equipped)>,
    who: Entity,
) -> bool {
    forall|k: int|
        0 <= k <= s.len() ==> i32::MIN <= base + #[trigger] spec_defense_bonus(s.take(k), who)
            <= i32::MAX
}

proof fn lemma_power_bonus_take_step(s: Seq<(MeleePowerBonus, Equipped)>, who: Entity, k: int)
    requires
        0 <= k < s.len(),
    ensures
        spec_power_bonus(s.take(k + 1), who) == spec_power_bonus(s.take(k), who) + if s[k].1.owner
            == who {
            s[k].0.power as int
        } else {
            0
        },
{
    assert(s.take(k + 1).drop_last() =~= s.take(k));
    assert(s.take(k + 1).last() == s[k]);
}

proof fn lemma_defense_bonus_take_step(s: Seq<(DefenseBonus, Equipped)>, who: Entity, k: int)
    requires
        0 <= k < s.len(),
    ensures
        spec_defense_bonus(s.take(k + 1), who) == spec_defense_bonus(s.take(k), who) + if s[k].1.owner
            == who {
            s[k].0.defense as int
        } else {
            0
        },
{
    assert(s.take(k + 1).drop_last() =~= s.take(k));
    assert(s.take(k + 1).last() == s[k]);
}

/// The attacker's total power: base power, owned equipment bonuses, and one
/// more when well fed.
pub open spec fn spec_total_power(
    stats: CombatStats,
    bonuses: Seq<(MeleePowerBonus, Equipped)>,
    who: Entity,
    hunger: Option<HungerState>,
) -> int {
    stats.power + spec_power_bonus(bonuses, who) + if hunger == Some(HungerState::WellFed) {
        1int
    } else {
        0int
    }
}

/// The victim's total defense: base defense plus owned equipment bonuses.
pub open spec fn spec_total_defense(
    stats: CombatStats,
    bonuses: Seq<(DefenseBonus, Equipped)>,
    who: Entity,
) -> int {
    stats.defense + spec_defense_bonus(bonuses, who)
}

/// How one melee attack came out.
#[derive(Clone, Copy, Debug, PartialEq, Eq, Structural)]
pub enum MeleeOutcome {
    /// The victim was already at zero hit points; nothing happens.
    TargetDead,
    /// Power did not exceed defense; the attack does no harm.
    CannotHurt,
    /// The victim is to suffer this much damage.
    Hit { damage: i32 },
}

/// Resolves one melee attack by `attacker` against `victim`.
///
/// A dead victim is left alone. Otherwise power is the attacker's base power
/// plus its equipped bonuses, plus one when well fed; defense is the
/// victim's base defense plus its equipped bonuses; the attack hits for
/// power minus defense when that is positive.
pub fn melee_attack(
    attacker: Entity,
    attacker_stats: &CombatStats,
    hunger: Option<HungerState>,
    victim: Entity,
    victim_stats: &CombatStats,
    power_bonuses: &Vec<(MeleePowerBonus, Equipped)>,
    defense_bonuses: &Vec<(DefenseBonus, Equipped)>,
) -> (r: MeleeOutcome)
    requires
        power_prefixes_fit(attacker_stats.power as int, power_bonuses@, attacker),
        defense_prefixes_fit(victim_stats.defense as int, defense_bonuses@, victim),
        hunger == Some(HungerState::WellFed) ==> attacker_stats.power + spec_power_bonus(
            power_bonuses@,
            attacker,
        ) + 1 <= i32::MAX,
        i32::MIN <= spec_total_power(*attacker_stats, power_bonuses@, attacker, hunger)
            - spec_total_defense(*victim_stats, defense_bonuses@, victim) <= i32::MAX,
    ensures
        r == {
            let damage = spec_total_power(*attacker_stats, power_bonuses@, attacker, hunger)
                - spec_total_defense(*victim_stats, defense_bonuses@, victim);
            if victim_stats.hp <= 0 {
                MeleeOutcome::TargetDead
            } else if damage <= 0 {
                MeleeOutcome::CannotHurt
            } else {
                MeleeOutcome::Hit { damage: damage as i32 }
            }
        },
{
    if victim_stats.hp <= 0 {
        return MeleeOutcome::TargetDead;
    }

    let mut power = attacker_stats.power;
    let n = power_bonuses.len();
    let mut k: usize = 0;
    proof {
        assert(power_bonuses@.take(0) =~= Seq::<(MeleePowerBonus, Equipped)>::empty());
    }
    while k < n
        invariant
            n == power_bonuses@.len(),
            k <= n,
            power == attacker_stats.power + spec_power_bonus(power_bonuses@.take(k as int), attacker),
            power_prefixes_fit(attacker_stats.power as int, power_bonuses@, attacker),
        decreases n - k,
    {
        proof {
            lemma_power_bonus_take_step(power_bonuses@, attacker, k as int);
            assert(i32::MIN <= attacker_stats.power + spec_power_bonus(
                power_bonuses@.take(k as int + 1),
                attacker,
            ) <= i32::MAX);
        }
        let (bonus, equipped) = power_bonuses[k];
        if equipped.owner == attacker {
            power = power + bonus.power;
        }
        k = k + 1;
    }
    proof {
        assert(power_bonuses@.take(n as int) =~= power_bonuses@);
    }

    match hunger {
        Some(state) => {
            if state == HungerState::WellFed {
                power = power + 1;
            }
        },
        None => {},
    }

    let mut defense = victim_stats.defense;
    let m = defense_bonuses.len();
    let mut j: usize = 0;
    proof {
        assert(defense_bonuses@.take(0) =~= Seq::<(DefenseBonus, Equipped)>::empty());
    }
    while j < m
        invariant
            m == defense_bonuses@.len(),
            j <= m,
            defense == victim_stats.defense + spec_defense_bonus(
                defense_bonuses@.take(j as int),
                victim,
            ),
            defense_prefixes_fit(victim_stats.defense as int, defense_bonuses@, victim),
        decreases m - j,
    {
        proof {
            lemma_defense_bonus_take_step(defense_bonuses@, victim, j as int);
            assert(i32::MIN <= victim_stats.defense + spec_defense_bonus(
                defense_bonuses@.take(j as int + 1),
                victim,
            ) <= i32::MAX);
        }
        let (bonus, equipped) = defense_bonuses[j];
        if equipped.owner == victim {
            defense = defense + bonus.defense;
        }
        j = j + 1;
    }
    proof {
        assert(defense_bonuses@.take(m as int) =~= defense_bonuses@);
    }

    let damage = power - defense;
    if damage <= 0 {
        MeleeOutcome::CannotHurt
    } else {
        MeleeOutcome::Hit { damage }
    }
}

} // verus!
