//! The weighted spawn table: entries carry positive weights, and a roll in
//! the total weight picks the entry whose band it falls into.

use vstd::prelude::*;
use vstd::pervasive::arbitrary;

use crate::rng::roll_dice;

verus! {

/// A table of names with positive weights.
#[derive(Clone, Debug)]
pub struct RandomTable {
    pub entries: Vec<(&'static str, i32)>,
    pub total_weight: i32,
}

/// Sum of the weights of the entries, front to back.
pub open spec fn spec_weight_sum(s: Seq<(&'static str, i32)>) -> int
    decreases s.len(),
{
    if s.len() == 0 {
        0
    } else {
        s[0].1 + spec_weight_sum(s.drop_first())
    }
}

/// Appending an entry raises the sum by its weight.
proof fn lemma_weight_sum_push(s: Seq<(&'static str, i32)>, e: (&'static str, i32))
    ensures
        spec_weight_sum(s.push(e)) == spec_weight_sum(s) + e.1,
    decreases s.len(),
{
    if s.len() == 0 {
        assert(s.push(e)[0] == e);
        assert(s.push(e).drop_first() =~= Seq::<(&'static str, i32)>::empty());
        assert(spec_weight_sum(Seq::<(&'static str, i32)>::empty()) == 0);
        assert(spec_weight_sum(s.push(e)) == e.1 + spec_weight_sum(s.push(e).drop_first()));
    } else {
        assert(s.push(e)[0] == s[0]);
        assert(s.push(e).drop_first() =~= s.drop_first().push(e));
        lemma_weight_sum_push(s.drop_first(), e);
    }
}

/// The entry a roll lands on: each entry owns a band as wide as its weight,
/// in order, and the roll falls into exactly one band.
pub open spec fn spec_pick(s: Seq<(&'static str, i32)>, roll: int) -> &'static str
    decreases s.len(),
{
    if s.len() == 0 {
        arbitrary()
    } else if roll < s[0].1 {
        s[0].0
    } else {
        spec_pick(s.drop_first(), roll - s[0].1)
    }
}

impl RandomTable {
    /// Every weight is at least one and the total is their sum.
    pub open spec fn wf(self) -> bool {
        &&& self.total_weight == spec_weight_sum(self.entries@)
        &&& forall|k: int| 0 <= k < self.entries@.len() ==> #[trigger] self.entries@[k].1 >= 1
    }

    /// An empty table.
    pub fn new() -> (r: RandomTable)
        ensures
            r.wf(),
            r.entries@ == Seq::<(&'static str, i32)>::empty(),
            r.total_weight == 0,
    {
        RandomTable { entries: Vec::new(), total_weight: 0 }
    }

    /// Adds an entry; one with no weight is left out.
    pub fn add(self, name: &'static str, weight: i32) -> (r: RandomTable)
        requires
            self.wf(),
            self.total_weight + weight <= i32::MAX,
        ensures
            r.wf(),
            weight > 0 ==> r.entries@ == self.entries@.push((name, weight)) && r.total_weight
                == self.total_weight + weight,
            weight <= 0 ==> r == self,
    {
        if weight > 0 {
            let mut entries = self.entries;
            proof {
                lemma_weight_sum_push(entries@, (name, weight));
            }
            let total_weight = self.total_weight + weight;
            entries.push((name, weight));
            RandomTable { entries, total_weight }
        } else {
            self
        }
    }

    /// Picks the entry whose band the roll falls into. The roll must lie in
    /// `0 ..` the total weight, as one drawn die in that range does.
    #[verifier::loop_isolation(false)]
    pub fn roll_at(&self, roll: i32) -> (name: &'static str)
        requires
            self.wf(),
            0 <= roll < self.total_weight,
        ensures
            name == spec_pick(self.entries@, roll as int),
    {
        let mut roll_left = roll;
        let mut index: usize = 0;
        proof {
            assert(self.entries@.skip(0) =~= self.entries@);
        }
        proof {
            assert(self.entries@.skip(self.entries@.len() as int) =~= Seq::<(&'static str, i32)>::empty());
        }
        proof {
            if self.entries@.len() == 0 {
                assert(false);
            }
            assert(self.entries@.skip(0)[0] == self.entries@[0]);
        }
        let n = self.entries.len();
        while roll_left >= self.entries[index].1
            invariant
                0 <= roll_left,
                n == self.entries@.len(),
                index < n,
                (roll_left as int) < spec_weight_sum(self.entries@.skip(index as int)),
                spec_pick(self.entries@.skip(index as int), roll_left as int) == spec_pick(
                    self.entries@,
                    roll as int,
                ),
            decreases self.entries@.len() - index,
        {
            let weight = self.entries[index].1;
            proof {
                assert(self.entries@.skip(index as int)[0] == self.entries@[index as int]);
                assert(self.entries@.skip(index as int).drop_first() =~= self.entries@.skip(
                    index as int + 1,
                ));
                assert(spec_weight_sum(self.entries@.skip(index as int)) == weight
                    + spec_weight_sum(self.entries@.skip(index as int + 1)));
                if index + 1 == n {
                    assert(self.entries@.skip(index as int + 1) =~= Seq::<(&'static str, i32)>::empty());
                    assert(false);
                }
            }
            roll_left = roll_left - weight;
            index = index + 1;
        }
        proof {
            assert(self.entries@.skip(index as int)[0] == self.entries@[index as int]);
        }
        self.entries[index].0
    }

    /// Rolls one die over the whole table and picks the entry its band
    /// names. Whatever the die deals, the name picked is the one some roll
    /// in range picks.
    pub fn roll(&self, rng: &mut rltk::RandomNumberGenerator) -> (name: &'static str)
        requires
            self.wf(),
            0 < self.total_weight < i32::MAX,
        ensures
            exists|r2: int|
                0 <= r2 < self.total_weight && name == #[trigger] spec_pick(self.entries@, r2),
    {
        let roll = roll_dice(rng, 1, self.total_weight);
        let name = self.roll_at(roll - 1);
        proof {
            assert(0 <= roll - 1 < self.total_weight && name == spec_pick(
                self.entries@,
                roll as int - 1,
            ));
        }
        name
    }
}

} // verus!
