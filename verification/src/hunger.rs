//! The hunger clock: it counts a turn down, and on reaching zero either
//! worsens a stage or, when already starving, hurts.

use vstd::prelude::*;

use crate::components::{HungerClock, HungerState};
use crate::run_state::RunState;

verus! {

/// What one tick of the hunger clock announced.
#[derive(Clone, Copy, Debug, PartialEq, Eq, Structural)]
pub enum HungerTickEvent {
    /// Nothing changed this turn.
    NoChange,
    /// The entity is no longer well fed.
    BecameNormal,
    /// The entity got hungry.
    BecameHungry,
    /// The entity is starving now.
    BecameStarving,
    /// Starvation inflicts one point of damage.
    StarvationDamage,
}

/// The hunger clock ticks for an entity only on its own kind of turn.
pub fn hunger_applies(state: RunState, is_player: bool) -> (r: bool)
    ensures
        r == match state {
            RunState::PlayerTurn => is_player,
            RunState::MonsterTurn => !is_player,
            _ => false,
        },
{
    match state {
        RunState::PlayerTurn => is_player,
        RunState::MonsterTurn => !is_player,
        _ => false,
    }
}

/// The clock after one tick: the duration drops by one; at zero the stage
/// worsens and the duration resets to two hundred, except that a starving
/// clock keeps counting.
pub open spec fn spec_hunger_tick(clock: HungerClock) -> HungerClock {
    let down = (clock.duration - 1) as i32;
    if down >= 1 {
        HungerClock { state: clock.state, duration: down }
    } else {
        match clock.state {
            HungerState::WellFed => HungerClock { state: HungerState::Normal, duration: 200 },
            HungerState::Normal => HungerClock { state: HungerState::Hungry, duration: 200 },
            HungerState::Hungry => HungerClock { state: HungerState::Starving, duration: 200 },
            HungerState::Starving => HungerClock { state: HungerState::Starving, duration: down },
        }
    }
}

/// What one tick announces: a stage change names the new stage, and a tick
/// at zero while starving hurts.
pub open spec fn spec_hunger_event(clock: HungerClock) -> HungerTickEvent {
    if clock.duration - 1 >= 1 {
        HungerTickEvent::NoChange
    } else {
        match clock.state {
            HungerState::WellFed => HungerTickEvent::BecameNormal,
            HungerState::Normal => HungerTickEvent::BecameHungry,
            HungerState::Hungry => HungerTickEvent::BecameStarving,
            HungerState::Starving => HungerTickEvent::StarvationDamage,
        }
    }
}

/// Ticks one entity's hunger clock, provided the turn applies to it.
pub fn hunger_tick(clock: &mut HungerClock, proceed: bool) -> (ev: HungerTickEvent)
    requires
        old(clock).duration > i32::MIN,
    ensures
        proceed ==> *final(clock) == spec_hunger_tick(*old(clock)),
        proceed ==> ev == spec_hunger_event(*old(clock)),
        !proceed ==> *final(clock) == *old(clock) && ev == HungerTickEvent::NoChange,
{
    if !proceed {
        return HungerTickEvent::NoChange;
    }
    clock.duration = clock.duration - 1;
    if clock.duration < 1 {
        match clock.state {
            HungerState::WellFed => {
                clock.state = HungerState::Normal;
                clock.duration = 200;
                HungerTickEvent::BecameNormal
            },
            HungerState::Normal => {
                clock.state = HungerState::Hungry;
                clock.duration = 200;
                HungerTickEvent::BecameHungry
            },
            HungerState::Hungry => {
                clock.state = HungerState::Starving;
                clock.duration = 200;
                HungerTickEvent::BecameStarving
            },
            HungerState::Starving => HungerTickEvent::StarvationDamage,
        }
    } else {
        HungerTickEvent::NoChange
    }
}

} // verus!
