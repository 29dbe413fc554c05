//! The components that the game attaches to entities, as plain data.
//!
//! An entity is named by a numeric id; the stores that map ids to components
//! live outside the crate and hand these values to the verified systems.

use vstd::prelude::*;

verus! {

/// Numeric id of an entity in the surrounding entity store.
pub type Entity = u64;

/// A location on the tile grid.
#[derive(Clone, Copy, Debug, PartialEq, Eq, Structural)]
pub struct Position {
    pub x: i32,
    pub y: i32,
}

/// How an entity is drawn: a glyph in code page 437 and two colors.
#[derive(Clone, Copy, Debug, PartialEq, Eq)]
pub struct Renderable {
    pub glyph: u16,
    pub fg: (u8, u8, u8),
    pub bg: (u8, u8, u8),
    pub render_order: i32,
}

/// Marks the player's entity.
#[derive(Clone, Copy, Debug, PartialEq, Eq, Structural)]
pub struct Player {}

/// The tiles an entity can currently see, and how far it can look.
#[derive(Clone, Debug)]
pub struct Viewshed {
    pub visible_tiles: Vec<Position>,
    pub range: i32,
    pub dirty: bool,
}

/// Marks a hostile creature.
#[derive(Clone, Copy, Debug, PartialEq, Eq, Structural)]
pub struct Monster {}

/// A display name.
#[derive(Clone, Debug)]
pub struct Name {
    pub name: String,
}

/// Marks an entity that keeps others out of its tile.
#[derive(Clone, Copy, Debug, PartialEq, Eq, Structural)]
pub struct BlocksTile {}

/// Hit points and melee numbers of a combatant.
#[derive(Clone, Copy, Debug, PartialEq, Eq, Structural)]
pub struct CombatStats {
    pub max_hp: i32,
    pub hp: i32,
    pub defense: i32,
    pub power: i32,
}

/// Intent: attack the named target this turn.
#[derive(Clone, Copy, Debug, PartialEq, Eq, Structural)]
pub struct WantsToMelee {
    pub target: Entity,
}

/// Damage queued against an entity, one entry per hit.
#[derive(Clone, Debug)]
pub struct SufferDamage {
    pub amount: Vec<i32>,
}

/// Marks an entity that can be picked up.
#[derive(Clone, Copy, Debug, PartialEq, Eq, Structural)]
pub struct Item {}

/// Drinking or applying this restores hit points.
#[derive(Clone, Copy, Debug, PartialEq, Eq, Structural)]
pub struct ProvidesHealing {
    pub heal_amount: i32,
}

/// The item sits in the named owner's backpack.
#[derive(Clone, Copy, Debug, PartialEq, Eq, Structural)]
pub struct InBackpack {
    pub owner: Entity,
}

/// Intent: pick an item up from the floor.
#[derive(Clone, Copy, Debug, PartialEq, Eq, Structural)]
pub struct WantsToPickupItem {
    pub collected_by: Entity,
    pub item: Entity,
}

/// Intent: use an item, optionally aimed at a tile.
#[derive(Clone, Copy, Debug, PartialEq, Eq, Structural)]
pub struct WantsToUseItem {
    pub item: Entity,
    pub target: Option<Position>,
}

/// Intent: drop an item at the owner's feet.
#[derive(Clone, Copy, Debug, PartialEq, Eq, Structural)]
pub struct WantsToDropItem {
    pub item: Entity,
}

/// The item vanishes after one use.
#[derive(Clone, Copy, Debug, PartialEq, Eq, Structural)]
pub struct Consumable {}

/// The item is aimed at a tile within this range.
#[derive(Clone, Copy, Debug, PartialEq, Eq, Structural)]
pub struct Ranged {
    pub range: i32,
}

/// Using the item deals this much damage.
#[derive(Clone, Copy, Debug, PartialEq, Eq, Structural)]
pub struct InflictsDamage {
    pub damage: i32,
}

/// The item's effect covers tiles within this radius.
#[derive(Clone, Copy, Debug, PartialEq, Eq, Structural)]
pub struct AreaOfEffect {
    pub radius: i32,
}

/// Using the item confuses the target for this many turns.
#[derive(Clone, Copy, Debug, PartialEq, Eq, Structural)]
pub struct Confusion {
    pub turns: i32,
}

/// The entity is confused and loses turns.
#[derive(Clone, Copy, Debug, PartialEq, Eq, Structural)]
pub struct Confused {
    pub turns: i32,
}

/// Intent: stand still this turn.
#[derive(Clone, Copy, Debug, PartialEq, Eq, Structural)]
pub struct Waiting {}

/// Where a piece of equipment is worn.
#[derive(Clone, Copy, Debug, PartialEq, Eq, Structural)]
pub enum EquipmentSlot {
    Melee,
    Shield,
}

/// The item can be equipped into the given slot.
#[derive(Clone, Copy, Debug, PartialEq, Eq, Structural)]
pub struct Equippable {
    pub slot: EquipmentSlot,
}

/// The item is currently worn by its owner.
#[derive(Clone, Copy, Debug, PartialEq, Eq, Structural)]
pub struct Equipped {
    pub owner: Entity,
    pub slot: EquipmentSlot,
}

/// Extra attack power while equipped.
#[derive(Clone, Copy, Debug, PartialEq, Eq, Structural)]
pub struct MeleePowerBonus {
    pub power: i32,
}

/// Extra defense while equipped.
#[derive(Clone, Copy, Debug, PartialEq, Eq, Structural)]
pub struct DefenseBonus {
    pub defense: i32,
}

/// Intent: take a worn item off.
#[derive(Clone, Copy, Debug, PartialEq, Eq, Structural)]
pub struct WantsToRemoveItem {
    pub item: Entity,
}

/// Marks an entity that is not shown until spotted.
#[derive(Clone, Copy, Debug, PartialEq, Eq, Structural)]
pub struct Hidden {}

/// The entity changed tiles this turn.
#[derive(Clone, Copy, Debug, PartialEq, Eq, Structural)]
pub struct EntityMoved {}

/// Stepping onto this entity's tile sets it off.
#[derive(Clone, Copy, Debug, PartialEq, Eq, Structural)]
pub struct EntryTrigger {}

/// The trigger fires once and is then spent.
#[derive(Clone, Copy, Debug, PartialEq, Eq, Structural)]
pub struct SingleActivation {}

/// Eating the item resets the hunger clock.
#[derive(Clone, Copy, Debug, PartialEq, Eq, Structural)]
pub struct ProvidesFood {}

/// Using the item reveals the whole map.
#[derive(Clone, Copy, Debug, PartialEq, Eq, Structural)]
pub struct MagicMapper {}

/// How hungry an entity is.
#[derive(Clone, Copy, Debug, PartialEq, Eq, Structural)]
pub enum HungerState {
    WellFed,
    Normal,
    Hungry,
    Starving,
}

/// Counts turns down toward the next hunger stage.
#[derive(Clone, Copy, Debug, PartialEq, Eq, Structural)]
pub struct HungerClock {
    pub state: HungerState,
    pub duration: i32,
}

/// Whether the list holds the given entity id.
pub fn contains_entity(v: &Vec<Entity>, e: Entity) -> (r: bool)
    ensures
        r == v@.contains(e),
{
    let n = v.len();
    let mut i: usize = 0;
    while i < n
        invariant
            i <= n,
            n == v@.len(),
            forall|j: int| 0 <= j < i ==> v@[j] != e,
        decreases n - i,
    {
        if v[i] == e {
            return true;
        }
        i = i + 1;
    }
    false
}

/// Whether the list holds the given position.
pub fn contains_position(v: &Vec<Position>, p: Position) -> (r: bool)
    ensures
        r == v@.contains(p),
{
    let n = v.len();
    let mut i: usize = 0;
    while i < n
        invariant
            i <= n,
            n == v@.len(),
            forall|j: int| 0 <= j < i ==> v@[j] != p,
        decreases n - i,
    {
        if v[i].x == p.x && v[i].y == p.y {
            return true;
        }
        i = i + 1;
    }
    false
}

} // verus!
