//! The dungeon's content: what each creature and item spawns as, the
//! weighted table of what a room may hold per depth, and how a region is
//! filled from drawn dice.
//!
//! A bundle describes the components of a freshly spawned entity as plain
//! values; the entity store outside the crate turns it into an entity.

use vstd::prelude::*;

use crate::components::{CombatStats, EquipmentSlot, HungerClock, HungerState, Position, Renderable};
use crate::game_map::{GameMap, TileType, MAPWIDTH};
use crate::random_table::{spec_pick, RandomTable};
use crate::rect::Rect;

verus! {

/// The most entries a single region roll may place, less three.
pub const MAX_SPAWNS: i32 = 4;

/// The components of a freshly spawned entity, as plain values. A `None` or
/// `false` field is simply absent from the entity.
#[derive(Clone, Copy, Debug, PartialEq, Eq)]
pub struct SpawnBundle {
    pub position: Position,
    pub renderable: Renderable,
    pub name: &'static str,
    pub player: bool,
    pub monster: bool,
    pub blocks_tile: bool,
    pub item: bool,
    pub consumable: bool,
    pub viewshed_range: Option<i32>,
    pub combat_stats: Option<CombatStats>,
    pub provides_healing: Option<i32>,
    pub ranged: Option<i32>,
    pub inflicts_damage: Option<i32>,
    pub area_of_effect: Option<i32>,
    pub confusion: Option<i32>,
    pub equippable: Option<EquipmentSlot>,
    pub melee_power_bonus: Option<i32>,
    pub defense_bonus: Option<i32>,
    pub provides_food: bool,
    pub magic_mapper: bool,
    pub hidden: bool,
    pub entry_trigger: bool,
    pub single_activation: bool,
    pub hunger_clock: Option<HungerClock>,
}

/// A bundle with nothing but a position, a glyph and a name; every creature
/// and item starts from this.
pub open spec fn spec_bare_bundle(
    x: i32,
    y: i32,
    glyph: u16,
    fg: (u8, u8, u8),
    render_order: i32,
    name: &'static str,
) -> SpawnBundle {
    SpawnBundle {
        position: Position { x: x, y: y },
        renderable: Renderable { glyph: glyph, fg: fg, bg: (0u8, 0u8, 0u8), render_order: render_order },
        name: name,
        player: false,
        monster: false,
        blocks_tile: false,
        item: false,
        consumable: false,
        viewshed_range: Option::None,
        combat_stats: Option::None,
        provides_healing: Option::None,
        ranged: Option::None,
        inflicts_damage: Option::None,
        area_of_effect: Option::None,
        confusion: Option::None,
        equippable: Option::None,
        melee_power_bonus: Option::None,
        defense_bonus: Option::None,
        provides_food: false,
        magic_mapper: false,
        hidden: false,
        entry_trigger: false,
        single_activation: false,
        hunger_clock: Option::None,
    }
}

/// A bundle with nothing but a position, a glyph and a name.
fn bare_bundle(x: i32, y: i32, glyph: u16, fg: (u8, u8, u8), render_order: i32, name: &'static str) -> (r:
    SpawnBundle)
    ensures
        r == spec_bare_bundle(x, y, glyph, fg, render_order, name),
{
    SpawnBundle {
        position: Position { x, y },
        renderable: Renderable { glyph, fg, bg: (0, 0, 0), render_order },
        name,
        player: false,
        monster: false,
        blocks_tile: false,
        item: false,
        consumable: false,
        viewshed_range: Option::None,
        combat_stats: Option::None,
        provides_healing: Option::None,
        ranged: Option::None,
        inflicts_damage: Option::None,
        area_of_effect: Option::None,
        confusion: Option::None,
        equippable: Option::None,
        melee_power_bonus: Option::None,
        defense_bonus: Option::None,
        provides_food: false,
        magic_mapper: false,
        hidden: false,
        entry_trigger: false,
        single_activation: false,
        hunger_clock: Option::None,
    }
}

/// The player: yellow `@`, thirty hit points, well fed, and eyes on the
/// world.
pub open spec fn spec_player(x: i32, y: i32) -> SpawnBundle {
    SpawnBundle {
        player: true,
        viewshed_range: Option::Some(8i32),
        combat_stats: Option::Some(CombatStats { max_hp: 30, hp: 30, defense: 2, power: 5 }),
        hunger_clock: Option::Some(HungerClock { state: HungerState::WellFed, duration: 20 }),
        ..spec_bare_bundle(x, y, 64, (255u8, 255u8, 0u8), 1, "Player")
    }
}

/// Spawns the player at `(x, y)`.
pub fn player(player_x: i32, player_y: i32) -> (r: SpawnBundle)
    ensures
        r == spec_player(player_x, player_y),
{
    let mut b = bare_bundle(player_x, player_y, 64, (255, 255, 0), 1, "Player");
    b.player = true;
    b.viewshed_range = Option::Some(8);
    b.combat_stats = Option::Some(CombatStats { max_hp: 30, hp: 30, defense: 2, power: 5 });
    b.hunger_clock = Option::Some(HungerClock { state: HungerState::WellFed, duration: 20 });
    b
}

/// A monster: red glyph, sixteen hit points, blocking its tile.
pub open spec fn spec_monster(x: i32, y: i32, glyph: u16, name: &'static str) -> SpawnBundle {
    SpawnBundle {
        monster: true,
        blocks_tile: true,
        viewshed_range: Option::Some(8i32),
        combat_stats: Option::Some(CombatStats { max_hp: 16, hp: 16, defense: 1, power: 4 }),
        ..spec_bare_bundle(x, y, glyph, (255u8, 0u8, 0u8), 5, name)
    }
}

/// Spawns a monster with the given glyph and name.
fn monster(x: i32, y: i32, glyph: u16, name: &'static str) -> (r: SpawnBundle)
    ensures
        r == spec_monster(x, y, glyph, name),
{
    let mut b = bare_bundle(x, y, glyph, (255, 0, 0), 5, name);
    b.monster = true;
    b.blocks_tile = true;
    b.viewshed_range = Option::Some(8);
    b.combat_stats = Option::Some(CombatStats { max_hp: 16, hp: 16, defense: 1, power: 4 });
    b
}

/// Spawns an orc: a monster drawn as `o`.
pub fn orc(x: i32, y: i32) -> (r: SpawnBundle)
    ensures
        r == spec_monster(x, y, 111, "Orc"),
{
    monster(x, y, 111, "Orc")
}

/// Spawns a goblin: a monster drawn as `g`.
pub fn goblin(x: i32, y: i32) -> (r: SpawnBundle)
    ensures
        r == spec_monster(x, y, 103, "Goblin"),
{
    monster(x, y, 103, "Goblin")
}

/// A potion restoring eight hit points.
pub open spec fn spec_health_potion(x: i32, y: i32) -> SpawnBundle {
    SpawnBundle {
        item: true,
        consumable: true,
        provides_healing: Option::Some(8i32),
        ..spec_bare_bundle(x, y, 173, (255u8, 0u8, 255u8), 10, "Health Potion")
    }
}

/// Spawns a health potion.
pub fn health_potion(x: i32, y: i32) -> (r: SpawnBundle)
    ensures
        r == spec_health_potion(x, y),
{
    let mut b = bare_bundle(x, y, 173, (255, 0, 255), 10, "Health Potion");
    b.item = true;
    b.consumable = true;
    b.provides_healing = Option::Some(8);
    b
}

/// A scroll dealing eight damage at range six.
pub open spec fn spec_magic_missile_scroll(x: i32, y: i32) -> SpawnBundle {
    SpawnBundle {
        item: true,
        consumable: true,
        ranged: Option::Some(6i32),
        inflicts_damage: Option::Some(8i32),
        ..spec_bare_bundle(x, y, 41, (0u8, 255u8, 255u8), 10, "Magic Missile Scroll")
    }
}

/// Spawns a magic missile scroll.
pub fn magic_missile_scroll(x: i32, y: i32) -> (r: SpawnBundle)
    ensures
        r == spec_magic_missile_scroll(x, y),
{
    let mut b = bare_bundle(x, y, 41, (0, 255, 255), 10, "Magic Missile Scroll");
    b.item = true;
    b.consumable = true;
    b.ranged = Option::Some(6);
    b.inflicts_damage = Option::Some(8);
    b
}

/// A scroll dealing twenty damage in a radius of three, at range six.
pub open spec fn spec_fireball_scroll(x: i32, y: i32) -> SpawnBundle {
    SpawnBundle {
        item: true,
        consumable: true,
        ranged: Option::Some(6i32),
        inflicts_damage: Option::Some(20i32),
        area_of_effect: Option::Some(3i32),
        ..spec_bare_bundle(x, y, 41, (255u8, 165u8, 0u8), 10, "Fireball Scroll")
    }
}

/// Spawns a fireball scroll.
pub fn fireball_scroll(x: i32, y: i32) -> (r: SpawnBundle)
    ensures
        r == spec_fireball_scroll(x, y),
{
    let mut b = bare_bundle(x, y, 41, (255, 165, 0), 10, "Fireball Scroll");
    b.item = true;
    b.consumable = true;
    b.ranged = Option::Some(6);
    b.inflicts_damage = Option::Some(20);
    b.area_of_effect = Option::Some(3);
    b
}

/// A scroll confusing its target for four turns, at range six.
pub open spec fn spec_confusion_scroll(x: i32, y: i32) -> SpawnBundle {
    SpawnBundle {
        item: true,
        consumable: true,
        ranged: Option::Some(6i32),
        confusion: Option::Some(4i32),
        ..spec_bare_bundle(x, y, 41, (255u8, 192u8, 203u8), 10, "Confusion Scroll")
    }
}

/// Spawns a confusion scroll.
pub fn confusion_scroll(x: i32, y: i32) -> (r: SpawnBundle)
    ensures
        r == spec_confusion_scroll(x, y),
{
    let mut b = bare_bundle(x, y, 41, (255, 192, 203), 10, "Confusion Scroll");
    b.item = true;
    b.consumable = true;
    b.ranged = Option::Some(6);
    b.confusion = Option::Some(4);
    b
}

/// A dagger: melee equipment worth two power.
pub open spec fn spec_dagger(x: i32, y: i32) -> SpawnBundle {
    SpawnBundle {
        item: true,
        equippable: Option::Some(EquipmentSlot::Melee),
        melee_power_bonus: Option::Some(2i32),
        ..spec_bare_bundle(x, y, 47, (0u8, 255u8, 255u8), 10, "Dagger")
    }
}

/// Spawns a dagger.
pub fn dagger(x: i32, y: i32) -> (r: SpawnBundle)
    ensures
        r == spec_dagger(x, y),
{
    let mut b = bare_bundle(x, y, 47, (0, 255, 255), 10, "Dagger");
    b.item = true;
    b.equippable = Option::Some(EquipmentSlot::Melee);
    b.melee_power_bonus = Option::Some(2);
    b
}

/// A longsword: melee equipment worth four power.
pub open spec fn spec_longsword(x: i32, y: i32) -> SpawnBundle {
    SpawnBundle {
        item: true,
        equippable: Option::Some(EquipmentSlot::Melee),
        melee_power_bonus: Option::Some(4i32),
        ..spec_bare_bundle(x, y, 47, (255u8, 255u8, 0u8), 10, "Longsword")
    }
}

/// Spawns a longsword.
pub fn longsword(x: i32, y: i32) -> (r: SpawnBundle)
    ensures
        r == spec_longsword(x, y),
{
    let mut b = bare_bundle(x, y, 47, (255, 255, 0), 10, "Longsword");
    b.item = true;
    b.equippable = Option::Some(EquipmentSlot::Melee);
    b.melee_power_bonus = Option::Some(4);
    b
}

/// A shield worth one defense.
pub open spec fn spec_shield(x: i32, y: i32) -> SpawnBundle {
    SpawnBundle {
        item: true,
        equippable: Option::Some(EquipmentSlot::Shield),
        defense_bonus: Option::Some(1i32),
        ..spec_bare_bundle(x, y, 40, (0u8, 255u8, 255u8), 10, "Shield")
    }
}

/// Spawns a shield.
pub fn shield(x: i32, y: i32) -> (r: SpawnBundle)
    ensures
        r == spec_shield(x, y),
{
    let mut b = bare_bundle(x, y, 40, (0, 255, 255), 10, "Shield");
    b.item = true;
    b.equippable = Option::Some(EquipmentSlot::Shield);
    b.defense_bonus = Option::Some(1);
    b
}

/// A tower shield worth three defense; it shares the plain shield's name.
pub open spec fn spec_tower_shield(x: i32, y: i32) -> SpawnBundle {
    SpawnBundle {
        item: true,
        equippable: Option::Some(EquipmentSlot::Shield),
        defense_bonus: Option::Some(3i32),
        ..spec_bare_bundle(x, y, 40, (255u8, 255u8, 0u8), 10, "Shield")
    }
}

/// Spawns a tower shield.
pub fn tower_shield(x: i32, y: i32) -> (r: SpawnBundle)
    ensures
        r == spec_tower_shield(x, y),
{
    let mut b = bare_bundle(x, y, 40, (255, 255, 0), 10, "Shield");
    b.item = true;
    b.equippable = Option::Some(EquipmentSlot::Shield);
    b.defense_bonus = Option::Some(3);
    b
}

/// Rations: food that resets the hunger clock.
pub open spec fn spec_rations(x: i32, y: i32) -> SpawnBundle {
    SpawnBundle {
        item: true,
        consumable: true,
        provides_food: true,
        ..spec_bare_bundle(x, y, 37, (0u8, 255u8, 0u8), 10, "Rations")
    }
}

/// Spawns rations.
pub fn rations(x: i32, y: i32) -> (r: SpawnBundle)
    ensures
        r == spec_rations(x, y),
{
    let mut b = bare_bundle(x, y, 37, (0, 255, 0), 10, "Rations");
    b.item = true;
    b.consumable = true;
    b.provides_food = true;
    b
}

/// A scroll revealing the whole map.
pub open spec fn spec_magic_mapping_scroll(x: i32, y: i32) -> SpawnBundle {
    SpawnBundle {
        item: true,
        consumable: true,
        magic_mapper: true,
        ..spec_bare_bundle(x, y, 41, (0u8, 205u8, 205u8), 10, "Scroll of Magic Mapping")
    }
}

/// Spawns a magic mapping scroll.
pub fn magic_mapping_scroll(x: i32, y: i32) -> (r: SpawnBundle)
    ensures
        r == spec_magic_mapping_scroll(x, y),
{
    let mut b = bare_bundle(x, y, 41, (0, 205, 205), 10, "Scroll of Magic Mapping");
    b.item = true;
    b.consumable = true;
    b.magic_mapper = true;
    b
}

/// A hidden bear trap: it fires once on entry, for six damage.
pub open spec fn spec_bear_trap(x: i32, y: i32) -> SpawnBundle {
    SpawnBundle {
        hidden: true,
        entry_trigger: true,
        single_activation: true,
        inflicts_damage: Option::Some(6i32),
        ..spec_bare_bundle(x, y, 94, (255u8, 0u8, 0u8), 9, "Bear Trap")
    }
}

/// Spawns a bear trap.
pub fn bear_trap(x: i32, y: i32) -> (r: SpawnBundle)
    ensures
        r == spec_bear_trap(x, y),
{
    let mut b = bare_bundle(x, y, 94, (255, 0, 0), 9, "Bear Trap");
    b.hidden = true;
    b.entry_trigger = true;
    b.single_activation = true;
    b.inflicts_damage = Option::Some(6);
    b
}

/// The spawn table of one room at the given depth: each name with its
/// weight, in order, entries without weight left out.
pub open spec fn spec_room_table_entries(map_depth: int) -> Seq<(&'static str, i32)> {
    let s = Seq::<(&'static str, i32)>::empty().push(("Goblin", 10i32));
    let s = if 1 + map_depth > 0 {
        s.push(("Orc", (1 + map_depth) as i32))
    } else {
        s
    };
    let s = s.push(("Health Potion", 7i32));
    let s = if 2 + map_depth > 0 {
        s.push(("Fireball Scroll", (2 + map_depth) as i32))
    } else {
        s
    };
    let s = if 2 + map_depth > 0 {
        s.push(("Confusion Scroll", (2 + map_depth) as i32))
    } else {
        s
    };
    let s = s.push(("Magic Missile Scroll", 4i32));
    let s = s.push(("Dagger", 3i32));
    let s = s.push(("Shield", 3i32));
    let s = if map_depth - 1 > 0 {
        s.push(("Longsword", (map_depth - 1) as i32))
    } else {
        s
    };
    let s = if map_depth - 1 > 0 {
        s.push(("Tower Shield", (map_depth - 1) as i32))
    } else {
        s
    };
    let s = s.push(("Rations", 10i32));
    let s = s.push(("Magic Mapping Scroll", 2i32));
    let s = s.push(("Bear Trap", 2i32));
    s
}

/// Builds the spawn table for one room at the given depth: goblins, orcs
/// that grow with depth, potions, scrolls, weapons that appear from the
/// second level on, rations, and traps.
pub fn room_table(map_depth: i32) -> (r: RandomTable)
    requires
        -10000 <= map_depth <= 10000,
    ensures
        r.wf(),
        r.entries@ == spec_room_table_entries(map_depth as int),
{
    RandomTable::new()
        .add("Goblin", 10)
        .add("Orc", 1 + map_depth)
        .add("Health Potion", 7)
        .add("Fireball Scroll", 2 + map_depth)
        .add("Confusion Scroll", 2 + map_depth)
        .add("Magic Missile Scroll", 4)
        .add("Dagger", 3)
        .add("Shield", 3)
        .add("Longsword", map_depth - 1)
        .add("Tower Shield", map_depth - 1)
        .add("Rations", 10)
        .add("Magic Mapping Scroll", 2)
        .add("Bear Trap", 2)
}

/// What a spawn name becomes at the tile `idx`: the bundle of the creature
/// or item it names, or nothing for an unknown name.
pub open spec fn spec_spawn_entity(name: Seq<char>, idx: int) -> Option<SpawnBundle> {
    let x = (idx % (MAPWIDTH as int)) as i32;
    let y = (idx / (MAPWIDTH as int)) as i32;
    if name == "Goblin"@ {
        Option::Some(spec_monster(x, y, 103, "Goblin"))
    } else if name == "Orc"@ {
        Option::Some(spec_monster(x, y, 111, "Orc"))
    } else if name == "Health Potion"@ {
        Option::Some(spec_health_potion(x, y))
    } else if name == "Fireball Scroll"@ {
        Option::Some(spec_fireball_scroll(x, y))
    } else if name == "Confusion Scroll"@ {
        Option::Some(spec_confusion_scroll(x, y))
    } else if name == "Magic Missile Scroll"@ {
        Option::Some(spec_magic_missile_scroll(x, y))
    } else if name == "Dagger"@ {
        Option::Some(spec_dagger(x, y))
    } else if name == "Shield"@ {
        Option::Some(spec_shield(x, y))
    } else if name == "Longsword"@ {
        Option::Some(spec_longsword(x, y))
    } else if name == "Tower Shield"@ {
        Option::Some(spec_tower_shield(x, y))
    } else if name == "Rations"@ {
        Option::Some(spec_rations(x, y))
    } else if name == "Magic Mapping Scroll"@ {
        Option::Some(spec_magic_mapping_scroll(x, y))
    } else if name == "Bear Trap"@ {
        Option::Some(spec_bear_trap(x, y))
    } else {
        Option::None
    }
}

/// Turns a spawn-list entry — a tile index and a name — into the bundle to
/// spawn there.
pub fn spawn_entity(spawn_idx: usize, spawn_name: &str) -> (r: Option<SpawnBundle>)
    requires
        spawn_idx < MAPWIDTH * 43,
    ensures
        r == spec_spawn_entity(spawn_name@, spawn_idx as int),
{
    let x = (spawn_idx % MAPWIDTH) as i32;
    let y = (spawn_idx / MAPWIDTH) as i32;

    if str_eq(spawn_name, "Goblin") {
        Option::Some(goblin(x, y))
    } else if str_eq(spawn_name, "Orc") {
        Option::Some(orc(x, y))
    } else if str_eq(spawn_name, "Health Potion") {
        Option::Some(health_potion(x, y))
    } else if str_eq(spawn_name, "Fireball Scroll") {
        Option::Some(fireball_scroll(x, y))
    } else if str_eq(spawn_name, "Confusion Scroll") {
        Option::Some(confusion_scroll(x, y))
    } else if str_eq(spawn_name, "Magic Missile Scroll") {
        Option::Some(magic_missile_scroll(x, y))
    } else if str_eq(spawn_name, "Dagger") {
        Option::Some(dagger(x, y))
    } else if str_eq(spawn_name, "Shield") {
        Option::Some(shield(x, y))
    } else if str_eq(spawn_name, "Longsword") {
        Option::Some(longsword(x, y))
    } else if str_eq(spawn_name, "Tower Shield") {
        Option::Some(tower_shield(x, y))
    } else if str_eq(spawn_name, "Rations") {
        Option::Some(rations(x, y))
    } else if str_eq(spawn_name, "Magic Mapping Scroll") {
        Option::Some(magic_mapping_scroll(x, y))
    } else if str_eq(spawn_name, "Bear Trap") {
        Option::Some(bear_trap(x, y))
    } else {
        Option::None
    }
}

/// Compares two strings character by character.
fn str_eq(a: &str, b: &str) -> (r: bool)
    ensures
        r == (a@ == b@),
{
    let a_string = a.to_owned();
    let b_string = b.to_owned();
    let r = a_string == b_string;
    proof {
        if a@ == b@ {
            assert(a_string@ =~= b_string@);
        }
    }
    r
}

/// The floor tiles of one grid row between `x1` (exclusive) and `x2`
/// (exclusive), left to right.
pub open spec fn spec_row_floor(m: GameMap, y: int, x1: int, x2: int) -> Seq<usize>
    decreases x2 - x1,
{
    if x2 - 1 < x1 + 1 {
        Seq::empty()
    } else {
        spec_row_floor(m, y, x1, x2 - 1) + if m.tiles[m.spec_idx(x2 - 1, y)] == TileType::Floor {
            seq![m.spec_idx(x2 - 1, y) as usize]
        } else {
            Seq::empty()
        }
    }
}

/// The floor tiles strictly inside the rectangle, row by row.
pub open spec fn spec_rect_floor(m: GameMap, room: Rect, y2: int) -> Seq<usize>
    decreases y2 - room.y1,
{
    if y2 - 1 < room.y1 + 1 {
        Seq::empty()
    } else {
        spec_rect_floor(m, room, y2 - 1) + spec_row_floor(m, y2 - 1, room.x1 as int, room.x2 as int)
    }
}

/// Collects the floor tiles strictly inside a room, row by row: the places
/// a spawn may land on.
#[verifier::loop_isolation(false)]
pub fn room_floor_tiles(map: &GameMap, room: &Rect) -> (r: Vec<usize>)
    requires
        map.wf(),
        room.y1 + 1 < room.y2 ==> 0 <= room.y1 + 1 && room.y2 <= map.height,
        room.y1 + 1 < room.y2 && room.x1 + 1 < room.x2 ==> 0 <= room.x1 + 1 && room.x2 <= map.width,
    ensures
        r@ == spec_rect_floor(*map, *room, room.y2 as int),
{
    let mut r: Vec<usize> = Vec::new();
    if (room.y2 as i64) - 1 < (room.y1 as i64) + 1 {
        return r;
    }
    let mut y = room.y1 + 1;
    while y < room.y2
        invariant
            room.y1 + 1 <= y <= room.y2,
            r@ == spec_rect_floor(*map, *room, y as int),
        decreases room.y2 - y,
    {
        let ghost base = r@;
        if (room.x2 as i64) - 1 >= (room.x1 as i64) + 1 {
            let mut x = room.x1 + 1;
            proof {
                assert(base + spec_row_floor(*map, y as int, room.x1 as int, room.x1 as int + 1)
                    =~= base);
            }
            while x < room.x2
                invariant
                    room.x1 + 1 <= x <= room.x2,
                    room.y1 + 1 <= y < room.y2,
                    r@ == base + spec_row_floor(*map, y as int, room.x1 as int, x as int),
                decreases room.x2 - x,
            {
                let idx = map.xy_idx(x, y);
                let ghost before = r@;
                if map.tiles[idx] == TileType::Floor {
                    r.push(idx);
                    proof {
                        assert(r@ =~= base + spec_row_floor(
                            *map,
                            y as int,
                            room.x1 as int,
                            x as int + 1,
                        ));
                    }
                } else {
                    proof {
                        assert(r@ =~= base + spec_row_floor(
                            *map,
                            y as int,
                            room.x1 as int,
                            x as int + 1,
                        ));
                    }
                }
                x = x + 1;
            }
            proof {
                assert(r@ =~= spec_rect_floor(*map, *room, y as int + 1));
            }
        } else {
            proof {
                assert(spec_row_floor(*map, y as int, room.x1 as int, room.x2 as int)
                    =~= Seq::<usize>::empty());
                assert(r@ =~= spec_rect_floor(*map, *room, y as int + 1));
            }
        }
        y = y + 1;
    }
    r
}

/// The picks a region spawn makes: each drawn pair of rolls takes one open
/// tile out of the running and rolls the table for what stands there.
pub open spec fn spec_region_picks(
    table: Seq<(&'static str, i32)>,
    areas: Seq<usize>,
    index_rolls: Seq<i32>,
    table_rolls: Seq<i32>,
    n: int,
) -> Seq<(usize, &'static str)>
    decreases n,
{
    if n <= 0 {
        Seq::empty()
    } else {
        let pos = if areas.len() == 1 {
            0int
        } else {
            index_rolls[0] - 1
        };
        let first = (areas[pos], spec_pick(table, table_rolls[0] - 1));
        Seq::empty().push(first) + spec_region_picks(
            table,
            areas.remove(pos),
            index_rolls.drop_first(),
            table_rolls.drop_first(),
            n - 1,
        )
    }
}

/// How many spawns a region gets: one die plus the depth less four, capped
/// by the number of open tiles, and never negative.
pub open spec fn spec_num_spawns(area_len: int, map_depth: int, num_roll: int) -> int {
    let wanted = num_roll + (map_depth - 1) - 3;
    let capped = if area_len < wanted {
        area_len
    } else {
        wanted
    };
    if capped < 0 {
        0
    } else {
        capped
    }
}

/// Fills a region with spawns. `num_roll` is one drawn die deciding how
/// many; each spawn then consumes one index roll — picking an open tile,
/// which leaves the running — and one table roll, picking from the table.
/// The chosen pairs are appended to the spawn list in the order rolled.
#[verifier::loop_isolation(false)]
pub fn spawn_region(
    table: &RandomTable,
    area: &Vec<usize>,
    map_depth: i32,
    num_roll: i32,
    index_rolls: &Vec<i32>,
    table_rolls: &Vec<i32>,
    spawn_list: &mut Vec<(usize, &'static str)>,
)
    requires
        table.wf(),
        table.total_weight > 0,
        1 <= num_roll <= MAX_SPAWNS + 3,
        -10000 <= map_depth <= 10000,
        index_rolls@.len() >= spec_num_spawns(area@.len() as int, map_depth as int, num_roll as int),
        table_rolls@.len() >= spec_num_spawns(area@.len() as int, map_depth as int, num_roll as int),
        forall|i: int|
            0 <= i < index_rolls@.len() ==> 1 <= #[trigger] index_rolls@[i] && index_rolls@[i]
                <= area@.len() - i,
        forall|i: int|
            0 <= i < table_rolls@.len() ==> 1 <= #[trigger] table_rolls@[i] && table_rolls@[i]
                <= table.total_weight,
    ensures
        final(spawn_list)@ == old(spawn_list)@ + spec_region_picks(
            table.entries@,
            area@,
            index_rolls@,
            table_rolls@,
            spec_num_spawns(area@.len() as int, map_depth as int, num_roll as int),
        ),
{
    let ghost num = spec_num_spawns(area@.len() as int, map_depth as int, num_roll as int);
    let mut areas: Vec<usize> = Vec::new();
    let area_len = area.len();
    let mut c: usize = 0;
    while c < area_len
        invariant
            c <= area_len,
            area_len == area@.len(),
            areas@ == area@.take(c as int),
        decreases area_len - c,
    {
        proof {
            assert(area@.take(c as int + 1) =~= area@.take(c as int).push(area@[c as int]));
        }
        areas.push(area[c]);
        c = c + 1;
    }
    proof {
        assert(area@.take(area_len as int) =~= area@);
    }

    let wanted = num_roll + (map_depth - 1) - 3;
    let num_spawns: usize = if wanted < 0 {
        0
    } else if areas.len() < wanted as usize {
        areas.len()
    } else {
        wanted as usize
    };
    proof {
        assert(num_spawns as int == num);
        assert(index_rolls@.skip(0) =~= index_rolls@);
        assert(table_rolls@.skip(0) =~= table_rolls@);
    }

    let mut i: usize = 0;
    while i < num_spawns
        invariant
            i <= num_spawns,
            num_spawns as int == num,
            areas@.len() == area@.len() - i,
            spawn_list@ + spec_region_picks(
                table.entries@,
                areas@,
                index_rolls@.skip(i as int),
                table_rolls@.skip(i as int),
                num - i,
            ) == old(spawn_list)@ + spec_region_picks(
                table.entries@,
                area@,
                index_rolls@,
                table_rolls@,
                num,
            ),
        decreases num_spawns - i,
    {
        let ghost prev_areas = areas@;
        let ghost prev_list = spawn_list@;
        proof {
            assert(index_rolls@.skip(i as int)[0] == index_rolls@[i as int]);
            assert(table_rolls@.skip(i as int)[0] == table_rolls@[i as int]);
            assert(index_rolls@.skip(i as int).drop_first() =~= index_rolls@.skip(i as int + 1));
            assert(table_rolls@.skip(i as int).drop_first() =~= table_rolls@.skip(i as int + 1));
        }
        let array_index: usize = if areas.len() == 1 {
            0
        } else {
            (index_rolls[i] - 1) as usize
        };
        let map_idx = areas[array_index];
        let name = table.roll_at(table_rolls[i] - 1);
        spawn_list.push((map_idx, name));
        areas.remove(array_index);
        proof {
            assert(spec_region_picks(
                table.entries@,
                prev_areas,
                index_rolls@.skip(i as int),
                table_rolls@.skip(i as int),
                num - i,
            ) == Seq::<(usize, &'static str)>::empty().push((map_idx, name)) + spec_region_picks(
                table.entries@,
                areas@,
                index_rolls@.skip(i as int + 1),
                table_rolls@.skip(i as int + 1),
                num - i - 1,
            ));
            assert(spawn_list@ + spec_region_picks(
                table.entries@,
                areas@,
                index_rolls@.skip(i as int + 1),
                table_rolls@.skip(i as int + 1),
                num - i - 1,
            ) =~= prev_list + spec_region_picks(
                table.entries@,
                prev_areas,
                index_rolls@.skip(i as int),
                table_rolls@.skip(i as int),
                num - i,
            ));
        }
        i = i + 1;
    }
    proof {
        assert(spec_region_picks(
            table.entries@,
            areas@,
            index_rolls@.skip(num_spawns as int),
            table_rolls@.skip(num_spawns as int),
            0,
        ) == Seq::<(usize, &'static str)>::empty());
        assert(spawn_list@ + Seq::<(usize, &'static str)>::empty() =~= spawn_list@);
    }
}

/// Fills a room with spawns: its open floor tiles form the region.
pub fn spawn_room(
    map: &GameMap,
    table: &RandomTable,
    room: &Rect,
    map_depth: i32,
    num_roll: i32,
    index_rolls: &Vec<i32>,
    table_rolls: &Vec<i32>,
    spawn_list: &mut Vec<(usize, &'static str)>,
)
    requires
        map.wf(),
        table.wf(),
        table.total_weight > 0,
        1 <= num_roll <= MAX_SPAWNS + 3,
        -10000 <= map_depth <= 10000,
        room.y1 + 1 < room.y2 ==> 0 <= room.y1 + 1 && room.y2 <= map.height,
        room.y1 + 1 < room.y2 && room.x1 + 1 < room.x2 ==> 0 <= room.x1 + 1 && room.x2 <= map.width,
        index_rolls@.len() >= spec_num_spawns(
            spec_rect_floor(*map, *room, room.y2 as int).len() as int,
            map_depth as int,
            num_roll as int,
        ),
        table_rolls@.len() >= spec_num_spawns(
            spec_rect_floor(*map, *room, room.y2 as int).len() as int,
            map_depth as int,
            num_roll as int,
        ),
        forall|i: int|
            0 <= i < index_rolls@.len() ==> 1 <= #[trigger] index_rolls@[i] && index_rolls@[i]
                <= spec_rect_floor(*map, *room, room.y2 as int).len() - i,
        forall|i: int|
            0 <= i < table_rolls@.len() ==> 1 <= #[trigger] table_rolls@[i] && table_rolls@[i]
                <= table.total_weight,
    ensures
        final(spawn_list)@ == old(spawn_list)@ + spec_region_picks(
            table.entries@,
            spec_rect_floor(*map, *room, room.y2 as int),
            index_rolls@,
            table_rolls@,
            spec_num_spawns(
                spec_rect_floor(*map, *room, room.y2 as int).len() as int,
                map_depth as int,
                num_roll as int,
            ),
        ),
{
    let possible_targets = room_floor_tiles(map, room);
    spawn_region(table, &possible_targets, map_depth, num_roll, index_rolls, table_rolls, spawn_list);
}

} // verus!
