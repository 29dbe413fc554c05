//! Verified core logic of a turn-based dungeon-crawl game.
//!
//! The crate models the game's data — the tile grid, components attached to
//! entities, spawn tables, and the turn state machine — as plain values, and
//! proves contracts over them: how the map is indexed and mutated, how melee
//! and item effects resolve, how hunger and visibility evolve, and how each
//! menu reacts to input. Rendering, the entity store, and file persistence
//! live outside this crate and hand plain values in and out.

pub mod ai;
pub mod combat;
pub mod components;
pub mod damage;
pub mod game_map;
pub mod gui;
pub mod hunger;
pub mod inventory;
pub mod level;
pub mod map_builders;
pub mod map_indexing_system;
pub mod player;
pub mod random_table;
pub mod rect;
pub mod rng;
pub mod run_state;
pub mod spawner;
pub mod triggers;
pub mod visibility;
