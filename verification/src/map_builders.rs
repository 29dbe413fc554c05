//! Hand-drawn map pieces that builders may stamp into a generated level.

pub mod prefab_rooms;
pub mod prefab_sections;
