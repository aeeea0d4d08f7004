use vstd::prelude::*;
use crate::game::data::{EntityId, LevelId};

verus! {

/// Names the kind of terrain that a new level is generated with.
#[derive(PartialEq, Eq, Structural, Clone, Copy, Debug)]
pub struct TerrainType(pub u64);

/// Where a level switch leads.
#[derive(PartialEq, Eq, Structural, Clone, Copy, Debug)]
pub enum LevelSwitch {
    NewLevel(TerrainType),
    ExistingLevel(LevelExit),
}

/// The id of a level, and the id of an entity within that level.
#[derive(PartialEq, Eq, Structural, Clone, Copy, Debug)]
pub struct LevelExit {
    pub level_id: LevelId,
    pub exit_id: EntityId,
}

/// An entity that leaves its level through an exit.
#[derive(PartialEq, Eq, Structural, Clone, Copy, Debug)]
pub struct LevelSwitchAction {
    pub entity_id: EntityId,
    pub exit_id: EntityId,
    pub level_switch: LevelSwitch,
}

} // verus!
