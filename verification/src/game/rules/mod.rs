use vstd::prelude::*;
use crate::game::data::{Coord, EntityId};
use crate::game::world::EcsView;

pub mod collision;
pub mod door;

verus! {

/// An action that a rule asks for in place of the one it was shown.
#[derive(PartialEq, Eq, Structural, Clone, Copy, Debug)]
pub enum Action {
    /// Remove the entity, `action_time` after the action it replaces.
    RemoveEntity { entity_id: EntityId, action_time: Option<u64> },
    /// Open the door `door_id`.
    OpenDoor(EntityId),
}

/// What a rule decides about a proposed update.
#[derive(Clone, Debug)]
pub enum RuleResult {
    /// The update may go ahead.
    Pass,
    /// The update is refused.
    Fail,
    /// The update is replaced by these actions.
    Instead(Vec<Action>),
}

/// A rule's decision, with the replacing actions as a sequence.
pub enum Verdict {
    Pass,
    Fail,
    Instead(Seq<Action>),
}

impl View for RuleResult {
    type V = Verdict;

    open spec fn view(&self) -> Verdict {
        match self {
            RuleResult::Pass => Verdict::Pass,
            RuleResult::Fail => Verdict::Fail,
            RuleResult::Instead(v) => Verdict::Instead(v@),
        }
    }
}

/// The position component among the components that an update gives an entity.
#[derive(PartialEq, Eq, Structural, Clone, Copy, Debug)]
pub struct EntityChanges {
    pub entity_id: EntityId,
    /// The entity's new position, if the update sets one.
    pub position: Option<Coord>,
}

/// What an update changes, in the order in which its changes are walked.
#[derive(Clone, Debug)]
pub struct UpdateSummary {
    /// The components that the update adds, entity by entity.
    pub added_components: Vec<EntityChanges>,
    /// The components that the update changes, entity by entity.
    pub changed_entities: Vec<EntityChanges>,
    /// Whether the update changes any entity's position.
    pub position_changed: bool,
}

/// What a rule is shown: the update and the entities as they stand before it.
pub struct RuleContext<'a> {
    pub update: &'a UpdateSummary,
    pub entities: &'a EcsView,
}

} // verus!
