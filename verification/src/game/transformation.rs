use vstd::prelude::*;
use crate::game::data::EntityId;
use crate::game::action::ActionArgs;

verus! {

#[derive(PartialEq, Eq, Structural, Clone, Copy, Debug)]
pub enum TransformationType {
    TerrorPillarTerrorFly,
    Tree,
}

#[derive(PartialEq, Eq, Structural, Clone, Copy, Debug)]
pub enum TransformationState {
    Real,
    Other,
}

pub open spec fn spec_to_action_args(t: TransformationType, entity_id: EntityId) -> ActionArgs {
    match t {
        TransformationType::TerrorPillarTerrorFly => ActionArgs::TransformTerrorPillarTerrorFly(entity_id),
        TransformationType::Tree => ActionArgs::TransformTree(entity_id),
    }
}

impl TransformationType {
    /// The action that transforms the entity `entity_id` in the way this type names.
    pub fn to_action_args(self, entity_id: EntityId) -> (args: ActionArgs)
        ensures
            args == spec_to_action_args(self, entity_id),
    {
        match self {
            TransformationType::TerrorPillarTerrorFly => {
                ActionArgs::TransformTerrorPillarTerrorFly(entity_id)
            },
            TransformationType::Tree => { ActionArgs::TransformTree(entity_id) },
        }
    }
}

} // verus!
