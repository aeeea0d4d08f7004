use vstd::prelude::*;
use crate::game::data::EntityId;

verus! {

/// The arguments of an action that the rules here ask for.
#[derive(PartialEq, Eq, Structural, Clone, Copy, Debug)]
pub enum ActionArgs {
    TransformTerrorPillarTerrorFly(EntityId),
    TransformTree(EntityId),
}

} // verus!
