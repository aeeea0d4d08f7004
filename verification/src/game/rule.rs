use vstd::prelude::*;
use crate::game::action::ActionArgs;
use crate::game::world::{EcsView, SpatialView};

verus! {

/// An action that a rule schedules in reaction to another, `delay` after it.
#[derive(PartialEq, Eq, Structural, Clone, Copy, Debug)]
pub struct Reaction {
    pub action: ActionArgs,
    pub delay: u64,
}

impl Reaction {
    pub fn new(action: ActionArgs, delay: u64) -> (r: Reaction)
        ensures
            r.action == action,
            r.delay == delay,
    {
        Reaction { action, delay }
    }
}

/// What a rule decides about a proposed action.
#[derive(PartialEq, Eq, Structural, Clone, Copy, Debug)]
pub enum RuleResolution {
    /// Let the action happen.
    Accept,
    /// Drop the action.
    Reject,
    /// Replace the action by another and check the rules again.
    Consume(ActionArgs),
}

/// `Ok` lets the next rule look at the action; `Err` stops the checking with
/// the resolution it holds.
pub type RuleResult = Result<RuleResolution, RuleResolution>;

/// The result of a rule that has no objection.
pub fn rule_accept() -> (r: RuleResult)
    ensures
        r == Ok::<RuleResolution, RuleResolution>(RuleResolution::Accept),
{
    Ok(RuleResolution::Accept)
}

/// What a rule reads of the world.
pub struct RuleEnv<'a> {
    pub ecs: &'a EcsView,
    pub spatial_hash: &'a SpatialView,
}

} // verus!
