use vstd::prelude::*;
use crate::game::action::ActionArgs;
use crate::game::data::{Coord, EntityId, ExitReason, GameOverReason};
use crate::game::level_switch::{LevelSwitch, LevelSwitchAction};
use crate::game::message::ActionMessageType;
use crate::game::rule::{Reaction, RuleResolution, RuleResult};
use crate::game::world::EcsView;

verus! {

/// How long an actor waits after an action that no rule let through.
pub const FAILED_ACTION_DELAY: u64 = 16;

/// The shortest time an actor waits between turns.
pub const MIN_TURN_TIME: u64 = 1;

pub const TURN_DURATION_BASE: u64 = 16;

/// The world as an action sees it, and the action's id.
#[derive(Clone, Copy)]
pub struct ActionEnv<'game> {
    pub ecs: &'game EcsView,
    pub id: u64,
}

/// The world as a turn sees it, and the turn's id.
#[derive(Clone, Copy)]
pub struct Turn<'game> {
    pub ecs: &'game EcsView,
    pub id: u64,
}

impl<'game> Turn<'game> {
    pub fn new(ecs: &'game EcsView, id: u64) -> (t: Self)
        ensures
            *t.ecs == *ecs,
            t.id == id,
    {
        Turn { ecs: ecs, id: id }
    }
}

impl<'game> ActionEnv<'game> {
    pub fn new(ecs: &'game EcsView, id: u64) -> (e: Self)
        ensures
            *e.ecs == *ecs,
            e.id == id,
    {
        ActionEnv { ecs: ecs, id: id }
    }
}

/// How a turn ends.
#[derive(PartialEq, Eq, Structural, Clone, Copy, Debug)]
pub enum TurnResolution {
    Exit(ExitReason, EntityId),
    Schedule(EntityId, u64),
    LevelSwitch { entity_id: EntityId, exit_id: EntityId, level_switch: LevelSwitch },
    GameOver(GameOverReason),
}

/// Which reason to render the player's view is set aside.
#[derive(PartialEq, Eq, Structural, Clone, Copy, Debug)]
pub enum ForceRender {
    /// Publish the view though nothing in it changed.
    IgnoreChange,
    /// Render though the actor is not one whose turns are rendered.
    IgnoreShouldRender,
}

/// What committing an action leads to.
#[derive(PartialEq, Eq, Structural, Clone, Copy, Debug)]
pub enum CommitResolution {
    Reschedule(u64),
    LevelSwitch { entity_id: EntityId, exit_id: EntityId, level_switch: LevelSwitch },
    GameOver(GameOverReason),
}

/// A request from outside the game's world.
#[derive(PartialEq, Eq, Structural, Clone, Copy, Debug)]
pub enum External {
    Quit,
    Pause,
}

/// What an actor's behaviour asks for.
#[derive(PartialEq, Eq, Structural, Clone, Copy, Debug)]
pub enum MetaAction {
    External(External),
    ActionArgs(ActionArgs),
}

/// A message about an action, and where it happened.
#[derive(PartialEq, Eq, Structural, Clone, Copy, Debug)]
pub struct ActionDescription {
    pub coord: Coord,
    pub message: ActionMessageType,
}

/// Identifies a scheduled turn.
pub type ScheduleTicket = u64;

/// What an action holds that decides what its commit changes.
#[derive(PartialEq, Eq, Structural, Clone, Copy, Debug)]
pub struct ActionFacts {
    /// The action changes nothing that is committed.
    pub no_commit: bool,
    /// The turn time that the actor's first committed action sets in place of its own.
    pub alternative_turn_time: Option<u64>,
    pub action_time_ms: Option<u64>,
    pub action_description: Option<ActionDescription>,
    pub level_switch_action: Option<LevelSwitchAction>,
    /// A scheduled turn that the action cancels.
    pub schedule_invalidate: Option<ScheduleTicket>,
    pub player_died: bool,
}

/// What to do with an action after the rules have resolved it.
#[derive(PartialEq, Eq, Structural, Clone, Copy, Debug)]
pub enum RuleStep {
    /// Clear the action; it is done.
    Discard,
    /// Cancel the given scheduled turn, if any, and commit the action.
    Commit { invalidate: Option<ScheduleTicket> },
    /// Change the action by these arguments and check the rules again.
    Retry(ActionArgs),
}

/// A request to render the player's view.
#[derive(PartialEq, Eq, Structural, Clone, Copy, Debug)]
pub struct RenderRequest {
    pub description: Option<ActionDescription>,
    pub force: Option<ForceRender>,
}

/// An action to schedule, `time` after the current one.
#[derive(PartialEq, Eq, Structural, Clone, Copy, Debug)]
pub struct ScheduledAction {
    pub action: ActionArgs,
    pub time: u64,
}

/// What the end of an actor's attempt to commit an action asks for.
#[derive(PartialEq, Eq, Structural, Clone, Copy, Debug)]
pub struct CommitFinish {
    pub render: Option<RenderRequest>,
    /// `None` where no action was committed, or where none asked for a next turn.
    pub resolution: Option<CommitResolution>,
}

/// The state of an actor's attempt to commit an action together with the
/// reactions it sets off.
#[derive(PartialEq, Eq, Structural, Clone, Copy, Debug)]
pub struct CommitState {
    /// The time until the actor's next turn.
    pub turn_time: Option<u64>,
    /// No action has been committed yet.
    pub first: bool,
    pub action_description: Option<ActionDescription>,
    pub level_switch: Option<LevelSwitchAction>,
    pub game_over_reason: Option<GameOverReason>,
    /// When the action being checked happens, after the one before it.
    pub action_time: u64,
}

/// The state after the rules resolved the current action, and what to do
/// with the action.
pub open spec fn spec_resolve(s: CommitState, resolution: RuleResolution, facts: ActionFacts) -> (
    CommitState,
    RuleStep,
) {
    match resolution {
        RuleResolution::Accept => if facts.no_commit {
            (s, RuleStep::Discard)
        } else {
            (
                CommitState {
                    turn_time: if s.first && facts.alternative_turn_time is Some {
                        facts.alternative_turn_time
                    } else {
                        s.turn_time
                    },
                    first: false,
                    action_description: facts.action_description,
                    level_switch: if facts.level_switch_action is Some {
                        facts.level_switch_action
                    } else {
                        s.level_switch
                    },
                    game_over_reason: if facts.player_died {
                        Some(GameOverReason::PlayerDied)
                    } else {
                        s.game_over_reason
                    },
                    action_time: match facts.action_time_ms {
                        Some(t) => t,
                        None => 0,
                    },
                },
                RuleStep::Commit { invalidate: facts.schedule_invalidate },
            )
        },
        RuleResolution::Reject => (s, RuleStep::Discard),
        RuleResolution::Consume(args) => (s, RuleStep::Retry(args)),
    }
}

/// The turn time of an actor, but never less than `MIN_TURN_TIME`.
pub open spec fn at_least_min_turn_time(t: u64) -> u64 {
    if t < MIN_TURN_TIME {
        MIN_TURN_TIME
    } else {
        t
    }
}

/// What an attempt to commit actions ends in.
pub open spec fn spec_finish(s: CommitState) -> CommitFinish {
    match s.game_over_reason {
        Some(reason) => CommitFinish {
            render: Some(
                RenderRequest { description: None, force: Some(ForceRender::IgnoreShouldRender) },
            ),
            resolution: Some(CommitResolution::GameOver(reason)),
        },
        None => if s.first {
            CommitFinish { render: None, resolution: None }
        } else {
            CommitFinish {
                render: if s.action_description is Some {
                    Some(RenderRequest { description: s.action_description, force: None })
                } else {
                    None
                },
                resolution: match s.level_switch {
                    Some(ls) => Some(
                        CommitResolution::LevelSwitch {
                            entity_id: ls.entity_id,
                            exit_id: ls.exit_id,
                            level_switch: ls.level_switch,
                        },
                    ),
                    None => match s.turn_time {
                        Some(t) => Some(CommitResolution::Reschedule(at_least_min_turn_time(t))),
                        None => None,
                    },
                },
            }
        },
    }
}

impl CommitState {
    /// The state before any action, for an actor whose turn time is `turn_time`.
    pub fn new(turn_time: Option<u64>) -> (s: CommitState)
        ensures
            s.turn_time == turn_time,
            s.first,
            s.action_description is None,
            s.level_switch is None,
            s.game_over_reason is None,
            s.action_time == 0,
    {
        CommitState {
            turn_time,
            first: true,
            action_description: None,
            level_switch: None,
            game_over_reason: None,
            action_time: 0,
        }
    }

    /// Starts the next scheduled action, `time_delta` after the one before:
    /// counts it, and where time has passed asks for the view to be rendered
    /// with the last action's description.
    pub fn begin_action(&mut self, time_delta: u64, action_id: &mut u64) -> (render: Option<
        RenderRequest,
    >)
        requires
            *old(action_id) < u64::MAX,
        ensures
            *final(action_id) == *old(action_id) + 1,
            *final(self) == (CommitState { action_time: 0, ..*old(self) }),
            render == (if time_delta != 0 {
                Some(
                    RenderRequest {
                        description: old(self).action_description,
                        force: Some(ForceRender::IgnoreShouldRender),
                    },
                )
            } else {
                None
            }),
    {
        let render = if time_delta != 0 {
            Some(
                RenderRequest {
                    description: self.action_description,
                    force: Some(ForceRender::IgnoreShouldRender),
                },
            )
        } else {
            None
        };
        *action_id = *action_id + 1;
        self.action_time = 0;
        render
    }

    /// Takes the rules' resolution of the current action. An accepted action
    /// that commits something is committed: the first one may set the turn
    /// time, and each sets the action time, the description, and what it asks
    /// of a level switch or the end of the game.
    pub fn resolve(&mut self, resolution: RuleResolution, facts: &ActionFacts) -> (step: RuleStep)
        ensures
            (*final(self), step) == spec_resolve(*old(self), resolution, *facts),
    {
        match resolution {
            RuleResolution::Accept => {
                if facts.no_commit {
                    return RuleStep::Discard;
                }
                if self.first {
                    self.first = false;
                    if let Some(alternative_turn_time) = facts.alternative_turn_time {
                        self.turn_time = Some(alternative_turn_time);
                    }
                }
                self.action_time = match facts.action_time_ms {
                    Some(t) => t,
                    None => 0,
                };
                self.action_description = facts.action_description;
                if let Some(level_switch_action) = facts.level_switch_action {
                    self.level_switch = Some(level_switch_action);
                }
                if facts.player_died {
                    self.game_over_reason = Some(GameOverReason::PlayerDied);
                }
                RuleStep::Commit { invalidate: facts.schedule_invalidate }
            },
            RuleResolution::Reject => RuleStep::Discard,
            RuleResolution::Consume(action_args) => RuleStep::Retry(action_args),
        }
    }

    /// The reactions that the rules asked for, each scheduled its delay after
    /// the current action.
    pub fn schedule_reactions(&self, reactions: &Vec<Reaction>) -> (scheduled: Vec<ScheduledAction>)
        requires
            forall|i: int|
                0 <= i < reactions@.len() ==> self.action_time + (#[trigger] reactions@[i]).delay
                    <= u64::MAX,
        ensures
            scheduled@.len() == reactions@.len(),
            forall|i: int|
                0 <= i < reactions@.len() ==> #[trigger] scheduled@[i] == (ScheduledAction {
                    action: reactions@[i].action,
                    time: (self.action_time + reactions@[i].delay) as u64,
                }),
    {
        let mut scheduled: Vec<ScheduledAction> = Vec::new();
        let n = reactions.len();
        for i in 0..n
            invariant
                n == reactions@.len(),
                scheduled@.len() == i,
                forall|j: int|
                    0 <= j < reactions@.len() ==> self.action_time + (#[trigger] reactions@[j]).delay
                        <= u64::MAX,
                forall|j: int|
                    0 <= j < i ==> #[trigger] scheduled@[j] == (ScheduledAction {
                        action: reactions@[j].action,
                        time: (self.action_time + reactions@[j].delay) as u64,
                    }),
        {
            let reaction = reactions[i];
            scheduled.push(
                ScheduledAction { action: reaction.action, time: self.action_time + reaction.delay },
            );
        }
        scheduled
    }

    /// What the attempt ends in once no action is left: the end of the game if
    /// an action killed the player; nothing if no action was committed;
    /// otherwise a level switch if one was asked for, or else the next turn
    /// after the turn time (at least `MIN_TURN_TIME`). The view is rendered at
    /// the end of the game, and after a committed action with a description.
    pub fn finish(&self) -> (f: CommitFinish)
        ensures
            f == spec_finish(*self),
    {
        if let Some(game_over_reason) = self.game_over_reason {
            return CommitFinish {
                render: Some(
                    RenderRequest { description: None, force: Some(ForceRender::IgnoreShouldRender) },
                ),
                resolution: Some(CommitResolution::GameOver(game_over_reason)),
            };
        }
        if self.first {
            return CommitFinish { render: None, resolution: None };
        }
        let render = if self.action_description.is_some() {
            Some(RenderRequest { description: self.action_description, force: None })
        } else {
            None
        };
        if let Some(level_switch) = self.level_switch {
            return CommitFinish {
                render,
                resolution: Some(
                    CommitResolution::LevelSwitch {
                        entity_id: level_switch.entity_id,
                        exit_id: level_switch.exit_id,
                        level_switch: level_switch.level_switch,
                    },
                ),
            };
        }
        let resolution = match self.turn_time {
            Some(t) => Some(
                CommitResolution::Reschedule(
                    if t < MIN_TURN_TIME {
                        MIN_TURN_TIME
                    } else {
                        t
                    },
                ),
            ),
            None => None,
        };
        CommitFinish { render, resolution }
    }
}

/// What an attempt at an action that an actor's behaviour asked for came to.
#[derive(PartialEq, Eq, Structural, Clone, Copy, Debug)]
pub enum TurnOutcome {
    /// The behaviour asked for something outside the game's world.
    External(External),
    /// The behaviour asked for an action; `None` where nothing was committed.
    Committed(Option<CommitResolution>),
}

/// What a turn does after one outcome.
#[derive(PartialEq, Eq, Structural, Clone, Copy, Debug)]
pub struct TurnStep {
    /// The value that the behaviour is told its request returned.
    pub declare_return: bool,
    /// How the turn ends; `None` where the actor is asked again.
    pub resolution: Option<TurnResolution>,
}

pub open spec fn spec_turn_step(entity_id: EntityId, pc_id: EntityId, outcome: TurnOutcome) -> TurnStep {
    match outcome {
        TurnOutcome::External(external) => TurnStep {
            declare_return: true,
            resolution: Some(
                TurnResolution::Exit(
                    match external {
                        External::Quit => ExitReason::Quit,
                        External::Pause => ExitReason::Pause,
                    },
                    entity_id,
                ),
            ),
        },
        TurnOutcome::Committed(Some(resolution)) => TurnStep {
            declare_return: true,
            resolution: Some(
                match resolution {
                    CommitResolution::Reschedule(delay) => TurnResolution::Schedule(entity_id, delay),
                    CommitResolution::LevelSwitch { entity_id, exit_id, level_switch } =>
                        TurnResolution::LevelSwitch { entity_id, exit_id, level_switch },
                    CommitResolution::GameOver(reason) => TurnResolution::GameOver(reason),
                },
            ),
        },
        TurnOutcome::Committed(None) => TurnStep {
            declare_return: false,
            resolution: if entity_id == pc_id {
                None
            } else {
                Some(TurnResolution::Schedule(entity_id, FAILED_ACTION_DELAY))
            },
        },
    }
}

/// One round of an actor's turn: a request from outside ends the turn with an
/// exit; a committed action ends it as the commit says; an action that came
/// to nothing makes the player choose again and any other actor wait
/// `FAILED_ACTION_DELAY`. The behaviour is told whether its request succeeded.
pub fn take_turn_step(entity_id: EntityId, pc_id: EntityId, outcome: TurnOutcome) -> (step: TurnStep)
    ensures
        step == spec_turn_step(entity_id, pc_id, outcome),
{
    match outcome {
        TurnOutcome::External(external) => {
            let reason = match external {
                External::Quit => ExitReason::Quit,
                External::Pause => ExitReason::Pause,
            };
            TurnStep { declare_return: true, resolution: Some(TurnResolution::Exit(reason, entity_id)) }
        },
        TurnOutcome::Committed(Some(resolution)) => {
            let r = match resolution {
                CommitResolution::Reschedule(delay) => TurnResolution::Schedule(entity_id, delay),
                CommitResolution::LevelSwitch { entity_id, exit_id, level_switch } => {
                    TurnResolution::LevelSwitch { entity_id, exit_id, level_switch }
                },
                CommitResolution::GameOver(reason) => TurnResolution::GameOver(reason),
            };
            TurnStep { declare_return: true, resolution: Some(r) }
        },
        TurnOutcome::Committed(None) => {
            let resolution = if entity_id == pc_id {
                None
            } else {
                Some(TurnResolution::Schedule(entity_id, FAILED_ACTION_DELAY))
            };
            TurnStep { declare_return: false, resolution }
        },
    }
}

/// The end of a turn: an actor that is rescheduled waits its own turn time.
pub open spec fn spec_turn_resolution(resolution: TurnResolution, turn_time: Option<u64>) -> TurnResolution {
    match resolution {
        TurnResolution::Schedule(id, _) => TurnResolution::Schedule(id, turn_time.unwrap()),
        other => other,
    }
}

/// A rescheduled actor waits its own turn time, whatever delay the commit
/// asked for; every other end of a turn is left as it is.
pub proof fn law_turn_resolution(id: EntityId, delay: u64, t: u64, resolution: TurnResolution)
    ensures
        spec_turn_resolution(TurnResolution::Schedule(id, delay), Some(t))
            == TurnResolution::Schedule(id, t),
        !(resolution is Schedule) ==> spec_turn_resolution(resolution, Some(t)) == resolution,
        !(resolution is Schedule) ==> spec_turn_resolution(resolution, None) == resolution,
{
}

pub fn turn_resolution(resolution: TurnResolution, turn_time: Option<u64>) -> (r: TurnResolution)
    requires
        resolution is Schedule ==> turn_time is Some,
    ensures
        r == spec_turn_resolution(resolution, turn_time),
        r == match resolution {
            TurnResolution::Schedule(id, _) => TurnResolution::Schedule(id, turn_time.unwrap()),
            other => other,
        },
{
    match resolution {
        TurnResolution::Schedule(id, _) => TurnResolution::Schedule(id, turn_time.unwrap()),
        other => other,
    }
}

/// Whether the player's view may be rendered for the current actor.
pub fn pc_render_allowed(force: Option<ForceRender>, should_render: bool) -> (b: bool)
    ensures
        b == (force == Some(ForceRender::IgnoreShouldRender) || should_render),
{
    match force {
        Some(ForceRender::IgnoreShouldRender) => true,
        _ => should_render,
    }
}

/// What rendering the player's view does once the player has looked around.
#[derive(PartialEq, Eq, Structural, Clone, Copy, Debug)]
pub struct PcRender {
    /// The action message to add to the player's message log, as an action
    /// message.
    pub log: Option<ActionMessageType>,
    /// Publish the view to the windows.
    pub publish: bool,
    /// The view changed.
    pub changed: bool,
}

/// The message that the player logs of a described action: its message, where
/// the player can see where it happened.
pub open spec fn seen_message(description: Option<ActionDescription>, can_see: bool) -> Option<
    ActionMessageType,
> {
    match description {
        Some(d) => if can_see {
            Some(d.message)
        } else {
            None
        },
        None => None,
    }
}

/// Once the player has looked around: a described action that the player can
/// see (`can_see` tells whether the player sees the description's cell) is
/// logged with its message and changes the view, as does any change that
/// looking around made; the view is published if it changed or changes are set
/// aside.
pub fn pc_render_outcome(
    force: Option<ForceRender>,
    observed_change: bool,
    description: Option<ActionDescription>,
    can_see: bool,
) -> (r: PcRender)
    ensures
        r.log == seen_message(description, can_see),
        r.changed == (observed_change || r.log is Some),
        r.publish == (force == Some(ForceRender::IgnoreChange) || r.changed),
{
    let log = match description {
        Some(d) => if can_see {
            Some(d.message)
        } else {
            None
        },
        None => None,
    };
    let changed = observed_change || log.is_some();
    let ignore_change = match force {
        Some(ForceRender::IgnoreChange) => true,
        _ => false,
    };
    PcRender { log, publish: ignore_change || changed, changed }
}

/// The rules that check actions.
#[derive(PartialEq, Eq, Structural, Clone, Copy, Debug)]
pub enum RuleName {
    ProjectileCollision,
    OpenDoor,
    BumpAttack,
    Collision,
    ProjectileCollisionTrigger,
    CloseDoor,
    TearTransform,
    RealtimeVelocityStart,
    RealtimeVelocity,
    Death,
    EnemyCollision,
    PcCollision,
    LevelSwitch,
    LevelSwitchAuto,
    TearMoveTransform,
}

pub open spec fn spec_rule_order(no_commit: bool) -> Seq<RuleName> {
    if no_commit {
        seq![RuleName::ProjectileCollision]
    } else {
        seq![
            RuleName::OpenDoor,
            RuleName::BumpAttack,
            RuleName::Collision,
            RuleName::ProjectileCollisionTrigger,
            RuleName::CloseDoor,
            RuleName::TearTransform,
            RuleName::RealtimeVelocityStart,
            RuleName::RealtimeVelocity,
            RuleName::Death,
            RuleName::EnemyCollision,
            RuleName::PcCollision,
            RuleName::LevelSwitch,
            RuleName::LevelSwitchAuto,
            RuleName::TearMoveTransform,
        ]
    }
}

/// The rules that check an action, in the order they are asked: an action
/// that commits nothing only meets projectile collisions.
pub fn rule_order(no_commit: bool) -> (rules: Vec<RuleName>)
    ensures
        rules@ == spec_rule_order(no_commit),
{
    if no_commit {
        let v = vec![RuleName::ProjectileCollision];
        assert(v@ =~= spec_rule_order(no_commit));
        v
    } else {
        let v = vec![
            RuleName::OpenDoor,
            RuleName::BumpAttack,
            RuleName::Collision,
            RuleName::ProjectileCollisionTrigger,
            RuleName::CloseDoor,
            RuleName::TearTransform,
            RuleName::RealtimeVelocityStart,
            RuleName::RealtimeVelocity,
            RuleName::Death,
            RuleName::EnemyCollision,
            RuleName::PcCollision,
            RuleName::LevelSwitch,
            RuleName::LevelSwitchAuto,
            RuleName::TearMoveTransform,
        ];
        assert(v@ =~= spec_rule_order(no_commit));
        v
    }
}

/// After one rule: `None` lets the next rule look at the action, `Some`
/// stops the checking with that resolution.
pub fn after_rule(result: RuleResult) -> (stop: Option<RuleResolution>)
    ensures
        stop == match result {
            Ok(_) => None,
            Err(r) => Some(r),
        },
{
    match result {
        Ok(_) => None,
        Err(r) => Some(r),
    }
}

/// The resolution that a finished check holds, whether it stopped early or not.
pub fn rule_resolution(result: RuleResult) -> (r: RuleResolution)
    ensures
        r == match result {
            Ok(r) => r,
            Err(r) => r,
        },
{
    match result {
        Ok(res) => res,
        Err(res) => res,
    }
}

/// The resolution of checking an action against rules that gave `results`, in
/// order: the first that stops the checking decides; if none does, the action
/// is accepted.
pub open spec fn checked_resolution(results: Seq<RuleResult>) -> RuleResolution
    decreases results.len(),
{
    if results.len() == 0 {
        RuleResolution::Accept
    } else {
        match results[0] {
            Err(r) => r,
            Ok(_) => checked_resolution(results.drop_first()),
        }
    }
}

/// Checks an action against the rules' results in order, as the rules are
/// asked one at a time: the first result that stops the checking decides; if
/// none does, the action is accepted.
pub fn check_rules(results: &Vec<RuleResult>) -> (r: RuleResolution)
    ensures
        r == checked_resolution(results@),
{
    let n = results.len();
    assert(results@.subrange(0, n as int) =~= results@);
    for i in 0..n
        invariant
            n == results@.len(),
            checked_resolution(results@) == checked_resolution(results@.subrange(i as int, n as int)),
    {
        assert(results@.subrange(i as int, n as int).drop_first() =~= results@.subrange(
            i + 1,
            n as int,
        ));
        if let Some(resolution) = after_rule(results[i]) {
            return resolution;
        }
    }
    assert(results@.subrange(n as int, n as int).len() == 0);
    rule_resolution(Ok(RuleResolution::Accept))
}

/// An actor that is rescheduled after committing actions never waits less
/// than `MIN_TURN_TIME`.
pub proof fn law_reschedule_at_least_min_turn_time(s: CommitState)
    ensures
        spec_finish(s).resolution matches Some(CommitResolution::Reschedule(d)) ==> d
            >= MIN_TURN_TIME,
{
}

/// After a committed action, with no game over and no level switch, the actor
/// waits its own turn time, raised to `MIN_TURN_TIME` (one) only where it is
/// shorter; with no turn time nothing is resolved.
pub proof fn law_reschedule_after_own_turn_time(s: CommitState, t: u64)
    requires
        !s.first,
        s.game_over_reason is None,
        s.level_switch is None,
    ensures
        MIN_TURN_TIME == 1,
        s.turn_time == Some(t) && t >= 1 ==> spec_finish(s).resolution == Some(
            CommitResolution::Reschedule(t),
        ),
        s.turn_time == Some(0u64) ==> spec_finish(s).resolution == Some(
            CommitResolution::Reschedule(1),
        ),
        s.turn_time is None ==> spec_finish(s).resolution is None,
{
}

/// A committed level switch ends the attempt in that switch, its entity, exit
/// and destination carried over, where the player did not die.
pub proof fn law_level_switch_carried(s: CommitState, ls: LevelSwitchAction)
    requires
        !s.first,
        s.game_over_reason is None,
        s.level_switch == Some(ls),
    ensures
        spec_finish(s).resolution == Some(
            CommitResolution::LevelSwitch {
                entity_id: ls.entity_id,
                exit_id: ls.exit_id,
                level_switch: ls.level_switch,
            },
        ),
{
}

/// How a turn ends after each outcome: a request from outside exits with the
/// matching reason; a committed action's resolution is carried over field for
/// field (a reschedule becoming the actor's schedule after that delay); in
/// each of these the behaviour is told its request succeeded.
pub proof fn law_turn_step_carries_outcome(
    entity_id: EntityId,
    pc_id: EntityId,
    delay: u64,
    e: EntityId,
    x: EntityId,
    l: LevelSwitch,
    reason: GameOverReason,
)
    ensures
        spec_turn_step(entity_id, pc_id, TurnOutcome::External(External::Quit)) == (TurnStep {
            declare_return: true,
            resolution: Some(TurnResolution::Exit(ExitReason::Quit, entity_id)),
        }),
        spec_turn_step(entity_id, pc_id, TurnOutcome::External(External::Pause)) == (TurnStep {
            declare_return: true,
            resolution: Some(TurnResolution::Exit(ExitReason::Pause, entity_id)),
        }),
        spec_turn_step(
            entity_id,
            pc_id,
            TurnOutcome::Committed(Some(CommitResolution::Reschedule(delay))),
        ) == (TurnStep {
            declare_return: true,
            resolution: Some(TurnResolution::Schedule(entity_id, delay)),
        }),
        spec_turn_step(
            entity_id,
            pc_id,
            TurnOutcome::Committed(
                Some(CommitResolution::LevelSwitch { entity_id: e, exit_id: x, level_switch: l }),
            ),
        ) == (TurnStep {
            declare_return: true,
            resolution: Some(TurnResolution::LevelSwitch { entity_id: e, exit_id: x, level_switch: l }),
        }),
        spec_turn_step(
            entity_id,
            pc_id,
            TurnOutcome::Committed(Some(CommitResolution::GameOver(reason))),
        ) == (TurnStep {
            declare_return: true,
            resolution: Some(TurnResolution::GameOver(reason)),
        }),
{
}

/// The rules that check a committed action, in the order they are asked: the
/// door opens before anything else, a bump attack comes before the collision
/// that would stop the move, and so on; each rule is asked once, and the
/// projectile collision of uncommitted actions is not among them.
pub proof fn law_rule_order(no_commit: bool)
    ensures
        spec_rule_order(true) == seq![RuleName::ProjectileCollision],
        spec_rule_order(false).len() == 14,
        spec_rule_order(false)[0] == RuleName::OpenDoor,
        spec_rule_order(false)[1] == RuleName::BumpAttack,
        spec_rule_order(false)[2] == RuleName::Collision,
        spec_rule_order(false)[3] == RuleName::ProjectileCollisionTrigger,
        spec_rule_order(false)[4] == RuleName::CloseDoor,
        spec_rule_order(false)[5] == RuleName::TearTransform,
        spec_rule_order(false)[6] == RuleName::RealtimeVelocityStart,
        spec_rule_order(false)[7] == RuleName::RealtimeVelocity,
        spec_rule_order(false)[8] == RuleName::Death,
        spec_rule_order(false)[9] == RuleName::EnemyCollision,
        spec_rule_order(false)[10] == RuleName::PcCollision,
        spec_rule_order(false)[11] == RuleName::LevelSwitch,
        spec_rule_order(false)[12] == RuleName::LevelSwitchAuto,
        spec_rule_order(false)[13] == RuleName::TearMoveTransform,
        !spec_rule_order(false).contains(RuleName::ProjectileCollision),
        forall|i: int, j: int|
            0 <= i < j < spec_rule_order(no_commit).len() ==> spec_rule_order(no_commit)[i]
                != spec_rule_order(no_commit)[j],
{
    let v = spec_rule_order(false);
    assert(!v.contains(RuleName::ProjectileCollision)) by {
        if v.contains(RuleName::ProjectileCollision) {
            let k = choose|k: int| 0 <= k < v.len() && v[k] == RuleName::ProjectileCollision;
            assert(0 <= k < 14);
        }
    }
}

/// What committing an accepted action changes: the rules stop with a commit
/// that cancels the ticket the action names; the first commit may set the
/// turn time the action gives; the action's time (zero if it has none) and
/// description become the current ones; a level switch it asks for replaces
/// any earlier one, as does its killing the player; nothing else changes.
pub proof fn law_commit_effects(s: CommitState, facts: ActionFacts, t: u64, ls: LevelSwitchAction)
    requires
        !facts.no_commit,
    ensures
        spec_resolve(s, RuleResolution::Accept, facts).1 == (RuleStep::Commit {
            invalidate: facts.schedule_invalidate,
        }),
        !spec_resolve(s, RuleResolution::Accept, facts).0.first,
        s.first && facts.alternative_turn_time == Some(t) ==> spec_resolve(
            s,
            RuleResolution::Accept,
            facts,
        ).0.turn_time == Some(t),
        facts.alternative_turn_time is None ==> spec_resolve(
            s,
            RuleResolution::Accept,
            facts,
        ).0.turn_time == s.turn_time,
        facts.action_time_ms == Some(t) ==> spec_resolve(s, RuleResolution::Accept, facts).0.action_time
            == t,
        facts.action_time_ms is None ==> spec_resolve(s, RuleResolution::Accept, facts).0.action_time
            == 0,
        spec_resolve(s, RuleResolution::Accept, facts).0.action_description
            == facts.action_description,
        facts.level_switch_action == Some(ls) ==> spec_resolve(
            s,
            RuleResolution::Accept,
            facts,
        ).0.level_switch == Some(ls),
        facts.level_switch_action is None ==> spec_resolve(
            s,
            RuleResolution::Accept,
            facts,
        ).0.level_switch == s.level_switch,
        facts.player_died ==> spec_resolve(s, RuleResolution::Accept, facts).0.game_over_reason
            == Some(GameOverReason::PlayerDied),
        !facts.player_died ==> spec_resolve(s, RuleResolution::Accept, facts).0.game_over_reason
            == s.game_over_reason,
{
}

/// What is rendered at the end of an attempt: after the player died, the view
/// regardless of whether the actor's turns are rendered and with no
/// description; after a committed action, its description if it has one;
/// otherwise nothing.
pub proof fn law_finish_render(s: CommitState, d: ActionDescription)
    ensures
        s.game_over_reason is Some ==> spec_finish(s).render == Some(
            RenderRequest { description: None, force: Some(ForceRender::IgnoreShouldRender) },
        ),
        s.game_over_reason is None && s.first ==> spec_finish(s).render is None,
        s.game_over_reason is None && !s.first && s.action_description == Some(d)
            ==> spec_finish(s).render == Some(RenderRequest { description: Some(d), force: None }),
        s.game_over_reason is None && s.action_description is None ==> spec_finish(s).render is None,
{
}

/// The player logs the message of a described action that they can see, and
/// nothing otherwise.
pub proof fn law_seen_message(d: ActionDescription, can_see: bool)
    ensures
        seen_message(Some(d), true) == Some(d.message),
        seen_message(Some(d), false) is None,
        seen_message(None, can_see) is None,
{
}

/// Once an action has killed the player, the attempt ends in the end of the
/// game, whatever the later actions do and whatever else was asked for.
pub proof fn law_game_over_persists(s: CommitState, resolution: RuleResolution, facts: ActionFacts)
    requires
        s.game_over_reason is Some,
    ensures
        spec_resolve(s, resolution, facts).0.game_over_reason is Some,
        spec_finish(spec_resolve(s, resolution, facts).0).resolution matches Some(
            CommitResolution::GameOver(_),
        ),
{
}

/// A committed action that kills the player ends the attempt in the end of the
/// game.
pub proof fn law_player_death_ends_game(s: CommitState, facts: ActionFacts)
    requires
        !facts.no_commit,
        facts.player_died,
    ensures
        spec_finish(spec_resolve(s, RuleResolution::Accept, facts).0).resolution == Some(
            CommitResolution::GameOver(GameOverReason::PlayerDied),
        ),
{
}

/// Only the first committed action may change the actor's turn time.
pub proof fn law_turn_time_set_once(s: CommitState, resolution: RuleResolution, facts: ActionFacts)
    requires
        !s.first,
    ensures
        spec_resolve(s, resolution, facts).0.turn_time == s.turn_time,
        !spec_resolve(s, resolution, facts).0.first,
{
}

/// An action that is rejected, that commits nothing, or that is replaced by
/// another leaves the attempt as it was.
pub proof fn law_uncommitted_action_changes_nothing(
    s: CommitState,
    resolution: RuleResolution,
    facts: ActionFacts,
)
    requires
        !(resolution == RuleResolution::Accept && !facts.no_commit),
    ensures
        spec_resolve(s, resolution, facts).0 == s,
        !(spec_resolve(s, resolution, facts).1 is Commit),
{
}

/// An attempt in which nothing was committed resolves nothing and renders
/// nothing.
pub proof fn law_nothing_committed_nothing_resolved(turn_time: Option<u64>)
    ensures
        spec_finish(
            CommitState {
                turn_time,
                first: true,
                action_description: None,
                level_switch: None,
                game_over_reason: None,
                action_time: 0,
            },
        ) == (CommitFinish { render: None, resolution: None }),
{
}

/// The player whose action came to nothing chooses again; any other actor
/// waits `FAILED_ACTION_DELAY`.
pub proof fn law_failed_action(entity_id: EntityId, pc_id: EntityId)
    ensures
        entity_id == pc_id ==> spec_turn_step(entity_id, pc_id, TurnOutcome::Committed(None))
            == (TurnStep { declare_return: false, resolution: None }),
        entity_id != pc_id ==> spec_turn_step(entity_id, pc_id, TurnOutcome::Committed(None))
            == (TurnStep {
            declare_return: false,
            resolution: Some(TurnResolution::Schedule(entity_id, FAILED_ACTION_DELAY)),
        }),
{
}

/// Rules after the one that stops the checking are never heard: results
/// appended after a stopping result do not change the resolution.
pub proof fn law_first_stopping_rule_decides(results: Seq<RuleResult>, later: Seq<RuleResult>)
    requires
        exists|i: int| 0 <= i < results.len() && (#[trigger] results[i]) is Err,
    ensures
        checked_resolution(results + later) == checked_resolution(results),
    decreases results.len(),
{
    let i = choose|i: int| 0 <= i < results.len() && (#[trigger] results[i]) is Err;
    if results[0] is Ok {
        assert((results + later).drop_first() =~= results.drop_first() + later);
        assert(results.drop_first()[i - 1] == results[i]);
        law_first_stopping_rule_decides(results.drop_first(), later);
    }
}

/// An action that every rule lets through is accepted.
pub proof fn law_all_pass_accepts(results: Seq<RuleResult>)
    requires
        forall|i: int| 0 <= i < results.len() ==> (#[trigger] results[i]) is Ok,
    ensures
        checked_resolution(results) == RuleResolution::Accept,
    decreases results.len(),
{
    if results.len() > 0 {
        assert forall|i: int| 0 <= i < results.drop_first().len() implies (
        #[trigger] results.drop_first()[i]) is Ok by {
            assert(results.drop_first()[i] == results[i + 1]);
        }
        law_all_pass_accepts(results.drop_first());
    }
}

} // verus!
