use rogue_core::game::action::ActionArgs;
use rogue_core::game::data::{Coord, ExitReason, GameOverReason};
use rogue_core::game::level_switch::{LevelExit, LevelSwitch, LevelSwitchAction, TerrainType};
use rogue_core::game::message::ActionMessageType;
use rogue_core::game::rule::{Reaction, RuleResolution, RuleResult};
use rogue_core::game::turn::{
    after_rule, check_rules, pc_render_allowed, pc_render_outcome, rule_order, rule_resolution,
    take_turn_step, turn_resolution, ActionDescription, ActionFacts, CommitFinish, CommitResolution,
    CommitState, External, ForceRender, PcRender, RenderRequest, RuleName, RuleStep, ScheduledAction,
    TurnOutcome, TurnResolution, TurnStep, FAILED_ACTION_DELAY, MIN_TURN_TIME,
};

fn quiet_facts() -> ActionFacts {
    ActionFacts {
        no_commit: false,
        alternative_turn_time: None,
        action_time_ms: None,
        action_description: None,
        level_switch_action: None,
        schedule_invalidate: None,
        player_died: false,
    }
}

fn description() -> ActionDescription {
    ActionDescription { coord: Coord::new(1, 2), message: ActionMessageType::PlayerOpenDoor }
}

#[test]
fn new_commit_state() {
    let s = CommitState::new(Some(16));
    assert_eq!(s.turn_time, Some(16));
    assert!(s.first);
    assert_eq!(s.action_description, None);
    assert_eq!(s.level_switch, None);
    assert_eq!(s.game_over_reason, None);
    assert_eq!(s.action_time, 0);
}

#[test]
fn begin_action_counts_and_renders_after_time() {
    let mut s = CommitState::new(None);
    s.action_time = 7;
    s.action_description = Some(description());
    let mut action_id = 41;
    assert_eq!(s.begin_action(0, &mut action_id), None);
    assert_eq!(action_id, 42);
    assert_eq!(s.action_time, 0);
    assert_eq!(
        s.begin_action(3, &mut action_id),
        Some(RenderRequest { description: Some(description()), force: Some(ForceRender::IgnoreShouldRender) })
    );
    assert_eq!(action_id, 43);
}

#[test]
fn first_commit_sets_turn_time() {
    let mut s = CommitState::new(Some(16));
    let mut facts = quiet_facts();
    facts.alternative_turn_time = Some(4);
    facts.action_time_ms = Some(30);
    facts.schedule_invalidate = Some(77);
    assert_eq!(s.resolve(RuleResolution::Accept, &facts), RuleStep::Commit { invalidate: Some(77) });
    assert!(!s.first);
    assert_eq!(s.turn_time, Some(4));
    assert_eq!(s.action_time, 30);
    facts.alternative_turn_time = Some(1000);
    facts.action_time_ms = None;
    s.resolve(RuleResolution::Accept, &facts);
    assert_eq!(s.turn_time, Some(4));
    assert_eq!(s.action_time, 0);
}

#[test]
fn rejected_and_consumed_actions_change_nothing() {
    let mut s = CommitState::new(Some(16));
    let before = s;
    assert_eq!(s.resolve(RuleResolution::Reject, &quiet_facts()), RuleStep::Discard);
    assert_eq!(s, before);
    assert_eq!(
        s.resolve(RuleResolution::Consume(ActionArgs::TransformTree(3)), &quiet_facts()),
        RuleStep::Retry(ActionArgs::TransformTree(3))
    );
    assert_eq!(s, before);
    let mut no_commit = quiet_facts();
    no_commit.no_commit = true;
    assert_eq!(s.resolve(RuleResolution::Accept, &no_commit), RuleStep::Discard);
    assert_eq!(s, before);
}

#[test]
fn reactions_are_scheduled_after_the_action() {
    let mut s = CommitState::new(None);
    s.action_time = 10;
    let reactions = vec![
        Reaction::new(ActionArgs::TransformTree(1), 0),
        Reaction::new(ActionArgs::TransformTree(2), 5),
    ];
    assert_eq!(
        s.schedule_reactions(&reactions),
        vec![
            ScheduledAction { action: ActionArgs::TransformTree(1), time: 10 },
            ScheduledAction { action: ActionArgs::TransformTree(2), time: 15 },
        ]
    );
}

#[test]
fn finish_without_commit_resolves_nothing() {
    let s = CommitState::new(Some(16));
    assert_eq!(s.finish(), CommitFinish { render: None, resolution: None });
}

#[test]
fn finish_reschedules_with_minimum() {
    let mut s = CommitState::new(Some(0));
    s.resolve(RuleResolution::Accept, &quiet_facts());
    assert_eq!(
        s.finish(),
        CommitFinish { render: None, resolution: Some(CommitResolution::Reschedule(MIN_TURN_TIME)) }
    );
    let mut t = CommitState::new(Some(20));
    let mut facts = quiet_facts();
    facts.action_description = Some(description());
    t.resolve(RuleResolution::Accept, &facts);
    assert_eq!(
        t.finish(),
        CommitFinish {
            render: Some(RenderRequest { description: Some(description()), force: None }),
            resolution: Some(CommitResolution::Reschedule(20)),
        }
    );
    let mut u = CommitState::new(None);
    u.resolve(RuleResolution::Accept, &quiet_facts());
    assert_eq!(u.finish(), CommitFinish { render: None, resolution: None });
}

#[test]
fn finish_level_switch() {
    let switch = LevelSwitchAction {
        entity_id: 1,
        exit_id: 2,
        level_switch: LevelSwitch::ExistingLevel(LevelExit { level_id: 3, exit_id: 4 }),
    };
    let mut s = CommitState::new(Some(16));
    let mut facts = quiet_facts();
    facts.level_switch_action = Some(switch);
    s.resolve(RuleResolution::Accept, &facts);
    s.resolve(RuleResolution::Accept, &quiet_facts());
    assert_eq!(
        s.finish().resolution,
        Some(CommitResolution::LevelSwitch { entity_id: 1, exit_id: 2, level_switch: switch.level_switch })
    );
    let new_level = LevelSwitch::NewLevel(TerrainType(7));
    assert_ne!(new_level, switch.level_switch);
}

#[test]
fn law_player_death_ends_game_holds() {
    let mut s = CommitState::new(Some(16));
    let mut facts = quiet_facts();
    facts.player_died = true;
    facts.level_switch_action = Some(LevelSwitchAction {
        entity_id: 1,
        exit_id: 2,
        level_switch: LevelSwitch::NewLevel(TerrainType(0)),
    });
    s.resolve(RuleResolution::Accept, &facts);
    s.resolve(RuleResolution::Accept, &quiet_facts());
    assert_eq!(
        s.finish(),
        CommitFinish {
            render: Some(RenderRequest { description: None, force: Some(ForceRender::IgnoreShouldRender) }),
            resolution: Some(CommitResolution::GameOver(GameOverReason::PlayerDied)),
        }
    );
}

#[test]
fn take_turn_steps() {
    assert_eq!(
        take_turn_step(3, 1, TurnOutcome::External(External::Quit)),
        TurnStep { declare_return: true, resolution: Some(TurnResolution::Exit(ExitReason::Quit, 3)) }
    );
    assert_eq!(
        take_turn_step(3, 1, TurnOutcome::External(External::Pause)),
        TurnStep { declare_return: true, resolution: Some(TurnResolution::Exit(ExitReason::Pause, 3)) }
    );
    assert_eq!(
        take_turn_step(3, 1, TurnOutcome::Committed(Some(CommitResolution::Reschedule(9)))),
        TurnStep { declare_return: true, resolution: Some(TurnResolution::Schedule(3, 9)) }
    );
    assert_eq!(
        take_turn_step(3, 1, TurnOutcome::Committed(Some(CommitResolution::GameOver(GameOverReason::PlayerDied)))),
        TurnStep { declare_return: true, resolution: Some(TurnResolution::GameOver(GameOverReason::PlayerDied)) }
    );
}

#[test]
fn law_failed_action_holds() {
    assert_eq!(
        take_turn_step(1, 1, TurnOutcome::Committed(None)),
        TurnStep { declare_return: false, resolution: None }
    );
    assert_eq!(
        take_turn_step(2, 1, TurnOutcome::Committed(None)),
        TurnStep { declare_return: false, resolution: Some(TurnResolution::Schedule(2, FAILED_ACTION_DELAY)) }
    );
    assert_eq!(FAILED_ACTION_DELAY, 16);
}

#[test]
fn turn_resolution_uses_turn_time() {
    assert_eq!(turn_resolution(TurnResolution::Schedule(3, 99), Some(16)), TurnResolution::Schedule(3, 16));
    assert_eq!(
        turn_resolution(TurnResolution::Exit(ExitReason::Quit, 3), None),
        TurnResolution::Exit(ExitReason::Quit, 3)
    );
}

#[test]
fn pc_render_decisions() {
    assert!(pc_render_allowed(Some(ForceRender::IgnoreShouldRender), false));
    assert!(!pc_render_allowed(Some(ForceRender::IgnoreChange), false));
    assert!(!pc_render_allowed(None, false));
    assert!(pc_render_allowed(None, true));
    assert_eq!(
        pc_render_outcome(Some(ForceRender::IgnoreChange), false, None, true),
        PcRender { log: None, publish: true, changed: false }
    );
    assert_eq!(
        pc_render_outcome(None, false, Some(description()), true),
        PcRender { log: Some(ActionMessageType::PlayerOpenDoor), publish: true, changed: true }
    );
    assert_eq!(
        pc_render_outcome(None, false, Some(description()), false),
        PcRender { log: None, publish: false, changed: false }
    );
    assert_eq!(
        pc_render_outcome(Some(ForceRender::IgnoreShouldRender), true, None, false),
        PcRender { log: None, publish: true, changed: true }
    );
}

#[test]
fn rule_order_by_commit() {
    assert_eq!(rule_order(true), vec![RuleName::ProjectileCollision]);
    let all = rule_order(false);
    assert_eq!(all.len(), 14);
    assert_eq!(all[0], RuleName::OpenDoor);
    assert_eq!(all[13], RuleName::TearMoveTransform);
    assert!(!all.contains(&RuleName::ProjectileCollision));
}

#[test]
fn rule_results() {
    assert_eq!(after_rule(Ok(RuleResolution::Accept)), None);
    assert_eq!(after_rule(Err(RuleResolution::Reject)), Some(RuleResolution::Reject));
    assert_eq!(rule_resolution(Ok(RuleResolution::Accept)), RuleResolution::Accept);
    assert_eq!(rule_resolution(Err(RuleResolution::Reject)), RuleResolution::Reject);
}

#[test]
fn law_first_stopping_rule_decides_holds() {
    let results: Vec<RuleResult> = vec![
        Ok(RuleResolution::Accept),
        Err(RuleResolution::Consume(ActionArgs::TransformTree(1))),
        Err(RuleResolution::Reject),
    ];
    assert_eq!(check_rules(&results), RuleResolution::Consume(ActionArgs::TransformTree(1)));
}

#[test]
fn law_all_pass_accepts_holds() {
    let results: Vec<RuleResult> = vec![Ok(RuleResolution::Accept), Ok(RuleResolution::Reject)];
    assert_eq!(check_rules(&results), RuleResolution::Accept);
    assert_eq!(check_rules(&Vec::new()), RuleResolution::Accept);
}
