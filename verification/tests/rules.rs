use rogue_core::game::action::ActionArgs;
use rogue_core::game::data::{Coord, DoorState};
use rogue_core::game::moon_transform::{moon_transform, MoonChanges};
use rogue_core::game::rule::{Reaction, RuleEnv, RuleResolution, rule_accept};
use rogue_core::game::rules::collision::detect_collision;
use rogue_core::game::rules::door::detect_open;
use rogue_core::game::rules::{Action, EntityChanges, RuleContext, RuleResult, UpdateSummary};
use rogue_core::game::transformation::{TransformationState, TransformationType};
use rogue_core::game::world::{CellView, EcsView, EntityView, LevelView, SpatialView};

const LEVEL: u64 = 100;

fn entity(id: u64) -> EntityView {
    EntityView {
        id,
        position: None,
        on_level: Some(LEVEL),
        collider: false,
        destroy_on_collision: false,
        door: None,
        transformation_state: None,
        transformation_type: None,
    }
}

fn cell(x: isize, y: isize, solid: bool, door: bool, entities: Vec<u64>) -> CellView {
    CellView { coord: Coord::new(x, y), solid, door, entities, transform_on_moon_change: vec![] }
}

fn world(entities: Vec<EntityView>, cells: Vec<CellView>) -> EcsView {
    EcsView { entities, levels: vec![LevelView { level_entity: LEVEL, spatial: SpatialView { cells } }] }
}

fn moves(changes: Vec<(u64, Option<Coord>)>) -> UpdateSummary {
    let changes: Vec<EntityChanges> =
        changes.into_iter().map(|(entity_id, position)| EntityChanges { entity_id, position }).collect();
    UpdateSummary { added_components: changes.clone(), changed_entities: changes, position_changed: true }
}

fn is_pass(r: &RuleResult) -> bool {
    matches!(r, RuleResult::Pass)
}

#[test]
fn lookups_find_first_match() {
    let mut e2 = entity(2);
    e2.collider = true;
    let w = world(vec![entity(1), e2, entity(2)], vec![cell(0, 0, true, false, vec![]), cell(0, 0, false, false, vec![])]);
    assert!(w.entity(2).unwrap().collider);
    assert!(w.entity(3).is_none());
    let level = w.level(LEVEL).unwrap();
    assert!(level.spatial.get(Coord::new(0, 0)).unwrap().solid);
    assert!(level.spatial.get(Coord::new(1, 0)).is_none());
    assert!(w.level(7).is_none());
}

#[test]
fn collider_into_wall_fails() {
    let mut pc = entity(1);
    pc.collider = true;
    let w = world(vec![pc], vec![cell(2, 3, true, false, vec![9])]);
    let update = moves(vec![(1, Some(Coord::new(2, 3)))]);
    let r = detect_collision(RuleContext { update: &update, entities: &w });
    assert!(matches!(r, RuleResult::Fail));
}

#[test]
fn bullet_into_wall_is_removed() {
    let mut bullet = entity(5);
    bullet.collider = true;
    bullet.destroy_on_collision = true;
    let w = world(vec![bullet], vec![cell(2, 3, true, false, vec![9])]);
    let update = moves(vec![(5, Some(Coord::new(2, 3)))]);
    match detect_collision(RuleContext { update: &update, entities: &w }) {
        RuleResult::Instead(actions) => {
            assert_eq!(actions, vec![Action::RemoveEntity { entity_id: 5, action_time: Some(1) }]);
        }
        _ => panic!("expected the bullet to be removed"),
    }
}

#[test]
fn collision_passes_open_ground_and_non_colliders() {
    let mut pc = entity(1);
    pc.collider = true;
    let ghost = entity(2);
    let w = world(vec![pc, ghost], vec![cell(2, 3, true, false, vec![]), cell(4, 4, false, false, vec![])]);
    let update = moves(vec![(1, Some(Coord::new(4, 4))), (2, Some(Coord::new(2, 3))), (1, None), (1, Some(Coord::new(9, 9)))]);
    assert!(is_pass(&detect_collision(RuleContext { update: &update, entities: &w })));
}

#[test]
fn collider_opens_closed_door() {
    let mut pc = entity(1);
    pc.collider = true;
    pc.position = Some(Coord::new(5, 5));
    let mut open_door = entity(7);
    open_door.door = Some(DoorState::Open);
    let mut closed_door = entity(8);
    closed_door.door = Some(DoorState::Closed);
    let w = world(vec![pc, open_door, closed_door, entity(6)], vec![cell(5, 5, true, true, vec![6, 7, 8])]);
    let update = moves(vec![(1, Some(Coord::new(5, 5)))]);
    match detect_open(&update, &w) {
        RuleResult::Instead(actions) => assert_eq!(actions, vec![Action::OpenDoor(8)]),
        _ => panic!("expected the door to open"),
    }
}

#[test]
fn door_rule_passes_without_position_change() {
    let mut pc = entity(1);
    pc.collider = true;
    pc.position = Some(Coord::new(5, 5));
    let mut closed_door = entity(8);
    closed_door.door = Some(DoorState::Closed);
    let w = world(vec![pc, closed_door], vec![cell(5, 5, true, true, vec![8])]);
    let mut update = moves(vec![(1, Some(Coord::new(5, 5)))]);
    update.position_changed = false;
    assert!(is_pass(&detect_open(&update, &w)));
    update.position_changed = true;
    let mut non_collider_world = w.clone();
    non_collider_world.entities[0].collider = false;
    assert!(is_pass(&detect_open(&update, &non_collider_world)));
}

#[test]
fn door_rule_passes_when_no_closed_door() {
    let mut pc = entity(1);
    pc.collider = true;
    pc.position = Some(Coord::new(5, 5));
    let mut open_door = entity(7);
    open_door.door = Some(DoorState::Open);
    let w = world(vec![pc, open_door], vec![cell(5, 5, true, true, vec![7])]);
    let update = moves(vec![(1, Some(Coord::new(5, 5)))]);
    assert!(is_pass(&detect_open(&update, &w)));
}

#[test]
fn to_action_args_names_the_transformation() {
    assert_eq!(TransformationType::Tree.to_action_args(4), ActionArgs::TransformTree(4));
    assert_eq!(
        TransformationType::TerrorPillarTerrorFly.to_action_args(9),
        ActionArgs::TransformTerrorPillarTerrorFly(9)
    );
}

fn transformer(id: u64, state: TransformationState, t: TransformationType) -> EntityView {
    let mut e = entity(id);
    e.transformation_state = Some(state);
    e.transformation_type = Some(t);
    e
}

#[test]
fn moon_transforms_matching_transformers() {
    let mut moon_target = entity(1);
    moon_target.position = Some(Coord::new(3, 3));
    let mut far_target = entity(2);
    far_target.position = Some(Coord::new(0, 0));
    let ecs = world(
        vec![
            moon_target,
            far_target,
            transformer(10, TransformationState::Real, TransformationType::Tree),
            transformer(11, TransformationState::Other, TransformationType::TerrorPillarTerrorFly),
            transformer(12, TransformationState::Real, TransformationType::TerrorPillarTerrorFly),
        ],
        vec![],
    );
    let mut c = cell(3, 3, false, false, vec![]);
    c.transform_on_moon_change = vec![10, 11, 12];
    let spatial = SpatialView { cells: vec![c] };
    let changes = MoonChanges { insertions: vec![1, 2, 3], removals: vec![1] };
    let mut reactions = vec![Reaction::new(ActionArgs::TransformTree(99), 5)];
    let r = moon_transform(RuleEnv { ecs: &ecs, spatial_hash: &spatial }, &changes, &mut reactions);
    assert_eq!(r, rule_accept());
    assert_eq!(r, Ok(RuleResolution::Accept));
    assert_eq!(
        reactions,
        vec![
            Reaction::new(ActionArgs::TransformTree(99), 5),
            Reaction::new(ActionArgs::TransformTree(10), 0),
            Reaction::new(ActionArgs::TransformTerrorPillarTerrorFly(12), 0),
            Reaction::new(ActionArgs::TransformTerrorPillarTerrorFly(11), 0),
        ]
    );
}

#[test]
fn law_moon_reactions_immediate_holds() {
    let mut target = entity(1);
    target.position = Some(Coord::new(1, 1));
    let ecs = world(vec![target, transformer(10, TransformationState::Real, TransformationType::Tree)], vec![]);
    let mut c = cell(1, 1, false, false, vec![]);
    c.transform_on_moon_change = vec![10, 10];
    let spatial = SpatialView { cells: vec![c] };
    let changes = MoonChanges { insertions: vec![1], removals: vec![] };
    let mut reactions = Vec::new();
    moon_transform(RuleEnv { ecs: &ecs, spatial_hash: &spatial }, &changes, &mut reactions).unwrap();
    assert_eq!(reactions.len(), 2);
    assert!(reactions.iter().all(|r| r.delay == 0));
}

#[test]
fn law_opens_only_closed_doors_holds() {
    let mut pc = entity(1);
    pc.collider = true;
    pc.position = Some(Coord::new(0, 0));
    let mut open_door = entity(2);
    open_door.door = Some(DoorState::Open);
    let mut closed_door = entity(3);
    closed_door.door = Some(DoorState::Closed);
    let w = world(vec![pc, open_door, closed_door], vec![cell(0, 0, true, true, vec![2, 3])]);
    let update = moves(vec![(1, Some(Coord::new(0, 0)))]);
    match detect_open(&update, &w) {
        RuleResult::Instead(actions) => {
            assert_eq!(actions.len(), 1);
            match actions[0] {
                Action::OpenDoor(id) => assert_eq!(w.entity(id).unwrap().door, Some(DoorState::Closed)),
                _ => panic!("expected a door to open"),
            }
        }
        _ => panic!("expected a door to open"),
    }
}

#[test]
fn law_removes_only_destroyable_holds() {
    let mut pc = entity(1);
    pc.collider = true;
    let mut bullet = entity(2);
    bullet.collider = true;
    bullet.destroy_on_collision = true;
    let w = world(vec![pc, bullet], vec![cell(1, 1, true, false, vec![])]);
    let update = moves(vec![(2, Some(Coord::new(1, 1))), (1, Some(Coord::new(1, 1)))]);
    match detect_collision(RuleContext { update: &update, entities: &w }) {
        RuleResult::Instead(actions) => match actions[0] {
            Action::RemoveEntity { entity_id, .. } => {
                let e = w.entity(entity_id).unwrap();
                assert!(e.collider && e.destroy_on_collision);
            }
            _ => panic!("expected a removal"),
        },
        _ => panic!("expected a removal"),
    }
}

#[test]
fn lookup_checks_match_rule_preconditions() {
    let mut pc = entity(1);
    pc.collider = true;
    pc.position = Some(Coord::new(0, 0));
    let good = world(vec![pc], vec![cell(0, 0, true, true, vec![])]);
    let update = moves(vec![(1, Some(Coord::new(0, 0)))]);
    assert!(rogue_core::game::rules::collision::collision_lookups_ok(&RuleContext { update: &update, entities: &good }));
    assert!(rogue_core::game::rules::door::open_lookups_ok(&update, &good));
    let missing_entity = moves(vec![(42, Some(Coord::new(0, 0)))]);
    assert!(!rogue_core::game::rules::collision::collision_lookups_ok(&RuleContext { update: &missing_entity, entities: &good }));
    assert!(!rogue_core::game::rules::door::open_lookups_ok(&missing_entity, &good));
    let unknown_in_door_cell = world(vec![pc], vec![cell(0, 0, true, true, vec![77])]);
    assert!(!rogue_core::game::rules::door::open_lookups_ok(&update, &unknown_in_door_cell));
    let mut no_level = pc;
    no_level.on_level = None;
    let lost = world(vec![no_level], vec![]);
    assert!(!rogue_core::game::rules::collision::collision_lookups_ok(&RuleContext { update: &update, entities: &lost }));
}

#[test]
fn moon_lookup_check() {
    let mut target = entity(1);
    target.position = Some(Coord::new(1, 1));
    let mut stateless = entity(10);
    stateless.transformation_type = Some(TransformationType::Tree);
    let ecs = world(vec![target, stateless], vec![]);
    let mut c = cell(1, 1, false, false, vec![]);
    c.transform_on_moon_change = vec![10];
    let spatial = SpatialView { cells: vec![c] };
    let env = RuleEnv { ecs: &ecs, spatial_hash: &spatial };
    let changes = MoonChanges { insertions: vec![1], removals: vec![] };
    assert!(!rogue_core::game::moon_transform::moon_lookups_ok(&env, &changes));
    let elsewhere = MoonChanges { insertions: vec![2], removals: vec![] };
    assert!(rogue_core::game::moon_transform::moon_lookups_ok(&env, &elsewhere));
    let ready = world(vec![target, transformer(10, TransformationState::Other, TransformationType::Tree)], vec![]);
    let env2 = RuleEnv { ecs: &ready, spatial_hash: &spatial };
    assert!(rogue_core::game::moon_transform::moon_lookups_ok(&env2, &changes));
}
