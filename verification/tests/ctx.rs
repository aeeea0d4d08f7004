use rogue_core::game::ctx::{
    after_turn, demo_level_str, startup_rules, level_is_drawable, plan_level, start_turn, GameError, LoopControl,
    Prototype, Spawn,
};
use rogue_core::game::data::{Coord, DoorState, ExitReason};
use rogue_core::game::turn::{RuleName, TurnResolution};

#[test]
fn demo_level_has_26_lines_of_38() {
    let lines = demo_level_str();
    assert_eq!(lines.len(), 26);
    assert!(lines.iter().all(|l| l.chars().count() == 38));
    assert!(level_is_drawable(&lines));
}

#[test]
fn demo_level_plan() {
    let lines = demo_level_str();
    let plan = plan_level(&lines);
    let pc = plan.pc.expect("the demo level has a player");
    assert_eq!(plan.first_turn, Some((pc, 0)));
    assert_eq!(plan.spawns[pc], Spawn { prototype: Prototype::Pc, coord: Coord::new(18, 14) });
    assert_eq!(plan.spawns[pc + 1], Spawn { prototype: Prototype::OutsideFloor, coord: Coord::new(18, 14) });
    let doors = plan.spawns.iter().filter(|s| s.prototype == Prototype::Door(DoorState::Closed)).count();
    assert_eq!(doors, 2);
    assert_eq!(plan.spawns[0], Spawn { prototype: Prototype::Tree, coord: Coord::new(0, 0) });
    assert_eq!(plan.spawns[1], Spawn { prototype: Prototype::OutsideFloor, coord: Coord::new(0, 0) });
}

#[test]
fn small_level_plan() {
    let lines = vec!["#.", "+@,"];
    assert!(level_is_drawable(&lines));
    let plan = plan_level(&lines);
    assert_eq!(
        plan.spawns,
        vec![
            Spawn { prototype: Prototype::Wall, coord: Coord::new(0, 0) },
            Spawn { prototype: Prototype::Floor, coord: Coord::new(0, 0) },
            Spawn { prototype: Prototype::Floor, coord: Coord::new(1, 0) },
            Spawn { prototype: Prototype::Door(DoorState::Closed), coord: Coord::new(0, 1) },
            Spawn { prototype: Prototype::Pc, coord: Coord::new(1, 1) },
            Spawn { prototype: Prototype::OutsideFloor, coord: Coord::new(1, 1) },
            Spawn { prototype: Prototype::OutsideFloor, coord: Coord::new(2, 1) },
        ]
    );
    assert_eq!(plan.pc, Some(4));
}

#[test]
fn law_pc_iff_drawn_holds() {
    let without = vec!["#.", ",&"];
    assert_eq!(plan_level(&without).pc, None);
    assert_eq!(plan_level(&without).first_turn, None);
    let twice = vec!["@.", ".@"];
    let plan = plan_level(&twice);
    assert_eq!(plan.pc, Some(4));
    assert_eq!(plan.spawns[4].coord, Coord::new(1, 1));
}

#[test]
fn unknown_character_is_not_drawable() {
    assert!(!level_is_drawable(&vec!["#.", ".x"]));
    assert!(level_is_drawable(&Vec::new()));
}

#[test]
fn start_turn_counts_and_needs_an_actor() {
    let mut turn_id = 5;
    assert_eq!(start_turn(&mut turn_id, Some(9)), Ok(9));
    assert_eq!(turn_id, 6);
    assert_eq!(start_turn(&mut turn_id, None), Err(GameError::ScheduleEmpty));
    assert_eq!(turn_id, 7);
}

#[test]
fn after_turn_reschedules_or_finishes() {
    assert_eq!(after_turn(TurnResolution::Schedule(3, 16)), LoopControl::Reschedule(3, 16));
    assert_eq!(
        after_turn(TurnResolution::Exit(ExitReason::Quit, 3)),
        LoopControl::Finish(TurnResolution::Exit(ExitReason::Quit, 3))
    );
}

#[test]
fn law_spawns_where_drawn_holds() {
    let lines = demo_level_str();
    let plan = plan_level(&lines);
    for spawn in &plan.spawns {
        let row: Vec<char> = lines[spawn.coord.y as usize].chars().collect();
        let ch = row[spawn.coord.x as usize];
        let expected: Vec<Prototype> = match ch {
            '#' => vec![Prototype::Wall, Prototype::Floor],
            '&' => vec![Prototype::Tree, Prototype::OutsideFloor],
            '.' => vec![Prototype::Floor],
            ',' => vec![Prototype::OutsideFloor],
            '+' => vec![Prototype::Door(DoorState::Closed)],
            '@' => vec![Prototype::Pc, Prototype::OutsideFloor],
            _ => vec![],
        };
        assert!(expected.contains(&spawn.prototype));
    }
}

#[test]
fn game_starts_with_door_and_collision_rules() {
    assert_eq!(startup_rules(), vec![RuleName::OpenDoor, RuleName::Collision, RuleName::CloseDoor]);
}
