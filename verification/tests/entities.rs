use rogue_core::game::data::{Coord, DoorState};
use rogue_core::game::entities::{
    make_bullet, make_door, make_floor, make_level, make_pc, make_tree, make_wall, AnsiColour,
    ComplexTile, Component, SimpleTile,
};

#[test]
fn doors_open_and_closed() {
    let open = make_door(1, 2, 7, DoorState::Open);
    assert_eq!(
        open.components,
        vec![
            Component::Position(Coord::new(1, 2)),
            Component::TileDepth(1),
            Component::OnLevel(7),
            Component::Tile(ComplexTile::Simple(SimpleTile::Foreground('-', AnsiColour::White))),
            Component::Door(DoorState::Open),
            Component::Opacity(0),
        ]
    );
    let closed = make_door(1, 2, 7, DoorState::Closed);
    assert!(closed.components.contains(&Component::Solid));
    assert!(closed.components.contains(&Component::Door(DoorState::Closed)));
    assert!(closed.components.contains(&Component::Opacity(100)));
    assert!(!open.components.contains(&Component::Solid));
}

#[test]
fn wall_tree_floor() {
    let wall = make_wall(0, 0, 1);
    assert!(wall.components.contains(&Component::Solid));
    assert_eq!(wall.components.len(), 6);
    let tree = make_tree(0, 0, 1);
    assert!(tree.components.contains(&Component::Opacity(40)));
    let floor = make_floor(3, 4, 1);
    assert_eq!(floor.components[0], Component::Position(Coord::new(3, 4)));
    assert!(floor.components.contains(&Component::TileDepth(0)));
    assert!(!floor.components.contains(&Component::Solid));
}

#[test]
fn pc_bullet_level() {
    let pc = make_pc(5, 5, 2);
    assert!(pc.components.contains(&Component::PlayerActor));
    assert!(pc.components.contains(&Component::VisionDistance(20)));
    let bullet = make_bullet(5, 5, 2);
    assert!(bullet.components.contains(&Component::DestroyOnCollision));
    assert!(bullet.components.contains(&Component::Collider));
    assert_eq!(make_level(10, 20).components, vec![Component::LevelData { width: 10, height: 20 }]);
}
