use vstd::prelude::*;
use crate::game::data::{Coord, DoorState, EntityId};

verus! {

/// The colours of the ANSI terminal that tiles are drawn in.
#[derive(PartialEq, Eq, Structural, Clone, Copy, Debug)]
pub enum AnsiColour {
    Magenta,
    Grey,
    White,
    DarkGrey,
    Green,
    Red,
}

/// A tile of one character.
#[derive(PartialEq, Eq, Structural, Clone, Copy, Debug)]
pub enum SimpleTile {
    /// A character on a background of its own.
    Full { ch: char, fg: AnsiColour, bg: AnsiColour },
    /// A character over whatever lies below it.
    Foreground(char, AnsiColour),
}

/// How an entity is drawn.
#[derive(PartialEq, Eq, Structural, Clone, Copy, Debug)]
pub enum ComplexTile {
    Simple(SimpleTile),
    /// A wall: drawn as `front` where the cell below is open, as `back` elsewhere.
    Wall { front: SimpleTile, back: SimpleTile },
}

/// A component of an entity.
#[derive(PartialEq, Eq, Structural, Clone, Copy, Debug)]
pub enum Component {
    Position(Coord),
    Solid,
    Tile(ComplexTile),
    TileDepth(isize),
    OnLevel(EntityId),
    /// How much light the entity stops, in hundredths.
    Opacity(u8),
    Door(DoorState),
    PlayerActor,
    Collider,
    DoorOpener,
    VisionDistance(usize),
    /// A fresh record of what the entity has seen.
    DrawableKnowledge,
    Bullet,
    DestroyOnCollision,
    /// A level of the given size.
    LevelData { width: usize, height: usize },
}

/// An entity, as the components it is made of.
#[derive(Clone, Debug)]
pub struct Entity {
    pub components: Vec<Component>,
}

pub open spec fn wall_components(x: isize, y: isize, level: EntityId) -> Seq<Component> {
    seq![
        Component::Position(Coord { x, y }),
        Component::Solid,
        Component::Tile(
            ComplexTile::Wall {
                front: SimpleTile::Full { ch: '▄', fg: AnsiColour::Magenta, bg: AnsiColour::Grey },
                back: SimpleTile::Foreground('█', AnsiColour::Grey),
            },
        ),
        Component::TileDepth(1),
        Component::OnLevel(level),
        Component::Opacity(100),
    ]
}

pub fn make_wall(x: isize, y: isize, level: EntityId) -> (e: Entity)
    ensures
        e.components@ == wall_components(x, y, level),
{
    let components = vec![
        Component::Position(Coord::new(x, y)),
        Component::Solid,
        Component::Tile(
            ComplexTile::Wall {
                front: SimpleTile::Full { ch: '▄', fg: AnsiColour::Magenta, bg: AnsiColour::Grey },
                back: SimpleTile::Foreground('█', AnsiColour::Grey),
            },
        ),
        Component::TileDepth(1),
        Component::OnLevel(level),
        Component::Opacity(100),
    ];
    assert(components@ =~= wall_components(x, y, level));
    Entity { components }
}

pub open spec fn door_components(x: isize, y: isize, level: EntityId, state: DoorState) -> Seq<
    Component,
> {
    let common = seq![
        Component::Position(Coord { x, y }),
        Component::TileDepth(1),
        Component::OnLevel(level),
    ];
    if state == DoorState::Open {
        common + seq![
            Component::Tile(ComplexTile::Simple(SimpleTile::Foreground('-', AnsiColour::White))),
            Component::Door(DoorState::Open),
            Component::Opacity(0),
        ]
    } else {
        common + seq![
            Component::Solid,
            Component::Tile(
                ComplexTile::Simple(
                    SimpleTile::Full { ch: '+', fg: AnsiColour::White, bg: AnsiColour::DarkGrey },
                ),
            ),
            Component::Door(DoorState::Closed),
            Component::Opacity(100),
        ]
    }
}

/// A door: an open door lets light and movement through, a closed one is
/// solid and opaque.
pub fn make_door(x: isize, y: isize, level: EntityId, state: DoorState) -> (e: Entity)
    ensures
        e.components@ == door_components(x, y, level, state),
{
    let mut components = vec![
        Component::Position(Coord::new(x, y)),
        Component::TileDepth(1),
        Component::OnLevel(level),
    ];
    if state == DoorState::Open {
        components.push(
            Component::Tile(ComplexTile::Simple(SimpleTile::Foreground('-', AnsiColour::White))),
        );
        components.push(Component::Door(DoorState::Open));
        components.push(Component::Opacity(0));
    } else {
        components.push(Component::Solid);
        components.push(
            Component::Tile(
                ComplexTile::Simple(
                    SimpleTile::Full { ch: '+', fg: AnsiColour::White, bg: AnsiColour::DarkGrey },
                ),
            ),
        );
        components.push(Component::Door(DoorState::Closed));
        components.push(Component::Opacity(100));
    }
    assert(components@ =~= door_components(x, y, level, state));
    Entity { components }
}

pub open spec fn tree_components(x: isize, y: isize, level: EntityId) -> Seq<Component> {
    seq![
        Component::Position(Coord { x, y }),
        Component::Solid,
        Component::Tile(ComplexTile::Simple(SimpleTile::Foreground('&', AnsiColour::Green))),
        Component::TileDepth(1),
        Component::OnLevel(level),
        Component::Opacity(40),
    ]
}

pub fn make_tree(x: isize, y: isize, level: EntityId) -> (e: Entity)
    ensures
        e.components@ == tree_components(x, y, level),
{
    let components = vec![
        Component::Position(Coord::new(x, y)),
        Component::Solid,
        Component::Tile(ComplexTile::Simple(SimpleTile::Foreground('&', AnsiColour::Green))),
        Component::TileDepth(1),
        Component::OnLevel(level),
        Component::Opacity(40),
    ];
    assert(components@ =~= tree_components(x, y, level));
    Entity { components }
}

pub open spec fn floor_components(x: isize, y: isize, level: EntityId) -> Seq<Component> {
    seq![
        Component::Position(Coord { x, y }),
        Component::Tile(
            ComplexTile::Simple(
                SimpleTile::Full { ch: '.', fg: AnsiColour::White, bg: AnsiColour::DarkGrey },
            ),
        ),
        Component::TileDepth(0),
        Component::OnLevel(level),
    ]
}

pub fn make_floor(x: isize, y: isize, level: EntityId) -> (e: Entity)
    ensures
        e.components@ == floor_components(x, y, level),
{
    let components = vec![
        Component::Position(Coord::new(x, y)),
        Component::Tile(
            ComplexTile::Simple(
                SimpleTile::Full { ch: '.', fg: AnsiColour::White, bg: AnsiColour::DarkGrey },
            ),
        ),
        Component::TileDepth(0),
        Component::OnLevel(level),
    ];
    assert(components@ =~= floor_components(x, y, level));
    Entity { components }
}

pub open spec fn pc_components(x: isize, y: isize, level: EntityId) -> Seq<Component> {
    seq![
        Component::Position(Coord { x, y }),
        Component::Tile(ComplexTile::Simple(SimpleTile::Foreground('@', AnsiColour::White))),
        Component::TileDepth(2),
        Component::PlayerActor,
        Component::OnLevel(level),
        Component::Collider,
        Component::DoorOpener,
        Component::VisionDistance(20),
        Component::DrawableKnowledge,
    ]
}

pub fn make_pc(x: isize, y: isize, level: EntityId) -> (e: Entity)
    ensures
        e.components@ == pc_components(x, y, level),
{
    let components = vec![
        Component::Position(Coord::new(x, y)),
        Component::Tile(ComplexTile::Simple(SimpleTile::Foreground('@', AnsiColour::White))),
        Component::TileDepth(2),
        Component::PlayerActor,
        Component::OnLevel(level),
        Component::Collider,
        Component::DoorOpener,
        Component::VisionDistance(20),
        Component::DrawableKnowledge,
    ];
    assert(components@ =~= pc_components(x, y, level));
    Entity { components }
}

pub open spec fn bullet_components(x: isize, y: isize, level: EntityId) -> Seq<Component> {
    seq![
        Component::Position(Coord { x, y }),
        Component::Tile(ComplexTile::Simple(SimpleTile::Foreground('*', AnsiColour::Red))),
        Component::TileDepth(2),
        Component::OnLevel(level),
        Component::Collider,
        Component::Bullet,
        Component::DestroyOnCollision,
    ]
}

pub fn make_bullet(x: isize, y: isize, level: EntityId) -> (e: Entity)
    ensures
        e.components@ == bullet_components(x, y, level),
{
    let components = vec![
        Component::Position(Coord::new(x, y)),
        Component::Tile(ComplexTile::Simple(SimpleTile::Foreground('*', AnsiColour::Red))),
        Component::TileDepth(2),
        Component::OnLevel(level),
        Component::Collider,
        Component::Bullet,
        Component::DestroyOnCollision,
    ];
    assert(components@ =~= bullet_components(x, y, level));
    Entity { components }
}

pub fn make_level(width: usize, height: usize) -> (e: Entity)
    ensures
        e.components@ == seq![Component::LevelData { width, height }],
{
    let components = vec![Component::LevelData { width, height }];
    assert(components@ =~= seq![Component::LevelData { width, height }]);
    Entity { components }
}

/// Walls, trees and closed doors block movement; floors, open doors, the
/// player and bullets do not.
pub proof fn law_solid_prototypes(x: isize, y: isize, level: EntityId)
    ensures
        wall_components(x, y, level).contains(Component::Solid),
        tree_components(x, y, level).contains(Component::Solid),
        door_components(x, y, level, DoorState::Closed).contains(Component::Solid),
        !floor_components(x, y, level).contains(Component::Solid),
        !door_components(x, y, level, DoorState::Open).contains(Component::Solid),
        !pc_components(x, y, level).contains(Component::Solid),
        !bullet_components(x, y, level).contains(Component::Solid),
{
    assert(wall_components(x, y, level)[1] == Component::Solid);
    assert(tree_components(x, y, level)[1] == Component::Solid);
    assert(door_components(x, y, level, DoorState::Closed)[3] == Component::Solid);
    let f = floor_components(x, y, level);
    assert(!f.contains(Component::Solid)) by {
        if f.contains(Component::Solid) {
            let k = choose|k: int| 0 <= k < f.len() && f[k] == Component::Solid;
            assert(0 <= k < 4);
        }
    }
    let o = door_components(x, y, level, DoorState::Open);
    assert(!o.contains(Component::Solid)) by {
        if o.contains(Component::Solid) {
            let k = choose|k: int| 0 <= k < o.len() && o[k] == Component::Solid;
            assert(0 <= k < 6);
        }
    }
    let p = pc_components(x, y, level);
    assert(!p.contains(Component::Solid)) by {
        if p.contains(Component::Solid) {
            let k = choose|k: int| 0 <= k < p.len() && p[k] == Component::Solid;
            assert(0 <= k < 9);
        }
    }
    let b = bullet_components(x, y, level);
    assert(!b.contains(Component::Solid)) by {
        if b.contains(Component::Solid) {
            let k = choose|k: int| 0 <= k < b.len() && b[k] == Component::Solid;
            assert(0 <= k < 7);
        }
    }
}

/// Every prototype placed on a level stands at the given cell, on the given
/// level, and a door is in the state asked for.
pub proof fn law_prototypes_placed(x: isize, y: isize, level: EntityId, state: DoorState)
    ensures
        wall_components(x, y, level).contains(Component::Position(Coord { x, y })),
        wall_components(x, y, level).contains(Component::OnLevel(level)),
        tree_components(x, y, level).contains(Component::Position(Coord { x, y })),
        tree_components(x, y, level).contains(Component::OnLevel(level)),
        floor_components(x, y, level).contains(Component::Position(Coord { x, y })),
        floor_components(x, y, level).contains(Component::OnLevel(level)),
        pc_components(x, y, level).contains(Component::Position(Coord { x, y })),
        pc_components(x, y, level).contains(Component::OnLevel(level)),
        pc_components(x, y, level).contains(Component::PlayerActor),
        bullet_components(x, y, level).contains(Component::Position(Coord { x, y })),
        bullet_components(x, y, level).contains(Component::OnLevel(level)),
        bullet_components(x, y, level).contains(Component::DestroyOnCollision),
        door_components(x, y, level, state).contains(Component::Position(Coord { x, y })),
        door_components(x, y, level, state).contains(Component::OnLevel(level)),
        door_components(x, y, level, state).contains(Component::Door(state)),
{
    assert(wall_components(x, y, level)[0] == Component::Position(Coord { x, y }));
    assert(wall_components(x, y, level)[4] == Component::OnLevel(level));
    assert(tree_components(x, y, level)[0] == Component::Position(Coord { x, y }));
    assert(tree_components(x, y, level)[4] == Component::OnLevel(level));
    assert(floor_components(x, y, level)[0] == Component::Position(Coord { x, y }));
    assert(floor_components(x, y, level)[3] == Component::OnLevel(level));
    assert(pc_components(x, y, level)[0] == Component::Position(Coord { x, y }));
    assert(pc_components(x, y, level)[4] == Component::OnLevel(level));
    assert(pc_components(x, y, level)[3] == Component::PlayerActor);
    assert(bullet_components(x, y, level)[0] == Component::Position(Coord { x, y }));
    assert(bullet_components(x, y, level)[3] == Component::OnLevel(level));
    assert(bullet_components(x, y, level)[6] == Component::DestroyOnCollision);
    let d = door_components(x, y, level, state);
    assert(d[0] == Component::Position(Coord { x, y }));
    assert(d[2] == Component::OnLevel(level));
    if state == DoorState::Open {
        assert(d[4] == Component::Door(state));
    } else {
        assert(d[5] == Component::Door(state));
    }
}

} // verus!
