use rogue_core::game::ansi_drawable::{update_knowledge_cell, CellEntityTile};
use rogue_core::game::entities::{AnsiColour, ComplexTile, SimpleTile};

fn floor() -> ComplexTile {
    ComplexTile::Simple(SimpleTile::Full { ch: '.', fg: AnsiColour::White, bg: AnsiColour::DarkGrey })
}

fn pc() -> ComplexTile {
    ComplexTile::Simple(SimpleTile::Foreground('@', AnsiColour::White))
}

#[test]
fn stale_cell_is_redrawn() {
    let entities = vec![
        CellEntityTile { tile_depth: Some(0), tile: Some(floor()), opaque_bg: true },
        CellEntityTile { tile_depth: Some(2), tile: Some(pc()), opaque_bg: false },
        CellEntityTile { tile_depth: None, tile: Some(pc()), opaque_bg: true },
        CellEntityTile { tile_depth: Some(1), tile: None, opaque_bg: true },
    ];
    let mut last_updated = 3;
    let inserts = update_knowledge_cell(&mut last_updated, 5, &entities, 9);
    assert_eq!(last_updated, 9);
    assert_eq!(inserts.foreground, vec![(0, floor()), (2, pc())]);
    assert_eq!(inserts.background, vec![(0, floor())]);
}

#[test]
fn fresh_cell_is_not_redrawn() {
    let entities = vec![CellEntityTile { tile_depth: Some(0), tile: Some(floor()), opaque_bg: true }];
    let mut last_updated = 5;
    let inserts = update_knowledge_cell(&mut last_updated, 5, &entities, 9);
    assert_eq!(last_updated, 9);
    assert!(inserts.foreground.is_empty());
    assert!(inserts.background.is_empty());
}
