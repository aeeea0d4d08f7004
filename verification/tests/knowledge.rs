use rogue_core::game::knowledge::{GameKnowledge, TwoDimensionalCons};

#[derive(Debug, PartialEq, Default)]
struct Grid {
    width: usize,
    height: usize,
    seen: u32,
}

impl TwoDimensionalCons for Grid {
    fn new(width: usize, height: usize) -> Self {
        Grid { width, height, seen: 0 }
    }
}

#[test]
fn insert_size_makes_level_once() {
    let mut k: GameKnowledge<Grid> = GameKnowledge::new();
    let level = k.level_mut_or_insert_size(2, 10, 20);
    assert_eq!(*level, Grid { width: 10, height: 20, seen: 0 });
    level.seen = 5;
    let again = k.level_mut_or_insert_size(2, 1, 1);
    assert_eq!(*again, Grid { width: 10, height: 20, seen: 5 });
    assert_eq!(*k.level(2), Grid { width: 10, height: 20, seen: 5 });
}

#[test]
fn level_mut_changes_in_place() {
    let mut k: GameKnowledge<Grid> = Default::default();
    k.level_mut_or_insert_size(-1, 3, 4);
    k.level_mut(-1).seen = 8;
    assert_eq!(k.level(-1).seen, 8);
}

#[test]
fn law_level_knowledge_kept_holds() {
    let mut k: GameKnowledge<Grid> = GameKnowledge::new();
    k.level_mut_or_insert_size(1, 5, 5).seen = 1;
    k.level_mut_or_insert_size(2, 6, 6);
    assert_eq!(*k.level(1), Grid { width: 5, height: 5, seen: 1 });
    assert_eq!(*k.level(2), Grid { width: 6, height: 6, seen: 0 });
}
