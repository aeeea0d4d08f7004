use vstd::prelude::*;
use crate::game::entities::ComplexTile;

verus! {

/// What updating knowledge reads of one entity in a cell of the world.
#[derive(PartialEq, Eq, Structural, Clone, Copy, Debug)]
pub struct CellEntityTile {
    pub tile_depth: Option<isize>,
    pub tile: Option<ComplexTile>,
    /// The tile hides what lies below it.
    pub opaque_bg: bool,
}

/// The inserts that updating a cell of knowledge makes into the cell's
/// foreground and background maps, keyed by tile depth, in order.
#[derive(Clone, Debug)]
pub struct CellInserts {
    pub foreground: Vec<(isize, ComplexTile)>,
    pub background: Vec<(isize, ComplexTile)>,
}

/// The foreground inserts for `entities`: every entity with a tile depth and a
/// tile, in order.
pub open spec fn foreground_inserts(entities: Seq<CellEntityTile>) -> Seq<(isize, ComplexTile)>
    decreases entities.len(),
{
    if entities.len() == 0 {
        Seq::empty()
    } else {
        let prev = foreground_inserts(entities.drop_last());
        let e = entities.last();
        match (e.tile_depth, e.tile) {
            (Some(d), Some(t)) => prev.push((d, t)),
            _ => prev,
        }
    }
}

/// The background inserts for `entities`: every entity with a tile depth and
/// an opaque tile, in order.
pub open spec fn background_inserts(entities: Seq<CellEntityTile>) -> Seq<(isize, ComplexTile)>
    decreases entities.len(),
{
    if entities.len() == 0 {
        Seq::empty()
    } else {
        let prev = background_inserts(entities.drop_last());
        let e = entities.last();
        match (e.tile_depth, e.tile) {
            (Some(d), Some(t)) => if e.opaque_bg {
                prev.push((d, t))
            } else {
                prev
            },
            _ => prev,
        }
    }
}

/// Whether a cell of knowledge is older than the world's cell it describes.
pub open spec fn knowledge_stale(last_updated: u64, world_last_updated: u64) -> bool {
    last_updated < world_last_updated
}

/// Knowledge updated before the world's cell last changed is stale; knowledge
/// updated then or later is not.
pub proof fn law_knowledge_stale(last_updated: u64, world_last_updated: u64)
    ensures
        last_updated < world_last_updated ==> knowledge_stale(last_updated, world_last_updated),
        last_updated >= world_last_updated ==> !knowledge_stale(last_updated, world_last_updated),
{
}

/// The background is drawn only where the foreground is: there are never more
/// background inserts than foreground ones.
pub proof fn law_background_within_foreground(entities: Seq<CellEntityTile>)
    ensures
        background_inserts(entities).len() <= foreground_inserts(entities).len(),
    decreases entities.len(),
{
    if entities.len() > 0 {
        law_background_within_foreground(entities.drop_last());
    }
}

/// What one more entity adds: with a depth and a tile, that tile at that
/// depth in the foreground, and in the background too where it is opaque;
/// without either, nothing.
pub proof fn law_entity_inserts(entities: Seq<CellEntityTile>, e: CellEntityTile, d: isize, t: ComplexTile)
    ensures
        e.tile_depth == Some(d) && e.tile == Some(t) ==> foreground_inserts(entities.push(e))
            == foreground_inserts(entities).push((d, t)),
        e.tile_depth == Some(d) && e.tile == Some(t) && e.opaque_bg ==> background_inserts(
            entities.push(e),
        ) == background_inserts(entities).push((d, t)),
        !e.opaque_bg ==> background_inserts(entities.push(e)) == background_inserts(entities),
        (e.tile_depth is None || e.tile is None) ==> foreground_inserts(entities.push(e))
            == foreground_inserts(entities) && background_inserts(entities.push(e))
            == background_inserts(entities),
{
    assert(entities.push(e).drop_last() =~= entities);
    assert(entities.push(e).last() == e);
}

/// Updates a cell of what the player knows of a level, at turn `turn_id`: where
/// the world's cell changed after the knowledge was last updated, every entity
/// in it with a depth and a tile is drawn into the foreground, and into the
/// background where its tile is opaque; either way the knowledge is now up to
/// date as of `turn_id`.
pub fn update_knowledge_cell(
    last_updated: &mut u64,
    world_last_updated: u64,
    entities: &Vec<CellEntityTile>,
    turn_id: u64,
) -> (inserts: CellInserts)
    ensures
        *final(last_updated) == turn_id,
        knowledge_stale(*old(last_updated), world_last_updated) ==> inserts.foreground@
            == foreground_inserts(entities@) && inserts.background@ == background_inserts(entities@),
        !knowledge_stale(*old(last_updated), world_last_updated) ==> inserts.foreground@.len() == 0
            && inserts.background@.len() == 0,
        *old(last_updated) < world_last_updated ==> inserts.foreground@ == foreground_inserts(
            entities@,
        ) && inserts.background@ == background_inserts(entities@),
        *old(last_updated) >= world_last_updated ==> inserts.foreground@.len() == 0
            && inserts.background@.len() == 0,
{
    let mut foreground: Vec<(isize, ComplexTile)> = Vec::new();
    let mut background: Vec<(isize, ComplexTile)> = Vec::new();
    if *last_updated < world_last_updated {
        let n = entities.len();
        for i in 0..n
            invariant
                n == entities@.len(),
                foreground@ == foreground_inserts(entities@.subrange(0, i as int)),
                background@ == background_inserts(entities@.subrange(0, i as int)),
        {
            let e = entities[i];
            assert(entities@.subrange(0, i + 1).drop_last() =~= entities@.subrange(0, i as int));
            assert(entities@.subrange(0, i + 1).last() == e);
            if let Some(depth) = e.tile_depth {
                if let Some(tile) = e.tile {
                    foreground.push((depth, tile));
                    if e.opaque_bg {
                        background.push((depth, tile));
                    }
                }
            }
        }
        assert(entities@.subrange(0, n as int) =~= entities@);
    }
    *last_updated = turn_id;
    CellInserts { foreground, background }
}

} // verus!
