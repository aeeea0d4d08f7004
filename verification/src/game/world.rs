use vstd::prelude::*;
use crate::game::data::{Coord, DoorState, EntityId};
use crate::game::transformation::{TransformationState, TransformationType};

verus! {

/// What the rules read of one entity.
#[derive(Clone, Copy, Debug)]
pub struct EntityView {
    pub id: EntityId,
    pub position: Option<Coord>,
    /// The entity that holds the level this entity is on.
    pub on_level: Option<EntityId>,
    pub collider: bool,
    pub destroy_on_collision: bool,
    pub door: Option<DoorState>,
    pub transformation_state: Option<TransformationState>,
    pub transformation_type: Option<TransformationType>,
}

/// What the rules read of one cell of a level's spatial hash.
#[derive(Clone, Debug)]
pub struct CellView {
    pub coord: Coord,
    /// Some entity in the cell is solid.
    pub solid: bool,
    /// Some entity in the cell is a door.
    pub door: bool,
    /// The entities in the cell.
    pub entities: Vec<EntityId>,
    /// The entities in the cell that transform when the moon changes.
    pub transform_on_moon_change: Vec<EntityId>,
}

/// The spatial hash of one level: the cells that hold anything.
#[derive(Clone, Debug)]
pub struct SpatialView {
    pub cells: Vec<CellView>,
}

/// A level: the entity that holds it, and its spatial hash.
#[derive(Clone, Debug)]
pub struct LevelView {
    pub level_entity: EntityId,
    pub spatial: SpatialView,
}

/// The entities of the game, as the rules read them.
#[derive(Clone, Debug)]
pub struct EcsView {
    pub entities: Vec<EntityView>,
    pub levels: Vec<LevelView>,
}

/// The first entity in `s` with the id `id`.
pub open spec fn find_entity(s: Seq<EntityView>, id: EntityId) -> Option<EntityView>
    decreases s.len(),
{
    if s.len() == 0 {
        None
    } else if s[0].id == id {
        Some(s[0])
    } else {
        find_entity(s.drop_first(), id)
    }
}

/// The first cell in `s` at `coord`.
pub open spec fn find_cell(s: Seq<CellView>, coord: Coord) -> Option<CellView>
    decreases s.len(),
{
    if s.len() == 0 {
        None
    } else if s[0].coord == coord {
        Some(s[0])
    } else {
        find_cell(s.drop_first(), coord)
    }
}

/// The first level in `s` held by `level_entity`.
pub open spec fn find_level(s: Seq<LevelView>, level_entity: EntityId) -> Option<LevelView>
    decreases s.len(),
{
    if s.len() == 0 {
        None
    } else if s[0].level_entity == level_entity {
        Some(s[0])
    } else {
        find_level(s.drop_first(), level_entity)
    }
}

/// Looking an entity up finds the first entity with that id, and finds one
/// whenever there is one.
pub proof fn law_find_entity_first(s: Seq<EntityView>, id: EntityId)
    ensures
        (find_entity(s, id) is Some) <==> exists|i: int| 0 <= i < s.len() && (#[trigger] s[i]).id == id,
        find_entity(s, id) is Some ==> exists|i: int|
            0 <= i < s.len() && s[i] == find_entity(s, id).unwrap() && s[i].id == id && forall|j: int|
                0 <= j < i ==> (#[trigger] s[j]).id != id,
    decreases s.len(),
{
    if s.len() > 0 {
        law_find_entity_first(s.drop_first(), id);
        if s[0].id != id {
            if exists|i: int| 0 <= i < s.len() && (#[trigger] s[i]).id == id {
                let i = choose|i: int| 0 <= i < s.len() && (#[trigger] s[i]).id == id;
                assert(s.drop_first()[i - 1] == s[i]);
            }
            if find_entity(s, id) is Some {
                let i = choose|i: int|
                    0 <= i < s.drop_first().len() && s.drop_first()[i] == find_entity(
                        s.drop_first(),
                        id,
                    ).unwrap() && s.drop_first()[i].id == id && forall|j: int|
                        0 <= j < i ==> (#[trigger] s.drop_first()[j]).id != id;
                assert(s[i + 1] == s.drop_first()[i]);
                assert forall|j: int| 0 <= j < i + 1 implies (#[trigger] s[j]).id != id by {
                    if j > 0 {
                        assert(s[j] == s.drop_first()[j - 1]);
                    }
                }
            }
        }
    }
}

/// Looking a cell up finds the first cell at that coordinate, and finds one
/// whenever there is one.
pub proof fn law_find_cell_first(s: Seq<CellView>, coord: Coord)
    ensures
        (find_cell(s, coord) is Some) <==> exists|i: int|
            0 <= i < s.len() && (#[trigger] s[i]).coord == coord,
        find_cell(s, coord) is Some ==> exists|i: int|
            0 <= i < s.len() && s[i] == find_cell(s, coord).unwrap() && s[i].coord == coord
                && forall|j: int| 0 <= j < i ==> (#[trigger] s[j]).coord != coord,
    decreases s.len(),
{
    if s.len() > 0 {
        law_find_cell_first(s.drop_first(), coord);
        if s[0].coord != coord {
            if exists|i: int| 0 <= i < s.len() && (#[trigger] s[i]).coord == coord {
                let i = choose|i: int| 0 <= i < s.len() && (#[trigger] s[i]).coord == coord;
                assert(s.drop_first()[i - 1] == s[i]);
            }
            if find_cell(s, coord) is Some {
                let i = choose|i: int|
                    0 <= i < s.drop_first().len() && s.drop_first()[i] == find_cell(
                        s.drop_first(),
                        coord,
                    ).unwrap() && s.drop_first()[i].coord == coord && forall|j: int|
                        0 <= j < i ==> (#[trigger] s.drop_first()[j]).coord != coord;
                assert(s[i + 1] == s.drop_first()[i]);
                assert forall|j: int| 0 <= j < i + 1 implies (#[trigger] s[j]).coord != coord by {
                    if j > 0 {
                        assert(s[j] == s.drop_first()[j - 1]);
                    }
                }
            }
        }
    }
}

/// Looking a level up finds the first level held by that entity, and finds
/// one whenever there is one.
pub proof fn law_find_level_first(s: Seq<LevelView>, id: EntityId)
    ensures
        (find_level(s, id) is Some) <==> exists|i: int|
            0 <= i < s.len() && (#[trigger] s[i]).level_entity == id,
        find_level(s, id) is Some ==> exists|i: int|
            0 <= i < s.len() && s[i] == find_level(s, id).unwrap() && s[i].level_entity == id
                && forall|j: int| 0 <= j < i ==> (#[trigger] s[j]).level_entity != id,
    decreases s.len(),
{
    if s.len() > 0 {
        law_find_level_first(s.drop_first(), id);
        if s[0].level_entity != id {
            if exists|i: int| 0 <= i < s.len() && (#[trigger] s[i]).level_entity == id {
                let i = choose|i: int| 0 <= i < s.len() && (#[trigger] s[i]).level_entity == id;
                assert(s.drop_first()[i - 1] == s[i]);
            }
            if find_level(s, id) is Some {
                let i = choose|i: int|
                    0 <= i < s.drop_first().len() && s.drop_first()[i] == find_level(
                        s.drop_first(),
                        id,
                    ).unwrap() && s.drop_first()[i].level_entity == id && forall|j: int|
                        0 <= j < i ==> (#[trigger] s.drop_first()[j]).level_entity != id;
                assert(s[i + 1] == s.drop_first()[i]);
                assert forall|j: int| 0 <= j < i + 1 implies (#[trigger] s[j]).level_entity != id by {
                    if j > 0 {
                        assert(s[j] == s.drop_first()[j - 1]);
                    }
                }
            }
        }
    }
}

impl SpatialView {
    /// The cell at `coord`, if the spatial hash holds one.
    pub fn get(&self, coord: Coord) -> (cell: Option<&CellView>)
        ensures
            match cell {
                Some(c) => find_cell(self.cells@, coord) == Some(*c),
                None => find_cell(self.cells@, coord) is None,
            },
    {
        let n = self.cells.len();
        assert(self.cells@.subrange(0, n as int) =~= self.cells@);
        for i in 0..n
            invariant
                n == self.cells@.len(),
                find_cell(self.cells@, coord) == find_cell(self.cells@.subrange(i as int, n as int), coord),
        {
            assert(self.cells@.subrange(i as int, n as int).drop_first() =~= self.cells@.subrange(
                i + 1,
                n as int,
            ));
            if self.cells[i].coord == coord {
                return Some(&self.cells[i]);
            }
        }
        assert(self.cells@.subrange(n as int, n as int).len() == 0);
        None
    }
}

impl EcsView {
    /// The entity with id `id`, if there is one.
    pub fn entity(&self, id: EntityId) -> (e: Option<&EntityView>)
        ensures
            match e {
                Some(e) => find_entity(self.entities@, id) == Some(*e),
                None => find_entity(self.entities@, id) is None,
            },
    {
        let n = self.entities.len();
        assert(self.entities@.subrange(0, n as int) =~= self.entities@);
        for i in 0..n
            invariant
                n == self.entities@.len(),
                find_entity(self.entities@, id) == find_entity(
                    self.entities@.subrange(i as int, n as int),
                    id,
                ),
        {
            assert(self.entities@.subrange(i as int, n as int).drop_first() =~= self.entities@.subrange(
                i + 1,
                n as int,
            ));
            if self.entities[i].id == id {
                return Some(&self.entities[i]);
            }
        }
        assert(self.entities@.subrange(n as int, n as int).len() == 0);
        None
    }

    /// The level held by the entity `level_entity`, if there is one.
    pub fn level(&self, level_entity: EntityId) -> (l: Option<&LevelView>)
        ensures
            match l {
                Some(l) => find_level(self.levels@, level_entity) == Some(*l),
                None => find_level(self.levels@, level_entity) is None,
            },
    {
        let n = self.levels.len();
        assert(self.levels@.subrange(0, n as int) =~= self.levels@);
        for i in 0..n
            invariant
                n == self.levels@.len(),
                find_level(self.levels@, level_entity) == find_level(
                    self.levels@.subrange(i as int, n as int),
                    level_entity,
                ),
        {
            assert(self.levels@.subrange(i as int, n as int).drop_first() =~= self.levels@.subrange(
                i + 1,
                n as int,
            ));
            if self.levels[i].level_entity == level_entity {
                return Some(&self.levels[i]);
            }
        }
        assert(self.levels@.subrange(n as int, n as int).len() == 0);
        None
    }
}

} // verus!
