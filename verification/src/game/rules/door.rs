use vstd::prelude::*;
use crate::game::data::{DoorState, EntityId};
use crate::game::rules::{Action, EntityChanges, RuleResult, UpdateSummary, Verdict};
use crate::game::world::{EcsView, EntityView, LevelView, find_cell, find_entity, find_level};

verus! {

/// The first closed door among `ids` from index `i` on: `None` where an id
/// names no entity before one is found, `Some(None)` where there is none.
pub open spec fn closed_door_from(entities: Seq<EntityView>, ids: Seq<EntityId>, i: int) -> Option<
    Option<EntityId>,
>
    decreases ids.len() - i,
{
    if i < 0 || i >= ids.len() {
        Some(None)
    } else {
        match find_entity(entities, ids[i]) {
            None => None,
            Some(e) => if e.door == Some(DoorState::Closed) {
                Some(Some(ids[i]))
            } else {
                closed_door_from(entities, ids, i + 1)
            },
        }
    }
}

/// What one changed entity decides (see `collision_step` for the encoding).
pub open spec fn open_step(
    entities: Seq<EntityView>,
    levels: Seq<LevelView>,
    change: EntityChanges,
) -> Option<Option<Verdict>> {
    if change.position is None {
        Some(None)
    } else {
        match find_entity(entities, change.entity_id) {
            None => None,
            Some(entity) => match entity.on_level {
                None => None,
                Some(level_id) => if !entity.collider {
                    Some(None)
                } else {
                    match find_level(levels, level_id) {
                        None => None,
                        Some(level) => match entity.position {
                            None => None,
                            Some(position) => match find_cell(level.spatial.cells@, position) {
                                Some(cell) => if cell.door && cell.solid {
                                    match closed_door_from(entities, cell.entities@, 0) {
                                        None => None,
                                        Some(Some(door_id)) => Some(
                                            Some(Verdict::Instead(seq![Action::OpenDoor(door_id)])),
                                        ),
                                        Some(None) => Some(None),
                                    }
                                } else {
                                    Some(None)
                                },
                                None => Some(None),
                            },
                        },
                    }
                },
            },
        }
    }
}

/// The decision of the door rule on the changed entities from index `i` on.
pub open spec fn open_from(
    entities: Seq<EntityView>,
    levels: Seq<LevelView>,
    changes: Seq<EntityChanges>,
    i: int,
) -> Option<Verdict>
    decreases changes.len() - i,
{
    if i < 0 || i >= changes.len() {
        Some(Verdict::Pass)
    } else {
        match open_step(entities, levels, changes[i]) {
            None => None,
            Some(Some(v)) => Some(v),
            Some(None) => open_from(entities, levels, changes, i + 1),
        }
    }
}

/// The decision of the door rule (`None` where a lookup it relies on would find
/// nothing).
pub open spec fn spec_detect_open(summary: UpdateSummary, entities: EcsView) -> Option<Verdict> {
    if !summary.position_changed {
        Some(Verdict::Pass)
    } else {
        open_from(entities.entities@, entities.levels@, summary.changed_entities@, 0)
    }
}

proof fn lemma_closed_door_found(entities: Seq<EntityView>, ids: Seq<EntityId>, i: int, door_id: EntityId)
    requires
        closed_door_from(entities, ids, i) == Some(Some(door_id)),
    ensures
        find_entity(entities, door_id) matches Some(e) && e.door == Some(DoorState::Closed),
    decreases ids.len() - i,
{
    if 0 <= i < ids.len() {
        match find_entity(entities, ids[i]) {
            Some(e) => if e.door != Some(DoorState::Closed) {
                lemma_closed_door_found(entities, ids, i + 1, door_id);
            },
            None => {},
        }
    }
}

proof fn lemma_open_from_closed(
    entities: Seq<EntityView>,
    levels: Seq<LevelView>,
    changes: Seq<EntityChanges>,
    i: int,
    door_id: EntityId,
)
    requires
        open_from(entities, levels, changes, i) == Some(
            Verdict::Instead(seq![Action::OpenDoor(door_id)]),
        ),
    ensures
        find_entity(entities, door_id) matches Some(e) && e.door == Some(DoorState::Closed),
    decreases changes.len() - i,
{
    if 0 <= i < changes.len() {
        match open_step(entities, levels, changes[i]) {
            Some(None) => lemma_open_from_closed(entities, levels, changes, i + 1, door_id),
            Some(Some(v)) => {
                let change = changes[i];
                let entity = find_entity(entities, change.entity_id).unwrap();
                let level = find_level(levels, entity.on_level.unwrap()).unwrap();
                let cell = find_cell(level.spatial.cells@, entity.position.unwrap()).unwrap();
                let found = closed_door_from(entities, cell.entities@, 0);
                assert(found == Some(Some(door_id))) by {
                    let d = found.unwrap().unwrap();
                    assert(seq![Action::OpenDoor(d)][0] == seq![Action::OpenDoor(door_id)][0]);
                }
                lemma_closed_door_found(entities, cell.entities@, 0, door_id);
            },
            None => {},
        }
    }
}

/// The door rule only ever opens a door that is closed.
pub proof fn law_opens_only_closed_doors(summary: UpdateSummary, entities: EcsView, door_id: EntityId)
    requires
        spec_detect_open(summary, entities) == Some(
            Verdict::Instead(seq![Action::OpenDoor(door_id)]),
        ),
    ensures
        find_entity(entities.entities@, door_id) matches Some(e) && e.door == Some(DoorState::Closed),
{
    lemma_open_from_closed(entities.entities@, entities.levels@, summary.changed_entities@, 0, door_id);
}

/// The door that a cell's search finds is the first closed door among the
/// cell's entities: every entity before it is known and not a closed door.
pub proof fn law_first_closed_door(entities: Seq<EntityView>, ids: Seq<EntityId>, i: int, d: EntityId)
    requires
        0 <= i,
        closed_door_from(entities, ids, i) == Some(Some(d)),
    ensures
        exists|k: int|
            i <= k < ids.len() && ids[k] == d && forall|j: int|
                i <= j < k ==> find_entity(entities, #[trigger] ids[j]) is Some && find_entity(
                    entities,
                    ids[j],
                ).unwrap().door != Some(DoorState::Closed),
    decreases ids.len() - i,
{
    if i < ids.len() && ids[i] != d {
        law_first_closed_door(entities, ids, i + 1, d);
        let k = choose|k: int|
            i + 1 <= k < ids.len() && ids[k] == d && forall|j: int|
                i + 1 <= j < k ==> find_entity(entities, #[trigger] ids[j]) is Some && find_entity(
                    entities,
                    ids[j],
                ).unwrap().door != Some(DoorState::Closed);
        assert forall|j: int| i <= j < k implies find_entity(entities, #[trigger] ids[j]) is Some
            && find_entity(entities, ids[j]).unwrap().door != Some(DoorState::Closed) by {}
    } else if i < ids.len() {
        assert(ids[i] == d);
    }
}

/// An update that changes no position passes the door rule.
pub proof fn law_no_move_passes(summary: UpdateSummary, entities: EcsView)
    requires
        !summary.position_changed,
    ensures
        spec_detect_open(summary, entities) == Some(Verdict::Pass),
{
}

/// The change moves a collider, found on a known level, that stands in a
/// solid door cell of that level holding a closed door.
pub open spec fn mover_at_closed_door(
    entities: Seq<EntityView>,
    levels: Seq<LevelView>,
    change: EntityChanges,
) -> bool {
    let e = find_entity(entities, change.entity_id).unwrap();
    let level = find_level(levels, e.on_level.unwrap()).unwrap();
    let cell = find_cell(level.spatial.cells@, e.position.unwrap()).unwrap();
    &&& change.position is Some
    &&& find_entity(entities, change.entity_id) is Some
    &&& e.collider
    &&& e.on_level is Some
    &&& find_level(levels, e.on_level.unwrap()) is Some
    &&& e.position is Some
    &&& find_cell(level.spatial.cells@, e.position.unwrap()) is Some
    &&& cell.door
    &&& cell.solid
    &&& exists|k: int|
        0 <= k < cell.entities@.len() && find_entity(entities, #[trigger] cell.entities@[k]) is Some
            && find_entity(entities, cell.entities@[k]).unwrap().door == Some(DoorState::Closed)
}

proof fn lemma_no_closed_door(entities: Seq<EntityView>, ids: Seq<EntityId>, i: int)
    requires
        0 <= i,
        closed_door_from(entities, ids, i) == Some(None::<EntityId>),
    ensures
        forall|k: int|
            i <= k < ids.len() ==> find_entity(entities, #[trigger] ids[k]) is Some && find_entity(
                entities,
                ids[k],
            ).unwrap().door != Some(DoorState::Closed),
    decreases ids.len() - i,
{
    if i < ids.len() {
        lemma_no_closed_door(entities, ids, i + 1);
    }
}

proof fn lemma_pass_no_mover_at_door(
    entities: Seq<EntityView>,
    levels: Seq<LevelView>,
    changes: Seq<EntityChanges>,
    i: int,
)
    requires
        0 <= i,
        open_from(entities, levels, changes, i) == Some(Verdict::Pass),
    ensures
        forall|j: int|
            i <= j < changes.len() ==> !mover_at_closed_door(entities, levels, #[trigger] changes[j]),
    decreases changes.len() - i,
{
    if i < changes.len() {
        lemma_pass_no_mover_at_door(entities, levels, changes, i + 1);
        let change = changes[i];
        if mover_at_closed_door(entities, levels, change) {
            let e = find_entity(entities, change.entity_id).unwrap();
            let level = find_level(levels, e.on_level.unwrap()).unwrap();
            let cell = find_cell(level.spatial.cells@, e.position.unwrap()).unwrap();
            assert(open_step(entities, levels, change) == Some(None::<Verdict>));
            assert(closed_door_from(entities, cell.entities@, 0) == Some(None::<EntityId>));
            lemma_no_closed_door(entities, cell.entities@, 0);
            let k = choose|k: int|
                0 <= k < cell.entities@.len() && find_entity(entities, #[trigger] cell.entities@[k])
                    is Some && find_entity(entities, cell.entities@[k]).unwrap().door == Some(
                    DoorState::Closed,
                );
            assert(false);
        }
    }
}

/// An update that the door rule lets pass moves no collider into a solid door
/// cell holding a closed door.
pub proof fn law_pass_opens_no_door(summary: UpdateSummary, entities: EcsView, j: int)
    requires
        summary.position_changed,
        spec_detect_open(summary, entities) == Some(Verdict::Pass),
        0 <= j < summary.changed_entities@.len(),
    ensures
        !mover_at_closed_door(entities.entities@, entities.levels@, summary.changed_entities@[j]),
{
    lemma_pass_no_mover_at_door(entities.entities@, entities.levels@, summary.changed_entities@, 0);
}

fn find_closed_door(entities: &EcsView, ids: &Vec<EntityId>) -> (door: Option<EntityId>)
    requires
        closed_door_from(entities.entities@, ids@, 0) is Some,
    ensures
        door == closed_door_from(entities.entities@, ids@, 0).unwrap(),
{
    let n = ids.len();
    for i in 0..n
        invariant
            n == ids@.len(),
            closed_door_from(entities.entities@, ids@, 0) is Some,
            closed_door_from(entities.entities@, ids@, 0) == closed_door_from(
                entities.entities@,
                ids@,
                i as int,
            ),
    {
        let e = entities.entity(ids[i]).unwrap();
        if e.door == Some(DoorState::Closed) {
            return Some(ids[i]);
        }
    }
    None
}

fn closed_door_lookups_ok(entities: &EcsView, ids: &Vec<EntityId>) -> (b: bool)
    ensures
        b == (closed_door_from(entities.entities@, ids@, 0) is Some),
{
    let n = ids.len();
    for i in 0..n
        invariant
            n == ids@.len(),
            closed_door_from(entities.entities@, ids@, 0) == closed_door_from(
                entities.entities@,
                ids@,
                i as int,
            ),
    {
        match entities.entity(ids[i]) {
            None => { return false; },
            Some(e) => {
                if e.door == Some(DoorState::Closed) {
                    return true;
                }
            },
        }
    }
    true
}

/// Whether every lookup that the door rule relies on finds what it looks for,
/// so that `detect_open` may be called on `summary` and `entities`.
pub fn open_lookups_ok(summary: &UpdateSummary, entities: &EcsView) -> (b: bool)
    ensures
        b == (spec_detect_open(*summary, *entities) is Some),
{
    if !summary.position_changed {
        return true;
    }
    let ghost ents = entities.entities@;
    let ghost levels = entities.levels@;
    let ghost changes = summary.changed_entities@;
    let n = summary.changed_entities.len();
    for i in 0..n
        invariant
            n == changes.len(),
            summary.position_changed,
            ents == entities.entities@,
            levels == entities.levels@,
            changes == summary.changed_entities@,
            open_from(ents, levels, changes, 0) == open_from(ents, levels, changes, i as int),
    {
        let change = summary.changed_entities[i];
        if change.position.is_some() {
            let entity = match entities.entity(change.entity_id) {
                Some(e) => e,
                None => { return false; },
            };
            let level_id = match entity.on_level {
                Some(l) => l,
                None => { return false; },
            };
            if entity.collider {
                let level = match entities.level(level_id) {
                    Some(l) => l,
                    None => { return false; },
                };
                let current_position = match entity.position {
                    Some(p) => p,
                    None => { return false; },
                };
                if let Some(cell) = level.spatial.get(current_position) {
                    if cell.door && cell.solid {
                        if !closed_door_lookups_ok(entities, &cell.entities) {
                            return false;
                        }
                        if find_closed_door(entities, &cell.entities).is_some() {
                            return true;
                        }
                    }
                }
            }
        }
    }
    true
}

/// A collider that moves into a cell holding a solid door opens the first
/// closed door among the cell's entities, in place of the move. The first such
/// move decides; with none, or with no position changed at all, the update
/// passes.
pub fn detect_open(summary: &UpdateSummary, entities: &EcsView) -> (r: RuleResult)
    requires
        spec_detect_open(*summary, *entities) is Some,
    ensures
        r@ == spec_detect_open(*summary, *entities).unwrap(),
{
    if !summary.position_changed {
        return RuleResult::Pass;
    }
    let ghost ents = entities.entities@;
    let ghost levels = entities.levels@;
    let ghost changes = summary.changed_entities@;
    let n = summary.changed_entities.len();
    for i in 0..n
        invariant
            n == changes.len(),
            summary.position_changed,
            ents == entities.entities@,
            levels == entities.levels@,
            changes == summary.changed_entities@,
            open_from(ents, levels, changes, 0) is Some,
            open_from(ents, levels, changes, 0) == open_from(ents, levels, changes, i as int),
    {
        let change = summary.changed_entities[i];
        if change.position.is_some() {
            let entity = entities.entity(change.entity_id).unwrap();
            let level_id = entity.on_level.unwrap();
            if entity.collider {
                let level = entities.level(level_id).unwrap();
                let current_position = entity.position.unwrap();
                if let Some(cell) = level.spatial.get(current_position) {
                    if cell.door && cell.solid {
                        if let Some(door_id) = find_closed_door(entities, &cell.entities) {
                            let v = vec![Action::OpenDoor(door_id)];
                            assert(v@ =~= seq![Action::OpenDoor(door_id)]);
                            return RuleResult::Instead(v);
                        }
                    }
                }
            }
        }
    }
    RuleResult::Pass
}

} // verus!
