use vstd::prelude::*;
use crate::game::data::EntityId;
use crate::game::rules::{Action, EntityChanges, RuleContext, RuleResult, Verdict};
use crate::game::world::{EntityView, LevelView, find_cell, find_entity, find_level};

verus! {

/// What one added position decides: `None` where a lookup that the rule relies
/// on finds nothing, `Some(None)` where the rule goes on to the next change, and
/// `Some(Some(v))` where it decides `v`.
pub open spec fn collision_step(
    entities: Seq<EntityView>,
    levels: Seq<LevelView>,
    change: EntityChanges,
) -> Option<Option<Verdict>> {
    match change.position {
        None => Some(None),
        Some(new_position) => match find_entity(entities, change.entity_id) {
            None => None,
            Some(entity) => if !entity.collider {
                Some(None)
            } else {
                match entity.on_level {
                    None => None,
                    Some(level_id) => match find_level(levels, level_id) {
                        None => None,
                        Some(level) => match find_cell(level.spatial.cells@, new_position) {
                            Some(cell) => if cell.solid {
                                if entity.destroy_on_collision {
                                    Some(
                                        Some(
                                            Verdict::Instead(
                                                seq![
                                                    Action::RemoveEntity {
                                                        entity_id: change.entity_id,
                                                        action_time: Some(1u64),
                                                    },
                                                ],
                                            ),
                                        ),
                                    )
                                } else {
                                    Some(Some(Verdict::Fail))
                                }
                            } else {
                                Some(None)
                            },
                            None => Some(None),
                        },
                    },
                }
            },
        },
    }
}

/// The decision of the collision rule on the changes from index `i` on.
pub open spec fn collision_from(
    entities: Seq<EntityView>,
    levels: Seq<LevelView>,
    changes: Seq<EntityChanges>,
    i: int,
) -> Option<Verdict>
    decreases changes.len() - i,
{
    if i < 0 || i >= changes.len() {
        Some(Verdict::Pass)
    } else {
        match collision_step(entities, levels, changes[i]) {
            None => None,
            Some(Some(v)) => Some(v),
            Some(None) => collision_from(entities, levels, changes, i + 1),
        }
    }
}

/// The decision of the collision rule on an update (`None` where a lookup it
/// relies on would find nothing).
pub open spec fn spec_detect_collision(ctx: RuleContext) -> Option<Verdict> {
    collision_from(ctx.entities.entities@, ctx.entities.levels@, ctx.update.added_components@, 0)
}

proof fn lemma_collision_from_removes(
    entities: Seq<EntityView>,
    levels: Seq<LevelView>,
    changes: Seq<EntityChanges>,
    i: int,
    entity_id: EntityId,
    action_time: Option<u64>,
)
    requires
        collision_from(entities, levels, changes, i) == Some(
            Verdict::Instead(seq![Action::RemoveEntity { entity_id, action_time }]),
        ),
    ensures
        find_entity(entities, entity_id) matches Some(e) && e.collider && e.destroy_on_collision,
    decreases changes.len() - i,
{
    if 0 <= i < changes.len() {
        match collision_step(entities, levels, changes[i]) {
            Some(None) => lemma_collision_from_removes(
                entities,
                levels,
                changes,
                i + 1,
                entity_id,
                action_time,
            ),
            Some(Some(v)) => {
                let change = changes[i];
                let removed = Action::RemoveEntity { entity_id: change.entity_id, action_time: Some(1u64) };
                assert(seq![removed][0] == seq![Action::RemoveEntity { entity_id, action_time }][0]);
            },
            None => {},
        }
    }
}

/// The change moves a collider, found on a known level, into a cell of that
/// level that holds something solid, whatever else the cell holds.
pub open spec fn moves_collider_into_solid(
    entities: Seq<EntityView>,
    levels: Seq<LevelView>,
    change: EntityChanges,
) -> bool {
    &&& change.position is Some
    &&& find_entity(entities, change.entity_id) is Some
    &&& find_entity(entities, change.entity_id).unwrap().collider
    &&& find_entity(entities, change.entity_id).unwrap().on_level is Some
    &&& find_level(levels, find_entity(entities, change.entity_id).unwrap().on_level.unwrap()) is Some
    &&& find_cell(
        find_level(
            levels,
            find_entity(entities, change.entity_id).unwrap().on_level.unwrap(),
        ).unwrap().spatial.cells@,
        change.position.unwrap(),
    ) is Some
    &&& find_cell(
        find_level(
            levels,
            find_entity(entities, change.entity_id).unwrap().on_level.unwrap(),
        ).unwrap().spatial.cells@,
        change.position.unwrap(),
    ).unwrap().solid
}

proof fn lemma_pass_no_solid_move(
    entities: Seq<EntityView>,
    levels: Seq<LevelView>,
    changes: Seq<EntityChanges>,
    i: int,
)
    requires
        0 <= i,
        collision_from(entities, levels, changes, i) == Some(Verdict::Pass),
    ensures
        forall|j: int|
            i <= j < changes.len() ==> !moves_collider_into_solid(entities, levels, #[trigger] changes[j]),
    decreases changes.len() - i,
{
    if i < changes.len() {
        lemma_pass_no_solid_move(entities, levels, changes, i + 1);
    }
}

/// An update that the collision rule lets pass moves no collider into a solid
/// cell.
pub proof fn law_pass_moves_no_collider_into_solid(ctx: RuleContext, j: int)
    requires
        spec_detect_collision(ctx) == Some(Verdict::Pass),
        0 <= j < ctx.update.added_components@.len(),
    ensures
        !moves_collider_into_solid(
            ctx.entities.entities@,
            ctx.entities.levels@,
            ctx.update.added_components@[j],
        ),
{
    lemma_pass_no_solid_move(
        ctx.entities.entities@,
        ctx.entities.levels@,
        ctx.update.added_components@,
        0,
    );
}

/// An update whose first change moves a collider into a solid cell is
/// stopped: the move fails, or the entity, if destroyed on collision, is
/// removed one time unit later.
pub proof fn law_first_solid_move_stops(ctx: RuleContext)
    requires
        ctx.update.added_components@.len() > 0,
        moves_collider_into_solid(
            ctx.entities.entities@,
            ctx.entities.levels@,
            ctx.update.added_components@[0],
        ),
    ensures
        spec_detect_collision(ctx) == Some(
            if find_entity(
                ctx.entities.entities@,
                ctx.update.added_components@[0].entity_id,
            ).unwrap().destroy_on_collision {
                Verdict::Instead(
                    seq![
                        Action::RemoveEntity {
                            entity_id: ctx.update.added_components@[0].entity_id,
                            action_time: Some(1u64),
                        },
                    ],
                )
            } else {
                Verdict::Fail
            },
        ),
{
}

/// The collision rule only ever removes an entity that collides and is
/// destroyed on collision.
pub proof fn law_removes_only_destroyable(
    ctx: RuleContext,
    entity_id: EntityId,
    action_time: Option<u64>,
)
    requires
        spec_detect_collision(ctx) == Some(
            Verdict::Instead(seq![Action::RemoveEntity { entity_id, action_time }]),
        ),
    ensures
        find_entity(ctx.entities.entities@, entity_id) matches Some(e) && e.collider
            && e.destroy_on_collision,
{
    lemma_collision_from_removes(
        ctx.entities.entities@,
        ctx.entities.levels@,
        ctx.update.added_components@,
        0,
        entity_id,
        action_time,
    );
}

/// A collider that moves into a cell holding something solid is stopped: the
/// move fails, or, for an entity destroyed on collision, the entity is removed
/// one time unit later instead. The first such move decides; with none, the
/// update passes.
pub fn detect_collision(ctx: RuleContext) -> (r: RuleResult)
    requires
        spec_detect_collision(ctx) is Some,
    ensures
        r@ == spec_detect_collision(ctx).unwrap(),
{
    let ghost entities = ctx.entities.entities@;
    let ghost levels = ctx.entities.levels@;
    let ghost changes = ctx.update.added_components@;
    let n = ctx.update.added_components.len();
    for i in 0..n
        invariant
            n == changes.len(),
            entities == ctx.entities.entities@,
            levels == ctx.entities.levels@,
            changes == ctx.update.added_components@,
            collision_from(entities, levels, changes, 0) is Some,
            collision_from(entities, levels, changes, 0) == collision_from(
                entities,
                levels,
                changes,
                i as int,
            ),
    {
        let changes_i = ctx.update.added_components[i];
        if let Some(new_position) = changes_i.position {
            let entity = ctx.entities.entity(changes_i.entity_id).unwrap();
            if entity.collider {
                let level = ctx.entities.level(entity.on_level.unwrap()).unwrap();
                if let Some(cell) = level.spatial.get(new_position) {
                    if cell.solid {
                        if entity.destroy_on_collision {
                            let remove = Action::RemoveEntity {
                                entity_id: changes_i.entity_id,
                                action_time: Some(1),
                            };
                            let v = vec![remove];
                            assert(v@ =~= seq![remove]);
                            return RuleResult::Instead(v);
                        } else {
                            return RuleResult::Fail;
                        }
                    }
                }
            }
        }
    }
    RuleResult::Pass
}

/// Whether every lookup that the collision rule relies on finds what it
/// looks for, so that `detect_collision` may be called on `ctx`.
pub fn collision_lookups_ok(ctx: &RuleContext) -> (b: bool)
    ensures
        b == (spec_detect_collision(*ctx) is Some),
{
    let ghost entities = ctx.entities.entities@;
    let ghost levels = ctx.entities.levels@;
    let ghost changes = ctx.update.added_components@;
    let n = ctx.update.added_components.len();
    for i in 0..n
        invariant
            n == changes.len(),
            entities == ctx.entities.entities@,
            levels == ctx.entities.levels@,
            changes == ctx.update.added_components@,
            collision_from(entities, levels, changes, 0) == collision_from(
                entities,
                levels,
                changes,
                i as int,
            ),
    {
        let changes_i = ctx.update.added_components[i];
        if let Some(new_position) = changes_i.position {
            let entity = match ctx.entities.entity(changes_i.entity_id) {
                Some(e) => e,
                None => { return false; },
            };
            if entity.collider {
                let level_id = match entity.on_level {
                    Some(l) => l,
                    None => { return false; },
                };
                let level = match ctx.entities.level(level_id) {
                    Some(l) => l,
                    None => { return false; },
                };
                if let Some(cell) = level.spatial.get(new_position) {
                    if cell.solid {
                        return true;
                    }
                }
            }
        }
    }
    true
}

} // verus!
