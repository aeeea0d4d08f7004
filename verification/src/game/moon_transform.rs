use vstd::prelude::*;
use crate::game::action::ActionArgs;
use crate::game::data::EntityId;
use crate::game::rule::{Reaction, RuleEnv, RuleResolution, RuleResult, rule_accept};
use crate::game::transformation::{TransformationState, TransformationType, spec_to_action_args};
use crate::game::world::{CellView, EntityView, find_cell, find_entity};

verus! {

/// The changes that an action makes to the moon component: the entities that
/// gain it and those that lose it.
#[derive(Clone, Debug)]
pub struct MoonChanges {
    pub insertions: Vec<EntityId>,
    pub removals: Vec<EntityId>,
}

/// The entities that transform on a change of the moon in the cell where the
/// entity `id` stands (none if it has no position or its cell is empty).
pub open spec fn moon_transformers(ecs: Seq<EntityView>, cells: Seq<CellView>, id: EntityId) -> Seq<
    EntityId,
> {
    match find_entity(ecs, id) {
        Some(e) => match e.position {
            Some(p) => match find_cell(cells, p) {
                Some(c) => c.transform_on_moon_change@,
                None => Seq::empty(),
            },
            None => Seq::empty(),
        },
        None => Seq::empty(),
    }
}

/// Each transformer has a transformation state, and a transformation type where
/// its state is `wanted`.
pub open spec fn transformers_ready(
    ecs: Seq<EntityView>,
    transformers: Seq<EntityId>,
    wanted: TransformationState,
) -> bool {
    forall|i: int|
        0 <= i < transformers.len() ==> {
            let e = find_entity(ecs, #[trigger] transformers[i]);
            &&& e is Some
            &&& e.unwrap().transformation_state is Some
            &&& e.unwrap().transformation_state == Some(wanted)
                ==> e.unwrap().transformation_type is Some
        }
}

/// The reactions for the transformers in state `wanted`, in order: each
/// transforms the way its type names, at once.
pub open spec fn transformer_reactions(
    ecs: Seq<EntityView>,
    transformers: Seq<EntityId>,
    wanted: TransformationState,
) -> Seq<Reaction>
    decreases transformers.len(),
{
    if transformers.len() == 0 {
        Seq::empty()
    } else {
        let prev = transformer_reactions(ecs, transformers.drop_last(), wanted);
        let t = transformers.last();
        let e = find_entity(ecs, t).unwrap();
        if e.transformation_state == Some(wanted) {
            prev.push(
                Reaction {
                    action: spec_to_action_args(e.transformation_type.unwrap(), t),
                    delay: 0,
                },
            )
        } else {
            prev
        }
    }
}

/// The reactions for the moon changing on each of `ids`, in order.
pub open spec fn moon_reactions(
    ecs: Seq<EntityView>,
    cells: Seq<CellView>,
    ids: Seq<EntityId>,
    wanted: TransformationState,
) -> Seq<Reaction>
    decreases ids.len(),
{
    if ids.len() == 0 {
        Seq::empty()
    } else {
        moon_reactions(ecs, cells, ids.drop_last(), wanted) + transformer_reactions(
            ecs,
            moon_transformers(ecs, cells, ids.last()),
            wanted,
        )
    }
}

/// Every entity that the moon changes on stands where all transformers are
/// ready for state `wanted`.
pub open spec fn moon_ready(
    ecs: Seq<EntityView>,
    cells: Seq<CellView>,
    ids: Seq<EntityId>,
    wanted: TransformationState,
) -> bool {
    forall|i: int|
        0 <= i < ids.len() ==> transformers_ready(
            ecs,
            moon_transformers(ecs, cells, #[trigger] ids[i]),
            wanted,
        )
}

fn push_transformer_reactions(
    env: &RuleEnv,
    transformers: &Vec<EntityId>,
    wanted: TransformationState,
    reactions: &mut Vec<Reaction>,
)
    requires
        transformers_ready(env.ecs.entities@, transformers@, wanted),
    ensures
        final(reactions)@ == old(reactions)@ + transformer_reactions(
            env.ecs.entities@,
            transformers@,
            wanted,
        ),
{
    let ghost start = reactions@;
    let n = transformers.len();
    for i in 0..n
        invariant
            n == transformers@.len(),
            transformers_ready(env.ecs.entities@, transformers@, wanted),
            reactions@ == start + transformer_reactions(
                env.ecs.entities@,
                transformers@.subrange(0, i as int),
                wanted,
            ),
    {
        let transformer_id = transformers[i];
        assert(transformers@.subrange(0, i + 1).drop_last() =~= transformers@.subrange(0, i as int));
        assert(transformers@.subrange(0, i + 1).last() == transformers@[i as int]);
        let ghost tr = find_entity(env.ecs.entities@, transformer_id);
        assert(tr is Some);
        let transformer = env.ecs.entity(transformer_id).unwrap();
        let state = transformer.transformation_state.unwrap();
        if state == wanted {
            let t = transformer.transformation_type.unwrap();
            let args = t.to_action_args(transformer_id);
            reactions.push(Reaction::new(args, 0));
        }
    }
    assert(transformers@.subrange(0, n as int) =~= transformers@);
}

fn push_moon_reactions(
    env: &RuleEnv,
    ids: &Vec<EntityId>,
    wanted: TransformationState,
    reactions: &mut Vec<Reaction>,
)
    requires
        moon_ready(env.ecs.entities@, env.spatial_hash.cells@, ids@, wanted),
    ensures
        final(reactions)@ == old(reactions)@ + moon_reactions(
            env.ecs.entities@,
            env.spatial_hash.cells@,
            ids@,
            wanted,
        ),
{
    let ghost start = reactions@;
    let ghost ecs = env.ecs.entities@;
    let ghost cells = env.spatial_hash.cells@;
    let n = ids.len();
    for i in 0..n
        invariant
            n == ids@.len(),
            ecs == env.ecs.entities@,
            cells == env.spatial_hash.cells@,
            moon_ready(ecs, cells, ids@, wanted),
            reactions@ == start + moon_reactions(ecs, cells, ids@.subrange(0, i as int), wanted),
    {
        let entity_id = ids[i];
        assert(ids@.subrange(0, i + 1).drop_last() =~= ids@.subrange(0, i as int));
        assert(ids@.subrange(0, i + 1).last() == ids@[i as int]);
        assert(transformers_ready(ecs, moon_transformers(ecs, cells, ids@[i as int]), wanted));
        let ghost before = reactions@;
        match env.ecs.entity(entity_id) {
            Some(entity) => match entity.position {
                Some(position) => match env.spatial_hash.get(position) {
                    Some(cell) => {
                        push_transformer_reactions(
                            env,
                            &cell.transform_on_moon_change,
                            wanted,
                            reactions,
                        );
                    },
                    None => {
                        assert(transformer_reactions(ecs, Seq::<EntityId>::empty(), wanted) =~= Seq::<Reaction>::empty());
                    },
                },
                None => {
                    assert(transformer_reactions(ecs, Seq::<EntityId>::empty(), wanted) =~= Seq::<Reaction>::empty());
                },
            },
            None => {
                assert(transformer_reactions(ecs, Seq::<EntityId>::empty(), wanted) =~= Seq::<Reaction>::empty());
            },
        }
        assert(reactions@ =~= start + moon_reactions(ecs, cells, ids@.subrange(0, i + 1), wanted));
    }
    assert(ids@.subrange(0, n as int) =~= ids@);
}

proof fn lemma_transformer_reactions_immediate(
    ecs: Seq<EntityView>,
    transformers: Seq<EntityId>,
    wanted: TransformationState,
)
    ensures
        transformer_reactions(ecs, transformers, wanted).len() <= transformers.len(),
        forall|i: int|
            0 <= i < transformer_reactions(ecs, transformers, wanted).len() ==> (#[trigger] transformer_reactions(
                ecs,
                transformers,
                wanted,
            )[i]).delay == 0,
    decreases transformers.len(),
{
    if transformers.len() > 0 {
        lemma_transformer_reactions_immediate(ecs, transformers.drop_last(), wanted);
    }
}

/// Transformations that the moon sets off happen at once: every reaction has
/// no delay.
pub proof fn law_moon_reactions_immediate(
    ecs: Seq<EntityView>,
    cells: Seq<CellView>,
    ids: Seq<EntityId>,
    wanted: TransformationState,
)
    ensures
        forall|i: int|
            0 <= i < moon_reactions(ecs, cells, ids, wanted).len() ==> (#[trigger] moon_reactions(
                ecs,
                cells,
                ids,
                wanted,
            )[i]).delay == 0,
    decreases ids.len(),
{
    if ids.len() > 0 {
        law_moon_reactions_immediate(ecs, cells, ids.drop_last(), wanted);
        lemma_transformer_reactions_immediate(ecs, moon_transformers(ecs, cells, ids.last()), wanted);
        let a = moon_reactions(ecs, cells, ids.drop_last(), wanted);
        let b = transformer_reactions(ecs, moon_transformers(ecs, cells, ids.last()), wanted);
        assert forall|i: int| 0 <= i < (a + b).len() implies (#[trigger] (a + b)[i]).delay == 0 by {
            if i < a.len() {
                assert((a + b)[i] == a[i]);
            } else {
                assert((a + b)[i] == b[i - a.len()]);
            }
        }
    }
}

fn transformers_ready_exec(env: &RuleEnv, transformers: &Vec<EntityId>, wanted: TransformationState) -> (b: bool)
    ensures
        b == transformers_ready(env.ecs.entities@, transformers@, wanted),
{
    let n = transformers.len();
    for i in 0..n
        invariant
            n == transformers@.len(),
            forall|k: int| 0 <= k < i ==> {
                let e = find_entity(env.ecs.entities@, #[trigger] transformers@[k]);
                &&& e is Some
                &&& e.unwrap().transformation_state is Some
                &&& e.unwrap().transformation_state == Some(wanted)
                    ==> e.unwrap().transformation_type is Some
            },
    {
        let id = transformers[i];
        let ok = match env.ecs.entity(id) {
            None => false,
            Some(e) => match e.transformation_state {
                None => false,
                Some(state) => state != wanted || e.transformation_type.is_some(),
            },
        };
        if !ok {
            assert(!transformers_ready(env.ecs.entities@, transformers@, wanted)) by {
                assert(transformers@[i as int] == id);
            }
            return false;
        }
    }
    true
}

fn moon_ready_exec(env: &RuleEnv, ids: &Vec<EntityId>, wanted: TransformationState) -> (b: bool)
    ensures
        b == moon_ready(env.ecs.entities@, env.spatial_hash.cells@, ids@, wanted),
{
    let ghost ecs = env.ecs.entities@;
    let ghost cells = env.spatial_hash.cells@;
    let n = ids.len();
    for i in 0..n
        invariant
            n == ids@.len(),
            ecs == env.ecs.entities@,
            cells == env.spatial_hash.cells@,
            forall|k: int|
                0 <= k < i ==> transformers_ready(
                    ecs,
                    moon_transformers(ecs, cells, #[trigger] ids@[k]),
                    wanted,
                ),
    {
        let entity_id = ids[i];
        let ok = match env.ecs.entity(entity_id) {
            Some(entity) => match entity.position {
                Some(position) => match env.spatial_hash.get(position) {
                    Some(cell) => transformers_ready_exec(env, &cell.transform_on_moon_change, wanted),
                    None => true,
                },
                None => true,
            },
            None => true,
        };
        if !ok {
            assert(!moon_ready(ecs, cells, ids@, wanted)) by {
                assert(ids@[i as int] == entity_id);
            }
            return false;
        }
    }
    true
}

/// Whether every transformer that `moon_transform` reads has what it reads,
/// so that `moon_transform` may be called on `env` and `action`.
pub fn moon_lookups_ok(env: &RuleEnv, action: &MoonChanges) -> (b: bool)
    ensures
        b == (moon_ready(
            env.ecs.entities@,
            env.spatial_hash.cells@,
            action.insertions@,
            TransformationState::Real,
        ) && moon_ready(
            env.ecs.entities@,
            env.spatial_hash.cells@,
            action.removals@,
            TransformationState::Other,
        )),
{
    moon_ready_exec(env, &action.insertions, TransformationState::Real) && moon_ready_exec(
        env,
        &action.removals,
        TransformationState::Other,
    )
}

/// The reactions to the moon's changes: transformations of the `Real`
/// transformers where entities gain the moon, then of the `Other` ones where
/// entities lose it.
pub open spec fn spec_moon_transform(
    ecs: Seq<EntityView>,
    cells: Seq<CellView>,
    insertions: Seq<EntityId>,
    removals: Seq<EntityId>,
) -> Seq<Reaction> {
    moon_reactions(ecs, cells, insertions, TransformationState::Real) + moon_reactions(
        ecs,
        cells,
        removals,
        TransformationState::Other,
    )
}

/// The transformers that the moon's change on an entity reaches are those of
/// the cell where the entity stands, and none where it stands nowhere.
pub proof fn law_moon_transformers(ecs: Seq<EntityView>, cells: Seq<CellView>, id: EntityId, c: CellView)
    ensures
        (find_entity(ecs, id) is None || find_entity(ecs, id).unwrap().position is None)
            ==> moon_transformers(ecs, cells, id) == Seq::<EntityId>::empty(),
        find_entity(ecs, id) is Some && find_entity(ecs, id).unwrap().position is Some && find_cell(
            cells,
            find_entity(ecs, id).unwrap().position.unwrap(),
        ) == Some(c) ==> moon_transformers(ecs, cells, id) == c.transform_on_moon_change@,
{
}

/// A transformation names the entity it transforms, and its kind.
pub proof fn law_transformation_names_entity(id: EntityId)
    ensures
        spec_to_action_args(TransformationType::Tree, id) == ActionArgs::TransformTree(id),
        spec_to_action_args(TransformationType::TerrorPillarTerrorFly, id)
            == ActionArgs::TransformTerrorPillarTerrorFly(id),
{
}

/// An entity that gains the moon where one transformer stands transforms it
/// at once if it is real, and leaves it if it is in its other state; an entity
/// that loses the moon there does the reverse.
pub proof fn law_moon_single_transformer(
    ecs: Seq<EntityView>,
    cells: Seq<CellView>,
    id: EntityId,
    c: CellView,
    t: EntityId,
    ty: TransformationType,
    st: TransformationState,
)
    requires
        find_entity(ecs, id) is Some,
        find_entity(ecs, id).unwrap().position is Some,
        find_cell(cells, find_entity(ecs, id).unwrap().position.unwrap()) == Some(c),
        c.transform_on_moon_change@ == seq![t],
        find_entity(ecs, t) is Some,
        find_entity(ecs, t).unwrap().transformation_state == Some(st),
        find_entity(ecs, t).unwrap().transformation_type == Some(ty),
    ensures
        st == TransformationState::Real ==> spec_moon_transform(ecs, cells, seq![id], seq![])
            == seq![Reaction { action: spec_to_action_args(ty, t), delay: 0 }],
        st == TransformationState::Other ==> spec_moon_transform(ecs, cells, seq![id], seq![])
            == Seq::<Reaction>::empty(),
        st == TransformationState::Other ==> spec_moon_transform(ecs, cells, seq![], seq![id])
            == seq![Reaction { action: spec_to_action_args(ty, t), delay: 0 }],
        st == TransformationState::Real ==> spec_moon_transform(ecs, cells, seq![], seq![id])
            == Seq::<Reaction>::empty(),
{
    let one = seq![id];
    assert(one.drop_last() =~= Seq::<EntityId>::empty());
    assert(one.last() == id);
    assert(moon_transformers(ecs, cells, id) == seq![t]);
    let ts = seq![t];
    assert(ts.drop_last() =~= Seq::<EntityId>::empty());
    assert(ts.last() == t);
    assert(moon_reactions(ecs, cells, Seq::<EntityId>::empty(), TransformationState::Real)
        =~= Seq::<Reaction>::empty());
    assert(moon_reactions(ecs, cells, Seq::<EntityId>::empty(), TransformationState::Other)
        =~= Seq::<Reaction>::empty());
    assert(transformer_reactions(ecs, Seq::<EntityId>::empty(), TransformationState::Real)
        =~= Seq::<Reaction>::empty());
    assert(transformer_reactions(ecs, Seq::<EntityId>::empty(), TransformationState::Other)
        =~= Seq::<Reaction>::empty());
    assert(seq![id] =~= one);
    assert(spec_moon_transform(ecs, cells, seq![id], seq![]) =~= moon_reactions(
        ecs,
        cells,
        one,
        TransformationState::Real,
    ) + Seq::<Reaction>::empty());
    assert(spec_moon_transform(ecs, cells, seq![], seq![id]) =~= Seq::<Reaction>::empty()
        + moon_reactions(ecs, cells, one, TransformationState::Other));
    assert(moon_reactions(ecs, cells, one, TransformationState::Real) =~= Seq::<Reaction>::empty()
        + transformer_reactions(ecs, ts, TransformationState::Real));
    assert(moon_reactions(ecs, cells, one, TransformationState::Other) =~= Seq::<Reaction>::empty()
        + transformer_reactions(ecs, ts, TransformationState::Other));
}

/// When the moon changes on an entity, every transformer in its cell whose
/// state is the one the change undoes transforms at once: gaining the moon
/// transforms the `Real` ones, losing it the `Other` ones. Reactions for the
/// gains come first, each in the order of the changes and of the cell.
pub fn moon_transform(env: RuleEnv, action: &MoonChanges, reactions: &mut Vec<Reaction>) -> (r:
    RuleResult)
    requires
        moon_ready(
            env.ecs.entities@,
            env.spatial_hash.cells@,
            action.insertions@,
            TransformationState::Real,
        ),
        moon_ready(
            env.ecs.entities@,
            env.spatial_hash.cells@,
            action.removals@,
            TransformationState::Other,
        ),
    ensures
        r == Ok::<RuleResolution, RuleResolution>(RuleResolution::Accept),
        final(reactions)@ == old(reactions)@ + spec_moon_transform(
            env.ecs.entities@,
            env.spatial_hash.cells@,
            action.insertions@,
            action.removals@,
        ),
        final(reactions)@ == old(reactions)@ + moon_reactions(
            env.ecs.entities@,
            env.spatial_hash.cells@,
            action.insertions@,
            TransformationState::Real,
        ) + moon_reactions(
            env.ecs.entities@,
            env.spatial_hash.cells@,
            action.removals@,
            TransformationState::Other,
        ),
{
    push_moon_reactions(&env, &action.insertions, TransformationState::Real, reactions);
    push_moon_reactions(&env, &action.removals, TransformationState::Other, reactions);
    rule_accept()
}

} // verus!
