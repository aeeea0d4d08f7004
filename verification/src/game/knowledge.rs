use std::collections::BTreeMap;
use vstd::prelude::*;
use crate::game::data::LevelId;

verus! {

broadcast use vstd::laws_cmp::group_laws_cmp;

/// A representation of a level that is made to a width and a height.
pub trait TwoDimensionalCons: Sized {
    fn new(width: usize, height: usize) -> Self;
}

/// What is known of each level that has been seen.
pub struct GameKnowledge<K> {
    levels: BTreeMap<LevelId, K>,
}

impl<K> View for GameKnowledge<K> {
    type V = Map<LevelId, K>;

    closed spec fn view(&self) -> Map<LevelId, K> {
        self.levels@
    }
}

/// Calls `BTreeMap::get_mut`. Its contract claims: the value under
/// `key`, which may be changed in place; the map keeps what the value becomes,
/// and is unchanged where there is no such value.
#[verifier::external_body]
fn btree_get_mut<'a, V>(m: &'a mut BTreeMap<LevelId, V>, key: &LevelId) -> (r: Option<&'a mut V>)
    ensures
        match old(m)@.get(*key) {
            None => r is None && final(m)@ == old(m)@,
            Some(v) => r is Some && *r.unwrap() == v && final(m)@ == old(m)@.insert(
                *key,
                *final(r.unwrap()),
            ),
        },
{
    m.get_mut(key)
}

impl<K> GameKnowledge<K> {
    pub fn new() -> (g: Self)
        ensures
            g@ == Map::<LevelId, K>::empty(),
    {
        GameKnowledge { levels: BTreeMap::new() }
    }

    /// The knowledge of the level `level_id`, which must have been seen.
    pub fn level(&self, level_id: LevelId) -> (k: &K)
        requires
            self@.contains_key(level_id),
        ensures
            *k == self@[level_id],
    {
        self.levels.get(&level_id).unwrap()
    }

    /// The knowledge of the level `level_id`, which must have been seen, for
    /// changing it in place.
    pub fn level_mut(&mut self, level_id: LevelId) -> (k: &mut K)
        requires
            old(self)@.contains_key(level_id),
        ensures
            *k == old(self)@[level_id],
            final(self)@ == old(self)@.insert(level_id, *final(k)),
    {
        btree_get_mut(&mut self.levels, &level_id).unwrap()
    }
}

impl<K: TwoDimensionalCons> GameKnowledge<K> {
    /// The knowledge of the level `level_id`, first made for a level of
    /// `width` by `height` where the level has not been seen.
    pub fn level_mut_or_insert_size(&mut self, level_id: LevelId, width: usize, height: usize) -> (k:
        &mut K)
        ensures
            old(self)@.contains_key(level_id) ==> *k == old(self)@[level_id],
            !old(self)@.contains_key(level_id) ==> call_ensures(K::new, (width, height), *k),
            final(self)@ == old(self)@.insert(level_id, *final(k)),
    {
        if !self.levels.contains_key(&level_id) {
            let fresh = K::new(width, height);
            self.levels.insert(level_id, fresh);
        }
        btree_get_mut(&mut self.levels, &level_id).unwrap()
    }
}

/// Once a level's knowledge is made it stays: asking for it again finds it,
/// and making one level's knowledge leaves every other level's as it was.
pub proof fn law_level_knowledge_kept<K>(before: Map<LevelId, K>, level_id: LevelId, k: K, other: LevelId)
    ensures
        before.insert(level_id, k).contains_key(level_id),
        before.insert(level_id, k)[level_id] == k,
        other != level_id ==> before.insert(level_id, k).get(other) == before.get(other),
{
}

impl<K: Default> Default for GameKnowledge<K> {
    fn default() -> (g: Self)
        ensures
            g@ == Map::<LevelId, K>::empty(),
    {
        Self::new()
    }
}

} // verus!
