use std::collections::HashMap;
use std::collections::hash_map;
use std::hash::Hash;
use vstd::prelude::*;

verus! {

broadcast use vstd::std_specs::hash::group_hash_axioms;

/// Something that knows which slot of a table it belongs in.
pub trait ToType<EntryType> {
    /// The slot that this value belongs in.
    spec fn type_of(&self) -> EntryType;

    fn to_type(&self) -> (t: EntryType)
        ensures
            t == self.type_of(),
    ;
}

pub type TableId = u64;

/// A table that holds at most one entry per type, keyed by the entry's own type.
#[derive(Debug, Clone)]
pub struct Table<EntryType, Entry> where EntryType: Eq + Hash, Entry: ToType<EntryType> {
    pub id: Option<TableId>,
    pub slots: HashMap<EntryType, Entry>,
}

impl<EntryType, Entry> View for Table<EntryType, Entry> where
    EntryType: Eq + Hash,
    Entry: ToType<EntryType>,
 {
    type V = Map<EntryType, Entry>;

    open spec fn view(&self) -> Map<EntryType, Entry> {
        self.slots@
    }
}

/// Whether the key type of a table behaves as a hash key must (a deterministic
/// hash, and `==` that agrees with identity); all primitive integer types do.
pub open spec fn key_model<EntryType>() -> bool {
    vstd::std_specs::hash::obeys_key_model::<EntryType>()
}

impl<EntryType, Entry> Table<EntryType, Entry> where EntryType: Eq + Hash, Entry: ToType<EntryType> {
    pub fn new() -> (table: Self)
        ensures
            table@ == Map::<EntryType, Entry>::empty(),
            table.id == None::<TableId>,
    {
        Table { id: None, slots: HashMap::new() }
    }

    /// Puts `entry` in the slot of its type, handing back what that slot held.
    pub fn add(&mut self, entry: Entry) -> (previous: Option<Entry>)
        ensures
            final(self).id == old(self).id,
            key_model::<EntryType>() ==> final(self)@ == old(self)@.insert(entry.type_of(), entry),
            key_model::<EntryType>() ==> previous == old(self)@.get(entry.type_of()),
    {
        let t = entry.to_type();
        self.slots.insert(t, entry)
    }

    /// Takes the entry of type `t` out of the table.
    pub fn remove(&mut self, t: EntryType) -> (removed: Option<Entry>)
        ensures
            final(self).id == old(self).id,
            key_model::<EntryType>() ==> final(self)@ == old(self)@.remove(t),
            key_model::<EntryType>() ==> removed == old(self)@.get(t),
    {
        self.slots.remove(&t)
    }

    /// The entry of type `t`, if the table holds one.
    pub fn get(&self, t: EntryType) -> (found: Option<&Entry>)
        ensures
            key_model::<EntryType>() ==> match found {
                Some(e) => self@.get(t) == Some(*e),
                None => self@.get(t) == None::<Entry>,
            },
    {
        self.slots.get(&t)
    }

    /// The entry of type `t`, for changing it in place.
    pub fn get_mut(&mut self, t: EntryType) -> (found: Option<&mut Entry>)
        ensures
            final(self).id == old(self).id,
            key_model::<EntryType>() ==> match old(self)@.get(t) {
                None => found.is_none() && final(self)@ == old(self)@,
                Some(e) => found.is_some() && *found.unwrap() == e && final(self)@ == old(self)@.insert(
                    t,
                    *final(found.unwrap()),
                ),
            },
    {
        match self.slots.entry(t) {
            hash_map::Entry::Occupied(o) => Some(o.into_mut()),
            hash_map::Entry::Vacant(_) => None,
        }
    }

    /// Whether the table holds an entry of type `t`.
    pub fn has(&self, t: EntryType) -> (b: bool)
        ensures
            key_model::<EntryType>() ==> b == self@.contains_key(t),
    {
        self.slots.contains_key(&t)
    }

    /// Empties the table; its id stays.
    pub fn clear(&mut self)
        ensures
            final(self).id == old(self).id,
            final(self)@ == Map::<EntryType, Entry>::empty(),
    {
        self.slots.clear();
    }
}

/// Every entry of a table stands in the slot of its own type.
pub open spec fn entries_under_own_type<EntryType, Entry: ToType<EntryType>>(
    slots: Map<EntryType, Entry>,
) -> bool {
    forall|k: EntryType| #[trigger] slots.contains_key(k) ==> slots[k].type_of() == k
}

/// Adding, removing and clearing keep every entry in the slot of its own
/// type, starting from the empty table.
pub proof fn law_entries_stay_under_own_type<EntryType, Entry: ToType<EntryType>>(
    before: Map<EntryType, Entry>,
    entry: Entry,
    t: EntryType,
)
    requires
        entries_under_own_type(before),
    ensures
        entries_under_own_type(Map::<EntryType, Entry>::empty()),
        entries_under_own_type(before.insert(entry.type_of(), entry)),
        entries_under_own_type(before.remove(t)),
{
}

/// Looking up the type of an entry just added finds that entry, and every
/// other type finds what it found before.
pub proof fn law_get_after_add<EntryType, Entry: ToType<EntryType>>(
    before: Map<EntryType, Entry>,
    entry: Entry,
    other: EntryType,
)
    ensures
        before.insert(entry.type_of(), entry).get(entry.type_of()) == Some(entry),
        other != entry.type_of() ==> before.insert(entry.type_of(), entry).get(other) == before.get(
            other,
        ),
{
}

/// Removing the type of an entry that was just added to a table holding no
/// entry of that type gives the table back as it was.
pub proof fn law_remove_undoes_add<EntryType, Entry: ToType<EntryType>>(
    before: Map<EntryType, Entry>,
    entry: Entry,
)
    requires
        !before.contains_key(entry.type_of()),
    ensures
        before.insert(entry.type_of(), entry).remove(entry.type_of()) == before,
{
    assert(before.insert(entry.type_of(), entry).remove(entry.type_of()) =~= before);
}

/// Adding an entry twice leaves the table as adding it once does, and the
/// second add hands back the entry.
pub proof fn law_add_twice<EntryType, Entry: ToType<EntryType>>(
    before: Map<EntryType, Entry>,
    entry: Entry,
)
    ensures
        before.insert(entry.type_of(), entry).insert(entry.type_of(), entry) == before.insert(
            entry.type_of(),
            entry,
        ),
        before.insert(entry.type_of(), entry).get(entry.type_of()) == Some(entry),
{
    assert(before.insert(entry.type_of(), entry).insert(entry.type_of(), entry) =~= before.insert(
        entry.type_of(),
        entry,
    ));
}

/// After a type is removed the table holds no entry of it, and `has` and
/// `get` agree on every type.
pub proof fn law_remove_then_absent<EntryType, Entry>(before: Map<EntryType, Entry>, t: EntryType, u: EntryType)
    ensures
        !before.remove(t).contains_key(t),
        before.remove(t).get(t) == None::<Entry>,
        before.contains_key(u) <==> before.get(u) is Some,
{
}

impl<EntryType, Entry> Default for Table<EntryType, Entry> where
    EntryType: Eq + Hash,
    Entry: ToType<EntryType>,
 {
    fn default() -> (table: Self)
        ensures
            table@ == Map::<EntryType, Entry>::empty(),
            table.id == None::<TableId>,
    {
        Table::new()
    }
}

} // verus!
