use rogue_core::game::table::{Table, ToType};

#[derive(Debug, Clone, PartialEq)]
struct Component {
    kind: u64,
    value: i32,
}

impl ToType<u64> for Component {
    fn type_of(&self) -> u64 {
        self.kind
    }

    fn to_type(&self) -> u64 {
        self.kind
    }
}

#[test]
fn new_table_is_empty() {
    let t: Table<u64, Component> = Table::new();
    assert_eq!(t.id, None);
    assert!(t.slots.is_empty());
    assert!(!t.has(0));
    assert!(t.get(0).is_none());
}

#[test]
fn default_table_is_empty() {
    let t: Table<u64, Component> = Default::default();
    assert_eq!(t.id, None);
    assert!(t.slots.is_empty());
}

#[test]
fn add_puts_entry_in_its_slot() {
    let mut t: Table<u64, Component> = Table::new();
    assert_eq!(t.add(Component { kind: 3, value: 7 }), None);
    assert!(t.has(3));
    assert!(!t.has(4));
    assert_eq!(t.get(3), Some(&Component { kind: 3, value: 7 }));
}

#[test]
fn add_replaces_and_returns_previous() {
    let mut t: Table<u64, Component> = Table::new();
    t.add(Component { kind: 3, value: 7 });
    let previous = t.add(Component { kind: 3, value: 8 });
    assert_eq!(previous, Some(Component { kind: 3, value: 7 }));
    assert_eq!(t.get(3), Some(&Component { kind: 3, value: 8 }));
    assert_eq!(t.slots.len(), 1);
}

#[test]
fn remove_takes_entry_out() {
    let mut t: Table<u64, Component> = Table::new();
    t.add(Component { kind: 1, value: 10 });
    t.add(Component { kind: 2, value: 20 });
    assert_eq!(t.remove(1), Some(Component { kind: 1, value: 10 }));
    assert!(!t.has(1));
    assert!(t.has(2));
    assert_eq!(t.remove(1), None);
}

#[test]
fn get_mut_changes_entry_in_place() {
    let mut t: Table<u64, Component> = Table::new();
    t.add(Component { kind: 5, value: 1 });
    if let Some(c) = t.get_mut(5) {
        c.value = 99;
    }
    assert_eq!(t.get(5), Some(&Component { kind: 5, value: 99 }));
    assert!(t.get_mut(6).is_none());
    assert!(!t.has(6));
}

#[test]
fn clear_empties_but_keeps_id() {
    let mut t: Table<u64, Component> = Table::new();
    t.id = Some(42);
    t.add(Component { kind: 1, value: 1 });
    t.add(Component { kind: 2, value: 2 });
    t.clear();
    assert_eq!(t.id, Some(42));
    assert!(!t.has(1));
    assert!(!t.has(2));
}

#[test]
fn law_get_after_add_holds() {
    let mut t: Table<u64, Component> = Table::new();
    t.add(Component { kind: 9, value: 3 });
    t.add(Component { kind: 4, value: 5 });
    assert_eq!(t.get(4), Some(&Component { kind: 4, value: 5 }));
    assert_eq!(t.get(9), Some(&Component { kind: 9, value: 3 }));
}

#[test]
fn law_remove_undoes_add_holds() {
    let mut t: Table<u64, Component> = Table::new();
    t.add(Component { kind: 1, value: 1 });
    let before = t.slots.clone();
    t.add(Component { kind: 2, value: 2 });
    t.remove(2);
    assert_eq!(t.slots, before);
}

#[test]
fn law_add_twice_holds() {
    let mut t: Table<u64, Component> = Table::new();
    t.add(Component { kind: 1, value: 1 });
    let once = t.slots.clone();
    assert_eq!(t.add(Component { kind: 1, value: 1 }), Some(Component { kind: 1, value: 1 }));
    assert_eq!(t.slots, once);
}

#[test]
fn law_entries_stay_under_own_type_holds() {
    let mut t: Table<u64, Component> = Table::new();
    t.add(Component { kind: 1, value: 1 });
    t.add(Component { kind: 2, value: 2 });
    t.remove(1);
    t.add(Component { kind: 3, value: 3 });
    assert!(t.slots.iter().all(|(k, v)| v.to_type() == *k));
    t.clear();
    assert!(t.slots.is_empty());
}
