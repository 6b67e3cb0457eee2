use worker_host::table::{HostTable, Occupied};

#[test]
fn new_table_is_empty() {
    let table: HostTable<&str> = HostTable::new();
    assert_eq!(table.len(), 0);
    assert_eq!(table.next_id(), 0);
    assert!(!table.contains(0));
    assert_eq!(table.get(0), None);
}

#[test]
fn identifiers_strictly_increase() {
    let mut table: HostTable<&str> = HostTable::new();
    assert_eq!(table.allocate_id(), Some(0));
    assert_eq!(table.allocate_id(), Some(1));
    assert_eq!(table.allocate_id(), Some(2));
    assert_eq!(table.next_id(), 3);
    assert_eq!(table.len(), 0);
}

#[test]
fn new_identifier_names_no_live_worker() {
    let mut table: HostTable<u32> = HostTable::new();
    let mut live: Vec<u32> = Vec::new();
    for round in 0..50u32 {
        let id = table.allocate_id().unwrap();
        assert!(!live.contains(&id));
        assert!(!table.contains(id));
        assert_eq!(table.insert(id, round), Ok(()));
        live.push(id);
        if round % 3 == 0 {
            let gone = live.remove(0);
            assert!(table.remove(gone).is_some());
        }
    }
    assert_eq!(table.len(), live.len());
}

#[test]
fn insert_stores_under_an_allocated_identifier() {
    let mut table: HostTable<&str> = HostTable::new();
    let id = table.allocate_id().unwrap();
    assert_eq!(table.insert(id, "first"), Ok(()));
    assert!(table.contains(id));
    assert_eq!(table.get(id), Some(&"first"));
    assert_eq!(table.len(), 1);
}

#[test]
fn insert_fails_on_a_live_identifier() {
    let mut table: HostTable<&str> = HostTable::new();
    let id = table.allocate_id().unwrap();
    assert_eq!(table.insert(id, "first"), Ok(()));
    assert_eq!(table.insert(id, "second"), Err(Occupied { entry: "second" }));
    assert_eq!(table.get(id), Some(&"first"));
    assert_eq!(table.len(), 1);
}

#[test]
fn insert_of_an_identifier_not_yet_reached_moves_the_counter_past_it() {
    let mut table: HostTable<&str> = HostTable::new();
    assert_eq!(table.insert(5, "ahead"), Ok(()));
    assert_eq!(table.get(5), Some(&"ahead"));
    assert_eq!(table.next_id(), 6);
    assert_eq!(table.allocate_id(), Some(6));
    assert_eq!(table.insert(2, "behind"), Ok(()));
    assert_eq!(table.next_id(), 7);
    assert_eq!(table.len(), 2);
}

#[test]
fn insert_of_the_last_identifier_exhausts_the_counter() {
    let mut table: HostTable<&str> = HostTable::new();
    assert_eq!(table.insert(u32::MAX, "last"), Ok(()));
    assert_eq!(table.next_id(), u32::MAX);
    assert_eq!(table.allocate_id(), None);
    assert_eq!(table.get(u32::MAX), Some(&"last"));
}

#[test]
fn counter_starts_where_it_is_told() {
    let mut table: HostTable<&str> = HostTable::starting_at(100);
    assert_eq!(table.len(), 0);
    assert_eq!(table.next_id(), 100);
    assert_eq!(table.allocate_id(), Some(100));
    assert_eq!(table.allocate_id(), Some(101));
}

#[test]
fn exhausted_counter_hands_out_nothing() {
    let mut table: HostTable<&str> = HostTable::starting_at(u32::MAX - 1);
    assert_eq!(table.allocate_id(), Some(u32::MAX - 1));
    assert_eq!(table.next_id(), u32::MAX);
    assert_eq!(table.allocate_id(), None);
    assert_eq!(table.allocate_id(), None);
    assert_eq!(table.next_id(), u32::MAX);
}

#[test]
fn remove_hands_the_entry_out_once() {
    let mut table: HostTable<&str> = HostTable::new();
    let id = table.allocate_id().unwrap();
    table.insert(id, "worker").unwrap();
    assert_eq!(table.remove(id), Some("worker"));
    assert!(!table.contains(id));
    assert_eq!(table.remove(id), None);
    assert_eq!(table.remove(id), None);
    assert_eq!(table.len(), 0);
}

#[test]
fn remove_of_an_unknown_identifier_changes_nothing() {
    let mut table: HostTable<&str> = HostTable::new();
    let id = table.allocate_id().unwrap();
    table.insert(id, "worker").unwrap();
    assert_eq!(table.remove(17), None);
    assert_eq!(table.len(), 1);
    assert_eq!(table.get(id), Some(&"worker"));
    assert_eq!(table.next_id(), 1);
}

#[test]
fn get_does_not_remove() {
    let mut table: HostTable<&str> = HostTable::new();
    let id = table.allocate_id().unwrap();
    table.insert(id, "worker").unwrap();
    assert_eq!(table.get(id), Some(&"worker"));
    assert_eq!(table.get(id), Some(&"worker"));
    assert_eq!(table.len(), 1);
}

#[test]
fn removed_identifier_is_not_handed_out_again() {
    let mut table: HostTable<&str> = HostTable::new();
    let first = table.allocate_id().unwrap();
    table.insert(first, "a").unwrap();
    table.remove(first);
    for _ in 0..20 {
        let next = table.allocate_id().unwrap();
        assert!(next > first);
    }
}
