use bevy_spacetimedb::BufferReader;
use bevy_spacetimedb::Payload;
use bevy_spacetimedb::TableBridge;
use bevy_spacetimedb::TableEvents;

#[derive(Clone, Debug, PartialEq, Eq)]
struct Player {
    id: u64,
    name: String,
}

impl Payload for Player {
    fn dup(&self) -> Player {
        Player { id: self.id, name: self.name.clone() }
    }
}

fn player(id: u64, name: &str) -> Player {
    Player { id, name: name.to_string() }
}

#[test]
fn table_events_all_binds_every_hook() {
    let ev = TableEvents::all();
    assert!(ev.insert);
    assert!(ev.update);
    assert!(ev.delete);
}

#[test]
fn table_events_no_update_skips_the_update_hook() {
    let ev = TableEvents::no_update();
    assert!(ev.insert);
    assert!(!ev.update);
    assert!(ev.delete);
}

#[test]
fn insert_then_delete_drains_in_order() {
    let mut table: TableBridge<Player> = TableBridge::new();
    table.bind(TableEvents::no_update());
    table.handle_insert(player(1, "A"));
    table.handle_delete(player(1, "A"));
    table.tick();

    let mut inserts = BufferReader::new();
    let batch = table.read_new_inserts(&mut inserts);
    assert_eq!(batch.len(), 1);
    assert_eq!(batch[0].row, player(1, "A"));

    let mut deletes = BufferReader::new();
    let batch = table.read_new_deletes(&mut deletes);
    assert_eq!(batch.len(), 1);
    assert_eq!(batch[0].row, player(1, "A"));

    // No update hook was bound, so neither raw nor derived updates flow.
    let mut updates = BufferReader::new();
    assert!(table.read_new_updates(&mut updates).is_empty());
    let mut derived = BufferReader::new();
    assert!(table.read_new_insert_updates(&mut derived).is_empty());
}

#[test]
fn insert_alone_yields_one_derived_event_with_no_prior_value() {
    let mut table: TableBridge<Player> = TableBridge::new();
    table.bind(TableEvents::all());
    table.handle_insert(player(2, "B"));
    table.tick();

    let mut derived = BufferReader::new();
    let batch = table.read_new_insert_updates(&mut derived);
    assert_eq!(batch.len(), 1);
    assert_eq!(batch[0].old_row, None);
    assert_eq!(batch[0].new_row, player(2, "B"));
}

#[test]
fn insert_then_update_yields_two_derived_events_in_order() {
    let v1 = player(2, "before");
    let v2 = player(2, "after");
    let mut table: TableBridge<Player> = TableBridge::new();
    table.bind(TableEvents::all());
    table.handle_insert(v1.clone());
    table.handle_update(v1.clone(), v2.clone());
    table.tick();

    let mut derived = BufferReader::new();
    let batch = table.read_new_insert_updates(&mut derived);
    assert_eq!(batch.len(), 2);
    assert_eq!(batch[0].old_row, None);
    assert_eq!(batch[0].new_row, v1);
    assert_eq!(batch[1].old_row, Some(v1.clone()));
    assert_eq!(batch[1].new_row, v2);

    // The raw streams carry the same notifications.
    let mut inserts = BufferReader::new();
    let batch = table.read_new_inserts(&mut inserts);
    assert_eq!(batch.len(), 1);
    assert_eq!(batch[0].row, v1);
    let mut updates = BufferReader::new();
    let batch = table.read_new_updates(&mut updates);
    assert_eq!(batch.len(), 1);
    assert_eq!(batch[0].old_row, v1);
    assert_eq!(batch[0].new_row, v2);
}

#[test]
fn binding_twice_funnels_into_the_same_stream() {
    let mut table: TableBridge<Player> = TableBridge::new();
    table.bind(TableEvents { insert: true, update: false, delete: false });
    table.handle_insert(player(1, "A"));
    // A second binding request for the same hook neither resets the stream
    // nor creates a second one.
    table.bind(TableEvents { insert: true, update: false, delete: true });
    table.handle_insert(player(2, "B"));
    table.tick();

    let mut inserts = BufferReader::new();
    let batch = table.read_new_inserts(&mut inserts);
    assert_eq!(batch.len(), 2);
    assert_eq!(batch[0].row, player(1, "A"));
    assert_eq!(batch[1].row, player(2, "B"));
}

#[test]
fn derived_stream_needs_insert_and_update_in_one_request() {
    let mut table: TableBridge<Player> = TableBridge::new();
    // Two separate requests, one per hook: both raw streams flow, but no
    // request asked for the pair, so no derived stream is bound.
    table.bind(TableEvents { insert: true, update: false, delete: false });
    table.bind(TableEvents { insert: false, update: true, delete: false });
    assert!(table.insert_bound);
    assert!(table.update_bound);
    assert!(!table.insert_update_bound);

    table.handle_insert(player(3, "C"));
    table.handle_update(player(3, "C"), player(3, "D"));
    table.tick();
    let mut derived = BufferReader::new();
    assert!(table.read_new_insert_updates(&mut derived).is_empty());
}

#[test]
fn unbound_hooks_feed_nothing() {
    let mut table: TableBridge<Player> = TableBridge::new();
    table.handle_insert(player(1, "A"));
    table.handle_update(player(1, "A"), player(1, "B"));
    table.handle_delete(player(1, "B"));
    table.tick();
    let mut inserts = BufferReader::new();
    assert!(table.read_new_inserts(&mut inserts).is_empty());
    let mut updates = BufferReader::new();
    assert!(table.read_new_updates(&mut updates).is_empty());
    let mut deletes = BufferReader::new();
    assert!(table.read_new_deletes(&mut deletes).is_empty());
    let mut derived = BufferReader::new();
    assert!(table.read_new_insert_updates(&mut derived).is_empty());
}
