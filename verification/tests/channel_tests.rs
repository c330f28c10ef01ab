use bevy_spacetimedb::BufferReader;
use bevy_spacetimedb::ChannelRegistry;
use bevy_spacetimedb::EventChannel;
use bevy_spacetimedb::TypedChannel;

#[test]
fn drain_empty_channel_yields_empty_batch() {
    let mut chan: TypedChannel<u64> = TypedChannel::new();
    let batch = chan.drain();
    assert!(batch.is_empty());
    // Draining again still returns immediately with nothing.
    let batch = chan.drain();
    assert!(batch.is_empty());
    assert!(chan.is_empty());
}

#[test]
fn drain_yields_send_order_for_any_volume() {
    let mut chan: TypedChannel<u64> = TypedChannel::new();
    for i in 0..10_000u64 {
        chan.send(i);
    }
    assert_eq!(chan.len(), 10_000);
    let batch = chan.drain();
    assert_eq!(batch.len(), 10_000);
    for (i, v) in batch.iter().enumerate() {
        assert_eq!(*v, i as u64);
    }
    // Nothing is re-delivered.
    assert!(chan.drain().is_empty());
}

#[test]
fn event_channel_tick_moves_queue_to_buffer() {
    let mut chan: EventChannel<u64> = EventChannel::new();
    chan.send(5);
    chan.send(6);
    assert_eq!(chan.queued_len(), 2);
    assert_eq!(chan.buffered_len(), 0);
    chan.tick();
    assert_eq!(chan.queued_len(), 0);
    assert_eq!(chan.buffered_len(), 2);
    let mut reader = BufferReader::new();
    let batch = chan.read_new(&mut reader);
    assert_eq!(batch, vec![5, 6]);
}

#[test]
fn late_send_lands_on_next_tick_not_lost_not_duplicated() {
    let mut chan: EventChannel<u64> = EventChannel::new();
    chan.send(1);
    chan.tick();
    // A send racing the previous drain is simply visible on the next tick.
    chan.send(2);
    chan.tick();
    let mut reader = BufferReader::new();
    assert_eq!(chan.read_new(&mut reader), vec![1, 2]);
}

#[test]
fn independent_readers_each_see_the_full_batch() {
    let mut chan: EventChannel<u64> = EventChannel::new();
    chan.send(10);
    chan.send(20);
    chan.tick();
    let mut first = BufferReader::new();
    let mut second = BufferReader::new();
    assert_eq!(chan.read_new(&mut first), vec![10, 20]);
    assert_eq!(chan.read_new(&mut second), vec![10, 20]);
}

#[test]
fn reader_sees_only_what_came_since_its_last_read() {
    let mut chan: EventChannel<u64> = EventChannel::new();
    chan.send(1);
    chan.tick();
    let mut reader = BufferReader::new();
    assert_eq!(chan.read_new(&mut reader), vec![1]);
    assert_eq!(chan.read_new(&mut reader), Vec::<u64>::new());
    chan.send(2);
    chan.send(3);
    chan.tick();
    assert_eq!(chan.read_new(&mut reader), vec![2, 3]);
}

#[test]
fn registry_get_or_create_twice_yields_same_slot() {
    let mut reg: ChannelRegistry<u64> = ChannelRegistry::new();
    let first = reg.get_or_create(7);
    let second = reg.get_or_create(7);
    assert_eq!(first, second);
    assert_eq!(reg.len(), 1);
    let other = reg.get_or_create(8);
    assert_ne!(other, first);
    assert_eq!(reg.len(), 2);
    // Asking again later still lands on the original slots.
    assert_eq!(reg.get_or_create(7), first);
    assert_eq!(reg.get_or_create(8), other);
    assert_eq!(reg.len(), 2);
}

#[test]
fn registry_schedules_one_bridge_task_per_slot() {
    let mut reg: ChannelRegistry<u64> = ChannelRegistry::new();
    let slot = reg.get_or_create(3);
    assert!(reg.schedule_bridge(slot));
    assert!(!reg.schedule_bridge(slot));
    let slot = reg.get_or_create(3);
    assert!(!reg.schedule_bridge(slot));
}

#[test]
fn registry_send_tick_read_round_trip() {
    let mut reg: ChannelRegistry<u64> = ChannelRegistry::new();
    let a = reg.get_or_create(1);
    let b = reg.get_or_create(2);
    reg.send_to(a, 100);
    reg.send_to(b, 200);
    reg.send_to(a, 101);
    reg.tick_all();
    let mut reader_a = BufferReader::new();
    let mut reader_b = BufferReader::new();
    assert_eq!(reg.read_new_at(a, &mut reader_a), vec![100, 101]);
    assert_eq!(reg.read_new_at(b, &mut reader_b), vec![200]);
    // Nothing re-delivered on the next tick's read.
    reg.tick_all();
    assert_eq!(reg.read_new_at(a, &mut reader_a), Vec::<u64>::new());
}
