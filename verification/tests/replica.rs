use leftright_buffer::replica::Replica;
use leftright_buffer::{Access, Side, Violation};

#[test]
fn new_replica_holds_the_value_twice_and_reads_left() {
    let mut replica = Replica::new(9u32);
    assert_eq!(replica.value(Side::Left), 9);
    assert_eq!(replica.value(Side::Right), 9);
    assert_eq!(replica.readers(Side::Left), 0);
    assert!(!replica.has_writer(Side::Left));
    assert!(!replica.has_writer(Side::Right));
    assert_eq!(replica.read(), Some(Side::Left));
    assert_eq!(replica.readers(Side::Left), 1);
    assert_eq!(replica.readers(Side::Right), 0);
}

#[test]
fn replica_write_store_publish_read() {
    let mut replica = Replica::new(0u32);
    assert_eq!(replica.write(), Ok(Side::Right));
    assert!(replica.has_writer(Side::Right));
    replica.store(Side::Right, 5);
    assert_eq!(replica.read(), Some(Side::Left));
    assert_eq!(replica.value(Side::Left), 0);
    replica.end_read(Side::Left);
    replica.publish(Side::Right);
    assert!(!replica.has_writer(Side::Right));
    assert_eq!(replica.read(), Some(Side::Right));
    assert_eq!(replica.value(Side::Right), 5);
}

#[test]
fn replica_write_after_publish_copies_the_published_value() {
    let mut replica = Replica::new(0u32);
    assert_eq!(replica.write(), Ok(Side::Right));
    replica.store(Side::Right, 5);
    replica.publish(Side::Right);
    assert_eq!(replica.value(Side::Left), 0);
    assert_eq!(replica.write(), Ok(Side::Left));
    assert_eq!(replica.value(Side::Left), 5);
    assert_eq!(replica.value(Side::Right), 5);
}

#[test]
fn replica_write_without_sync_leaves_the_slot_as_it_stands() {
    let mut replica = Replica::new(0u32);
    assert_eq!(replica.write(), Ok(Side::Right));
    replica.store(Side::Right, 50);
    replica.publish(Side::Right);
    assert_eq!(replica.write_without_sync(), Ok(Side::Left));
    assert_eq!(replica.value(Side::Left), 0);
    replica.abandon(Side::Left);
    assert_eq!(replica.write(), Ok(Side::Left));
    assert_eq!(replica.value(Side::Left), 0);
}

#[test]
fn replica_refuses_a_second_writer() {
    let mut replica = Replica::new(0u32);
    assert_eq!(replica.write(), Ok(Side::Right));
    assert_eq!(replica.write(), Err(Violation::WriterContention { slot: Side::Right }));
    assert_eq!(
        replica.write_without_sync(),
        Err(Violation::WriterContention { slot: Side::Right })
    );
    replica.publish(Side::Right);
    assert_eq!(replica.write_without_sync(), Ok(Side::Left));
    assert_eq!(replica.write(), Err(Violation::WriterContention { slot: Side::Left }));
}

#[test]
fn replica_refuses_a_writer_while_a_reader_holds_the_write_slot() {
    let mut replica = Replica::new(0u32);
    assert_eq!(replica.read(), Some(Side::Left));
    assert_eq!(replica.write(), Ok(Side::Right));
    replica.publish(Side::Right);
    assert_eq!(
        replica.write(),
        Err(Violation::SyncContention { slot: Side::Left, access: Access::Exclusive })
    );
    assert_eq!(
        replica.write_without_sync(),
        Err(Violation::WriterContention { slot: Side::Left })
    );
    replica.end_read(Side::Left);
    assert_eq!(replica.write(), Ok(Side::Left));
}

#[test]
fn replica_reader_falls_back_after_a_bare_flip() {
    let mut replica = Replica::new(0u32);
    assert_eq!(replica.write(), Ok(Side::Right));
    replica.store(Side::Right, 11);
    replica.publish(Side::Right);
    assert_eq!(replica.write(), Ok(Side::Left));
    replica.store(Side::Left, 1);
    replica.flip();
    assert_eq!(replica.read(), Some(Side::Right));
    assert_eq!(replica.value(Side::Right), 11);
    assert_eq!(
        replica.write(),
        Err(Violation::SyncContention { slot: Side::Left, access: Access::Shared })
    );
}

#[test]
fn replica_reader_waits_when_both_slots_are_locked_for_writing() {
    let mut replica = Replica::new(0u32);
    assert_eq!(replica.write(), Ok(Side::Right));
    replica.flip();
    assert_eq!(replica.write_without_sync(), Ok(Side::Left));
    assert_eq!(replica.read(), None);
    assert_eq!(replica.readers(Side::Left), 0);
    assert_eq!(replica.readers(Side::Right), 0);
    replica.abandon(Side::Right);
    assert_eq!(replica.read(), Some(Side::Right));
}
