use leftright_buffer::side::{flipped, read_side, write_side};
use leftright_buffer::violation::{sync_access, writer_access};
use leftright_buffer::{Access, Side, Violation};

#[test]
fn direction_false_reads_left_and_writes_right() {
    assert_eq!(read_side(false), Side::Left);
    assert_eq!(write_side(false), Side::Right);
}

#[test]
fn direction_true_reads_right_and_writes_left() {
    assert_eq!(read_side(true), Side::Right);
    assert_eq!(write_side(true), Side::Left);
}

#[test]
fn flipping_swaps_the_roles() {
    for direction in [false, true] {
        assert_eq!(flipped(direction), !direction);
        assert_eq!(read_side(flipped(direction)), write_side(direction));
        assert_eq!(write_side(flipped(direction)), read_side(direction));
        assert_eq!(flipped(flipped(direction)), direction);
        assert_ne!(read_side(direction), write_side(direction));
    }
}

#[test]
fn other_side() {
    assert_eq!(Side::Left.other(), Side::Right);
    assert_eq!(Side::Right.other(), Side::Left);
}

#[test]
fn writer_access_passes_the_guard_on() {
    assert_eq!(writer_access(Side::Left, Some(3u8)), Ok(3u8));
    assert_eq!(writer_access(Side::Right, Some("guard")), Ok("guard"));
}

#[test]
fn writer_access_reports_the_slot() {
    assert_eq!(
        writer_access::<u8>(Side::Left, None),
        Err(Violation::WriterContention { slot: Side::Left })
    );
    assert_eq!(
        writer_access::<u8>(Side::Right, None),
        Err(Violation::WriterContention { slot: Side::Right })
    );
}

#[test]
fn sync_access_passes_the_guard_on() {
    assert_eq!(sync_access(Side::Left, Access::Shared, Some(3u8)), Ok(3u8));
    assert_eq!(sync_access(Side::Right, Access::Exclusive, Some(4u8)), Ok(4u8));
}

#[test]
fn sync_access_reports_slot_and_step() {
    assert_eq!(
        sync_access::<u8>(Side::Right, Access::Shared, None),
        Err(Violation::SyncContention { slot: Side::Right, access: Access::Shared })
    );
    assert_eq!(
        sync_access::<u8>(Side::Left, Access::Exclusive, None),
        Err(Violation::SyncContention { slot: Side::Left, access: Access::Exclusive })
    );
}

#[test]
fn messages_of_writer_contention() {
    assert_eq!(Violation::WriterContention { slot: Side::Left }.message(), "LRBuffer write1");
    assert_eq!(Violation::WriterContention { slot: Side::Right }.message(), "LRBuffer write2");
}

#[test]
fn messages_of_sync_contention() {
    let sync = |slot, access| Violation::SyncContention { slot, access }.message();
    assert_eq!(sync(Side::Right, Access::Shared), "LRBuffer sync1");
    assert_eq!(sync(Side::Left, Access::Exclusive), "LRBuffer sync2");
    assert_eq!(sync(Side::Left, Access::Shared), "LRBuffer sync3");
    assert_eq!(sync(Side::Right, Access::Exclusive), "LRBuffer sync4");
}
