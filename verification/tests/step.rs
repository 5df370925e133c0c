use leftright_buffer::step::{after_resync, copy_value, first_answer};
use leftright_buffer::{Access, Side, Violation};

#[test]
fn first_answer_keeps_a_granted_guard() {
    assert_eq!(first_answer(false, Some(7u8)).ok(), Some(7u8));
    assert_eq!(first_answer(true, Some("guard")).ok(), Some("guard"));
}

#[test]
fn first_answer_turns_a_refusal_to_the_write_slot() {
    let refusal = first_answer::<u8>(false, None).unwrap_err();
    assert_eq!(refusal.next(), Side::Right);
    let refusal = first_answer::<u8>(true, None).unwrap_err();
    assert_eq!(refusal.next(), Side::Left);
}

#[test]
fn after_resync_goes_on_unsynced_when_nothing_was_due() {
    assert_eq!(after_resync::<u8>(None), Ok(None));
}

#[test]
fn after_resync_goes_on_synced_after_a_copy() {
    assert_eq!(after_resync(Some(Ok(3u8))), Ok(Some(3u8)));
}

#[test]
fn after_resync_aborts_with_the_violation_of_the_resynchronisation() {
    let stale_reader = Violation::SyncContention { slot: Side::Left, access: Access::Exclusive };
    assert_eq!(after_resync::<u8>(Some(Err(stale_reader))), Err(stale_reader));
    let held_writer = Violation::SyncContention { slot: Side::Right, access: Access::Shared };
    assert_eq!(after_resync::<u8>(Some(Err(held_writer))), Err(held_writer));
}

#[test]
fn copy_value_overwrites_the_target_and_keeps_the_source() {
    let source = (9u32, 2u32);
    let mut target = (0u32, 0u32);
    copy_value(&source, &mut target);
    assert_eq!(target, (9, 2));
    assert_eq!(source, (9, 2));
    let mut number = 1u8;
    copy_value(&200u8, &mut number);
    assert_eq!(number, 200);
}
