use ruspiro_lock::protocol::{
    first, may_open_slot, settle, stored_by_attempt, stored_by_release, Settled,
};

#[test]
fn lock_starts_free_with_its_value_in_place() {
    let start = first(20u32);
    assert!(!start.held);
    assert_eq!(start.slot, Some(20));
}

#[test]
fn attempt_stores_a_set_flag_and_release_a_clear_one() {
    assert!(stored_by_attempt::<u32>());
    assert!(!stored_by_release::<u32>());
}

#[test]
fn slot_is_opened_only_after_a_clear_flag() {
    assert!(may_open_slot(false));
    assert!(!may_open_slot(true));
}

#[test]
fn clear_flag_over_a_filled_slot_is_granted_the_value() {
    assert!(matches!(settle(false, true, Some(20u32)), Settled::Granted(20)));
}

#[test]
fn set_flag_is_refused_whatever_the_slot() {
    assert!(matches!(settle(true, false, None::<u32>), Settled::Refused));
    assert!(matches!(settle(true, true, Some(20u32)), Settled::Refused));
    assert!(matches!(settle(true, true, None::<u32>), Settled::Refused));
    assert!(matches!(settle(true, false, Some(20u32)), Settled::Refused));
}

#[test]
fn clear_flag_over_an_empty_slot_gives_the_flag_back() {
    assert!(matches!(settle(false, true, None::<u32>), Settled::GiveBack));
}

#[test]
fn clear_flag_over_a_shut_slot_gives_the_flag_back() {
    assert!(matches!(settle(false, false, None::<u32>), Settled::GiveBack));
    assert!(matches!(settle(false, false, Some(20u32)), Settled::GiveBack));
}
