use ruspiro_lock::DataLock;

#[test]
fn value_written_under_one_guard_is_seen_by_the_next() {
    let lock = DataLock::new(0u32);
    {
        let guard = lock.try_lock();
        assert!(guard.is_some());
        let mut guard = guard.unwrap();
        *guard = 20;
    }
    let guard = lock.try_lock();
    assert!(guard.is_some());
    assert_eq!(*guard.unwrap(), 20);
}

#[test]
fn second_attempt_fails_while_guard_lives() {
    let lock = DataLock::new(10u32);
    let first = lock.try_lock();
    assert!(first.is_some());
    assert!(lock.try_lock().is_none());
    drop(first);
    assert!(lock.try_lock().is_some());
}

#[test]
fn new_lock_is_free_and_holds_its_first_value() {
    let lock = DataLock::new(10u32);
    let guard = lock.try_lock();
    assert!(guard.is_some());
    assert_eq!(*guard.unwrap(), 10);
}

#[test]
fn each_cycle_sees_the_value_of_the_one_before() {
    let lock = DataLock::new(1u64);
    let mut expected: u64 = 1;
    for round in 0..50u64 {
        let mut guard = lock.try_lock().unwrap();
        assert_eq!(*guard, expected);
        *guard = round * 3 + 7;
        expected = round * 3 + 7;
    }
    assert_eq!(*lock.try_lock().unwrap(), 49 * 3 + 7);
}

#[test]
fn every_attempt_fails_for_the_whole_life_of_a_guard() {
    let lock = DataLock::new(5u8);
    let mut holder = lock.try_lock().unwrap();
    for _ in 0..100 {
        assert!(lock.try_lock().is_none());
    }
    *holder = 6;
    assert!(lock.try_lock().is_none());
    assert_eq!(*holder, 6);
    drop(holder);
    assert_eq!(*lock.try_lock().unwrap(), 6);
}

#[test]
fn failed_attempt_leaves_value_and_holder_untouched() {
    let lock = DataLock::new(vec![1u32, 2, 3]);
    let mut holder = lock.try_lock().unwrap();
    holder.push(4);
    assert!(lock.try_lock().is_none());
    holder.push(5);
    assert_eq!(*holder, vec![1, 2, 3, 4, 5]);
    drop(holder);
    assert_eq!(*lock.try_lock().unwrap(), vec![1, 2, 3, 4, 5]);
}

#[test]
fn of_two_attempts_in_a_row_only_the_first_wins() {
    let lock = DataLock::new(0i32);
    let first = lock.try_lock();
    let second = lock.try_lock();
    assert!(first.is_some());
    assert!(second.is_none());
}

#[test]
fn lock_is_free_again_after_each_release() {
    let lock = DataLock::new(String::from("a"));
    for _ in 0..10 {
        let guard = lock.try_lock();
        assert!(guard.is_some());
    }
}

fn leave_early(lock: &DataLock<u32>, early: bool) -> bool {
    let mut guard = match lock.try_lock() {
        Some(guard) => guard,
        None => return false,
    };
    if early {
        *guard = 1;
        return true;
    }
    *guard = 2;
    true
}

#[test]
fn early_return_releases_the_lock() {
    let lock = DataLock::new(0u32);
    assert!(leave_early(&lock, true));
    assert_eq!(*lock.try_lock().unwrap(), 1);
    assert!(leave_early(&lock, false));
    assert_eq!(*lock.try_lock().unwrap(), 2);
    let held = lock.try_lock().unwrap();
    assert!(!leave_early(&lock, true));
    assert_eq!(*held, 2);
}

#[test]
fn two_locks_do_not_share_a_flag() {
    let one = DataLock::new(1u32);
    let two = DataLock::new(2u32);
    let first = one.try_lock().unwrap();
    let second = two.try_lock().unwrap();
    assert_eq!(*first, 1);
    assert_eq!(*second, 2);
    assert!(one.try_lock().is_none());
    drop(first);
    assert!(one.try_lock().is_some());
    assert!(two.try_lock().is_none());
}

#[test]
fn write_through_guard_is_read_back_through_it() {
    let lock = DataLock::new((0u32, String::new()));
    let mut guard = lock.try_lock().unwrap();
    guard.0 = 9;
    guard.1.push_str("nine");
    assert_eq!(guard.0, 9);
    assert_eq!(guard.1, "nine");
}

#[test]
fn guarded_value_can_be_printed_through_the_guard() {
    let lock = DataLock::new(3u32);
    let guard = lock.try_lock().unwrap();
    assert_eq!(format!("{:?}", *guard), "3");
}

#[test]
fn retrying_caller_gets_the_lock_only_after_release() {
    let lock = DataLock::new(1u32);
    let mut holder = Some(lock.try_lock().unwrap());
    let mut failed: u32 = 0;
    let guard = loop {
        if let Some(guard) = lock.try_lock() {
            break guard;
        }
        assert!(holder.is_some());
        failed += 1;
        if failed == 5 {
            let mut leaving = holder.take().unwrap();
            *leaving = 77;
        }
    };
    assert!(holder.is_none());
    assert_eq!(failed, 5);
    assert_eq!(*guard, 77);
}
