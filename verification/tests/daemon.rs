use znicz_tui::daemon::{lock_holder_pid, next_lock_move, stale_files, worth_asking, LockMove, LockWait};

#[test]
fn a_lock_names_its_holder_on_the_first_line() {
    assert_eq!(lock_holder_pid("999999999\n"), Some(999_999_999));
    assert_eq!(lock_holder_pid("  42  \nport = 1\n"), Some(42));
    assert_eq!(lock_holder_pid("+7\r\n"), Some(7));
}

#[test]
fn lock_without_pid_names_nobody() {
    assert_eq!(lock_holder_pid(""), None);
    assert_eq!(lock_holder_pid("\n12\n"), None);
    assert_eq!(lock_holder_pid("port = 1\ntoken = \"x\"\n"), None);
    assert_eq!(lock_holder_pid("4294967296"), None);
    assert_eq!(lock_holder_pid("4294967295"), Some(u32::MAX));
    assert_eq!(lock_holder_pid("-1"), None);
    assert_eq!(lock_holder_pid("+"), None);
}

#[test]
fn dead_lock_holder_files_are_cleared() {
    assert_eq!(stale_files(false, true, false, true, false), (true, true));
    assert_eq!(stale_files(false, true, true, true, false), (false, true), "a live holder keeps its lock");
    assert_eq!(stale_files(true, true, false, true, false), (false, false), "a listening player is left alone");
    assert!(!worth_asking(Some(0)));
    assert!(!worth_asking(None));
    assert!(worth_asking(Some(1234)));
}

#[test]
fn a_taken_lock_waits_for_a_live_holder_and_clears_a_dead_one() {
    assert_eq!(next_lock_move(LockWait::Found, true, false, false), LockMove::Yield);
    assert_eq!(next_lock_move(LockWait::Found, false, true, false), LockMove::Look(LockWait::Polling));
    assert_eq!(next_lock_move(LockWait::Found, false, false, false), LockMove::ClearAndRetry);
    assert_eq!(next_lock_move(LockWait::Polling, false, true, false), LockMove::Sleep);
    assert_eq!(next_lock_move(LockWait::Polling, true, false, false), LockMove::Yield);
    assert_eq!(next_lock_move(LockWait::Polling, false, false, false), LockMove::Look(LockWait::LastLook));
    assert_eq!(next_lock_move(LockWait::Polling, false, false, true), LockMove::Look(LockWait::LastLook));
    assert_eq!(next_lock_move(LockWait::LastLook, false, true, false), LockMove::Yield);
    assert_eq!(next_lock_move(LockWait::LastLook, false, false, false), LockMove::ClearAndRetry);
}
