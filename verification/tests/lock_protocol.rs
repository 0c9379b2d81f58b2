use suave::error::{ErrorClass, SuaveError};
use suave::pipe::{
    is_locked_len, lock_arbitrary_plan, lock_file_path, pipe_file_path, require_lock_target,
    require_pipe_file, take_lock, temporary_directory, try_lock_plan, unlock_plan,
    windows_temporary_directory, write_gate,
    write_timeout_step, written_count, LockState, TimedWriteStep, WaitResult, FLAG_LOCKED,
    FLAG_UNLOCKED,
};

#[test]
fn lock_state_from_flags() {
    assert_eq!(LockState::from_const(77), LockState::Locked);
    assert_eq!(LockState::from_const(88), LockState::Unlocked);
    assert_eq!(LockState::from_const(0), LockState::NotALock);
    assert_eq!(LockState::from_const(78), LockState::NotALock);
    assert!(LockState::Locked.locked());
    assert!(!LockState::Unlocked.locked());
    assert!(!LockState::NotALock.locked());
}

#[test]
fn is_locked_matches_state() {
    for len in [0u64, 1, 76, 77, 78, 88, u64::MAX] {
        assert_eq!(is_locked_len(len), LockState::from_const(len).locked());
    }
}

#[test]
fn lock_then_second_lock_refused() {
    // a fresh lock file is set to FLAG_UNLOCKED
    let first = try_lock_plan(FLAG_UNLOCKED);
    assert_eq!(first, Some(FLAG_LOCKED));
    let len = first.unwrap();
    assert!(is_locked_len(len));
    assert_eq!(try_lock_plan(len), None);
    assert_eq!(take_lock(len), Err(SuaveError::AlreadyLocked));
}

#[test]
fn lock_then_unlock_round_trip() {
    let len = take_lock(FLAG_UNLOCKED).unwrap();
    assert!(is_locked_len(len));
    let after = unlock_plan(len).unwrap();
    assert_eq!(after, FLAG_UNLOCKED);
    assert!(!is_locked_len(after));
    assert_eq!(LockState::from_const(after), LockState::Unlocked);
    assert_eq!(try_lock_plan(after), Some(FLAG_LOCKED));
}

#[test]
fn lock_on_empty_file_is_taken() {
    // a file created by `LockFile::at` is empty: not a lock, but lockable
    assert_eq!(LockState::from_const(0), LockState::NotALock);
    assert_eq!(take_lock(0), Ok(FLAG_LOCKED));
}

#[test]
fn unlock_requires_locked_file() {
    assert_eq!(unlock_plan(FLAG_UNLOCKED), Err(SuaveError::NotLocked));
    assert_eq!(unlock_plan(0), Err(SuaveError::NotLocked));
    assert_eq!(unlock_plan(FLAG_LOCKED), Ok(FLAG_UNLOCKED));
}

#[test]
fn arbitrary_file_decisions() {
    assert_eq!(require_lock_target(false), Err(SuaveError::LockTargetMissing));
    assert_eq!(require_lock_target(true), Ok(()));
    assert_eq!(lock_arbitrary_plan(FLAG_LOCKED), Err(SuaveError::CurrentlyLocked));
    assert_eq!(lock_arbitrary_plan(1234), Ok(FLAG_LOCKED));
    assert_eq!(lock_arbitrary_plan(FLAG_UNLOCKED), Ok(FLAG_LOCKED));
}

#[test]
fn error_classes_and_messages() {
    assert_eq!(SuaveError::AlreadyLocked.message(), "The file is already locked.");
    assert_eq!(SuaveError::NotLocked.message(), "the file is not locked.");
    assert_eq!(
        SuaveError::LockTargetMissing.message(),
        "the specified file to lock does not exist."
    );
    assert_eq!(SuaveError::CurrentlyLocked.message(), "the lockfile is currently locked.");
    assert_eq!(SuaveError::PipeLocked.message(), "cannot write, the file is locked.");
    assert_eq!(SuaveError::PipeDeleted.message(), "named pipe has been deleted.");
    assert_eq!(SuaveError::MaxRetries.message(), "max retries reached.");
    assert_eq!(SuaveError::LockTargetMissing.class(), ErrorClass::NotFound);
    assert_eq!(SuaveError::PipeDeleted.class(), ErrorClass::NotFound);
    assert_eq!(SuaveError::CurrentlyLocked.class(), ErrorClass::WouldBlock);
    assert_eq!(SuaveError::AlreadyLocked.class(), ErrorClass::Other);
    assert_eq!(SuaveError::MaxRetries.class(), ErrorClass::Other);
}

#[test]
fn paths_in_temporary_directory() {
    let tmp = temporary_directory();
    assert_eq!(tmp, "/tmp/");
    assert_eq!(lock_file_path(&tmp, "shared_resource", false), "/tmp/shared_resource.lock");
    assert_eq!(pipe_file_path(&tmp, "shared", false), "/tmp/shared.pipe.v1");
    assert_eq!(lock_file_path("/var/run/", "x", false), "/var/run/x.lock");
}

#[test]
fn paths_get_a_separator_when_missing() {
    assert_eq!(lock_file_path("/var/run", "x", false), "/var/run/x.lock");
    assert_eq!(pipe_file_path("/tmp", "shared", false), "/tmp/shared.pipe.v1");
    assert_eq!(lock_file_path("", "x", false), "x.lock");
}

#[test]
fn unix_join_matches_std() {
    for (dir, name) in [
        ("a\\", "x"),
        ("/var/run", "x"),
        ("/var/run/", "x"),
        ("", "x"),
        ("dir", "/abs"),
        ("C:", "x"),
        ("a//", "b"),
    ] {
        let expected = std::path::Path::new(dir).join(format!("{}.lock", name));
        assert_eq!(lock_file_path(dir, name, false), expected.to_str().unwrap());
    }
    assert_eq!(lock_file_path("a\\", "x", false), "a\\/x.lock");
}

#[test]
fn windows_join_rules() {
    assert_eq!(lock_file_path("C:", "x", true), "C:x.lock");
    assert_eq!(lock_file_path("C:\\Temp\\", "x", true), "C:\\Temp\\x.lock");
    assert_eq!(lock_file_path("C:\\Temp", "x", true), "C:\\Temp\\x.lock");
    assert_eq!(lock_file_path("C:/Temp/", "x", true), "C:/Temp/x.lock");
    assert_eq!(lock_file_path("a\\", "x", true), "a\\x.lock");
    assert_eq!(lock_file_path("C:\\Temp", "D:y", true), "D:y.lock");
    assert_eq!(lock_file_path("C:\\Temp", "\\y", true), "C:\\y.lock");
    assert_eq!(lock_file_path("Temp", "/y", true), "/y.lock");
    assert_eq!(pipe_file_path("C:\\Users\\U\\AppData\\Local\\Temp\\", "s", true),
        "C:\\Users\\U\\AppData\\Local\\Temp\\s.pipe.v1");
}

#[test]
fn windows_temporary_directory_under_profile() {
    assert_eq!(
        windows_temporary_directory("C:\\Users\\UserName"),
        "C:\\Users\\UserName\\AppData\\Local\\Temp\\"
    );
}

#[test]
fn pipe_write_gate_and_count() {
    assert_eq!(write_gate(LockState::Locked), Err(SuaveError::PipeLocked));
    assert_eq!(write_gate(LockState::Unlocked), Ok(()));
    assert_eq!(write_gate(LockState::NotALock), Ok(()));
    assert_eq!(written_count(b"hello, world!"), 13);
    assert_eq!(written_count(b""), 0);
    assert_eq!(require_pipe_file(false), Err(SuaveError::PipeDeleted));
    assert_eq!(require_pipe_file(true), Ok(()));
}

#[test]
fn write_timeout_waits_once() {
    assert_eq!(write_timeout_step(false, LockState::Unlocked), TimedWriteStep::Write);
    assert_eq!(write_timeout_step(false, LockState::Locked), TimedWriteStep::WaitForDeadline);
    assert_eq!(write_timeout_step(true, LockState::Locked), TimedWriteStep::GiveUp);
    assert_eq!(write_timeout_step(true, LockState::NotALock), TimedWriteStep::Write);
    let r = WaitResult::Written { count: 3 };
    assert_ne!(r, WaitResult::TimeoutHit);
}
