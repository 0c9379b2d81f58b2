use std::time::Duration;
use suave::clipboard::{next_write_step, WriteKind, WriteStep, CLIPBOARD_LOCKFILE};

fn run_failures(kind: &WriteKind, max: usize) -> (usize, usize, WriteStep) {
    // returns (attempts made, sleeps, final step)
    let mut failures = 0usize;
    let mut sleeps = 0usize;
    let mut attempts = 0usize;
    loop {
        attempts += 1;
        let (n, step) = next_write_step(kind, failures, false);
        failures = n;
        match step {
            WriteStep::Retry => {}
            WriteStep::SleepThenRetry(_) => sleeps += 1,
            other => return (attempts, sleeps, other),
        }
        if attempts >= max {
            return (attempts, sleeps, step);
        }
    }
}

#[test]
fn lockfile_name() {
    assert_eq!(CLIPBOARD_LOCKFILE, "suave_clipboard");
}

#[test]
fn taken_lock_sets_text() {
    for kind in [WriteKind::Immediate, WriteKind::Guarantee, WriteKind::KeepTrying(3)] {
        let (n, step) = next_write_step(&kind, 0, true);
        assert_eq!(n, 0);
        assert!(matches!(step, WriteStep::SetText));
    }
}

#[test]
fn immediate_gives_up_at_first_failure() {
    let (attempts, sleeps, step) = run_failures(&WriteKind::Immediate, 100);
    assert_eq!(attempts, 1);
    assert_eq!(sleeps, 0);
    assert!(matches!(step, WriteStep::PassOnLockError));
}

#[test]
fn guarantee_keeps_trying() {
    let (attempts, _, step) = run_failures(&WriteKind::Guarantee, 1000);
    assert_eq!(attempts, 1000);
    assert!(matches!(step, WriteStep::Retry));
}

#[test]
fn keep_trying_makes_n_attempts() {
    let (attempts, sleeps, step) = run_failures(&WriteKind::KeepTrying(3), 100);
    assert_eq!(attempts, 3);
    assert_eq!(sleeps, 0);
    assert!(matches!(step, WriteStep::GiveUp));
    let (attempts, _, _) = run_failures(&WriteKind::KeepTrying(1), 100);
    assert_eq!(attempts, 1);
    let (attempts, _, _) = run_failures(&WriteKind::KeepTrying(0), 100);
    assert_eq!(attempts, 1);
}

#[test]
fn keep_trying_timeout_sleeps_between_attempts() {
    let t = Duration::from_millis(200);
    let (attempts, sleeps, step) = run_failures(&WriteKind::KeepTryingTimeout(3, t), 100);
    assert_eq!(attempts, 3);
    assert_eq!(sleeps, 2);
    assert!(matches!(step, WriteStep::GiveUp));
    let (n, step) = next_write_step(&WriteKind::KeepTryingTimeout(3, t), 0, false);
    assert_eq!(n, 1);
    match step {
        WriteStep::SleepThenRetry(d) => assert_eq!(d, t),
        _ => panic!("expected to sleep before the next attempt"),
    }
    let (attempts, sleeps, _) = run_failures(&WriteKind::KeepTryingTimeout(1, t), 100);
    assert_eq!(attempts, 1);
    assert_eq!(sleeps, 0);
}

#[test]
fn keep_trying_success_after_failures() {
    let kind = WriteKind::KeepTrying(5);
    let (n, _) = next_write_step(&kind, 0, false);
    let (n, _) = next_write_step(&kind, n, false);
    assert_eq!(n, 2);
    let (n, step) = next_write_step(&kind, n, true);
    assert_eq!(n, 2);
    assert!(matches!(step, WriteStep::SetText));
}
