use vstd::prelude::*;

use core::time::Duration;

verus! {

/// The name of the lock file that guards writes to the clipboard.
pub const CLIPBOARD_LOCKFILE: &'static str = "suave_clipboard";

/// What kind of clipboard write is occurring.
#[derive(Clone, Copy, Debug)]
pub enum WriteKind {
    /// Attempt to acquire the lock and give up after one attempt.
    Immediate,
    /// Do not stop trying.
    Guarantee,
    /// Give up after N attempts.
    KeepTrying(usize),
    /// Give up after N attempts, with a wait of X between each attempt.
    KeepTryingTimeout(usize, Duration),
}

/// What the clipboard writer does after an attempt to take the lock.
#[derive(Clone, Copy, Debug)]
pub enum WriteStep {
    /// The lock is held: set the clipboard's text.
    SetText,
    /// Give up and return the error of the failed lock attempt.
    PassOnLockError,
    /// Attempt to take the lock again.
    Retry,
    /// Sleep for the duration, then attempt to take the lock again.
    SleepThenRetry(Duration),
    /// Give up with `SuaveError::MaxRetries`.
    GiveUp,
}

impl WriteKind {
    /// Whether this kind counts failed attempts and gives up after a number of them.
    pub open spec fn counts_attempts(self) -> bool {
        self is KeepTrying || self is KeepTryingTimeout
    }

    /// The number of attempts that a counting kind is given.
    pub open spec fn attempt_limit(self) -> usize {
        match self {
            WriteKind::KeepTrying(n) => n,
            WriteKind::KeepTryingTimeout(n, _) => n,
            _ => 0,
        }
    }

    /// The number of failed attempts after which a counting kind gives up:
    /// its limit, but at least one (the first attempt is always made).
    pub open spec fn failures_to_give_up(self) -> int {
        if self.attempt_limit() == 0 {
            1
        } else {
            self.attempt_limit() as int
        }
    }

    /// The counts of failed attempts that the writer can be in between
    /// two attempts: zero, or, for a counting kind, fewer than its limit.
    pub open spec fn reachable_failures(self, failures: usize) -> bool {
        failures == 0 || (self.counts_attempts() && failures < self.attempt_limit())
    }
}

/// The step that `Clipboard::write` takes after an attempt to take the lock,
/// when `failures` earlier attempts have failed; returned with the new count.
pub open spec fn write_step_of(kind: WriteKind, failures: usize, lock_taken: bool) -> (usize, WriteStep) {
    if lock_taken {
        (failures, WriteStep::SetText)
    } else {
        match kind {
            WriteKind::Immediate => (failures, WriteStep::PassOnLockError),
            WriteKind::Guarantee => (failures, WriteStep::Retry),
            WriteKind::KeepTrying(count) => if failures + 1 >= count {
                ((failures + 1) as usize, WriteStep::GiveUp)
            } else {
                ((failures + 1) as usize, WriteStep::Retry)
            },
            WriteKind::KeepTryingTimeout(count, timeout) => if failures + 1 >= count {
                ((failures + 1) as usize, WriteStep::GiveUp)
            } else {
                ((failures + 1) as usize, WriteStep::SleepThenRetry(timeout))
            },
        }
    }
}

/// Whether a step ends the write without setting the text.
pub open spec fn gives_up(step: WriteStep) -> bool {
    step is PassOnLockError || step is GiveUp
}

/// The decision of `Clipboard::write` after an attempt to take the clipboard
/// lock: `failures` attempts have failed before this one, and `lock_taken`
/// tells how this one went. Returns the new count of failures and the step.
pub fn next_write_step(kind: &WriteKind, failures: usize, lock_taken: bool) -> (r: (usize, WriteStep))
    requires
        kind.reachable_failures(failures),
    ensures
        r == write_step_of(*kind, failures, lock_taken),
{
    if lock_taken {
        return (failures, WriteStep::SetText);
    }
    match kind {
        WriteKind::Immediate => (failures, WriteStep::PassOnLockError),
        WriteKind::Guarantee => (failures, WriteStep::Retry),
        WriteKind::KeepTrying(count) => {
            let ntimes = failures + 1;
            if ntimes >= *count {
                (ntimes, WriteStep::GiveUp)
            } else {
                (ntimes, WriteStep::Retry)
            }
        },
        WriteKind::KeepTryingTimeout(count, timeout) => {
            let ntimes = failures + 1;
            if ntimes >= *count {
                (ntimes, WriteStep::GiveUp)
            } else {
                (ntimes, WriteStep::SleepThenRetry(*timeout))
            }
        },
    }
}

/// The count of failures and the step after `k` attempts in a row have all
/// failed, starting from no failures (`k >= 1`).
pub open spec fn after_failed_attempts(kind: WriteKind, k: nat) -> (usize, WriteStep)
    decreases k,
{
    if k <= 1 {
        write_step_of(kind, 0, false)
    } else {
        write_step_of(kind, after_failed_attempts(kind, (k - 1) as nat).0, false)
    }
}

/// The text is set exactly after a lock attempt that took the lock: a
/// successful attempt always leads to setting the text, and a failed one
/// never does, whatever the kind and the earlier failures.
pub proof fn lemma_text_set_only_with_lock(kind: WriteKind, failures: usize, lock_taken: bool)
    ensures
        write_step_of(kind, failures, lock_taken).1 is SetText <==> lock_taken,
{
}

/// The writer only moves between reachable counts of failures: a failed
/// attempt from a reachable count either gives up or leads to a reachable count.
pub proof fn lemma_failed_attempt_stays_reachable(kind: WriteKind, failures: usize)
    requires
        kind.reachable_failures(failures),
    ensures
        !gives_up(write_step_of(kind, failures, false).1) ==> kind.reachable_failures(
            write_step_of(kind, failures, false).0,
        ),
{
}

/// `WriteKind::Guarantee` never gives up: after any number of failed attempts
/// it tries again, without counting.
pub proof fn lemma_guarantee_never_gives_up(failures: usize)
    ensures
        write_step_of(WriteKind::Guarantee, failures, false) == (failures, WriteStep::Retry),
{
}

/// `WriteKind::Immediate` makes one attempt: when it fails, the writer gives up
/// with the error of that attempt.
pub proof fn lemma_immediate_single_attempt()
    ensures
        write_step_of(WriteKind::Immediate, 0, false).1 is PassOnLockError,
{
}

/// `WriteKind::KeepTrying(n)` and `WriteKind::KeepTryingTimeout(n, _)` make
/// `n` attempts (at least one) when all of them fail: after each of the first
/// `k` failures the count is `k`, and the writer gives up exactly at the last
/// of them, without sleeping; the timed kind sleeps between two attempts (so
/// `n - 1` times), the other never does.
pub proof fn lemma_keep_trying_attempt_count(kind: WriteKind, k: nat)
    requires
        kind.counts_attempts(),
        1 <= k <= kind.failures_to_give_up(),
    ensures
        after_failed_attempts(kind, k).0 == k,
        gives_up(after_failed_attempts(kind, k).1) <==> k == kind.failures_to_give_up(),
        kind is KeepTrying ==> (after_failed_attempts(kind, k).1 is Retry
            || after_failed_attempts(kind, k).1 is GiveUp),
        kind is KeepTryingTimeout ==> (after_failed_attempts(kind, k).1 is SleepThenRetry
            || after_failed_attempts(kind, k).1 is GiveUp),
        after_failed_attempts(kind, k).1 is SleepThenRetry ==> k < kind.failures_to_give_up(),
    decreases k,
{
    if k > 1 {
        lemma_keep_trying_attempt_count(kind, (k - 1) as nat);
    }
}

} // verus!
