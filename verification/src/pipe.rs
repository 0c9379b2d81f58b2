use vstd::prelude::*;
use vstd::string::*;

use crate::error::SuaveError;

verus! {

/// The exact size in bytes a file must be to have a state of `LockState::Locked`.
pub const FLAG_LOCKED: u64 = 77;

/// The exact size in bytes a file must be to have a state of `LockState::Unlocked`.
pub const FLAG_UNLOCKED: u64 = 88;

/// Which state a lockfile is in. This information is gathered by reading the
/// file's size and comparing it with the flags above.
#[derive(Clone, Copy, Debug, PartialEq, Eq, Structural)]
pub enum LockState {
    /// The lock is unlocked.
    Unlocked,
    /// The lock is locked.
    Locked,
    /// This is not a lockfile.
    NotALock,
}

/// The state that a lock file of length `len` is in.
pub open spec fn lock_state_of(len: u64) -> LockState {
    if len == FLAG_LOCKED {
        LockState::Locked
    } else if len == FLAG_UNLOCKED {
        LockState::Unlocked
    } else {
        LockState::NotALock
    }
}

impl LockState {
    /// Whether a state counts as locked.
    pub open spec fn is_locked_state(self) -> bool {
        self is Locked
    }

    /// Initialize the `LockState` from a file length. This works with the
    /// constants `FLAG_LOCKED` and `FLAG_UNLOCKED`; any other length is not a lock.
    pub fn from_const(constant: u64) -> (state: LockState)
        ensures
            state == lock_state_of(constant),
            state is Locked <==> constant == FLAG_LOCKED,
            state is Unlocked <==> constant == FLAG_UNLOCKED,
            state is NotALock <==> (constant != FLAG_LOCKED && constant != FLAG_UNLOCKED),
    {
        if constant == FLAG_LOCKED {
            LockState::Locked
        } else if constant == FLAG_UNLOCKED {
            LockState::Unlocked
        } else {
            LockState::NotALock
        }
    }

    /// Whether this state is `Locked`.
    pub fn locked(&self) -> (b: bool)
        ensures
            b == self.is_locked_state(),
    {
        match self {
            LockState::Locked => true,
            LockState::Unlocked => false,
            LockState::NotALock => false,
        }
    }
}

/// Whether a lock file of length `len` is locked.
pub open spec fn len_locked(len: u64) -> bool {
    len == FLAG_LOCKED
}

/// What `try_lock` does to a lock file of length `len`: the length the file has
/// afterwards, and whether the caller now holds the lock.
pub open spec fn try_lock_effect(len: u64) -> (u64, bool) {
    if len_locked(len) {
        (len, false)
    } else {
        (FLAG_LOCKED, true)
    }
}

/// What `unlock` does to a lock file of length `len`: the new length, or the
/// error when the file is not locked.
pub open spec fn unlock_effect(len: u64) -> Result<u64, SuaveError> {
    if len_locked(len) {
        Ok(FLAG_UNLOCKED)
    } else {
        Err(SuaveError::NotLocked)
    }
}

/// Whether a lock file whose length is `len` is locked (`LockFile::is_locked`).
pub fn is_locked_len(len: u64) -> (b: bool)
    ensures
        b == len_locked(len),
        b <==> len == FLAG_LOCKED,
{
    len == FLAG_LOCKED
}

/// The decision of `LockFile::try_lock` for a lock file of length `len`:
/// `None` leaves the file alone and reports that it is already locked;
/// `Some(n)` sets the file's length to `n`, after which the caller holds the lock.
pub fn try_lock_plan(len: u64) -> (plan: Option<u64>)
    ensures
        plan == (if len_locked(len) {
            None::<u64>
        } else {
            Some(try_lock_effect(len).0)
        }),
        plan is Some <==> try_lock_effect(len).1,
        plan is None <==> len == FLAG_LOCKED,
        plan is Some ==> plan->0 == FLAG_LOCKED,
{
    if len == FLAG_LOCKED {
        None
    } else {
        Some(FLAG_LOCKED)
    }
}

/// What `Lock::new` does to a lock file of length `len`: the length the file
/// then has while the lock is held, or the error when it is already locked.
pub open spec fn take_lock_effect(len: u64) -> Result<u64, SuaveError> {
    if len_locked(len) {
        Err(SuaveError::AlreadyLocked)
    } else {
        Ok(FLAG_LOCKED)
    }
}

/// The decision of `Lock::new`: taking the lock of a file of length `len`
/// either fails because it is locked, or sets the length to the returned value.
pub fn take_lock(len: u64) -> (r: Result<u64, SuaveError>)
    ensures
        r == take_lock_effect(len),
        r is Err <==> len == FLAG_LOCKED,
        r is Err ==> r->Err_0 == SuaveError::AlreadyLocked,
        r is Ok ==> r->Ok_0 == FLAG_LOCKED,
{
    match try_lock_plan(len) {
        None => Err(SuaveError::AlreadyLocked),
        Some(new_len) => Ok(new_len),
    }
}

/// The decision of `LockFile::unlock` for a lock file of length `len`: the
/// length to set, or `NotLocked` when the file is not locked.
pub fn unlock_plan(len: u64) -> (r: Result<u64, SuaveError>)
    ensures
        r == unlock_effect(len),
        r is Ok <==> len == FLAG_LOCKED,
        r is Ok ==> r->Ok_0 == FLAG_UNLOCKED,
        r is Err ==> r->Err_0 == SuaveError::NotLocked,
{
    if len != FLAG_LOCKED {
        Err(SuaveError::NotLocked)
    } else {
        Ok(FLAG_UNLOCKED)
    }
}

/// The first check of `LockFile::lock_arbitrary_file` and
/// `LockFile::unlock_arbitrary_file`: the target must exist.
pub fn require_lock_target(exists: bool) -> (r: Result<(), SuaveError>)
    ensures
        r == (if exists {
            Ok::<(), SuaveError>(())
        } else {
            Err(SuaveError::LockTargetMissing)
        }),
{
    if !exists {
        Err(SuaveError::LockTargetMissing)
    } else {
        Ok(())
    }
}

/// The decision of `LockFile::lock_arbitrary_file` for an existing file of
/// length `len`: the length to set, or `CurrentlyLocked` when it is locked.
pub fn lock_arbitrary_plan(len: u64) -> (r: Result<u64, SuaveError>)
    ensures
        r is Err <==> len == FLAG_LOCKED,
        r is Err ==> r->Err_0 == SuaveError::CurrentlyLocked,
        r is Ok ==> r->Ok_0 == FLAG_LOCKED,
        r == (if len_locked(len) {
            Err::<u64, SuaveError>(SuaveError::CurrentlyLocked)
        } else {
            Ok(FLAG_LOCKED)
        }),
{
    if len == FLAG_LOCKED {
        Err(SuaveError::CurrentlyLocked)
    } else {
        Ok(FLAG_LOCKED)
    }
}

/// A lock file that `LockFile::temp` has just set up (its length set to
/// `FLAG_UNLOCKED`) is not locked, its state is `Unlocked`, and its lock can
/// be taken.
pub proof fn lemma_fresh_lock_file_unlocked()
    ensures
        !len_locked(FLAG_UNLOCKED),
        lock_state_of(FLAG_UNLOCKED) == LockState::Unlocked,
        try_lock_effect(FLAG_UNLOCKED) == (FLAG_LOCKED, true),
        take_lock_effect(FLAG_UNLOCKED) == Ok::<u64, SuaveError>(FLAG_LOCKED),
{
}

/// Whatever `try_lock` reports, the lock file is locked afterwards.
pub proof fn lemma_try_lock_leaves_locked(len: u64)
    ensures
        len_locked(try_lock_effect(len).0),
        lock_state_of(try_lock_effect(len).0) == LockState::Locked,
{
}

/// A lock cannot be taken twice: once `try_lock` has taken it, a second
/// `try_lock` reports it taken and leaves the file as it is, and `Lock::new`
/// fails with `AlreadyLocked`.
pub proof fn lemma_second_lock_refused(len: u64)
    requires
        try_lock_effect(len).1,
    ensures
        !try_lock_effect(try_lock_effect(len).0).1,
        try_lock_effect(try_lock_effect(len).0).0 == try_lock_effect(len).0,
        take_lock_effect(try_lock_effect(len).0) == Err::<u64, SuaveError>(SuaveError::AlreadyLocked),
{
}

/// Unlocking undoes a lock: after `try_lock` has taken the lock, `unlock`
/// succeeds, the file is then `Unlocked` and not locked, and the lock can be
/// taken again.
pub proof fn lemma_unlock_after_lock(len: u64)
    requires
        try_lock_effect(len).1,
    ensures
        unlock_effect(try_lock_effect(len).0) == Ok::<u64, SuaveError>(FLAG_UNLOCKED),
        lock_state_of(FLAG_UNLOCKED) == LockState::Unlocked,
        !len_locked(FLAG_UNLOCKED),
        try_lock_effect(FLAG_UNLOCKED).1,
{
}

/// `unlock` succeeds exactly on a locked file, and then leaves it unlocked.
pub proof fn lemma_unlock_only_when_locked(len: u64)
    ensures
        unlock_effect(len) is Ok <==> len_locked(len),
        unlock_effect(len) is Ok ==> !len_locked(unlock_effect(len)->Ok_0),
{
}

/// `LockFile::is_locked` and `LockFile::state().locked()` agree on every length.
pub proof fn lemma_state_agrees_with_is_locked(len: u64)
    ensures
        lock_state_of(len).is_locked_state() == len_locked(len),
{
}

/// Writing to a named pipe whose lock is not locked takes the lock; when the
/// lock is dropped, its length is `FLAG_UNLOCKED` again, its state is
/// `Unlocked`, and the next write is allowed.
pub proof fn lemma_pipe_write_cycle(len: u64)
    requires
        !lock_state_of(len).is_locked_state(),
    ensures
        take_lock_effect(len) == Ok::<u64, SuaveError>(FLAG_LOCKED),
        lock_state_of(FLAG_LOCKED).is_locked_state(),
        lock_state_of(FLAG_UNLOCKED) == LockState::Unlocked,
        !lock_state_of(FLAG_UNLOCKED).is_locked_state(),
{
}

/// The temporary directory on platforms other than Windows, with a trailing
/// separator.
pub fn temporary_directory() -> (dir: String)
    ensures
        dir@ == "/tmp/"@,
{
    String::from_str("/tmp/")
}

/// The temporary directory on Windows for the user profile directory
/// `user_profile` (the value of `USERPROFILE`): the profile, then
/// `\AppData\Local\Temp\`, ending with a separator.
pub fn windows_temporary_directory(user_profile: &str) -> (dir: String)
    ensures
        dir@ == user_profile@ + "\\AppData\\Local\\Temp\\"@,
{
    let mut dir = String::from_str(user_profile);
    dir.append("\\AppData\\Local\\Temp\\");
    dir
}

/// Whether `c` separates the parts of a path: `/` everywhere, and `\` too
/// on Windows.
pub open spec fn is_path_separator(windows: bool, c: char) -> bool {
    c == '/' || (windows && c == '\\')
}

/// Whether `c` is an ASCII letter.
pub open spec fn is_ascii_letter(c: char) -> bool {
    ('a' <= c && c <= 'z') || ('A' <= c && c <= 'Z')
}

/// Whether `s` starts with a Windows drive prefix such as `C:`.
pub open spec fn has_drive_prefix(s: Seq<char>) -> bool {
    s.len() >= 2 && is_ascii_letter(s[0]) && s[1] == ':'
}

/// Whether `s` starts with `\\`, as Windows UNC, device and verbatim paths do.
pub open spec fn starts_with_double_backslash(s: Seq<char>) -> bool {
    s.len() >= 2 && s[0] == '\\' && s[1] == '\\'
}

/// Whether `s` starts with a separator (has a root).
pub open spec fn has_root(windows: bool, s: Seq<char>) -> bool {
    s.len() > 0 && is_path_separator(windows, s[0])
}

/// Whether joining `file` onto any directory gives `file` itself: on Unix
/// when `file` is absolute; on Windows when it has a prefix (a drive such as
/// `C:`, or a path starting with `\\`).
pub open spec fn replaces_dir(windows: bool, file: Seq<char>) -> bool {
    if windows {
        has_drive_prefix(file) || starts_with_double_backslash(file)
    } else {
        has_root(false, file)
    }
}

/// Whether a separator goes between `dir` and a relative file name: when
/// `dir` is not empty, does not end with a separator, and is not a bare
/// Windows drive such as `C:`.
pub open spec fn needs_separator(windows: bool, dir: Seq<char>) -> bool {
    dir.len() > 0 && !is_path_separator(windows, dir.last()) && !(windows && dir.len() == 2
        && has_drive_prefix(dir))
}

/// The drive prefix of `dir` (such as `C:`), or nothing.
pub open spec fn drive_of(dir: Seq<char>) -> Seq<char> {
    if has_drive_prefix(dir) {
        dir.subrange(0, 2)
    } else {
        Seq::empty()
    }
}

/// The path of `file` joined onto directory `dir`, as `Path::join` builds it
/// on Unix (`windows` false) or on Windows (`windows` true, for a `dir` that
/// does not start with `\\`):
/// - a `file` that replaces the directory (see `replaces_dir`) is the result;
/// - on Windows, a `file` with a root but no prefix keeps only the drive of `dir`;
/// - otherwise `dir`, a separator where one is needed (`/` on Unix, `\` on
///   Windows), then `file`.
pub open spec fn path_join(windows: bool, dir: Seq<char>, file: Seq<char>) -> Seq<char> {
    if replaces_dir(windows, file) {
        file
    } else if windows && has_root(true, file) {
        drive_of(dir) + file
    } else if needs_separator(windows, dir) {
        dir + seq![if windows { '\\' } else { '/' }] + file
    } else {
        dir + file
    }
}

/// Whether `c` separates the parts of a path (see `is_path_separator`).
fn is_separator_char(windows: bool, c: char) -> (b: bool)
    ensures
        b == is_path_separator(windows, c),
{
    c == '/' || (windows && c == '\\')
}

/// Whether `s` starts with a Windows drive prefix (see `has_drive_prefix`).
fn starts_with_drive(s: &str) -> (b: bool)
    ensures
        b == has_drive_prefix(s@),
{
    let n = s.unicode_len();
    if n < 2 {
        return false;
    }
    let c = s.get_char(0);
    (('a' <= c && c <= 'z') || ('A' <= c && c <= 'Z')) && s.get_char(1) == ':'
}

/// The path of `file` inside directory `dir` (see `path_join`).
fn join_path(dir: &str, file: &str, windows: bool) -> (path: String)
    requires
        windows ==> !starts_with_double_backslash(dir@),
    ensures
        path@ == path_join(windows, dir@, file@),
{
    let nd = dir.unicode_len();
    let nf = file.unicode_len();
    let replaces = if windows {
        starts_with_drive(file) || (nf >= 2 && file.get_char(0) == '\\' && file.get_char(1)
            == '\\')
    } else {
        nf >= 1 && file.get_char(0) == '/'
    };
    if replaces {
        return String::from_str(file);
    }
    if windows && nf >= 1 && is_separator_char(true, file.get_char(0)) {
        let mut out = if starts_with_drive(dir) {
            String::from_str(dir.substring_char(0, 2))
        } else {
            String::new()
        };
        out.append(file);
        proof {
            assert(out@ =~= drive_of(dir@) + file@);
        }
        return out;
    }
    let needs = nd > 0 && !is_separator_char(windows, dir.get_char(nd - 1)) && !(windows && nd
        == 2 && starts_with_drive(dir));
    let mut out = String::from_str(dir);
    if needs {
        if windows {
            out.append("\\");
            proof {
                reveal_strlit("\\");
            }
        } else {
            out.append("/");
            proof {
                reveal_strlit("/");
            }
        }
    }
    out.append(file);
    proof {
        if needs {
            assert(out@ =~= dir@ + seq![if windows { '\\' } else { '/' }] + file@);
        } else {
            assert(out@ =~= dir@ + file@);
        }
    }
    out
}

/// The path of the lock file called `name` inside directory `dir`: the file
/// `name` followed by `.lock`, joined onto `dir` as `Path::join` does on the
/// platform given by `windows` (see `path_join`).
pub fn lock_file_path(dir: &str, name: &str, windows: bool) -> (path: String)
    requires
        windows ==> !starts_with_double_backslash(dir@),
    ensures
        path@ == path_join(windows, dir@, name@ + ".lock"@),
{
    let mut file = String::from_str(name);
    file.append(".lock");
    join_path(dir, file.as_str(), windows)
}

/// The path of the file behind the named pipe `identifier` inside directory
/// `dir`: `identifier` followed by `.pipe.v1`, joined onto `dir` as
/// `Path::join` does on the platform given by `windows` (see `path_join`).
pub fn pipe_file_path(dir: &str, identifier: &str, windows: bool) -> (path: String)
    requires
        windows ==> !starts_with_double_backslash(dir@),
    ensures
        path@ == path_join(windows, dir@, identifier@ + ".pipe.v1"@),
{
    let mut file = String::from_str(identifier);
    file.append(".pipe.v1");
    join_path(dir, file.as_str(), windows)
}

/// A relative file name (one that neither replaces the directory nor, on
/// Windows, has a root) lies inside a non-empty directory: its joined path
/// starts with the directory and ends with the name, with at most one
/// separator between them, and a separator there wherever one is needed.
pub proof fn lemma_relative_file_inside_dir(windows: bool, dir: Seq<char>, file: Seq<char>)
    requires
        dir.len() > 0,
        !replaces_dir(windows, file),
        !(windows && has_root(true, file)),
    ensures
        path_join(windows, dir, file).subrange(0, dir.len() as int) == dir,
        path_join(windows, dir, file).len() == dir.len() + file.len() + (if needs_separator(
            windows,
            dir,
        ) {
            1int
        } else {
            0int
        }),
        path_join(windows, dir, file).subrange(
            path_join(windows, dir, file).len() - file.len(),
            path_join(windows, dir, file).len() as int,
        ) == file,
        needs_separator(windows, dir) ==> is_path_separator(
            windows,
            path_join(windows, dir, file)[dir.len() as int],
        ),
{
    let j = path_join(windows, dir, file);
    assert(j.subrange(0, dir.len() as int) =~= dir);
    assert(j.subrange(j.len() - file.len(), j.len() as int) =~= file);
}

/// The first check of `NamedPipe::write`: a pipe whose lock file is in state
/// `state` may be written only when that state is not `Locked`.
pub fn write_gate(state: LockState) -> (r: Result<(), SuaveError>)
    ensures
        r == (if state.is_locked_state() {
            Err::<(), SuaveError>(SuaveError::PipeLocked)
        } else {
            Ok(())
        }),
{
    if state.locked() {
        Err(SuaveError::PipeLocked)
    } else {
        Ok(())
    }
}

/// The check of `NamedPipe::read_to_string`: the file behind the pipe must
/// still exist.
pub fn require_pipe_file(exists: bool) -> (r: Result<(), SuaveError>)
    ensures
        r == (if exists {
            Ok::<(), SuaveError>(())
        } else {
            Err(SuaveError::PipeDeleted)
        }),
{
    if !exists {
        Err(SuaveError::PipeDeleted)
    } else {
        Ok(())
    }
}

/// The number of bytes that `NamedPipe::write` reports for `data`.
pub fn written_count(data: &[u8]) -> (count: u64)
    ensures
        count == data@.len(),
{
    data.len() as u64
}

/// The result of a `write` function that was given a timeout.
#[derive(Clone, Copy, Debug, PartialEq, Eq, Structural)]
pub enum WaitResult {
    /// The operation completed.
    Written { count: u64 },
    /// The operation did not complete and the timeout was exceeded.
    TimeoutHit,
}

/// What `NamedPipe::write_timeout` does next.
#[derive(Clone, Copy, Debug, PartialEq, Eq, Structural)]
pub enum TimedWriteStep {
    /// Write the data (through `NamedPipe::write`).
    Write,
    /// Sleep until the deadline, then look at the lock again.
    WaitForDeadline,
    /// Give up and report `WaitResult::TimeoutHit`.
    GiveUp,
}

/// The decision of `NamedPipe::write_timeout` after it has looked at the state
/// of the pipe's lock; `waited` tells whether it has slept until the deadline.
pub fn write_timeout_step(waited: bool, state: LockState) -> (step: TimedWriteStep)
    ensures
        !state.is_locked_state() ==> step == TimedWriteStep::Write,
        state.is_locked_state() && !waited ==> step == TimedWriteStep::WaitForDeadline,
        state.is_locked_state() && waited ==> step == TimedWriteStep::GiveUp,
{
    if !state.locked() {
        TimedWriteStep::Write
    } else if !waited {
        TimedWriteStep::WaitForDeadline
    } else {
        TimedWriteStep::GiveUp
    }
}

/// The smaller of two integers.
pub open spec fn min_int(a: int, b: int) -> int {
    if a <= b {
        a
    } else {
        b
    }
}

/// What `NamedPipe::read_all` leaves in a buffer that held `old` after it read
/// `data`: position `i` below `count` takes the `i`-th character of `data`
/// (cut to a byte) when there is one; every other position keeps its byte.
pub open spec fn filled_buffer(data: Seq<char>, old: Seq<u8>, count: int) -> Seq<u8> {
    Seq::new(
        old.len(),
        |i: int|
            if i < count && i < data.len() {
                data[i] as u8
            } else {
                old[i]
            },
    )
}

/// The core of `NamedPipe::read_all`: copy what of `data` fits into `buffer`,
/// never past its end. The count is the smaller of the byte length of `data`
/// and the length of the buffer; position `i` below the count receives the
/// `i`-th character of `data`, cut to a byte, where `data` has one.
pub fn fill_buffer(data: &str, buffer: &mut [u8]) -> (count: u64)
    ensures
        count == min_int(data.len() as int, old(buffer)@.len() as int),
        final(buffer)@ == filled_buffer(data@, old(buffer)@, count as int),
        count <= old(buffer)@.len(),
        final(buffer)@.len() == old(buffer)@.len(),
        forall|i: int|
            0 <= i < count && i < data@.len() ==> #[trigger] final(buffer)@[i] == data@[i] as u8,
        forall|i: int|
            0 <= i < old(buffer)@.len() && !(i < count && i < data@.len())
                ==> #[trigger] final(buffer)@[i] == old(buffer)@[i],
{
    let byte_count = data.len();
    let buf_len = buffer.len();
    let count: usize = if byte_count < buf_len {
        byte_count
    } else {
        buf_len
    };
    let char_count = data.unicode_len();
    let mut pos: usize = 0;
    while pos < count
        invariant
            count <= buf_len,
            buf_len == old(buffer)@.len(),
            char_count == data@.len(),
            pos <= count,
            buffer@.len() == buf_len,
            forall|i: int|
                0 <= i < buf_len ==> #[trigger] buffer@[i] == (if i < pos && i < data@.len() {
                    data@[i] as u8
                } else {
                    old(buffer)@[i]
                }),
        decreases count - pos,
    {
        if pos < char_count {
            let ch = data.get_char(pos);
            buffer[pos] = #[verifier::truncate] (ch as u8);
        }
        pos = pos + 1;
    }
    assert(buffer@ =~= filled_buffer(data@, old(buffer)@, count as int));
    count as u64
}

/// A lock file's state is read from its length alone: it is `Locked`
/// exactly at length `FLAG_LOCKED` (77), `Unlocked` exactly at length
/// `FLAG_UNLOCKED` (88), and not a lock at every other length; a lock file is
/// locked exactly when its length is `FLAG_LOCKED`.
pub proof fn lemma_lock_state_by_length(len: u64)
    ensures
        FLAG_LOCKED == 77 && FLAG_UNLOCKED == 88,
        lock_state_of(len) == LockState::Locked <==> len == 77,
        lock_state_of(len) == LockState::Unlocked <==> len == 88,
        lock_state_of(len) == LockState::NotALock <==> (len != 77 && len != 88),
        len_locked(len) <==> len == 77,
        lock_state_of(len).is_locked_state() <==> len == 77,
{
}

/// Taking, unlocking and turning a file into a lock decide on the length
/// alone, and refuse only at the locked length: `try_lock` declines and
/// `Lock::new` and `lock_arbitrary_file` fail exactly when the length is
/// `FLAG_LOCKED`, and otherwise set it to `FLAG_LOCKED`; `unlock` succeeds
/// exactly at that length and sets `FLAG_UNLOCKED`.
pub proof fn lemma_lock_decisions_by_length(len: u64)
    ensures
        !try_lock_effect(len).1 <==> len == 77,
        try_lock_effect(len).0 == 77,
        take_lock_effect(len) is Err <==> len == 77,
        take_lock_effect(len) is Ok ==> take_lock_effect(len)->Ok_0 == 77,
        unlock_effect(len) is Ok <==> len == 77,
        unlock_effect(len) is Ok ==> unlock_effect(len)->Ok_0 == 88,
{
}

/// Copying into a buffer of length `old.len()` up to `count` (at most that
/// length) keeps the length; every position below `count` where `data` has a
/// character receives that character cut to a byte, whatever the character;
/// every other position keeps its old byte.
pub proof fn lemma_filled_buffer_copies(data: Seq<char>, old: Seq<u8>, count: int)
    requires
        0 <= count <= old.len(),
    ensures
        filled_buffer(data, old, count).len() == old.len(),
        forall|i: int|
            0 <= i < count && i < data.len() ==> #[trigger] filled_buffer(data, old, count)[i]
                == data[i] as u8,
        forall|i: int|
            0 <= i < old.len() && !(i < count && i < data.len()) ==> #[trigger] filled_buffer(
                data,
                old,
                count,
            )[i] == old[i],
        forall|i: int|
            0 <= i < count && i < data.len() && data[i] == '\n' ==> #[trigger] filled_buffer(
                data,
                old,
                count,
            )[i] == 10,
{
}

/// The core of `NamedPipe::read_buf`: every character of `data`, cut to a byte,
/// is pushed onto `buffer`; the count reported is the byte length of `data`.
pub fn append_chars(data: &str, buffer: &mut Vec<u8>) -> (count: u64)
    ensures
        final(buffer)@ == old(buffer)@ + data@.map_values(|c: char| c as u8),
        count == data.len(),
{
    let char_count = data.unicode_len();
    let mut pos: usize = 0;
    while pos < char_count
        invariant
            char_count == data@.len(),
            pos <= char_count,
            buffer@ == old(buffer)@ + data@.subrange(0, pos as int).map_values(|c: char| c as u8),
        decreases char_count - pos,
    {
        let ch = data.get_char(pos);
        buffer.push(#[verifier::truncate] (ch as u8));
        proof {
            assert(data@.subrange(0, pos + 1) =~= data@.subrange(0, pos as int).push(ch));
        }
        pos = pos + 1;
        proof {
            assert(buffer@ =~= old(buffer)@ + data@.subrange(0, pos as int).map_values(|c: char| c as u8));
        }
    }
    assert(data@.subrange(0, char_count as int) =~= data@);
    data.len() as u64
}

} // verus!
