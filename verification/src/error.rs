use vstd::prelude::*;

verus! {

/// The class of an error, as the I/O layer reports it.
#[derive(Clone, Copy, Debug, PartialEq, Eq, Structural)]
pub enum ErrorClass {
    /// Any error without a more specific class.
    Other,
    /// A file that the operation needs does not exist.
    NotFound,
    /// The operation would have to wait for another holder of a lock.
    WouldBlock,
}

/// The errors that the library itself raises (as opposed to the errors that the
/// operating system reports, which the I/O layer passes on unchanged).
#[derive(Clone, Copy, Debug, PartialEq, Eq, Structural)]
pub enum SuaveError {
    /// A lock was requested on a lock file that is already locked.
    AlreadyLocked,
    /// An unlock was requested on a lock file that is not locked.
    NotLocked,
    /// The file to be turned into a lock does not exist.
    LockTargetMissing,
    /// The file to be locked is locked already.
    CurrentlyLocked,
    /// A write to a named pipe found its lock file locked.
    PipeLocked,
    /// The file behind a named pipe has been deleted.
    PipeDeleted,
    /// A clipboard write gave up after the allowed number of attempts.
    MaxRetries,
}

impl SuaveError {
    /// The class under which the error is reported.
    pub open spec fn class_of(self) -> ErrorClass {
        match self {
            SuaveError::LockTargetMissing => ErrorClass::NotFound,
            SuaveError::PipeDeleted => ErrorClass::NotFound,
            SuaveError::CurrentlyLocked => ErrorClass::WouldBlock,
            _ => ErrorClass::Other,
        }
    }

    /// The message that the error carries.
    pub open spec fn message_of(self) -> Seq<char> {
        match self {
            SuaveError::AlreadyLocked => "The file is already locked."@,
            SuaveError::NotLocked => "the file is not locked."@,
            SuaveError::LockTargetMissing => "the specified file to lock does not exist."@,
            SuaveError::CurrentlyLocked => "the lockfile is currently locked."@,
            SuaveError::PipeLocked => "cannot write, the file is locked."@,
            SuaveError::PipeDeleted => "named pipe has been deleted."@,
            SuaveError::MaxRetries => "max retries reached."@,
        }
    }

    /// The class under which the error is reported.
    pub fn class(&self) -> (c: ErrorClass)
        ensures
            c == self.class_of(),
    {
        match self {
            SuaveError::LockTargetMissing => ErrorClass::NotFound,
            SuaveError::PipeDeleted => ErrorClass::NotFound,
            SuaveError::CurrentlyLocked => ErrorClass::WouldBlock,
            _ => ErrorClass::Other,
        }
    }

    /// The message that the error carries.
    pub fn message(&self) -> (m: &'static str)
        ensures
            m@ == self.message_of(),
    {
        match self {
            SuaveError::AlreadyLocked => "The file is already locked.",
            SuaveError::NotLocked => "the file is not locked.",
            SuaveError::LockTargetMissing => "the specified file to lock does not exist.",
            SuaveError::CurrentlyLocked => "the lockfile is currently locked.",
            SuaveError::PipeLocked => "cannot write, the file is locked.",
            SuaveError::PipeDeleted => "named pipe has been deleted.",
            SuaveError::MaxRetries => "max retries reached.",
        }
    }
}

} // verus!
