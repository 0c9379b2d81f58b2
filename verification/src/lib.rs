//! Verified core of a small library for communication between local processes:
//! lock files whose state is carried by their length, named pipes guarded by
//! such a lock, a clipboard writer that retries to take the lock, message
//! queues and a JSON builder.
//!
//! The functions here decide what the I/O layer does; they take what the
//! operating system reported (a file length, whether a file exists, the outcome
//! of a lock attempt) and return what to do next.

pub mod error;
pub mod pipe;
pub mod clipboard;
pub mod message;
pub mod queue;
