//! Which failures of the file system reach the caller, and under which kind.

use vstd::prelude::*;

verus! {

/// What was being done to the file when the file system refused.
#[derive(Clone, Copy, Debug, PartialEq, Eq, Structural)]
pub enum Operation {
    /// Opening the file, creating it where it was missing.
    Create,
    /// Reading at the cursor.
    Read,
    /// Writing at the cursor, or flushing what was written.
    Write,
    /// Moving the cursor.
    Seek,
    /// Removing the file when its scope ends.
    Cleanup,
}

/// The kinds of failure that a caller can see.
#[derive(Clone, Copy, Debug, PartialEq, Eq, Structural)]
pub enum FailureKind {
    /// The file could not be opened or created.
    CreateFailed,
    /// A read failed.
    ReadFailed,
    /// A write or a flush failed.
    WriteFailed,
    /// The cursor could not be moved.
    SeekFailed,
}

/// A failure as the caller sees it: its kind, and the error number of the
/// operating system where there was one.
#[derive(Clone, Copy, Debug, PartialEq, Eq)]
pub struct Failure {
    /// The kind of the failure.
    pub kind: FailureKind,
    /// The operating system's error number, if it gave one.
    pub os_error: Option<i32>,
}

/// The failure that the caller sees when `operation` was refused with
/// `os_error`: none for a cleanup, whose failures are swallowed; for every
/// other operation the kind that belongs to it, carrying `os_error`.
pub open spec fn reported(operation: Operation, os_error: Option<i32>) -> Option<Failure> {
    match operation {
        Operation::Create => Some(Failure { kind: FailureKind::CreateFailed, os_error }),
        Operation::Read => Some(Failure { kind: FailureKind::ReadFailed, os_error }),
        Operation::Write => Some(Failure { kind: FailureKind::WriteFailed, os_error }),
        Operation::Seek => Some(Failure { kind: FailureKind::SeekFailed, os_error }),
        Operation::Cleanup => None,
    }
}

/// Decides what the caller sees of a refused `operation`.
pub fn report(operation: Operation, os_error: Option<i32>) -> (failure: Option<Failure>)
    ensures
        failure == reported(operation, os_error),
        failure.is_none() <==> operation == Operation::Cleanup,
{
    let kind = match operation {
        Operation::Create => FailureKind::CreateFailed,
        Operation::Read => FailureKind::ReadFailed,
        Operation::Write => FailureKind::WriteFailed,
        Operation::Seek => FailureKind::SeekFailed,
        Operation::Cleanup => {
            return None;
        },
    };
    Some(Failure { kind, os_error })
}

} // verus!
