//! Why a dump was not written.
use vstd::prelude::*;

verus! {

/// Why a dump was not written. Each carries the error code that the operating
/// system reported: for the call that failed, but for [`Error::ThreadContext`],
/// where it is asked for after the thread has been resumed.
#[derive(Clone, Copy, Debug, PartialEq, Eq)]
pub enum Error {
    /// The thread whose context was asked for could not be opened.
    ThreadOpen(i32),
    /// The thread whose context was asked for could not be suspended.
    ThreadSuspend(i32),
    /// The context of the thread could not be read.
    ThreadContext(i32),
    /// The crashed process could not be opened, or the dump not be written.
    Io(i32),
}

/// The call that failed, before its error code is known.
#[derive(Clone, Copy, Debug, PartialEq, Eq)]
pub enum Failure {
    ThreadOpen,
    ThreadSuspend,
    ThreadContext,
    Io,
}

impl Failure {
    /// The error for this failure with the operating system's `code`.
    pub open spec fn error(self, code: i32) -> Error {
        match self {
            Failure::ThreadOpen => Error::ThreadOpen(code),
            Failure::ThreadSuspend => Error::ThreadSuspend(code),
            Failure::ThreadContext => Error::ThreadContext(code),
            Failure::Io => Error::Io(code),
        }
    }

    /// The error for this failure with the operating system's `code`.
    pub fn with_code(self, code: i32) -> (error: Error)
        ensures
            error == self.error(code),
            match self {
                Failure::ThreadOpen => error == Error::ThreadOpen(code),
                Failure::ThreadSuspend => error == Error::ThreadSuspend(code),
                Failure::ThreadContext => error == Error::ThreadContext(code),
                Failure::Io => error == Error::Io(code),
            },
    {
        match self {
            Failure::ThreadOpen => Error::ThreadOpen(code),
            Failure::ThreadSuspend => Error::ThreadSuspend(code),
            Failure::ThreadContext => Error::ThreadContext(code),
            Failure::Io => Error::Io(code),
        }
    }
}

} // verus!
