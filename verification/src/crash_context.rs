//! The description of a crash that a dump starts from.
use vstd::prelude::*;

verus! {

/// What is known of a crash.
#[derive(Clone, Copy, Debug, PartialEq, Eq)]
pub struct CrashContext {
    /// The address of the `EXCEPTION_POINTERS`, in the memory of the process
    /// that crashed; zero when there are none.
    pub exception_pointers: usize,
    /// The process that crashed.
    pub process_id: u32,
    /// The thread on which the exception occurred.
    pub thread_id: u32,
    /// The top level exception code.
    pub exception_code: i32,
}

} // verus!
