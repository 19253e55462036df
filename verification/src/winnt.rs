//! Values of the Windows headers that a dump hands to the operating system.
use vstd::prelude::*;

verus! {

/// `FALSE`: the `BOOL` that stands for no, and for a call that failed.
pub const FALSE: i32 = 0;

/// `TRUE`: the `BOOL` that stands for yes.
pub const TRUE: i32 = 1;

/// The exception code of a dump that was asked for without one: the status
/// with the bits `0xc0000025`.
pub const STATUS_NONCONTINUABLE_EXCEPTION: i32 = -1073741787;

/// The right to suspend a thread and to resume it.
pub const THREAD_SUSPEND_RESUME: u32 = 0x0002;

/// The right to read a thread's context.
pub const THREAD_GET_CONTEXT: u32 = 0x0008;

/// The right to query a thread.
pub const THREAD_QUERY_INFORMATION: u32 = 0x0040;

/// Every right that a process handle can carry.
pub const PROCESS_ALL_ACCESS: u32 = 0x001f_ffff;

/// The flags that stand for the whole context of a thread on x86: control,
/// integer, segment, floating point, debug and extended registers.
pub const CONTEXT_ALL_X86: u32 = 0x0001_003f;

/// The flags that stand for the whole context of a thread on x86-64: control,
/// integer, segment, floating point and debug registers.
pub const CONTEXT_ALL_X86_64: u32 = 0x0010_001f;

/// The flags that stand for the whole context of a thread on AArch64: control,
/// integer, floating point and debug registers, and `x18`.
pub const CONTEXT_ALL_AARCH64: u32 = 0x0040_001f;

/// What `SuspendThread` returns when it fails.
pub const SUSPEND_FAILED: u32 = 0xffff_ffff;

/// A `HANDLE`, as the number that the operating system gave.
#[derive(Clone, Copy, Debug, PartialEq, Eq, Structural)]
pub struct Handle {
    pub value: usize,
}

impl Handle {
    /// Whether this is the null handle, which the calls that open something
    /// return when they fail.
    pub open spec fn spec_is_null(self) -> bool {
        self.value == 0
    }

    /// Whether this is the null handle.
    #[verifier::when_used_as_spec(spec_is_null)]
    pub fn is_null(self) -> (null: bool)
        ensures
            null == self.spec_is_null(),
            null <==> self.value == 0,
    {
        self.value == 0
    }
}

/// The 32 bits of a status code read as an unsigned number, which is how an
/// exception record stores it.
pub open spec fn status_bits(code: i32) -> u32 {
    if code >= 0 {
        code as u32
    } else {
        (code + 0x1_0000_0000) as u32
    }
}

/// The 32 bits of `code` read as an unsigned number.
pub fn record_code(code: i32) -> (bits: u32)
    ensures
        bits == status_bits(code),
        bits == if code >= 0 {
            code as int
        } else {
            code + 0x1_0000_0000
        },
{
    assert(code < 0 ==> code as u32 == code + 0x1_0000_0000) by (bit_vector);
    #[verifier::truncate]
    (code as u32)
}

} // verus!
