//! What a dump and the operating system say to each other: a dump asks for one
//! call at a time and is told what the call returned.
use vstd::array::spec_array_fill_for_copy_type;
use vstd::prelude::*;

use crate::breakpad::{breakpad_stream_type, BreakpadInfo};
use crate::dump_type::MINIDUMP_TYPE;
use crate::winnt::{
    Handle, CONTEXT_ALL_AARCH64, CONTEXT_ALL_X86, CONTEXT_ALL_X86_64,
};

verus! {

/// Where `MiniDumpWriteDump` finds the exception, as a
/// `MINIDUMP_EXCEPTION_INFORMATION`.
#[derive(Clone, Copy, Debug, PartialEq, Eq)]
pub struct ExceptionInformation {
    /// The thread on which the exception occurred.
    pub thread_id: u32,
    /// The address of the `EXCEPTION_POINTERS`.
    pub exception_pointers: usize,
    /// The `BOOL` that says whether that address is one of the dumped process,
    /// rather than of the process that calls.
    pub client_pointers: i32,
}

/// Which part of a thread's context is to be read: the `ContextFlags`, which
/// each architecture numbers in its own way. The ones of the machine count.
#[derive(Clone, Copy, Debug, PartialEq, Eq)]
pub struct ContextFlags {
    pub x86: u32,
    pub x86_64: u32,
    pub aarch64: u32,
}

impl ContextFlags {
    /// The whole context, on every architecture.
    pub open spec fn whole() -> ContextFlags {
        ContextFlags {
            x86: CONTEXT_ALL_X86,
            x86_64: CONTEXT_ALL_X86_64,
            aarch64: CONTEXT_ALL_AARCH64,
        }
    }

    /// The whole context, on every architecture.
    pub fn all() -> (flags: ContextFlags)
        ensures
            flags == ContextFlags::whole(),
            flags.x86 == 0x1_003f,
            flags.x86_64 == 0x10_001f,
            flags.aarch64 == 0x40_001f,
    {
        ContextFlags {
            x86: CONTEXT_ALL_X86,
            x86_64: CONTEXT_ALL_X86_64,
            aarch64: CONTEXT_ALL_AARCH64,
        }
    }
}

/// The exception that a dump of the own process is about, as an
/// `EXCEPTION_RECORD`. Addresses are numbers, and zero is null.
#[derive(Clone, Copy, Debug, PartialEq, Eq)]
pub struct ExceptionRecord {
    pub exception_code: u32,
    pub exception_flags: u32,
    /// The address of a nested record.
    pub exception_record: usize,
    pub exception_address: usize,
    pub number_parameters: u32,
    pub exception_information: [usize; 15],
}

impl ExceptionRecord {
    /// Whether the record has this code and is zero everywhere else.
    pub open spec fn is_code_only(self, exception_code: u32) -> bool {
        &&& self.exception_code == exception_code
        &&& self.exception_flags == 0
        &&& self.exception_record == 0
        &&& self.exception_address == 0
        &&& self.number_parameters == 0
        &&& forall|i: int| 0 <= i < 15 ==> #[trigger] self.exception_information[i] == 0
    }

    /// The record with this code that is zero everywhere else.
    pub open spec fn code_only(exception_code: u32) -> ExceptionRecord {
        ExceptionRecord {
            exception_code,
            exception_flags: 0,
            exception_record: 0,
            exception_address: 0,
            number_parameters: 0,
            exception_information: spec_array_fill_for_copy_type::<usize, 15>(0),
        }
    }

    /// The record with this code that is zero everywhere else.
    pub fn of_code(exception_code: u32) -> (record: ExceptionRecord)
        ensures
            record == ExceptionRecord::code_only(exception_code),
            record.is_code_only(exception_code),
            record.exception_code == exception_code,
            record.exception_flags == 0,
            record.exception_record == 0,
            record.exception_address == 0,
            record.number_parameters == 0,
            forall|i: int| 0 <= i < 15 ==> #[trigger] record.exception_information[i] == 0,
    {
        ExceptionRecord {
            exception_code,
            exception_flags: 0,
            exception_record: 0,
            exception_address: 0,
            number_parameters: 0,
            exception_information: [0usize; 15],
        }
    }
}

/// A stream that `MiniDumpWriteDump` adds to the minidump, as a
/// `MINIDUMP_USER_STREAM` with its buffer.
#[derive(Debug, PartialEq, Eq)]
pub struct UserStream {
    pub stream_type: u32,
    pub buffer_size: u32,
    pub buffer: [u8; 12],
}

/// A [`UserStream`] with its buffer as a sequence.
#[verifier::ext_equal]
pub struct UserStreamView {
    pub stream_type: u32,
    pub buffer_size: u32,
    pub buffer: Seq<u8>,
}

impl View for UserStream {
    type V = UserStreamView;

    open spec fn view(&self) -> UserStreamView {
        UserStreamView {
            stream_type: self.stream_type,
            buffer_size: self.buffer_size,
            buffer: self.buffer@,
        }
    }
}

impl UserStreamView {
    /// The stream that holds `info`.
    pub open spec fn breakpad(info: BreakpadInfo, little_endian: bool) -> UserStreamView {
        UserStreamView {
            stream_type: breakpad_stream_type(),
            buffer_size: 12,
            buffer: info.bytes(little_endian),
        }
    }
}

/// The arguments of `MiniDumpWriteDump`, but for the file, which the caller
/// brings, and the callback, which there is none of.
#[derive(Debug, PartialEq, Eq)]
pub struct DumpRequest {
    /// The process to dump.
    pub process: Handle,
    /// Its id.
    pub process_id: u32,
    /// What goes into the dump.
    pub dump_type: MINIDUMP_TYPE,
    /// The exception, where there is one.
    pub exception: Option<ExceptionInformation>,
    /// The streams to add.
    pub user_streams: Vec<UserStream>,
}

/// A [`DumpRequest`] with its streams as a sequence.
#[verifier::ext_equal]
pub struct DumpRequestView {
    pub process: Handle,
    pub process_id: u32,
    pub dump_type: MINIDUMP_TYPE,
    pub exception: Option<ExceptionInformation>,
    pub user_streams: Seq<UserStreamView>,
}

impl View for DumpRequest {
    type V = DumpRequestView;

    open spec fn view(&self) -> DumpRequestView {
        DumpRequestView {
            process: self.process,
            process_id: self.process_id,
            dump_type: self.dump_type,
            exception: self.exception,
            user_streams: self.user_streams@.map_values(|stream: UserStream| stream@),
        }
    }
}

/// The call that a dump needs next. `D` describes the dump to write: a
/// [`DumpRequest`], or its view in specifications.
#[derive(Debug, PartialEq, Eq)]
pub enum Request<D> {
    /// `GetCurrentThreadId`.
    CurrentThreadId,
    /// `RtlCaptureContext`, into the context that the dump is about.
    CaptureContext,
    /// `OpenThread`.
    OpenThread { desired_access: u32, inherit_handle: i32, thread_id: u32 },
    /// `SuspendThread`.
    SuspendThread { thread: Handle },
    /// `GetThreadContext`, into the context that the dump is about, which asks
    /// for these parts and is zero before.
    GetThreadContext { thread: Handle, context_flags: ContextFlags },
    /// `ResumeThread`.
    ResumeThread { thread: Handle },
    /// Put this record and the context that the dump is about behind an
    /// `EXCEPTION_POINTERS`, and keep all three in place until the dump is
    /// finished.
    StoreException { record: ExceptionRecord },
    /// The id of the process that runs.
    CurrentProcessId,
    /// `OpenProcess`.
    OpenProcess { desired_access: u32, inherit_handle: i32, process_id: u32 },
    /// `GetCurrentProcess`.
    CurrentProcess,
    /// `MiniDumpWriteDump`.
    WriteDump(D),
    /// The error code of the last call.
    LastOsError,
    /// `CloseHandle`.
    CloseHandle { handle: Handle },
}

impl View for Request<DumpRequest> {
    type V = Request<DumpRequestView>;

    open spec fn view(&self) -> Request<DumpRequestView> {
        match *self {
            Request::CurrentThreadId => Request::CurrentThreadId,
            Request::CaptureContext => Request::CaptureContext,
            Request::OpenThread { desired_access, inherit_handle, thread_id } => {
                Request::OpenThread { desired_access, inherit_handle, thread_id }
            },
            Request::SuspendThread { thread } => Request::SuspendThread { thread },
            Request::GetThreadContext { thread, context_flags } => {
                Request::GetThreadContext { thread, context_flags }
            },
            Request::ResumeThread { thread } => Request::ResumeThread { thread },
            Request::StoreException { record } => Request::StoreException { record },
            Request::CurrentProcessId => Request::CurrentProcessId,
            Request::OpenProcess { desired_access, inherit_handle, process_id } => {
                Request::OpenProcess { desired_access, inherit_handle, process_id }
            },
            Request::CurrentProcess => Request::CurrentProcess,
            Request::WriteDump(dump) => Request::WriteDump(dump@),
            Request::LastOsError => Request::LastOsError,
            Request::CloseHandle { handle } => Request::CloseHandle { handle },
        }
    }
}

/// What a call returned.
#[derive(Clone, Copy, Debug, PartialEq, Eq)]
pub enum Reply {
    /// Nothing: `RtlCaptureContext`.
    Done,
    /// A thread id: `GetCurrentThreadId`.
    ThreadId(u32),
    /// A process id.
    ProcessId(u32),
    /// A handle, null where an open call failed: `OpenThread`, `OpenProcess`,
    /// `GetCurrentProcess`.
    Handle(Handle),
    /// A suspend count, all ones where the call failed: `SuspendThread`,
    /// `ResumeThread`.
    SuspendCount(u32),
    /// A `BOOL`, zero where the call failed: `GetThreadContext`,
    /// `MiniDumpWriteDump`, `CloseHandle`.
    Flag(i32),
    /// The address of the stored `EXCEPTION_POINTERS`, which is never null.
    Address(usize),
    /// The error code of the last call.
    ErrorCode(i32),
}

/// Whether `reply` is one that the call `request` can have.
pub open spec fn answers(request: Request<DumpRequestView>, reply: Reply) -> bool {
    match request {
        Request::CurrentThreadId => reply is ThreadId,
        Request::CaptureContext => reply is Done,
        Request::OpenThread { .. } => reply is Handle,
        Request::SuspendThread { .. } => reply is SuspendCount,
        Request::GetThreadContext { .. } => reply is Flag,
        Request::ResumeThread { .. } => reply is SuspendCount,
        Request::StoreException { .. } => reply matches Reply::Address(address) && address != 0,
        Request::CurrentProcessId => reply is ProcessId,
        Request::OpenProcess { .. } => reply is Handle,
        Request::CurrentProcess => reply is Handle,
        Request::WriteDump(_) => reply is Flag,
        Request::LastOsError => reply is ErrorCode,
        Request::CloseHandle { .. } => reply is Flag,
    }
}

} // verus!
