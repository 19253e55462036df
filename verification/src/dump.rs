//! The conversation with the operating system, one call after the other.
use vstd::prelude::*;

use crate::crash_context::CrashContext;
use crate::errors::{Error, Failure};
use crate::minidump_writer::MinidumpWriter;
use crate::protocol::{
    ContextFlags, DumpRequest, DumpRequestView, ExceptionRecord, Reply, Request,
};
use crate::winnt::{
    record_code, status_bits, Handle, FALSE, PROCESS_ALL_ACCESS, STATUS_NONCONTINUABLE_EXCEPTION,
    SUSPEND_FAILED, THREAD_GET_CONTEXT, THREAD_QUERY_INFORMATION, THREAD_SUSPEND_RESUME,
};

verus! {

/// How far a dump has come. Each stage but the last waits for the reply to one
/// call.
#[derive(Clone, Copy, Debug, PartialEq, Eq)]
pub enum Stage {
    /// A thread of the own process was named: is it the one that runs?
    AskThread { exception_code: i32, thread_id: u32 },
    /// It is another one, which has to be opened.
    OpenThread { exception_code: i32, thread_id: u32 },
    /// It is open and has to be suspended.
    SuspendThread { exception_code: i32, thread_id: u32, thread: Handle },
    /// It is suspended and its context can be read.
    GetContext { exception_code: i32, thread_id: u32, thread: Handle },
    /// Its context could not be read. It is resumed all the same.
    ResumeAfterFailure { thread: Handle },
    /// Its context was read and it is resumed.
    ResumeThread { exception_code: i32, thread_id: u32, thread: Handle },
    /// It runs again and its handle is closed.
    CloseThread { exception_code: i32, thread_id: u32, thread: Handle },
    /// The context of the thread that runs is captured.
    CaptureContext { exception_code: i32, named: Option<u32> },
    /// There is a context, and the exception is put beside it.
    StoreException { exception_code: i32, named: Option<u32> },
    /// The process to dump is the own one: which is it?
    AskOwnProcess { exception_code: i32, named: Option<u32>, exception_pointers: usize },
    /// No thread was named: which one runs?
    AskOwnThread { exception_code: i32, process_id: u32, exception_pointers: usize },
    /// There is a crash to dump: is it one of the own process?
    AskProcess { crash_context: CrashContext },
    /// It is one of another process, which has to be opened.
    OpenProcess { crash_context: CrashContext },
    /// It is one of the own process.
    UseOwnProcess { crash_context: CrashContext },
    /// The own process is dumped: which thread asks for it?
    AskRequester { writer: MinidumpWriter },
    /// All is known, and the dump is written.
    WriteDump { writer: MinidumpWriter, requesting_thread_id: Option<u32> },
    /// A call failed, and the error code of the last call is read before `held`
    /// is closed. The last call is the one that failed, but where a context
    /// could not be read: the thread has been resumed since.
    ReadError { failure: Failure, held: Option<Handle> },
    /// The last handle is closed.
    CloseHandle { handle: Handle, result: Result<(), Error> },
    /// The dump is written, or failed.
    Finished { result: Result<(), Error> },
}

/// The rights that reading the context of another thread takes.
pub open spec fn thread_access() -> u32 {
    THREAD_GET_CONTEXT | THREAD_QUERY_INFORMATION | THREAD_SUSPEND_RESUME
}

impl Stage {
    /// Where a dump of the own process starts.
    pub open spec fn local(exception_code: Option<i32>, thread_id: Option<u32>) -> Stage {
        let exception_code = match exception_code {
            Some(code) => code,
            None => STATUS_NONCONTINUABLE_EXCEPTION,
        };
        match thread_id {
            Some(thread_id) => Stage::AskThread { exception_code, thread_id },
            None => Stage::CaptureContext { exception_code, named: None },
        }
    }

    /// Where a dump of a described crash starts.
    pub open spec fn crash(crash_context: CrashContext) -> Stage {
        Stage::AskProcess { crash_context }
    }

    /// The dump for the crash once there is a handle to the crashed process.
    pub open spec fn with_process(
        crash_context: CrashContext,
        process: Handle,
        external: bool,
    ) -> Stage {
        let writer = MinidumpWriter::of_crash(crash_context, process, external);
        if external {
            Stage::WriteDump { writer, requesting_thread_id: None }
        } else {
            Stage::AskRequester { writer }
        }
    }

    /// What holds at every stage that a dump gets to: what was opened and what
    /// was stored is there, and the thread that asks is known where the own process is dumped, and
    /// only there.
    pub open spec fn wf(self) -> bool {
        match self {
            Stage::SuspendThread { thread, .. } => !thread.is_null(),
            Stage::GetContext { thread, .. } => !thread.is_null(),
            Stage::ResumeAfterFailure { thread } => !thread.is_null(),
            Stage::ResumeThread { thread, .. } => !thread.is_null(),
            Stage::CloseThread { thread, .. } => !thread.is_null(),
            Stage::AskOwnProcess { exception_pointers, .. } => exception_pointers != 0,
            Stage::AskOwnThread { exception_pointers, .. } => exception_pointers != 0,
            Stage::AskRequester { writer } => writer.wf() && !writer.is_external_process,
            Stage::WriteDump { writer, requesting_thread_id } => writer.wf() && (
            requesting_thread_id is None <==> writer.is_external_process),
            _ => true,
        }
    }

    /// The call that the stage waits for, none once the dump is finished.
    pub open spec fn pending(self, little_endian: bool) -> Option<Request<DumpRequestView>> {
        match self {
            Stage::AskThread { .. } | Stage::AskOwnThread { .. } | Stage::AskRequester { .. } => {
                Some(Request::CurrentThreadId)
            },
            Stage::OpenThread { thread_id, .. } => Some(
                Request::OpenThread {
                    desired_access: thread_access(),
                    inherit_handle: FALSE,
                    thread_id,
                },
            ),
            Stage::SuspendThread { thread, .. } => Some(Request::SuspendThread { thread }),
            Stage::GetContext { thread, .. } => Some(
                Request::GetThreadContext { thread, context_flags: ContextFlags::whole() },
            ),
            Stage::ResumeAfterFailure { thread } => Some(Request::ResumeThread { thread }),
            Stage::ResumeThread { thread, .. } => Some(Request::ResumeThread { thread }),
            Stage::CloseThread { thread, .. } => Some(Request::CloseHandle { handle: thread }),
            Stage::CaptureContext { .. } => Some(Request::CaptureContext),
            Stage::StoreException { exception_code, .. } => Some(
                Request::StoreException {
                    record: ExceptionRecord::code_only(status_bits(exception_code)),
                },
            ),
            Stage::AskOwnProcess { .. } | Stage::AskProcess { .. } => {
                Some(Request::CurrentProcessId)
            },
            Stage::OpenProcess { crash_context } => Some(
                Request::OpenProcess {
                    desired_access: PROCESS_ALL_ACCESS,
                    inherit_handle: FALSE,
                    process_id: crash_context.process_id,
                },
            ),
            Stage::UseOwnProcess { .. } => Some(Request::CurrentProcess),
            Stage::WriteDump { writer, requesting_thread_id } => Some(
                Request::WriteDump(writer.dump_request(requesting_thread_id, little_endian)),
            ),
            Stage::ReadError { .. } => Some(Request::LastOsError),
            Stage::CloseHandle { handle, .. } => Some(Request::CloseHandle { handle }),
            Stage::Finished { .. } => None,
        }
    }

    /// Where the dump goes when the pending call returned `reply`. A reply that
    /// the call cannot have changes nothing.
    pub open spec fn next(self, reply: Reply) -> Stage {
        match (self, reply) {
            (Stage::AskThread { exception_code, thread_id }, Reply::ThreadId(current)) => {
                if thread_id == current {
                    Stage::CaptureContext { exception_code, named: Some(thread_id) }
                } else {
                    Stage::OpenThread { exception_code, thread_id }
                }
            },
            (Stage::OpenThread { exception_code, thread_id }, Reply::Handle(thread)) => {
                if thread.is_null() {
                    Stage::ReadError { failure: Failure::ThreadOpen, held: None }
                } else {
                    Stage::SuspendThread { exception_code, thread_id, thread }
                }
            },
            (
                Stage::SuspendThread { exception_code, thread_id, thread },
                Reply::SuspendCount(count),
            ) => {
                if count == SUSPEND_FAILED {
                    Stage::ReadError { failure: Failure::ThreadSuspend, held: Some(thread) }
                } else {
                    Stage::GetContext { exception_code, thread_id, thread }
                }
            },
            (Stage::GetContext { exception_code, thread_id, thread }, Reply::Flag(flag)) => {
                if flag == 0 {
                    Stage::ResumeAfterFailure { thread }
                } else {
                    Stage::ResumeThread { exception_code, thread_id, thread }
                }
            },
            (Stage::ResumeAfterFailure { thread }, Reply::SuspendCount(_)) => {
                Stage::ReadError { failure: Failure::ThreadContext, held: Some(thread) }
            },
            (
                Stage::ResumeThread { exception_code, thread_id, thread },
                Reply::SuspendCount(_),
            ) => { Stage::CloseThread { exception_code, thread_id, thread } },
            (Stage::CloseThread { exception_code, thread_id, .. }, Reply::Flag(_)) => {
                Stage::StoreException { exception_code, named: Some(thread_id) }
            },
            (Stage::CaptureContext { exception_code, named }, Reply::Done) => {
                Stage::StoreException { exception_code, named }
            },
            (Stage::StoreException { exception_code, named }, Reply::Address(address)) => {
                if address == 0 {
                    self
                } else {
                    Stage::AskOwnProcess { exception_code, named, exception_pointers: address }
                }
            },
            (
                Stage::AskOwnProcess { exception_code, named, exception_pointers },
                Reply::ProcessId(process_id),
            ) => {
                match named {
                    Some(thread_id) => Stage::crash(
                        CrashContext { exception_pointers, process_id, thread_id, exception_code },
                    ),
                    None => Stage::AskOwnThread { exception_code, process_id, exception_pointers },
                }
            },
            (
                Stage::AskOwnThread { exception_code, process_id, exception_pointers },
                Reply::ThreadId(thread_id),
            ) => {
                Stage::crash(
                    CrashContext { exception_pointers, process_id, thread_id, exception_code },
                )
            },
            (Stage::AskProcess { crash_context }, Reply::ProcessId(own)) => {
                if crash_context.process_id != own {
                    Stage::OpenProcess { crash_context }
                } else {
                    Stage::UseOwnProcess { crash_context }
                }
            },
            (Stage::OpenProcess { crash_context }, Reply::Handle(process)) => {
                if process.is_null() {
                    Stage::ReadError { failure: Failure::Io, held: None }
                } else {
                    Stage::with_process(crash_context, process, true)
                }
            },
            (Stage::UseOwnProcess { crash_context }, Reply::Handle(process)) => {
                Stage::with_process(crash_context, process, false)
            },
            (Stage::AskRequester { writer }, Reply::ThreadId(current)) => {
                Stage::WriteDump { writer, requesting_thread_id: Some(current) }
            },
            (Stage::WriteDump { writer, .. }, Reply::Flag(flag)) => {
                if flag == 0 {
                    Stage::ReadError { failure: Failure::Io, held: Some(writer.crashing_process) }
                } else {
                    Stage::CloseHandle { handle: writer.crashing_process, result: Ok(()) }
                }
            },
            (Stage::ReadError { failure, held }, Reply::ErrorCode(code)) => {
                match held {
                    Some(handle) => Stage::CloseHandle { handle, result: Err(failure.error(code)) },
                    None => Stage::Finished { result: Err(failure.error(code)) },
                }
            },
            (Stage::CloseHandle { result, .. }, Reply::Flag(_)) => Stage::Finished { result },
            _ => self,
        }
    }
}

/// A dump in progress.
#[derive(Clone, Copy, Debug, PartialEq, Eq)]
pub struct Dump {
    /// The byte order of the streams that the dump adds.
    pub little_endian: bool,
    /// How far the dump has come.
    pub stage: Stage,
}

impl Dump {
    /// The call that the dump waits for.
    pub open spec fn pending(self) -> Option<Request<DumpRequestView>> {
        self.stage.pending(self.little_endian)
    }

    /// The dump after the pending call returned `reply`.
    pub open spec fn next(self, reply: Reply) -> Dump {
        Dump { little_endian: self.little_endian, stage: self.stage.next(reply) }
    }

    /// How the dump ended, once it has.
    pub open spec fn outcome(self) -> Option<Result<(), Error>> {
        match self.stage {
            Stage::Finished { result } => Some(result),
            _ => None,
        }
    }

    /// How the dump ended; nothing while it goes on.
    pub fn result(&self) -> (result: Option<Result<(), Error>>)
        ensures
            result == self.outcome(),
    {
        match self.stage {
            Stage::Finished { result } => Some(result),
            _ => None,
        }
    }

    /// The call that the dump needs next; none once it has ended.
    pub fn request(&self) -> (request: Option<Request<DumpRequest>>)
        ensures
            request is None <==> self.pending() is None,
            request is None <==> self.outcome() is Some,
            request matches Some(r) ==> Some(r@) == self.pending(),
    {
        match self.stage {
            Stage::AskThread { .. } | Stage::AskOwnThread { .. } | Stage::AskRequester { .. } => {
                Some(Request::CurrentThreadId)
            },
            Stage::OpenThread { thread_id, .. } => Some(
                Request::OpenThread {
                    desired_access: THREAD_GET_CONTEXT | THREAD_QUERY_INFORMATION
                        | THREAD_SUSPEND_RESUME,
                    inherit_handle: FALSE,
                    thread_id,
                },
            ),
            Stage::SuspendThread { thread, .. } => Some(Request::SuspendThread { thread }),
            Stage::GetContext { thread, .. } => Some(
                Request::GetThreadContext { thread, context_flags: ContextFlags::all() },
            ),
            Stage::ResumeAfterFailure { thread } => Some(Request::ResumeThread { thread }),
            Stage::ResumeThread { thread, .. } => Some(Request::ResumeThread { thread }),
            Stage::CloseThread { thread, .. } => Some(Request::CloseHandle { handle: thread }),
            Stage::CaptureContext { .. } => Some(Request::CaptureContext),
            Stage::StoreException { exception_code, .. } => Some(
                Request::StoreException {
                    record: ExceptionRecord::of_code(record_code(exception_code)),
                },
            ),
            Stage::AskOwnProcess { .. } | Stage::AskProcess { .. } => {
                Some(Request::CurrentProcessId)
            },
            Stage::OpenProcess { crash_context } => Some(
                Request::OpenProcess {
                    desired_access: PROCESS_ALL_ACCESS,
                    inherit_handle: FALSE,
                    process_id: crash_context.process_id,
                },
            ),
            Stage::UseOwnProcess { .. } => Some(Request::CurrentProcess),
            Stage::WriteDump { writer, requesting_thread_id } => Some(
                Request::WriteDump(writer.dump(requesting_thread_id, self.little_endian)),
            ),
            Stage::ReadError { .. } => Some(Request::LastOsError),
            Stage::CloseHandle { handle, .. } => Some(Request::CloseHandle { handle }),
            Stage::Finished { .. } => None,
        }
    }

    /// Goes on with what the pending call returned. A reply that the call cannot
    /// have leaves the dump where it is.
    pub fn resume(self, reply: Reply) -> (dump: Dump)
        ensures
            dump == self.next(reply),
            self.stage.wf() ==> dump.stage.wf(),
    {
        let stage = match (self.stage, reply) {
            (Stage::AskThread { exception_code, thread_id }, Reply::ThreadId(current)) => {
                if thread_id == current {
                    Stage::CaptureContext { exception_code, named: Some(thread_id) }
                } else {
                    Stage::OpenThread { exception_code, thread_id }
                }
            },
            (Stage::OpenThread { exception_code, thread_id }, Reply::Handle(thread)) => {
                if thread.is_null() {
                    Stage::ReadError { failure: Failure::ThreadOpen, held: None }
                } else {
                    Stage::SuspendThread { exception_code, thread_id, thread }
                }
            },
            (
                Stage::SuspendThread { exception_code, thread_id, thread },
                Reply::SuspendCount(count),
            ) => {
                if count == SUSPEND_FAILED {
                    Stage::ReadError { failure: Failure::ThreadSuspend, held: Some(thread) }
                } else {
                    Stage::GetContext { exception_code, thread_id, thread }
                }
            },
            (Stage::GetContext { exception_code, thread_id, thread }, Reply::Flag(flag)) => {
                if flag == 0 {
                    Stage::ResumeAfterFailure { thread }
                } else {
                    Stage::ResumeThread { exception_code, thread_id, thread }
                }
            },
            (Stage::ResumeAfterFailure { thread }, Reply::SuspendCount(_)) => {
                Stage::ReadError { failure: Failure::ThreadContext, held: Some(thread) }
            },
            (
                Stage::ResumeThread { exception_code, thread_id, thread },
                Reply::SuspendCount(_),
            ) => Stage::CloseThread { exception_code, thread_id, thread },
            (Stage::CloseThread { exception_code, thread_id, .. }, Reply::Flag(_)) => {
                Stage::StoreException { exception_code, named: Some(thread_id) }
            },
            (Stage::CaptureContext { exception_code, named }, Reply::Done) => {
                Stage::StoreException { exception_code, named }
            },
            (Stage::StoreException { exception_code, named }, Reply::Address(address)) => {
                if address == 0 {
                    self.stage
                } else {
                    Stage::AskOwnProcess { exception_code, named, exception_pointers: address }
                }
            },
            (
                Stage::AskOwnProcess { exception_code, named, exception_pointers },
                Reply::ProcessId(process_id),
            ) => match named {
                Some(thread_id) => {
                    let crash_context = CrashContext {
                        exception_pointers,
                        process_id,
                        thread_id,
                        exception_code,
                    };
                    Stage::AskProcess { crash_context }
                },
                None => Stage::AskOwnThread { exception_code, process_id, exception_pointers },
            },
            (
                Stage::AskOwnThread { exception_code, process_id, exception_pointers },
                Reply::ThreadId(thread_id),
            ) => {
                let crash_context = CrashContext {
                    exception_pointers,
                    process_id,
                    thread_id,
                    exception_code,
                };
                Stage::AskProcess { crash_context }
            },
            (Stage::AskProcess { crash_context }, Reply::ProcessId(own)) => {
                if crash_context.process_id != own {
                    Stage::OpenProcess { crash_context }
                } else {
                    Stage::UseOwnProcess { crash_context }
                }
            },
            (Stage::OpenProcess { crash_context }, Reply::Handle(process)) => {
                if process.is_null() {
                    Stage::ReadError { failure: Failure::Io, held: None }
                } else {
                    Stage::WriteDump {
                        writer: MinidumpWriter::new(crash_context, process, true),
                        requesting_thread_id: None,
                    }
                }
            },
            (Stage::UseOwnProcess { crash_context }, Reply::Handle(process)) => {
                Stage::AskRequester { writer: MinidumpWriter::new(crash_context, process, false) }
            },
            (Stage::AskRequester { writer }, Reply::ThreadId(current)) => {
                Stage::WriteDump { writer, requesting_thread_id: Some(current) }
            },
            (Stage::WriteDump { writer, .. }, Reply::Flag(flag)) => {
                if flag == 0 {
                    Stage::ReadError { failure: Failure::Io, held: Some(writer.crashing_process) }
                } else {
                    Stage::CloseHandle { handle: writer.crashing_process, result: Ok(()) }
                }
            },
            (Stage::ReadError { failure, held }, Reply::ErrorCode(code)) => match held {
                Some(handle) => Stage::CloseHandle { handle, result: Err(failure.with_code(code)) },
                None => Stage::Finished { result: Err(failure.with_code(code)) },
            },
            (Stage::CloseHandle { result, .. }, Reply::Flag(_)) => Stage::Finished { result },
            _ => self.stage,
        };
        Dump { little_endian: self.little_endian, stage }
    }
}

} // verus!
