//! The conversations call by call: for whatever the calls return, which call
//! comes next, with which arguments, and how it ends.
use vstd::prelude::*;

use crate::breakpad::{u32_bytes, BreakpadInfo};
use crate::crash_context::CrashContext;
use crate::dump::{Dump, Stage};
use crate::errors::{Error, Failure};
use crate::minidump_writer::MinidumpWriter;
use crate::protocol::{
    answers, ContextFlags, DumpRequest, DumpRequestView, ExceptionRecord, Reply, Request,
};
use crate::run::{conforms, log, run};
use crate::winnt::{status_bits, Handle};

verus! {

/// A dump of the own process with a named thread that is not the one that runs
/// opens that thread by its id, suspends it, reads its whole context, resumes it
/// and closes it, all through the handle that opening brought. It fails where
/// the handle is zero, where the suspend count is all ones and where the context
/// cannot be read, with the error code that is then read, after closing the
/// handle if there is one. Else it stores an exception.
pub proof fn law_other_thread_conversation(
    little_endian: bool,
    exception_code: Option<i32>,
    named: u32,
    current: u32,
    thread: Handle,
    count: u32,
    flag: i32,
    resumed: u32,
    error: i32,
    closed: i32,
)
    requires
        named != current,
    ensures
        ({
            let d0 = Dump { little_endian, stage: Stage::local(exception_code, Some(named)) };
            let d1 = d0.next(Reply::ThreadId(current));
            let d2 = d1.next(Reply::Handle(thread));
            let d3 = d2.next(Reply::SuspendCount(count));
            let d4 = d3.next(Reply::Flag(flag));
            let d5 = d4.next(Reply::SuspendCount(resumed));
            let read_error = Some(Request::<DumpRequestView>::LastOsError);
            let close = Some(Request::<DumpRequestView>::CloseHandle { handle: thread });
            &&& d0.pending() == Some(Request::<DumpRequestView>::CurrentThreadId)
            &&& d1.pending() == Some(
                Request::<DumpRequestView>::OpenThread {
                    desired_access: 0x4a,
                    inherit_handle: 0,
                    thread_id: named,
                },
            )
            &&& thread.value == 0 ==> {
                let failed = d2.next(Reply::ErrorCode(error));
                &&& d2.pending() == read_error
                &&& failed.pending() is None
                &&& failed.outcome() == Some(Err::<(), Error>(Error::ThreadOpen(error)))
            }
            &&& thread.value != 0 ==> d2.pending() == Some(
                Request::<DumpRequestView>::SuspendThread { thread },
            )
            &&& thread.value != 0 && count == 0xffff_ffff ==> {
                let known = d3.next(Reply::ErrorCode(error));
                let failed = known.next(Reply::Flag(closed));
                &&& d3.pending() == read_error
                &&& known.pending() == close
                &&& failed.pending() is None
                &&& failed.outcome() == Some(Err::<(), Error>(Error::ThreadSuspend(error)))
            }
            &&& thread.value != 0 && count != 0xffff_ffff ==> {
                &&& d3.pending() == Some(
                    Request::<DumpRequestView>::GetThreadContext {
                        thread,
                        context_flags: ContextFlags {
                            x86: 0x1_003f,
                            x86_64: 0x10_001f,
                            aarch64: 0x40_001f,
                        },
                    },
                )
                &&& d4.pending() == Some(Request::<DumpRequestView>::ResumeThread { thread })
            }
            &&& thread.value != 0 && count != 0xffff_ffff && flag == 0 ==> {
                let known = d5.next(Reply::ErrorCode(error));
                let failed = known.next(Reply::Flag(closed));
                &&& d5.pending() == read_error
                &&& known.pending() == close
                &&& failed.pending() is None
                &&& failed.outcome() == Some(Err::<(), Error>(Error::ThreadContext(error)))
            }
            &&& thread.value != 0 && count != 0xffff_ffff && flag != 0 ==> {
                &&& d5.pending() == close
                &&& d5.next(Reply::Flag(closed)).pending() matches Some(
                    Request::StoreException { .. },
                )
            }
        }),
{
    assert(0x8u32 | 0x40u32 | 0x2u32 == 0x4au32) by (bit_vector);
}

/// Once the context of a named thread that is not the one that runs has been
/// read, a dump of the own process stores an exception with the bits of the given
/// code, and zero everywhere else, and asks for its process. From there on it is
/// the dump of the crash that has these exception pointers, this process, the
/// named thread and the given code.
pub proof fn law_other_thread_goes_on_as_crash(
    little_endian: bool,
    exception_code: Option<i32>,
    named: u32,
    current: u32,
    thread: Handle,
    count: u32,
    flag: i32,
    resumed: u32,
    closed: i32,
    address: usize,
    process_id: u32,
)
    requires
        named != current,
        thread.value != 0,
        count != 0xffff_ffff,
        flag != 0,
        address != 0,
    ensures
        ({
            let d0 = Dump { little_endian, stage: Stage::local(exception_code, Some(named)) };
            let d6 = d0.next(Reply::ThreadId(current)).next(Reply::Handle(thread)).next(
                Reply::SuspendCount(count),
            ).next(Reply::Flag(flag)).next(Reply::SuspendCount(resumed)).next(Reply::Flag(closed));
            let d7 = d6.next(Reply::Address(address));
            let d8 = d7.next(Reply::ProcessId(process_id));
            &&& d6.pending() matches Some(Request::StoreException { record }) && {
                &&& match exception_code {
                    Some(code) => (record.exception_code - code) % 0x1_0000_0000 == 0,
                    None => record.exception_code == 0xc000_0025,
                }
                &&& record.exception_flags == 0
                &&& record.exception_record == 0
                &&& record.exception_address == 0
                &&& record.number_parameters == 0
                &&& forall|i: int| 0 <= i < 15 ==> #[trigger] record.exception_information[i] == 0
            }
            &&& d7.pending() == Some(Request::<DumpRequestView>::CurrentProcessId)
            &&& d8 == (Dump {
                little_endian,
                stage: Stage::crash(
                    CrashContext {
                        exception_pointers: address,
                        process_id,
                        thread_id: named,
                        exception_code: match exception_code {
                            Some(code) => code,
                            None => (-1073741787) as i32,
                        },
                    },
                ),
            })
        }),
{
}

/// A dump of the own process with a named thread that is the one that runs
/// captures its context, without opening or suspending anything, stores an
/// exception with the bits of the given code, and zero everywhere else, and asks
/// for its process. From there on it is the dump of the crash that has these
/// exception pointers, this process, the named thread and the given code.
pub proof fn law_running_thread_conversation(
    little_endian: bool,
    exception_code: Option<i32>,
    named: u32,
    address: usize,
    process_id: u32,
)
    requires
        address != 0,
    ensures
        ({
            let d0 = Dump { little_endian, stage: Stage::local(exception_code, Some(named)) };
            let d1 = d0.next(Reply::ThreadId(named));
            let d2 = d1.next(Reply::Done);
            let d3 = d2.next(Reply::Address(address));
            let d4 = d3.next(Reply::ProcessId(process_id));
            &&& d0.pending() == Some(Request::<DumpRequestView>::CurrentThreadId)
            &&& d1.pending() == Some(Request::<DumpRequestView>::CaptureContext)
            &&& d2.pending() matches Some(Request::StoreException { record }) && {
                &&& match exception_code {
                    Some(code) => (record.exception_code - code) % 0x1_0000_0000 == 0,
                    None => record.exception_code == 0xc000_0025,
                }
                &&& record.exception_flags == 0
                &&& record.exception_record == 0
                &&& record.exception_address == 0
                &&& record.number_parameters == 0
                &&& forall|i: int| 0 <= i < 15 ==> #[trigger] record.exception_information[i] == 0
            }
            &&& d3.pending() == Some(Request::<DumpRequestView>::CurrentProcessId)
            &&& d4 == (Dump {
                little_endian,
                stage: Stage::crash(
                    CrashContext {
                        exception_pointers: address,
                        process_id,
                        thread_id: named,
                        exception_code: match exception_code {
                            Some(code) => code,
                            None => (-1073741787) as i32,
                        },
                    },
                ),
            })
        }),
{
}

/// A dump of the own process without a named thread captures the context of the
/// one that runs, stores an exception with the bits of the given code, and zero
/// everywhere else, and asks for its process and its thread. From there on it is
/// the dump of the crash that has these exception pointers, this process, this
/// thread and the given code.
pub proof fn law_unnamed_thread_conversation(
    little_endian: bool,
    exception_code: Option<i32>,
    address: usize,
    process_id: u32,
    thread_id: u32,
)
    requires
        address != 0,
    ensures
        ({
            let d0 = Dump { little_endian, stage: Stage::local(exception_code, None) };
            let d1 = d0.next(Reply::Done);
            let d2 = d1.next(Reply::Address(address));
            let d3 = d2.next(Reply::ProcessId(process_id));
            let d4 = d3.next(Reply::ThreadId(thread_id));
            &&& d0.pending() == Some(Request::<DumpRequestView>::CaptureContext)
            &&& d1.pending() matches Some(Request::StoreException { record }) && {
                &&& match exception_code {
                    Some(code) => (record.exception_code - code) % 0x1_0000_0000 == 0,
                    None => record.exception_code == 0xc000_0025,
                }
                &&& record.exception_flags == 0
                &&& record.exception_record == 0
                &&& record.exception_address == 0
                &&& record.number_parameters == 0
                &&& forall|i: int| 0 <= i < 15 ==> #[trigger] record.exception_information[i] == 0
            }
            &&& d2.pending() == Some(Request::<DumpRequestView>::CurrentProcessId)
            &&& d3.pending() == Some(Request::<DumpRequestView>::CurrentThreadId)
            &&& d4 == (Dump {
                little_endian,
                stage: Stage::crash(
                    CrashContext {
                        exception_pointers: address,
                        process_id,
                        thread_id,
                        exception_code: match exception_code {
                            Some(code) => code,
                            None => (-1073741787) as i32,
                        },
                    },
                ),
            })
        }),
{
}

/// A dump of a crash of another process opens that process by its id. It fails
/// there where the handle is zero, and only there. Else it writes a dump of that
/// process through that handle, with its exception where it has exception
/// pointers, said to be those of the dumped process, and without streams. It
/// succeeds where the write returns anything but zero, and either way closes the
/// handle, after reading the error of a failed write.
pub proof fn law_other_process_conversation(
    little_endian: bool,
    crash_context: CrashContext,
    own: u32,
    process: Handle,
    flag: i32,
    error: i32,
    closed: i32,
)
    requires
        own != crash_context.process_id,
    ensures
        ({
            let d0 = Dump { little_endian, stage: Stage::crash(crash_context) };
            let d1 = d0.next(Reply::ProcessId(own));
            let d2 = d1.next(Reply::Handle(process));
            let d3 = d2.next(Reply::Flag(flag));
            let read_error = Some(Request::<DumpRequestView>::LastOsError);
            let close = Some(Request::<DumpRequestView>::CloseHandle { handle: process });
            &&& d0.pending() == Some(Request::<DumpRequestView>::CurrentProcessId)
            &&& d1.pending() == Some(
                Request::<DumpRequestView>::OpenProcess {
                    desired_access: 0x1f_ffff,
                    inherit_handle: 0,
                    process_id: crash_context.process_id,
                },
            )
            &&& process.value == 0 ==> {
                let failed = d2.next(Reply::ErrorCode(error));
                &&& d2.pending() == read_error
                &&& failed.pending() is None
                &&& failed.outcome() == Some(Err::<(), Error>(Error::Io(error)))
            }
            &&& process.value != 0 ==> {
                d2.pending() matches Some(Request::WriteDump(written)) && {
                    &&& written.process == process
                    &&& written.process_id == crash_context.process_id
                    &&& written.dump_type == 0
                    &&& written.user_streams.len() == 0
                    &&& crash_context.exception_pointers == 0 ==> written.exception is None
                    &&& crash_context.exception_pointers != 0 ==> {
                        written.exception matches Some(exception) && {
                            &&& exception.thread_id == crash_context.thread_id
                            &&& exception.exception_pointers == crash_context.exception_pointers
                            &&& exception.client_pointers == 1
                        }
                    }
                }
            }
            &&& process.value != 0 && flag == 0 ==> {
                let known = d3.next(Reply::ErrorCode(error));
                let failed = known.next(Reply::Flag(closed));
                &&& d3.pending() == read_error
                &&& known.pending() == close
                &&& failed.pending() is None
                &&& failed.outcome() == Some(Err::<(), Error>(Error::Io(error)))
            }
            &&& process.value != 0 && flag != 0 ==> {
                let ended = d3.next(Reply::Flag(closed));
                &&& d3.pending() == close
                &&& ended.pending() is None
                &&& ended.outcome() matches Some(Ok(_))
            }
        }),
{
}

/// A dump of a crash of the own process takes the handle that it is given for it
/// and asks which thread runs. It writes a dump of that process through that
/// handle, with the exception where there are exception pointers, said to be its
/// own, and with one stream: twelve bytes under the type of the Breakpad
/// information, which say that both thread ids are valid, then the thread of the
/// crash, then the thread that runs, each in the byte order of the dump. It
/// succeeds where the write returns anything but zero, and either way closes the
/// handle, after reading the error of a failed write.
pub proof fn law_own_process_conversation(
    little_endian: bool,
    crash_context: CrashContext,
    process: Handle,
    requester: u32,
    flag: i32,
    error: i32,
    closed: i32,
)
    ensures
        ({
            let d0 = Dump { little_endian, stage: Stage::crash(crash_context) };
            let d1 = d0.next(Reply::ProcessId(crash_context.process_id));
            let d2 = d1.next(Reply::Handle(process));
            let d3 = d2.next(Reply::ThreadId(requester));
            let d4 = d3.next(Reply::Flag(flag));
            let read_error = Some(Request::<DumpRequestView>::LastOsError);
            let close = Some(Request::<DumpRequestView>::CloseHandle { handle: process });
            &&& d0.pending() == Some(Request::<DumpRequestView>::CurrentProcessId)
            &&& d1.pending() == Some(Request::<DumpRequestView>::CurrentProcess)
            &&& d2.pending() == Some(Request::<DumpRequestView>::CurrentThreadId)
            &&& d3.pending() matches Some(Request::WriteDump(written)) && {
                &&& written.process == process
                &&& written.process_id == crash_context.process_id
                &&& written.dump_type == 0
                &&& crash_context.exception_pointers == 0 ==> written.exception is None
                &&& crash_context.exception_pointers != 0 ==> {
                    written.exception matches Some(exception) && {
                        &&& exception.thread_id == crash_context.thread_id
                        &&& exception.exception_pointers == crash_context.exception_pointers
                        &&& exception.client_pointers == 0
                    }
                }
                &&& written.user_streams.len() == 1
                &&& written.user_streams[0].stream_type == 0x4767_0001
                &&& written.user_streams[0].buffer_size == 12
                &&& written.user_streams[0].buffer.len() == 12
                &&& little_endian ==> {
                    let b = written.user_streams[0].buffer;
                    &&& b[0] == 3 && b[1] == 0 && b[2] == 0 && b[3] == 0
                    &&& b[4] + 0x100 * b[5] + 0x1_0000 * b[6] + 0x100_0000 * b[7]
                        == crash_context.thread_id
                    &&& b[8] + 0x100 * b[9] + 0x1_0000 * b[10] + 0x100_0000 * b[11] == requester
                }
                &&& !little_endian ==> {
                    let b = written.user_streams[0].buffer;
                    &&& b[0] == 0 && b[1] == 0 && b[2] == 0 && b[3] == 3
                    &&& b[7] + 0x100 * b[6] + 0x1_0000 * b[5] + 0x100_0000 * b[4]
                        == crash_context.thread_id
                    &&& b[11] + 0x100 * b[10] + 0x1_0000 * b[9] + 0x100_0000 * b[8] == requester
                }
            }
            &&& flag == 0 ==> {
                let known = d4.next(Reply::ErrorCode(error));
                let failed = known.next(Reply::Flag(closed));
                &&& d4.pending() == read_error
                &&& known.pending() == close
                &&& failed.pending() is None
                &&& failed.outcome() == Some(Err::<(), Error>(Error::Io(error)))
            }
            &&& flag != 0 ==> {
                let ended = d4.next(Reply::Flag(closed));
                &&& d4.pending() == close
                &&& ended.pending() is None
                &&& ended.outcome() matches Some(Ok(_))
            }
        }),
{
    let info = BreakpadInfo::of_threads(crash_context.thread_id, requester);
    law_breakpad_info_of_threads(crash_context.thread_id, requester);
    law_breakpad_bytes(info, little_endian);
}

/// A dump has a call to make exactly as long as it has not ended.
pub proof fn law_ended_when_nothing_is_asked(dump: Dump)
    ensures
        dump.pending() is None <==> dump.outcome() is Some,
        dump.outcome() is Some <==> dump.stage is Finished,
        dump.stage matches Stage::Finished { result } ==> dump.outcome() == Some(result),
{
}

/// What specifications say of a request is what the request holds: nothing is
/// left out and nothing is changed.
pub proof fn law_view_keeps_the_request(request: Request<DumpRequest>)
    ensures
        match (request, request@) {
            (Request::CurrentThreadId, Request::CurrentThreadId) => true,
            (Request::CaptureContext, Request::CaptureContext) => true,
            (
                Request::OpenThread { desired_access, inherit_handle, thread_id },
                Request::OpenThread {
                    desired_access: access,
                    inherit_handle: inherit,
                    thread_id: id,
                },
            ) => desired_access == access && inherit_handle == inherit && thread_id == id,
            (
                Request::SuspendThread { thread },
                Request::SuspendThread { thread: viewed },
            ) => thread == viewed,
            (
                Request::GetThreadContext { thread, context_flags },
                Request::GetThreadContext { thread: viewed, context_flags: flags },
            ) => thread == viewed && context_flags == flags,
            (
                Request::ResumeThread { thread },
                Request::ResumeThread { thread: viewed },
            ) => thread == viewed,
            (
                Request::StoreException { record },
                Request::StoreException { record: viewed },
            ) => record == viewed,
            (Request::CurrentProcessId, Request::CurrentProcessId) => true,
            (
                Request::OpenProcess { desired_access, inherit_handle, process_id },
                Request::OpenProcess {
                    desired_access: access,
                    inherit_handle: inherit,
                    process_id: id,
                },
            ) => desired_access == access && inherit_handle == inherit && process_id == id,
            (Request::CurrentProcess, Request::CurrentProcess) => true,
            (Request::WriteDump(dump), Request::WriteDump(viewed)) => {
                &&& dump.process == viewed.process
                &&& dump.process_id == viewed.process_id
                &&& dump.dump_type == viewed.dump_type
                &&& dump.exception == viewed.exception
                &&& dump.user_streams@.len() == viewed.user_streams.len()
                &&& forall|i: int|
                    0 <= i < dump.user_streams@.len() ==> {
                        let stream = dump.user_streams@[i];
                        let shown = #[trigger] viewed.user_streams[i];
                        &&& stream.stream_type == shown.stream_type
                        &&& stream.buffer_size == shown.buffer_size
                        &&& stream.buffer@ == shown.buffer
                    }
            },
            (Request::LastOsError, Request::LastOsError) => true,
            (
                Request::CloseHandle { handle },
                Request::CloseHandle { handle: viewed },
            ) => handle == viewed,
            _ => false,
        },
{
}

/// Every reply of the right type is one that a call can have, but for a null
/// address of what was stored, so the laws on whole conversations leave out no
/// handle, id, count, flag or code.
pub proof fn law_every_reply_is_admitted(
    dump: DumpRequestView,
    thread: Handle,
    context_flags: ContextFlags,
    record: ExceptionRecord,
    access: u32,
    inherit: i32,
    id: u32,
    handle: Handle,
    count: u32,
    flag: i32,
    address: usize,
    code: i32,
)
    ensures
        answers(Request::CurrentThreadId, Reply::ThreadId(id)),
        answers(Request::CaptureContext, Reply::Done),
        answers(
            Request::OpenThread { desired_access: access, inherit_handle: inherit, thread_id: id },
            Reply::Handle(handle),
        ),
        answers(Request::SuspendThread { thread }, Reply::SuspendCount(count)),
        answers(Request::GetThreadContext { thread, context_flags }, Reply::Flag(flag)),
        answers(Request::ResumeThread { thread }, Reply::SuspendCount(count)),
        answers(Request::StoreException { record }, Reply::Address(address)) <==> address != 0,
        answers(Request::CurrentProcessId, Reply::ProcessId(id)),
        answers(
            Request::OpenProcess {
                desired_access: access,
                inherit_handle: inherit,
                process_id: id,
            },
            Reply::Handle(handle),
        ),
        answers(Request::CurrentProcess, Reply::Handle(handle)),
        answers(Request::WriteDump(dump), Reply::Flag(flag)),
        answers(Request::LastOsError, Reply::ErrorCode(code)),
        answers(Request::CloseHandle { handle: thread }, Reply::Flag(flag)),
{
}

/// A reply of one type is one for the calls that return that type, and for no
/// other call.
pub proof fn law_no_other_reply_is_admitted(request: Request<DumpRequestView>, reply: Reply)
    requires
        answers(request, reply),
    ensures
        match reply {
            Reply::Done => request is CaptureContext,
            Reply::ThreadId(_) => request is CurrentThreadId,
            Reply::ProcessId(_) => request is CurrentProcessId,
            Reply::Handle(_) => {
                ||| request is OpenThread
                ||| request is OpenProcess
                ||| request is CurrentProcess
            },
            Reply::SuspendCount(_) => request is SuspendThread || request is ResumeThread,
            Reply::Flag(_) => {
                ||| request is GetThreadContext
                ||| request is WriteDump
                ||| request is CloseHandle
            },
            Reply::Address(_) => request is StoreException,
            Reply::ErrorCode(_) => request is LastOsError,
        },
{
}

/// A reply that the pending call cannot have leaves the dump as it is, and so
/// does any reply once the dump has ended.
pub proof fn law_stray_reply_changes_nothing(dump: Dump, reply: Reply)
    requires
        dump.pending() matches Some(request) ==> !answers(request, reply),
    ensures
        dump.next(reply) == dump,
{
}

/// A dump keeps its byte order, whatever it is told.
pub proof fn law_byte_order_is_kept(dump: Dump, reply: Reply)
    ensures
        dump.next(reply).little_endian == dump.little_endian,
{
}

/// Whatever has failed and whatever is still open, a failed dump reads the error
/// code, closes what is open, if anything is, and ends with the error of that
/// failure and that code, whatever closing returned.
pub proof fn law_failure_is_reported(
    little_endian: bool,
    failure: Failure,
    held: Option<Handle>,
    code: i32,
    closed: i32,
)
    ensures
        ({
            let d0 = Dump { little_endian, stage: Stage::ReadError { failure, held } };
            let d1 = d0.next(Reply::ErrorCode(code));
            let ended = match held {
                Some(_) => d1.next(Reply::Flag(closed)),
                None => d1,
            };
            &&& d0.pending() == Some(Request::<DumpRequestView>::LastOsError)
            &&& (held matches Some(handle) ==> d1.pending() == Some(
                Request::<DumpRequestView>::CloseHandle { handle },
            ))
            &&& ended.pending() is None
            &&& ended.outcome() == Some(
                Err::<(), Error>(
                    match failure {
                        Failure::ThreadOpen => Error::ThreadOpen(code),
                        Failure::ThreadSuspend => Error::ThreadSuspend(code),
                        Failure::ThreadContext => Error::ThreadContext(code),
                        Failure::Io => Error::Io(code),
                    },
                ),
            )
        }),
{
}

/// Whatever the writer, a dump of the own process is written for the thread that
/// is then said to run. Every write that returns anything but zero is followed by
/// closing the writer's process and ends well, and one that returns zero is a
/// failure with that process still open.
pub proof fn law_writer_is_asked_and_closed(
    little_endian: bool,
    writer: MinidumpWriter,
    requesting_thread_id: Option<u32>,
    current: u32,
    flag: i32,
    closed: i32,
)
    ensures
        ({
            let asked = Dump { little_endian, stage: Stage::AskRequester { writer } };
            let d0 = Dump {
                little_endian,
                stage: Stage::WriteDump { writer, requesting_thread_id },
            };
            let d1 = d0.next(Reply::Flag(flag));
            &&& asked.pending() == Some(Request::<DumpRequestView>::CurrentThreadId)
            &&& asked.next(Reply::ThreadId(current)) == (Dump {
                little_endian,
                stage: Stage::WriteDump { writer, requesting_thread_id: Some(current) },
            })
            &&& d0.pending() == Some(
                Request::WriteDump(writer.dump_request(requesting_thread_id, little_endian)),
            )
            &&& flag == 0 ==> d1 == (Dump {
                little_endian,
                stage: Stage::ReadError {
                    failure: Failure::Io,
                    held: Some(writer.crashing_process),
                },
            })
            &&& flag != 0 ==> {
                let ended = d1.next(Reply::Flag(closed));
                &&& d1.pending() == Some(
                    Request::<DumpRequestView>::CloseHandle { handle: writer.crashing_process },
                )
                &&& ended.pending() is None
                &&& ended.outcome() matches Some(Ok(_))
            }
        }),
{
}

/// The log of a conversation is what the dump asks for and is told: with no
/// reply it is empty, and with one more reply it has one more exchange, of the
/// call that the dump waits for with that reply.
pub proof fn law_log_follows_the_dump(dump: Dump, replies: Seq<Reply>, reply: Reply)
    requires
        conforms(dump, replies),
        run(dump, replies).pending() matches Some(request) && answers(request, reply),
    ensures
        log(dump, Seq::empty()).len() == 0,
        conforms(dump, replies.push(reply)),
        run(dump, replies.push(reply)) == run(dump, replies).next(reply),
        log(dump, replies.push(reply)).len() == log(dump, replies).len() + 1,
        log(dump, replies.push(reply)).drop_last() == log(dump, replies),
        Some(log(dump, replies.push(reply)).last().request) == run(dump, replies).pending(),
        log(dump, replies.push(reply)).last().reply == reply,
    decreases replies.len(),
{
    let more = replies.push(reply);
    if replies.len() == 0 {
        let end = more.drop_first();
        assert(end.len() == 0);
        assert(run(dump.next(reply), end) == dump.next(reply));
        assert(log(dump.next(reply), end).len() == 0);
        assert(conforms(dump.next(reply), end));
        assert(log(dump, more).drop_last() =~= log(dump, replies));
    } else {
        let next = dump.next(replies[0]);
        let rest = replies.drop_first();
        law_log_follows_the_dump(next, rest, reply);
        assert(more.drop_first() =~= rest.push(reply));
        assert(log(dump, more).drop_last() =~= log(dump, replies));
    }
}

/// What is asked of `MiniDumpWriteDump`, for any writer: a normal dump of its
/// process through its handle with its exception, and one stream exactly where
/// the process dumps itself and the thread that asks is known. The twelve bytes
/// of the stream say that both thread ids are valid, then the writer's thread,
/// then the thread that asks.
pub proof fn law_dump_request(
    writer: MinidumpWriter,
    requesting_thread_id: Option<u32>,
    little_endian: bool,
)
    ensures
        ({
            let request = writer.dump_request(requesting_thread_id, little_endian);
            &&& request.process == writer.crashing_process
            &&& request.process_id == writer.pid
            &&& request.dump_type == 0
            &&& request.exception == writer.exc_info
            &&& writer.is_external_process || requesting_thread_id is None
                ==> request.user_streams.len() == 0
            &&& !writer.is_external_process && requesting_thread_id is Some ==> {
                let stream = request.user_streams[0];
                let b = stream.buffer;
                let requester = requesting_thread_id->0;
                &&& request.user_streams.len() == 1
                &&& stream.stream_type == 0x4767_0001
                &&& stream.buffer_size == 12
                &&& b.len() == 12
                &&& little_endian ==> {
                    &&& b[0] == 3 && b[1] == 0 && b[2] == 0 && b[3] == 0
                    &&& b[4] + 0x100 * b[5] + 0x1_0000 * b[6] + 0x100_0000 * b[7] == writer.tid
                    &&& b[8] + 0x100 * b[9] + 0x1_0000 * b[10] + 0x100_0000 * b[11] == requester
                }
                &&& !little_endian ==> {
                    &&& b[0] == 0 && b[1] == 0 && b[2] == 0 && b[3] == 3
                    &&& b[7] + 0x100 * b[6] + 0x1_0000 * b[5] + 0x100_0000 * b[4] == writer.tid
                    &&& b[11] + 0x100 * b[10] + 0x1_0000 * b[9] + 0x100_0000 * b[8] == requester
                }
            }
        }),
{
    if let Some(requester) = requesting_thread_id {
        law_breakpad_info_of_threads(writer.tid, requester);
        law_breakpad_bytes(BreakpadInfo::of_threads(writer.tid, requester), little_endian);
    }
}

/// The writer for a crash keeps what is known of the crash: handle, process,
/// thread, code and whether the process is another one. It has an exception
/// exactly where there are exception pointers, with those pointers and that
/// thread, and with one for the pointers of another process and zero for the
/// own.
pub proof fn law_writer_of_crash(
    crash_context: CrashContext,
    process: Handle,
    is_external_process: bool,
)
    ensures
        ({
            let writer = MinidumpWriter::of_crash(crash_context, process, is_external_process);
            &&& writer.crashing_process == process
            &&& writer.pid == crash_context.process_id
            &&& writer.tid == crash_context.thread_id
            &&& writer.exception_code == crash_context.exception_code
            &&& writer.is_external_process == is_external_process
            &&& writer.exc_info is None <==> crash_context.exception_pointers == 0
            &&& writer.exc_info matches Some(exception) ==> {
                &&& exception.thread_id == crash_context.thread_id
                &&& exception.exception_pointers == crash_context.exception_pointers
                &&& is_external_process ==> exception.client_pointers == 1
                &&& !is_external_process ==> exception.client_pointers == 0
            }
        }),
{
}

/// The four bytes of a number are its digits to the base of 256, in the given
/// byte order.
pub proof fn law_number_bytes(value: u32, little_endian: bool)
    ensures
        ({
            let b = u32_bytes(little_endian, value);
            &&& b.len() == 4
            &&& little_endian ==> b[0] + 0x100 * b[1] + 0x1_0000 * b[2] + 0x100_0000 * b[3]
                == value
            &&& !little_endian ==> b[3] + 0x100 * b[2] + 0x1_0000 * b[1] + 0x100_0000 * b[0]
                == value
        }),
{
    let b = u32_bytes(little_endian, value);
    lemma_digits(value);
    if little_endian {
        assert(b[0] == value % 0x100);
        assert(b[1] == value / 0x100 % 0x100);
        assert(b[2] == value / 0x1_0000 % 0x100);
        assert(b[3] == value / 0x100_0000);
    } else {
        assert(b[3] == value % 0x100);
        assert(b[2] == value / 0x100 % 0x100);
        assert(b[1] == value / 0x1_0000 % 0x100);
        assert(b[0] == value / 0x100_0000);
    }
}

proof fn lemma_digits(value: u32)
    ensures
        value % 0x100 < 0x100,
        value / 0x100 % 0x100 < 0x100,
        value / 0x1_0000 % 0x100 < 0x100,
        value / 0x100_0000 < 0x100,
        value % 0x100 + 0x100 * (value / 0x100 % 0x100) + 0x1_0000 * (value / 0x1_0000 % 0x100)
            + 0x100_0000 * (value / 0x100_0000) == value,
{
    let high = value / 0x100;
    let higher = value / 0x1_0000;
    assert(value / 0x1_0000 == high / 0x100) by (nonlinear_arith)
        requires
            high == value / 0x100,
    ;
    assert(value / 0x100_0000 == higher / 0x100) by (nonlinear_arith)
        requires
            higher == value / 0x1_0000,
    ;
}

/// The stream of any Breakpad information is its three fields, four bytes each,
/// in the given byte order.
pub proof fn law_breakpad_bytes(info: BreakpadInfo, little_endian: bool)
    ensures
        ({
            let b = info.bytes(little_endian);
            &&& b.len() == 12
            &&& little_endian ==> {
                &&& b[0] + 0x100 * b[1] + 0x1_0000 * b[2] + 0x100_0000 * b[3] == info.validity
                &&& b[4] + 0x100 * b[5] + 0x1_0000 * b[6] + 0x100_0000 * b[7]
                    == info.dump_thread_id
                &&& b[8] + 0x100 * b[9] + 0x1_0000 * b[10] + 0x100_0000 * b[11]
                    == info.requesting_thread_id
            }
            &&& !little_endian ==> {
                &&& b[3] + 0x100 * b[2] + 0x1_0000 * b[1] + 0x100_0000 * b[0] == info.validity
                &&& b[7] + 0x100 * b[6] + 0x1_0000 * b[5] + 0x100_0000 * b[4]
                    == info.dump_thread_id
                &&& b[11] + 0x100 * b[10] + 0x1_0000 * b[9] + 0x100_0000 * b[8]
                    == info.requesting_thread_id
            }
        }),
{
    let validity = u32_bytes(little_endian, info.validity);
    let dump_thread = u32_bytes(little_endian, info.dump_thread_id);
    let requesting_thread = u32_bytes(little_endian, info.requesting_thread_id);
    law_number_bytes(info.validity, little_endian);
    law_number_bytes(info.dump_thread_id, little_endian);
    law_number_bytes(info.requesting_thread_id, little_endian);
    lemma_three_fields_at(validity, dump_thread, requesting_thread);
}

proof fn lemma_three_fields_at(first: Seq<u8>, second: Seq<u8>, third: Seq<u8>)
    requires
        first.len() == 4,
        second.len() == 4,
        third.len() == 4,
    ensures
        ({
            let b = first + second + third;
            &&& b.len() == 12
            &&& b[0] == first[0] && b[1] == first[1] && b[2] == first[2] && b[3] == first[3]
            &&& b[4] == second[0] && b[5] == second[1] && b[6] == second[2] && b[7] == second[3]
            &&& b[8] == third[0] && b[9] == third[1] && b[10] == third[2] && b[11] == third[3]
        }),
{
}

/// The information on two threads names the first as the one that the dump is
/// about and the second as the one that asked, and says that both are valid.
pub proof fn law_breakpad_info_of_threads(dump_thread_id: u32, requesting_thread_id: u32)
    ensures
        ({
            let info = BreakpadInfo::of_threads(dump_thread_id, requesting_thread_id);
            &&& info.validity == 3
            &&& info.dump_thread_id == dump_thread_id
            &&& info.requesting_thread_id == requesting_thread_id
        }),
{
    assert(1u32 | 2u32 == 3u32) by (bit_vector);
}

/// A handle is null exactly where its value is zero.
pub proof fn law_null_handle(handle: Handle)
    ensures
        handle.is_null() <==> handle.value == 0,
{
}

/// A status code and what an exception record stores of it are the same 32 bits:
/// they differ by a multiple of 2 to the 32nd, and so no two codes are stored
/// alike.
pub proof fn law_status_bits(code: i32, other: i32)
    ensures
        (status_bits(code) - code) % 0x1_0000_0000 == 0,
        status_bits(code) == status_bits(other) ==> code == other,
{
}

/// The record of a code has that code and is zero everywhere else.
pub proof fn law_record_of_code(exception_code: u32)
    ensures
        ({
            let record = ExceptionRecord::code_only(exception_code);
            &&& record.exception_code == exception_code
            &&& record.exception_flags == 0
            &&& record.exception_record == 0
            &&& record.exception_address == 0
            &&& record.number_parameters == 0
            &&& forall|i: int| 0 <= i < 15 ==> #[trigger] record.exception_information[i] == 0
        }),
{
}

/// The error of a failure is of its kind and carries the code as it is.
pub proof fn law_error_keeps_kind_and_code(code: i32)
    ensures
        Failure::ThreadOpen.error(code) == Error::ThreadOpen(code),
        Failure::ThreadSuspend.error(code) == Error::ThreadSuspend(code),
        Failure::ThreadContext.error(code) == Error::ThreadContext(code),
        Failure::Io.error(code) == Error::Io(code),
{
}

} // verus!
