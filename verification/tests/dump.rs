//! Whole conversations, played through call by call.
use minidump_writer::crash_context::CrashContext;
use minidump_writer::dump::{Dump, Stage};
use minidump_writer::errors::Error;
use minidump_writer::minidump_writer::MinidumpWriter;
use minidump_writer::protocol::{
    ContextFlags, DumpRequest, ExceptionInformation, ExceptionRecord, Reply, Request, UserStream,
};
use minidump_writer::winnt::Handle;

type Call = Request<DumpRequest>;

const THREAD: Handle = Handle { value: 0x44 };
const PROCESS: Handle = Handle { value: 0x88 };
const NULL: Handle = Handle { value: 0 };

/// Plays the replies and returns the calls that were made, with how it ended.
fn play(mut dump: Dump, replies: &[Reply]) -> (Vec<Call>, Option<Result<(), Error>>) {
    let mut calls = Vec::new();
    for reply in replies {
        calls.push(dump.request().expect("the dump has ended too early"));
        assert_eq!(dump.result(), None);
        dump = dump.resume(*reply);
    }
    if dump.result().is_some() {
        assert_eq!(dump.request(), None);
    }
    (calls, dump.result())
}

fn open_thread(thread_id: u32) -> Call {
    Request::OpenThread {
        desired_access: 0x4a,
        inherit_handle: 0,
        thread_id,
    }
}

fn read_context(thread: Handle) -> Call {
    Request::GetThreadContext {
        thread,
        context_flags: ContextFlags {
            x86: 0x1_003f,
            x86_64: 0x10_001f,
            aarch64: 0x40_001f,
        },
    }
}

fn store_exception(exception_code: u32) -> Call {
    Request::StoreException {
        record: ExceptionRecord {
            exception_code,
            exception_flags: 0,
            exception_record: 0,
            exception_address: 0,
            number_parameters: 0,
            exception_information: [0; 15],
        },
    }
}

fn open_process(process_id: u32) -> Call {
    Request::OpenProcess {
        desired_access: 0x1f_ffff,
        inherit_handle: 0,
        process_id,
    }
}

fn crash() -> CrashContext {
    CrashContext {
        exception_pointers: 0x7000,
        process_id: 100,
        thread_id: 7,
        exception_code: 5,
    }
}

fn breakpad_stream(dump_thread_id: u8, requesting_thread_id: u8) -> UserStream {
    UserStream {
        stream_type: 0x4767_0001,
        buffer_size: 12,
        buffer: [
            3, 0, 0, 0, dump_thread_id, 0, 0, 0, requesting_thread_id, 0, 0, 0,
        ],
    }
}

fn own_dump(exception_pointers: usize, thread_id: u8, requester: u8) -> Call {
    Request::WriteDump(DumpRequest {
        process: PROCESS,
        process_id: 100,
        dump_type: 0,
        exception: Some(ExceptionInformation {
            thread_id: u32::from(thread_id),
            exception_pointers,
            client_pointers: 0,
        }),
        user_streams: vec![breakpad_stream(thread_id, requester)],
    })
}

fn other_dump() -> Call {
    Request::WriteDump(DumpRequest {
        process: PROCESS,
        process_id: 100,
        dump_type: 0,
        exception: Some(ExceptionInformation {
            thread_id: 7,
            exception_pointers: 0x7000,
            client_pointers: 1,
        }),
        user_streams: vec![],
    })
}

#[test]
fn crash_of_the_own_process_is_dumped() {
    let (calls, result) = play(
        MinidumpWriter::crash_dump(crash(), true),
        &[
            Reply::ProcessId(100),
            Reply::Handle(PROCESS),
            Reply::ThreadId(9),
            Reply::Flag(1),
            Reply::Flag(1),
        ],
    );
    assert_eq!(
        calls,
        vec![
            Request::CurrentProcessId,
            Request::CurrentProcess,
            Request::CurrentThreadId,
            own_dump(0x7000, 7, 9),
            Request::CloseHandle { handle: PROCESS },
        ]
    );
    assert_eq!(result, Some(Ok(())));
}

#[test]
fn crash_of_another_process_is_dumped() {
    let (calls, result) = play(
        MinidumpWriter::crash_dump(crash(), true),
        &[
            Reply::ProcessId(101),
            Reply::Handle(PROCESS),
            Reply::Flag(1),
            Reply::Flag(1),
        ],
    );
    assert_eq!(
        calls,
        vec![
            Request::CurrentProcessId,
            open_process(100),
            other_dump(),
            Request::CloseHandle { handle: PROCESS },
        ]
    );
    assert_eq!(result, Some(Ok(())));
}

#[test]
fn another_process_that_cannot_be_opened_is_an_io_error() {
    let (calls, result) = play(
        MinidumpWriter::crash_dump(crash(), true),
        &[
            Reply::ProcessId(101),
            Reply::Handle(NULL),
            Reply::ErrorCode(5),
        ],
    );
    assert_eq!(
        calls,
        vec![
            Request::CurrentProcessId,
            open_process(100),
            Request::LastOsError,
        ]
    );
    assert_eq!(result, Some(Err(Error::Io(5))));
}

#[test]
fn failed_write_is_an_io_error_and_closes_the_process() {
    let (calls, result) = play(
        MinidumpWriter::crash_dump(crash(), true),
        &[
            Reply::ProcessId(101),
            Reply::Handle(PROCESS),
            Reply::Flag(0),
            Reply::ErrorCode(112),
            Reply::Flag(1),
        ],
    );
    assert_eq!(
        calls[2..],
        [
            other_dump(),
            Request::LastOsError,
            Request::CloseHandle { handle: PROCESS },
        ]
    );
    assert_eq!(result, Some(Err(Error::Io(112))));
}

#[test]
fn failed_write_of_the_own_process_is_an_io_error() {
    let (calls, result) = play(
        MinidumpWriter::crash_dump(crash(), true),
        &[
            Reply::ProcessId(100),
            Reply::Handle(PROCESS),
            Reply::ThreadId(9),
            Reply::Flag(0),
            Reply::ErrorCode(-2),
            Reply::Flag(0),
        ],
    );
    assert_eq!(calls.len(), 6);
    assert_eq!(calls[4], Request::LastOsError);
    assert_eq!(calls[5], Request::CloseHandle { handle: PROCESS });
    assert_eq!(result, Some(Err(Error::Io(-2))));
}

#[test]
fn crash_without_pointers_has_no_exception() {
    let context = CrashContext {
        exception_pointers: 0,
        ..crash()
    };
    let (calls, _) = play(
        MinidumpWriter::crash_dump(context, true),
        &[
            Reply::ProcessId(101),
            Reply::Handle(PROCESS),
            Reply::Flag(1),
        ],
    );
    match &calls[2] {
        Request::WriteDump(written) => assert_eq!(written.exception, None),
        other => panic!("{:?}", other),
    }
}

#[test]
fn local_dump_without_a_thread_uses_the_thread_that_runs() {
    let (calls, result) = play(
        MinidumpWriter::local_dump(None, None, true),
        &[
            Reply::Done,
            Reply::Address(0x9000),
            Reply::ProcessId(100),
            Reply::ThreadId(8),
            Reply::ProcessId(100),
            Reply::Handle(PROCESS),
            Reply::ThreadId(8),
            Reply::Flag(1),
            Reply::Flag(1),
        ],
    );
    assert_eq!(
        calls,
        vec![
            Request::CaptureContext,
            store_exception(0xc000_0025),
            Request::CurrentProcessId,
            Request::CurrentThreadId,
            Request::CurrentProcessId,
            Request::CurrentProcess,
            Request::CurrentThreadId,
            own_dump(0x9000, 8, 8),
            Request::CloseHandle { handle: PROCESS },
        ]
    );
    assert_eq!(result, Some(Ok(())));
}

#[test]
fn local_dump_of_the_thread_that_runs_does_not_suspend_it() {
    let (calls, result) = play(
        MinidumpWriter::local_dump(Some(0x8000_0003u32 as i32), Some(8), true),
        &[
            Reply::ThreadId(8),
            Reply::Done,
            Reply::Address(0x9000),
            Reply::ProcessId(100),
            Reply::ProcessId(100),
            Reply::Handle(PROCESS),
            Reply::ThreadId(8),
            Reply::Flag(1),
            Reply::Flag(1),
        ],
    );
    assert_eq!(
        calls,
        vec![
            Request::CurrentThreadId,
            Request::CaptureContext,
            store_exception(0x8000_0003),
            Request::CurrentProcessId,
            Request::CurrentProcessId,
            Request::CurrentProcess,
            Request::CurrentThreadId,
            own_dump(0x9000, 8, 8),
            Request::CloseHandle { handle: PROCESS },
        ]
    );
    assert_eq!(result, Some(Ok(())));
}

#[test]
fn local_dump_of_another_thread_suspends_reads_resumes_and_closes_it() {
    let (calls, result) = play(
        MinidumpWriter::local_dump(Some(17), Some(8), true),
        &[
            Reply::ThreadId(9),
            Reply::Handle(THREAD),
            Reply::SuspendCount(0),
            Reply::Flag(1),
            Reply::SuspendCount(1),
            Reply::Flag(1),
            Reply::Address(0x9000),
            Reply::ProcessId(100),
            Reply::ProcessId(100),
            Reply::Handle(PROCESS),
            Reply::ThreadId(9),
            Reply::Flag(1),
            Reply::Flag(1),
        ],
    );
    assert_eq!(
        calls,
        vec![
            Request::CurrentThreadId,
            open_thread(8),
            Request::SuspendThread { thread: THREAD },
            read_context(THREAD),
            Request::ResumeThread { thread: THREAD },
            Request::CloseHandle { handle: THREAD },
            store_exception(17),
            Request::CurrentProcessId,
            Request::CurrentProcessId,
            Request::CurrentProcess,
            Request::CurrentThreadId,
            own_dump(0x9000, 8, 9),
            Request::CloseHandle { handle: PROCESS },
        ]
    );
    assert_eq!(result, Some(Ok(())));
}

#[test]
fn longest_local_dump_takes_fourteen_calls() {
    let (calls, result) = play(
        MinidumpWriter::local_dump(None, Some(8), true),
        &[
            Reply::ThreadId(9),
            Reply::Handle(THREAD),
            Reply::SuspendCount(0),
            Reply::Flag(1),
            Reply::SuspendCount(1),
            Reply::Flag(1),
            Reply::Address(0x9000),
            Reply::ProcessId(100),
            Reply::ProcessId(100),
            Reply::Handle(PROCESS),
            Reply::ThreadId(9),
            Reply::Flag(0),
            Reply::ErrorCode(3),
            Reply::Flag(1),
        ],
    );
    assert_eq!(calls.len(), 14);
    assert_eq!(result, Some(Err(Error::Io(3))));
}

#[test]
fn thread_that_cannot_be_opened() {
    let (calls, result) = play(
        MinidumpWriter::local_dump(None, Some(8), true),
        &[
            Reply::ThreadId(9),
            Reply::Handle(NULL),
            Reply::ErrorCode(87),
        ],
    );
    assert_eq!(
        calls,
        vec![
            Request::CurrentThreadId,
            open_thread(8),
            Request::LastOsError
        ]
    );
    assert_eq!(result, Some(Err(Error::ThreadOpen(87))));
}

#[test]
fn thread_that_cannot_be_suspended_is_closed() {
    let (calls, result) = play(
        MinidumpWriter::local_dump(None, Some(8), true),
        &[
            Reply::ThreadId(9),
            Reply::Handle(THREAD),
            Reply::SuspendCount(u32::MAX),
            Reply::ErrorCode(5),
            Reply::Flag(1),
        ],
    );
    assert_eq!(
        calls[2..],
        [
            Request::SuspendThread { thread: THREAD },
            Request::LastOsError,
            Request::CloseHandle { handle: THREAD },
        ]
    );
    assert_eq!(result, Some(Err(Error::ThreadSuspend(5))));
}

#[test]
fn thread_whose_context_cannot_be_read_is_resumed_and_closed() {
    let (calls, result) = play(
        MinidumpWriter::local_dump(None, Some(8), true),
        &[
            Reply::ThreadId(9),
            Reply::Handle(THREAD),
            Reply::SuspendCount(4),
            Reply::Flag(0),
            // Whatever resuming returns, there is nothing to be done about it
            Reply::SuspendCount(u32::MAX),
            Reply::ErrorCode(31),
            Reply::Flag(0),
        ],
    );
    assert_eq!(
        calls[2..],
        [
            Request::SuspendThread { thread: THREAD },
            read_context(THREAD),
            Request::ResumeThread { thread: THREAD },
            Request::LastOsError,
            Request::CloseHandle { handle: THREAD },
        ]
    );
    assert_eq!(result, Some(Err(Error::ThreadContext(31))));
}

#[test]
fn reply_that_cannot_be_changes_nothing() {
    let dump = MinidumpWriter::dump_local_context(None, Some(8));
    assert_eq!(dump.resume(Reply::Done), dump);
    assert_eq!(dump.resume(Reply::ProcessId(8)), dump);
    let storing = MinidumpWriter::dump_local_context(None, None).resume(Reply::Done);
    assert_eq!(storing.resume(Reply::Address(0)), storing);
    assert_ne!(storing.resume(Reply::Address(1)), storing);
    let ended = Dump {
        little_endian: true,
        stage: Stage::Finished { result: Ok(()) },
    };
    assert_eq!(ended.resume(Reply::Flag(0)), ended);
}

#[test]
fn local_dump_starts_at_the_thread() {
    let dump = MinidumpWriter::dump_local_context(Some(3), Some(8));
    assert_eq!(
        dump.stage,
        Stage::AskThread {
            exception_code: 3,
            thread_id: 8
        }
    );
    let dump = MinidumpWriter::dump_local_context(None, None);
    assert_eq!(
        dump.stage,
        Stage::CaptureContext {
            exception_code: -1073741787,
            named: None
        }
    );
}

#[test]
fn started_dumps_use_the_byte_order_of_the_machine() {
    let little_endian = 1u16.to_ne_bytes() == [1, 0];
    assert_eq!(
        MinidumpWriter::dump_local_context(None, None),
        MinidumpWriter::local_dump(None, None, little_endian)
    );
    assert_eq!(
        MinidumpWriter::dump_crash_context(crash()),
        MinidumpWriter::crash_dump(crash(), little_endian)
    );
}
