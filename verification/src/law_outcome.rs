//! What a whole conversation consists of and how it ends.
use vstd::prelude::*;

use crate::crash_context::CrashContext;
use crate::dump::{thread_access, Dump, Stage};
use crate::errors::Error;
use crate::minidump_writer::MinidumpWriter;
use crate::protocol::{ContextFlags, DumpRequestView, ExceptionRecord, Reply, Request};
use crate::run::{
    complete, conforms, lemma_ended, lemma_first, lemma_goes_on, lemma_log_at, log, requests, run,
    starts, starts_crash, starts_local, Exchange,
};
use crate::winnt::{
    status_bits, Handle, FALSE, PROCESS_ALL_ACCESS, STATUS_NONCONTINUABLE_EXCEPTION, SUSPEND_FAILED,
};

verus! {

/// The call that asks for the crashed process where it is another one.
pub open spec fn open_process(process_id: u32) -> Request<DumpRequestView> {
    Request::OpenProcess { desired_access: PROCESS_ALL_ACCESS, inherit_handle: FALSE, process_id }
}

/// The call that asks for a thread to read its context.
pub open spec fn open_thread(thread_id: u32) -> Request<DumpRequestView> {
    Request::OpenThread { desired_access: thread_access(), inherit_handle: FALSE, thread_id }
}

/// The call that reads the whole context of a thread.
pub open spec fn read_context(thread: Handle) -> Request<DumpRequestView> {
    Request::GetThreadContext { thread, context_flags: ContextFlags::whole() }
}

/// The call that stores an exception with this code and nothing else.
pub open spec fn store_exception(exception_code: i32) -> Request<DumpRequestView> {
    Request::StoreException { record: ExceptionRecord::code_only(status_bits(exception_code)) }
}

/// The call that writes the dump of `crash_context`.
pub open spec fn write_dump(
    crash_context: CrashContext,
    process: Handle,
    external: bool,
    requester: Option<u32>,
    little_endian: bool,
) -> Request<DumpRequestView> {
    Request::WriteDump(
        MinidumpWriter::of_crash(crash_context, process, external).dump_request(
            requester,
            little_endian,
        ),
    )
}

/// The calls that end a conversation once the dump was to be written: the
/// handle is closed, and before that, where the writing failed, the reason is
/// read.
pub open spec fn after_write(process: Handle, flag: i32) -> Seq<Request<DumpRequestView>> {
    if flag == 0 {
        seq![Request::LastOsError, Request::CloseHandle { handle: process }]
    } else {
        seq![Request::CloseHandle { handle: process }]
    }
}

/// The calls that a dump of `crash_context` makes, given what they return.
pub open spec fn crash_script(
    crash_context: CrashContext,
    replies: Seq<Reply>,
    little_endian: bool,
) -> Seq<Request<DumpRequestView>> {
    let external = replies[0]->ProcessId_0 != crash_context.process_id;
    let process = replies[1]->Handle_0;
    if external && process.is_null() {
        seq![
            Request::CurrentProcessId,
            open_process(crash_context.process_id),
            Request::LastOsError,
        ]
    } else if external {
        seq![
            Request::CurrentProcessId,
            open_process(crash_context.process_id),
            write_dump(crash_context, process, true, None, little_endian),
        ] + after_write(process, replies[2]->Flag_0)
    } else {
        seq![
            Request::CurrentProcessId,
            Request::CurrentProcess,
            Request::CurrentThreadId,
            write_dump(
                crash_context,
                process,
                false,
                Some(replies[2]->ThreadId_0),
                little_endian,
            ),
        ] + after_write(process, replies[3]->Flag_0)
    }
}

/// How a dump of `crash_context` ends, given what the calls return: it fails
/// where the crashed process is another one and cannot be opened, and where
/// the dump cannot be written.
pub open spec fn crash_result(crash_context: CrashContext, replies: Seq<Reply>) -> Result<
    (),
    Error,
> {
    let external = replies[0]->ProcessId_0 != crash_context.process_id;
    let write: int = if external {
        2
    } else {
        3
    };
    if external && replies[1]->Handle_0.is_null() {
        Err(Error::Io(replies[2]->ErrorCode_0))
    } else if replies[write]->Flag_0 == 0 {
        Err(Error::Io(replies[write + 1]->ErrorCode_0))
    } else {
        Ok(())
    }
}

/// A dump of a described crash makes exactly the calls of [`crash_script`] and
/// ends as [`crash_result`] says.
pub proof fn law_crash_outcome(dump: Dump, crash_context: CrashContext, replies: Seq<Reply>)
    requires
        starts_crash(dump, crash_context),
        complete(dump, replies),
    ensures
        requests(dump, replies) == crash_script(crash_context, replies, dump.little_endian),
        run(dump, replies).outcome() == Some(crash_result(crash_context, replies)),
{
    lemma_goes_on(dump, replies);
    lemma_first(dump, replies);
    let (d1, r1) = (dump.next(replies[0]), replies.drop_first());
    lemma_goes_on(d1, r1);
    lemma_first(d1, r1);
    let (d2, r2) = (d1.next(r1[0]), r1.drop_first());
    lemma_goes_on(d2, r2);
    lemma_first(d2, r2);
    let (d3, r3) = (d2.next(r2[0]), r2.drop_first());
    let external = replies[0]->ProcessId_0 != crash_context.process_id;
    if external && replies[1]->Handle_0.is_null() {
        lemma_ended(d3, r3);
    } else if external {
        lemma_closing(d3, r3);
    } else {
        lemma_goes_on(d3, r3);
        lemma_first(d3, r3);
        lemma_closing(d3.next(r3[0]), r3.drop_first());
    }
    assert(requests(dump, replies) =~= crash_script(crash_context, replies, dump.little_endian));
}

/// A dump that reads an error or closes its last handle makes those calls and
/// ends with what it has.
proof fn lemma_closing(dump: Dump, replies: Seq<Reply>)
    requires
        complete(dump, replies),
        dump.stage is ReadError || dump.stage is CloseHandle,
    ensures
        replies.len() > 0,
        dump.stage matches Stage::CloseHandle { handle, result } ==> {
            &&& requests(dump, replies) == seq![
                Request::<DumpRequestView>::CloseHandle { handle },
            ]
            &&& run(dump, replies).outcome() == Some(result)
        },
        dump.stage matches Stage::ReadError { failure, held: Some(handle) } ==> {
            &&& requests(dump, replies) == seq![
                Request::<DumpRequestView>::LastOsError,
                Request::<DumpRequestView>::CloseHandle { handle },
            ]
            &&& run(dump, replies).outcome() == Some(
                Err::<(), Error>(failure.error(replies[0]->ErrorCode_0)),
            )
        },
        dump.stage matches Stage::ReadError { failure, held: None } ==> {
            &&& requests(dump, replies) == seq![Request::<DumpRequestView>::LastOsError]
            &&& run(dump, replies).outcome() == Some(
                Err::<(), Error>(failure.error(replies[0]->ErrorCode_0)),
            )
        },
{
    lemma_goes_on(dump, replies);
    lemma_first(dump, replies);
    let (d1, r1) = (dump.next(replies[0]), replies.drop_first());
    if d1.outcome() is None {
        lemma_goes_on(d1, r1);
        lemma_first(d1, r1);
        lemma_ended(d1.next(r1[0]), r1.drop_first());
    } else {
        lemma_ended(d1, r1);
    }
    if let Stage::CloseHandle { handle, result } = dump.stage {
        assert(requests(dump, replies) =~= seq![
            Request::<DumpRequestView>::CloseHandle { handle },
        ]);
    } else if let Stage::ReadError { failure, held: Some(handle) } = dump.stage {
        assert(requests(dump, replies) =~= seq![
            Request::<DumpRequestView>::LastOsError,
            Request::<DumpRequestView>::CloseHandle { handle },
        ]);
    } else {
        assert(requests(dump, replies) =~= seq![Request::<DumpRequestView>::LastOsError]);
    }
}

/// Whether the context of a dump of the own process is read from another
/// thread than the one that runs: one was named, and the first reply was
/// another one.
pub open spec fn reads_other_thread(thread_id: Option<u32>, replies: Seq<Reply>) -> bool {
    thread_id matches Some(named) && replies[0]->ThreadId_0 != named
}

/// Why the context of the named thread could not be had, given what the calls
/// return; nothing where it could.
pub open spec fn thread_failure(thread_id: Option<u32>, replies: Seq<Reply>) -> Option<Error> {
    if !reads_other_thread(thread_id, replies) {
        None
    } else if replies[1]->Handle_0.is_null() {
        Some(Error::ThreadOpen(replies[2]->ErrorCode_0))
    } else if replies[2]->SuspendCount_0 == SUSPEND_FAILED {
        Some(Error::ThreadSuspend(replies[3]->ErrorCode_0))
    } else if replies[3]->Flag_0 == 0 {
        Some(Error::ThreadContext(replies[5]->ErrorCode_0))
    } else {
        None
    }
}

/// The calls by which a dump of the own process gets a context, or fails to.
pub open spec fn context_script(thread_id: Option<u32>, replies: Seq<Reply>) -> Seq<
    Request<DumpRequestView>,
> {
    let thread = replies[1]->Handle_0;
    match thread_id {
        None => seq![Request::CaptureContext],
        Some(named) => if replies[0]->ThreadId_0 == named {
            seq![Request::CurrentThreadId, Request::CaptureContext]
        } else {
            seq![Request::CurrentThreadId, open_thread(named)] + if thread.is_null() {
                seq![Request::LastOsError]
            } else if replies[2]->SuspendCount_0 == SUSPEND_FAILED {
                seq![
                    Request::SuspendThread { thread },
                    Request::LastOsError,
                    Request::CloseHandle { handle: thread },
                ]
            } else if replies[3]->Flag_0 == 0 {
                seq![
                    Request::SuspendThread { thread },
                    read_context(thread),
                    Request::ResumeThread { thread },
                    Request::LastOsError,
                    Request::CloseHandle { handle: thread },
                ]
            } else {
                seq![
                    Request::SuspendThread { thread },
                    read_context(thread),
                    Request::ResumeThread { thread },
                    Request::CloseHandle { handle: thread },
                ]
            }
        },
    }
}

/// The exception code that a dump of the own process carries.
pub open spec fn dumped_code(exception_code: Option<i32>) -> i32 {
    match exception_code {
        Some(code) => code,
        None => STATUS_NONCONTINUABLE_EXCEPTION,
    }
}

/// The calls by which a dump of the own process, once there is a context,
/// learns what else describes the crash.
pub open spec fn describe_script(exception_code: Option<i32>, thread_id: Option<u32>) -> Seq<
    Request<DumpRequestView>,
> {
    let store = store_exception(dumped_code(exception_code));
    if thread_id is None {
        seq![store, Request::CurrentProcessId, Request::CurrentThreadId]
    } else {
        seq![store, Request::CurrentProcessId]
    }
}

/// The number of calls that a dump of the own process makes before it goes on
/// as the dump of a described crash.
pub open spec fn calls_before_crash(
    exception_code: Option<i32>,
    thread_id: Option<u32>,
    replies: Seq<Reply>,
) -> int {
    (context_script(thread_id, replies) + describe_script(exception_code, thread_id)).len() as int
}

/// The crash that a dump of the own process dumps: the stored exception, in the
/// own process, on the named thread or else the one that runs.
pub open spec fn local_crash(
    exception_code: Option<i32>,
    thread_id: Option<u32>,
    replies: Seq<Reply>,
) -> CrashContext {
    let stored = context_script(thread_id, replies).len() as int;
    CrashContext {
        exception_pointers: replies[stored]->Address_0,
        process_id: replies[stored + 1]->ProcessId_0,
        thread_id: match thread_id {
            Some(named) => named,
            None => replies[stored + 2]->ThreadId_0,
        },
        exception_code: dumped_code(exception_code),
    }
}

/// The calls that a dump of the own process makes, given what they return.
pub open spec fn local_script(
    exception_code: Option<i32>,
    thread_id: Option<u32>,
    replies: Seq<Reply>,
    little_endian: bool,
) -> Seq<Request<DumpRequestView>> {
    if thread_failure(thread_id, replies) is Some {
        context_script(thread_id, replies)
    } else {
        context_script(thread_id, replies) + describe_script(exception_code, thread_id)
            + crash_script(
            local_crash(exception_code, thread_id, replies),
            replies.skip(calls_before_crash(exception_code, thread_id, replies)),
            little_endian,
        )
    }
}

/// How a dump of the own process ends, given what the calls return: it fails
/// where the context of the named thread cannot be had, and else as the dump of
/// the described crash does.
pub open spec fn local_result(
    exception_code: Option<i32>,
    thread_id: Option<u32>,
    replies: Seq<Reply>,
) -> Result<(), Error> {
    match thread_failure(thread_id, replies) {
        Some(error) => Err(error),
        None => crash_result(
            local_crash(exception_code, thread_id, replies),
            replies.skip(calls_before_crash(exception_code, thread_id, replies)),
        ),
    }
}

/// A dump of the own process makes exactly the calls of [`local_script`] and
/// ends as [`local_result`] says. The crash that it dumps, once it has a context,
/// has an exception.
pub proof fn law_local_outcome(
    dump: Dump,
    exception_code: Option<i32>,
    thread_id: Option<u32>,
    replies: Seq<Reply>,
)
    requires
        starts_local(dump, exception_code, thread_id),
        complete(dump, replies),
    ensures
        requests(dump, replies) == local_script(
            exception_code,
            thread_id,
            replies,
            dump.little_endian,
        ),
        run(dump, replies).outcome() == Some(local_result(exception_code, thread_id, replies)),
        thread_failure(thread_id, replies) is None ==> local_crash(
            exception_code,
            thread_id,
            replies,
        ).exception_pointers != 0,
{
    let script = local_script(exception_code, thread_id, replies, dump.little_endian);
    if reads_other_thread(thread_id, replies) {
        lemma_other_thread(dump, exception_code, thread_id, replies);
    } else {
        lemma_goes_on(dump, replies);
        lemma_first(dump, replies);
        let (d1, r1) = (dump.next(replies[0]), replies.drop_first());
        if thread_id is None {
            lemma_described(d1, r1, replies, 1);
        } else {
            lemma_goes_on(d1, r1);
            lemma_first(d1, r1);
            let (d2, r2) = (d1.next(r1[0]), r1.drop_first());
            assert(r2 =~= replies.skip(2));
            lemma_described(d2, r2, replies, 2);
        }
        assert(requests(dump, replies) =~= script);
    }
}

/// The law for a dump of the own process that reads another thread.
proof fn lemma_other_thread(
    dump: Dump,
    exception_code: Option<i32>,
    thread_id: Option<u32>,
    replies: Seq<Reply>,
)
    requires
        starts_local(dump, exception_code, thread_id),
        complete(dump, replies),
        reads_other_thread(thread_id, replies),
    ensures
        requests(dump, replies) == local_script(
            exception_code,
            thread_id,
            replies,
            dump.little_endian,
        ),
        run(dump, replies).outcome() == Some(local_result(exception_code, thread_id, replies)),
        thread_failure(thread_id, replies) is None ==> local_crash(
            exception_code,
            thread_id,
            replies,
        ).exception_pointers != 0,
{
    let script = local_script(exception_code, thread_id, replies, dump.little_endian);
    let thread = replies[1]->Handle_0;
    lemma_goes_on(dump, replies);
    lemma_first(dump, replies);
    let (d1, r1) = (dump.next(replies[0]), replies.drop_first());
    lemma_goes_on(d1, r1);
    lemma_first(d1, r1);
    let (d2, r2) = (d1.next(r1[0]), r1.drop_first());
    let opening = seq![Request::<DumpRequestView>::CurrentThreadId, open_thread(thread_id->0)];
    assert(requests(dump, replies) =~= opening + requests(d2, r2));
    if thread.is_null() {
        lemma_closing(d2, r2);
        assert(requests(dump, replies) =~= script);
    } else {
        assert(r2 =~= replies.skip(2));
        lemma_opened_thread(d2, r2);
        assert(r2[0] == replies[2] && r2[1] == replies[3]);
        if replies[2]->SuspendCount_0 == SUSPEND_FAILED || replies[3]->Flag_0 == 0 {
            assert(requests(dump, replies) =~= script);
        } else {
            let (d6, r6) = (run(d2, r2.take(4)), r2.skip(4));
            assert(r6 =~= replies.skip(6));
            lemma_described(d6, r6, replies, 6);
            assert(requests(dump, replies) =~= script);
        }
    }
}

/// A dump of the own process that has opened another thread reads its context,
/// or fails to.
proof fn lemma_opened_thread(dump: Dump, replies: Seq<Reply>)
    requires
        complete(dump, replies),
        dump.stage is SuspendThread,
    ensures
        replies.len() >= 2,
        dump.stage matches Stage::SuspendThread { exception_code, thread_id, thread } ==> {
            let suspend = Request::<DumpRequestView>::SuspendThread { thread };
            let read = read_context(thread);
            let resume = Request::<DumpRequestView>::ResumeThread { thread };
            let close = Request::<DumpRequestView>::CloseHandle { handle: thread };
            let failed = Request::<DumpRequestView>::LastOsError;
            if replies[0]->SuspendCount_0 == SUSPEND_FAILED {
                &&& requests(dump, replies) == seq![suspend, failed, close]
                &&& run(dump, replies).outcome() == Some(
                    Err::<(), Error>(Error::ThreadSuspend(replies[1]->ErrorCode_0)),
                )
            } else if replies[1]->Flag_0 == 0 {
                &&& replies.len() >= 4
                &&& requests(dump, replies) == seq![suspend, read, resume, failed, close]
                &&& run(dump, replies).outcome() == Some(
                    Err::<(), Error>(Error::ThreadContext(replies[3]->ErrorCode_0)),
                )
            } else {
                let ready = run(dump, replies.take(4));
                &&& replies.len() >= 4
                &&& ready.stage == (Stage::StoreException {
                    exception_code,
                    named: Some(thread_id),
                })
                &&& ready.little_endian == dump.little_endian
                &&& complete(ready, replies.skip(4))
                &&& requests(dump, replies) == seq![suspend, read, resume, close] + requests(
                    ready,
                    replies.skip(4),
                )
                &&& run(dump, replies) == run(ready, replies.skip(4))
            }
        },
{
    if let Stage::SuspendThread { exception_code, thread_id, thread } = dump.stage {
        let suspend = Request::<DumpRequestView>::SuspendThread { thread };
        let read = read_context(thread);
        let resume = Request::<DumpRequestView>::ResumeThread { thread };
        let close = Request::<DumpRequestView>::CloseHandle { handle: thread };
        let failed = Request::<DumpRequestView>::LastOsError;
        lemma_goes_on(dump, replies);
        lemma_first(dump, replies);
        let (d1, r1) = (dump.next(replies[0]), replies.drop_first());
        if replies[0]->SuspendCount_0 == SUSPEND_FAILED {
            lemma_closing(d1, r1);
            assert(requests(dump, replies) =~= seq![suspend, failed, close]);
        } else {
            lemma_goes_on(d1, r1);
            lemma_first(d1, r1);
            let (d2, r2) = (d1.next(r1[0]), r1.drop_first());
            lemma_goes_on(d2, r2);
            lemma_first(d2, r2);
            let (d3, r3) = (d2.next(r2[0]), r2.drop_first());
            if replies[1]->Flag_0 == 0 {
                lemma_closing(d3, r3);
                assert(requests(dump, replies) =~= seq![suspend, read, resume, failed, close]);
            } else {
                lemma_goes_on(d3, r3);
                lemma_first(d3, r3);
                let (d4, r4) = (d3.next(r3[0]), r3.drop_first());
                assert(r4 =~= replies.skip(4));
                lemma_four(dump, replies);
                assert(requests(dump, replies) =~= seq![suspend, read, resume, close] + requests(
                    d4,
                    r4,
                ));
            }
        }
    }
}

/// Four replies are four steps.
proof fn lemma_four(dump: Dump, replies: Seq<Reply>)
    requires
        replies.len() >= 4,
    ensures
        run(dump, replies.take(4)) == dump.next(replies[0]).next(replies[1]).next(replies[2]).next(
            replies[3],
        ),
{
    reveal_with_fuel(run, 5);
    assert(replies.take(4).drop_first().drop_first().drop_first().drop_first() =~= seq![]);
}

/// A dump of the own process that has a context, `made` calls into the
/// conversation `all`, describes the crash and dumps it.
proof fn lemma_described(dump: Dump, replies: Seq<Reply>, all: Seq<Reply>, made: int)
    requires
        complete(dump, replies),
        dump.stage is StoreException,
        0 <= made <= all.len(),
        replies == all.skip(made),
    ensures
        dump.stage matches Stage::StoreException { exception_code, named: thread_id } ==> {
            let calls = describe_script(Some(exception_code), thread_id);
            let crash_context = CrashContext {
                exception_pointers: all[made]->Address_0,
                process_id: all[made + 1]->ProcessId_0,
                thread_id: match thread_id {
                    Some(named) => named,
                    None => all[made + 2]->ThreadId_0,
                },
                exception_code,
            };
            let rest = all.skip(made + calls.len());
            &&& requests(dump, replies) == calls + crash_script(
                crash_context,
                rest,
                dump.little_endian,
            )
            &&& run(dump, replies).outcome() == Some(crash_result(crash_context, rest))
            &&& crash_context.exception_pointers != 0
        },
{
    if let Stage::StoreException { exception_code, named: thread_id } = dump.stage {
        lemma_goes_on(dump, replies);
        lemma_first(dump, replies);
        let (d1, r1) = (dump.next(replies[0]), replies.drop_first());
        lemma_goes_on(d1, r1);
        lemma_first(d1, r1);
        let (d2, r2) = (d1.next(r1[0]), r1.drop_first());
        let calls = describe_script(Some(exception_code), thread_id);
        let rest = all.skip(made + calls.len());
        if let Some(named) = thread_id {
            assert(r2 =~= rest);
            law_crash_outcome(d2, d2.stage->AskProcess_crash_context, r2);
            assert(requests(dump, replies) =~= calls + requests(d2, r2));
        } else {
            lemma_goes_on(d2, r2);
            lemma_first(d2, r2);
            let (d3, r3) = (d2.next(r2[0]), r2.drop_first());
            assert(r3 =~= rest);
            law_crash_outcome(d3, d3.stage->AskProcess_crash_context, r3);
            assert(requests(dump, replies) =~= calls + requests(d3, r3));
        }
    }
}

/// A dump of a described crash fails with [`Error::Io`] or not at all.
pub proof fn law_crash_errors(dump: Dump, crash_context: CrashContext, replies: Seq<Reply>)
    requires
        starts_crash(dump, crash_context),
        complete(dump, replies),
    ensures
        run(dump, replies).outcome() matches Some(Err(error)) ==> error is Io,
{
    law_crash_outcome(dump, crash_context, replies);
}

/// A dump of the own process can fail, beyond what a dump of a described crash
/// can, only where a thread other than the one that runs was named.
pub proof fn law_thread_errors(
    dump: Dump,
    exception_code: Option<i32>,
    thread_id: Option<u32>,
    replies: Seq<Reply>,
)
    requires
        starts_local(dump, exception_code, thread_id),
        complete(dump, replies),
    ensures
        run(dump, replies).outcome() matches Some(Err(error)) ==> error is Io
            || reads_other_thread(thread_id, replies),
{
    law_local_outcome(dump, exception_code, thread_id, replies);
}

/// Whether a call wrote a dump.
pub open spec fn wrote_dump(exchange: Exchange) -> bool {
    &&& exchange.request is WriteDump
    &&& exchange.reply matches Reply::Flag(flag)
    &&& flag != 0
}

/// A dump succeeds exactly where a call wrote it.
pub proof fn law_succeeds_when_written(dump: Dump, replies: Seq<Reply>)
    requires
        starts(dump),
        complete(dump, replies),
    ensures
        run(dump, replies).outcome()->0 is Ok <==> exists|i: int|
            0 <= i < replies.len() && wrote_dump(#[trigger] log(dump, replies)[i]),
{
    lemma_succeeding(dump, replies, replies.len() as int);
    assert(replies.take(replies.len() as int) =~= replies);
}

/// Whether the dump is written at a stage.
spec fn succeeding(stage: Stage) -> bool {
    ||| stage matches Stage::CloseHandle { result: Ok(_), .. }
    ||| stage matches Stage::Finished { result: Ok(_) }
}

proof fn lemma_succeeding(dump: Dump, replies: Seq<Reply>, end: int)
    requires
        conforms(dump, replies),
        !succeeding(dump.stage),
        0 <= end <= replies.len(),
    ensures
        succeeding(run(dump, replies.take(end)).stage) <==> exists|i: int|
            0 <= i < end && wrote_dump(#[trigger] log(dump, replies)[i]),
    decreases end,
{
    if end == 0 {
        assert(replies.take(0) =~= seq![]);
    } else {
        lemma_succeeding(dump, replies, end - 1);
        lemma_log_at(dump, replies, end - 1);
        let before = run(dump, replies.take(end - 1)).stage;
        let after = run(dump, replies.take(end)).stage;
        assert(succeeding(after) <==> succeeding(before) || wrote_dump(
            log(dump, replies)[end - 1],
        ));
    }
}

} // verus!
