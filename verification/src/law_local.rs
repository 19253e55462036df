//! What a dump of the own process stores, and that it goes on as the dump of a
//! described crash.
use vstd::prelude::*;

use crate::breakpad::BreakpadInfo;
use crate::crash_context::CrashContext;
use crate::dump::{Dump, Stage};
use crate::law_conversation::{law_breakpad_bytes, law_breakpad_info_of_threads};
use crate::law_outcome::{
    calls_before_crash, context_script, dumped_code, local_crash, open_thread, read_context,
    reads_other_thread, thread_failure,
};
use crate::law_written::{ending, law_written_dump, lemma_crash_stage};
use crate::protocol::{
    DumpRequestView, ExceptionInformation, Reply, Request, UserStreamView,
};
use crate::run::{
    conforms, lemma_log_at, lemma_log_len, lemma_split, log, run, starts_crash, starts_local,
    Exchange,
};
use crate::winnt::{status_bits, FALSE, SUSPEND_FAILED};

verus! {

/// Whether a dump at this stage is one of a described crash.
spec fn dumps_crash(stage: Stage) -> bool {
    ||| stage is AskProcess
    ||| stage is OpenProcess
    ||| stage is UseOwnProcess
    ||| stage is AskRequester
    ||| stage is WriteDump
    ||| ending(stage)
}

/// What a dump of the own process that stores its exception after `stored`
/// replies has come to after `i`, which are no fewer.
spec fn described_stage(
    exception_code: i32,
    named: Option<u32>,
    replies: Seq<Reply>,
    stored: int,
    i: int,
    stage: Stage,
) -> bool {
    let exception_pointers = replies[stored]->Address_0;
    let process_id = replies[stored + 1]->ProcessId_0;
    if i == stored {
        stage == (Stage::StoreException { exception_code, named })
    } else if i == stored + 1 {
        &&& stage == (Stage::AskOwnProcess { exception_code, named, exception_pointers })
        &&& exception_pointers != 0
    } else if i == stored + 2 && named is None {
        &&& stage == (Stage::AskOwnThread { exception_code, process_id, exception_pointers })
        &&& exception_pointers != 0
    } else if i == stored + 2 || (i == stored + 3 && named is None) {
        let thread_id = match named {
            Some(thread_id) => thread_id,
            None => replies[stored + 2]->ThreadId_0,
        };
        &&& stage == Stage::crash(
            CrashContext { exception_pointers, process_id, thread_id, exception_code },
        )
        &&& exception_pointers != 0
    } else {
        dumps_crash(stage)
    }
}

/// What a dump of the own process has come to after `i` replies.
spec fn local_stage(
    exception_code: i32,
    thread_id: Option<u32>,
    replies: Seq<Reply>,
    i: int,
    stage: Stage,
) -> bool {
    let thread = replies[1]->Handle_0;
    match thread_id {
        None => if i == 0 {
            stage == (Stage::CaptureContext { exception_code, named: None })
        } else {
            described_stage(exception_code, None, replies, 1, i, stage)
        },
        Some(thread_id) => if i == 0 {
            stage == (Stage::AskThread { exception_code, thread_id })
        } else if thread_id == replies[0]->ThreadId_0 {
            if i == 1 {
                stage == (Stage::CaptureContext { exception_code, named: Some(thread_id) })
            } else {
                described_stage(exception_code, Some(thread_id), replies, 2, i, stage)
            }
        } else if i == 1 {
            stage == (Stage::OpenThread { exception_code, thread_id })
        } else if thread.is_null() {
            ending(stage)
        } else if i == 2 {
            stage == (Stage::SuspendThread { exception_code, thread_id, thread })
        } else if replies[2]->SuspendCount_0 == SUSPEND_FAILED {
            ending(stage)
        } else if i == 3 {
            stage == (Stage::GetContext { exception_code, thread_id, thread })
        } else if replies[3]->Flag_0 == 0 {
            if i == 4 {
                stage == (Stage::ResumeAfterFailure { thread })
            } else {
                ending(stage)
            }
        } else if i == 4 {
            stage == (Stage::ResumeThread { exception_code, thread_id, thread })
        } else if i == 5 {
            stage == (Stage::CloseThread { exception_code, thread_id, thread })
        } else {
            described_stage(exception_code, Some(thread_id), replies, 6, i, stage)
        },
    }
}

proof fn lemma_local_stage(
    dump: Dump,
    exception_code: Option<i32>,
    thread_id: Option<u32>,
    replies: Seq<Reply>,
    i: int,
)
    requires
        starts_local(dump, exception_code, thread_id),
        conforms(dump, replies),
        0 <= i <= replies.len(),
    ensures
        local_stage(
            dumped_code(exception_code),
            thread_id,
            replies,
            i,
            run(dump, replies.take(i)).stage,
        ),
    decreases i,
{
    if i == 0 {
        assert(replies.take(0) =~= seq![]);
    } else {
        lemma_local_stage(dump, exception_code, thread_id, replies, i - 1);
        lemma_log_at(dump, replies, i - 1);
    }
}

/// The exception that a dump of the own process stores has the given code, or
/// the code of a noncontinuable exception where none was given, and is zero
/// everywhere else. Beside it stands the context of the right thread. Where a
/// thread other than the one that runs was named, that is the whole context as
/// it was read from that thread, opened by its id. Else the context of the
/// thread that runs was captured just before.
pub proof fn law_context_of_the_right_thread(
    dump: Dump,
    exception_code: Option<i32>,
    thread_id: Option<u32>,
    replies: Seq<Reply>,
    i: int,
)
    requires
        starts_local(dump, exception_code, thread_id),
        conforms(dump, replies),
        0 <= i < replies.len(),
        log(dump, replies)[i].request is StoreException,
    ensures
        log(dump, replies)[i].request matches Request::StoreException { record }
            && record.is_code_only(status_bits(dumped_code(exception_code))),
        log(dump, replies)[i].request matches Request::StoreException { record } && {
            &&& match exception_code {
                Some(code) => (record.exception_code - code) % 0x1_0000_0000 == 0,
                None => record.exception_code == 0xc000_0025,
            }
            &&& record.exception_flags == 0
            &&& record.exception_record == 0
            &&& record.exception_address == 0
            &&& record.number_parameters == 0
            &&& forall|k: int| 0 <= k < 15 ==> #[trigger] record.exception_information[k] == 0
        },
        if reads_other_thread(thread_id, replies) {
            let opened = log(dump, replies)[1];
            let read = log(dump, replies)[3];
            &&& i == 6
            &&& opened.request == open_thread(thread_id->0)
            &&& opened.reply matches Reply::Handle(thread) && read.request == read_context(thread)
            &&& read.reply matches Reply::Flag(flag) && flag != 0
        } else {
            i > 0 && log(dump, replies)[i - 1].request is CaptureContext
        },
{
    lemma_local_stage(dump, exception_code, thread_id, replies, i);
    lemma_log_at(dump, replies, i);
    if reads_other_thread(thread_id, replies) {
        lemma_local_stage(dump, exception_code, thread_id, replies, 1);
        lemma_log_at(dump, replies, 1);
        lemma_local_stage(dump, exception_code, thread_id, replies, 3);
        lemma_log_at(dump, replies, 3);
    } else {
        lemma_local_stage(dump, exception_code, thread_id, replies, i - 1);
        lemma_log_at(dump, replies, i - 1);
    }
}

/// A dump of the own process that gets a context goes on as the dump of a
/// described crash. The crash is the one whose exception was stored, at an
/// address that is not null. Its process is the one that runs, its thread is the
/// named one or else the one that runs, and its code is the given one or that of
/// a noncontinuable exception. From there on every call, every reply and the end
/// are those of the dump of that crash.
pub proof fn law_local_goes_on_as_crash(
    dump: Dump,
    exception_code: Option<i32>,
    thread_id: Option<u32>,
    replies: Seq<Reply>,
)
    requires
        starts_local(dump, exception_code, thread_id),
        conforms(dump, replies),
        thread_failure(thread_id, replies) is None,
        calls_before_crash(exception_code, thread_id, replies) <= replies.len(),
    ensures
        ({
            let stored = context_script(thread_id, replies).len() as int;
            let made = calls_before_crash(exception_code, thread_id, replies);
            let crash_context = local_crash(exception_code, thread_id, replies);
            let crash = run(dump, replies.take(made));
            let exchanges = log(dump, replies);
            &&& exchanges[stored].request is StoreException
            &&& exchanges[stored].reply == Reply::Address(crash_context.exception_pointers)
            &&& crash_context.exception_pointers != 0
            &&& exchanges[stored + 1] == (Exchange {
                request: Request::<DumpRequestView>::CurrentProcessId,
                reply: Reply::ProcessId(crash_context.process_id),
            })
            &&& match thread_id {
                Some(named) => crash_context.thread_id == named,
                None => exchanges[stored + 2] == (Exchange {
                    request: Request::<DumpRequestView>::CurrentThreadId,
                    reply: Reply::ThreadId(crash_context.thread_id),
                }),
            }
            &&& crash_context.exception_code == dumped_code(exception_code)
            &&& starts_crash(crash, crash_context)
            &&& crash.little_endian == dump.little_endian
            &&& conforms(crash, replies.skip(made))
            &&& exchanges == log(dump, replies.take(made)) + log(crash, replies.skip(made))
            &&& run(dump, replies) == run(crash, replies.skip(made))
        }),
{
    let stored = context_script(thread_id, replies).len() as int;
    let made = calls_before_crash(exception_code, thread_id, replies);
    lemma_split(dump, replies, made);
    lemma_local_stage(dump, exception_code, thread_id, replies, made);
    lemma_local_stage(dump, exception_code, thread_id, replies, stored);
    lemma_log_at(dump, replies, stored);
    lemma_local_stage(dump, exception_code, thread_id, replies, stored + 1);
    lemma_log_at(dump, replies, stored + 1);
    if thread_id is None {
        lemma_local_stage(dump, exception_code, thread_id, replies, stored + 2);
        lemma_log_at(dump, replies, stored + 2);
    }
}

/// A dump of the own process stays inside it: as long as the own process has
/// the one id `own`, no process is opened. What is written is a dump of that
/// process with the exception that was stored in it, on the named thread or else
/// the one that runs, and with the Breakpad information on that thread and the
/// one that asked.
pub proof fn law_local_dump_stays_inside(
    dump: Dump,
    exception_code: Option<i32>,
    thread_id: Option<u32>,
    replies: Seq<Reply>,
    own: u32,
    i: int,
)
    requires
        starts_local(dump, exception_code, thread_id),
        conforms(dump, replies),
        forall|j: int|
            0 <= j < replies.len() && (#[trigger] log(dump, replies)[j]).request is CurrentProcessId
                ==> log(dump, replies)[j].reply == Reply::ProcessId(own),
        0 <= i < replies.len(),
    ensures
        !(log(dump, replies)[i].request is OpenProcess),
        log(dump, replies)[i].request matches Request::WriteDump(written) ==> {
            let stored = context_script(thread_id, replies).len() as int;
            let made = calls_before_crash(exception_code, thread_id, replies);
            let exchanges = log(dump, replies);
            &&& thread_failure(thread_id, replies) is None
            &&& made + 3 == i
            &&& written.process_id == own
            &&& written.exception matches Some(exception) && {
                &&& exchanges[stored].request is StoreException
                &&& exchanges[stored].reply == Reply::Address(exception.exception_pointers)
                &&& exception.exception_pointers != 0
                &&& exception.client_pointers == FALSE
                &&& match thread_id {
                    Some(named) => exception.thread_id == named,
                    None => exchanges[stored + 2] == (Exchange {
                        request: Request::<DumpRequestView>::CurrentThreadId,
                        reply: Reply::ThreadId(exception.thread_id),
                    }),
                }
                &&& exchanges[made + 2].request is CurrentThreadId
                &&& exchanges[made + 2].reply matches Reply::ThreadId(requester)
                    && written.user_streams == seq![
                    UserStreamView::breakpad(
                        BreakpadInfo::of_threads(exception.thread_id, requester),
                        dump.little_endian,
                    ),
                ]
            }
        },
{
    let made = calls_before_crash(exception_code, thread_id, replies);
    let exchanges = log(dump, replies);
    lemma_log_at(dump, replies, i);
    lemma_local_stage(dump, exception_code, thread_id, replies, i);
    if exchanges[i].request is OpenProcess || exchanges[i].request is WriteDump {
        assert(thread_failure(thread_id, replies) is None && made < i);
        law_local_goes_on_as_crash(dump, exception_code, thread_id, replies);
        lemma_crash_inside(dump, exception_code, thread_id, replies, own, i);
    }
}

/// The law for a call of the dump that a dump of the own process goes on as.
proof fn lemma_crash_inside(
    dump: Dump,
    exception_code: Option<i32>,
    thread_id: Option<u32>,
    replies: Seq<Reply>,
    own: u32,
    i: int,
)
    requires
        starts_local(dump, exception_code, thread_id),
        conforms(dump, replies),
        forall|j: int|
            0 <= j < replies.len() && (#[trigger] log(dump, replies)[j]).request is CurrentProcessId
                ==> log(dump, replies)[j].reply == Reply::ProcessId(own),
        thread_failure(thread_id, replies) is None,
        calls_before_crash(exception_code, thread_id, replies) < i < replies.len(),
    ensures
        !(log(dump, replies)[i].request is OpenProcess),
        log(dump, replies)[i].request matches Request::WriteDump(written) ==> {
            let made = calls_before_crash(exception_code, thread_id, replies);
            let crash_context = local_crash(exception_code, thread_id, replies);
            &&& made + 3 == i
            &&& written.process_id == own
            &&& written.exception == Some(
                ExceptionInformation {
                    thread_id: crash_context.thread_id,
                    exception_pointers: crash_context.exception_pointers,
                    client_pointers: FALSE,
                },
            )
            &&& log(dump, replies)[made + 2].request is CurrentThreadId
            &&& log(dump, replies)[made + 2].reply matches Reply::ThreadId(requester)
                && written.user_streams == seq![
                UserStreamView::breakpad(
                    BreakpadInfo::of_threads(crash_context.thread_id, requester),
                    dump.little_endian,
                ),
            ]
        },
{
    let made = calls_before_crash(exception_code, thread_id, replies);
    let crash_context = local_crash(exception_code, thread_id, replies);
    let crash = run(dump, replies.take(made));
    let rest = replies.skip(made);
    law_local_goes_on_as_crash(dump, exception_code, thread_id, replies);
    lemma_log_len(dump, replies.take(made));
    lemma_log_at(crash, rest, i - made);
    lemma_log_at(crash, rest, 0);
    assert(log(crash, rest)[0] == log(dump, replies)[made]);
    assert(rest.take(0) =~= seq![]);
    assert(rest[0] == Reply::ProcessId(own));
    assert(crash_context.process_id == own);
    assert(log(crash, rest)[i - made] == log(dump, replies)[i]);
    lemma_crash_stage(crash, crash_context, rest, i - made);
    if let Request::WriteDump(written) = log(dump, replies)[i].request {
        law_written_dump(crash, crash_context, rest, i - made, written);
        lemma_log_at(crash, rest, 2);
        lemma_crash_stage(crash, crash_context, rest, 2);
        assert(log(crash, rest)[2] == log(dump, replies)[made + 2]);
    }
}

/// Whatever thread a dump of the own process opens is the named one, and it is
/// opened to read its context: with the rights to suspend and resume it, to read
/// its context and to query it, for a handle that is not inherited.
pub proof fn law_only_the_named_thread_is_opened(
    dump: Dump,
    exception_code: Option<i32>,
    thread_id: Option<u32>,
    replies: Seq<Reply>,
    i: int,
)
    requires
        starts_local(dump, exception_code, thread_id),
        conforms(dump, replies),
        0 <= i < replies.len(),
    ensures
        log(dump, replies)[i].request matches Request::OpenThread {
            desired_access,
            inherit_handle,
            thread_id: opened,
        } ==> {
            &&& thread_id == Some(opened)
            &&& desired_access == 0x4a
            &&& inherit_handle == 0
            &&& i == 1
            &&& replies[0] matches Reply::ThreadId(current) && current != opened
        },
{
    lemma_local_stage(dump, exception_code, thread_id, replies, i);
    lemma_log_at(dump, replies, i);
    lemma_log_at(dump, replies, 0);
    assert(replies.take(0) =~= seq![]);
    assert(0x8u32 | 0x40u32 | 0x2u32 == 0x4au32) by (bit_vector);
}

/// The stream that a dump of the own process writes, as bytes: both thread ids
/// valid, then the named thread or else the one that runs, then the reply to the
/// last question for the thread that runs.
pub proof fn law_local_written_stream(
    dump: Dump,
    exception_code: Option<i32>,
    thread_id: Option<u32>,
    replies: Seq<Reply>,
    own: u32,
    i: int,
    written: DumpRequestView,
)
    requires
        starts_local(dump, exception_code, thread_id),
        conforms(dump, replies),
        forall|j: int|
            0 <= j < replies.len() && (#[trigger] log(dump, replies)[j]).request is CurrentProcessId
                ==> log(dump, replies)[j].reply == Reply::ProcessId(own),
        0 <= i < replies.len(),
        log(dump, replies)[i].request == Request::WriteDump(written),
    ensures
        i > 0,
        log(dump, replies)[i - 1].request is CurrentThreadId,
        log(dump, replies)[i - 1].reply matches Reply::ThreadId(requester)
            && written.exception matches Some(exception) && {
            let b = written.user_streams[0].buffer;
            &&& thread_id matches Some(named) ==> exception.thread_id == named
            &&& written.user_streams.len() == 1
            &&& written.user_streams[0].stream_type == 0x4767_0001
            &&& written.user_streams[0].buffer_size == 12
            &&& b.len() == 12
            &&& dump.little_endian ==> {
                &&& b[0] == 3 && b[1] == 0 && b[2] == 0 && b[3] == 0
                &&& b[4] + 0x100 * b[5] + 0x1_0000 * b[6] + 0x100_0000 * b[7]
                    == exception.thread_id
                &&& b[8] + 0x100 * b[9] + 0x1_0000 * b[10] + 0x100_0000 * b[11] == requester
            }
            &&& !dump.little_endian ==> {
                &&& b[0] == 0 && b[1] == 0 && b[2] == 0 && b[3] == 3
                &&& b[7] + 0x100 * b[6] + 0x1_0000 * b[5] + 0x100_0000 * b[4]
                    == exception.thread_id
                &&& b[11] + 0x100 * b[10] + 0x1_0000 * b[9] + 0x100_0000 * b[8] == requester
            }
        },
{
    law_local_dump_stays_inside(dump, exception_code, thread_id, replies, own, i);
    let requester = log(dump, replies)[i - 1].reply->ThreadId_0;
    let thread = (written.exception->0).thread_id;
    law_breakpad_info_of_threads(thread, requester);
    law_breakpad_bytes(BreakpadInfo::of_threads(thread, requester), dump.little_endian);
}

} // verus!
