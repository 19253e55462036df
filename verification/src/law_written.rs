//! What is written of a crash, and what can be read back of it.
use vstd::prelude::*;

use crate::breakpad::{
    dump_thread_id_bit, requesting_thread_id_bit, u32_bytes, u32_value, BreakpadInfo,
};
use crate::crash_context::CrashContext;
use crate::dump::{Dump, Stage};
use crate::dump_type::MiniDumpNormal;
use crate::law_conversation::{law_breakpad_bytes, law_breakpad_info_of_threads};
use crate::minidump_writer::MinidumpWriter;
use crate::protocol::{DumpRequestView, Reply, Request, UserStreamView};
use crate::run::{conforms, lemma_log_at, lemma_split, log, run, starts_crash};
use crate::winnt::{FALSE, TRUE};

verus! {

/// Four bytes read back in the order they were written in give the number.
pub proof fn law_number_reads_back(little_endian: bool, value: u32)
    ensures
        u32_bytes(little_endian, value).len() == 4,
        u32_value(little_endian, u32_bytes(little_endian, value)) == value,
{
}

/// The Breakpad information reads back from its twelve bytes, and says that
/// both thread ids are meaningful.
pub proof fn law_breakpad_info_reads_back(
    dump_thread_id: u32,
    requesting_thread_id: u32,
    little_endian: bool,
)
    ensures
        ({
            let info = BreakpadInfo::of_threads(dump_thread_id, requesting_thread_id);
            let bytes = info.bytes(little_endian);
            &&& bytes.len() == 12
            &&& u32_value(little_endian, bytes.subrange(0, 4)) == info.validity
            &&& u32_value(little_endian, bytes.subrange(4, 8)) == dump_thread_id
            &&& u32_value(little_endian, bytes.subrange(8, 12)) == requesting_thread_id
            &&& info.validity & dump_thread_id_bit() != 0
            &&& info.validity & requesting_thread_id_bit() != 0
        }),
{
    let info = BreakpadInfo::of_threads(dump_thread_id, requesting_thread_id);
    law_number_reads_back(little_endian, info.validity);
    law_number_reads_back(little_endian, dump_thread_id);
    law_number_reads_back(little_endian, requesting_thread_id);
    lemma_three_fields(
        u32_bytes(little_endian, info.validity),
        u32_bytes(little_endian, dump_thread_id),
        u32_bytes(little_endian, requesting_thread_id),
    );
    assert((1u32 | 2u32) & 1u32 != 0 && (1u32 | 2u32) & 2u32 != 0) by (bit_vector);
}

proof fn lemma_three_fields(first: Seq<u8>, second: Seq<u8>, third: Seq<u8>)
    requires
        first.len() == 4,
        second.len() == 4,
        third.len() == 4,
    ensures
        (first + second + third).subrange(0, 4) == first,
        (first + second + third).subrange(4, 8) == second,
        (first + second + third).subrange(8, 12) == third,
{
    assert((first + second + third).subrange(0, 4) =~= first);
    assert((first + second + third).subrange(4, 8) =~= second);
    assert((first + second + third).subrange(8, 12) =~= third);
}

/// Whether nothing is left to do but to read an error and to close a handle.
pub(crate) open spec fn ending(stage: Stage) -> bool {
    stage is ReadError || stage is CloseHandle || stage is Finished
}

/// What a dump of `crash_context` has come to after `i` replies.
pub(crate) open spec fn crash_stage(
    crash_context: CrashContext,
    replies: Seq<Reply>,
    i: int,
    stage: Stage,
) -> bool {
    let external = replies[0]->ProcessId_0 != crash_context.process_id;
    let process = replies[1]->Handle_0;
    let writer = MinidumpWriter::of_crash(crash_context, process, external);
    if i == 0 {
        stage == Stage::crash(crash_context)
    } else if i == 1 {
        stage == if external {
            Stage::OpenProcess { crash_context }
        } else {
            Stage::UseOwnProcess { crash_context }
        }
    } else if i == 2 && external {
        ending(stage) || stage == (Stage::WriteDump { writer, requesting_thread_id: None })
    } else if i == 2 {
        stage == (Stage::AskRequester { writer })
    } else if i == 3 && !external {
        stage == (Stage::WriteDump {
            writer,
            requesting_thread_id: Some(replies[2]->ThreadId_0),
        })
    } else {
        ending(stage)
    }
}

pub(crate) proof fn lemma_crash_stage(
    dump: Dump,
    crash_context: CrashContext,
    replies: Seq<Reply>,
    i: int,
)
    requires
        starts_crash(dump, crash_context),
        conforms(dump, replies),
        0 <= i < replies.len(),
    ensures
        crash_stage(crash_context, replies, i, run(dump, replies.take(i)).stage),
    decreases i,
{
    if i == 0 {
        assert(replies.take(0) =~= seq![]);
    } else {
        lemma_crash_stage(dump, crash_context, replies, i - 1);
        lemma_log_at(dump, replies, i - 1);
    }
}

/// Whatever a dump of a described crash writes is a normal minidump of the
/// crashed process, through the handle that it got for it. It carries the
/// exception exactly where there are exception pointers, with the thread on
/// which it occurred. The pointers are said to be those of another process, and
/// the Breakpad information is left out, exactly where the crashed process is
/// not the own one; where it is, the information names the thread of the crash
/// and the thread that asked.
pub proof fn law_written_dump(
    dump: Dump,
    crash_context: CrashContext,
    replies: Seq<Reply>,
    i: int,
    written: DumpRequestView,
)
    requires
        starts_crash(dump, crash_context),
        conforms(dump, replies),
        0 <= i < replies.len(),
        log(dump, replies)[i].request == Request::WriteDump(written),
    ensures
        ({
            let external = replies[0]->ProcessId_0 != crash_context.process_id;
            &&& replies[0] is ProcessId
            &&& replies[1] == Reply::Handle(written.process)
            &&& written.process_id == crash_context.process_id
            &&& written.dump_type == MiniDumpNormal
            &&& written.exception is None <==> crash_context.exception_pointers == 0
            &&& written.exception matches Some(exception) ==> {
                &&& exception.thread_id == crash_context.thread_id
                &&& exception.exception_pointers == crash_context.exception_pointers
                &&& exception.client_pointers == if external {
                    TRUE
                } else {
                    FALSE
                }
            }
            &&& external ==> written.user_streams.len() == 0
            &&& !external ==> replies[2] is ThreadId && written.user_streams == seq![
                UserStreamView::breakpad(
                    BreakpadInfo::of_threads(crash_context.thread_id, replies[2]->ThreadId_0),
                    dump.little_endian,
                ),
            ]
        }),
{
    lemma_crash_stage(dump, crash_context, replies, i);
    lemma_log_at(dump, replies, i);
    lemma_split(dump, replies, i);
    lemma_log_at(dump, replies, 0);
    assert(replies.take(0) =~= seq![]);
    lemma_log_at(dump, replies, 1);
    lemma_crash_stage(dump, crash_context, replies, 1);
    if i == 3 {
        lemma_log_at(dump, replies, 2);
        lemma_crash_stage(dump, crash_context, replies, 2);
    }
}

/// What a dump of a crash of the own process writes as its one stream, as bytes:
/// both thread ids valid, then the thread of the crash, then the thread that the
/// last question for it named. The exception is said to be in its own memory.
pub proof fn law_written_stream(
    dump: Dump,
    crash_context: CrashContext,
    replies: Seq<Reply>,
    i: int,
    written: DumpRequestView,
)
    requires
        starts_crash(dump, crash_context),
        conforms(dump, replies),
        0 <= i < replies.len(),
        log(dump, replies)[i].request == Request::WriteDump(written),
        replies[0] == Reply::ProcessId(crash_context.process_id),
    ensures
        i == 3,
        log(dump, replies)[2].request is CurrentThreadId,
        log(dump, replies)[2].reply matches Reply::ThreadId(requester) && {
            let b = written.user_streams[0].buffer;
            &&& written.user_streams.len() == 1
            &&& written.user_streams[0].stream_type == 0x4767_0001
            &&& written.user_streams[0].buffer_size == 12
            &&& b.len() == 12
            &&& dump.little_endian ==> {
                &&& b[0] == 3 && b[1] == 0 && b[2] == 0 && b[3] == 0
                &&& b[4] + 0x100 * b[5] + 0x1_0000 * b[6] + 0x100_0000 * b[7]
                    == crash_context.thread_id
                &&& b[8] + 0x100 * b[9] + 0x1_0000 * b[10] + 0x100_0000 * b[11] == requester
            }
            &&& !dump.little_endian ==> {
                &&& b[0] == 0 && b[1] == 0 && b[2] == 0 && b[3] == 3
                &&& b[7] + 0x100 * b[6] + 0x1_0000 * b[5] + 0x100_0000 * b[4]
                    == crash_context.thread_id
                &&& b[11] + 0x100 * b[10] + 0x1_0000 * b[9] + 0x100_0000 * b[8] == requester
            }
        },
{
    law_written_dump(dump, crash_context, replies, i, written);
    lemma_crash_stage(dump, crash_context, replies, i);
    lemma_log_at(dump, replies, i);
    lemma_crash_stage(dump, crash_context, replies, 2);
    lemma_log_at(dump, replies, 2);
    let requester = replies[2]->ThreadId_0;
    law_breakpad_info_of_threads(crash_context.thread_id, requester);
    law_breakpad_bytes(
        BreakpadInfo::of_threads(crash_context.thread_id, requester),
        dump.little_endian,
    );
}

/// What comes of opening another process is decided by the value of the handle
/// alone. Anything but zero is handed on to write the dump with, and zero is a
/// failure, whose error is read.
pub proof fn law_opened_process_is_dumped(
    dump: Dump,
    crash_context: CrashContext,
    replies: Seq<Reply>,
    i: int,
)
    requires
        starts_crash(dump, crash_context),
        conforms(dump, replies),
        0 <= i < replies.len(),
    ensures
        log(dump, replies)[i].request matches Request::OpenProcess {
            desired_access,
            inherit_handle,
            process_id,
        } ==> {
            let then = run(dump, replies.take(i + 1)).pending();
            &&& i == 1
            &&& desired_access == 0x1f_ffff
            &&& inherit_handle == 0
            &&& process_id == crash_context.process_id
            &&& replies[0] matches Reply::ProcessId(own) && own != crash_context.process_id
            &&& log(dump, replies)[i].reply matches Reply::Handle(process) && {
                &&& process.value != 0 ==> (then matches Some(Request::WriteDump(written))
                    && written.process.value == process.value)
                &&& process.value == 0 ==> then == Some(Request::<DumpRequestView>::LastOsError)
                &&& i + 1 < replies.len() ==> Some(log(dump, replies)[i + 1].request) == then
            }
        },
{
    lemma_crash_stage(dump, crash_context, replies, i);
    lemma_log_at(dump, replies, i);
    lemma_log_at(dump, replies, 0);
    assert(replies.take(0) =~= seq![]);
    if i + 1 < replies.len() {
        lemma_log_at(dump, replies, i + 1);
    }
}

} // verus!
