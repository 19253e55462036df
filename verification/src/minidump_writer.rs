//! The writer of one minidump.
use vstd::prelude::*;

use crate::breakpad::{breakpad_info_stream, is_native_order, native_order, BreakpadInfo};
use crate::crash_context::CrashContext;
use crate::dump::{Dump, Stage};
use crate::dump_type::MiniDumpNormal;
use crate::protocol::{
    DumpRequest, DumpRequestView, ExceptionInformation, UserStream, UserStreamView,
};
use crate::winnt::{Handle, FALSE, STATUS_NONCONTINUABLE_EXCEPTION, TRUE};

verus! {

/// Everything that is known of a dump once the process to dump is at hand.
#[derive(Clone, Copy, Debug, PartialEq, Eq)]
pub struct MinidumpWriter {
    /// Optional exception information
    pub exc_info: Option<ExceptionInformation>,
    /// Handle to the crashing process, which could be ourselves
    pub crashing_process: Handle,
    /// The id of the process we are dumping
    pub pid: u32,
    /// The id of the 'crashing' thread
    pub tid: u32,
    /// The exception code for the dump
    pub exception_code: i32,
    /// Whether we are dumping a process other than the current one
    pub is_external_process: bool,
}

/// The exception of `crash_context` as `MiniDumpWriteDump` is told of it: none
/// where there are no exception pointers, and else the pointers with the word
/// that they belong to the dumped process exactly where that is another one.
pub open spec fn exception_information(
    crash_context: CrashContext,
    is_external_process: bool,
) -> Option<ExceptionInformation> {
    if crash_context.exception_pointers == 0 {
        None
    } else {
        Some(
            ExceptionInformation {
                thread_id: crash_context.thread_id,
                exception_pointers: crash_context.exception_pointers,
                client_pointers: if is_external_process {
                    TRUE
                } else {
                    FALSE
                },
            },
        )
    }
}

impl MinidumpWriter {
    /// Starts a minidump of the current process, optionally with an exception
    /// code and the CPU context of the given thread. If no thread is given, the
    /// CPU context of the current thread is used.
    ///
    /// Dumping the process that runs is inherently unreliable in the event of an
    /// actual exception. Where possible, dump from another process, with
    /// [`Self::dump_crash_context`].
    ///
    /// The stream that the dump adds is written in the byte order that scroll
    /// gives for the machine; [`Self::local_dump`] is told the order.
    pub fn dump_local_context(exception_code: Option<i32>, thread_id: Option<u32>) -> (dump: Dump)
        ensures
            dump.stage == Stage::local(exception_code, thread_id),
            is_native_order(dump.little_endian),
            dump.stage.wf(),
    {
        MinidumpWriter::local_dump(exception_code, thread_id, native_order())
    }

    /// Starts a minidump of the current process whose stream is in the given
    /// byte order.
    pub fn local_dump(
        exception_code: Option<i32>,
        thread_id: Option<u32>,
        little_endian: bool,
    ) -> (dump: Dump)
        ensures
            dump == (Dump { little_endian, stage: Stage::local(exception_code, thread_id) }),
            dump.stage.wf(),
    {
        let exception_code: i32 = match exception_code {
            Some(code) => code,
            None => STATUS_NONCONTINUABLE_EXCEPTION,
        };
        let stage = match thread_id {
            // A thread has to be suspended before its context can be read,
            // which would be bad for the thread that runs, so the first thing
            // to learn is whether that is the one.
            Some(thread_id) => Stage::AskThread { exception_code, thread_id },
            None => Stage::CaptureContext { exception_code, named: None },
        };
        Dump { little_endian, stage }
    }

    /// Starts a minidump for the crash that `crash_context` describes.
    ///
    /// The stream that the dump may add is written in the byte order that scroll
    /// gives for the machine; [`Self::crash_dump`] is told the order.
    pub fn dump_crash_context(crash_context: CrashContext) -> (dump: Dump)
        ensures
            dump.stage == Stage::crash(crash_context),
            is_native_order(dump.little_endian),
            dump.stage.wf(),
    {
        MinidumpWriter::crash_dump(crash_context, native_order())
    }

    /// Starts a minidump for the crash whose stream, if it has one, is in the
    /// given byte order.
    pub fn crash_dump(crash_context: CrashContext, little_endian: bool) -> (dump: Dump)
        ensures
            dump == (Dump { little_endian, stage: Stage::crash(crash_context) }),
            dump.stage.wf(),
    {
        Dump { little_endian, stage: Stage::AskProcess { crash_context } }
    }

    /// The writer for `crash_context` with a handle to the crashed process.
    pub open spec fn of_crash(
        crash_context: CrashContext,
        crashing_process: Handle,
        is_external_process: bool,
    ) -> MinidumpWriter {
        MinidumpWriter {
            exc_info: exception_information(crash_context, is_external_process),
            crashing_process,
            pid: crash_context.process_id,
            tid: crash_context.thread_id,
            exception_code: crash_context.exception_code,
            is_external_process,
        }
    }

    /// What holds of every writer: the process has a handle where it was opened,
    /// and the exception, if there is one, is that of the crashing thread, with
    /// the right word on whose its pointers are.
    pub open spec fn wf(self) -> bool {
        &&& self.is_external_process ==> !self.crashing_process.is_null()
        &&& self.exc_info matches Some(exception) ==> {
            &&& exception.thread_id == self.tid
            &&& exception.exception_pointers != 0
            &&& exception.client_pointers == if self.is_external_process {
                TRUE
            } else {
                FALSE
            }
        }
    }

    /// Takes up the crash once there is a handle to the crashed process.
    pub fn new(
        crash_context: CrashContext,
        crashing_process: Handle,
        is_external_process: bool,
    ) -> (writer: MinidumpWriter)
        ensures
            writer == MinidumpWriter::of_crash(
                crash_context,
                crashing_process,
                is_external_process,
            ),
            !(is_external_process && crashing_process.is_null()) ==> writer.wf(),
    {
        let exc_info = if crash_context.exception_pointers != 0 {
            Some(
                ExceptionInformation {
                    thread_id: crash_context.thread_id,
                    exception_pointers: crash_context.exception_pointers,
                    // The pointers lead into the memory of the process that
                    // crashed. Where that is another one, they have to be read
                    // from there.
                    client_pointers: if is_external_process {
                        TRUE
                    } else {
                        FALSE
                    },
                },
            )
        } else {
            None
        };
        MinidumpWriter {
            exc_info,
            crashing_process,
            pid: crash_context.process_id,
            tid: crash_context.thread_id,
            exception_code: crash_context.exception_code,
            is_external_process,
        }
    }

    /// The streams that the dump adds: the Breakpad information where the
    /// process dumps itself and the thread that asked is known, else none.
    pub open spec fn user_streams(
        self,
        requesting_thread_id: Option<u32>,
        little_endian: bool,
    ) -> Seq<UserStreamView> {
        match requesting_thread_id {
            Some(requesting) if !self.is_external_process => seq![
                UserStreamView::breakpad(
                    BreakpadInfo::of_threads(self.tid, requesting),
                    little_endian,
                ),
            ],
            _ => seq![],
        }
    }

    /// What `MiniDumpWriteDump` is asked for.
    pub open spec fn dump_request(
        self,
        requesting_thread_id: Option<u32>,
        little_endian: bool,
    ) -> DumpRequestView {
        DumpRequestView {
            process: self.crashing_process,
            process_id: self.pid,
            dump_type: MiniDumpNormal,
            exception: self.exc_info,
            user_streams: self.user_streams(requesting_thread_id, little_endian),
        }
    }

    /// What to ask `MiniDumpWriteDump` for. `requesting_thread_id` is the
    /// thread that runs, which only a dump of the own process needs.
    pub fn dump(&self, requesting_thread_id: Option<u32>, little_endian: bool) -> (request:
        DumpRequest)
        ensures
            request@ == self.dump_request(requesting_thread_id, little_endian),
    {
        let mut user_streams: Vec<UserStream> = Vec::with_capacity(1);
        let breakpad_info = match requesting_thread_id {
            Some(requesting) => self.fill_breakpad_stream(requesting, little_endian),
            None => None,
        };
        if let Some(buffer) = breakpad_info {
            user_streams.push(
                UserStream {
                    stream_type: breakpad_info_stream(),
                    buffer_size: buffer.len() as u32,
                    buffer,
                },
            );
        }
        let request = DumpRequest {
            process: self.crashing_process,
            process_id: self.pid,
            dump_type: MiniDumpNormal,
            exception: self.exc_info,
            user_streams,
        };
        assert(request@.user_streams =~= self.user_streams(requesting_thread_id, little_endian));
        request
    }

    /// The Breakpad information stream, which helps the Breakpad processor to
    /// tell which threads are relevant. It is only relevant for a dump of the
    /// own process, so there is none for another one.
    pub fn fill_breakpad_stream(&self, requesting_thread_id: u32, little_endian: bool) -> (stream:
        Option<[u8; 12]>)
        ensures
            stream is None <==> self.is_external_process,
            stream matches Some(bytes) ==> bytes@ == BreakpadInfo::of_threads(
                self.tid,
                requesting_thread_id,
            ).bytes(little_endian),
    {
        if self.is_external_process {
            return None;
        }
        BreakpadInfo::new(self.tid, requesting_thread_id).encode(little_endian)
    }
}

} // verus!
