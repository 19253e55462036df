//! The pieces that a dump is made of.
use minidump_writer::breakpad::BreakpadInfo;
use minidump_writer::crash_context::CrashContext;
use minidump_writer::dump_type;
use minidump_writer::errors::{Error, Failure};
use minidump_writer::minidump_writer::MinidumpWriter;
use minidump_writer::protocol::ExceptionInformation;
use scroll::Pread;
use minidump_writer::winnt::{record_code, Handle, STATUS_NONCONTINUABLE_EXCEPTION};

fn crash() -> CrashContext {
    CrashContext {
        exception_pointers: 0x7000,
        process_id: 100,
        thread_id: 0x0102_0304,
        exception_code: -1,
    }
}

const PROCESS: Handle = Handle { value: 0x88 };

#[test]
fn breakpad_info_knows_both_threads() {
    let info = BreakpadInfo::new(5, 6);
    assert_eq!(info.validity, 3);
    assert_eq!(info.dump_thread_id, 5);
    assert_eq!(info.requesting_thread_id, 6);
}

#[test]
fn breakpad_info_in_both_byte_orders() {
    let info = BreakpadInfo::new(0x0102_0304, 0xf0e0_d0c0);
    assert_eq!(
        info.encode(true),
        Some([3, 0, 0, 0, 4, 3, 2, 1, 0xc0, 0xd0, 0xe0, 0xf0])
    );
    assert_eq!(
        info.encode(false),
        Some([0, 0, 0, 3, 1, 2, 3, 4, 0xf0, 0xe0, 0xd0, 0xc0])
    );
}

#[test]
fn breakpad_info_reads_back() {
    let info = BreakpadInfo::new(u32::MAX, 0x8000_0001);
    let bytes = info.encode(true).unwrap();
    let field = |at: usize| {
        u32::from_le_bytes([bytes[at], bytes[at + 1], bytes[at + 2], bytes[at + 3]])
    };
    assert_eq!(field(0), info.validity);
    assert_eq!(field(4), u32::MAX);
    assert_eq!(field(8), 0x8000_0001);
}

#[test]
fn own_order_of_scroll_reads_the_stream_back() {
    let writer = MinidumpWriter::new(crash(), PROCESS, false);
    let dump = MinidumpWriter::dump_crash_context(crash());
    let bytes = writer.fill_breakpad_stream(77, dump.little_endian).unwrap();
    assert_eq!(bytes.pread::<u32>(0).unwrap(), 3);
    assert_eq!(bytes.pread::<u32>(4).unwrap(), 0x0102_0304);
    assert_eq!(bytes.pread::<u32>(8).unwrap(), 77);
}

#[test]
fn stream_only_for_the_own_process() {
    let own = MinidumpWriter::new(crash(), PROCESS, false);
    let other = MinidumpWriter::new(crash(), PROCESS, true);
    assert_eq!(
        own.fill_breakpad_stream(9, true),
        Some([3, 0, 0, 0, 4, 3, 2, 1, 9, 0, 0, 0])
    );
    assert_eq!(other.fill_breakpad_stream(9, true), None);
    assert_eq!(own.dump(Some(9), true).user_streams.len(), 1);
    assert_eq!(other.dump(Some(9), true).user_streams.len(), 0);
    assert_eq!(own.dump(None, true).user_streams.len(), 0);
}

#[test]
fn pointers_are_those_of_the_client_for_another_process() {
    for (external, client_pointers) in [(false, 0), (true, 1)] {
        let writer = MinidumpWriter::new(crash(), PROCESS, external);
        assert_eq!(
            writer,
            MinidumpWriter {
                exc_info: Some(ExceptionInformation {
                    thread_id: 0x0102_0304,
                    exception_pointers: 0x7000,
                    client_pointers,
                }),
                crashing_process: PROCESS,
                pid: 100,
                tid: 0x0102_0304,
                exception_code: -1,
                is_external_process: external,
            }
        );
        let request = writer.dump(None, true);
        assert_eq!(request.process, PROCESS);
        assert_eq!(request.process_id, 100);
        assert_eq!(request.dump_type, dump_type::MiniDumpNormal);
        assert_eq!(request.exception, writer.exc_info);
    }
}

#[test]
fn no_exception_without_pointers() {
    let context = CrashContext {
        exception_pointers: 0,
        ..crash()
    };
    assert_eq!(MinidumpWriter::new(context, PROCESS, true).exc_info, None);
}

#[test]
fn status_codes_are_stored_by_their_bits() {
    assert_eq!(record_code(STATUS_NONCONTINUABLE_EXCEPTION), 0xc000_0025);
    assert_eq!(record_code(0), 0);
    assert_eq!(record_code(i32::MAX), 0x7fff_ffff);
    assert_eq!(record_code(i32::MIN), 0x8000_0000);
    assert_eq!(record_code(-1), u32::MAX);
}

#[test]
fn only_zero_is_the_null_handle() {
    assert!(Handle { value: 0 }.is_null());
    assert!(!Handle { value: 4 }.is_null());
    assert!(!Handle { value: usize::MAX }.is_null());
}

#[test]
fn failures_become_errors_with_their_code() {
    assert_eq!(Failure::ThreadOpen.with_code(1), Error::ThreadOpen(1));
    assert_eq!(Failure::ThreadSuspend.with_code(2), Error::ThreadSuspend(2));
    assert_eq!(Failure::ThreadContext.with_code(3), Error::ThreadContext(3));
    assert_eq!(Failure::Io.with_code(4), Error::Io(4));
}

#[test]
fn dump_type_flags_are_the_bits_of_the_valid_flags() {
    let flags: [u32; 24] = [
        dump_type::MiniDumpWithDataSegs,
        dump_type::MiniDumpWithFullMemory,
        dump_type::MiniDumpWithHandleData,
        dump_type::MiniDumpFilterMemory,
        dump_type::MiniDumpScanMemory,
        dump_type::MiniDumpWithUnloadedModules,
        dump_type::MiniDumpWithIndirectlyReferencedMemory,
        dump_type::MiniDumpFilterModulePaths,
        dump_type::MiniDumpWithProcessThreadData,
        dump_type::MiniDumpWithPrivateReadWriteMemory,
        dump_type::MiniDumpWithoutOptionalData,
        dump_type::MiniDumpWithFullMemoryInfo,
        dump_type::MiniDumpWithThreadInfo,
        dump_type::MiniDumpWithCodeSegs,
        dump_type::MiniDumpWithoutAuxiliaryState,
        dump_type::MiniDumpWithFullAuxiliaryState,
        dump_type::MiniDumpWithPrivateWriteCopyMemory,
        dump_type::MiniDumpIgnoreInaccessibleMemory,
        dump_type::MiniDumpWithTokenInformation,
        dump_type::MiniDumpWithModuleHeaders,
        dump_type::MiniDumpFilterTriage,
        dump_type::MiniDumpWithAvxXStateContext,
        dump_type::MiniDumpWithIptTrace,
        dump_type::MiniDumpScanInaccessiblePartialPages,
    ];
    let mut all: u32 = dump_type::MiniDumpNormal;
    for (bit, flag) in flags.iter().enumerate() {
        assert_eq!(*flag, 1 << bit);
        all |= flag;
    }
    assert_eq!(all, dump_type::MiniDumpValidTypeFlags);
}
