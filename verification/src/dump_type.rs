//! The `MINIDUMP_TYPE` flags of `minidumpapiset.h`.
#![allow(non_upper_case_globals, non_camel_case_types)]
use vstd::prelude::*;

verus! {

/// A set of the flags below, which say what goes into a minidump.
pub type MINIDUMP_TYPE = u32;

pub const MiniDumpNormal: MINIDUMP_TYPE = 0x00000000;
pub const MiniDumpWithDataSegs: MINIDUMP_TYPE = 0x00000001;
pub const MiniDumpWithFullMemory: MINIDUMP_TYPE = 0x00000002;
pub const MiniDumpWithHandleData: MINIDUMP_TYPE = 0x00000004;
pub const MiniDumpFilterMemory: MINIDUMP_TYPE = 0x00000008;
pub const MiniDumpScanMemory: MINIDUMP_TYPE = 0x00000010;
pub const MiniDumpWithUnloadedModules: MINIDUMP_TYPE = 0x00000020;
pub const MiniDumpWithIndirectlyReferencedMemory: MINIDUMP_TYPE = 0x00000040;
pub const MiniDumpFilterModulePaths: MINIDUMP_TYPE = 0x00000080;
pub const MiniDumpWithProcessThreadData: MINIDUMP_TYPE = 0x00000100;
pub const MiniDumpWithPrivateReadWriteMemory: MINIDUMP_TYPE = 0x00000200;
pub const MiniDumpWithoutOptionalData: MINIDUMP_TYPE = 0x00000400;
pub const MiniDumpWithFullMemoryInfo: MINIDUMP_TYPE = 0x00000800;
pub const MiniDumpWithThreadInfo: MINIDUMP_TYPE = 0x00001000;
pub const MiniDumpWithCodeSegs: MINIDUMP_TYPE = 0x00002000;
pub const MiniDumpWithoutAuxiliaryState: MINIDUMP_TYPE = 0x00004000;
pub const MiniDumpWithFullAuxiliaryState: MINIDUMP_TYPE = 0x00008000;
pub const MiniDumpWithPrivateWriteCopyMemory: MINIDUMP_TYPE = 0x00010000;
pub const MiniDumpIgnoreInaccessibleMemory: MINIDUMP_TYPE = 0x00020000;
pub const MiniDumpWithTokenInformation: MINIDUMP_TYPE = 0x00040000;
pub const MiniDumpWithModuleHeaders: MINIDUMP_TYPE = 0x00080000;
pub const MiniDumpFilterTriage: MINIDUMP_TYPE = 0x00100000;
pub const MiniDumpWithAvxXStateContext: MINIDUMP_TYPE = 0x00200000;
pub const MiniDumpWithIptTrace: MINIDUMP_TYPE = 0x00400000;
pub const MiniDumpScanInaccessiblePartialPages: MINIDUMP_TYPE = 0x00800000;
pub const MiniDumpValidTypeFlags: MINIDUMP_TYPE = 0x00ffffff;

/// The flags are single bits: the first is the lowest one, and each is the next
/// higher one than the flag before it. Normal is none of them, and the valid
/// ones are all of them and no other bit.
pub proof fn law_flags_are_single_bits()
    ensures
        ({
            let flags: Seq<MINIDUMP_TYPE> = seq![
                MiniDumpWithDataSegs,
                MiniDumpWithFullMemory,
                MiniDumpWithHandleData,
                MiniDumpFilterMemory,
                MiniDumpScanMemory,
                MiniDumpWithUnloadedModules,
                MiniDumpWithIndirectlyReferencedMemory,
                MiniDumpFilterModulePaths,
                MiniDumpWithProcessThreadData,
                MiniDumpWithPrivateReadWriteMemory,
                MiniDumpWithoutOptionalData,
                MiniDumpWithFullMemoryInfo,
                MiniDumpWithThreadInfo,
                MiniDumpWithCodeSegs,
                MiniDumpWithoutAuxiliaryState,
                MiniDumpWithFullAuxiliaryState,
                MiniDumpWithPrivateWriteCopyMemory,
                MiniDumpIgnoreInaccessibleMemory,
                MiniDumpWithTokenInformation,
                MiniDumpWithModuleHeaders,
                MiniDumpFilterTriage,
                MiniDumpWithAvxXStateContext,
                MiniDumpWithIptTrace,
                MiniDumpScanInaccessiblePartialPages,
            ];
            &&& flags.len() == 24
            &&& flags[0] == 1
            &&& forall|i: int| 0 < i < 24 ==> #[trigger] flags[i] == 2 * flags[i - 1]
            &&& MiniDumpNormal == 0
            &&& MiniDumpValidTypeFlags == 2 * flags[23] - 1
        }),
{
}

} // verus!
