//! The Breakpad information stream: which thread the dump is about and which
//! thread asked for it, in the twelve bytes of `MDRawBreakpadInfo`.
use vstd::prelude::*;

use minidump_common::format::{BreakpadInfoValid, MINIDUMP_STREAM_TYPE};
use scroll::{Endian, Pwrite};

verus! {

/// The contents of the stream.
#[derive(Clone, Copy, Debug, PartialEq, Eq)]
pub struct BreakpadInfo {
    /// Which of the two thread ids are meaningful.
    pub validity: u32,
    /// The thread that the dump is about.
    pub dump_thread_id: u32,
    /// The thread that asked for the dump.
    pub requesting_thread_id: u32,
}

/// The bit of `validity` that says `dump_thread_id` is meaningful.
pub open spec fn dump_thread_id_bit() -> u32 {
    1
}

/// The bit of `validity` that says `requesting_thread_id` is meaningful.
pub open spec fn requesting_thread_id_bit() -> u32 {
    2
}

/// The type under which a minidump lists the stream.
pub open spec fn breakpad_stream_type() -> u32 {
    0x4767_0001
}

/// The byte of `value` that counts 256 to the power of `place`.
pub open spec fn byte_at(value: u32, place: nat) -> u8 {
    if place == 0 {
        (value % 0x100) as u8
    } else if place == 1 {
        (value / 0x100 % 0x100) as u8
    } else if place == 2 {
        (value / 0x1_0000 % 0x100) as u8
    } else {
        (value / 0x100_0000) as u8
    }
}

/// The four bytes of `value`, the least significant first where
/// `little_endian` and last where not.
pub open spec fn u32_bytes(little_endian: bool, value: u32) -> Seq<u8> {
    if little_endian {
        Seq::new(4, |i: int| byte_at(value, i as nat))
    } else {
        Seq::new(4, |i: int| byte_at(value, (3 - i) as nat))
    }
}

/// The number whose four bytes in that order are `bytes`.
pub open spec fn u32_value(little_endian: bool, bytes: Seq<u8>) -> int {
    if little_endian {
        bytes[0] + 0x100 * bytes[1] + 0x1_0000 * bytes[2] + 0x100_0000 * bytes[3]
    } else {
        bytes[3] + 0x100 * bytes[2] + 0x1_0000 * bytes[1] + 0x100_0000 * bytes[0]
    }
}

impl BreakpadInfo {
    /// The information that both threads are known.
    pub open spec fn of_threads(dump_thread_id: u32, requesting_thread_id: u32) -> BreakpadInfo {
        BreakpadInfo {
            validity: dump_thread_id_bit() | requesting_thread_id_bit(),
            dump_thread_id,
            requesting_thread_id,
        }
    }

    /// The information that both threads are known.
    pub fn new(dump_thread_id: u32, requesting_thread_id: u32) -> (info: BreakpadInfo)
        ensures
            info == BreakpadInfo::of_threads(dump_thread_id, requesting_thread_id),
            info.validity == 3,
            info.dump_thread_id == dump_thread_id,
            info.requesting_thread_id == requesting_thread_id,
    {
        assert(1u32 | 2u32 == 3u32) by (bit_vector);
        BreakpadInfo {
            validity: dump_thread_id_flag() | requesting_thread_id_flag(),
            dump_thread_id,
            requesting_thread_id,
        }
    }

    /// The bytes of the stream: the three fields one after the other.
    pub open spec fn bytes(self, little_endian: bool) -> Seq<u8> {
        u32_bytes(little_endian, self.validity) + u32_bytes(little_endian, self.dump_thread_id)
            + u32_bytes(little_endian, self.requesting_thread_id)
    }

    /// Writes the stream. The twelve bytes always have room for it, so there is
    /// always a stream.
    pub fn encode(&self, little_endian: bool) -> (stream: Option<[u8; 12]>)
        ensures
            stream matches Some(bytes) && bytes@ == self.bytes(little_endian),
    {
        let mut bytes: [u8; 12] = [0; 12];
        let mut offset: usize = 0;
        gwrite_u32(&mut bytes, self.validity, &mut offset, little_endian)?;
        gwrite_u32(&mut bytes, self.dump_thread_id, &mut offset, little_endian)?;
        gwrite_u32(&mut bytes, self.requesting_thread_id, &mut offset, little_endian)?;
        assert(bytes@ =~= self.bytes(little_endian));
        Some(bytes)
    }
}

/// `scroll::Pwrite::gwrite_with` for a `u32` into a byte slice. Where four
/// bytes are left at `offset`, it replaces them by the bytes of `value` in the
/// given order, moves `offset` behind them and returns their number. Where not,
/// it fails, which is `None` here, and slice and offset stay as they were.
#[verifier::external_body]
fn gwrite_u32(
    bytes: &mut [u8],
    value: u32,
    offset: &mut usize,
    little_endian: bool,
) -> (written: Option<usize>)
    ensures
        final(bytes)@.len() == old(bytes)@.len(),
        written is Some <==> *old(offset) + 4 <= old(bytes)@.len(),
        written matches Some(n) ==> {
            &&& n == 4
            &&& *final(offset) == *old(offset) + 4
            &&& final(bytes)@ == old(bytes)@.take(*old(offset) as int) + u32_bytes(
                little_endian,
                value,
            ) + old(bytes)@.skip(*old(offset) + 4)
        },
        written is None ==> *final(offset) == *old(offset) && final(bytes)@ == old(bytes)@,
{
    bytes.gwrite_with(value, offset, Endian::from(little_endian)).ok()
}

/// `scroll::Endian::default`, the byte order that scroll writes in when it is
/// given none: that of the machine. Nothing is claimed of which one it is.
#[verifier::external_body]
pub(crate) fn native_is_little_endian() -> bool {
    Endian::default().is_little()
}

/// Whether `little_endian` is what scroll says of the machine: a result of
/// [`native_is_little_endian`].
pub closed spec fn is_native_order(little_endian: bool) -> bool {
    call_ensures(native_is_little_endian, (), little_endian)
}

/// The native order is what [`native_is_little_endian`] returns, and nothing
/// else.
pub(crate) proof fn law_native_order(little_endian: bool)
    ensures
        is_native_order(little_endian) == call_ensures(
            native_is_little_endian,
            (),
            little_endian,
        ),
{
}

/// Whether the byte order of the machine is little endian.
pub fn native_order() -> (little_endian: bool)
    ensures
        is_native_order(little_endian),
{
    let native = native_is_little_endian;
    native()
}

/// `BreakpadInfoValid::DumpThreadId` of minidump-common, as its bits.
#[verifier::external_body]
fn dump_thread_id_flag() -> (bits: u32)
    ensures
        bits == dump_thread_id_bit(),
{
    BreakpadInfoValid::DumpThreadId.bits()
}

/// `BreakpadInfoValid::RequestingThreadId` of minidump-common, as its bits.
#[verifier::external_body]
fn requesting_thread_id_flag() -> (bits: u32)
    ensures
        bits == requesting_thread_id_bit(),
{
    BreakpadInfoValid::RequestingThreadId.bits()
}

/// `MINIDUMP_STREAM_TYPE::BreakpadInfoStream` of minidump-common, as its number.
#[verifier::external_body]
pub(crate) fn breakpad_info_stream() -> (stream_type: u32)
    ensures
        stream_type == breakpad_stream_type(),
{
    MINIDUMP_STREAM_TYPE::BreakpadInfoStream as u32
}

} // verus!
