//! The content buffer: `snap_buf::SnapBuf`, a copy-on-write byte buffer, and
//! what this library relies on of it.
//!
//! Nothing in this file is proved. The buffer is an outside type; its methods
//! get their contracts here, stated over the bytes that a buffer holds.

use snap_buf::SnapBuf;
use vstd::prelude::*;

verus! {

/// `snap_buf::SnapBuf`, taken as it is: the library sees no field of it.
#[verifier::external_type_specification]
#[verifier::external_body]
pub struct ExSnapBuf(snap_buf::SnapBuf);

/// The bytes that a buffer holds, from offset 0 to its length.
pub uninterp spec fn content_bytes(buf: SnapBuf) -> Seq<u8>;

/// The number of bytes in one segment of a buffer. A buffer hands out its
/// bytes one segment at a time.
pub const SEGMENT_SIZE: usize = 4000;

/// The largest length that a buffer can have. Its tree of segments grows by a
/// factor of 500 per level, and the size of the level after the last one
/// named here no longer fits the machine word: the sixth on a machine of 64
/// bits, the third on one of 32.
pub open spec fn max_content_len() -> int {
    if usize::MAX > 0xFFFF_FFFF {
        125_000_000_000_000_000
    } else {
        1_000_000_000
    }
}

/// `max_content_len` as a number of the machine.
pub fn content_limit() -> (limit: u64)
    ensures
        limit == max_content_len(),
{
    if usize::MAX as u64 > 0xFFFF_FFFF {
        125_000_000_000_000_000
    } else {
        1_000_000_000
    }
}

/// `content` after `data` was written at `offset`: long enough to hold the
/// written bytes, the gap between the old end and `offset` filled with zeros.
pub open spec fn write_at(content: Seq<u8>, offset: int, data: Seq<u8>) -> Seq<u8> {
    Seq::new(
        if content.len() >= offset + data.len() {
            content.len()
        } else {
            (offset + data.len()) as nat
        },
        |i: int|
            if offset <= i < offset + data.len() {
                data[i - offset]
            } else if i < content.len() {
                content[i]
            } else {
                0u8
            },
    )
}

/// The number of bytes that one read at `offset` hands out of a buffer of
/// `len` bytes: up to the end of the segment that holds `offset`, or up to
/// the end of the buffer where that comes first.
pub open spec fn run_len(len: int, offset: int) -> int {
    let in_segment = SEGMENT_SIZE - offset % (SEGMENT_SIZE as int);
    if offset >= len {
        0
    } else if len - offset < in_segment {
        len - offset
    } else {
        in_segment
    }
}

/// `SnapBuf::new` makes an empty buffer.
pub assume_specification[ SnapBuf::new ]() -> (buf: SnapBuf)
    ensures
        content_bytes(buf) == Seq::<u8>::empty(),
;

/// `SnapBuf::clone` (derived) makes a buffer with the same bytes. The two
/// share their segments until one of them is written to; a write copies what
/// it changes, so neither sees the other's writes.
pub assume_specification[ <SnapBuf as Clone>::clone ](buf: &SnapBuf) -> (copy: SnapBuf)
    ensures
        content_bytes(copy) == content_bytes(*buf),
;

/// `SnapBuf::len` is the number of bytes held.
pub assume_specification[ SnapBuf::len ](buf: &SnapBuf) -> (len: usize)
    ensures
        len == content_bytes(*buf).len(),
;

/// `SnapBuf::write` puts `data` at `offset`, grows the buffer where the data
/// ends behind its end, and fills a gap before `offset` with zeros. Past
/// `max_content_len` its size arithmetic overflows, so that is left out.
pub assume_specification[ SnapBuf::write ](buf: &mut SnapBuf, offset: usize, data: &[u8])
    requires
        offset + data@.len() <= max_content_len(),
    ensures
        content_bytes(*final(buf)) == write_at(content_bytes(*old(buf)), offset as int, data@),
;

/// `SnapBuf::read` hands out the bytes from `offset` to the end of the
/// segment that holds `offset`, or to the end of the buffer where that comes
/// first; nothing at the end of the buffer. It panics behind the end, so that
/// is left out.
pub assume_specification[ SnapBuf::read ](buf: &SnapBuf, offset: usize) -> (run: &[u8])
    requires
        offset <= content_bytes(*buf).len(),
    ensures
        run@ == content_bytes(*buf).subrange(
            offset as int,
            offset + run_len(content_bytes(*buf).len() as int, offset as int),
        ),
;

} // verus!
