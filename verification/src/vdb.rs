//! The admissibility pre-screen for a VDB stream header. The decoder this
//! library plans for (the `vdb_rs` crate) returns an error on most malformed
//! streams, but on some header fields it aborts instead of returning: a file
//! version below 218 reaches an unimplemented branch of its reader, and a
//! cleared grid-offsets flag fails an internal assertion. Both fields sit at
//! fixed offsets, so they can be rejected here, in verified code, before the
//! decoder sees the stream. (An abort the header cannot predict — the reader
//! also asserts that no grid name repeats in the descriptor table — must be
//! contained by the caller around the decoder call itself.)

use vstd::prelude::*;

verus! {

/// The little-endian 32-bit value stored at offset `i` of `b`.
pub open spec fn le32_spec(b: Seq<u8>, i: int) -> int {
    b[i] + 0x100 * b[i + 1] + 0x10000 * b[i + 2] + 0x1000000 * b[i + 3]
}

/// Whether a stream's header may be handed to the decoder: the stream holds
/// the fixed header fields (8 bytes of magic, the file version word at
/// offset 8, 8 bytes of library version, the grid-offsets flag byte at
/// offset 20), its file version is at least 218, and its grid-offsets flag
/// is set. Streams failing this are rejected as invalid without the decoder
/// running.
pub open spec fn stream_header_ok_spec(b: Seq<u8>) -> bool {
    &&& b.len() >= 21
    &&& le32_spec(b, 8) >= 218
    &&& b[20] == 1
}

/// Checks the fixed header fields of a stream. A prefix of the stream
/// suffices, as long as it holds the first 21 bytes.
pub fn stream_header_ok(bytes: &Vec<u8>) -> (r: bool)
    ensures
        r == stream_header_ok_spec(bytes@),
{
    if bytes.len() < 21 {
        return false;
    }
    let version: u32 = bytes[8] as u32 + 0x100 * (bytes[9] as u32) + 0x10000 * (bytes[10] as u32)
        + 0x1000000 * (bytes[11] as u32);
    version >= 218 && bytes[20] == 1
}

} // verus!
