//! A look at the markers of a JPEG stream, as far as the first frame header.
//!
//! The decoder is not to be handed a stream whose frame is coded losslessly.
//! The scan here walks the stream as a decoder does: it looks for the next
//! marker, steps over the segments that may come before a frame header, and
//! stops at the first frame header or at anything else.

use vstd::prelude::*;

verus! {

/// The first byte of every marker.
pub const MARKER_PREFIX: u8 = 0xFF;

/// The code of the marker that starts a stream.
pub const START_OF_IMAGE: u8 = 0xD8;

/// The code of the marker that starts a frame coded losslessly with Huffman
/// codes.
pub const LOSSLESS_FRAME: u8 = 0xC3;

/// Whether `code` is the code of a marker whose segment may come before the
/// frame header and is stepped over: Huffman tables, quantisation tables, a
/// restart interval, application data, a comment.
pub open spec fn is_skipped_segment_spec(code: u8) -> bool {
    code == 0xC4 || code == 0xDB || code == 0xDD || code == 0xFE || (0xE0 <= code <= 0xEF)
}

/// Whether `code` is the code of a marker whose segment is stepped over.
#[verifier::when_used_as_spec(is_skipped_segment_spec)]
pub fn is_skipped_segment(code: u8) -> (b: bool)
    ensures
        b == is_skipped_segment_spec(code),
{
    code == 0xC4 || code == 0xDB || code == 0xDD || code == 0xFE || (0xE0 <= code && code <= 0xEF)
}

/// Whether the first frame header that a walk from `pos` reaches is that of
/// a lossless frame.
///
/// The walk looks for the next marker: a prefix byte followed by a byte that
/// is neither zero nor another prefix. A lossless frame header ends the walk
/// with yes. A segment that may come before a frame header is stepped over
/// by the length in its first two bytes, big end first, which counts
/// itself. Any other marker, a length below two, a segment that reaches to
/// the end of the bytes or past it, and the end of the bytes end the walk
/// with no.
pub open spec fn lossless_frame_from(bytes: Seq<u8>, pos: int) -> bool
    decreases bytes.len() - pos,
{
    if pos < 0 || pos + 1 >= bytes.len() {
        false
    } else if bytes[pos] == MARKER_PREFIX && bytes[pos + 1] != MARKER_PREFIX && bytes[pos + 1] != 0 {
        let code = bytes[pos + 1];
        if code == LOSSLESS_FRAME {
            true
        } else if is_skipped_segment_spec(code) && pos + 3 < bytes.len() {
            let length = bytes[pos + 2] as int * 256 + bytes[pos + 3] as int;
            if length >= 2 && pos + 2 + length < bytes.len() {
                lossless_frame_from(bytes, pos + 2 + length)
            } else {
                false
            }
        } else {
            false
        }
    } else {
        lossless_frame_from(bytes, pos + 1)
    }
}

/// Whether the bytes start as a JPEG stream does, with the start-of-image
/// marker and the prefix of a second marker.
pub open spec fn has_jpeg_signature(bytes: Seq<u8>) -> bool {
    bytes.len() >= 3 && bytes[0] == MARKER_PREFIX && bytes[1] == START_OF_IMAGE && bytes[2]
        == MARKER_PREFIX
}

/// Whether the bytes are a JPEG stream whose first frame header is that of a
/// lossless frame.
pub open spec fn is_lossless_jpeg(bytes: Seq<u8>) -> bool {
    has_jpeg_signature(bytes) && lossless_frame_from(bytes, 2)
}

/// Whether the bytes are a JPEG stream whose first frame header is that of a
/// lossless frame.
pub fn has_lossless_frame(bytes: &[u8]) -> (b: bool)
    ensures
        b == is_lossless_jpeg(bytes@),
{
    let n: usize = bytes.len();
    if n < 3 || bytes[0] != MARKER_PREFIX || bytes[1] != START_OF_IMAGE || bytes[2]
        != MARKER_PREFIX {
        return false;
    }
    let mut pos: usize = 2;
    while pos < n - 1
        invariant
            2 <= pos,
            3 <= n,
            n == bytes@.len(),
            has_jpeg_signature(bytes@),
            lossless_frame_from(bytes@, 2) == lossless_frame_from(bytes@, pos as int),
        decreases n - pos,
    {
        let code: u8 = bytes[pos + 1];
        if bytes[pos] != MARKER_PREFIX || code == MARKER_PREFIX || code == 0 {
            pos += 1;
        } else if code == LOSSLESS_FRAME {
            return true;
        } else if is_skipped_segment(code) && n - pos > 3 {
            let length: usize = bytes[pos + 2] as usize * 256 + bytes[pos + 3] as usize;
            if length < 2 {
                return false;
            }
            if length + 2 >= n - pos {
                return false;
            }
            pos = pos + 2 + length;
        } else {
            return false;
        }
    }
    false
}

} // verus!
