//! The scan over the marker segments of a JPEG file for the one that carries EXIF.

use vstd::prelude::*;

verus! {

/// Second byte of the APP1 marker, the segment that carries EXIF.
pub const MARKER_APP1: u8 = 0xE1;

/// Second byte of the start-of-scan marker, after which no metadata follows.
pub const MARKER_SOS: u8 = 0xDA;

/// Bytes between the start of an EXIF segment and its TIFF header: the marker,
/// the length, and the six-byte signature.
pub const EXIF_PREAMBLE: usize = 10;

/// Whether the buffer begins with the start-of-image marker of JPEG.
pub open spec fn starts_with_soi(data: Seq<u8>) -> bool {
    data.len() >= 2 && data[0] == 0xFF && data[1] == 0xD8
}

/// Whether the six bytes at `at` are the signature `Exif` followed by two zero bytes.
pub open spec fn has_exif_signature(data: Seq<u8>, at: int) -> bool {
    &&& 0 <= at
    &&& at + 6 <= data.len()
    &&& data[at] == 0x45
    &&& data[at + 1] == 0x78
    &&& data[at + 2] == 0x69
    &&& data[at + 3] == 0x66
    &&& data[at + 4] == 0
    &&& data[at + 5] == 0
}

/// The length that the segment at `position` declares in the two bytes after
/// its marker, most significant byte first.
pub open spec fn segment_length(data: Seq<u8>, position: int) -> nat {
    (256 * (data[position + 2] as nat) + data[position + 3] as nat) as nat
}

/// The position of the first EXIF segment met when walking the segments from
/// `position` on.
///
/// A segment starts with the byte 0xFF, a marker byte and a big-endian length
/// that counts itself and the payload. The walk ends without a result at the end
/// of the buffer, at a byte that does not start a segment, at the start-of-scan
/// marker, and at a segment whose length reaches past the buffer.
pub open spec fn scan_segments(data: Seq<u8>, position: int) -> Option<int>
    decreases data.len() - position,
{
    if position < 0 || position + 4 > data.len() {
        None
    } else if data[position] != 0xFF {
        None
    } else if data[position + 1] == MARKER_SOS {
        None
    } else if data[position + 1] == MARKER_APP1 && has_exif_signature(data, position + 4) {
        Some(position)
    } else if position + 2 + segment_length(data, position) > data.len() {
        None
    } else {
        scan_segments(data, position + 2 + segment_length(data, position))
    }
}

/// The position of the EXIF segment of a JPEG file, if it has one.
pub open spec fn exif_segment(data: Seq<u8>) -> Option<int> {
    if starts_with_soi(data) {
        scan_segments(data, 2)
    } else {
        None
    }
}

/// Tells whether the buffer begins with the start-of-image marker of JPEG.
pub fn is_jpeg(data: &[u8]) -> (yes: bool)
    ensures
        yes == starts_with_soi(data@),
{
    data.len() >= 2 && data[0] == 0xFF && data[1] == 0xD8
}

/// Tells whether the six bytes at `at` are the EXIF signature.
pub fn has_signature_at(data: &[u8], at: usize) -> (yes: bool)
    ensures
        yes == has_exif_signature(data@, at as int),
{
    if data.len() < 6 || at > data.len() - 6 {
        return false;
    }
    data[at] == 0x45 && data[at + 1] == 0x78 && data[at + 2] == 0x69 && data[at + 3] == 0x66
        && data[at + 4] == 0 && data[at + 5] == 0
}

/// Finds the APP1 segment that carries EXIF in a JPEG file.
///
/// Returns the position of the segment's marker; the TIFF header begins
/// [`EXIF_PREAMBLE`] bytes later. There is no result when the buffer is not a
/// JPEG file or when the walk over its segments ends before such a segment.
pub fn find_exif_segment(data: &[u8]) -> (position: Option<usize>)
    ensures
        position is Some <==> exif_segment(data@) is Some,
        position matches Some(p) ==> exif_segment(data@) == Some(p as int),
        position matches Some(p) ==> p + EXIF_PREAMBLE <= data@.len(),
{
    if !is_jpeg(data) {
        return None;
    }
    let len: usize = data.len();
    let mut position: usize = 2;
    while len >= 4 && position <= len - 4
        invariant
            len == data@.len(),
            starts_with_soi(data@),
            2 <= position,
            scan_segments(data@, position as int) == scan_segments(data@, 2),
        decreases len - position,
    {
        if data[position] != 0xFF {
            return None;
        }
        let marker: u8 = data[position + 1];
        if marker == MARKER_SOS {
            return None;
        }
        if marker == MARKER_APP1 && has_signature_at(data, position + 4) {
            return Some(position);
        }
        let high: usize = data[position + 2] as usize;
        let low: usize = data[position + 3] as usize;
        let skip: usize = 2 + (256 * high + low);
        if skip > len - position {
            return None;
        }
        position = position + skip;
    }
    None
}

/// Whether the segment at `position` is an APP1 segment that carries EXIF.
pub open spec fn is_exif_segment(data: Seq<u8>, position: int) -> bool {
    &&& 0 <= position
    &&& position + 10 <= data.len()
    &&& data[position] == 0xFF
    &&& data[position + 1] == MARKER_APP1
    &&& has_exif_signature(data, position + 4)
}

/// What the walk over the segments finds is an APP1 segment with the EXIF
/// signature, at or after the position from which the walk set out.
pub proof fn found_segment_carries_exif(data: Seq<u8>, position: int)
    ensures
        scan_segments(data, position) matches Some(found) ==> position <= found
            && is_exif_segment(data, found),
    decreases data.len() - position,
{
    if scan_segments(data, position) is Some && !(data[position + 1] == MARKER_APP1
        && has_exif_signature(data, position + 4)) {
        found_segment_carries_exif(data, position + 2 + segment_length(data, position));
    }
}

} // verus!
