//! Two self-contained ways to the metadata that locate the TIFF structure by
//! hand and leave only its parsing to the standard walk.

use vstd::prelude::*;
use crate::error::ExifError;
use crate::extract::{found_or_not, locate_in_primary, located, primary_coordinate, ExtractionResult};
use crate::jpeg::{exif_segment, find_exif_segment, segment_length, EXIF_PREAMBLE};
use crate::reader::{raw_fields_between, read_raw_fields};
use crate::tiff::{has_marker_at, read_marker};

verus! {

/// Where the segment at `position` ends, cut to the length of the buffer.
pub open spec fn segment_end(data: Seq<u8>, position: int) -> int {
    let declared = position + 2 + segment_length(data, position);
    if declared <= data.len() {
        declared
    } else {
        data.len() as int
    }
}

/// What the primary directory of the TIFF structure between two positions gives.
pub open spec fn blob_outcome(data: Seq<u8>, start: int, end: int) -> Option<ExtractionResult> {
    match raw_fields_between(data, start, end) {
        Some(fields) => located(primary_coordinate(fields), fields),
        None => None,
    }
}

/// What [`extract_metadata_from_jpeg_custom`] finds.
pub open spec fn jpeg_custom_outcome(data: Seq<u8>) -> Option<ExtractionResult> {
    match exif_segment(data) {
        Some(segment) => if has_marker_at(data, segment + 10) {
            blob_outcome(data, segment + 10, segment_end(data, segment))
        } else {
            None
        },
        None => None,
    }
}

/// Whether the four bytes at `at` spell `Exif`.
pub open spec fn spells_exif(data: Seq<u8>, at: int) -> bool {
    &&& 0 <= at
    &&& at + 4 <= data.len()
    &&& data[at] == 0x45
    &&& data[at + 1] == 0x78
    &&& data[at + 2] == 0x69
    &&& data[at + 3] == 0x66
}

/// The first position from `from` on at which the bytes spell `Exif`.
pub open spec fn first_exif_word(data: Seq<u8>, from: int) -> Option<int>
    decreases data.len() - from,
{
    if from < 0 || from + 4 > data.len() {
        None
    } else if spells_exif(data, from) {
        Some(from)
    } else {
        first_exif_word(data, from + 1)
    }
}

/// The first position from `from` on at which a byte-order marker stands.
pub open spec fn first_marker(data: Seq<u8>, from: int) -> Option<int>
    decreases data.len() - from,
{
    if from < 0 || from + 2 > data.len() {
        None
    } else if has_marker_at(data, from) {
        Some(from)
    } else {
        first_marker(data, from + 1)
    }
}

/// What [`extract_metadata_from_heif_custom`] finds.
pub open spec fn heif_custom_outcome(data: Seq<u8>) -> Option<ExtractionResult> {
    match first_exif_word(data, 0) {
        Some(word) => match first_marker(data, word + 6) {
            Some(start) => blob_outcome(data, start, data.len() as int),
            None => None,
        },
        None => None,
    }
}

/// Finds the first position at which the bytes spell `Exif`.
pub fn find_exif_word(data: &[u8]) -> (position: Option<usize>)
    ensures
        position is Some <==> first_exif_word(data@, 0) is Some,
        position matches Some(p) ==> first_exif_word(data@, 0) == Some(p as int) && p + 4
            <= data@.len(),
{
    let len: usize = data.len();
    let mut at: usize = 0;
    while len >= 4 && at <= len - 4
        invariant
            len == data@.len(),
            first_exif_word(data@, at as int) == first_exif_word(data@, 0),
        decreases len - at,
    {
        if data[at] == 0x45 && data[at + 1] == 0x78 && data[at + 2] == 0x69 && data[at + 3]
            == 0x66 {
            return Some(at);
        }
        at += 1;
    }
    None
}

/// Finds the first position from `from` on at which a byte-order marker stands.
pub fn find_marker(data: &[u8], from: usize) -> (position: Option<usize>)
    ensures
        position is Some <==> first_marker(data@, from as int) is Some,
        position matches Some(p) ==> first_marker(data@, from as int) == Some(p as int) && p + 2
            <= data@.len(),
{
    let len: usize = data.len();
    let mut at: usize = from;
    while len >= 2 && at <= len - 2
        invariant
            len == data@.len(),
            first_marker(data@, at as int) == first_marker(data@, from as int),
        decreases len - at,
    {
        if read_marker(data, at).is_some() {
            return Some(at);
        }
        at += 1;
    }
    None
}

/// Extracts the metadata of a JPEG file by locating its EXIF segment by hand.
///
/// The segments are walked to the first one that carries EXIF. Where a
/// byte-order marker follows its signature, the bytes from there to the end of
/// the segment are parsed and the primary directory is read. Anything else
/// gives [`ExifError::NotFound`].
pub fn extract_metadata_from_jpeg_custom(data: &[u8]) -> (result: Result<
    ExtractionResult,
    ExifError,
>)
    ensures
        result == found_or_not(jpeg_custom_outcome(data@)),
        result matches Ok(r) ==> r.wf(),
{
    let segment = match find_exif_segment(data) {
        Some(p) => p,
        None => { return Err(ExifError::NotFound); },
    };
    let len: usize = data.len();
    assert(segment + EXIF_PREAMBLE <= len);
    let start: usize = segment + EXIF_PREAMBLE;
    if read_marker(data, start).is_none() {
        return Err(ExifError::NotFound);
    }
    let high: usize = data[segment + 2] as usize;
    let low: usize = data[segment + 3] as usize;
    let declared: usize = 2 + (256 * high + low);
    let end: usize = if declared <= len - segment {
        segment + declared
    } else {
        len
    };
    match read_raw_fields(data, start, end) {
        Some(fields) => match locate_in_primary(&fields) {
            Some(found) => Ok(found),
            None => Err(ExifError::NotFound),
        },
        None => Err(ExifError::NotFound),
    }
}

/// Extracts the metadata of a HEIF file without a demuxer.
///
/// The bytes are searched for the first word `Exif`; six bytes after its start
/// the search for a byte-order marker begins, and the bytes from the first
/// marker to the end of the file are parsed as a TIFF structure, of which the
/// primary directory is read. Anything else gives [`ExifError::NotFound`].
pub fn extract_metadata_from_heif_custom(data: &[u8]) -> (result: Result<
    ExtractionResult,
    ExifError,
>)
    ensures
        result == found_or_not(heif_custom_outcome(data@)),
        result matches Ok(r) ==> r.wf(),
{
    let word = match find_exif_word(data) {
        Some(p) => p,
        None => { return Err(ExifError::NotFound); },
    };
    let len: usize = data.len();
    assert(word + 4 <= len);
    if len - word < 6 {
        return Err(ExifError::NotFound);
    }
    let start = match find_marker(data, word + 6) {
        Some(p) => p,
        None => { return Err(ExifError::NotFound); },
    };
    match read_raw_fields(data, start, len) {
        Some(fields) => match locate_in_primary(&fields) {
            Some(found) => Ok(found),
            None => Err(ExifError::NotFound),
        },
        None => Err(ExifError::NotFound),
    }
}

} // verus!
