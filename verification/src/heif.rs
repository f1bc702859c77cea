//! Metadata blocks of a HEIF container and the TIFF header inside them.
//!
//! A demuxer outside this crate lists the blocks of a file; each block comes
//! with its declared type and its raw bytes. An EXIF block holds a TIFF
//! structure behind a prefix whose length varies with the producer.

use vstd::prelude::*;
use crate::jpeg::{has_exif_signature, has_signature_at};
use crate::tiff::{has_marker_at, read_marker};

verus! {

/// One metadata block of a HEIF container.
#[derive(Clone, Debug)]
pub struct MetadataBlock {
    /// The type that the container declares for the block, such as `Exif`.
    pub kind: String,
    /// The block's bytes as stored.
    pub data: Vec<u8>,
}

/// The mathematical content of a [`MetadataBlock`].
pub struct BlockModel {
    /// The declared type.
    pub kind: Seq<char>,
    /// The bytes as stored.
    pub data: Seq<u8>,
}

impl DeepView for MetadataBlock {
    type V = BlockModel;

    open spec fn deep_view(&self) -> BlockModel {
        BlockModel { kind: self.kind@, data: self.data@ }
    }
}

/// The declared type of a block that holds EXIF.
pub open spec fn exif_kind() -> Seq<char> {
    seq!['E', 'x', 'i', 'f']
}

impl MetadataBlock {
    /// Whether the container declares the block as EXIF.
    pub open spec fn is_exif(&self) -> bool {
        self.kind@ == exif_kind()
    }

    /// Tells whether the container declares the block as EXIF.
    pub fn declares_exif(&self) -> (yes: bool)
        ensures
            yes == self.is_exif(),
    {
        proof {
            reveal_strlit("Exif");
            assert("Exif"@ =~= exif_kind());
        }
        let kind: &str = self.kind.as_str();
        let mut same: bool = kind.unicode_len() == 4;
        if same {
            same = kind.get_char(0) == 'E' && kind.get_char(1) == 'x' && kind.get_char(2) == 'i'
                && kind.get_char(3) == 'f';
        }
        proof {
            if same {
                assert(self.kind@ =~= exif_kind());
            }
        }
        same
    }
}

/// Where the TIFF header starts in the bytes of an EXIF block.
///
/// Three prefixes are known: none, the six-byte EXIF signature, and a four-byte
/// length followed by that signature. They are tried in this order, and a
/// candidate counts only if a byte-order marker stands right after it.
pub open spec fn tiff_offset(data: Seq<u8>) -> Option<int> {
    if has_marker_at(data, 0) {
        Some(0)
    } else if has_exif_signature(data, 0) && has_marker_at(data, 6) {
        Some(6)
    } else if has_exif_signature(data, 4) && has_marker_at(data, 10) {
        Some(10)
    } else {
        None
    }
}

/// Finds where the TIFF header starts in the bytes of an EXIF block.
///
/// The candidates 0, 6 and 10 are tried in this order; the first one that is
/// preceded by the prefix it stands for and followed by a byte-order marker
/// wins. Without such a candidate there is no result.
pub fn find_tiff_offset(data: &[u8]) -> (offset: Option<usize>)
    ensures
        offset is Some <==> tiff_offset(data@) is Some,
        offset matches Some(o) ==> tiff_offset(data@) == Some(o as int) && o + 2 <= data@.len(),
{
    if read_marker(data, 0).is_some() {
        Some(0)
    } else if has_signature_at(data, 0) && read_marker(data, 6).is_some() {
        Some(6)
    } else if has_signature_at(data, 4) && read_marker(data, 10).is_some() {
        Some(10)
    } else {
        None
    }
}

/// An offset that is found is one of the three known ones, and a byte-order
/// marker stands at it.
pub proof fn found_offset_has_marker(data: Seq<u8>)
    ensures
        tiff_offset(data) matches Some(offset) ==> has_marker_at(data, offset) && (offset == 0
            || offset == 6 || offset == 10),
{
}

} // verus!
