//! The ways in which an extraction step can fail.

use vstd::prelude::*;

verus! {

/// Why a step of the extraction gave no value.
#[derive(Clone, Copy, Debug, PartialEq, Eq, Structural)]
pub enum ExifError {
    /// The byte-order marker or the magic number of a TIFF header was not recognised.
    NotATiffHeader,
    /// A read would have gone past the end of the buffer.
    TruncatedBuffer,
    /// A coordinate field is not an array of three well-formed rationals.
    UnsupportedValueFormat,
    /// A coordinate is present but its hemisphere reference is not.
    MissingReference,
    /// Every applicable strategy was tried and none found a coordinate.
    NotFound,
    /// The declared type of the file is not one that the engine handles.
    UnsupportedFormat,
}

impl ExifError {
    /// A short description of the failure.
    pub fn message(&self) -> (text: &'static str)
        ensures
            text@ == self.message_text(),
    {
        match self {
            ExifError::NotATiffHeader => "not a TIFF header",
            ExifError::TruncatedBuffer => "read past the end of the buffer",
            ExifError::UnsupportedValueFormat => "coordinate is not three rationals",
            ExifError::MissingReference => "hemisphere reference is missing",
            ExifError::NotFound => "no GPS data found",
            ExifError::UnsupportedFormat => "file is not a supported image",
        }
    }

    /// The characters of [`ExifError::message`].
    pub open spec fn message_text(&self) -> Seq<char> {
        match self {
            ExifError::NotATiffHeader => "not a TIFF header"@,
            ExifError::TruncatedBuffer => "read past the end of the buffer"@,
            ExifError::UnsupportedValueFormat => "coordinate is not three rationals"@,
            ExifError::MissingReference => "hemisphere reference is missing"@,
            ExifError::NotFound => "no GPS data found"@,
            ExifError::UnsupportedFormat => "file is not a supported image"@,
        }
    }
}

} // verus!
