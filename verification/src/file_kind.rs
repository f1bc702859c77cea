//! The type that a file declares by its extension.

use vstd::prelude::*;

verus! {

/// The type that a file declares, by its extension.
#[derive(Clone, Copy, Debug, PartialEq, Eq, Structural)]
pub enum FileKind {
    /// `jpg` and `jpeg`.
    Jpeg,
    /// `heic`, `heif` and `avif`.
    Heif,
    /// The other raster formats: `png`, `tiff`, `tif`, `webp`, `bmp` and `gif`.
    OtherRaster,
}

/// The code of a character, with the capital letters of ASCII brought to lower
/// case.
pub open spec fn lower_code(c: char) -> u32 {
    if 0x41 <= c as u32 <= 0x5a {
        (c as u32 + 0x20) as u32
    } else {
        c as u32
    }
}

/// Whether two texts are equal but for the case of their ASCII letters.
pub open spec fn same_ignoring_case(left: Seq<char>, right: Seq<char>) -> bool {
    &&& left.len() == right.len()
    &&& forall|i: int| 0 <= i < left.len() ==> lower_code(left[i]) == lower_code(right[i])
}

/// Whether an extension is that of a raster format other than JPEG and HEIF.
pub open spec fn is_other_raster(extension: Seq<char>) -> bool {
    ||| same_ignoring_case(extension, "png"@)
    ||| same_ignoring_case(extension, "tiff"@)
    ||| same_ignoring_case(extension, "tif"@)
    ||| same_ignoring_case(extension, "webp"@)
    ||| same_ignoring_case(extension, "bmp"@)
    ||| same_ignoring_case(extension, "gif"@)
}

/// The type that an extension declares, whatever the case of its letters.
///
/// Any other extension declares no type that the engine handles.
pub open spec fn kind_of_extension(extension: Seq<char>) -> Option<FileKind> {
    if same_ignoring_case(extension, "jpg"@) || same_ignoring_case(extension, "jpeg"@) {
        Some(FileKind::Jpeg)
    } else if same_ignoring_case(extension, "heic"@) || same_ignoring_case(extension, "heif"@)
        || same_ignoring_case(extension, "avif"@) {
        Some(FileKind::Heif)
    } else if is_other_raster(extension) {
        Some(FileKind::OtherRaster)
    } else {
        None
    }
}

/// Brings the code of a capital letter of ASCII to lower case.
fn lower(c: char) -> (code: u32)
    ensures
        code == lower_code(c),
{
    let code: u32 = c as u32;
    if 0x41 <= code && code <= 0x5a {
        code + 0x20
    } else {
        code
    }
}

/// Tells whether two texts are equal but for the case of their ASCII letters.
pub fn eq_ignoring_case(left: &str, right: &str) -> (same: bool)
    ensures
        same == same_ignoring_case(left@, right@),
{
    let count: usize = left.unicode_len();
    if count != right.unicode_len() {
        return false;
    }
    let mut index: usize = 0;
    while index < count
        invariant
            index <= count,
            count == left@.len(),
            count == right@.len(),
            forall|i: int| 0 <= i < index ==> lower_code(left@[i]) == lower_code(right@[i]),
        decreases count - index,
    {
        if lower(left.get_char(index)) != lower(right.get_char(index)) {
            return false;
        }
        index += 1;
    }
    true
}

impl FileKind {
    /// Tells the type that an extension declares.
    ///
    /// `jpg` and `jpeg` declare a JPEG file; `heic`, `heif` and `avif` a HEIF
    /// file; `png`, `tiff`, `tif`, `webp`, `bmp` and `gif` another raster
    /// format. The case of the letters does not matter. Any other extension
    /// declares nothing.
    pub fn from_extension(extension: &str) -> (kind: Option<FileKind>)
        ensures
            kind == kind_of_extension(extension@),
    {
        if eq_ignoring_case(extension, "jpg") || eq_ignoring_case(extension, "jpeg") {
            Some(FileKind::Jpeg)
        } else if eq_ignoring_case(extension, "heic") || eq_ignoring_case(extension, "heif")
            || eq_ignoring_case(extension, "avif") {
            Some(FileKind::Heif)
        } else if eq_ignoring_case(extension, "png") || eq_ignoring_case(extension, "tiff")
            || eq_ignoring_case(extension, "tif") || eq_ignoring_case(extension, "webp")
            || eq_ignoring_case(extension, "bmp") || eq_ignoring_case(extension, "gif") {
            Some(FileKind::OtherRaster)
        } else {
            None
        }
    }

    /// Whether files of this type are kept in a HEIF container.
    pub fn is_heif(&self) -> (yes: bool)
        ensures
            yes == (self is Heif),
    {
        match self {
            FileKind::Heif => true,
            _ => false,
        }
    }
}

} // verus!
