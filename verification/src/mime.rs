//! The media type under which a photo is served, told by its extension.

use vstd::prelude::*;

verus! {

/// The media type of an extension; files of an unknown extension are served
/// as plain bytes. The extension is taken as written: an upper-case one is
/// unknown.
pub open spec fn mime_of(extension: Option<Seq<char>>) -> Seq<char> {
    match extension {
        None => "application/octet-stream"@,
        Some(e) => if e == "jpg"@ || e == "jpeg"@ {
            "image/jpeg"@
        } else if e == "png"@ {
            "image/png"@
        } else if e == "heic"@ || e == "heif"@ {
            "image/heic"@
        } else if e == "gif"@ {
            "image/gif"@
        } else if e == "webp"@ {
            "image/webp"@
        } else if e == "bmp"@ {
            "image/bmp"@
        } else if e == "svg"@ {
            "image/svg+xml"@
        } else {
            "application/octet-stream"@
        },
    }
}

/// Tells whether two texts are the same.
pub fn same_text(left: &str, right: &str) -> (same: bool)
    ensures
        same == (left@ == right@),
{
    let count: usize = left.unicode_len();
    if count != right.unicode_len() {
        return false;
    }
    let mut index: usize = 0;
    while index < count
        invariant
            index <= count,
            count == left@.len(),
            count == right@.len(),
            forall|i: int| 0 <= i < index ==> left@[i] == right@[i],
        decreases count - index,
    {
        if left.get_char(index) != right.get_char(index) {
            return false;
        }
        index += 1;
    }
    proof {
        assert(left@ =~= right@);
    }
    true
}

/// Simple media type detection based on the extension of a file.
pub fn get_mime_type(extension: Option<&str>) -> (mime: &'static str)
    ensures
        mime@ == mime_of(
            match extension {
                Some(e) => Some(e@),
                None => None,
            },
        ),
{
    match extension {
        None => "application/octet-stream",
        Some(e) => {
            if same_text(e, "jpg") || same_text(e, "jpeg") {
                "image/jpeg"
            } else if same_text(e, "png") {
                "image/png"
            } else if same_text(e, "heic") || same_text(e, "heif") {
                "image/heic"
            } else if same_text(e, "gif") {
                "image/gif"
            } else if same_text(e, "webp") {
                "image/webp"
            } else if same_text(e, "bmp") {
                "image/bmp"
            } else if same_text(e, "svg") {
                "image/svg+xml"
            } else {
                "application/octet-stream"
            }
        },
    }
}

} // verus!
