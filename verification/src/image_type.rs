//! The sizes in which a photo is rendered for the map.

use vstd::prelude::*;
use crate::mime::same_text;

verus! {

/// Edge of a map marker, in pixels.
pub const MARKER_SIZE: u32 = 40;

/// Edge of a thumbnail, in pixels.
pub const THUMBNAIL_SIZE: u32 = 120;

/// Edge of a gallery tile, in pixels.
pub const GALLERY_SIZE: u32 = 240;

/// Longest edge of the image shown in a popup, in pixels.
pub const POPUP_SIZE: u32 = 1400;

/// Longest edge of an image rendered without a named size, in pixels.
pub const FULL_SIZE: u32 = 4096;

/// A rendering of a photo.
#[derive(Clone, Copy, Debug, PartialEq, Eq, Structural)]
pub enum ImageType {
    /// The small square that marks a photo on the map.
    Marker,
    /// The square shown for a photo in a cluster.
    Thumbnail,
    /// The square shown for a photo in the gallery.
    Gallery,
    /// The large image of a popup, in its own proportions.
    Popup,
}

impl ImageType {
    /// The size of the rendering in pixels.
    pub open spec fn pixels(&self) -> u32 {
        match self {
            ImageType::Marker => MARKER_SIZE,
            ImageType::Thumbnail => THUMBNAIL_SIZE,
            ImageType::Gallery => GALLERY_SIZE,
            ImageType::Popup => POPUP_SIZE,
        }
    }

    /// The name of the rendering.
    pub open spec fn label(&self) -> Seq<char> {
        match self {
            ImageType::Marker => "marker"@,
            ImageType::Thumbnail => "thumbnail"@,
            ImageType::Gallery => "gallery"@,
            ImageType::Popup => "popup"@,
        }
    }

    /// Whether the rendering is a square: every one is, but the popup.
    pub open spec fn is_square(&self) -> bool {
        !(self is Popup)
    }

    /// Returns the size of the image in pixels.
    pub fn size(&self) -> (pixels: u32)
        ensures
            pixels == self.pixels(),
    {
        match self {
            ImageType::Marker => MARKER_SIZE,
            ImageType::Thumbnail => THUMBNAIL_SIZE,
            ImageType::Gallery => GALLERY_SIZE,
            ImageType::Popup => POPUP_SIZE,
        }
    }

    /// Returns a human-readable name.
    pub fn name(&self) -> (label: &'static str)
        ensures
            label@ == self.label(),
    {
        match self {
            ImageType::Marker => "marker",
            ImageType::Thumbnail => "thumbnail",
            ImageType::Gallery => "gallery",
            ImageType::Popup => "popup",
        }
    }

    /// Returns whether the image should be padded to a square.
    pub fn pad_to_square(&self) -> (square: bool)
        ensures
            square == self.is_square(),
    {
        match self {
            ImageType::Marker | ImageType::Thumbnail | ImageType::Gallery => true,
            ImageType::Popup => false,
        }
    }
}

/// The rendering that a size name stands for, if it names one.
pub open spec fn named_type(name: Seq<char>) -> Option<ImageType> {
    if name == "marker"@ {
        Some(ImageType::Marker)
    } else if name == "thumbnail"@ {
        Some(ImageType::Thumbnail)
    } else if name == "gallery"@ {
        Some(ImageType::Gallery)
    } else if name == "popup"@ {
        Some(ImageType::Popup)
    } else {
        None
    }
}

/// The longest edge and the squareness that a size name asks for: those of
/// the rendering it names, else the full size without padding.
pub open spec fn named_dimensions(name: Seq<char>) -> (u32, bool) {
    match named_type(name) {
        Some(kind) => (kind.pixels(), kind.is_square()),
        None => (FULL_SIZE, false),
    }
}

/// Tells the rendering that a size name stands for.
pub fn type_of_name(name: &str) -> (kind: Option<ImageType>)
    ensures
        kind == named_type(name@),
{
    if same_text(name, "marker") {
        Some(ImageType::Marker)
    } else if same_text(name, "thumbnail") {
        Some(ImageType::Thumbnail)
    } else if same_text(name, "gallery") {
        Some(ImageType::Gallery)
    } else if same_text(name, "popup") {
        Some(ImageType::Popup)
    } else {
        None
    }
}

/// Tells the longest edge in pixels that a size name asks for, and whether
/// the image is padded to a square.
pub fn dimensions_of_name(name: &str) -> (dimensions: (u32, bool))
    ensures
        dimensions == named_dimensions(name@),
{
    match type_of_name(name) {
        Some(kind) => (kind.size(), kind.pad_to_square()),
        None => (FULL_SIZE, false),
    }
}

/// The name of a rendering names that rendering.
pub proof fn name_round_trip(kind: ImageType)
    ensures
        named_type(kind.label()) == Some(kind),
{
    reveal_strlit("marker");
    reveal_strlit("thumbnail");
    reveal_strlit("gallery");
    reveal_strlit("popup");
    match kind {
        ImageType::Marker => {},
        ImageType::Thumbnail => {
            assert("thumbnail"@.len() != "marker"@.len());
        },
        ImageType::Gallery => {
            assert("gallery"@.len() != "marker"@.len());
            assert("gallery"@.len() != "thumbnail"@.len());
        },
        ImageType::Popup => {
            assert("popup"@.len() != "marker"@.len());
            assert("popup"@.len() != "thumbnail"@.len());
            assert("popup"@.len() != "gallery"@.len());
        },
    }
}

} // verus!
