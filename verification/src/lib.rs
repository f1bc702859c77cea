//! Recovery of geolocation and capture time from the metadata of photo files.
//!
//! The crate reads the TIFF/EXIF directories that JPEG and HEIF files carry,
//! tolerates the malformations that real producers emit, and turns the GPS and
//! date-time fields into exact values. Around that engine it keeps the small
//! rules of the application that shows the photos on a map: which files are
//! scanned, in which sizes a photo is rendered, and the text in which the
//! settings are kept.
//!
//! The engine, leaf first:
//! - [`cursor`] reads integers from a buffer in either byte order;
//! - [`tiff`] reads a TIFF header and walks one directory;
//! - [`coordinate`] turns degrees, minutes and seconds into an exact angle;
//! - [`jpeg`] finds the EXIF segment of a JPEG file;
//! - [`heif`] finds the TIFF header in a metadata block of a HEIF container;
//! - [`gps`] scans the bytes of a file for its GPS directory;
//! - [`field`], [`reader`], [`resolver`] and [`timestamp`] resolve the
//!   coordinate and the capture time from the fields of a parsed structure;
//! - [`extract`] runs the strategies in order and returns the first result.

pub mod error;
pub mod cursor;
pub mod tiff;
pub mod coordinate;
pub mod jpeg;
pub mod heif;
pub mod gps;
pub mod field;
pub mod reader;
pub mod timestamp;
pub mod resolver;
pub mod file_kind;
pub mod extract;
pub mod custom;
pub mod mime;
pub mod text;
pub mod image_type;
pub mod settings;
pub mod scan;
