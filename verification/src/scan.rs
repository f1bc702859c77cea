//! The rules by which a folder of photos is scanned, and the figures that a
//! scan reports.

use vstd::prelude::*;
use crate::file_kind::{eq_ignoring_case, kind_of_extension, same_ignoring_case, FileKind};
use crate::mime::same_text;

verus! {

/// Whether a directory or file of this name is left out of a scan: hidden
/// entries, and the directories of build tools.
pub open spec fn is_excluded(name: Seq<char>) -> bool {
    (name.len() > 0 && name[0] == '.') || name == "node_modules"@ || name == "target"@
}

/// Whether a file of this extension is taken up by a scan: the JPEG and the
/// HEIF files are.
pub open spec fn is_scanned(extension: Seq<char>) -> bool {
    kind_of_extension(extension) == Some(FileKind::Jpeg) || kind_of_extension(extension) == Some(
        FileKind::Heif,
    )
}

/// Whether a file of this extension is counted among the HEIC files.
pub open spec fn is_heic_extension(extension: Seq<char>) -> bool {
    same_ignoring_case(extension, "heic"@) || same_ignoring_case(extension, "heif"@)
}

/// Tells whether a component of a path keeps the path out of a scan.
pub fn is_excluded_component(name: &str) -> (excluded: bool)
    ensures
        excluded == is_excluded(name@),
{
    if name.unicode_len() > 0 && name.get_char(0) == '.' {
        return true;
    }
    same_text(name, "node_modules") || same_text(name, "target")
}

/// Tells whether a file of this extension is taken up by a scan.
pub fn is_scanned_extension(extension: &str) -> (scanned: bool)
    ensures
        scanned == is_scanned(extension@),
{
    match FileKind::from_extension(extension) {
        Some(FileKind::Jpeg) => true,
        Some(FileKind::Heif) => true,
        _ => false,
    }
}

/// Tells whether a file of this extension is counted among the HEIC files.
pub fn counts_as_heic(extension: &str) -> (heic: bool)
    ensures
        heic == is_heic_extension(extension@),
{
    eq_ignoring_case(extension, "heic") || eq_ignoring_case(extension, "heif")
}

/// The figures of one scan, or of several added up.
#[derive(Clone, Copy, Debug, PartialEq, Eq, Structural)]
pub struct ScanStats {
    /// Files with an extension that the engine handles.
    pub total_files: usize,
    /// Files whose metadata was stored.
    pub processed: usize,
    /// Files with a coordinate: every stored file has one.
    pub gps_count: usize,
    /// Files without a coordinate.
    pub no_gps_count: usize,
    /// Files with the extension of a HEIC file.
    pub heic_count: usize,
}

impl ScanStats {
    /// The parts add up: every file either has a coordinate and was stored, or
    /// has none.
    pub open spec fn wf(self) -> bool {
        &&& self.gps_count == self.processed
        &&& self.gps_count + self.no_gps_count == self.total_files
    }

    /// Files that were looked at and not stored.
    pub open spec fn skipped(self) -> int {
        self.total_files - self.processed
    }

    /// The figures of a scan in which nothing was found.
    pub fn empty() -> (stats: ScanStats)
        ensures
            stats == (ScanStats {
                total_files: 0,
                processed: 0,
                gps_count: 0,
                no_gps_count: 0,
                heic_count: 0,
            }),
            stats.wf(),
    {
        ScanStats { total_files: 0, processed: 0, gps_count: 0, no_gps_count: 0, heic_count: 0 }
    }

    /// The figures of a scan that looked at `total_files` files, stored
    /// `stored` of them and met `heic_count` HEIC files.
    pub fn of_scan(total_files: usize, stored: usize, heic_count: usize) -> (stats: ScanStats)
        requires
            stored <= total_files,
        ensures
            stats == (ScanStats {
                total_files,
                processed: stored,
                gps_count: stored,
                no_gps_count: (total_files - stored) as usize,
                heic_count,
            }),
            stats.wf(),
    {
        ScanStats {
            total_files,
            processed: stored,
            gps_count: stored,
            no_gps_count: total_files - stored,
            heic_count,
        }
    }

    /// Adds the figures of another scan, if no figure outgrows the machine.
    pub fn plus(&self, other: &ScanStats) -> (sum: Option<ScanStats>)
        requires
            self.wf(),
            other.wf(),
        ensures
            sum is Some <==> self.total_files + other.total_files <= usize::MAX && self.heic_count
                + other.heic_count <= usize::MAX,
            sum matches Some(s) ==> s.wf() && s.total_files == self.total_files
                + other.total_files && s.processed == self.processed + other.processed
                && s.gps_count == self.gps_count + other.gps_count && s.no_gps_count
                == self.no_gps_count + other.no_gps_count && s.heic_count == self.heic_count
                + other.heic_count,
    {
        let total_files = match self.total_files.checked_add(other.total_files) {
            Some(n) => n,
            None => { return None; },
        };
        let heic_count = match self.heic_count.checked_add(other.heic_count) {
            Some(n) => n,
            None => { return None; },
        };
        Some(
            ScanStats {
                total_files,
                processed: self.processed + other.processed,
                gps_count: self.gps_count + other.gps_count,
                no_gps_count: self.no_gps_count + other.no_gps_count,
                heic_count,
            },
        )
    }

    /// The number of files that were looked at and not stored.
    pub fn skipped_count(&self) -> (skipped: usize)
        requires
            self.wf(),
        ensures
            skipped == self.skipped(),
            skipped == self.no_gps_count,
    {
        self.total_files - self.processed
    }
}

} // verus!
