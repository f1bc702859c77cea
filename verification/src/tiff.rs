//! The TIFF header and the walk over one image file directory (IFD).
//!
//! All offsets inside a directory are relative to the start of the TIFF header.
//! The walker reads a directory's own entries and nothing else: it never
//! follows the link to a next directory.

use vstd::prelude::*;
use crate::cursor::{locate, read_u16, read_u32, u16_at, u32_at, ByteOrder};
use crate::error::ExifError;

verus! {

/// The magic number that follows the byte-order marker of a TIFF header.
pub const TIFF_MAGIC: u16 = 42;

/// Size in bytes of one directory entry.
pub const ENTRY_SIZE: usize = 12;

/// Tag of the entry in the first directory that points to the GPS directory.
pub const TAG_GPS_IFD_POINTER: u16 = 0x8825;

/// How the value of a directory entry is encoded.
#[derive(Clone, Copy, Debug, PartialEq, Eq, Structural)]
pub enum FieldFormat {
    /// Unsigned bytes (code 1).
    Byte,
    /// Zero-terminated text (code 2).
    Ascii,
    /// Unsigned 16-bit integers (code 3).
    Short,
    /// Unsigned 32-bit integers (code 4).
    Long,
    /// Pairs of unsigned 32-bit integers (code 5).
    Rational,
    /// Signed bytes (code 6).
    SByte,
    /// Bytes of no declared meaning (code 7).
    Undefined,
    /// Signed 16-bit integers (code 8).
    SShort,
    /// Signed 32-bit integers (code 9).
    SLong,
    /// Pairs of signed 32-bit integers (code 10).
    SRational,
    /// Binary fractions of 32 bits (code 11).
    Single,
    /// Binary fractions of 64 bits (code 12).
    Double,
    /// A format code outside the TIFF table.
    Unknown,
}

impl FieldFormat {
    /// The format that a format code of the TIFF table stands for.
    pub open spec fn of_code(code: int) -> FieldFormat {
        if code == 1 {
            FieldFormat::Byte
        } else if code == 2 {
            FieldFormat::Ascii
        } else if code == 3 {
            FieldFormat::Short
        } else if code == 4 {
            FieldFormat::Long
        } else if code == 5 {
            FieldFormat::Rational
        } else if code == 6 {
            FieldFormat::SByte
        } else if code == 7 {
            FieldFormat::Undefined
        } else if code == 8 {
            FieldFormat::SShort
        } else if code == 9 {
            FieldFormat::SLong
        } else if code == 10 {
            FieldFormat::SRational
        } else if code == 11 {
            FieldFormat::Single
        } else if code == 12 {
            FieldFormat::Double
        } else {
            FieldFormat::Unknown
        }
    }

    /// Decodes a format code.
    pub fn from_code(code: u16) -> (format: FieldFormat)
        ensures
            format == FieldFormat::of_code(code as int),
    {
        match code {
            1 => FieldFormat::Byte,
            2 => FieldFormat::Ascii,
            3 => FieldFormat::Short,
            4 => FieldFormat::Long,
            5 => FieldFormat::Rational,
            6 => FieldFormat::SByte,
            7 => FieldFormat::Undefined,
            8 => FieldFormat::SShort,
            9 => FieldFormat::SLong,
            10 => FieldFormat::SRational,
            11 => FieldFormat::Single,
            12 => FieldFormat::Double,
            _ => FieldFormat::Unknown,
        }
    }

    /// Bytes taken by one component of a value; 0 for an unknown format.
    pub open spec fn unit_len(self) -> int {
        match self {
            FieldFormat::Byte | FieldFormat::Ascii | FieldFormat::SByte | FieldFormat::Undefined => 1,
            FieldFormat::Short | FieldFormat::SShort => 2,
            FieldFormat::Long | FieldFormat::SLong | FieldFormat::Single => 4,
            FieldFormat::Rational | FieldFormat::SRational | FieldFormat::Double => 8,
            FieldFormat::Unknown => 0,
        }
    }

    /// Bytes taken by one component of a value; 0 for an unknown format.
    pub fn unit_size(&self) -> (size: u64)
        ensures
            size == self.unit_len(),
    {
        match self {
            FieldFormat::Byte | FieldFormat::Ascii | FieldFormat::SByte | FieldFormat::Undefined => 1,
            FieldFormat::Short | FieldFormat::SShort => 2,
            FieldFormat::Long | FieldFormat::SLong | FieldFormat::Single => 4,
            FieldFormat::Rational | FieldFormat::SRational | FieldFormat::Double => 8,
            FieldFormat::Unknown => 0,
        }
    }
}

/// One twelve-byte entry of a directory.
///
/// An entry is a view into the buffer it was read from: `position` is where its
/// twelve bytes start, so that a value stored inline can be read back.
#[derive(Clone, Copy, Debug, PartialEq, Eq, Structural)]
pub struct IfdEntry {
    /// The tag number.
    pub tag: u16,
    /// The encoding of the value.
    pub format: FieldFormat,
    /// The number of components of the value.
    pub count: u32,
    /// The last four bytes: the value itself if it fits, else its offset from the TIFF header.
    pub value_or_offset: u32,
    /// Where in the buffer the entry starts.
    pub position: usize,
}

impl IfdEntry {
    /// The number of bytes that the value takes.
    pub open spec fn value_len(self) -> int {
        self.format.unit_len() * self.count
    }

    /// Whether the value is stored in the entry's last four bytes.
    pub open spec fn is_inline(self) -> bool {
        self.value_len() <= 4
    }

    /// Where the value's bytes start, for a header at `tiff_start`.
    pub open spec fn value_start(self, tiff_start: int) -> int {
        if self.is_inline() {
            self.position + 8
        } else {
            tiff_start + self.value_or_offset
        }
    }

    /// Whether the whole value lies inside a buffer of `len` bytes.
    pub open spec fn value_fits(self, len: int, tiff_start: int) -> bool {
        self.value_start(tiff_start) + self.value_len() <= len
    }

    /// Finds where the value's bytes start.
    ///
    /// A value of at most four bytes is stored inline, a longer one at its offset
    /// from the TIFF header. Fails with [`ExifError::TruncatedBuffer`] exactly
    /// when the value does not lie inside the buffer.
    pub fn locate_value(&self, len: usize, tiff_start: usize) -> (start: Result<usize, ExifError>)
        ensures
            self.value_fits(len as int, tiff_start as int) ==> start is Ok && start->Ok_0
                == self.value_start(tiff_start as int),
            !self.value_fits(len as int, tiff_start as int) ==> start == Err::<usize, ExifError>(
                ExifError::TruncatedBuffer,
            ),
    {
        let unit: u64 = self.format.unit_size();
        let count: u64 = self.count as u64;
        assert(unit * count <= 8 * 0xffff_ffff) by (nonlinear_arith)
            requires
                0 <= unit <= 8,
                0 <= count <= 0xffff_ffff,
        ;
        let total: u64 = unit * count;
        if total <= 4 {
            let need: usize = total as usize;
            if self.position > len || len - self.position < 8 || len - self.position - 8 < need {
                return Err(ExifError::TruncatedBuffer);
            }
            Ok(self.position + 8)
        } else {
            if total > usize::MAX as u64 {
                return Err(ExifError::TruncatedBuffer);
            }
            match locate(len, tiff_start, self.value_or_offset, total as usize) {
                Some(start) => Ok(start),
                None => Err(ExifError::TruncatedBuffer),
            }
        }
    }
}

/// What the eight bytes of a TIFF header say.
#[derive(Clone, Copy, Debug, PartialEq, Eq, Structural)]
pub struct TiffHeader {
    /// The byte order of every read reachable from this header.
    pub order: ByteOrder,
    /// Offset of the first directory, from the start of the header.
    pub first_ifd_offset: u32,
}

/// The byte order that a two-byte marker at `start` declares, if it is one of "II" and "MM".
pub open spec fn marker_at(data: Seq<u8>, start: int) -> Option<ByteOrder>
    recommends
        0 <= start,
        start + 2 <= data.len(),
{
    if data[start] == 0x49 && data[start + 1] == 0x49 {
        Some(ByteOrder::LittleEndian)
    } else if data[start] == 0x4d && data[start + 1] == 0x4d {
        Some(ByteOrder::BigEndian)
    } else {
        None
    }
}

/// Whether a byte-order marker stands at `start`, inside the buffer.
pub open spec fn has_marker_at(data: Seq<u8>, start: int) -> bool {
    0 <= start && start + 2 <= data.len() && marker_at(data, start) is Some
}

/// What [`parse_tiff_header`] returns for a header at `start`.
pub open spec fn tiff_header_at(data: Seq<u8>, start: int) -> Result<TiffHeader, ExifError>
    recommends
        0 <= start,
{
    if start + 2 > data.len() {
        Err(ExifError::TruncatedBuffer)
    } else {
        match marker_at(data, start) {
            None => Err(ExifError::NotATiffHeader),
            Some(order) => {
                if start + 4 > data.len() {
                    Err(ExifError::TruncatedBuffer)
                } else if u16_at(data, start + 2, order) != TIFF_MAGIC {
                    Err(ExifError::NotATiffHeader)
                } else if start + 8 > data.len() {
                    Err(ExifError::TruncatedBuffer)
                } else {
                    Ok(
                        TiffHeader {
                            order,
                            first_ifd_offset: u32_at(data, start + 4, order) as u32,
                        },
                    )
                }
            },
        }
    }
}

/// Reads the byte-order marker at `start`.
pub fn read_marker(data: &[u8], start: usize) -> (order: Option<ByteOrder>)
    ensures
        order is Some <==> has_marker_at(data@, start as int),
        order is Some ==> order == marker_at(data@, start as int),
{
    if data.len() < 2 || start > data.len() - 2 {
        return None;
    }
    let first: u8 = data[start];
    let second: u8 = data[start + 1];
    if first == 0x49 && second == 0x49 {
        Some(ByteOrder::LittleEndian)
    } else if first == 0x4d && second == 0x4d {
        Some(ByteOrder::BigEndian)
    } else {
        None
    }
}

/// Reads the TIFF header that starts at `start`.
///
/// The marker must be "II" or "MM" and the magic number 42, else the result is
/// [`ExifError::NotATiffHeader`]; a header that does not fit in the buffer gives
/// [`ExifError::TruncatedBuffer`].
pub fn parse_tiff_header(data: &[u8], start: usize) -> (header: Result<TiffHeader, ExifError>)
    ensures
        header == tiff_header_at(data@, start as int),
{
    if data.len() < 2 || start > data.len() - 2 {
        return Err(ExifError::TruncatedBuffer);
    }
    let order = match read_marker(data, start) {
        Some(order) => order,
        None => { return Err(ExifError::NotATiffHeader); },
    };
    if data.len() - start < 4 {
        return Err(ExifError::TruncatedBuffer);
    }
    let magic = read_u16(data, start + 2, order)?;
    if magic != TIFF_MAGIC {
        return Err(ExifError::NotATiffHeader);
    }
    if data.len() - start < 8 {
        return Err(ExifError::TruncatedBuffer);
    }
    let first_ifd_offset = read_u32(data, start + 4, order)?;
    Ok(TiffHeader { order, first_ifd_offset })
}

/// The entry whose twelve bytes start at `position`.
pub open spec fn entry_at(data: Seq<u8>, position: int, order: ByteOrder) -> IfdEntry
    recommends
        0 <= position,
        position + 12 <= data.len(),
{
    IfdEntry {
        tag: u16_at(data, position, order) as u16,
        format: FieldFormat::of_code(u16_at(data, position + 2, order)),
        count: u32_at(data, position + 4, order) as u32,
        value_or_offset: u32_at(data, position + 8, order) as u32,
        position: position as usize,
    }
}

/// Whether the directory at `position` lies inside the buffer: its count, and
/// as many entries as the count declares.
pub open spec fn ifd_fits(data: Seq<u8>, position: int, order: ByteOrder) -> bool {
    &&& 0 <= position
    &&& position + 2 <= data.len()
    &&& position + 2 + 12 * u16_at(data, position, order) <= data.len()
}

/// The entries of the directory at `position`, in file order.
pub open spec fn ifd_entries(data: Seq<u8>, position: int, order: ByteOrder) -> Seq<IfdEntry> {
    Seq::new(
        u16_at(data, position, order) as nat,
        |k: int| entry_at(data, position + 2 + 12 * k, order),
    )
}

/// What [`read_ifd`] returns for the directory `ifd_offset` bytes after `tiff_start`.
pub open spec fn ifd_at(data: Seq<u8>, tiff_start: int, ifd_offset: int, order: ByteOrder) -> Result<
    Seq<IfdEntry>,
    ExifError,
> {
    if ifd_fits(data, tiff_start + ifd_offset, order) {
        Ok(ifd_entries(data, tiff_start + ifd_offset, order))
    } else {
        Err(ExifError::TruncatedBuffer)
    }
}

/// Reads the entry whose twelve bytes start at `position`.
fn read_entry(data: &[u8], position: usize, order: ByteOrder) -> (entry: IfdEntry)
    requires
        position + 12 <= data@.len(),
    ensures
        entry == entry_at(data@, position as int, order),
{
    let len: usize = data.len();
    assert(position + 12 <= len);
    let tag = match read_u16(data, position, order) {
        Ok(v) => v,
        Err(_) => 0,
    };
    let code = match read_u16(data, position + 2, order) {
        Ok(v) => v,
        Err(_) => 0,
    };
    let count = match read_u32(data, position + 4, order) {
        Ok(v) => v,
        Err(_) => 0,
    };
    let value_or_offset = match read_u32(data, position + 8, order) {
        Ok(v) => v,
        Err(_) => 0,
    };
    IfdEntry { tag, format: FieldFormat::from_code(code), count, value_or_offset, position }
}

/// Reads the entries of the directory that starts `ifd_offset` bytes after `tiff_start`.
///
/// The declared entry count is checked against the buffer before any entry is
/// read: a directory that would reach past the end gives
/// [`ExifError::TruncatedBuffer`]. The link to a next directory is not read.
pub fn read_ifd(data: &[u8], tiff_start: usize, ifd_offset: u32, order: ByteOrder) -> (entries:
    Result<Vec<IfdEntry>, ExifError>)
    ensures
        entries is Ok <==> ifd_at(data@, tiff_start as int, ifd_offset as int, order) is Ok,
        entries matches Ok(v) ==> Ok::<Seq<IfdEntry>, ExifError>(v@) == ifd_at(
            data@,
            tiff_start as int,
            ifd_offset as int,
            order,
        ),
        entries matches Err(e) ==> e == ExifError::TruncatedBuffer,
{
    let position = match locate(data.len(), tiff_start, ifd_offset, 2) {
        Some(p) => p,
        None => { return Err(ExifError::TruncatedBuffer); },
    };
    let declared = read_u16(data, position, order)?;
    let len: usize = data.len();
    let count: usize = declared as usize;
    let first: usize = position + 2;
    if (len - first) / ENTRY_SIZE < count {
        return Err(ExifError::TruncatedBuffer);
    }
    let mut entries: Vec<IfdEntry> = Vec::new();
    let mut index: usize = 0;
    while index < count
        invariant
            index <= count,
            count == u16_at(data@, position as int, order),
            first == position + 2,
            first + 12 * count <= len,
            len == data@.len(),
            entries@.len() == index,
            forall|k: int|
                0 <= k < index ==> entries@[k] == entry_at(data@, first + 12 * k, order),
        decreases count - index,
    {
        let entry = read_entry(data, first + ENTRY_SIZE * index, order);
        entries.push(entry);
        index += 1;
    }
    proof {
        assert(entries@ =~= ifd_entries(data@, position as int, order));
    }
    Ok(entries)
}

/// Walks the directory `ifd_offset` bytes after the TIFF header at `tiff_start`.
///
/// The header is checked first (marker, then magic number), and its byte order
/// governs every read of the directory.
pub open spec fn walk_at(data: Seq<u8>, tiff_start: int, ifd_offset: int) -> Result<
    Seq<IfdEntry>,
    ExifError,
> {
    match tiff_header_at(data, tiff_start) {
        Err(e) => Err(e),
        Ok(header) => ifd_at(data, tiff_start, ifd_offset, header.order),
    }
}

/// Walks the directory `ifd_offset` bytes after the TIFF header at `tiff_start`.
///
/// Fails with [`ExifError::NotATiffHeader`] on an unrecognised marker or magic
/// number and with [`ExifError::TruncatedBuffer`] where the header or the
/// directory reaches past the buffer; otherwise returns the directory's entries
/// in file order.
pub fn walk_ifd(data: &[u8], tiff_start: usize, ifd_offset: u32) -> (entries: Result<
    Vec<IfdEntry>,
    ExifError,
>)
    ensures
        entries is Ok <==> walk_at(data@, tiff_start as int, ifd_offset as int) is Ok,
        entries matches Ok(v) ==> Ok::<Seq<IfdEntry>, ExifError>(v@) == walk_at(
            data@,
            tiff_start as int,
            ifd_offset as int,
        ),
        entries matches Err(e) ==> Err::<Seq<IfdEntry>, ExifError>(e) == walk_at(
            data@,
            tiff_start as int,
            ifd_offset as int,
        ),
{
    let header = parse_tiff_header(data, tiff_start)?;
    read_ifd(data, tiff_start, ifd_offset, header.order)
}

/// A header whose first two bytes are neither "II" nor "MM" is rejected as
/// not being a TIFF header, whatever follows, and so is every walk from it.
pub proof fn unrecognized_marker_is_rejected(data: Seq<u8>, tiff_start: int, ifd_offset: int)
    requires
        0 <= tiff_start,
        tiff_start + 2 <= data.len(),
        marker_at(data, tiff_start) is None,
    ensures
        tiff_header_at(data, tiff_start) == Err::<TiffHeader, ExifError>(ExifError::NotATiffHeader),
        walk_at(data, tiff_start, ifd_offset) == Err::<Seq<IfdEntry>, ExifError>(
            ExifError::NotATiffHeader,
        ),
{
}

/// A directory whose declared entries would reach past the end of the buffer
/// is reported as truncated, and no entry of it is returned.
pub proof fn overlong_directory_is_truncated(
    data: Seq<u8>,
    tiff_start: int,
    ifd_offset: int,
    order: ByteOrder,
)
    requires
        tiff_start + ifd_offset + 2 + 12 * u16_at(data, tiff_start + ifd_offset, order)
            > data.len(),
    ensures
        ifd_at(data, tiff_start, ifd_offset, order) == Err::<Seq<IfdEntry>, ExifError>(
            ExifError::TruncatedBuffer,
        ),
{
}

/// Where the link to the next directory stands: right after the last entry.
pub open spec fn next_link_position(data: Seq<u8>, position: int, order: ByteOrder) -> int {
    position + 2 + 12 * u16_at(data, position, order)
}

/// Whether two buffers differ at most in the four bytes from `hole` on.
pub open spec fn same_but_from(first: Seq<u8>, second: Seq<u8>, hole: int) -> bool {
    &&& first.len() == second.len()
    &&& forall|i: int| 0 <= i < first.len() && !(hole <= i < hole + 4) ==> first[i] == second[i]
}

/// The walk over a directory does not depend on the link to the next
/// directory: whatever the four bytes of the link hold, the same entries are
/// read.
pub proof fn walk_ignores_next_link(
    first: Seq<u8>,
    second: Seq<u8>,
    tiff_start: int,
    ifd_offset: int,
    order: ByteOrder,
)
    requires
        0 <= tiff_start,
        0 <= ifd_offset,
        ifd_fits(first, tiff_start + ifd_offset, order),
        same_but_from(
            first,
            second,
            next_link_position(first, tiff_start + ifd_offset, order),
        ),
    ensures
        ifd_at(first, tiff_start, ifd_offset, order) == ifd_at(
            second,
            tiff_start,
            ifd_offset,
            order,
        ),
{
    let position = tiff_start + ifd_offset;
    let count = u16_at(first, position, order);
    assert(u16_at(second, position, order) == count);
    let left = ifd_entries(first, position, order);
    let right = ifd_entries(second, position, order);
    assert(left.len() == right.len());
    assert forall|k: int| 0 <= k < left.len() implies #[trigger] left[k] == right[k] by {
        let at = position + 2 + 12 * k;
        assert(at + 12 <= position + 2 + 12 * count);
        assert(forall|i: int| at <= i < at + 12 ==> first[i] == second[i]);
        assert(left[k] == entry_at(first, at, order));
        assert(right[k] == entry_at(second, at, order));
    }
    assert(left =~= right);
}

} // verus!
