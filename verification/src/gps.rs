//! The GPS fields of a directory read by the walker, and the byte scan that
//! finds the GPS directory without trusting any link between directories.

use vstd::prelude::*;
use crate::coordinate::{
    coordinate_of,
    dms_to_decimal,
    is_negative_hemisphere,
    make_coordinate,
    to_decimal,
    DecimalDegrees,
    GeoCoordinate,
    RationalValue,
};
use crate::cursor::{
    as_signed32,
    locate,
    read_i32,
    read_u32,
    span_fits,
    u16_at,
    u32_at,
    ByteOrder,
};
use crate::error::ExifError;
use crate::jpeg::{
    exif_segment,
    find_exif_segment,
    has_exif_signature,
    scan_segments,
    segment_length,
    EXIF_PREAMBLE,
    MARKER_APP1,
};
use crate::tiff::{
    entry_at,
    ifd_at,
    ifd_entries,
    ifd_fits,
    next_link_position,
    parse_tiff_header,
    read_ifd,
    same_but_from,
    tiff_header_at,
    walk_ignores_next_link,
    FieldFormat,
    IfdEntry,
    TAG_GPS_IFD_POINTER,
};

verus! {

/// Tag of the hemisphere letter of the latitude.
pub const TAG_GPS_LATITUDE_REF: u16 = 1;

/// Tag of the latitude.
pub const TAG_GPS_LATITUDE: u16 = 2;

/// Tag of the hemisphere letter of the longitude.
pub const TAG_GPS_LONGITUDE_REF: u16 = 3;

/// Tag of the longitude.
pub const TAG_GPS_LONGITUDE: u16 = 4;

/// Bytes taken by the three rationals of a coordinate.
pub const COORDINATE_SIZE: usize = 24;

/// What an entry is looked up as.
#[derive(Clone, Copy, Debug, PartialEq, Eq, Structural)]
pub enum EntryRole {
    /// Any entry that carries the tag.
    Tagged,
    /// An array of three rationals, signed or unsigned.
    Coordinate,
    /// A text of at least one character.
    Reference,
}

/// Whether an entry carries `tag` and has the shape that `role` asks for.
pub open spec fn entry_matches(entry: IfdEntry, tag: u16, role: EntryRole) -> bool {
    entry.tag == tag && match role {
        EntryRole::Tagged => true,
        EntryRole::Coordinate => (entry.format == FieldFormat::Rational || entry.format
            == FieldFormat::SRational) && entry.count == 3,
        EntryRole::Reference => entry.format == FieldFormat::Ascii && entry.count >= 1,
    }
}

/// Index of the first entry from `from` on that carries `tag`.
pub open spec fn first_tagged(entries: Seq<IfdEntry>, tag: u16, from: int) -> Option<int>
    decreases entries.len() - from,
{
    if from < 0 || from >= entries.len() {
        None
    } else if entries[from].tag == tag {
        Some(from)
    } else {
        first_tagged(entries, tag, from + 1)
    }
}

/// Index of the last entry before `end` that matches `tag` and `role`.
pub open spec fn last_match(entries: Seq<IfdEntry>, tag: u16, role: EntryRole, end: int) -> Option<
    int,
>
    decreases end,
{
    if end <= 0 || end > entries.len() {
        None
    } else if entry_matches(entries[end - 1], tag, role) {
        Some(end - 1)
    } else {
        last_match(entries, tag, role, end - 1)
    }
}

/// The rational whose eight bytes start at `position`.
pub open spec fn rational_at(data: Seq<u8>, position: int, order: ByteOrder, signed: bool)
    -> RationalValue {
    if signed {
        RationalValue::Signed {
            num: as_signed32(u32_at(data, position, order)) as i32,
            den: as_signed32(u32_at(data, position + 4, order)) as i32,
        }
    } else {
        RationalValue::Unsigned {
            num: u32_at(data, position, order) as u32,
            den: u32_at(data, position + 4, order) as u32,
        }
    }
}

/// What [`read_gps_coordinate`] returns.
pub open spec fn gps_coordinate_at(
    data: Seq<u8>,
    tiff_start: int,
    offset: int,
    order: ByteOrder,
    signed: bool,
) -> Result<DecimalDegrees, ExifError> {
    let position = tiff_start + offset;
    if !span_fits(data.len() as int, tiff_start, offset, 24) {
        Err(ExifError::TruncatedBuffer)
    } else {
        match dms_to_decimal(
            rational_at(data, position, order, signed),
            rational_at(data, position + 8, order, signed),
            rational_at(data, position + 16, order, signed),
        ) {
            None => Err(ExifError::UnsupportedValueFormat),
            Some(angle) => Ok(angle),
        }
    }
}

/// The hemisphere letter of a reference entry: the first byte of its value.
pub open spec fn reference_letter(data: Seq<u8>, tiff_start: int, entry: IfdEntry) -> Result<
    u8,
    ExifError,
> {
    if entry.value_fits(data.len() as int, tiff_start) && 0 <= entry.value_start(tiff_start)
        < data.len() {
        Ok(data[entry.value_start(tiff_start)])
    } else {
        Err(ExifError::TruncatedBuffer)
    }
}

/// The signed angle that the entries of a GPS directory give for one axis.
///
/// The last entry that carries `coord_tag` and is an array of three rationals
/// holds the angle; the last entry that carries `ref_tag` and is a text holds
/// the hemisphere letter.
pub open spec fn axis_angle(
    data: Seq<u8>,
    tiff_start: int,
    order: ByteOrder,
    entries: Seq<IfdEntry>,
    coord_tag: u16,
    ref_tag: u16,
) -> Result<DecimalDegrees, ExifError> {
    match last_match(entries, coord_tag, EntryRole::Coordinate, entries.len() as int) {
        None => if last_match(entries, coord_tag, EntryRole::Tagged, entries.len() as int)
            is Some {
            Err(ExifError::UnsupportedValueFormat)
        } else {
            Err(ExifError::NotFound)
        },
        Some(i) => match last_match(entries, ref_tag, EntryRole::Reference, entries.len() as int) {
            None => Err(ExifError::MissingReference),
            Some(j) => match reference_letter(data, tiff_start, entries[j]) {
                Err(e) => Err(e),
                Ok(letter) => match gps_coordinate_at(
                    data,
                    tiff_start,
                    entries[i].value_or_offset as int,
                    order,
                    entries[i].format == FieldFormat::SRational,
                ) {
                    Err(e) => Err(e),
                    Ok(angle) => if is_negative_hemisphere(letter) {
                        Ok(
                            DecimalDegrees {
                                numerator: (-angle.numerator) as i128,
                                denominator: angle.denominator,
                            },
                        )
                    } else {
                        Ok(angle)
                    },
                },
            },
        },
    }
}

/// The coordinate that a list of GPS entries gives.
pub open spec fn entries_coordinate(
    data: Seq<u8>,
    tiff_start: int,
    order: ByteOrder,
    entries: Seq<IfdEntry>,
) -> Result<GeoCoordinate, ExifError> {
    match axis_angle(data, tiff_start, order, entries, TAG_GPS_LATITUDE, TAG_GPS_LATITUDE_REF) {
        Err(e) => Err(e),
        Ok(latitude) => match axis_angle(
            data,
            tiff_start,
            order,
            entries,
            TAG_GPS_LONGITUDE,
            TAG_GPS_LONGITUDE_REF,
        ) {
            Err(e) => Err(e),
            Ok(longitude) => match coordinate_of(Some(latitude), Some(longitude)) {
                None => Err(ExifError::NotFound),
                Some(point) => Ok(point),
            },
        },
    }
}

/// What [`parse_gps_ifd`] returns.
pub open spec fn gps_ifd_coordinate(
    data: Seq<u8>,
    tiff_start: int,
    gps_offset: int,
    order: ByteOrder,
) -> Result<GeoCoordinate, ExifError> {
    match ifd_at(data, tiff_start, gps_offset, order) {
        Err(e) => Err(e),
        Ok(entries) => entries_coordinate(data, tiff_start, order, entries),
    }
}

/// What [`find_gps_ifd_offset`] returns.
pub open spec fn gps_pointer(data: Seq<u8>, tiff_start: int, ifd_offset: int, order: ByteOrder)
    -> Result<u32, ExifError> {
    match ifd_at(data, tiff_start, ifd_offset, order) {
        Err(e) => Err(e),
        Ok(entries) => match first_tagged(entries, TAG_GPS_IFD_POINTER, 0) {
            None => Err(ExifError::NotFound),
            Some(i) => Ok(entries[i].value_or_offset),
        },
    }
}

/// What [`extract_gps_from_malformed_exif`] returns.
pub open spec fn malformed_scan(data: Seq<u8>) -> Result<GeoCoordinate, ExifError> {
    match exif_segment(data) {
        None => Err(ExifError::NotFound),
        Some(segment) => {
            let tiff_start = segment + 10;
            match tiff_header_at(data, tiff_start) {
                Err(e) => Err(e),
                Ok(header) => match gps_pointer(
                    data,
                    tiff_start,
                    header.first_ifd_offset as int,
                    header.order,
                ) {
                    Err(e) => Err(e),
                    Ok(gps_offset) => gps_ifd_coordinate(
                        data,
                        tiff_start,
                        gps_offset as int,
                        header.order,
                    ),
                },
            }
        },
    }
}

/// Tells whether an entry carries `tag` and has the shape that `role` asks for.
pub fn matches_role(entry: &IfdEntry, tag: u16, role: EntryRole) -> (yes: bool)
    ensures
        yes == entry_matches(*entry, tag, role),
{
    if entry.tag != tag {
        return false;
    }
    match role {
        EntryRole::Tagged => true,
        EntryRole::Coordinate => {
            let rational = match entry.format {
                FieldFormat::Rational => true,
                FieldFormat::SRational => true,
                _ => false,
            };
            rational && entry.count == 3
        },
        EntryRole::Reference => {
            let text = match entry.format {
                FieldFormat::Ascii => true,
                _ => false,
            };
            text && entry.count >= 1
        },
    }
}

/// Finds the last entry that matches `tag` and `role`.
pub fn find_last_entry(entries: &Vec<IfdEntry>, tag: u16, role: EntryRole) -> (index: Option<usize>)
    ensures
        index is Some <==> last_match(entries@, tag, role, entries@.len() as int) is Some,
        index matches Some(i) ==> last_match(entries@, tag, role, entries@.len() as int) == Some(
            i as int,
        ) && i < entries@.len() && entry_matches(entries@[i as int], tag, role),
{
    let mut end: usize = entries.len();
    while end > 0
        invariant
            end <= entries@.len(),
            last_match(entries@, tag, role, end as int) == last_match(
                entries@,
                tag,
                role,
                entries@.len() as int,
            ),
        decreases end,
    {
        if matches_role(&entries[end - 1], tag, role) {
            return Some(end - 1);
        }
        end -= 1;
    }
    None
}

/// Reads the rational whose eight bytes start at `position`.
fn read_rational(data: &[u8], position: usize, order: ByteOrder, signed: bool) -> (value:
    RationalValue)
    requires
        position + 8 <= data@.len(),
    ensures
        value == rational_at(data@, position as int, order, signed),
{
    let len: usize = data.len();
    assert(position + 8 <= len);
    if signed {
        let num = match read_i32(data, position, order) {
            Ok(v) => v,
            Err(_) => 0,
        };
        let den = match read_i32(data, position + 4, order) {
            Ok(v) => v,
            Err(_) => 0,
        };
        RationalValue::Signed { num, den }
    } else {
        let num = match read_u32(data, position, order) {
            Ok(v) => v,
            Err(_) => 0,
        };
        let den = match read_u32(data, position + 4, order) {
            Ok(v) => v,
            Err(_) => 0,
        };
        RationalValue::Unsigned { num, den }
    }
}

/// Reads the degrees, minutes and seconds stored `offset` bytes after the TIFF
/// header and converts them to one decimal angle, not yet signed by a hemisphere.
///
/// Fails with [`ExifError::TruncatedBuffer`] when the 24 bytes do not lie inside
/// the buffer and with [`ExifError::UnsupportedValueFormat`] when a denominator
/// is zero.
pub fn read_gps_coordinate(
    data: &[u8],
    tiff_start: usize,
    offset: u32,
    order: ByteOrder,
    signed: bool,
) -> (angle: Result<DecimalDegrees, ExifError>)
    ensures
        angle == gps_coordinate_at(data@, tiff_start as int, offset as int, order, signed),
        angle matches Ok(a) ==> a.wf(),
{
    let position = match locate(data.len(), tiff_start, offset, COORDINATE_SIZE) {
        Some(p) => p,
        None => { return Err(ExifError::TruncatedBuffer); },
    };
    let deg = read_rational(data, position, order, signed);
    let min = read_rational(data, position + 8, order, signed);
    let sec = read_rational(data, position + 16, order, signed);
    match to_decimal(deg, min, sec) {
        Some(angle) => Ok(angle),
        None => Err(ExifError::UnsupportedValueFormat),
    }
}

/// Reads the hemisphere letter of a reference entry.
pub fn read_reference(data: &[u8], tiff_start: usize, entry: &IfdEntry) -> (letter: Result<
    u8,
    ExifError,
>)
    ensures
        letter == reference_letter(data@, tiff_start as int, *entry),
{
    let start = entry.locate_value(data.len(), tiff_start)?;
    if start < data.len() {
        Ok(data[start])
    } else {
        Err(ExifError::TruncatedBuffer)
    }
}

/// Resolves one axis of the coordinate from the entries of a GPS directory.
pub fn resolve_axis(
    data: &[u8],
    tiff_start: usize,
    order: ByteOrder,
    entries: &Vec<IfdEntry>,
    coord_tag: u16,
    ref_tag: u16,
) -> (angle: Result<DecimalDegrees, ExifError>)
    ensures
        angle == axis_angle(data@, tiff_start as int, order, entries@, coord_tag, ref_tag),
        angle matches Ok(a) ==> a.wf(),
{
    let i = match find_last_entry(entries, coord_tag, EntryRole::Coordinate) {
        Some(i) => i,
        None => {
            if find_last_entry(entries, coord_tag, EntryRole::Tagged).is_some() {
                return Err(ExifError::UnsupportedValueFormat);
            }
            return Err(ExifError::NotFound);
        },
    };
    let j = match find_last_entry(entries, ref_tag, EntryRole::Reference) {
        Some(j) => j,
        None => { return Err(ExifError::MissingReference); },
    };
    let letter = read_reference(data, tiff_start, &entries[j])?;
    let signed = match entries[i].format {
        FieldFormat::SRational => true,
        _ => false,
    };
    let angle = read_gps_coordinate(data, tiff_start, entries[i].value_or_offset, order, signed)?;
    if letter == 0x53 || letter == 0x57 {
        Ok(angle.negated())
    } else {
        Ok(angle)
    }
}

/// Reads the GPS directory `gps_offset` bytes after the TIFF header and resolves
/// the coordinate it holds.
///
/// Each axis needs an array of three rationals, signed or unsigned, and a
/// hemisphere letter; the latitude is resolved first. The errors are
/// [`ExifError::TruncatedBuffer`] for a directory or a value that reaches past
/// the buffer, [`ExifError::NotFound`] for an axis without an entry or a
/// coordinate off the globe, [`ExifError::UnsupportedValueFormat`] for an entry
/// of another shape or a zero denominator, and [`ExifError::MissingReference`]
/// for an axis without its letter.
pub fn parse_gps_ifd(data: &[u8], tiff_start: usize, gps_offset: u32, order: ByteOrder) -> (point:
    Result<GeoCoordinate, ExifError>)
    ensures
        point == gps_ifd_coordinate(data@, tiff_start as int, gps_offset as int, order),
        point matches Ok(p) ==> p.wf(),
{
    let entries = read_ifd(data, tiff_start, gps_offset, order)?;
    let latitude = resolve_axis(
        data,
        tiff_start,
        order,
        &entries,
        TAG_GPS_LATITUDE,
        TAG_GPS_LATITUDE_REF,
    )?;
    let longitude = resolve_axis(
        data,
        tiff_start,
        order,
        &entries,
        TAG_GPS_LONGITUDE,
        TAG_GPS_LONGITUDE_REF,
    )?;
    match make_coordinate(Some(latitude), Some(longitude)) {
        Some(point) => Ok(point),
        None => Err(ExifError::NotFound),
    }
}

/// Finds the offset of the GPS directory among the entries of the directory
/// `ifd_offset` bytes after the TIFF header.
///
/// Only the directory's own entries are read: the first one that carries the
/// GPS pointer tag gives the offset. The link to a next directory plays no part.
/// Fails with [`ExifError::TruncatedBuffer`] when the directory reaches past the
/// buffer and with [`ExifError::NotFound`] when no entry carries the tag.
pub fn find_gps_ifd_offset(data: &[u8], tiff_start: usize, ifd_offset: u32, order: ByteOrder) -> (
    gps_offset: Result<u32, ExifError>)
    ensures
        gps_offset == gps_pointer(data@, tiff_start as int, ifd_offset as int, order),
{
    let entries = read_ifd(data, tiff_start, ifd_offset, order)?;
    let mut index: usize = 0;
    while index < entries.len()
        invariant
            index <= entries@.len(),
            ifd_at(data@, tiff_start as int, ifd_offset as int, order) == Ok::<
                Seq<IfdEntry>,
                ExifError,
            >(entries@),
            first_tagged(entries@, TAG_GPS_IFD_POINTER, index as int) == first_tagged(
                entries@,
                TAG_GPS_IFD_POINTER,
                0,
            ),
        decreases entries@.len() - index,
    {
        if entries[index].tag == TAG_GPS_IFD_POINTER {
            return Ok(entries[index].value_or_offset);
        }
        index += 1;
    }
    Err(ExifError::NotFound)
}

/// Recovers the coordinate of a JPEG file by direct inspection of its bytes.
///
/// The EXIF segment is located, its TIFF header read, the GPS pointer looked up
/// among the entries of the first directory, and the GPS directory parsed at
/// the offset found. No link between directories is followed, so a corrupted
/// link cannot make the scan fail.
pub fn extract_gps_from_malformed_exif(data: &[u8]) -> (point: Result<GeoCoordinate, ExifError>)
    ensures
        point == malformed_scan(data@),
        point matches Ok(p) ==> p.wf(),
{
    let segment = match find_exif_segment(data) {
        Some(p) => p,
        None => { return Err(ExifError::NotFound); },
    };
    let len: usize = data.len();
    assert(segment + EXIF_PREAMBLE <= len);
    let tiff_start: usize = segment + EXIF_PREAMBLE;
    let header = parse_tiff_header(data, tiff_start)?;
    let gps_offset = find_gps_ifd_offset(data, tiff_start, header.first_ifd_offset, header.order)?;
    parse_gps_ifd(data, tiff_start, gps_offset, header.order)
}

/// The GPS pointer is found among the entries of the first directory whatever
/// the link to the next directory holds: two buffers that differ only in the
/// four bytes of that link give the same offset.
pub proof fn gps_pointer_ignores_next_link(
    first: Seq<u8>,
    second: Seq<u8>,
    tiff_start: int,
    ifd_offset: int,
    order: ByteOrder,
)
    requires
        0 <= tiff_start,
        0 <= ifd_offset,
        ifd_fits(first, tiff_start + ifd_offset, order),
        same_but_from(
            first,
            second,
            next_link_position(first, tiff_start + ifd_offset, order),
        ),
    ensures
        gps_pointer(first, tiff_start, ifd_offset, order) == gps_pointer(
            second,
            tiff_start,
            ifd_offset,
            order,
        ),
{
    walk_ignores_next_link(first, second, tiff_start, ifd_offset, order);
}

/// An entry that carries the GPS pointer tag is enough for the pointer to be
/// found: the offset returned is that of the first such entry.
pub proof fn gps_pointer_is_found(entries: Seq<IfdEntry>, index: int, from: int)
    requires
        0 <= from <= index < entries.len(),
        entries[index].tag == TAG_GPS_IFD_POINTER,
    ensures
        first_tagged(entries, TAG_GPS_IFD_POINTER, from) matches Some(i) && from <= i <= index
            && entries[i].tag == TAG_GPS_IFD_POINTER,
    decreases index - from,
{
    if entries[from].tag != TAG_GPS_IFD_POINTER {
        gps_pointer_is_found(entries, index, from + 1);
    }
}

/// Where the link of the first directory stands in a JPEG file, if the scan
/// gets as far as that directory.
pub open spec fn first_directory_link(data: Seq<u8>) -> Option<int> {
    match exif_segment(data) {
        Some(segment) => match tiff_header_at(data, segment + 10) {
            Ok(header) => if ifd_fits(
                data,
                segment + 10 + header.first_ifd_offset,
                header.order,
            ) {
                Some(
                    next_link_position(
                        data,
                        segment + 10 + header.first_ifd_offset,
                        header.order,
                    ),
                )
            } else {
                None
            },
            Err(_) => None,
        },
        None => None,
    }
}

/// Whether the GPS directory at `gps_offset`, and every value that its entries
/// keep outside themselves, lie at `bound` or later, both counted from the TIFF
/// header.
pub open spec fn gps_data_from(
    data: Seq<u8>,
    tiff_start: int,
    gps_offset: int,
    order: ByteOrder,
    bound: int,
) -> bool {
    &&& gps_offset >= bound
    &&& forall|k: int|
        0 <= k < ifd_entries(data, tiff_start + gps_offset, order).len() ==> {
            let entry = #[trigger] ifd_entries(data, tiff_start + gps_offset, order)[k];
            !entry.is_inline() ==> entry.value_or_offset >= bound
        }
}

/// Whether a JPEG file is laid out in the usual order: the first directory
/// after the header, and whatever the GPS pointer leads to after the link of
/// the first directory.
pub open spec fn laid_out_in_order(data: Seq<u8>) -> bool {
    match (exif_segment(data), first_directory_link(data)) {
        (Some(segment), Some(link)) => {
            let tiff_start = segment + 10;
            let header = tiff_header_at(data, tiff_start)->Ok_0;
            &&& header.first_ifd_offset >= 8
            &&& (gps_pointer(data, tiff_start, header.first_ifd_offset as int, header.order)
                matches Ok(gps_offset) ==> gps_data_from(
                data,
                tiff_start,
                gps_offset as int,
                header.order,
                link + 4 - tiff_start,
            ))
        },
        _ => false,
    }
}

/// Two buffers that agree below `bound` lead the walk over the segments to the
/// same EXIF segment, if that segment and its signature lie below `bound`.
proof fn lemma_scan_agrees(first: Seq<u8>, second: Seq<u8>, position: int, found: int, bound: int)
    requires
        first.len() == second.len(),
        forall|i: int| 0 <= i < bound ==> first[i] == second[i],
        bound <= first.len(),
        scan_segments(first, position) == Some(found),
        found + 10 <= bound,
    ensures
        scan_segments(second, position) == Some(found),
        position <= found,
    decreases first.len() - position,
{
    if !(first[position + 1] == MARKER_APP1 && has_exif_signature(
        first,
        position + 4,
    )) {
        let next = position + 2 + segment_length(first, position);
        lemma_scan_agrees(first, second, next, found, bound);
        assert(position + 10 <= bound);
        assert(segment_length(second, position) == segment_length(
            first,
            position,
        ));
        assert(has_exif_signature(second, position + 4)
            == has_exif_signature(first, position + 4));
    } else {
        assert(found == position);
    }
}

/// Two buffers that agree from a directory on hold the same directory there.
proof fn lemma_directory_agrees(
    first: Seq<u8>,
    second: Seq<u8>,
    tiff_start: int,
    offset: int,
    order: ByteOrder,
)
    requires
        first.len() == second.len(),
        0 <= tiff_start + offset,
        forall|i: int| tiff_start + offset <= i < first.len() ==> first[i] == second[i],
    ensures
        ifd_at(first, tiff_start, offset, order) == ifd_at(second, tiff_start, offset, order),
{
    let position = tiff_start + offset;
    if position + 2 <= first.len() {
        let count = u16_at(first, position, order);
        assert(u16_at(second, position, order) == count);
        if ifd_fits(first, position, order) {
            let left = ifd_entries(first, position, order);
            let right = ifd_entries(second, position, order);
            assert forall|k: int| 0 <= k < left.len() implies #[trigger] left[k] == right[k] by {
                let at = position + 2 + 12 * k;
                assert(at + 12 <= position + 2 + 12 * count);
                assert(left[k] == entry_at(first, at, order));
                assert(right[k] == entry_at(second, at, order));
            }
            assert(left =~= right);
        }
    }
}

/// Two buffers that agree from `clear` on give the same angle for an axis, if
/// the entries and the values that they point to lie at `clear` or later.
proof fn lemma_axis_agrees(
    first: Seq<u8>,
    second: Seq<u8>,
    tiff_start: int,
    order: ByteOrder,
    entries: Seq<IfdEntry>,
    coord_tag: u16,
    ref_tag: u16,
    clear: int,
)
    requires
        first.len() == second.len(),
        0 <= clear,
        0 <= tiff_start,
        forall|i: int| clear <= i < first.len() ==> first[i] == second[i],
        forall|k: int|
            0 <= k < entries.len() ==> (#[trigger] entries[k]).position + 8 >= clear && (
            !entries[k].is_inline() ==> tiff_start + entries[k].value_or_offset >= clear),
    ensures
        axis_angle(first, tiff_start, order, entries, coord_tag, ref_tag) == axis_angle(
            second,
            tiff_start,
            order,
            entries,
            coord_tag,
            ref_tag,
        ),
{
    let size = entries.len() as int;
    match (
        last_match(entries, coord_tag, EntryRole::Coordinate, size),
        last_match(entries, ref_tag, EntryRole::Reference, size),
    ) {
        (Some(i), Some(j)) => {
            lemma_last_match(entries, coord_tag, EntryRole::Coordinate, size);
            lemma_last_match(entries, ref_tag, EntryRole::Reference, size);
            let angle = entries[i];
            let letter = entries[j];
            assert(letter.value_start(tiff_start) >= clear);
            assert(!angle.is_inline());
            let at = tiff_start + angle.value_or_offset;
            let signed = angle.format == FieldFormat::SRational;
            if span_fits(first.len() as int, tiff_start, angle.value_or_offset as int, 24) {
                assert(forall|b: int| at <= b < at + 24 ==> first[b] == second[b]);
                assert(rational_at(first, at, order, signed) == rational_at(
                    second,
                    at,
                    order,
                    signed,
                ));
                assert(rational_at(first, at + 8, order, signed) == rational_at(
                    second,
                    at + 8,
                    order,
                    signed,
                ));
                assert(rational_at(first, at + 16, order, signed) == rational_at(
                    second,
                    at + 16,
                    order,
                    signed,
                ));
            }
        },
        _ => {},
    }
}

/// The entry that a lookup finds matches what was looked for.
proof fn lemma_last_match(entries: Seq<IfdEntry>, tag: u16, role: EntryRole, end: int)
    requires
        last_match(entries, tag, role, end) is Some,
    ensures
        0 <= last_match(entries, tag, role, end)->0 < end <= entries.len(),
        entry_matches(entries[last_match(entries, tag, role, end)->0], tag, role),
    decreases end,
{
    if end > 0 && end <= entries.len() && !entry_matches(entries[end - 1], tag, role) {
        lemma_last_match(entries, tag, role, end - 1);
    }
}

/// The byte scan does not depend on the link of the first directory to a next
/// one: in a file laid out in the usual order, whatever the four bytes of that
/// link hold, the scan returns the same coordinate or the same error.
pub proof fn byte_scan_ignores_next_link(first: Seq<u8>, second: Seq<u8>)
    requires
        first.len() <= usize::MAX,
        first_directory_link(first) matches Some(link) && same_but_from(
            first,
            second,
            link,
        ),
        laid_out_in_order(first),
    ensures
        malformed_scan(first) == malformed_scan(second),
{
    let segment = exif_segment(first)->0;
    let link = first_directory_link(first)->0;
    let tiff_start = segment + 10;
    let header = tiff_header_at(first, tiff_start)->Ok_0;
    let order = header.order;
    let ifd_offset = header.first_ifd_offset as int;
    assert(tiff_start + 8 <= link);
    assert(link <= first.len());
    lemma_scan_agrees(first, second, 2, segment, link);
    assert(exif_segment(second) == Some(segment));
    assert(tiff_header_at(second, tiff_start) == tiff_header_at(first, tiff_start));
    walk_ignores_next_link(first, second, tiff_start, ifd_offset, order);
    assert(gps_pointer(first, tiff_start, ifd_offset, order) == gps_pointer(
        second,
        tiff_start,
        ifd_offset,
        order,
    ));
    match gps_pointer(first, tiff_start, ifd_offset, order) {
        Ok(gps_offset) => {
            let clear = link + 4;
            lemma_directory_agrees(first, second, tiff_start, gps_offset as int, order);
            match ifd_at(first, tiff_start, gps_offset as int, order) {
                Ok(entries) => {
                    assert(entries == ifd_entries(
                        first,
                        tiff_start + gps_offset,
                        order,
                    ));
                    assert forall|k: int| 0 <= k < entries.len() implies (
                    #[trigger] entries[k]).position + 8 >= clear && (!entries[k].is_inline()
                        ==> tiff_start + entries[k].value_or_offset >= clear) by {
                        let at = tiff_start + gps_offset + 2 + 12 * k;
                        assert(entries[k] == entry_at(first, at, order));
                        assert(at + 12 <= first.len());
                    }
                    lemma_axis_agrees(
                        first,
                        second,
                        tiff_start,
                        order,
                        entries,
                        TAG_GPS_LATITUDE,
                        TAG_GPS_LATITUDE_REF,
                        clear,
                    );
                    lemma_axis_agrees(
                        first,
                        second,
                        tiff_start,
                        order,
                        entries,
                        TAG_GPS_LONGITUDE,
                        TAG_GPS_LONGITUDE_REF,
                        clear,
                    );
                },
                Err(_) => {},
            }
        },
        Err(_) => {},
    }
}

} // verus!
