use photomap::coordinate::DecimalDegrees;
use photomap::cursor::ByteOrder;
use photomap::custom::{extract_metadata_from_heif_custom, extract_metadata_from_jpeg_custom};
use photomap::error::ExifError;
use photomap::extract::{
    attempt, extract, extract_by_extension, extract_metadata_from_heic,
    extract_metadata_from_jpeg, strategies_for, ExtractionStrategy,
};
use photomap::file_kind::FileKind;
use photomap::gps::{
    extract_gps_from_malformed_exif, find_gps_ifd_offset, parse_gps_ifd, read_gps_coordinate,
};
use photomap::heif::{find_tiff_offset, MetadataBlock};
use photomap::jpeg::find_exif_segment;
use photomap::reader::{read_container_fields, read_raw_fields};
use photomap::tiff::{parse_tiff_header, read_ifd, walk_ifd, FieldFormat};

/// One value of a directory entry under construction.
enum Val {
    /// Up to four bytes stored in the entry itself.
    Inline(Vec<u8>),
    /// Bytes stored in the data area, reached by offset.
    Data(Vec<u8>),
    /// The offset of another directory of the same structure.
    Dir(usize),
    /// A literal number in the value field.
    Raw(u32),
}

struct Entry {
    tag: u16,
    format: u16,
    count: u32,
    val: Val,
}

struct Dir {
    entries: Vec<Entry>,
    /// Index of the directory that the link points to.
    next: Option<usize>,
    /// A literal link, used when `next` is `None`.
    raw_next: u32,
    /// The count to declare, if not the number of entries.
    declared: Option<u16>,
}

fn dir(entries: Vec<Entry>) -> Dir {
    Dir { entries, next: None, raw_next: 0, declared: None }
}

fn put16(out: &mut Vec<u8>, v: u16, be: bool) {
    if be {
        out.extend_from_slice(&v.to_be_bytes());
    } else {
        out.extend_from_slice(&v.to_le_bytes());
    }
}

fn put32(out: &mut Vec<u8>, v: u32, be: bool) {
    if be {
        out.extend_from_slice(&v.to_be_bytes());
    } else {
        out.extend_from_slice(&v.to_le_bytes());
    }
}

/// Lays out a TIFF structure: header, directories in order, then the data area.
fn tiff(be: bool, dirs: &[Dir]) -> Vec<u8> {
    let mut offsets = Vec::new();
    let mut at = 8usize;
    for d in dirs {
        offsets.push(at);
        at += 2 + 12 * d.entries.len() + 4;
    }
    let mut data_at = at;
    let mut out = Vec::new();
    out.extend_from_slice(if be { b"MM" } else { b"II" });
    put16(&mut out, 42, be);
    put32(&mut out, 8, be);
    let mut area: Vec<u8> = Vec::new();
    for d in dirs {
        let count = d.declared.unwrap_or(d.entries.len() as u16);
        put16(&mut out, count, be);
        for e in &d.entries {
            put16(&mut out, e.tag, be);
            put16(&mut out, e.format, be);
            put32(&mut out, e.count, be);
            match &e.val {
                Val::Inline(bytes) => {
                    let mut four = bytes.clone();
                    four.resize(4, 0);
                    out.extend_from_slice(&four);
                }
                Val::Data(bytes) => {
                    put32(&mut out, data_at as u32, be);
                    area.extend_from_slice(bytes);
                    data_at += bytes.len();
                }
                Val::Dir(index) => put32(&mut out, offsets[*index] as u32, be),
                Val::Raw(v) => put32(&mut out, *v, be),
            }
        }
        match d.next {
            Some(index) => put32(&mut out, offsets[index] as u32, be),
            None => put32(&mut out, d.raw_next, be),
        }
    }
    out.extend_from_slice(&area);
    out
}

fn rationals(values: &[(u32, u32)], be: bool) -> Vec<u8> {
    let mut out = Vec::new();
    for (n, d) in values {
        put32(&mut out, *n, be);
        put32(&mut out, *d, be);
    }
    out
}

fn srationals(values: &[(i32, i32)], be: bool) -> Vec<u8> {
    let mut out = Vec::new();
    for (n, d) in values {
        put32(&mut out, *n as u32, be);
        put32(&mut out, *d as u32, be);
    }
    out
}

fn gps_entries(
    be: bool,
    lat: &[(u32, u32)],
    lat_ref: u8,
    lon: &[(u32, u32)],
    lon_ref: u8,
) -> Vec<Entry> {
    vec![
        Entry { tag: 1, format: 2, count: 2, val: Val::Inline(vec![lat_ref, 0]) },
        Entry { tag: 2, format: 5, count: lat.len() as u32, val: Val::Data(rationals(lat, be)) },
        Entry { tag: 3, format: 2, count: 2, val: Val::Inline(vec![lon_ref, 0]) },
        Entry { tag: 4, format: 5, count: lon.len() as u32, val: Val::Data(rationals(lon, be)) },
    ]
}

fn signed_gps_entries(
    be: bool,
    lat: &[(i32, i32)],
    lat_ref: u8,
    lon: &[(i32, i32)],
    lon_ref: u8,
) -> Vec<Entry> {
    vec![
        Entry { tag: 1, format: 2, count: 2, val: Val::Inline(vec![lat_ref, 0]) },
        Entry { tag: 2, format: 10, count: 3, val: Val::Data(srationals(lat, be)) },
        Entry { tag: 3, format: 2, count: 2, val: Val::Inline(vec![lon_ref, 0]) },
        Entry { tag: 4, format: 10, count: 3, val: Val::Data(srationals(lon, be)) },
    ]
}

fn pointer(tag: u16, target: usize) -> Entry {
    Entry { tag, format: 4, count: 1, val: Val::Dir(target) }
}

fn datetime_entry(tag: u16, text: &[u8]) -> Entry {
    let mut bytes = text.to_vec();
    bytes.push(0);
    Entry { tag, format: 2, count: bytes.len() as u32, val: Val::Data(bytes) }
}

const PARIS_LAT: [(u32, u32); 3] = [(48, 1), (52, 1), (30, 1)];
const PARIS_LON: [(u32, u32); 3] = [(2, 1), (21, 1), (6, 1)];

/// A structure whose first directory points to a GPS directory with Paris in it.
fn paris_tiff(be: bool) -> Vec<u8> {
    tiff(
        be,
        &[
            dir(vec![pointer(0x8825, 1)]),
            dir(gps_entries(be, &PARIS_LAT, b'N', &PARIS_LON, b'E')),
        ],
    )
}

/// Wraps a TIFF structure into a minimal JPEG file.
fn jpeg(tiff: &[u8]) -> Vec<u8> {
    let mut out = vec![0xFF, 0xD8];
    out.extend_from_slice(&[0xFF, 0xE0, 0x00, 0x04, 0x4A, 0x46]);
    out.extend_from_slice(&[0xFF, 0xE1]);
    out.extend_from_slice(&((tiff.len() + 8) as u16).to_be_bytes());
    out.extend_from_slice(b"Exif\0\0");
    out.extend_from_slice(tiff);
    out.extend_from_slice(&[0xFF, 0xDA, 0x00, 0x02, 0xFF, 0xD9]);
    out
}

fn decimal(angle: DecimalDegrees) -> f64 {
    angle.numerator as f64 / angle.denominator as f64
}

fn close(angle: DecimalDegrees, expected: f64) -> bool {
    (decimal(angle) - expected).abs() < 1e-6
}

fn exif_block(data: Vec<u8>) -> MetadataBlock {
    MetadataBlock { kind: "Exif".to_string(), data }
}

#[test]
fn header_with_unknown_marker_is_not_a_tiff_header() {
    let data = b"ZZ\x2a\x00\x08\x00\x00\x00".to_vec();
    assert_eq!(parse_tiff_header(&data, 0), Err(ExifError::NotATiffHeader));
    assert_eq!(walk_ifd(&data, 0, 8).err(), Some(ExifError::NotATiffHeader));
    let short = b"ZZ".to_vec();
    assert_eq!(parse_tiff_header(&short, 0), Err(ExifError::NotATiffHeader));
}

#[test]
fn header_with_wrong_magic_is_not_a_tiff_header() {
    let data = b"II\x2b\x00\x08\x00\x00\x00".to_vec();
    assert_eq!(parse_tiff_header(&data, 0), Err(ExifError::NotATiffHeader));
}

#[test]
fn header_is_read_in_both_orders() {
    let le = parse_tiff_header(b"II\x2a\x00\x08\x00\x00\x00", 0).unwrap();
    assert_eq!(le.order, ByteOrder::LittleEndian);
    assert_eq!(le.first_ifd_offset, 8);
    let be = parse_tiff_header(b"xxMM\x00\x2a\x00\x00\x01\x00", 2).unwrap();
    assert_eq!(be.order, ByteOrder::BigEndian);
    assert_eq!(be.first_ifd_offset, 256);
}

#[test]
fn short_header_is_truncated() {
    assert_eq!(parse_tiff_header(b"I", 0), Err(ExifError::TruncatedBuffer));
    assert_eq!(parse_tiff_header(b"II\x2a", 0), Err(ExifError::TruncatedBuffer));
    assert_eq!(parse_tiff_header(b"II\x2a\x00\x08\x00\x00", 0), Err(ExifError::TruncatedBuffer));
    assert_eq!(parse_tiff_header(b"xII\x2a\x00\x08\x00\x00", 1), Err(ExifError::TruncatedBuffer));
    assert_eq!(parse_tiff_header(b"II\x2a\x00\x08\x00\x00\x00", 8), Err(ExifError::TruncatedBuffer));
    assert_eq!(parse_tiff_header(b"", usize::MAX), Err(ExifError::TruncatedBuffer));
}

#[test]
fn walker_returns_the_entries_in_file_order() {
    let data = paris_tiff(false);
    let first = walk_ifd(&data, 0, 8).unwrap();
    assert_eq!(first.len(), 1);
    assert_eq!(first[0].tag, 0x8825);
    assert_eq!(first[0].format, FieldFormat::Long);
    assert_eq!(first[0].count, 1);
    assert_eq!(first[0].value_or_offset, 26);
    assert_eq!(first[0].position, 10);
    let gps = read_ifd(&data, 0, 26, ByteOrder::LittleEndian).unwrap();
    assert_eq!(gps.len(), 4);
    assert_eq!(gps[1].tag, 2);
    assert_eq!(gps[1].format, FieldFormat::Rational);
    assert_eq!(gps[1].count, 3);
    assert_eq!(gps[1].value_or_offset, 80);
    assert_eq!(gps[3].value_or_offset, 104);
}

#[test]
fn entry_count_past_the_buffer_is_truncated() {
    let mut dirs = vec![dir(vec![pointer(0x8825, 0)])];
    dirs[0].declared = Some(500);
    let data = tiff(true, &dirs);
    assert_eq!(read_ifd(&data, 0, 8, ByteOrder::BigEndian).err(), Some(ExifError::TruncatedBuffer));
    assert_eq!(walk_ifd(&data, 0, 8).err(), Some(ExifError::TruncatedBuffer));
    assert_eq!(
        find_gps_ifd_offset(&data, 0, 8, ByteOrder::BigEndian),
        Err(ExifError::TruncatedBuffer)
    );
    let file = jpeg(&data);
    assert_eq!(extract_gps_from_malformed_exif(&file), Err(ExifError::TruncatedBuffer));
    assert_eq!(extract_metadata_from_jpeg(&file), Err(ExifError::NotFound));
    assert_eq!(attempt(ExtractionStrategy::MalformedByteScan, &Vec::new(), &file), None);
}

#[test]
fn directory_offset_past_the_buffer_is_truncated() {
    let data = paris_tiff(false);
    assert_eq!(
        read_ifd(&data, 0, data.len() as u32, ByteOrder::LittleEndian).err(),
        Some(ExifError::TruncatedBuffer)
    );
    assert_eq!(
        read_ifd(&data, usize::MAX, u32::MAX, ByteOrder::LittleEndian).err(),
        Some(ExifError::TruncatedBuffer)
    );
    assert_eq!(
        parse_gps_ifd(&data, 0, 0xFFFF_FFF0, ByteOrder::LittleEndian),
        Err(ExifError::TruncatedBuffer)
    );
}

#[test]
fn paris_is_read_by_the_byte_scan() {
    for be in [false, true] {
        let file = jpeg(&paris_tiff(be));
        let point = extract_gps_from_malformed_exif(&file).unwrap();
        assert!(close(point.latitude, 48.875));
        assert!(close(point.longitude, 2.351667));
        assert_eq!(point.latitude.numerator, 3600 * 48 + 60 * 52 + 30);
        assert_eq!(point.latitude.denominator, 3600);
        assert_eq!(point.longitude.numerator, 3600 * 2 + 60 * 21 + 6);
        assert_eq!(point.longitude.denominator, 3600);
    }
}

#[test]
fn south_and_west_are_negative() {
    let data = tiff(
        false,
        &[
            dir(vec![pointer(0x8825, 1)]),
            dir(gps_entries(false, &[(33, 1), (51, 1), (54, 1)], b'S', &[(151, 1), (12, 1), (36, 1)], b'W')),
        ],
    );
    let point = extract_gps_from_malformed_exif(&jpeg(&data)).unwrap();
    assert!(close(point.latitude, -33.865));
    assert!(close(point.longitude, -151.21));
    let found = extract_metadata_from_jpeg(&jpeg(&data)).unwrap();
    assert_eq!(found.coordinate, Some(point));
}

#[test]
fn gps_pointer_is_found_despite_a_corrupted_next_link() {
    let mut dirs = vec![
        dir(vec![pointer(0x8825, 1)]),
        dir(gps_entries(true, &PARIS_LAT, b'N', &PARIS_LON, b'E')),
    ];
    dirs[0].raw_next = 0xDEAD_BEEF;
    dirs[1].raw_next = 0x0BAD_F00D;
    let data = tiff(true, &dirs);
    assert_eq!(find_gps_ifd_offset(&data, 0, 8, ByteOrder::BigEndian), Ok(26));
    let file = jpeg(&data);
    let point = extract_gps_from_malformed_exif(&file).unwrap();
    assert!(close(point.latitude, 48.875));
    assert!(close(point.longitude, 2.351667));
    assert_eq!(read_container_fields(&file, false), None);
    let found = extract_metadata_from_jpeg(&file).unwrap();
    assert_eq!(found.coordinate, Some(point));
}

#[test]
fn byte_scan_rescues_a_file_that_the_standard_walk_cannot_read() {
    let dirs = vec![
        dir(vec![Entry { tag: 0x8825, format: 7, count: 4, val: Val::Dir(1) }]),
        dir(gps_entries(false, &PARIS_LAT, b'N', &PARIS_LON, b'E')),
    ];
    let file = jpeg(&tiff(false, &dirs));
    let none: Vec<MetadataBlock> = Vec::new();
    assert_eq!(attempt(ExtractionStrategy::StandardPrimaryDirectory, &none, &file), None);
    assert_eq!(attempt(ExtractionStrategy::AllDirectoriesScan, &none, &file), None);
    let scanned = attempt(ExtractionStrategy::MalformedByteScan, &none, &file).unwrap();
    assert!(close(scanned.coordinate.unwrap().latitude, 48.875));
    assert_eq!(scanned.timestamp, None);
    assert_eq!(extract_metadata_from_jpeg(&file), Ok(scanned));
    assert_eq!(extract(FileKind::Jpeg, &none, &file), Ok(scanned));
    assert_eq!(extract(FileKind::OtherRaster, &none, &file), Err(ExifError::NotFound));
}

#[test]
fn signed_rationals_in_the_thumbnail_directory_are_found_by_the_scan() {
    let mut dirs = vec![
        dir(vec![Entry { tag: 0x0112, format: 3, count: 1, val: Val::Inline(vec![1, 0]) }]),
        dir(vec![pointer(0x8825, 2)]),
        dir(signed_gps_entries(false, &[(48, 1), (52, 1), (30, 1)], b'N', &[(2, 1), (21, 1), (6, 1)], b'E')),
    ];
    dirs[0].next = Some(1);
    let file = jpeg(&tiff(false, &dirs));
    let none: Vec<MetadataBlock> = Vec::new();
    let fields = read_container_fields(&file, true).unwrap();
    assert!(fields.iter().any(|f| f.tag == 2 && f.ifd_num == 1));
    assert_eq!(photomap::extract::locate_in_primary(&fields), None);
    assert_eq!(attempt(ExtractionStrategy::StandardPrimaryDirectory, &none, &file), None);
    let found = attempt(ExtractionStrategy::AllDirectoriesScan, &none, &file).unwrap();
    assert!(close(found.coordinate.unwrap().latitude, 48.875));
    assert!(close(found.coordinate.unwrap().longitude, 2.351667));
    assert_eq!(extract_metadata_from_jpeg(&file), Ok(found));
}

#[test]
fn zero_denominator_gives_no_coordinate() {
    let data = tiff(
        false,
        &[
            dir(vec![pointer(0x8825, 1)]),
            dir(gps_entries(false, &[(48, 1), (52, 0), (30, 1)], b'N', &PARIS_LON, b'E')),
        ],
    );
    assert_eq!(
        read_gps_coordinate(&data, 0, 80, ByteOrder::LittleEndian, false),
        Err(ExifError::UnsupportedValueFormat)
    );
    assert_eq!(parse_gps_ifd(&data, 0, 26, ByteOrder::LittleEndian), Err(ExifError::UnsupportedValueFormat));
    let file = jpeg(&data);
    assert_eq!(extract_gps_from_malformed_exif(&file), Err(ExifError::UnsupportedValueFormat));
    assert_eq!(extract_metadata_from_jpeg(&file), Err(ExifError::NotFound));
    assert_eq!(extract_metadata_from_jpeg_custom(&file), Err(ExifError::NotFound));
}

#[test]
fn coordinate_of_two_rationals_is_unsupported() {
    let data = tiff(
        false,
        &[
            dir(vec![pointer(0x8825, 1)]),
            dir(gps_entries(false, &[(48, 1), (52, 1)], b'N', &PARIS_LON, b'E')),
        ],
    );
    assert_eq!(parse_gps_ifd(&data, 0, 26, ByteOrder::LittleEndian), Err(ExifError::UnsupportedValueFormat));
    assert_eq!(extract_metadata_from_jpeg(&jpeg(&data)), Err(ExifError::NotFound));
}

#[test]
fn coordinate_without_reference_is_absent() {
    let entries = vec![
        Entry { tag: 2, format: 5, count: 3, val: Val::Data(rationals(&PARIS_LAT, false)) },
        Entry { tag: 3, format: 2, count: 2, val: Val::Inline(vec![b'E', 0]) },
        Entry { tag: 4, format: 5, count: 3, val: Val::Data(rationals(&PARIS_LON, false)) },
    ];
    let data = tiff(false, &[dir(vec![pointer(0x8825, 1)]), dir(entries)]);
    assert_eq!(parse_gps_ifd(&data, 0, 26, ByteOrder::LittleEndian), Err(ExifError::MissingReference));
    assert_eq!(extract_gps_from_malformed_exif(&jpeg(&data)), Err(ExifError::MissingReference));
    assert_eq!(extract_metadata_from_jpeg(&jpeg(&data)), Err(ExifError::NotFound));
}

#[test]
fn directory_without_gps_entries_has_no_coordinate() {
    let data = tiff(false, &[dir(vec![pointer(0x8825, 1)]), dir(vec![])]);
    assert_eq!(parse_gps_ifd(&data, 0, 26, ByteOrder::LittleEndian), Err(ExifError::NotFound));
    let no_pointer = tiff(false, &[dir(vec![])]);
    assert_eq!(find_gps_ifd_offset(&no_pointer, 0, 8, ByteOrder::LittleEndian), Err(ExifError::NotFound));
    assert_eq!(extract_gps_from_malformed_exif(&jpeg(&no_pointer)), Err(ExifError::NotFound));
}

#[test]
fn coordinate_value_past_the_buffer_is_truncated() {
    let mut data = paris_tiff(false);
    data.truncate(120);
    assert_eq!(parse_gps_ifd(&data, 0, 26, ByteOrder::LittleEndian), Err(ExifError::TruncatedBuffer));
    assert_eq!(
        read_gps_coordinate(&data, 0, 104, ByteOrder::LittleEndian, false),
        Err(ExifError::TruncatedBuffer)
    );
    assert!(read_gps_coordinate(&data, 0, 80, ByteOrder::LittleEndian, false).is_ok());
}

#[test]
fn latitude_beyond_the_pole_is_absent() {
    let data = tiff(
        false,
        &[
            dir(vec![pointer(0x8825, 1)]),
            dir(gps_entries(false, &[(90, 1), (0, 1), (1, 1)], b'N', &PARIS_LON, b'E')),
        ],
    );
    assert_eq!(parse_gps_ifd(&data, 0, 26, ByteOrder::LittleEndian), Err(ExifError::NotFound));
    assert_eq!(extract_metadata_from_jpeg(&jpeg(&data)), Err(ExifError::NotFound));
    let pole = tiff(
        false,
        &[
            dir(vec![pointer(0x8825, 1)]),
            dir(gps_entries(false, &[(90, 1), (0, 1), (0, 1)], b'S', &[(180, 1), (0, 1), (0, 1)], b'W')),
        ],
    );
    let point = parse_gps_ifd(&pole, 0, 26, ByteOrder::LittleEndian).unwrap();
    assert!(close(point.latitude, -90.0));
    assert!(close(point.longitude, -180.0));
}

#[test]
fn file_that_is_not_a_jpeg_has_no_segment() {
    assert_eq!(find_exif_segment(b""), None);
    assert_eq!(find_exif_segment(b"\xFF"), None);
    assert_eq!(find_exif_segment(b"\x89PNG\r\n\x1a\n"), None);
    assert_eq!(extract_gps_from_malformed_exif(b"II\x2a\x00\x08\x00\x00\x00"), Err(ExifError::NotFound));
}

#[test]
fn exif_segment_is_found_after_other_segments() {
    let file = jpeg(&paris_tiff(false));
    assert_eq!(find_exif_segment(&file), Some(8));
    assert_eq!(&file[18..20], b"II");
}

#[test]
fn scan_stops_at_start_of_scan() {
    let tiff = paris_tiff(false);
    let mut file = vec![0xFF, 0xD8, 0xFF, 0xDA, 0x00, 0x02];
    file.extend_from_slice(&jpeg(&tiff)[2..]);
    assert_eq!(find_exif_segment(&file), None);
}

#[test]
fn scan_stops_at_a_byte_that_starts_no_segment() {
    let tiff = paris_tiff(false);
    let mut file = vec![0xFF, 0xD8, 0x00, 0x00, 0x00, 0x00];
    file.extend_from_slice(&jpeg(&tiff)[2..]);
    assert_eq!(find_exif_segment(&file), None);
}

#[test]
fn app1_segment_without_the_signature_is_skipped() {
    let tiff = paris_tiff(false);
    let mut file = vec![0xFF, 0xD8];
    file.extend_from_slice(&[0xFF, 0xE1, 0x00, 0x08, b'h', b't', b't', b'p', b':', b'/']);
    file.extend_from_slice(&jpeg(&tiff)[2..]);
    assert_eq!(find_exif_segment(&file), Some(18));
}

#[test]
fn segment_length_past_the_buffer_ends_the_scan() {
    let file = vec![0xFF, 0xD8, 0xFF, 0xE0, 0xFF, 0xFF, 0x00, 0x00];
    assert_eq!(find_exif_segment(&file), None);
}

#[test]
fn tiff_offset_in_a_block_follows_the_known_prefixes() {
    let tiff = paris_tiff(true);
    assert_eq!(find_tiff_offset(&tiff), Some(0));
    let mut six = b"Exif\0\0".to_vec();
    six.extend_from_slice(&tiff);
    assert_eq!(find_tiff_offset(&six), Some(6));
    let mut ten = vec![0, 0, 0, 6];
    ten.extend_from_slice(&six);
    assert_eq!(find_tiff_offset(&ten), Some(10));
    assert_eq!(find_tiff_offset(b"Exif\0\0ZZ"), None);
    assert_eq!(find_tiff_offset(b"Exif\0\0"), None);
    assert_eq!(find_tiff_offset(b""), None);
    assert_eq!(find_tiff_offset(b"\0\0\0\0\0\0II"), None);
}

#[test]
fn heif_blocks_are_read_in_order() {
    let mut six = b"Exif\0\0".to_vec();
    six.extend_from_slice(&paris_tiff(false));
    let mut ten = vec![0, 0, 0, 6];
    ten.extend_from_slice(b"Exif\0\0");
    ten.extend_from_slice(&tiff(
        true,
        &[
            dir(vec![pointer(0x8825, 1)]),
            dir(gps_entries(true, &[(10, 1), (0, 1), (0, 1)], b'S', &[(20, 1), (0, 1), (0, 1)], b'W')),
        ],
    ));
    let blocks = vec![
        MetadataBlock { kind: "mime".to_string(), data: six.clone() },
        exif_block(b"garbage".to_vec()),
        exif_block(ten),
        exif_block(six),
    ];
    let found = extract_metadata_from_heic(&blocks, b"\0\0\0\x18ftypheic").unwrap();
    assert!(close(found.coordinate.unwrap().latitude, -10.0));
    assert!(close(found.coordinate.unwrap().longitude, -20.0));
    assert_eq!(extract(FileKind::Heif, &blocks, b"\0\0\0\x18ftypheic"), Ok(found));
    assert_eq!(attempt(ExtractionStrategy::HeifContainer, &blocks, b""), Some(found));
}

#[test]
fn heif_block_of_another_type_is_not_read() {
    let blocks = vec![MetadataBlock { kind: "mime".to_string(), data: paris_tiff(false) }];
    assert_eq!(extract_metadata_from_heic(&blocks, b"\0\0\0\x18ftypheic"), Err(ExifError::NotFound));
    let lower = vec![MetadataBlock { kind: "exif".to_string(), data: paris_tiff(false) }];
    assert_eq!(extract_metadata_from_heic(&lower, b"\0\0\0\x18ftypheic"), Err(ExifError::NotFound));
    let exact = vec![exif_block(paris_tiff(false))];
    assert!(extract_metadata_from_heic(&exact, b"\0\0\0\x18ftypheic").is_ok());
}

#[test]
fn jpeg_named_heic_is_read_as_jpeg() {
    let file = jpeg(&paris_tiff(false));
    assert_eq!(&file[0..2], &[0xFF, 0xD8]);
    let none: Vec<MetadataBlock> = Vec::new();
    let as_jpeg = extract_metadata_from_jpeg(&file).unwrap();
    assert!(close(as_jpeg.coordinate.unwrap().latitude, 48.875));
    assert_eq!(extract_metadata_from_heic(&none, &file), Ok(as_jpeg));
    assert_eq!(extract_by_extension("heic", &none, &file), Ok(as_jpeg));
    assert_eq!(extract_by_extension("HEIC", &none, &file), Ok(as_jpeg));
    assert_eq!(attempt(ExtractionStrategy::JpegDisguisedAsHeif, &none, &file), Some(as_jpeg));
    assert_eq!(attempt(ExtractionStrategy::HeifContainer, &none, &file), None);
}

#[test]
fn heif_file_without_blocks_that_is_no_jpeg_is_not_found() {
    let none: Vec<MetadataBlock> = Vec::new();
    assert_eq!(extract_metadata_from_heic(&none, b"\0\0\0\x18ftypheic"), Err(ExifError::NotFound));
    assert_eq!(extract_by_extension("heif", &none, b""), Err(ExifError::NotFound));
    assert_eq!(attempt(ExtractionStrategy::JpegDisguisedAsHeif, &none, &paris_tiff(false)), None);
}

#[test]
fn unknown_extension_is_unsupported() {
    let file = jpeg(&paris_tiff(false));
    let none: Vec<MetadataBlock> = Vec::new();
    assert_eq!(extract_by_extension("txt", &none, &file), Err(ExifError::UnsupportedFormat));
    assert_eq!(extract_by_extension("mp4", &none, &file), Err(ExifError::UnsupportedFormat));
    assert_eq!(extract_by_extension("", &none, &file), Err(ExifError::UnsupportedFormat));
    assert_eq!(extract_by_extension("jpgx", &none, &file), Err(ExifError::UnsupportedFormat));
    assert!(extract_by_extension("JpEg", &none, &file).is_ok());
    assert!(extract_by_extension("jpg", &none, &file).is_ok());
}

#[test]
fn other_raster_formats_are_read_from_the_primary_directory_only() {
    let none: Vec<MetadataBlock> = Vec::new();
    let plain = paris_tiff(false);
    let found = extract_by_extension("tif", &none, &plain).unwrap();
    assert!(close(found.coordinate.unwrap().latitude, 48.875));
    assert_eq!(extract(FileKind::OtherRaster, &none, &plain), Ok(found));
    let mut dirs = vec![
        dir(vec![Entry { tag: 0x0112, format: 3, count: 1, val: Val::Inline(vec![1, 0]) }]),
        dir(vec![pointer(0x8825, 2)]),
        dir(gps_entries(false, &PARIS_LAT, b'N', &PARIS_LON, b'E')),
    ];
    dirs[0].next = Some(1);
    let elsewhere = tiff(false, &dirs);
    assert_eq!(extract_by_extension("tiff", &none, &elsewhere), Err(ExifError::NotFound));
    assert!(attempt(ExtractionStrategy::AllDirectoriesScan, &none, &elsewhere).is_some());
    assert_eq!(extract_by_extension("gif", &none, b"GIF89a"), Err(ExifError::NotFound));
}

#[test]
fn extension_declares_the_kind() {
    assert_eq!(FileKind::from_extension("jpg"), Some(FileKind::Jpeg));
    assert_eq!(FileKind::from_extension("JPEG"), Some(FileKind::Jpeg));
    assert_eq!(FileKind::from_extension("heic"), Some(FileKind::Heif));
    assert_eq!(FileKind::from_extension("Heif"), Some(FileKind::Heif));
    assert_eq!(FileKind::from_extension("AVIF"), Some(FileKind::Heif));
    for other in ["png", "tiff", "tif", "webp", "bmp", "gif", "PNG", "Tiff", "WebP"] {
        assert_eq!(FileKind::from_extension(other), Some(FileKind::OtherRaster));
    }
    assert_eq!(FileKind::from_extension("raw"), None);
    assert_eq!(FileKind::from_extension("jp"), None);
    assert_eq!(FileKind::from_extension(""), None);
    assert_eq!(FileKind::from_extension("jp\u{e9}g"), None);
    assert_eq!(FileKind::from_extension("\u{212a}pg"), None);
    assert!(FileKind::Heif.is_heif());
    assert!(!FileKind::Jpeg.is_heif());
}

#[test]
fn strategies_come_in_their_order() {
    assert_eq!(
        strategies_for(FileKind::Jpeg),
        vec![
            ExtractionStrategy::StandardPrimaryDirectory,
            ExtractionStrategy::AllDirectoriesScan,
            ExtractionStrategy::MalformedByteScan,
        ]
    );
    assert_eq!(
        strategies_for(FileKind::Heif),
        vec![ExtractionStrategy::HeifContainer, ExtractionStrategy::JpegDisguisedAsHeif]
    );
    assert_eq!(
        strategies_for(FileKind::OtherRaster),
        vec![ExtractionStrategy::StandardPrimaryDirectory]
    );
}

#[test]
fn extraction_twice_gives_the_same_result() {
    let file = jpeg(&paris_tiff(true));
    let none: Vec<MetadataBlock> = Vec::new();
    let first = extract(FileKind::Jpeg, &none, &file);
    let second = extract(FileKind::Jpeg, &none, &file);
    assert!(first.is_ok());
    assert_eq!(first, second);
    let broken = b"\xFF\xD8\xFF\xE1\x00\x10Exif\0\0ZZ".to_vec();
    assert_eq!(extract(FileKind::Jpeg, &none, &broken), Err(ExifError::NotFound));
    assert_eq!(extract(FileKind::Jpeg, &none, &broken), extract(FileKind::Jpeg, &none, &broken));
}

#[test]
fn timestamp_comes_with_the_coordinate() {
    let dirs = vec![
        dir(vec![
            datetime_entry(0x0132, b"2021:01:02 03:04:05"),
            pointer(0x8769, 2),
            pointer(0x8825, 1),
        ]),
        dir(gps_entries(false, &PARIS_LAT, b'N', &PARIS_LON, b'E')),
        dir(vec![datetime_entry(0x9003, b"2020:12:31 23:59:58")]),
    ];
    let file = jpeg(&tiff(false, &dirs));
    let found = extract_metadata_from_jpeg(&file).unwrap();
    let stamp = found.timestamp.unwrap();
    assert_eq!(
        (stamp.year, stamp.month, stamp.day, stamp.hour, stamp.minute, stamp.second, stamp.nanosecond),
        (2020, 12, 31, 23, 59, 58, 0)
    );
    let custom = extract_metadata_from_jpeg_custom(&file).unwrap();
    assert_eq!(custom, found);
}

#[test]
fn date_time_of_the_file_is_the_second_choice() {
    let dirs = vec![
        dir(vec![datetime_entry(0x0132, b"2021:01:02 03:04:05"), pointer(0x8825, 1)]),
        dir(gps_entries(true, &PARIS_LAT, b'N', &PARIS_LON, b'E')),
    ];
    let blob = tiff(true, &dirs);
    let fields = read_raw_fields(&blob, 0, blob.len()).unwrap();
    let stamp = photomap::timestamp::get_datetime_from_exif(&fields).unwrap();
    assert_eq!((stamp.year, stamp.month, stamp.day), (2021, 1, 2));
    assert_eq!((stamp.hour, stamp.minute, stamp.second), (3, 4, 5));
    let block = vec![exif_block(blob)];
    let found = extract_metadata_from_heic(&block, b"").unwrap();
    assert_eq!(found.timestamp, Some(stamp));
}

#[test]
fn raw_fields_outside_the_buffer_are_absent() {
    let blob = paris_tiff(false);
    assert!(read_raw_fields(&blob, 0, blob.len()).is_some());
    assert_eq!(read_raw_fields(&blob, 0, blob.len() + 1), None);
    assert_eq!(read_raw_fields(&blob, 9, 8), None);
    assert_eq!(read_raw_fields(&blob, 2, blob.len()), None);
}

#[test]
fn jpeg_custom_reads_the_first_exif_segment() {
    let file = jpeg(&paris_tiff(false));
    let found = extract_metadata_from_jpeg_custom(&file).unwrap();
    assert!(close(found.coordinate.unwrap().latitude, 48.875));
    assert!(close(found.coordinate.unwrap().longitude, 2.351667));
    assert_eq!(extract_metadata_from_jpeg_custom(b"\xFF\xD8\xFF\xE1\x00\x10Exif\0\0ZZ\0\0\0\0\0\0"), Err(ExifError::NotFound));
    assert_eq!(extract_metadata_from_jpeg_custom(&paris_tiff(false)), Err(ExifError::NotFound));
}

#[test]
fn heif_custom_searches_for_the_exif_word() {
    let mut file = b"\0\0\0\x18ftypheic....".to_vec();
    file.extend_from_slice(b"Exif\0\0");
    file.extend_from_slice(&paris_tiff(true));
    let found = extract_metadata_from_heif_custom(&file).unwrap();
    assert!(close(found.coordinate.unwrap().latitude, 48.875));
    assert_eq!(extract_metadata_from_heif_custom(b"no such word here"), Err(ExifError::NotFound));
    assert_eq!(extract_metadata_from_heif_custom(b"Exif"), Err(ExifError::NotFound));
    assert_eq!(extract_metadata_from_heif_custom(b"Exif\0\0ZZZZZZ"), Err(ExifError::NotFound));
}
