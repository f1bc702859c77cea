//! The ordered chain of strategies that recovers the metadata of one file.
//!
//! Each strategy is an attempt that either gives a result or gives nothing;
//! no failure of one strategy ends the chain. Only when every strategy that
//! applies to the type of the file has given nothing is the file reported as
//! having no coordinate.

use vstd::prelude::*;
use crate::coordinate::{coordinate_of, make_coordinate, GeoCoordinate};
use crate::error::ExifError;
use crate::field::{ExifField, FieldModel};
use crate::file_kind::{kind_of_extension, FileKind};
use crate::gps::{
    extract_gps_from_malformed_exif,
    malformed_scan,
    TAG_GPS_LATITUDE,
    TAG_GPS_LATITUDE_REF,
    TAG_GPS_LONGITUDE,
    TAG_GPS_LONGITUDE_REF,
};
use crate::heif::{exif_kind, find_tiff_offset, tiff_offset, BlockModel, MetadataBlock};
use crate::jpeg::{is_jpeg, starts_with_soi};
use crate::reader::{
    container_fields,
    models,
    raw_fields,
    read_container_fields,
    read_raw_fields,
};
use crate::resolver::{directory_angle, get_gps_coord, gps_angle, try_get_gps_from_ifd};
use crate::timestamp::{capture_time, get_datetime_from_exif, CaptureTimestamp};

verus! {

/// What an extraction returns: where a photo was taken, and when.
#[derive(Clone, Copy, Debug, PartialEq, Eq)]
pub struct ExtractionResult {
    /// The place, present in every result that a strategy gives.
    pub coordinate: Option<GeoCoordinate>,
    /// The capture time, if the file states one.
    pub timestamp: Option<CaptureTimestamp>,
}

impl ExtractionResult {
    /// The coordinate lies on the globe and the time in its calendar ranges.
    pub open spec fn wf(self) -> bool {
        &&& self.coordinate matches Some(point) && point.wf()
        &&& self.timestamp matches Some(stamp) ==> stamp.wf()
    }
}

/// One way of looking for the metadata of a file.
#[derive(Clone, Copy, Debug, PartialEq, Eq, Structural)]
pub enum ExtractionStrategy {
    /// The standard walk, reading the GPS fields of the primary image directory.
    StandardPrimaryDirectory,
    /// The standard walk, reading the GPS fields of whatever directory has them.
    AllDirectoriesScan,
    /// Direct inspection of the bytes, trusting no link between directories.
    MalformedByteScan,
    /// The EXIF blocks that a HEIF container lists.
    HeifContainer,
    /// A JPEG file that carries the extension of a HEIF file.
    JpegDisguisedAsHeif,
}

/// The coordinate that the primary image directory holds.
pub open spec fn primary_coordinate(fields: Seq<FieldModel>) -> Option<GeoCoordinate> {
    coordinate_of(
        directory_angle(fields, TAG_GPS_LATITUDE, TAG_GPS_LATITUDE_REF, 0),
        directory_angle(fields, TAG_GPS_LONGITUDE, TAG_GPS_LONGITUDE_REF, 0),
    )
}

/// The coordinate that the fields hold in whatever directory.
pub open spec fn any_directory_coordinate(fields: Seq<FieldModel>) -> Option<GeoCoordinate> {
    coordinate_of(
        gps_angle(fields, TAG_GPS_LATITUDE, TAG_GPS_LATITUDE_REF),
        gps_angle(fields, TAG_GPS_LONGITUDE, TAG_GPS_LONGITUDE_REF),
    )
}

/// A coordinate together with the capture time of the fields it came with.
pub open spec fn located(point: Option<GeoCoordinate>, fields: Seq<FieldModel>) -> Option<
    ExtractionResult,
> {
    match point {
        Some(p) => Some(ExtractionResult { coordinate: Some(p), timestamp: capture_time(fields) }),
        None => None,
    }
}

/// The first of two attempts that gives a result.
pub open spec fn first_of(first: Option<ExtractionResult>, second: Option<ExtractionResult>)
    -> Option<ExtractionResult> {
    if first is Some {
        first
    } else {
        second
    }
}

/// What the strategy [`ExtractionStrategy::StandardPrimaryDirectory`] gives.
pub open spec fn standard_primary(data: Seq<u8>) -> Option<ExtractionResult> {
    match container_fields(data, true) {
        Some(fields) => located(primary_coordinate(fields), fields),
        None => None,
    }
}

/// What the strategy [`ExtractionStrategy::AllDirectoriesScan`] gives.
pub open spec fn all_directories(data: Seq<u8>) -> Option<ExtractionResult> {
    match container_fields(data, true) {
        Some(fields) => located(any_directory_coordinate(fields), fields),
        None => None,
    }
}

/// The capture time that the strict standard walk finds in a file.
pub open spec fn strict_capture_time(data: Seq<u8>) -> Option<CaptureTimestamp> {
    match container_fields(data, false) {
        Some(fields) => capture_time(fields),
        None => None,
    }
}

/// What the strategy [`ExtractionStrategy::MalformedByteScan`] gives.
pub open spec fn malformed_byte_scan(data: Seq<u8>) -> Option<ExtractionResult> {
    match malformed_scan(data) {
        Ok(point) => Some(
            ExtractionResult { coordinate: Some(point), timestamp: strict_capture_time(data) },
        ),
        Err(_) => None,
    }
}

/// What the chain of a JPEG file gives: the primary directory, then all
/// directories, then the byte scan.
pub open spec fn jpeg_outcome(data: Seq<u8>) -> Option<ExtractionResult> {
    first_of(standard_primary(data), first_of(all_directories(data), malformed_byte_scan(data)))
}

/// What one block of a HEIF container gives.
pub open spec fn block_outcome(block: BlockModel) -> Option<ExtractionResult> {
    if block.kind == exif_kind() {
        match tiff_offset(block.data) {
            Some(offset) => match raw_fields(
                block.data.subrange(offset, block.data.len() as int),
            ) {
                Some(fields) => located(any_directory_coordinate(fields), fields),
                None => None,
            },
            None => None,
        }
    } else {
        None
    }
}

/// What the strategy [`ExtractionStrategy::HeifContainer`] gives: the result of
/// the first block, from `from` on, that gives one.
pub open spec fn heif_container(blocks: Seq<BlockModel>, from: int) -> Option<ExtractionResult>
    decreases blocks.len() - from,
{
    if from < 0 || from >= blocks.len() {
        None
    } else if block_outcome(blocks[from]) is Some {
        block_outcome(blocks[from])
    } else {
        heif_container(blocks, from + 1)
    }
}

/// What the strategy [`ExtractionStrategy::JpegDisguisedAsHeif`] gives.
pub open spec fn jpeg_disguised(data: Seq<u8>) -> Option<ExtractionResult> {
    if starts_with_soi(data) {
        jpeg_outcome(data)
    } else {
        None
    }
}

/// What the chain of a HEIF file gives: the blocks of the container, then the
/// JPEG chain if the file is a JPEG in disguise.
pub open spec fn heif_outcome(blocks: Seq<BlockModel>, data: Seq<u8>) -> Option<ExtractionResult> {
    first_of(heif_container(blocks, 0), jpeg_disguised(data))
}

/// What one strategy gives on the blocks and the bytes of a file.
pub open spec fn attempt_outcome(
    strategy: ExtractionStrategy,
    blocks: Seq<BlockModel>,
    data: Seq<u8>,
) -> Option<ExtractionResult> {
    match strategy {
        ExtractionStrategy::StandardPrimaryDirectory => standard_primary(data),
        ExtractionStrategy::AllDirectoriesScan => all_directories(data),
        ExtractionStrategy::MalformedByteScan => malformed_byte_scan(data),
        ExtractionStrategy::HeifContainer => heif_container(blocks, 0),
        ExtractionStrategy::JpegDisguisedAsHeif => jpeg_disguised(data),
    }
}

/// The strategies that apply to a type of file, in the order in which they are
/// tried.
pub open spec fn strategy_chain(kind: FileKind) -> Seq<ExtractionStrategy> {
    match kind {
        FileKind::Jpeg => seq![
            ExtractionStrategy::StandardPrimaryDirectory,
            ExtractionStrategy::AllDirectoriesScan,
            ExtractionStrategy::MalformedByteScan,
        ],
        FileKind::Heif => seq![
            ExtractionStrategy::HeifContainer,
            ExtractionStrategy::JpegDisguisedAsHeif,
        ],
        FileKind::OtherRaster => seq![ExtractionStrategy::StandardPrimaryDirectory],
    }
}

/// The result of the first strategy of a chain, from `from` on, that gives one.
pub open spec fn chain_outcome(
    chain: Seq<ExtractionStrategy>,
    blocks: Seq<BlockModel>,
    data: Seq<u8>,
    from: int,
) -> Option<ExtractionResult>
    decreases chain.len() - from,
{
    if from < 0 || from >= chain.len() {
        None
    } else if attempt_outcome(chain[from], blocks, data) is Some {
        attempt_outcome(chain[from], blocks, data)
    } else {
        chain_outcome(chain, blocks, data, from + 1)
    }
}

/// A result, or the report that every strategy gave nothing.
pub open spec fn found_or_not(outcome: Option<ExtractionResult>) -> Result<
    ExtractionResult,
    ExifError,
> {
    match outcome {
        Some(result) => Ok(result),
        None => Err(ExifError::NotFound),
    }
}

/// What [`extract`] returns.
pub open spec fn extraction(kind: FileKind, blocks: Seq<BlockModel>, data: Seq<u8>) -> Result<
    ExtractionResult,
    ExifError,
> {
    found_or_not(chain_outcome(strategy_chain(kind), blocks, data, 0))
}

/// Pairs a coordinate with the capture time of the fields it came with.
fn locate(point: Option<GeoCoordinate>, fields: &Vec<ExifField>) -> (result: Option<
    ExtractionResult,
>)
    requires
        point matches Some(p) ==> p.wf(),
    ensures
        result == located(point, fields.deep_view()),
        result matches Some(r) ==> r.wf(),
{
    match point {
        Some(p) => Some(
            ExtractionResult { coordinate: Some(p), timestamp: get_datetime_from_exif(fields) },
        ),
        None => None,
    }
}

/// Looks for the metadata in the primary image directory of parsed fields.
///
/// There is a result exactly when both the latitude and the longitude of the
/// primary directory resolve, each with its hemisphere letter, to a place on
/// the globe.
pub fn locate_in_primary(fields: &Vec<ExifField>) -> (result: Option<ExtractionResult>)
    ensures
        result == located(primary_coordinate(fields.deep_view()), fields.deep_view()),
        result matches Some(r) ==> r.wf(),
{
    let latitude = try_get_gps_from_ifd(fields, TAG_GPS_LATITUDE, TAG_GPS_LATITUDE_REF, 0);
    let longitude = try_get_gps_from_ifd(fields, TAG_GPS_LONGITUDE, TAG_GPS_LONGITUDE_REF, 0);
    locate(make_coordinate(latitude, longitude), fields)
}

/// Looks for the metadata in every directory of parsed fields.
///
/// Each axis is taken from the primary directory where that resolves, else
/// from the first angle and reference that share a directory.
pub fn locate_in_any_directory(fields: &Vec<ExifField>) -> (result: Option<ExtractionResult>)
    ensures
        result == located(any_directory_coordinate(fields.deep_view()), fields.deep_view()),
        result matches Some(r) ==> r.wf(),
{
    let latitude = get_gps_coord(fields, TAG_GPS_LATITUDE, TAG_GPS_LATITUDE_REF);
    let longitude = get_gps_coord(fields, TAG_GPS_LONGITUDE, TAG_GPS_LONGITUDE_REF);
    locate(make_coordinate(latitude, longitude), fields)
}

/// Pairs the coordinate of a byte scan with the capture time that the strict
/// standard walk finds, if it finds any.
pub fn with_capture_time(point: GeoCoordinate, strict_fields: &Option<Vec<ExifField>>) -> (result:
    ExtractionResult)
    requires
        point.wf(),
    ensures
        result.coordinate == Some(point),
        result.timestamp == match models(*strict_fields) {
            Some(fields) => capture_time(fields),
            None => None,
        },
        result.wf(),
{
    let timestamp = match strict_fields {
        Some(fields) => get_datetime_from_exif(fields),
        None => None,
    };
    ExtractionResult { coordinate: Some(point), timestamp }
}

/// Runs the byte scan on the bytes of a file.
fn attempt_byte_scan(data: &[u8]) -> (result: Option<ExtractionResult>)
    ensures
        result == malformed_byte_scan(data@),
        result matches Some(r) ==> r.wf(),
{
    match extract_gps_from_malformed_exif(data) {
        Ok(point) => {
            let strict_fields = read_container_fields(data, false);
            Some(with_capture_time(point, &strict_fields))
        },
        Err(_) => None,
    }
}

/// Looks for the metadata in one block of a HEIF container.
///
/// Only a block declared as EXIF is read. The prefix before its TIFF header is
/// stripped, the rest parsed, and the coordinate resolved from whatever
/// directory holds it.
pub fn attempt_block(block: &MetadataBlock) -> (result: Option<ExtractionResult>)
    ensures
        result == block_outcome(block.deep_view()),
        result matches Some(r) ==> r.wf(),
{
    if !block.declares_exif() {
        return None;
    }
    let bytes: &[u8] = block.data.as_slice();
    match find_tiff_offset(bytes) {
        Some(offset) => match read_raw_fields(bytes, offset, bytes.len()) {
            Some(fields) => locate_in_any_directory(&fields),
            None => None,
        },
        None => None,
    }
}

/// Looks for the metadata in the blocks of a HEIF container, in order.
fn attempt_blocks(blocks: &Vec<MetadataBlock>) -> (result: Option<ExtractionResult>)
    ensures
        result == heif_container(blocks.deep_view(), 0),
        result matches Some(r) ==> r.wf(),
{
    let mut index: usize = 0;
    while index < blocks.len()
        invariant
            index <= blocks@.len(),
            blocks.deep_view().len() == blocks@.len(),
            heif_container(blocks.deep_view(), index as int) == heif_container(
                blocks.deep_view(),
                0,
            ),
        decreases blocks@.len() - index,
    {
        let found = attempt_block(&blocks[index]);
        if found.is_some() {
            return found;
        }
        index += 1;
    }
    None
}

/// Runs the chain of a JPEG file and gives the first result.
fn attempt_jpeg(data: &[u8]) -> (result: Option<ExtractionResult>)
    ensures
        result == jpeg_outcome(data@),
        result matches Some(r) ==> r.wf(),
{
    match read_container_fields(data, true) {
        Some(fields) => {
            let primary = locate_in_primary(&fields);
            if primary.is_some() {
                return primary;
            }
            let scanned = locate_in_any_directory(&fields);
            if scanned.is_some() {
                return scanned;
            }
        },
        None => {},
    }
    attempt_byte_scan(data)
}

/// Makes one attempt: runs a single strategy on the blocks and the bytes of a
/// file.
///
/// The blocks are those that a HEIF demuxer lists for the file, with their
/// declared types; they are read by [`ExtractionStrategy::HeifContainer`]
/// alone, and the bytes by every other strategy. A strategy that fails gives
/// nothing: no error leaves an attempt.
pub fn attempt(strategy: ExtractionStrategy, blocks: &Vec<MetadataBlock>, data: &[u8]) -> (result:
    Option<ExtractionResult>)
    ensures
        result == attempt_outcome(strategy, blocks.deep_view(), data@),
        result matches Some(r) ==> r.wf(),
{
    match strategy {
        ExtractionStrategy::StandardPrimaryDirectory => match read_container_fields(data, true) {
            Some(fields) => locate_in_primary(&fields),
            None => None,
        },
        ExtractionStrategy::AllDirectoriesScan => match read_container_fields(data, true) {
            Some(fields) => locate_in_any_directory(&fields),
            None => None,
        },
        ExtractionStrategy::MalformedByteScan => attempt_byte_scan(data),
        ExtractionStrategy::HeifContainer => attempt_blocks(blocks),
        ExtractionStrategy::JpegDisguisedAsHeif => {
            if is_jpeg(data) {
                attempt_jpeg(data)
            } else {
                None
            }
        },
    }
}

/// Lists the strategies that apply to a type of file, in the order in which
/// they are tried.
pub fn strategies_for(kind: FileKind) -> (chain: Vec<ExtractionStrategy>)
    ensures
        chain@ == strategy_chain(kind),
{
    let mut chain: Vec<ExtractionStrategy> = Vec::new();
    match kind {
        FileKind::Jpeg => {
            chain.push(ExtractionStrategy::StandardPrimaryDirectory);
            chain.push(ExtractionStrategy::AllDirectoriesScan);
            chain.push(ExtractionStrategy::MalformedByteScan);
        },
        FileKind::Heif => {
            chain.push(ExtractionStrategy::HeifContainer);
            chain.push(ExtractionStrategy::JpegDisguisedAsHeif);
        },
        FileKind::OtherRaster => {
            chain.push(ExtractionStrategy::StandardPrimaryDirectory);
        },
    }
    proof {
        assert(chain@ =~= strategy_chain(kind));
    }
    chain
}

/// Extracts the metadata of one file of a given type.
///
/// The strategies of the type are tried in order and the first result is
/// returned. Only when all of them give nothing is the outcome
/// [`ExifError::NotFound`]; no other error is ever returned.
pub fn extract(kind: FileKind, blocks: &Vec<MetadataBlock>, data: &[u8]) -> (result: Result<
    ExtractionResult,
    ExifError,
>)
    ensures
        result == extraction(kind, blocks.deep_view(), data@),
        result matches Ok(r) ==> r.wf(),
{
    let chain = strategies_for(kind);
    let mut index: usize = 0;
    while index < chain.len()
        invariant
            index <= chain@.len(),
            chain@ == strategy_chain(kind),
            chain_outcome(chain@, blocks.deep_view(), data@, index as int) == chain_outcome(
                chain@,
                blocks.deep_view(),
                data@,
                0,
            ),
        decreases chain@.len() - index,
    {
        match attempt(chain[index], blocks, data) {
            Some(found) => { return Ok(found); },
            None => {},
        }
        index += 1;
    }
    Err(ExifError::NotFound)
}

/// What [`extract_by_extension`] returns.
pub open spec fn extraction_by_extension(
    extension: Seq<char>,
    blocks: Seq<BlockModel>,
    data: Seq<u8>,
) -> Result<ExtractionResult, ExifError> {
    match kind_of_extension(extension) {
        Some(kind) => extraction(kind, blocks, data),
        None => Err(ExifError::UnsupportedFormat),
    }
}

/// Extracts the metadata of one file, whose type is told by its extension.
///
/// An extension that declares no supported type gives
/// [`ExifError::UnsupportedFormat`] and nothing is read. Otherwise the chain of
/// the declared type runs, and the outcome is its result or
/// [`ExifError::NotFound`].
pub fn extract_by_extension(extension: &str, blocks: &Vec<MetadataBlock>, data: &[u8]) -> (result:
    Result<ExtractionResult, ExifError>)
    ensures
        result == extraction_by_extension(extension@, blocks.deep_view(), data@),
        result matches Ok(r) ==> r.wf(),
{
    match FileKind::from_extension(extension) {
        Some(kind) => extract(kind, blocks, data),
        None => Err(ExifError::UnsupportedFormat),
    }
}

/// Extracts the metadata of a JPEG file from its bytes.
///
/// The standard walk runs once, in the tolerant mode. The primary directory is
/// read first, then every directory; where both give nothing, or where the walk
/// failed outright, the bytes are scanned directly.
pub fn extract_metadata_from_jpeg(data: &[u8]) -> (result: Result<ExtractionResult, ExifError>)
    ensures
        result == found_or_not(jpeg_outcome(data@)),
        result matches Ok(r) ==> r.wf(),
{
    match attempt_jpeg(data) {
        Some(found) => Ok(found),
        None => Err(ExifError::NotFound),
    }
}

/// Extracts the metadata of a HEIF file from the blocks that a demuxer lists
/// for it and from its bytes.
///
/// The EXIF blocks are read in order. Where none gives a result and the bytes
/// begin with the start-of-image marker of JPEG, the file is a JPEG in disguise
/// and is handed to the JPEG chain as a whole.
pub fn extract_metadata_from_heic(blocks: &Vec<MetadataBlock>, data: &[u8]) -> (result: Result<
    ExtractionResult,
    ExifError,
>)
    ensures
        result == found_or_not(heif_outcome(blocks.deep_view(), data@)),
        result matches Ok(r) ==> r.wf(),
{
    let found = attempt_blocks(blocks);
    if found.is_some() {
        return Ok(found.unwrap());
    }
    if is_jpeg(data) {
        extract_metadata_from_jpeg(data)
    } else {
        Err(ExifError::NotFound)
    }
}

/// The chain of a JPEG file is the primary directory, then all directories,
/// then the byte scan.
pub proof fn jpeg_chain_outcome(blocks: Seq<BlockModel>, data: Seq<u8>)
    ensures
        chain_outcome(strategy_chain(FileKind::Jpeg), blocks, data, 0) == jpeg_outcome(data),
        extraction(FileKind::Jpeg, blocks, data) == found_or_not(jpeg_outcome(data)),
{
    reveal_with_fuel(chain_outcome, 4);
}

/// The chain of a HEIF file is the blocks of the container, then the JPEG
/// chain for a JPEG in disguise.
pub proof fn heif_chain_outcome(blocks: Seq<BlockModel>, data: Seq<u8>)
    ensures
        chain_outcome(strategy_chain(FileKind::Heif), blocks, data, 0) == heif_outcome(
            blocks,
            data,
        ),
        extraction(FileKind::Heif, blocks, data) == found_or_not(heif_outcome(blocks, data)),
{
    reveal_with_fuel(chain_outcome, 3);
}

/// A file that is declared as HEIF but begins with the start-of-image marker
/// of JPEG, and whose container gives nothing, is handed to the JPEG chain:
/// its outcome is that of the same bytes declared as JPEG.
pub proof fn disguised_jpeg_takes_jpeg_path(blocks: Seq<BlockModel>, data: Seq<u8>)
    requires
        starts_with_soi(data),
        heif_container(blocks, 0) is None,
    ensures
        extraction(FileKind::Heif, blocks, data) == extraction(FileKind::Jpeg, blocks, data),
        heif_outcome(blocks, data) == jpeg_outcome(data),
{
    jpeg_chain_outcome(blocks, data);
    heif_chain_outcome(blocks, data);
}

/// A strategy that fails does not end the chain: where the standard walk gives
/// nothing, the outcome of a JPEG file is that of the byte scan, and where the
/// byte scan fails too, whatever its error, the file has no coordinate.
pub proof fn failed_strategy_is_passed_over(blocks: Seq<BlockModel>, data: Seq<u8>)
    requires
        standard_primary(data) is None,
        all_directories(data) is None,
    ensures
        jpeg_outcome(data) == malformed_byte_scan(data),
        malformed_scan(data) is Err ==> extraction(FileKind::Jpeg, blocks, data) == Err::<
            ExtractionResult,
            ExifError,
        >(ExifError::NotFound),
{
    jpeg_chain_outcome(blocks, data);
}

/// Extraction is a function of its input: two runs on the same type, blocks
/// and bytes return the same result.
pub proof fn extraction_is_repeatable(
    kind: FileKind,
    blocks: Seq<BlockModel>,
    data: Seq<u8>,
    first: Result<ExtractionResult, ExifError>,
    second: Result<ExtractionResult, ExifError>,
)
    requires
        first == extraction(kind, blocks, data),
        second == extraction(kind, blocks, data),
    ensures
        first == second,
{
}

/// The only error that an extraction of a supported type returns is the
/// report that nothing was found.
pub proof fn extraction_fails_only_as_not_found(
    kind: FileKind,
    blocks: Seq<BlockModel>,
    data: Seq<u8>,
)
    ensures
        extraction(kind, blocks, data) matches Err(e) ==> e == ExifError::NotFound,
{
}

} // verus!
