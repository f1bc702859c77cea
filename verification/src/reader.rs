//! Parsing of EXIF structures by the `exif` crate, handed on as plain fields.
//!
//! The parser itself is outside this crate and is taken on trust: what it
//! returns for given bytes has a name here, and the functions of this module
//! say how their results relate to that name.

use vstd::prelude::*;
use vstd::slice::slice_subrange;
use crate::field::{ExifField, FieldModel, FieldValue, TagContext};

verus! {

/// The parsed structure of the `exif` crate, `exif::Exif`. Nothing of its
/// inside is known here; what it holds is named by [`exif_fields`].
#[verifier::external_type_specification]
#[verifier::external_body]
pub struct ExExif(exif::Exif);

/// The fields that a parsed structure holds, in the order in which the parser
/// lists them.
pub uninterp spec fn exif_fields(parsed: exif::Exif) -> Seq<FieldModel>;

/// The fields that the parser finds in an image file, or nothing where it
/// gives up. In the tolerant mode it passes over errors that are not fatal and
/// keeps what it could read.
pub uninterp spec fn container_fields(data: Seq<u8>, tolerant: bool) -> Option<Seq<FieldModel>>;

/// The fields that the parser finds in a bare TIFF structure, or nothing where
/// it reports an error.
pub uninterp spec fn raw_fields(data: Seq<u8>) -> Option<Seq<FieldModel>>;

/// The content of a list of fields, if there is one.
pub open spec fn models(fields: Option<Vec<ExifField>>) -> Option<Seq<FieldModel>> {
    match fields {
        Some(list) => Some(list.deep_view()),
        None => None,
    }
}

/// Calls `exif::Reader::read_from_container` on the bytes of an image file,
/// after `exif::Reader::continue_on_error` with the given flag, and keeps a
/// partial result where the parser returns one. The contract claims only that
/// the outcome is a function of the bytes and the flag.
#[verifier::external_body]
fn parse_container(data: &[u8], tolerant: bool) -> (parsed: Option<exif::Exif>)
    ensures
        parsed matches Some(found) ==> container_fields(data@, tolerant) == Some(
            exif_fields(found),
        ),
        parsed is None ==> container_fields(data@, tolerant) is None,
{
    let mut reader = exif::Reader::new();
    reader.continue_on_error(tolerant);
    let outcome = reader.read_from_container(&mut std::io::Cursor::new(data));
    outcome.or_else(|e| e.distill_partial_result(|_| ())).ok()
}

/// Calls `exif::Reader::read_raw` on a copy of the bytes of a TIFF structure.
/// The contract claims only that the outcome is a function of the bytes.
#[verifier::external_body]
fn parse_raw(data: &[u8]) -> (parsed: Option<exif::Exif>)
    ensures
        parsed matches Some(found) ==> raw_fields(data@) == Some(exif_fields(found)),
        parsed is None ==> raw_fields(data@) is None,
{
    exif::Reader::new().read_raw(data.to_vec()).ok()
}

/// The length of `exif::Exif::fields`: the number of fields of the structure.
#[verifier::external_body]
fn field_count(parsed: &exif::Exif) -> (count: usize)
    ensures
        count == exif_fields(*parsed).len(),
{
    parsed.fields().len()
}

/// The tag and the directory of the field at `index` of `exif::Exif::fields`:
/// the family and the number of its `tag`, and the index of its `ifd_num`.
#[verifier::external_body]
fn field_key(parsed: &exif::Exif, index: usize) -> (key: (TagContext, u16, u16))
    requires
        index < exif_fields(*parsed).len(),
    ensures
        key.0 == exif_fields(*parsed)[index as int].context,
        key.1 == exif_fields(*parsed)[index as int].tag,
        key.2 == exif_fields(*parsed)[index as int].ifd_num,
{
    let field = parsed.fields().nth(index).unwrap();
    let context = match field.tag.context() {
        exif::Context::Tiff => TagContext::Tiff,
        exif::Context::Exif => TagContext::Exif,
        exif::Context::Gps => TagContext::Gps,
        exif::Context::Interop => TagContext::Interop,
        _ => TagContext::Other,
    };
    (context, field.tag.number(), field.ifd_num.index())
}

/// The `value` of the field at `index` of `exif::Exif::fields`: its texts or
/// its rationals, each rational as numerator and denominator.
#[verifier::external_body]
fn field_value(parsed: &exif::Exif, index: usize) -> (value: FieldValue)
    requires
        index < exif_fields(*parsed).len(),
    ensures
        value.deep_view() == exif_fields(*parsed)[index as int].value,
{
    match &parsed.fields().nth(index).unwrap().value {
        exif::Value::Ascii(texts) => FieldValue::Ascii(texts.clone()),
        exif::Value::Rational(v) => FieldValue::Rational(v.iter().map(|r| (r.num, r.denom)).collect()),
        exif::Value::SRational(v) => FieldValue::SRational(v.iter().map(|r| (r.num, r.denom)).collect()),
        _ => FieldValue::Other,
    }
}

/// Copies the fields of a parsed structure out, in order.
fn collect_fields(parsed: &exif::Exif) -> (fields: Vec<ExifField>)
    ensures
        fields.deep_view() == exif_fields(*parsed),
{
    let count = field_count(parsed);
    let mut fields: Vec<ExifField> = Vec::new();
    let mut index: usize = 0;
    while index < count
        invariant
            index <= count,
            count == exif_fields(*parsed).len(),
            fields@.len() == index,
            forall|k: int|
                0 <= k < index ==> (#[trigger] fields@[k]).deep_view() == exif_fields(*parsed)[k],
        decreases count - index,
    {
        let key = field_key(parsed, index);
        let value = field_value(parsed, index);
        fields.push(ExifField { context: key.0, tag: key.1, ifd_num: key.2, value });
        index += 1;
    }
    proof {
        assert(fields.deep_view() =~= exif_fields(*parsed));
    }
    fields
}

/// Parses the EXIF structure of an image file.
///
/// The bytes are those of a whole file: JPEG, TIFF, HEIF, PNG or WebP. In the
/// tolerant mode the fields that could be read are returned even where parts
/// of the structure are broken. The result is [`container_fields`] of the bytes
/// and the mode.
pub fn read_container_fields(data: &[u8], tolerant: bool) -> (fields: Option<Vec<ExifField>>)
    ensures
        models(fields) == container_fields(data@, tolerant),
{
    match parse_container(data, tolerant) {
        Some(parsed) => Some(collect_fields(&parsed)),
        None => None,
    }
}

/// What [`read_raw_fields`] returns.
pub open spec fn raw_fields_between(data: Seq<u8>, start: int, end: int) -> Option<Seq<FieldModel>> {
    if 0 <= start <= end <= data.len() {
        raw_fields(data.subrange(start, end))
    } else {
        None
    }
}

/// Parses the bare TIFF structure that lies between `start` and `end` in the
/// buffer.
///
/// The result is [`raw_fields`] of those bytes, and nothing where the two
/// positions do not delimit a part of the buffer.
pub fn read_raw_fields(data: &[u8], start: usize, end: usize) -> (fields: Option<Vec<ExifField>>)
    ensures
        models(fields) == raw_fields_between(data@, start as int, end as int),
{
    if start > end || end > data.len() {
        return None;
    }
    let blob = slice_subrange(data, start, end);
    match parse_raw(blob) {
        Some(parsed) => Some(collect_fields(&parsed)),
        None => None,
    }
}

} // verus!
