//! The GPS coordinate of a parsed EXIF structure.
//!
//! An axis of the coordinate is looked up in the primary image directory
//! first. Some cameras store their GPS fields with another directory, so a
//! second lookup scans every field for an angle and a hemisphere letter that
//! share a directory.

use vstd::prelude::*;
use crate::coordinate::{resolve_coordinate, signed_decimal, DecimalDegrees, RationalValue};
use crate::field::{
    find_field,
    get_field,
    lemma_last_field,
    ExifField,
    FieldModel,
    FieldValue,
    TagContext,
    ValueModel,
};

verus! {

/// The degrees, minutes and seconds of a value, if it is an array of exactly
/// three rationals, signed or unsigned.
pub open spec fn rational_triple(value: ValueModel) -> Option<
    (RationalValue, RationalValue, RationalValue),
> {
    match value {
        ValueModel::Rational(pairs) => if pairs.len() == 3 {
            Some(
                (
                    RationalValue::Unsigned { num: pairs[0].0, den: pairs[0].1 },
                    RationalValue::Unsigned { num: pairs[1].0, den: pairs[1].1 },
                    RationalValue::Unsigned { num: pairs[2].0, den: pairs[2].1 },
                ),
            )
        } else {
            None
        },
        ValueModel::SRational(pairs) => if pairs.len() == 3 {
            Some(
                (
                    RationalValue::Signed { num: pairs[0].0, den: pairs[0].1 },
                    RationalValue::Signed { num: pairs[1].0, den: pairs[1].1 },
                    RationalValue::Signed { num: pairs[2].0, den: pairs[2].1 },
                ),
            )
        } else {
            None
        },
        _ => None,
    }
}

/// The hemisphere letter of a value: the first character of its first text.
pub open spec fn reference_of(value: ValueModel) -> Option<u8> {
    match value {
        ValueModel::Ascii(texts) => if texts.len() > 0 && texts[0].len() > 0 {
            Some(texts[0][0])
        } else {
            None
        },
        _ => None,
    }
}

/// The signed angle that an angle field and a reference field give together.
pub open spec fn pair_angle(angle: FieldModel, reference: FieldModel) -> Option<DecimalDegrees> {
    match (rational_triple(angle.value), reference_of(reference.value)) {
        (Some(triple), Some(letter)) => signed_decimal(triple.0, triple.1, triple.2, letter),
        _ => None,
    }
}

/// The signed angle of one axis as a single image directory holds it.
pub open spec fn directory_angle(
    fields: Seq<FieldModel>,
    coord_tag: u16,
    ref_tag: u16,
    ifd_num: u16,
) -> Option<DecimalDegrees> {
    match (
        get_field(fields, TagContext::Gps, coord_tag, ifd_num),
        get_field(fields, TagContext::Gps, ref_tag, ifd_num),
    ) {
        (Some(i), Some(j)) => pair_angle(fields[i], fields[j]),
        _ => None,
    }
}

/// Whether the fields at `i` and `j` are an angle and its reference: they carry
/// the two tags, share a directory, and resolve to an angle.
pub open spec fn is_pair(fields: Seq<FieldModel>, coord_tag: u16, ref_tag: u16, i: int, j: int)
    -> bool {
    &&& 0 <= i < fields.len()
    &&& 0 <= j < fields.len()
    &&& fields[i].context == TagContext::Gps
    &&& fields[i].tag == coord_tag
    &&& fields[j].context == TagContext::Gps
    &&& fields[j].tag == ref_tag
    &&& fields[i].ifd_num == fields[j].ifd_num
    &&& pair_angle(fields[i], fields[j]) is Some
}

/// The first reference from `from` on that pairs with the angle field at `i`.
pub open spec fn scan_references(
    fields: Seq<FieldModel>,
    coord_tag: u16,
    ref_tag: u16,
    i: int,
    from: int,
) -> Option<int>
    decreases fields.len() - from,
{
    if from < 0 || from >= fields.len() {
        None
    } else if is_pair(fields, coord_tag, ref_tag, i, from) {
        Some(from)
    } else {
        scan_references(fields, coord_tag, ref_tag, i, from + 1)
    }
}

/// The first pair of an angle and its reference, with the angle at `from` or
/// later: the earliest angle that has a reference, with its earliest reference.
pub open spec fn scan_pairs(fields: Seq<FieldModel>, coord_tag: u16, ref_tag: u16, from: int)
    -> Option<(int, int)>
    decreases fields.len() - from,
{
    if from < 0 || from >= fields.len() {
        None
    } else {
        match scan_references(fields, coord_tag, ref_tag, from, 0) {
            Some(j) => Some((from, j)),
            None => scan_pairs(fields, coord_tag, ref_tag, from + 1),
        }
    }
}

/// The signed angle of one axis found by the scan over all directories.
pub open spec fn scanned_angle(fields: Seq<FieldModel>, coord_tag: u16, ref_tag: u16) -> Option<
    DecimalDegrees,
> {
    match scan_pairs(fields, coord_tag, ref_tag, 0) {
        Some(pair) => pair_angle(fields[pair.0], fields[pair.1]),
        None => None,
    }
}

/// The signed angle of one axis: that of the primary directory, else that of
/// the scan over all directories.
pub open spec fn gps_angle(fields: Seq<FieldModel>, coord_tag: u16, ref_tag: u16) -> Option<
    DecimalDegrees,
> {
    match directory_angle(fields, coord_tag, ref_tag, 0) {
        Some(angle) => Some(angle),
        None => scanned_angle(fields, coord_tag, ref_tag),
    }
}

/// Reads the degrees, minutes and seconds of a value.
pub fn triple_of(value: &FieldValue) -> (triple: Option<
    (RationalValue, RationalValue, RationalValue),
>)
    ensures
        triple == rational_triple(value.deep_view()),
{
    match value {
        FieldValue::Rational(pairs) => {
            if pairs.len() == 3 {
                Some(
                    (
                        RationalValue::Unsigned { num: pairs[0].0, den: pairs[0].1 },
                        RationalValue::Unsigned { num: pairs[1].0, den: pairs[1].1 },
                        RationalValue::Unsigned { num: pairs[2].0, den: pairs[2].1 },
                    ),
                )
            } else {
                None
            }
        },
        FieldValue::SRational(pairs) => {
            if pairs.len() == 3 {
                Some(
                    (
                        RationalValue::Signed { num: pairs[0].0, den: pairs[0].1 },
                        RationalValue::Signed { num: pairs[1].0, den: pairs[1].1 },
                        RationalValue::Signed { num: pairs[2].0, den: pairs[2].1 },
                    ),
                )
            } else {
                None
            }
        },
        _ => None,
    }
}

/// Reads the hemisphere letter of a value.
pub fn letter_of(value: &FieldValue) -> (letter: Option<u8>)
    ensures
        letter == reference_of(value.deep_view()),
{
    match value {
        FieldValue::Ascii(texts) => {
            if texts.len() > 0 && texts[0].len() > 0 {
                proof {
                    assert(texts.deep_view().len() == texts@.len());
                    assert(texts.deep_view()[0] =~= texts@[0]@);
                }
                Some(texts[0][0])
            } else {
                proof {
                    assert(texts.deep_view().len() == texts@.len());
                    if texts@.len() > 0 {
                        assert(texts.deep_view()[0] =~= texts@[0]@);
                    }
                }
                None
            }
        },
        _ => None,
    }
}

/// Resolves the signed angle of an angle field and a reference field.
///
/// The angle field must hold exactly three rationals, signed or unsigned, with
/// no zero denominator; the reference field must hold a text, whose first
/// character is the hemisphere letter. Anything else gives no angle.
pub fn resolve_pair(angle: &ExifField, reference: &ExifField) -> (resolved: Option<DecimalDegrees>)
    ensures
        resolved == pair_angle(angle.deep_view(), reference.deep_view()),
        resolved matches Some(a) ==> a.wf(),
{
    match (triple_of(&angle.value), letter_of(&reference.value)) {
        (Some(triple), Some(letter)) => resolve_coordinate(triple.0, triple.1, triple.2, letter),
        _ => None,
    }
}

/// Resolves one axis of the coordinate from a single image directory.
///
/// The directory must hold both the angle and its hemisphere letter among its
/// GPS fields.
pub fn try_get_gps_from_ifd(fields: &Vec<ExifField>, coord_tag: u16, ref_tag: u16, ifd_num: u16)
    -> (angle: Option<DecimalDegrees>)
    ensures
        angle == directory_angle(fields.deep_view(), coord_tag, ref_tag, ifd_num),
        angle matches Some(a) ==> a.wf(),
{
    let i = find_field(fields, TagContext::Gps, coord_tag, ifd_num);
    let j = find_field(fields, TagContext::Gps, ref_tag, ifd_num);
    match (i, j) {
        (Some(i), Some(j)) => resolve_pair(&fields[i], &fields[j]),
        _ => None,
    }
}

/// Tells whether the fields at `i` and `j` are an angle and its reference.
fn check_pair(fields: &Vec<ExifField>, coord_tag: u16, ref_tag: u16, i: usize, j: usize) -> (angle:
    Option<DecimalDegrees>)
    requires
        i < fields@.len(),
        j < fields@.len(),
    ensures
        angle is Some <==> is_pair(fields.deep_view(), coord_tag, ref_tag, i as int, j as int),
        angle matches Some(a) ==> a.wf() && angle == pair_angle(
            fields.deep_view()[i as int],
            fields.deep_view()[j as int],
        ),
{
    let first = &fields[i];
    let second = &fields[j];
    if first.context == TagContext::Gps && first.tag == coord_tag && second.context
        == TagContext::Gps && second.tag == ref_tag && first.ifd_num == second.ifd_num {
        resolve_pair(first, second)
    } else {
        None
    }
}

/// Scans every field for an angle and a reference that share a directory.
///
/// The fields are taken in order: the earliest angle that has a reference
/// wins, with its earliest reference.
pub fn scan_all_directories(fields: &Vec<ExifField>, coord_tag: u16, ref_tag: u16) -> (angle:
    Option<DecimalDegrees>)
    ensures
        angle == scanned_angle(fields.deep_view(), coord_tag, ref_tag),
        angle matches Some(a) ==> a.wf(),
{
    let count: usize = fields.len();
    let mut i: usize = 0;
    while i < count
        invariant
            i <= count,
            count == fields@.len(),
            count == fields.deep_view().len(),
            scan_pairs(fields.deep_view(), coord_tag, ref_tag, i as int) == scan_pairs(
                fields.deep_view(),
                coord_tag,
                ref_tag,
                0,
            ),
        decreases count - i,
    {
        let mut j: usize = 0;
        while j < count
            invariant
                i < count,
                j <= count,
                count == fields@.len(),
                count == fields.deep_view().len(),
                scan_references(fields.deep_view(), coord_tag, ref_tag, i as int, j as int)
                    == scan_references(fields.deep_view(), coord_tag, ref_tag, i as int, 0),
                scan_pairs(fields.deep_view(), coord_tag, ref_tag, i as int) == scan_pairs(
                    fields.deep_view(),
                    coord_tag,
                    ref_tag,
                    0,
                ),
            decreases count - j,
        {
            match check_pair(fields, coord_tag, ref_tag, i, j) {
                Some(angle) => { return Some(angle); },
                None => {},
            }
            j += 1;
        }
        i += 1;
    }
    None
}

/// Resolves one axis of the coordinate from the fields of an EXIF structure.
///
/// The primary image directory is tried first. Where it gives nothing, all
/// fields are scanned for an angle and a reference that share a directory,
/// whatever that directory is.
pub fn get_gps_coord(fields: &Vec<ExifField>, coord_tag: u16, ref_tag: u16) -> (angle: Option<
    DecimalDegrees,
>)
    ensures
        angle == gps_angle(fields.deep_view(), coord_tag, ref_tag),
        angle matches Some(a) ==> a.wf(),
{
    match try_get_gps_from_ifd(fields, coord_tag, ref_tag, 0) {
        Some(angle) => Some(angle),
        None => scan_all_directories(fields, coord_tag, ref_tag),
    }
}

/// A reference at `j` that pairs with the angle at `i` is met by the scan from
/// any position up to `j`.
proof fn lemma_scan_references(
    fields: Seq<FieldModel>,
    coord_tag: u16,
    ref_tag: u16,
    i: int,
    from: int,
    j: int,
)
    requires
        0 <= from <= j,
        is_pair(fields, coord_tag, ref_tag, i, j),
    ensures
        scan_references(fields, coord_tag, ref_tag, i, from) is Some,
    decreases j - from,
{
    if !is_pair(fields, coord_tag, ref_tag, i, from) {
        lemma_scan_references(fields, coord_tag, ref_tag, i, from + 1, j);
    }
}

/// A pair with its angle at `i` is met by the scan from any position up to `i`.
proof fn lemma_scan_pairs(
    fields: Seq<FieldModel>,
    coord_tag: u16,
    ref_tag: u16,
    from: int,
    i: int,
    j: int,
)
    requires
        0 <= from <= i,
        is_pair(fields, coord_tag, ref_tag, i, j),
    ensures
        scan_pairs(fields, coord_tag, ref_tag, from) is Some,
    decreases i - from,
{
    if from == i {
        lemma_scan_references(fields, coord_tag, ref_tag, i, 0, j);
    } else if scan_references(fields, coord_tag, ref_tag, from, 0) is None {
        lemma_scan_pairs(fields, coord_tag, ref_tag, from + 1, i, j);
    }
}

/// What the scan for pairs finds is a pair.
proof fn lemma_scanned_pair_is_pair(fields: Seq<FieldModel>, coord_tag: u16, ref_tag: u16, from: int)
    requires
        0 <= from,
        scan_pairs(fields, coord_tag, ref_tag, from) is Some,
    ensures
        match scan_pairs(fields, coord_tag, ref_tag, from) {
            Some(pair) => is_pair(fields, coord_tag, ref_tag, pair.0, pair.1),
            None => false,
        },
    decreases fields.len() - from,
{
    match scan_references(fields, coord_tag, ref_tag, from, 0) {
        Some(j) => {
            lemma_found_reference_is_pair(fields, coord_tag, ref_tag, from, 0);
        },
        None => {
            lemma_scanned_pair_is_pair(fields, coord_tag, ref_tag, from + 1);
        },
    }
}

/// What the scan for a reference finds pairs with the angle.
proof fn lemma_found_reference_is_pair(
    fields: Seq<FieldModel>,
    coord_tag: u16,
    ref_tag: u16,
    i: int,
    from: int,
)
    requires
        0 <= from,
        scan_references(fields, coord_tag, ref_tag, i, from) is Some,
    ensures
        is_pair(fields, coord_tag, ref_tag, i, scan_references(fields, coord_tag, ref_tag, i, from)->0),
    decreases fields.len() - from,
{
    if !is_pair(fields, coord_tag, ref_tag, i, from) {
        lemma_found_reference_is_pair(fields, coord_tag, ref_tag, i, from + 1);
    }
}

/// An angle and a hemisphere letter that share a directory are found, whatever
/// that directory is and whether the rationals are signed or not.
///
/// If any two fields are an angle and its reference, the axis resolves; and
/// whenever the scan over all directories resolves an axis, the angle is that
/// of such a pair.
pub proof fn scan_finds_pair_in_any_directory(
    fields: Seq<FieldModel>,
    coord_tag: u16,
    ref_tag: u16,
    i: int,
    j: int,
)
    requires
        is_pair(fields, coord_tag, ref_tag, i, j),
    ensures
        scanned_angle(fields, coord_tag, ref_tag) is Some,
        gps_angle(fields, coord_tag, ref_tag) is Some,
        exists|a: int, b: int|
            is_pair(fields, coord_tag, ref_tag, a, b) && scanned_angle(fields, coord_tag, ref_tag)
                == pair_angle(fields[a], fields[b]),
{
    lemma_scan_pairs(fields, coord_tag, ref_tag, 0, i, j);
    lemma_scanned_pair_is_pair(fields, coord_tag, ref_tag, 0);
    let found = scan_pairs(fields, coord_tag, ref_tag, 0)->0;
    assert(is_pair(fields, coord_tag, ref_tag, found.0, found.1) && scanned_angle(
        fields,
        coord_tag,
        ref_tag,
    ) == pair_angle(fields[found.0], fields[found.1]));
}

/// Without any angle and reference that share a directory, an axis does not
/// resolve.
pub proof fn no_pair_no_angle(fields: Seq<FieldModel>, coord_tag: u16, ref_tag: u16)
    requires
        forall|a: int, b: int| !is_pair(fields, coord_tag, ref_tag, a, b),
    ensures
        gps_angle(fields, coord_tag, ref_tag) is None,
{
    if scan_pairs(fields, coord_tag, ref_tag, 0) is Some {
        lemma_scanned_pair_is_pair(fields, coord_tag, ref_tag, 0);
    }
    let primary_angle = get_field(fields, TagContext::Gps, coord_tag, 0);
    let primary_ref = get_field(fields, TagContext::Gps, ref_tag, 0);
    if primary_angle is Some && primary_ref is Some {
        lemma_last_field(fields, TagContext::Gps, coord_tag, 0, fields.len() as int);
        lemma_last_field(fields, TagContext::Gps, ref_tag, 0, fields.len() as int);
        assert(!is_pair(fields, coord_tag, ref_tag, primary_angle->0, primary_ref->0));
    }
}

} // verus!
