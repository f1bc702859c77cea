//! The fields of a parsed EXIF structure, as plain values.

use vstd::prelude::*;

verus! {

/// The directory family that a tag number belongs to.
#[derive(Clone, Copy, Debug, PartialEq, Eq, Structural)]
pub enum TagContext {
    /// Tags of the image directories themselves.
    Tiff,
    /// Tags of the EXIF directory.
    Exif,
    /// Tags of the GPS directory.
    Gps,
    /// Tags of the interoperability directory.
    Interop,
    /// A family that this crate does not know.
    Other,
}

/// The value of a field, as far as the resolvers read it.
#[derive(Clone, Debug, PartialEq, Eq)]
pub enum FieldValue {
    /// Texts, one per zero-terminated string of the value.
    Ascii(Vec<Vec<u8>>),
    /// Unsigned rationals as pairs of numerator and denominator.
    Rational(Vec<(u32, u32)>),
    /// Signed rationals as pairs of numerator and denominator.
    SRational(Vec<(i32, i32)>),
    /// A value of any other format.
    Other,
}

/// One field of a parsed EXIF structure.
#[derive(Clone, Debug, PartialEq, Eq)]
pub struct ExifField {
    /// The family of the tag.
    pub context: TagContext,
    /// The tag number within its family.
    pub tag: u16,
    /// Index of the image directory that the field belongs to: 0 is the primary image.
    pub ifd_num: u16,
    /// The value.
    pub value: FieldValue,
}

/// The mathematical content of a [`FieldValue`].
pub enum ValueModel {
    /// Texts, one per zero-terminated string of the value.
    Ascii(Seq<Seq<u8>>),
    /// Unsigned rationals as pairs of numerator and denominator.
    Rational(Seq<(u32, u32)>),
    /// Signed rationals as pairs of numerator and denominator.
    SRational(Seq<(i32, i32)>),
    /// A value of any other format.
    Other,
}

/// The mathematical content of an [`ExifField`].
pub struct FieldModel {
    /// The family of the tag.
    pub context: TagContext,
    /// The tag number within its family.
    pub tag: u16,
    /// Index of the image directory that the field belongs to.
    pub ifd_num: u16,
    /// The value.
    pub value: ValueModel,
}

impl DeepView for FieldValue {
    type V = ValueModel;

    open spec fn deep_view(&self) -> ValueModel {
        match self {
            FieldValue::Ascii(texts) => ValueModel::Ascii(texts.deep_view()),
            FieldValue::Rational(pairs) => ValueModel::Rational(pairs@),
            FieldValue::SRational(pairs) => ValueModel::SRational(pairs@),
            FieldValue::Other => ValueModel::Other,
        }
    }
}

impl DeepView for ExifField {
    type V = FieldModel;

    open spec fn deep_view(&self) -> FieldModel {
        FieldModel {
            context: self.context,
            tag: self.tag,
            ifd_num: self.ifd_num,
            value: self.value.deep_view(),
        }
    }
}

/// Whether a field carries the given tag in the given image directory.
pub open spec fn field_is(field: FieldModel, context: TagContext, tag: u16, ifd_num: u16) -> bool {
    field.context == context && field.tag == tag && field.ifd_num == ifd_num
}

/// Index of the last field before `end` that carries the tag in the directory.
///
/// Where a tag occurs twice in a directory, the later field stands for it.
pub open spec fn last_field(
    fields: Seq<FieldModel>,
    context: TagContext,
    tag: u16,
    ifd_num: u16,
    end: int,
) -> Option<int>
    decreases end,
{
    if end <= 0 || end > fields.len() {
        None
    } else if field_is(fields[end - 1], context, tag, ifd_num) {
        Some(end - 1)
    } else {
        last_field(fields, context, tag, ifd_num, end - 1)
    }
}

/// The field that stands for a tag in a directory.
pub open spec fn get_field(fields: Seq<FieldModel>, context: TagContext, tag: u16, ifd_num: u16)
    -> Option<int> {
    last_field(fields, context, tag, ifd_num, fields.len() as int)
}

/// The field that stands for a tag carries that tag in that directory.
pub proof fn lemma_last_field(
    fields: Seq<FieldModel>,
    context: TagContext,
    tag: u16,
    ifd_num: u16,
    end: int,
)
    requires
        last_field(fields, context, tag, ifd_num, end) is Some,
    ensures
        0 <= last_field(fields, context, tag, ifd_num, end)->0 < end <= fields.len(),
        field_is(fields[last_field(fields, context, tag, ifd_num, end)->0], context, tag, ifd_num),
    decreases end,
{
    if end > 0 && end <= fields.len() && !field_is(fields[end - 1], context, tag, ifd_num) {
        lemma_last_field(fields, context, tag, ifd_num, end - 1);
    }
}

/// Tells whether a field carries the given tag in the given image directory.
pub fn is_field(field: &ExifField, context: TagContext, tag: u16, ifd_num: u16) -> (yes: bool)
    ensures
        yes == field_is(field.deep_view(), context, tag, ifd_num),
{
    field.context == context && field.tag == tag && field.ifd_num == ifd_num
}

/// Finds the field that stands for a tag in a directory: the last one that
/// carries it.
pub fn find_field(fields: &Vec<ExifField>, context: TagContext, tag: u16, ifd_num: u16) -> (index:
    Option<usize>)
    ensures
        index is Some <==> get_field(fields.deep_view(), context, tag, ifd_num) is Some,
        index matches Some(i) ==> get_field(fields.deep_view(), context, tag, ifd_num) == Some(
            i as int,
        ) && i < fields@.len(),
{
    let mut end: usize = fields.len();
    while end > 0
        invariant
            end <= fields@.len(),
            fields.deep_view().len() == fields@.len(),
            last_field(fields.deep_view(), context, tag, ifd_num, end as int) == get_field(
                fields.deep_view(),
                context,
                tag,
                ifd_num,
            ),
        decreases end,
    {
        if is_field(&fields[end - 1], context, tag, ifd_num) {
            return Some(end - 1);
        }
        end -= 1;
    }
    None
}

} // verus!
