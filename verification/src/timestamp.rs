//! The capture time of a photo, from the date-time fields of its EXIF structure.

use vstd::prelude::*;
use vstd::utf8::{decode_utf8, valid_utf8};
use crate::field::{find_field, get_field, ExifField, FieldModel, FieldValue, TagContext, ValueModel};
use crate::text::{
    append_digits,
    append_four_digits,
    append_two_digits,
    decimal_digits,
    four_digits,
    two_digits,
};

verus! {

/// Tag of the time at which the picture was taken, in the EXIF directory.
pub const TAG_DATE_TIME_ORIGINAL: u16 = 0x9003;

/// Tag of the time at which the file was last changed, in the image directory.
pub const TAG_DATE_TIME: u16 = 0x0132;

/// A calendar date and a time of day, without a time zone.
#[derive(Clone, Copy, Debug, PartialEq, Eq, Structural)]
pub struct CaptureTimestamp {
    /// The year of the common era; zero and below for the years before it.
    pub year: i32,
    /// From 1 to 12.
    pub month: u32,
    /// From 1 to 31.
    pub day: u32,
    /// From 0 to 23.
    pub hour: u32,
    /// From 0 to 59.
    pub minute: u32,
    /// From 0 to 59.
    pub second: u32,
    /// Nanoseconds since the whole second; a billion or more during a leap second.
    pub nanosecond: u32,
}

impl CaptureTimestamp {
    /// Every part lies in its calendar range.
    pub open spec fn wf(self) -> bool {
        &&& 1 <= self.month <= 12
        &&& 1 <= self.day <= 31
        &&& self.hour <= 23
        &&& self.minute <= 59
        &&& self.second <= 59
        &&& self.nanosecond <= 1_999_999_999
    }
}

/// What `chrono::NaiveDateTime::parse_from_str` makes of a text under a format,
/// or nothing where it reports an error.
pub uninterp spec fn chrono_datetime(text: Seq<char>, format: Seq<char>) -> Option<
    CaptureTimestamp,
>;

/// Calls `chrono::NaiveDateTime::parse_from_str` and copies the parts of the
/// date and time out through `chrono::Datelike` and `chrono::Timelike`. The
/// contract claims that the outcome is a function of the text and the format,
/// and the ranges that those two traits document for their methods.
#[verifier::external_body]
fn parse_naive_datetime(text: &str, format: &str) -> (stamp: Option<CaptureTimestamp>)
    ensures
        stamp == chrono_datetime(text@, format@),
        stamp matches Some(t) ==> t.wf(),
{
    let parsed = chrono::NaiveDateTime::parse_from_str(text, format).ok()?;
    Some(
        CaptureTimestamp {
            year: chrono::Datelike::year(&parsed),
            month: chrono::Datelike::month(&parsed),
            day: chrono::Datelike::day(&parsed),
            hour: chrono::Timelike::hour(&parsed),
            minute: chrono::Timelike::minute(&parsed),
            second: chrono::Timelike::second(&parsed),
            nanosecond: chrono::Timelike::nanosecond(&parsed),
        },
    )
}

/// Calls `String::from_utf8`: the text that the bytes encode, or nothing where
/// they are not UTF-8.
#[verifier::external_body]
fn utf8_text(bytes: Vec<u8>) -> (text: Option<String>)
    ensures
        text is Some <==> valid_utf8(bytes@),
        text matches Some(s) ==> s@ == decode_utf8(bytes@),
{
    String::from_utf8(bytes).ok()
}

/// The format under which a normalised date-time text is parsed.
pub open spec fn datetime_format() -> Seq<char> {
    "%Y-%m-%dT%H:%M:%S"@
}

/// The number of colons among the first `end` bytes.
pub open spec fn colons_before(text: Seq<u8>, end: int) -> nat
    decreases end,
{
    if end <= 0 || end > text.len() {
        0
    } else if text[end - 1] == 0x3a {
        colons_before(text, end - 1) + 1
    } else {
        colons_before(text, end - 1)
    }
}

/// The byte that stands at `index` after normalisation.
pub open spec fn normalized_byte(text: Seq<u8>, index: int) -> u8 {
    if text[index] == 0x20 {
        0x54
    } else if text[index] == 0x3a && colons_before(text, index) < 2 {
        0x2d
    } else {
        text[index]
    }
}

/// The EXIF date-time text `YYYY:MM:DD HH:MM:SS` brought to the form
/// `YYYY-MM-DDTHH:MM:SS`: every space becomes `T` and the first two colons
/// become hyphens.
pub open spec fn normalized(text: Seq<u8>) -> Seq<u8> {
    Seq::new(text.len(), |i: int| normalized_byte(text, i))
}

/// How many spaces a text holds, and how many colons before and after its
/// first space.
pub struct Tally {
    /// The number of spaces.
    pub spaces: nat,
    /// The number of colons before the first space.
    pub date_colons: nat,
    /// The number of colons after the first space.
    pub time_colons: nat,
}

/// The tally of the first `end` bytes of a text.
pub open spec fn tally(text: Seq<u8>, end: int) -> Tally
    decreases end,
{
    if end <= 0 || end > text.len() {
        Tally { spaces: 0, date_colons: 0, time_colons: 0 }
    } else {
        let before = tally(text, end - 1);
        if text[end - 1] == 0x20 {
            Tally { spaces: before.spaces + 1, ..before }
        } else if text[end - 1] == 0x3a && before.spaces == 0 {
            Tally { date_colons: before.date_colons + 1, ..before }
        } else if text[end - 1] == 0x3a {
            Tally { time_colons: before.time_colons + 1, ..before }
        } else {
            before
        }
    }
}

/// Whether a text has the tokens of a date-time: one space between a date and
/// a time, three parts between colons in the date, and two parts at least in
/// the time.
pub open spec fn has_datetime_tokens(text: Seq<u8>) -> bool {
    let counted = tally(text, text.len() as int);
    counted.spaces == 1 && counted.date_colons == 2 && counted.time_colons >= 1
}

/// The time that a date-time text stands for: none unless the text has the
/// tokens of a date-time.
pub open spec fn text_timestamp(text: Seq<u8>) -> Option<CaptureTimestamp> {
    if has_datetime_tokens(text) && valid_utf8(normalized(text)) {
        chrono_datetime(decode_utf8(normalized(text)), datetime_format())
    } else {
        None
    }
}

/// The time that a field stands for: that of its first text.
pub open spec fn field_timestamp(field: FieldModel) -> Option<CaptureTimestamp> {
    match field.value {
        ValueModel::Ascii(texts) => if texts.len() > 0 {
            text_timestamp(texts[0])
        } else {
            None
        },
        _ => None,
    }
}

/// The time that the field of a tag in the primary directory stands for.
pub open spec fn tag_timestamp(fields: Seq<FieldModel>, context: TagContext, tag: u16) -> Option<
    CaptureTimestamp,
> {
    match get_field(fields, context, tag, 0) {
        Some(i) => field_timestamp(fields[i]),
        None => None,
    }
}

/// The capture time that a list of fields gives: the time at which the
/// picture was taken, else the time at which the file was last changed.
pub open spec fn capture_time(fields: Seq<FieldModel>) -> Option<CaptureTimestamp> {
    match tag_timestamp(fields, TagContext::Exif, TAG_DATE_TIME_ORIGINAL) {
        Some(stamp) => Some(stamp),
        None => tag_timestamp(fields, TagContext::Tiff, TAG_DATE_TIME),
    }
}

/// Brings an EXIF date-time text to the form that the parser takes.
pub fn normalize_datetime(text: &Vec<u8>) -> (out: Vec<u8>)
    ensures
        out@ == normalized(text@),
{
    let mut out: Vec<u8> = Vec::new();
    let mut colons: usize = 0;
    let mut index: usize = 0;
    while index < text.len()
        invariant
            index <= text@.len(),
            out@.len() == index,
            colons <= index,
            colons == colons_before(text@, index as int),
            forall|k: int| 0 <= k < index ==> out@[k] == normalized_byte(text@, k),
        decreases text@.len() - index,
    {
        let byte: u8 = text[index];
        if byte == 0x20 {
            out.push(0x54);
        } else if byte == 0x3a && colons < 2 {
            out.push(0x2d);
        } else {
            out.push(byte);
        }
        if byte == 0x3a {
            colons += 1;
        }
        index += 1;
    }
    proof {
        assert(out@ =~= normalized(text@));
    }
    out
}

/// Tells whether a text has the tokens of a date-time `YYYY:MM:DD HH:MM:SS`:
/// exactly one space, exactly two colons before it, and a colon after it.
pub fn has_tokens(text: &Vec<u8>) -> (yes: bool)
    ensures
        yes == has_datetime_tokens(text@),
{
    let mut spaces: usize = 0;
    let mut date_colons: usize = 0;
    let mut time_colons: usize = 0;
    let mut index: usize = 0;
    while index < text.len()
        invariant
            index <= text@.len(),
            spaces == tally(text@, index as int).spaces,
            date_colons == tally(text@, index as int).date_colons,
            time_colons == tally(text@, index as int).time_colons,
            spaces + date_colons + time_colons <= index,
        decreases text@.len() - index,
    {
        let byte: u8 = text[index];
        if byte == 0x20 {
            spaces += 1;
        } else if byte == 0x3a && spaces == 0 {
            date_colons += 1;
        } else if byte == 0x3a {
            time_colons += 1;
        }
        index += 1;
    }
    spaces == 1 && date_colons == 2 && time_colons >= 1
}

/// Parses an EXIF date-time text.
///
/// A text without the tokens of a date-time gives no time. Otherwise the text
/// is normalised, decoded as UTF-8 and handed to the date-time parser under
/// the format `%Y-%m-%dT%H:%M:%S`; a text that is not UTF-8, or that the
/// parser does not accept, gives no time either.
pub fn parse_datetime(text: &Vec<u8>) -> (stamp: Option<CaptureTimestamp>)
    ensures
        stamp == text_timestamp(text@),
        stamp matches Some(t) ==> t.wf(),
{
    if !has_tokens(text) {
        return None;
    }
    let bytes = normalize_datetime(text);
    match utf8_text(bytes) {
        Some(decoded) => parse_naive_datetime(decoded.as_str(), "%Y-%m-%dT%H:%M:%S"),
        None => None,
    }
}

/// Reads the time of one field: that of its first text.
pub fn field_datetime(field: &ExifField) -> (stamp: Option<CaptureTimestamp>)
    ensures
        stamp == field_timestamp(field.deep_view()),
        stamp matches Some(t) ==> t.wf(),
{
    match &field.value {
        FieldValue::Ascii(texts) => {
            if texts.len() > 0 {
                proof {
                    assert(texts.deep_view().len() == texts@.len());
                    assert(texts.deep_view()[0] =~= texts@[0]@);
                }
                parse_datetime(&texts[0])
            } else {
                None
            }
        },
        _ => None,
    }
}

/// Reads the time of the field that stands for a tag in the primary directory.
fn tag_datetime(fields: &Vec<ExifField>, context: TagContext, tag: u16) -> (stamp: Option<
    CaptureTimestamp,
>)
    ensures
        stamp == tag_timestamp(fields.deep_view(), context, tag),
        stamp matches Some(t) ==> t.wf(),
{
    match find_field(fields, context, tag, 0) {
        Some(i) => field_datetime(&fields[i]),
        None => None,
    }
}

/// Resolves the capture time from the fields of an EXIF structure.
///
/// The time at which the picture was taken is tried first, then the time at
/// which the file was last changed, both in the primary directory; the first
/// that parses wins. A text of another shape
/// gives no time, never an error.
pub fn get_datetime_from_exif(fields: &Vec<ExifField>) -> (stamp: Option<CaptureTimestamp>)
    ensures
        stamp == capture_time(fields.deep_view()),
        stamp matches Some(t) ==> t.wf(),
{
    match tag_datetime(fields, TagContext::Exif, TAG_DATE_TIME_ORIGINAL) {
        Some(stamp) => Some(stamp),
        None => tag_datetime(fields, TagContext::Tiff, TAG_DATE_TIME),
    }
}

/// The digits of the magnitude of a year: four at least.
pub open spec fn year_digits(magnitude: nat) -> Seq<char> {
    if magnitude < 10000 {
        four_digits(magnitude as int)
    } else {
        decimal_digits(magnitude)
    }
}

/// The text of a year: four digits for the years 0 to 9999, and a sign before
/// the digits of any other year.
pub open spec fn year_text(year: int) -> Seq<char> {
    if 0 <= year <= 9999 {
        four_digits(year)
    } else if year < 0 {
        "-"@ + year_digits((-year) as nat)
    } else {
        "+"@ + year_digits(year as nat)
    }
}

/// The second of the minute as a clock shows it: 60 during a leap second.
pub open spec fn clock_second(stamp: CaptureTimestamp) -> int {
    stamp.second + stamp.nanosecond / 1_000_000_000
}

/// The text `YYYY-MM-DD HH:MM:SS` of a time.
pub open spec fn timestamp_text(stamp: CaptureTimestamp) -> Seq<char> {
    year_text(stamp.year as int) + "-"@ + two_digits(stamp.month as int) + "-"@ + two_digits(
        stamp.day as int,
    ) + " "@ + two_digits(stamp.hour as int) + ":"@ + two_digits(stamp.minute as int) + ":"@
        + two_digits(clock_second(stamp))
}

/// The text under which the capture time of a photo is kept: that of the
/// time, or `Unknown Date` where there is none.
pub open spec fn capture_time_text(stamp: Option<CaptureTimestamp>) -> Seq<char> {
    match stamp {
        Some(t) => timestamp_text(t),
        None => "Unknown Date"@,
    }
}

/// Appends the text of a year.
fn append_year(out: &mut String, year: i32)
    ensures
        final(out)@ == old(out)@ + year_text(year as int),
{
    if 0 <= year && year <= 9999 {
        append_four_digits(out, year as u32);
    } else {
        let magnitude: u32 = if year < 0 {
            out.append("-");
            (-(year as i64)) as u32
        } else {
            out.append("+");
            year as u32
        };
        if magnitude < 10000 {
            append_four_digits(out, magnitude);
        } else {
            append_digits(out, magnitude);
        }
        proof {
            assert(final(out)@ =~= old(out)@ + year_text(year as int));
        }
    }
}

/// Writes a time as `YYYY-MM-DD HH:MM:SS`.
///
/// Every part but the year takes two digits. The year takes four, and a year
/// outside 0 to 9999 a sign before them. A leap second shows as second 60.
pub fn format_timestamp(stamp: &CaptureTimestamp) -> (text: String)
    requires
        stamp.wf(),
    ensures
        text@ == timestamp_text(*stamp),
{
    let mut text = String::new();
    append_year(&mut text, stamp.year);
    text.append("-");
    append_two_digits(&mut text, stamp.month);
    text.append("-");
    append_two_digits(&mut text, stamp.day);
    text.append(" ");
    append_two_digits(&mut text, stamp.hour);
    text.append(":");
    append_two_digits(&mut text, stamp.minute);
    text.append(":");
    append_two_digits(&mut text, stamp.second + stamp.nanosecond / 1_000_000_000);
    proof {
        assert(text@ =~= timestamp_text(*stamp));
    }
    text
}

/// Writes the text under which the capture time of a photo is kept: the time
/// as `YYYY-MM-DD HH:MM:SS`, or `Unknown Date` where there is none.
pub fn describe_capture_time(stamp: &Option<CaptureTimestamp>) -> (text: String)
    requires
        stamp matches Some(t) ==> t.wf(),
    ensures
        text@ == capture_time_text(*stamp),
{
    match stamp {
        Some(t) => format_timestamp(t),
        None => "Unknown Date".to_owned(),
    }
}

/// A text with a malformed count of tokens gives no time, whatever else it
/// holds, and so does a field whose first text is such a text.
pub proof fn malformed_tokens_give_no_time(text: Seq<u8>)
    requires
        !has_datetime_tokens(text),
    ensures
        text_timestamp(text) is None,
{
}

} // verus!
